use gameboy_emulator::machine::GameBoy;
use gameboy_emulator::power::fallback_boot_rom;

/// A cartridge that counts three timer interrupts and then leaves a
/// signature in work RAM.
fn counting_rom() -> Vec<u8> {
    let mut rom = vec![0u8; 0x8000];
    let handler: [u8; 11] = [
        0xF5, // PUSH AF
        0xFA, 0x00, 0xC0, // LD A, (0xC000)
        0x3C, // INC A
        0xEA, 0x00, 0xC0, // LD (0xC000), A
        0xF1, // POP AF
        0xD9, // RETI
        0x00,
    ];
    rom[0x50..0x5B].copy_from_slice(&handler);
    let main: [u8; 39] = [
        0x31, 0xFE, 0xFF, // LD SP, 0xFFFE
        0x3E, 0x04, 0xE0, 0xFF, // IE = timer
        0xAF, 0xE0, 0x0F, // IF = 0
        0xE0, 0x05, // TIMA = 0
        0x3E, 0xF0, 0xE0, 0x06, // TMA = 0xF0
        0x3E, 0x05, 0xE0, 0x07, // TAC = on, one count in 16 ticks
        0xFB, // EI
        0xFA, 0x00, 0xC0, // loop: LD A, (0xC000)
        0xFE, 0x03, // CP 3
        0x20, 0xF9, // JR NZ, loop
        0xF3, // DI
        0x3E, 0x42, 0xEA, 0x01, 0xC0, // LD (0xC001), 0x42
        0x76, // HALT
        0x00, 0x00, 0x00, 0x00,
    ];
    rom[0x100..0x127].copy_from_slice(&main);
    rom
}

#[test]
fn program_counts_timer_interrupts_and_leaves_its_signature() {
    let mut g = GameBoy::power_on(
        fallback_boot_rom(),
        vec![0; 0x2000],
        vec![0; 0x2000],
        vec![0; 0xA0],
        vec![0; 0x7F],
    )
    .unwrap();
    g.insert_cartridge(counting_rom(), None);
    g.store_byte_to_memory(0xFF50, 1);
    let mut cpu = g.registers();
    cpu.pc = 0x0100;
    cpu.cycles_to_wait = 0;
    g.set_registers(cpu);
    let mut samples = Vec::new();
    let mut steps = 0;
    while g.read_memory(0xC001) != 0x42 {
        assert_eq!(g.run_frame(1, &mut samples), Ok(false));
        steps += 1;
        assert!(steps < 5000);
    }
    assert_eq!(g.read_memory(0xC000), 3);
    assert_eq!(g.read_memory(0xC001), 0x42);
    assert!(!g.registers().ime);
    assert_eq!(g.registers().sp, 0xFFFE);
    assert_eq!(g.read_memory(0xFF05) & 0xF0, 0xF0);
    assert!(steps > 256 * 4 + 2 * 16 * 4);
    assert!(steps < 256 * 4 + 3 * 16 * 4 + 100);
    let mut more = 0;
    while !g.registers().halted {
        g.run_frame(1, &mut samples).unwrap();
        more += 1;
        assert!(more < 20);
    }
    assert_eq!(g.registers().pc, 0x0123);
}
