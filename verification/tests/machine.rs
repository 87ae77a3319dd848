use gameboy_emulator::cartridge::eram_size;
use gameboy_emulator::cpu::Cpu;
use gameboy_emulator::instruction_handling::UnknownOpcode;
use gameboy_emulator::machine::{GameBoy, InputState};
use gameboy_emulator::power::fallback_boot_rom;

fn machine() -> GameBoy {
    GameBoy::power_on(
        fallback_boot_rom(),
        vec![0; 0x2000],
        vec![0; 0x2000],
        vec![0; 0xA0],
        vec![0; 0x7F],
    )
    .unwrap()
}

fn load(g: &mut GameBoy, address: u16, bytes: &[u8]) {
    for (i, b) in bytes.iter().enumerate() {
        g.store_byte_to_memory(address + i as u16, *b);
    }
    let mut cpu = g.registers();
    cpu.pc = address;
    cpu.sp = 0xDFF0;
    cpu.cycles_to_wait = 0;
    g.set_registers(cpu);
    g.store_byte_to_memory(0xFF0F, 0x00);
    let mut cpu = g.registers();
    cpu.cycles_to_wait = 0;
    g.set_registers(cpu);
}

fn run_instructions(g: &mut GameBoy, count: usize) {
    for _ in 0..count {
        loop {
            g.process_next_instruction().unwrap();
            if g.registers().cycles_to_wait <= 1 {
                break;
            }
        }
        while g.registers().cycles_to_wait > 1 {
            g.process_next_instruction().unwrap();
        }
    }
}

fn with<F: FnOnce(&mut Cpu)>(g: &mut GameBoy, f: F) {
    let mut cpu = g.registers();
    f(&mut cpu);
    g.set_registers(cpu);
}

#[test]
fn power_on_state_is_documented_reset_state() {
    let g = machine();
    let cpu = g.registers();
    assert_eq!((cpu.pc, cpu.sp, cpu.a, cpu.f), (0, 0, 0, 0));
    assert!(!cpu.ime);
    assert!(!cpu.halted);
    assert_eq!(g.ppu_state().mode, 1);
    assert_eq!(g.read_memory(0xFF40), 0x00);
    assert_eq!(g.read_memory(0xFF41), 0x84);
    assert_eq!(g.read_memory(0xFF0F), 0xE1);
    assert_eq!(g.read_memory(0xFF26), 0x80);
    assert_eq!(g.read_memory(0xFFFF), 0x00);
    assert_eq!(g.banking().rom_bank, 1);
    assert!(g.banking().boot_enabled);
    assert_eq!(g.framebuffer().len(), 160 * 144);
    assert_eq!(g.read_memory(0x0000), 0x31);
    assert_eq!(g.read_memory(0x00FF), 0x50);
}

#[test]
fn power_on_refuses_wrong_sizes() {
    assert!(GameBoy::power_on(vec![0; 255], vec![0; 0x2000], vec![0; 0x2000], vec![0; 0xA0], vec![0; 0x7F]).is_none());
    assert!(GameBoy::power_on(vec![0; 256], vec![0; 0x2001], vec![0; 0x2000], vec![0; 0xA0], vec![0; 0x7F]).is_none());
    assert!(GameBoy::power_on(vec![0; 256], vec![0; 0x2000], vec![0; 0x1FFF], vec![0; 0xA0], vec![0; 0x7F]).is_none());
    assert!(GameBoy::power_on(vec![0; 256], vec![0; 0x2000], vec![0; 0x2000], vec![0; 0xA1], vec![0; 0x7F]).is_none());
    assert!(GameBoy::power_on(vec![0; 256], vec![0; 0x2000], vec![0; 0x2000], vec![0; 0xA0], vec![0; 0x80]).is_none());
    assert!(GameBoy::power_on(vec![0; 256], vec![0; 0x2000], vec![0; 0x2000], vec![0; 0xA0], vec![0; 0x7F]).is_some());
}

#[test]
fn new_fills_ram_and_maps_boot_code() {
    let g = GameBoy::new(None);
    assert_eq!(g.read_memory(0x0000), 0x31);
    assert_eq!(g.read_memory(0x0001), 0xFE);
    assert_eq!(g.registers().pc, 0);
    let image: Vec<u8> = (0..300u32).map(|i| (i % 251) as u8).collect();
    let g = GameBoy::new(Some(image));
    assert_eq!(g.read_memory(0x0005), 5);
    assert_eq!(g.read_memory(0x00FF), (255u32 % 251) as u8);
    let g = GameBoy::new(Some(vec![1, 2, 3]));
    assert_eq!(g.read_memory(0x0000), 0x31);
}

#[test]
fn work_ram_is_mirrored() {
    let mut g = machine();
    g.store_byte_to_memory(0xC123, 0x42);
    assert_eq!(g.read_memory(0xC123), 0x42);
    assert_eq!(g.read_memory(0xE123), 0x42);
    g.store_byte_to_memory(0xFDFF, 0x17);
    assert_eq!(g.read_memory(0xDDFF), 0x17);
}

#[test]
fn unusable_region_reads_ff_and_drops_writes() {
    let mut g = machine();
    g.store_byte_to_memory(0xFEA0, 0x12);
    assert_eq!(g.read_memory(0xFEA0), 0xFF);
    assert_eq!(g.read_memory(0xFEFF), 0xFF);
}

#[test]
fn high_ram_and_interrupt_enable() {
    let mut g = machine();
    g.store_byte_to_memory(0xFF80, 0x11);
    g.store_byte_to_memory(0xFFFE, 0x22);
    g.store_byte_to_memory(0xFFFF, 0x1F);
    assert_eq!(g.read_memory(0xFF80), 0x11);
    assert_eq!(g.read_memory(0xFFFE), 0x22);
    assert_eq!(g.read_memory(0xFFFF), 0x1F);
    assert_eq!(g.interrupt_enable(), 0x1F);
}

#[test]
fn every_access_costs_one_cycle() {
    let mut g = machine();
    let before = g.registers().cycles_to_wait;
    let _ = g.fetch_byte_from_memory(0xC000);
    assert_eq!(g.registers().cycles_to_wait, before + 1);
    g.store_byte_to_memory(0xC000, 1);
    assert_eq!(g.registers().cycles_to_wait, before + 2);
}

#[test]
fn rom_banks_and_boot_overlay() {
    let mut g = machine();
    let mut rom = vec![0u8; 0x10000];
    for bank in 0..4usize {
        for i in 0..0x4000usize {
            rom[bank * 0x4000 + i] = bank as u8 * 0x10 + (i & 0x0F) as u8;
        }
    }
    g.insert_cartridge(rom, None);
    assert_eq!(g.read_memory(0x0000), 0x31);
    assert_eq!(g.read_memory(0x0100), 0x00);
    assert_eq!(g.read_memory(0x4003), 0x13);
    g.store_byte_to_memory(0x2000, 0x03);
    assert_eq!(g.read_memory(0x4003), 0x33);
    g.store_byte_to_memory(0x2000, 0x00);
    assert_eq!(g.banking().rom_bank, 1);
    assert_eq!(g.read_memory(0x4003), 0x13);
    g.store_byte_to_memory(0x3FFF, 0x05);
    assert_eq!(g.read_memory(0x4003), 0x13);
    g.store_byte_to_memory(0xFF50, 0x01);
    assert!(!g.banking().boot_enabled);
    assert_eq!(g.read_memory(0x0003), 0x03);
}

#[test]
fn empty_rom_reads_ff() {
    let mut g = machine();
    assert_eq!(g.read_memory(0x0150), 0xFF);
    assert_eq!(g.read_memory(0x4000), 0xFF);
    g.store_byte_to_memory(0xFF50, 1);
    assert_eq!(g.read_memory(0x0000), 0xFF);
}

#[test]
fn cartridge_ram_is_gated_by_enable_latch() {
    let mut g = machine();
    let mut rom = vec![0u8; 0x8000];
    rom[0x149] = 3;
    g.insert_cartridge(rom, None);
    assert_eq!(g.save_data().len(), 0x8000);
    assert_eq!(g.save_data()[0], 0xFF);
    g.store_byte_to_memory(0xA000, 0x55);
    assert_eq!(g.read_memory(0xA000), 0xFF);
    g.store_byte_to_memory(0x0000, 0x0A);
    assert!(g.banking().eram_enabled);
    g.store_byte_to_memory(0xA000, 0x55);
    assert_eq!(g.read_memory(0xA000), 0x55);
    g.store_byte_to_memory(0x4000, 0x02);
    assert_eq!(g.banking().eram_bank, 2);
    assert_eq!(g.read_memory(0xA000), 0xFF);
    g.store_byte_to_memory(0xA000, 0x66);
    assert_eq!(g.save_data()[0x4000], 0x66);
    g.store_byte_to_memory(0x4000, 0x05);
    assert_eq!(g.banking().eram_bank, 1);
    g.store_byte_to_memory(0x0000, 0x00);
    assert_eq!(g.read_memory(0xA000), 0xFF);
}

#[test]
fn cartridge_ram_out_of_range_reads_ff() {
    let mut g = machine();
    let mut rom = vec![0u8; 0x8000];
    rom[0x149] = 1;
    g.insert_cartridge(rom, None);
    assert_eq!(g.save_data().len(), 0x800);
    g.store_byte_to_memory(0x0000, 0x0A);
    g.store_byte_to_memory(0x4000, 0x03);
    assert_eq!(g.banking().eram_bank, 0);
    g.store_byte_to_memory(0xA7FF, 0x12);
    assert_eq!(g.read_memory(0xA7FF), 0x12);
    g.store_byte_to_memory(0xA800, 0x34);
    assert_eq!(g.read_memory(0xA800), 0xFF);
}

#[test]
fn eram_size_table() {
    assert_eq!(eram_size(0), 0);
    assert_eq!(eram_size(1), 2 * 1024);
    assert_eq!(eram_size(2), 8 * 1024);
    assert_eq!(eram_size(3), 32 * 1024);
    assert_eq!(eram_size(4), 128 * 1024);
    assert_eq!(eram_size(5), 64 * 1024);
    assert_eq!(eram_size(6), 128 * 1024);
    assert_eq!(eram_size(0xFF), 128 * 1024);
}

#[test]
fn saved_ram_is_taken_as_is() {
    let mut g = machine();
    let mut rom = vec![0u8; 0x8000];
    rom[0x149] = 2;
    g.insert_cartridge(rom, Some(vec![7u8; 100]));
    assert_eq!(g.save_data().len(), 100);
    assert_eq!(g.save_data()[99], 7);
    let mut g = machine();
    g.insert_cartridge(vec![0u8; 0x8000], Some(vec![7u8; 100]));
    assert_eq!(g.save_data().len(), 0);
    let mut g = machine();
    g.insert_cartridge(vec![0u8; 0x100], None);
    assert_eq!(g.save_data().len(), 0);
}

#[test]
fn joypad_register_selects_a_nibble() {
    let mut g = machine();
    let mut input = InputState::default();
    input.down = true;
    input.a = true;
    g.update_input(&input);
    g.store_byte_to_memory(0xFF00, 0x20);
    assert_eq!(g.read_memory(0xFF00), 0xE7);
    g.store_byte_to_memory(0xFF00, 0x10);
    assert_eq!(g.read_memory(0xFF00), 0xDE);
    g.store_byte_to_memory(0xFF00, 0x30);
    assert_eq!(g.read_memory(0xFF00), 0xFF);
    g.update_input(&InputState::default());
    g.store_byte_to_memory(0xFF00, 0x20);
    assert_eq!(g.read_memory(0xFF00), 0xEF);
}

#[test]
fn divider_write_resets_divider() {
    let mut g = machine();
    for _ in 0..300 {
        g.handle_timer();
    }
    assert_eq!(g.timer_state().div, 1200);
    assert_eq!(g.read_memory(0xFF04), 4);
    g.store_byte_to_memory(0xFF04, 0x99);
    assert_eq!(g.timer_state().div, 0);
    g.handle_timer();
    assert_eq!(g.read_memory(0xFF04), 0);
}

#[test]
fn timer_overflows_once_after_256_ticks_at_rate_3() {
    let mut g = machine();
    g.store_byte_to_memory(0xFF0F, 0x00);
    g.store_byte_to_memory(0xFF06, 0x00);
    g.store_byte_to_memory(0xFF05, 0x00);
    g.store_byte_to_memory(0xFF04, 0x00);
    g.store_byte_to_memory(0xFF07, 0x07);
    for step in 1..=(256 * 64) {
        g.handle_timer();
        assert_eq!(g.timer_state().div, ((step * 4) & 0xFFFF) as u16);
        assert_eq!(g.read_memory(0xFF0F) & 0x04, 0);
        assert_eq!(g.read_memory(0xFF05), ((step / 64) & 0xFF) as u8);
    }
    assert!(g.timer_state().overflow);
    assert_eq!(g.read_memory(0xFF05), 0);
    g.handle_timer();
    assert_eq!(g.read_memory(0xFF0F) & 0x04, 0x04);
    assert_eq!(g.read_memory(0xFF05), 0);
    assert!(!g.timer_state().overflow);
    g.store_byte_to_memory(0xFF0F, 0x00);
    for _ in 0..(255 * 64) {
        g.handle_timer();
        assert_eq!(g.read_memory(0xFF0F) & 0x04, 0);
    }
}

#[test]
fn timer_reloads_from_modulo() {
    let mut g = machine();
    g.store_byte_to_memory(0xFF0F, 0x00);
    g.store_byte_to_memory(0xFF06, 0xF0);
    g.store_byte_to_memory(0xFF05, 0xFF);
    g.store_byte_to_memory(0xFF04, 0x00);
    g.store_byte_to_memory(0xFF07, 0x05);
    for _ in 0..3 {
        g.handle_timer();
        assert_eq!(g.read_memory(0xFF05), 0xFF);
    }
    g.handle_timer();
    assert_eq!(g.read_memory(0xFF05), 0x00);
    assert!(g.timer_state().overflow);
    g.handle_timer();
    assert_eq!(g.read_memory(0xFF05), 0xF0);
    assert_eq!(g.read_memory(0xFF0F) & 0x04, 0x04);
}

#[test]
fn disabled_timer_does_not_count() {
    let mut g = machine();
    g.store_byte_to_memory(0xFF05, 0x00);
    g.store_byte_to_memory(0xFF07, 0x01);
    for _ in 0..1000 {
        g.handle_timer();
    }
    assert_eq!(g.read_memory(0xFF05), 0x00);
}

#[test]
fn push_then_pop_yields_value_for_every_value() {
    let mut g = machine();
    with(&mut g, |c| c.sp = 0xD000);
    for x in 0..=0xFFFFu16 {
        g.push_stack(x);
        assert_eq!(g.registers().sp, 0xCFFE);
        assert_eq!(g.pop_stack(), x);
        assert_eq!(g.registers().sp, 0xD000);
    }
}

#[test]
fn push_stores_high_byte_first() {
    let mut g = machine();
    with(&mut g, |c| c.sp = 0xFFFE);
    g.push_stack(0x1234);
    assert_eq!(g.read_memory(0xFFFD), 0x12);
    assert_eq!(g.read_memory(0xFFFC), 0x34);
    assert_eq!(g.registers().sp, 0xFFFC);
}

#[test]
fn stack_pointer_wraps() {
    let mut g = machine();
    with(&mut g, |c| c.sp = 0x0001);
    g.push_stack(0xABCD);
    assert_eq!(g.registers().sp, 0xFFFF);
    assert_eq!(g.read_memory(0xFFFF), 0xCD);
}

#[test]
fn vblank_is_dispatched_before_timer() {
    let mut g = machine();
    g.store_byte_to_memory(0xFFFF, 0x05);
    g.store_byte_to_memory(0xFF0F, 0x05);
    with(&mut g, |c| {
        c.ime = true;
        c.sp = 0xD000;
        c.pc = 0x1234;
        c.cycles_to_wait = 0;
    });
    g.handle_interrupts();
    let cpu = g.registers();
    assert_eq!(cpu.pc, 0x0040);
    assert!(!cpu.ime);
    assert_eq!(cpu.sp, 0xCFFE);
    assert_eq!(cpu.cycles_to_wait, 5);
    assert_eq!(g.read_memory(0xFF0F), 0x04);
    assert_eq!(g.read_memory(0xCFFF), 0x12);
    assert_eq!(g.read_memory(0xCFFE), 0x34);
    with(&mut g, |c| c.ime = true);
    g.handle_interrupts();
    let cpu = g.registers();
    assert_eq!(cpu.pc, 0x0050);
    assert_eq!(g.read_memory(0xFF0F), 0x00);
    assert_eq!(g.read_memory(0xCFFD), 0x00);
    assert_eq!(g.read_memory(0xCFFC), 0x40);
    with(&mut g, |c| c.ime = true);
    g.handle_interrupts();
    assert_eq!(g.registers().pc, 0x0050);
}

#[test]
fn every_source_has_its_vector() {
    let vectors = [(0x01u8, 0x40u16), (0x02, 0x48), (0x04, 0x50), (0x08, 0x58), (0x10, 0x60)];
    for (mask, vector) in vectors {
        let mut g = machine();
        g.store_byte_to_memory(0xFFFF, 0x1F);
        g.store_byte_to_memory(0xFF0F, mask);
        with(&mut g, |c| {
            c.ime = true;
            c.sp = 0xD000;
        });
        g.handle_interrupts();
        assert_eq!(g.registers().pc, vector);
        assert_eq!(g.read_memory(0xFF0F), 0);
    }
}

#[test]
fn masked_or_disabled_interrupts_are_not_dispatched() {
    let mut g = machine();
    g.store_byte_to_memory(0xFFFF, 0x01);
    g.store_byte_to_memory(0xFF0F, 0x04);
    with(&mut g, |c| {
        c.ime = true;
        c.pc = 0x200;
        c.halted = true;
    });
    g.handle_interrupts();
    assert_eq!(g.registers().pc, 0x200);
    assert!(g.registers().halted);
    g.store_byte_to_memory(0xFF0F, 0x01);
    with(&mut g, |c| c.ime = false);
    g.handle_interrupts();
    assert_eq!(g.registers().pc, 0x200);
    assert!(!g.registers().halted);
    assert_eq!(g.read_memory(0xFF0F), 0x01);
}

#[test]
fn loads_and_arithmetic_program() {
    let mut g = machine();
    load(&mut g, 0xC000, &[0x3E, 0x12, 0x06, 0x34, 0x80, 0x21, 0x00, 0xD0, 0x77, 0x34, 0x7E, 0x2F]);
    run_instructions(&mut g, 3);
    assert_eq!(g.registers().a, 0x46);
    assert_eq!(g.registers().b, 0x34);
    assert_eq!(g.registers().f, 0x00);
    run_instructions(&mut g, 2);
    assert_eq!(g.read_memory(0xD000), 0x46);
    run_instructions(&mut g, 2);
    assert_eq!(g.registers().a, 0x47);
    run_instructions(&mut g, 1);
    assert_eq!(g.registers().a, 0xB8);
    assert_eq!(g.registers().f, 0x60);
    assert_eq!(g.registers().pc, 0xC00C);
}

#[test]
fn instruction_cycle_counts() {
    let mut g = machine();
    load(&mut g, 0xC000, &[0x00, 0x3E, 0x01, 0x21, 0x00, 0xD0, 0x36, 0x55, 0xCD, 0x00, 0xC1]);
    g.process_next_instruction().unwrap();
    assert_eq!(g.last_instruction_cycles(), 1);
    run_instructions(&mut g, 0);
    while g.registers().cycles_to_wait > 1 {
        g.process_next_instruction().unwrap();
    }
    g.process_next_instruction().unwrap();
    assert_eq!(g.registers().last_opcode, 0x3E);
    assert_eq!(g.last_instruction_cycles(), 2);
    while g.registers().cycles_to_wait > 1 {
        g.process_next_instruction().unwrap();
    }
    g.process_next_instruction().unwrap();
    assert_eq!(g.last_instruction_cycles(), 3);
    while g.registers().cycles_to_wait > 1 {
        g.process_next_instruction().unwrap();
    }
    g.process_next_instruction().unwrap();
    assert_eq!(g.registers().last_opcode, 0x36);
    assert_eq!(g.last_instruction_cycles(), 3);
    while g.registers().cycles_to_wait > 1 {
        g.process_next_instruction().unwrap();
    }
    g.process_next_instruction().unwrap();
    assert_eq!(g.registers().last_opcode, 0xCD);
    assert_eq!(g.last_instruction_cycles(), 6);
    assert_eq!(g.registers().pc, 0xC100);
}

#[test]
fn unknown_opcode_is_reported_with_its_address() {
    for opcode in [0xD3u8, 0xDB, 0xDD, 0xE3, 0xE4, 0xEB, 0xEC, 0xED, 0xF4, 0xFC, 0xFD] {
        let mut g = machine();
        load(&mut g, 0xC000, &[0x00, opcode]);
        assert_eq!(g.process_next_instruction(), Ok(()));
        assert_eq!(g.process_next_instruction(), Err(UnknownOpcode { opcode, pc: 0xC001 }));
        assert_eq!(g.registers().pc, 0xC002);
    }
}

#[test]
fn every_other_opcode_is_executed() {
    let unknown = [0xD3u8, 0xDB, 0xDD, 0xE3, 0xE4, 0xEB, 0xEC, 0xED, 0xF4, 0xFC, 0xFD];
    for opcode in 0..=255u8 {
        if unknown.contains(&opcode) {
            continue;
        }
        let mut g = machine();
        load(&mut g, 0xC000, &[opcode, 0x00, 0x00]);
        assert!(g.execute_instruction(opcode));
    }
}

#[test]
fn relative_jumps() {
    let mut g = machine();
    load(&mut g, 0xC000, &[0x18, 0x02, 0x00, 0x00, 0x18, 0xFA]);
    run_instructions(&mut g, 1);
    assert_eq!(g.registers().pc, 0xC004);
    run_instructions(&mut g, 1);
    assert_eq!(g.registers().pc, 0xC000);
    let mut g = machine();
    load(&mut g, 0xC000, &[0xAF, 0x20, 0x10, 0x28, 0x10]);
    run_instructions(&mut g, 2);
    assert_eq!(g.registers().pc, 0xC003);
    run_instructions(&mut g, 1);
    assert_eq!(g.registers().pc, 0xC015);
}

#[test]
fn call_and_return() {
    let mut g = machine();
    load(&mut g, 0xC000, &[0xCD, 0x10, 0xC0, 0x3C]);
    g.store_byte_to_memory(0xC010, 0x04);
    g.store_byte_to_memory(0xC011, 0xC9);
    with(&mut g, |c| c.cycles_to_wait = 0);
    run_instructions(&mut g, 1);
    assert_eq!(g.registers().pc, 0xC010);
    assert_eq!(g.registers().sp, 0xDFEE);
    assert_eq!(g.read_memory(0xDFEE), 0x03);
    assert_eq!(g.read_memory(0xDFEF), 0xC0);
    run_instructions(&mut g, 2);
    assert_eq!(g.registers().pc, 0xC003);
    assert_eq!(g.registers().sp, 0xDFF0);
    assert_eq!(g.registers().b, 1);
    run_instructions(&mut g, 1);
    assert_eq!(g.registers().a, 1);
}

#[test]
fn conditional_call_and_return_not_taken() {
    let mut g = machine();
    load(&mut g, 0xC000, &[0x37, 0xD4, 0x00, 0xD0, 0xD0, 0xDC, 0x00, 0xD0]);
    run_instructions(&mut g, 3);
    assert_eq!(g.registers().pc, 0xC005);
    assert_eq!(g.registers().sp, 0xDFF0);
    run_instructions(&mut g, 1);
    assert_eq!(g.registers().pc, 0xD000);
    assert_eq!(g.registers().sp, 0xDFEE);
}

#[test]
fn rst_calls_fixed_vectors() {
    for (opcode, vector) in [(0xC7u8, 0x00u16), (0xCF, 0x08), (0xD7, 0x10), (0xDF, 0x18), (0xE7, 0x20), (0xEF, 0x28), (0xF7, 0x30), (0xFF, 0x38)] {
        let mut g = machine();
        load(&mut g, 0xC000, &[opcode]);
        run_instructions(&mut g, 1);
        assert_eq!(g.registers().pc, vector);
        assert_eq!(g.read_memory(0xDFEE), 0x01);
        assert_eq!(g.read_memory(0xDFEF), 0xC0);
    }
}

#[test]
fn pop_af_clears_low_nibble_of_flags() {
    let mut g = machine();
    load(&mut g, 0xC000, &[0x01, 0xFF, 0x12, 0xC5, 0xF1, 0xF5, 0xD1]);
    run_instructions(&mut g, 3);
    assert_eq!(g.registers().a, 0x12);
    assert_eq!(g.registers().f, 0xF0);
    run_instructions(&mut g, 2);
    assert_eq!(g.registers().d, 0x12);
    assert_eq!(g.registers().e, 0xF0);
}

#[test]
fn indirect_loads_step_hl() {
    let mut g = machine();
    load(&mut g, 0xC000, &[0x21, 0xFF, 0xD0, 0x3E, 0x77, 0x22, 0x32, 0x2A, 0x3A]);
    run_instructions(&mut g, 3);
    assert_eq!(g.read_memory(0xD0FF), 0x77);
    assert_eq!((g.registers().h, g.registers().l), (0xD1, 0x00));
    run_instructions(&mut g, 1);
    assert_eq!(g.read_memory(0xD100), 0x77);
    assert_eq!((g.registers().h, g.registers().l), (0xD0, 0xFF));
    run_instructions(&mut g, 2);
    assert_eq!((g.registers().h, g.registers().l), (0xD0, 0xFF));
    assert_eq!(g.registers().a, 0x77);
}

#[test]
fn high_page_and_absolute_loads() {
    let mut g = machine();
    load(&mut g, 0xC000, &[0x3E, 0x5A, 0xE0, 0x80, 0x0E, 0x81, 0xE2, 0xEA, 0x00, 0xD0, 0xAF, 0xF0, 0x80, 0x47, 0xF2, 0x4F, 0xFA, 0x00, 0xD0]);
    run_instructions(&mut g, 5);
    assert_eq!(g.read_memory(0xFF80), 0x5A);
    assert_eq!(g.read_memory(0xFF81), 0x5A);
    assert_eq!(g.read_memory(0xD000), 0x5A);
    run_instructions(&mut g, 6);
    assert_eq!(g.registers().a, 0x5A);
    assert_eq!(g.registers().b, 0x5A);
    assert_eq!(g.registers().c, 0x5A);
}

#[test]
fn sixteen_bit_loads_and_stack_pointer_arithmetic() {
    let mut g = machine();
    load(&mut g, 0xC000, &[0x31, 0x00, 0xD0, 0x08, 0x00, 0xD1, 0xE8, 0xFF, 0xF8, 0x02, 0xF9, 0x33, 0x3B, 0x3B, 0x39]);
    run_instructions(&mut g, 2);
    assert_eq!(g.registers().sp, 0xD000);
    assert_eq!(g.read_memory(0xD100), 0x00);
    assert_eq!(g.read_memory(0xD101), 0xD0);
    run_instructions(&mut g, 1);
    assert_eq!(g.registers().sp, 0xCFFF);
    assert_eq!(g.registers().f, 0x00);
    run_instructions(&mut g, 1);
    assert_eq!((g.registers().h, g.registers().l), (0xD0, 0x01));
    assert_eq!(g.registers().f, 0x30);
    run_instructions(&mut g, 1);
    assert_eq!(g.registers().sp, 0xD001);
    run_instructions(&mut g, 3);
    assert_eq!(g.registers().sp, 0xD000);
    run_instructions(&mut g, 1);
    assert_eq!((g.registers().h, g.registers().l), (0xA0, 0x01));
    assert_eq!(g.registers().f, 0x10);
}

#[test]
fn prefixed_instructions() {
    let mut g = machine();
    load(&mut g, 0xC000, &[0x3E, 0xA5, 0xCB, 0x37, 0x21, 0x00, 0xD0, 0xCB, 0xC6, 0xCB, 0x7C, 0xCB, 0x46, 0xCB, 0x86, 0xCB, 0x46, 0xCB, 0x3F]);
    run_instructions(&mut g, 2);
    assert_eq!(g.registers().a, 0x5A);
    assert_eq!(g.registers().f, 0x00);
    run_instructions(&mut g, 2);
    assert_eq!(g.read_memory(0xD000), 0x01);
    run_instructions(&mut g, 1);
    assert_eq!(g.registers().f, 0x20);
    run_instructions(&mut g, 1);
    assert_eq!(g.registers().f, 0x20);
    run_instructions(&mut g, 2);
    assert_eq!(g.read_memory(0xD000), 0x00);
    assert_eq!(g.registers().f, 0xA0);
    run_instructions(&mut g, 1);
    assert_eq!(g.registers().a, 0x2D);
    assert_eq!(g.registers().f, 0x00);
}

#[test]
fn accumulator_rotates_clear_zero() {
    let mut g = machine();
    load(&mut g, 0xC000, &[0xAF, 0x07, 0x3E, 0x80, 0x17, 0x1F, 0x0F]);
    run_instructions(&mut g, 2);
    assert_eq!(g.registers().a, 0);
    assert_eq!(g.registers().f, 0x00);
    run_instructions(&mut g, 2);
    assert_eq!(g.registers().a, 0x00);
    assert_eq!(g.registers().f, 0x10);
    run_instructions(&mut g, 1);
    assert_eq!(g.registers().a, 0x80);
    assert_eq!(g.registers().f, 0x00);
    run_instructions(&mut g, 1);
    assert_eq!(g.registers().a, 0x40);
}

#[test]
fn enable_takes_effect_after_next_instruction() {
    let mut g = machine();
    load(&mut g, 0xC000, &[0xFB, 0x00, 0x00, 0x00]);
    g.store_byte_to_memory(0xFFFF, 0x01);
    with(&mut g, |c| c.cycles_to_wait = 0);
    g.process_next_instruction().unwrap();
    assert!(!g.registers().ime);
    assert!(g.registers().ime_pending);
    g.store_byte_to_memory(0xFF0F, 0x01);
    with(&mut g, |c| c.cycles_to_wait = 0);
    g.process_next_instruction().unwrap();
    assert_eq!(g.registers().pc, 0xC002);
    assert!(g.registers().ime);
    with(&mut g, |c| c.cycles_to_wait = 0);
    g.process_next_instruction().unwrap();
    assert!(!g.registers().ime);
    assert_eq!(g.read_memory(0xDFEE), 0x02);
    assert_eq!(g.read_memory(0xDFEF), 0xC0);
    assert_eq!(g.read_memory(0xFF0F) & 0x01, 0);
}

#[test]
fn disable_cancels_pending_enable() {
    let mut g = machine();
    load(&mut g, 0xC000, &[0xFB, 0xF3, 0x00]);
    g.process_next_instruction().unwrap();
    with(&mut g, |c| c.cycles_to_wait = 0);
    g.process_next_instruction().unwrap();
    assert!(!g.registers().ime);
    assert!(!g.registers().ime_pending);
    with(&mut g, |c| c.cycles_to_wait = 0);
    g.process_next_instruction().unwrap();
    assert!(!g.registers().ime);
}

#[test]
fn halt_stops_until_interrupt_is_pending() {
    let mut g = machine();
    load(&mut g, 0xC000, &[0x76, 0x3C]);
    g.store_byte_to_memory(0xFFFF, 0x04);
    with(&mut g, |c| c.cycles_to_wait = 0);
    g.process_next_instruction().unwrap();
    assert!(g.registers().halted);
    for _ in 0..10 {
        g.process_next_instruction().unwrap();
    }
    assert_eq!(g.registers().pc, 0xC001);
    assert_eq!(g.registers().a, 0);
    g.store_byte_to_memory(0xFF0F, 0x04);
    with(&mut g, |c| c.cycles_to_wait = 0);
    g.process_next_instruction().unwrap();
    assert!(!g.registers().halted);
    assert_eq!(g.registers().a, 1);
}

#[test]
fn stop_skips_its_operand() {
    let mut g = machine();
    load(&mut g, 0xC000, &[0x10, 0x00, 0x3C]);
    run_instructions(&mut g, 1);
    assert_eq!(g.registers().pc, 0xC002);
}

#[test]
fn dma_copies_one_byte_per_step() {
    let mut g = machine();
    for i in 0..160u16 {
        g.store_byte_to_memory(0xC000 + i, i as u8 ^ 0x5A);
    }
    g.store_byte_to_memory(0xFF46, 0xC0);
    assert_eq!(g.dma_state().counter, 160);
    assert_eq!(g.dma_state().source, 0xC000);
    g.run_dma();
    assert_eq!(g.dma_state().counter, 159);
    assert_eq!(g.read_memory(0xFE00), 0xFF);
    g.store_byte_to_memory(0xFE01, 0x77);
    for _ in 0..159 {
        g.run_dma();
    }
    assert_eq!(g.dma_state().counter, 0);
    for i in 0..160u16 {
        assert_eq!(g.read_memory(0xFE00 + i), i as u8 ^ 0x5A);
    }
    let cycles = g.registers().cycles_to_wait;
    g.run_dma();
    assert_eq!(g.registers().cycles_to_wait, cycles);
}

#[test]
fn run_frame_stops_at_budget_while_display_is_off() {
    let mut g = machine();
    load(&mut g, 0xC000, &[0x18, 0xFE]);
    let mut samples = Vec::new();
    assert_eq!(g.run_frame(1000, &mut samples), Ok(false));
    assert_eq!(g.run_frame(0, &mut samples), Ok(false));
    assert_eq!(g.timer_state().div, 4000);
    assert_eq!(g.apu_state().buffer_write_index, 1000);
    assert!(samples.is_empty());
}

#[test]
fn run_frame_ends_with_the_frame() {
    let mut g = machine();
    load(&mut g, 0xC000, &[0x18, 0xFE]);
    g.store_byte_to_memory(0xFF40, 0x91);
    let mut samples = Vec::new();
    assert_eq!(g.run_frame(100000, &mut samples), Ok(true));
    assert_eq!(g.ppu_state().ly, 144);
    assert_eq!(g.run_frame(100000, &mut samples), Ok(true));
    assert_eq!(g.ppu_state().ly, 0);
    assert!(samples.is_empty());
    assert_eq!(g.run_frame(100000, &mut samples), Ok(true));
    assert_eq!(g.ppu_state().ly, 144);
    assert_eq!(samples.len(), 512);
    assert_eq!(g.apu_state().buffer_write_index, 1140 + 144 * 114 - 16384);
    let mut steps = 0;
    loop {
        steps += 1;
        if g.advance(&mut samples).unwrap() {
            break;
        }
    }
    assert_eq!(g.ppu_state().ly, 0);
    assert_eq!(steps, 10 * 456 / 4);
    assert_eq!(samples.len(), 512);
}

#[test]
fn driver_step_is_one_machine_cycle() {
    let mut g = machine();
    load(&mut g, 0xC000, &[0x18, 0xFE]);
    g.store_byte_to_memory(0xFF40, 0x91);
    g.store_byte_to_memory(0xFF04, 0);
    let mut samples = Vec::new();
    let dots = g.ppu_state().dots_into_curr_mode;
    assert_eq!(g.advance(&mut samples), Ok(true));
    assert_eq!(g.timer_state().div, 4);
    assert_eq!(g.ppu_state().dots_into_curr_mode, dots + 4);
    assert_eq!(g.apu_state().buffer_write_index, 1);
    assert_eq!(g.advance(&mut samples), Ok(false));
    assert_eq!(g.timer_state().div, 8);
    assert_eq!(g.ppu_state().dots_into_curr_mode, dots + 8);
    assert_eq!(g.apu_state().buffer_write_index, 2);
}

#[test]
fn run_frame_reports_unknown_opcode() {
    let mut g = machine();
    load(&mut g, 0xC000, &[0xDD]);
    let mut samples = Vec::new();
    assert_eq!(g.run_frame(10, &mut samples), Err(UnknownOpcode { opcode: 0xDD, pc: 0xC000 }));
    assert!(samples.is_empty());
}

#[test]
fn dump_reads_memory_and_costs_cycles() {
    let mut g = machine();
    for i in 0..16u16 {
        g.store_byte_to_memory(0xC100 + i, (i * 3) as u8);
    }
    let cycles = g.registers().cycles_to_wait;
    let bytes = g.dump_memory(0xC100, 16);
    assert_eq!(bytes, (0..16u16).map(|i| (i * 3) as u8).collect::<Vec<u8>>());
    assert_eq!(g.registers().cycles_to_wait, cycles + 16);
    assert_eq!(g.dump_memory(0xFFFF, 0).len(), 0);
    assert_eq!(g.dump_memory(0xFF80, 0x7F).len(), 0x7F);
}

#[test]
fn driver_steps_hand_out_completed_samples() {
    let mut g = machine();
    load(&mut g, 0xC000, &[0x18, 0xFE]);
    g.store_byte_to_memory(0xFF24, 0x77);
    g.store_byte_to_memory(0xFF25, 0x11);
    g.store_byte_to_memory(0xFF11, 0x80);
    g.store_byte_to_memory(0xFF12, 0xF0);
    g.store_byte_to_memory(0xFF13, 0xFF);
    g.store_byte_to_memory(0xFF14, 0x87);
    let mut samples = vec![1u16, 2, 3];
    for _ in 0..16383 {
        assert_eq!(g.advance(&mut samples), Ok(false));
    }
    assert_eq!(samples, vec![1, 2, 3]);
    assert_eq!(g.advance(&mut samples), Ok(false));
    assert_eq!(samples.len(), 3 + 512);
    assert_eq!(&samples[..3], &[1, 2, 3]);
    assert!(samples[3..].iter().all(|s| *s == 32 * 210));
}

#[test]
fn trigger_resets_phase() {
    let mut g = machine();
    g.store_byte_to_memory(0xFF25, 0x11);
    g.store_byte_to_memory(0xFF13, 0xFF);
    g.store_byte_to_memory(0xFF14, 0x87);
    for _ in 0..3 {
        g.run_apu_cycle();
    }
    assert_eq!(g.apu_state().pulse1.duty_step, 3);
    g.store_byte_to_memory(0xFF14, 0x87);
    assert_eq!(g.apu_state().pulse1.duty_step, 0);
    assert_eq!(g.apu_state().pulse1.freq_counter, 0);
}

#[test]
fn register_access_outside_the_io_page_is_a_plain_cell() {
    let mut g = machine();
    assert!(g.handle_io_register_write(0x0004, 0x12));
    assert_eq!(g.handle_io_register_read(0xFF04), 0x12);
    assert_eq!(g.handle_io_register_read(0x1284), 0x12);
    assert_eq!(g.timer_state().div, 0);
    for _ in 0..4 {
        g.handle_timer();
    }
    assert!(g.handle_io_register_write(0xFF04, 0x12));
    assert_eq!(g.timer_state().div, 0);
}

#[test]
fn empty_rectangle_draws_nothing() {
    let mut buffer = vec![3u32; 4];
    gameboy_emulator::render::draw_rectangle(&mut buffer, 9, 2, 1, 0, 100, 2);
    gameboy_emulator::render::draw_rectangle(&mut buffer, 9, 0, 100, 5, 4, 2);
    assert_eq!(buffer, vec![3, 3, 3, 3]);
}

#[test]
fn button_press_requests_joypad_interrupt() {
    let mut g = machine();
    g.store_byte_to_memory(0xFF0F, 0x00);
    g.update_input(&InputState::default());
    assert_eq!(g.read_memory(0xFF0F), 0x00);
    let mut input = InputState::default();
    input.start = true;
    g.update_input(&input);
    assert_eq!(g.read_memory(0xFF0F), 0x10);
    g.store_byte_to_memory(0xFF0F, 0x00);
    g.update_input(&input);
    assert_eq!(g.read_memory(0xFF0F), 0x00);
    g.update_input(&InputState::default());
    assert_eq!(g.read_memory(0xFF0F), 0x00);
}

#[test]
fn flag_register_keeps_its_lower_nibble_clear() {
    let mut g = machine();
    with(&mut g, |c| c.f = 0xFF);
    assert_eq!(g.registers().f, 0xF0);
    load(&mut g, 0xC000, &[0x01, 0x0F, 0x12, 0xC5, 0xF1]);
    run_instructions(&mut g, 3);
    assert_eq!(g.registers().f & 0x0F, 0);
}

#[test]
fn input_state_bits() {
    let mut g = machine();
    let all = InputState {
        down: true,
        up: true,
        left: true,
        right: true,
        start: true,
        select: true,
        b: true,
        a: true,
    };
    g.update_input(&all);
    g.store_byte_to_memory(0xFF00, 0x20);
    assert_eq!(g.read_memory(0xFF00) & 0x0F, 0x00);
    g.store_byte_to_memory(0xFF00, 0x10);
    assert_eq!(g.read_memory(0xFF00) & 0x0F, 0x00);
    let one = InputState { up: true, b: true, ..InputState::default() };
    g.update_input(&one);
    g.store_byte_to_memory(0xFF00, 0x20);
    assert_eq!(g.read_memory(0xFF00) & 0x0F, 0x0B);
    g.store_byte_to_memory(0xFF00, 0x10);
    assert_eq!(g.read_memory(0xFF00) & 0x0F, 0x0D);
}
