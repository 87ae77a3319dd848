use gameboy_emulator::machine::GameBoy;
use gameboy_emulator::power::fallback_boot_rom;

fn sound() -> GameBoy {
    GameBoy::power_on(
        fallback_boot_rom(),
        vec![0; 0x2000],
        vec![0; 0x2000],
        vec![0; 0xA0],
        vec![0; 0x7F],
    )
    .unwrap()
}

fn quiet(g: &mut GameBoy) {
    g.store_byte_to_memory(0xFF25, 0x00);
    g.store_byte_to_memory(0xFF24, 0x77);
    g.store_byte_to_memory(0xFF10, 0x00);
}

#[test]
fn switched_off_unit_clears_its_registers() {
    let mut g = sound();
    assert_eq!(g.read_memory(0xFF11), 0x3F);
    g.store_byte_to_memory(0xFF26, 0x00);
    assert_eq!(g.read_memory(0xFF11), 0x00);
    assert_eq!(g.read_memory(0xFF25), 0x00);
    assert_eq!(g.read_memory(0xFF26), 0x00);
    assert_eq!(g.read_memory(0xFF30), 0x50);
    g.store_byte_to_memory(0xFF26, 0x80);
    assert_eq!(g.read_memory(0xFF11), 0x3F);
    g.store_byte_to_memory(0xFF26, 0x00);
    let before = g.apu_state();
    assert!(g.run_apu_cycle().is_none());
    for reg in 0xFF10..=0xFF25u16 {
        assert_eq!(g.read_memory(reg), 0);
    }
    assert_eq!(g.read_memory(0xFF0F), 0xE1);
    assert_eq!(g.read_memory(0xFF30), 0x50);
    assert_eq!(g.apu_state(), before);
}

#[test]
fn buffer_completes_every_16384_ticks() {
    let mut g = sound();
    quiet(&mut g);
    for _ in 0..16383 {
        assert!(g.run_apu_cycle().is_none());
    }
    let buffer = g.run_apu_cycle().unwrap();
    assert_eq!(buffer.len(), 512);
    assert!(buffer.iter().all(|s| *s == 0));
    assert_eq!(g.apu_state().buffer_write_index, 0);
    assert_eq!(g.apu_state().clock, 4);
}

#[test]
fn pulse_channel_fills_samples() {
    let mut g = sound();
    quiet(&mut g);
    g.store_byte_to_memory(0xFF25, 0x11);
    g.store_byte_to_memory(0xFF11, 0x80);
    g.store_byte_to_memory(0xFF12, 0xF0);
    g.store_byte_to_memory(0xFF13, 0xFF);
    g.store_byte_to_memory(0xFF14, 0x87);
    assert!(g.apu_state().pulse1.enabled);
    assert_eq!(g.apu_state().pulse1.curr_volume, 15);
    let mut out = None;
    for _ in 0..16384 {
        out = g.run_apu_cycle();
    }
    let buffer = out.unwrap();
    for s in buffer.iter() {
        assert_eq!(*s, 32 * 210);
    }
}

#[test]
fn routing_selects_the_side() {
    let mut g = sound();
    quiet(&mut g);
    g.store_byte_to_memory(0xFF24, 0x73);
    g.store_byte_to_memory(0xFF25, 0x22);
    g.store_byte_to_memory(0xFF16, 0xC0);
    g.store_byte_to_memory(0xFF17, 0x80);
    g.store_byte_to_memory(0xFF18, 0xFF);
    g.store_byte_to_memory(0xFF19, 0x87);
    let mut out = None;
    for _ in 0..16384 {
        out = g.run_apu_cycle();
    }
    let buffer = out.unwrap();
    for frame in buffer.chunks(2) {
        assert_eq!(frame[0], 48 * ((64 * 16 * 7) / 64));
        assert_eq!(frame[1], 48 * ((64 * 16 * 3) / 64));
    }
    g.store_byte_to_memory(0xFF25, 0x20);
    let mut out = None;
    for _ in 0..16384 {
        out = g.run_apu_cycle();
    }
    let buffer = out.unwrap();
    for frame in buffer.chunks(2) {
        assert_eq!(frame[0], 48 * 112);
        assert_eq!(frame[1], 0);
    }
}

#[test]
fn length_timer_stops_the_channel() {
    let mut g = sound();
    quiet(&mut g);
    g.store_byte_to_memory(0xFF16, 0x3E);
    assert_eq!(g.apu_state().pulse2.length_timer, 2);
    g.store_byte_to_memory(0xFF17, 0xF0);
    g.store_byte_to_memory(0xFF19, 0xC0);
    assert!(g.apu_state().pulse2.enabled);
    for _ in 0..(2 * 4096) {
        g.run_apu_cycle();
    }
    assert_eq!(g.apu_state().clock, 2);
    assert_eq!(g.apu_state().pulse2.length_timer, 1);
    assert!(g.apu_state().pulse2.enabled);
    for _ in 0..(2 * 4096) {
        g.run_apu_cycle();
    }
    assert_eq!(g.apu_state().pulse2.length_timer, 0);
    assert!(!g.apu_state().pulse2.enabled);
}

#[test]
fn trigger_reloads_expired_length() {
    let mut g = sound();
    quiet(&mut g);
    g.store_byte_to_memory(0xFF16, 0x00);
    assert_eq!(g.apu_state().pulse2.length_timer, 0);
    g.store_byte_to_memory(0xFF19, 0x80);
    assert_eq!(g.apu_state().pulse2.length_timer, 64);
    g.store_byte_to_memory(0xFF1B, 0xFF);
    assert_eq!(g.apu_state().wave.length_timer, 0);
    g.store_byte_to_memory(0xFF1E, 0x80);
    assert_eq!(g.apu_state().wave.length_timer, 255);
    g.store_byte_to_memory(0xFF20, 0x3F);
    assert_eq!(g.apu_state().noise.length_timer, 1);
    g.store_byte_to_memory(0xFF23, 0x80);
    assert_eq!(g.apu_state().noise.length_timer, 1);
    assert_eq!(g.apu_state().noise.duty_step, 0x7FFF);
}

#[test]
fn envelope_steps_volume_at_its_period() {
    let mut g = sound();
    quiet(&mut g);
    g.store_byte_to_memory(0xFF12, 0x52);
    g.store_byte_to_memory(0xFF14, 0x80);
    assert_eq!(g.apu_state().pulse1.curr_volume, 5);
    for _ in 0..(8 * 4096) {
        g.run_apu_cycle();
    }
    assert_eq!(g.apu_state().pulse1.curr_volume, 5);
    assert_eq!(g.apu_state().pulse1.env_counter, 1);
    for _ in 0..(8 * 4096) {
        g.run_apu_cycle();
    }
    assert_eq!(g.apu_state().pulse1.curr_volume, 4);
    assert_eq!(g.apu_state().pulse1.env_counter, 0);
    g.store_byte_to_memory(0xFF21, 0xE9);
    g.store_byte_to_memory(0xFF23, 0x80);
    assert_eq!(g.apu_state().noise.curr_volume, 14);
    for _ in 0..(8 * 4096) {
        g.run_apu_cycle();
    }
    assert_eq!(g.apu_state().noise.curr_volume, 15);
    for _ in 0..(8 * 4096) {
        g.run_apu_cycle();
    }
    assert_eq!(g.apu_state().noise.curr_volume, 15);
}

#[test]
fn envelope_register_write_steps_running_channel() {
    let mut g = sound();
    quiet(&mut g);
    g.store_byte_to_memory(0xFF12, 0xF0);
    g.store_byte_to_memory(0xFF14, 0x80);
    g.store_byte_to_memory(0xFF12, 0x08);
    assert_eq!(g.apu_state().pulse1.curr_volume, 0);
    g.store_byte_to_memory(0xFF12, 0x08);
    assert_eq!(g.apu_state().pulse1.curr_volume, 1);
    g.store_byte_to_memory(0xFF12, 0x09);
    assert_eq!(g.apu_state().pulse1.curr_volume, 1);
}

#[test]
fn sweep_raises_frequency_and_stops_on_overflow() {
    let mut g = sound();
    quiet(&mut g);
    g.store_byte_to_memory(0xFF10, 0x11);
    g.store_byte_to_memory(0xFF12, 0xF0);
    g.store_byte_to_memory(0xFF13, 0x00);
    g.store_byte_to_memory(0xFF14, 0x84);
    assert_eq!(g.apu_state().sweep_shadow_freq, 0x400);
    assert!(g.apu_state().sweep_enable);
    for _ in 0..(2 * 4096) {
        g.run_apu_cycle();
    }
    assert_eq!(g.apu_state().sweep_shadow_freq, 0x600);
    assert_eq!(g.read_memory(0xFF13), 0x00);
    assert_eq!(g.read_memory(0xFF14) & 0x07, 0x06);
    assert!(g.apu_state().pulse1.enabled);
    for _ in 0..(4 * 4096) {
        g.run_apu_cycle();
    }
    assert_eq!(g.apu_state().sweep_shadow_freq, 0x600);
    assert!(!g.apu_state().pulse1.enabled);
}

#[test]
fn sweep_lowers_frequency_when_negated() {
    let mut g = sound();
    quiet(&mut g);
    g.store_byte_to_memory(0xFF10, 0x1A);
    g.store_byte_to_memory(0xFF13, 0x00);
    g.store_byte_to_memory(0xFF14, 0x84);
    for _ in 0..(2 * 4096) {
        g.run_apu_cycle();
    }
    assert_eq!(g.apu_state().sweep_shadow_freq, 0x400 - 0x100);
    assert_eq!(g.read_memory(0xFF14) & 0x07, 0x03);
}

#[test]
fn wave_channel_plays_waveform() {
    let mut g = sound();
    quiet(&mut g);
    for i in 0..16u16 {
        g.store_byte_to_memory(0xFF30 + i, 0x00);
    }
    g.store_byte_to_memory(0xFF25, 0x04);
    g.store_byte_to_memory(0xFF1A, 0x80);
    g.store_byte_to_memory(0xFF1C, 0x20);
    g.store_byte_to_memory(0xFF1D, 0xFF);
    g.store_byte_to_memory(0xFF1E, 0x87);
    let mut out = None;
    for _ in 0..16384 {
        out = g.run_apu_cycle();
    }
    let buffer = out.unwrap();
    for frame in buffer.chunks(2) {
        assert_eq!(frame[0], 0);
        assert_eq!(frame[1], 64 * ((120 * 16 * 7) / 64));
    }
    assert_eq!(g.apu_state().wave.output, 120);
    g.store_byte_to_memory(0xFF1A, 0x00);
    g.run_apu_cycle();
    assert_eq!(g.apu_state().wave.output, 0);
}

#[test]
fn noise_shift_register_steps() {
    let mut g = sound();
    quiet(&mut g);
    g.store_byte_to_memory(0xFF25, 0x88);
    g.store_byte_to_memory(0xFF21, 0xF0);
    g.store_byte_to_memory(0xFF22, 0x00);
    g.store_byte_to_memory(0xFF23, 0x80);
    assert_eq!(g.apu_state().noise.duty_step, 0x7FFF);
    for _ in 0..4 {
        g.run_apu_cycle();
    }
    assert_eq!(g.apu_state().noise.freq_counter, 4);
    assert_eq!(g.apu_state().noise.duty_step, 0x7FFF);
    assert_eq!(g.apu_state().noise.output, 0);
    g.run_apu_cycle();
    assert_eq!(g.apu_state().noise.duty_step, 0x3FFF);
    for _ in 0..(5 * 13) {
        g.run_apu_cycle();
    }
    assert_eq!(g.apu_state().noise.duty_step, 0x0001);
    g.run_apu_cycle();
    g.run_apu_cycle();
    g.run_apu_cycle();
    g.run_apu_cycle();
    g.run_apu_cycle();
    assert_eq!(g.apu_state().noise.duty_step, 0x4000);
    assert_eq!(g.apu_state().noise.output, 120);
}
