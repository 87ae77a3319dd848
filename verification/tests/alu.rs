use gameboy_emulator::cpu::{dec16, inc16, Cpu};

fn cpu_with_flags(f: u8) -> Cpu {
    Cpu {
        a: 0,
        f,
        b: 0,
        c: 0,
        d: 0,
        e: 0,
        h: 0,
        l: 0,
        pc: 0,
        sp: 0,
        ime: false,
        ime_pending: false,
        halted: false,
        cycles_to_wait: 0,
        last_opcode: 0,
        last_opcode_cycles: 0,
        new_instruction_tick: false,
    }
}

fn flags(z: bool, n: bool, h: bool, c: bool) -> u8 {
    (if z { 0x80 } else { 0 }) | (if n { 0x40 } else { 0 }) | (if h { 0x20 } else { 0 })
        | (if c { 0x10 } else { 0 })
}

#[test]
fn adc_matches_truth_table_for_every_input() {
    for a in 0..=255u16 {
        for b in 0..=255u16 {
            for c in 0..=1u16 {
                let mut cpu = cpu_with_flags(if c == 1 { 0x10 } else { 0 });
                let r = cpu.adc_8_8(a as u8, b as u8);
                let sum = a + b + c;
                assert_eq!(r, (sum & 0xFF) as u8);
                let half = (a & 0xF) + (b & 0xF) + c > 0xF;
                assert_eq!(cpu.f, flags(sum & 0xFF == 0, false, half, sum > 0xFF));
            }
        }
    }
}

#[test]
fn sbc_matches_truth_table_for_every_input() {
    for a in 0..=255i32 {
        for b in 0..=255i32 {
            for c in 0..=1i32 {
                let mut cpu = cpu_with_flags(if c == 1 { 0x10 } else { 0 });
                let r = cpu.sbc_8_8(a as u8, b as u8);
                let diff = a - b - c;
                assert_eq!(r, (diff & 0xFF) as u8);
                let half = (a & 0xF) - (b & 0xF) - c < 0;
                assert_eq!(cpu.f, flags(diff & 0xFF == 0, true, half, diff < 0));
            }
        }
    }
}

#[test]
fn add_and_sub_ignore_carry_in() {
    let mut cpu = cpu_with_flags(0x10);
    assert_eq!(cpu.add_8_8(0x0F, 0x01), 0x10);
    assert_eq!(cpu.f, 0x20);
    let mut cpu = cpu_with_flags(0x10);
    assert_eq!(cpu.add_8_8(0xFF, 0x01), 0x00);
    assert_eq!(cpu.f, 0xB0);
    let mut cpu = cpu_with_flags(0x10);
    assert_eq!(cpu.sub_8_8(0x10, 0x01), 0x0F);
    assert_eq!(cpu.f, 0x60);
    let mut cpu = cpu_with_flags(0x10);
    assert_eq!(cpu.sub_8_8(0x00, 0x01), 0xFF);
    assert_eq!(cpu.f, 0x70);
}

#[test]
fn logic_operations_set_flags() {
    let mut cpu = cpu_with_flags(0xF0);
    assert_eq!(cpu.and_8_8(0xF0, 0x0F), 0x00);
    assert_eq!(cpu.f, 0xA0);
    assert_eq!(cpu.and_8_8(0xF3, 0x35), 0x31);
    assert_eq!(cpu.f, 0x20);
    assert_eq!(cpu.xor_8_8(0xAA, 0xAA), 0x00);
    assert_eq!(cpu.f, 0x80);
    assert_eq!(cpu.or_8_8(0xA0, 0x05), 0xA5);
    assert_eq!(cpu.f, 0x00);
    cpu.cp_8_8(0x42, 0x42);
    assert_eq!(cpu.f, 0xC0);
    cpu.cp_8_8(0x10, 0x20);
    assert_eq!(cpu.f, 0x50);
}

#[test]
fn inc16_wraps_at_pair_boundary() {
    let (mut h, mut l) = (0xFFu8, 0xFFu8);
    inc16(&mut h, &mut l);
    assert_eq!((h, l), (0x00, 0x00));
    let (mut h, mut l) = (0x12u8, 0xFFu8);
    inc16(&mut h, &mut l);
    assert_eq!((h, l), (0x13, 0x00));
    let (mut h, mut l) = (0x12u8, 0x34u8);
    inc16(&mut h, &mut l);
    assert_eq!((h, l), (0x12, 0x35));
}

#[test]
fn dec16_wraps_at_pair_boundary() {
    let (mut h, mut l) = (0x00u8, 0x00u8);
    dec16(&mut h, &mut l);
    assert_eq!((h, l), (0xFF, 0xFF));
    let (mut h, mut l) = (0x13u8, 0x00u8);
    dec16(&mut h, &mut l);
    assert_eq!((h, l), (0x12, 0xFF));
}

#[test]
fn inc16_then_dec16_is_identity_for_every_pair() {
    for v in 0..=0xFFFFu32 {
        let (mut h, mut l) = ((v >> 8) as u8, (v & 0xFF) as u8);
        inc16(&mut h, &mut l);
        let w = (v + 1) & 0xFFFF;
        assert_eq!((h, l), ((w >> 8) as u8, (w & 0xFF) as u8));
        dec16(&mut h, &mut l);
        assert_eq!((h, l), ((v >> 8) as u8, (v & 0xFF) as u8));
    }
}

#[test]
fn inc8_and_dec8_keep_carry() {
    let mut cpu = cpu_with_flags(0x10);
    assert_eq!(cpu.inc8(0xFF), 0x00);
    assert_eq!(cpu.f, 0xB0);
    assert_eq!(cpu.inc8(0x0F), 0x10);
    assert_eq!(cpu.f, 0x30);
    assert_eq!(cpu.dec8(0x01), 0x00);
    assert_eq!(cpu.f, 0xD0);
    assert_eq!(cpu.dec8(0x10), 0x0F);
    assert_eq!(cpu.f, 0x70);
    let mut cpu = cpu_with_flags(0x00);
    assert_eq!(cpu.dec8(0x00), 0xFF);
    assert_eq!(cpu.f, 0x60);
}

#[test]
fn daa_corrects_every_decimal_addition() {
    for x in 0..100u32 {
        for y in 0..100u32 {
            for c in 0..=1u32 {
                let bx = ((x / 10) << 4 | (x % 10)) as u8;
                let by = ((y / 10) << 4 | (y % 10)) as u8;
                let mut cpu = cpu_with_flags(if c == 1 { 0x10 } else { 0 });
                cpu.a = cpu.adc_8_8(bx, by);
                cpu.daa();
                let s = x + y + c;
                let expect = (((s % 100) / 10) << 4 | (s % 10)) as u8;
                assert_eq!(cpu.a, expect);
                assert_eq!(cpu.f & 0x10 != 0, s >= 100);
                assert_eq!(cpu.f & 0x80 != 0, expect == 0);
                assert_eq!(cpu.f & 0x20, 0);
            }
        }
    }
}

#[test]
fn daa_corrects_every_decimal_subtraction() {
    for x in 0..100i32 {
        for y in 0..100i32 {
            for c in 0..=1i32 {
                let bx = ((x / 10) << 4 | (x % 10)) as u8;
                let by = ((y / 10) << 4 | (y % 10)) as u8;
                let mut cpu = cpu_with_flags(if c == 1 { 0x10 } else { 0 });
                cpu.a = cpu.sbc_8_8(bx, by);
                cpu.daa();
                let d = (x - y - c).rem_euclid(100);
                let expect = ((d / 10) << 4 | (d % 10)) as u8;
                assert_eq!(cpu.a, expect);
                assert_eq!(cpu.f & 0x10 != 0, x - y - c < 0);
                assert_eq!(cpu.f & 0x40, 0x40);
            }
        }
    }
}

#[test]
fn add_16_16_keeps_zero_and_carries_from_high_byte() {
    let mut cpu = cpu_with_flags(0x80);
    assert_eq!(cpu.add_16_16(0x0F, 0xFF, 0x00, 0x01), (0x10, 0x00));
    assert_eq!(cpu.f, 0xA0);
    let mut cpu = cpu_with_flags(0x00);
    assert_eq!(cpu.add_16_16(0xFF, 0xFF, 0x00, 0x01), (0x00, 0x00));
    assert_eq!(cpu.f, 0x30);
    assert_eq!(cpu.add_16_16(0x12, 0x34, 0x11, 0x11), (0x23, 0x45));
    assert_eq!(cpu.f, 0x00);
}

#[test]
fn add_16_s8_adds_signed_offset() {
    let mut cpu = cpu_with_flags(0xC0);
    assert_eq!(cpu.add_16_s8(0x01, 0x00, 0xFF), (0x00, 0xFF));
    assert_eq!(cpu.f, 0x00);
    assert_eq!(cpu.add_16_s8(0x01, 0x01, 0xFF), (0x01, 0x00));
    assert_eq!(cpu.f, 0x30);
    assert_eq!(cpu.add_16_s8(0x00, 0xFF, 0x01), (0x01, 0x00));
    assert_eq!(cpu.f, 0x30);
    assert_eq!(cpu.add_16_s8(0xFF, 0xFF, 0x01), (0x00, 0x00));
    assert_eq!(cpu.add_16_s8(0x00, 0x00, 0x80), (0xFF, 0x80));
    assert_eq!(cpu.f, 0x00);
}

#[test]
fn rotates_and_shifts() {
    let mut cpu = cpu_with_flags(0x00);
    assert_eq!(cpu.rlc(0x85), 0x0B);
    assert_eq!(cpu.f, 0x10);
    assert_eq!(cpu.rrc(0x01), 0x80);
    assert_eq!(cpu.f, 0x10);
    assert_eq!(cpu.rl(0x80), 0x01);
    assert_eq!(cpu.f, 0x10);
    assert_eq!(cpu.rl(0x00), 0x01);
    assert_eq!(cpu.f, 0x00);
    assert_eq!(cpu.rr(0x01), 0x00);
    assert_eq!(cpu.f, 0x90);
    assert_eq!(cpu.rr(0x00), 0x80);
    assert_eq!(cpu.f, 0x00);
    assert_eq!(cpu.sla(0xC0), 0x80);
    assert_eq!(cpu.f, 0x10);
    assert_eq!(cpu.sra(0x81), 0xC0);
    assert_eq!(cpu.f, 0x10);
    assert_eq!(cpu.swap(0xA5), 0x5A);
    assert_eq!(cpu.f, 0x00);
    assert_eq!(cpu.swap(0x00), 0x00);
    assert_eq!(cpu.f, 0x80);
    assert_eq!(cpu.srl(0x01), 0x00);
    assert_eq!(cpu.f, 0x90);
}

#[test]
fn bit_operations() {
    let mut cpu = cpu_with_flags(0x10);
    cpu.bit(0x80, 7);
    assert_eq!(cpu.f, 0x30);
    cpu.bit(0x80, 6);
    assert_eq!(cpu.f, 0xB0);
    assert_eq!(cpu.res(0xFF, 3), 0xF7);
    assert_eq!(cpu.set(0x00, 5), 0x20);
}

#[test]
fn carry_and_complement_instructions() {
    let mut cpu = cpu_with_flags(0xE0);
    cpu.scf();
    assert_eq!(cpu.f, 0x90);
    cpu.ccf();
    assert_eq!(cpu.f, 0x80);
    cpu.ccf();
    assert_eq!(cpu.f, 0x90);
    cpu.a = 0x35;
    cpu.cpl();
    assert_eq!(cpu.a, 0xCA);
    assert_eq!(cpu.f, 0xF0);
}
