//! CPU registers and the arithmetic/logic unit.

use vstd::prelude::*;
use crate::flags::{bit_value, flag_carry, flag_half, flag_neg, flag_zero, has_flag, lemma_pack_unpack, make_flags, pack_flags, valid_flags, FlagMask};

verus! {

/// The 16-bit value of a register pair.
pub open spec fn pair(h: u8, l: u8) -> int {
    h * 256 + l
}

/// Shifts and masks on 16-bit values as arithmetic.
pub proof fn lemma_u16_bytes(h: u8, l: u8, x: u16)
    by (bit_vector)
    ensures
        ((h as u16) << 8 | (l as u16)) == h * 256 + l,
        (x >> 8) == x / 256,
        (x >> 8) < 256,
        (x & 0xFF) == x % 256,
{
}

/// The 16-bit value with high byte `h` and low byte `l`.
pub fn make_u16(h: u8, l: u8) -> (x: u16)
    ensures
        x == pair(h, l),
{
    proof {
        lemma_u16_bytes(h, l, 0);
    }
    (h as u16) << 8 | (l as u16)
}

/// The high byte of `x`.
pub fn high_byte(x: u16) -> (h: u8)
    ensures
        h == x / 256,
{
    proof {
        lemma_u16_bytes(0, 0, x);
    }
    (x >> 8) as u8
}

/// The low byte of `x`.
pub fn low_byte(x: u16) -> (l: u8)
    ensures
        l == x % 256,
{
    proof {
        lemma_u16_bytes(0, 0, x);
    }
    (x & 0xFF) as u8
}

/// Increments the register pair `h:l`, wrapping from 0xFFFF to 0x0000.
pub fn inc16(h: &mut u8, l: &mut u8)
    ensures
        pair(*final(h), *final(l)) == (pair(*old(h), *old(l)) + 1) % 0x10000,
{
    if *l == 0xFF {
        if *h == 0xFF {
            *h = 0x00;
        } else {
            *h += 1;
        }
        *l = 0x00;
    } else {
        *l += 1;
    }
}

/// Decrements the register pair `h:l`, wrapping from 0x0000 to 0xFFFF.
pub fn dec16(h: &mut u8, l: &mut u8)
    ensures
        pair(*final(h), *final(l)) == (pair(*old(h), *old(l)) - 1) % 0x10000,
{
    if *l == 0x00 {
        if *h == 0x00 {
            *h = 0xFF;
        } else {
            *h -= 1;
        }
        *l = 0xFF;
    } else {
        *l -= 1;
    }
}


/// The value of carry-in `c` as a number.
pub open spec fn carry_value(c: bool) -> int {
    if c {
        1
    } else {
        0
    }
}

/// The signed value of a byte read as a two's-complement offset.
pub open spec fn signed(b: u8) -> int {
    if b < 128 {
        b as int
    } else {
        b - 256
    }
}

/// Result of adding `b` and the carry-in to `a`.
pub open spec fn add_value(a: u8, b: u8, cin: bool) -> u8 {
    ((a + b + carry_value(cin)) % 256) as u8
}

/// Flags after adding `b` and the carry-in to `a`: half-carry is the carry
/// out of bit 3, carry the carry out of bit 7.
pub open spec fn add_flags(a: u8, b: u8, cin: bool) -> u8 {
    pack_flags(
        (a + b + carry_value(cin)) % 256 == 0,
        false,
        a % 16 + b % 16 + carry_value(cin) > 15,
        a + b + carry_value(cin) > 255,
    )
}

/// Result of subtracting `b` and the borrow-in from `a`.
pub open spec fn sub_value(a: u8, b: u8, cin: bool) -> u8 {
    ((a - b - carry_value(cin)) % 256) as u8
}

/// Flags after subtracting `b` and the borrow-in from `a`: half-carry is the
/// borrow into bit 3, carry the borrow into bit 7.
pub open spec fn sub_flags(a: u8, b: u8, cin: bool) -> u8 {
    pack_flags(
        (a - b - carry_value(cin)) % 256 == 0,
        true,
        a % 16 < b % 16 + carry_value(cin),
        a < b + carry_value(cin),
    )
}

/// Flags after a bitwise operation with result `r`; `half` is set for AND only.
pub open spec fn logic_flags(r: u8, half: bool) -> u8 {
    pack_flags(r == 0, false, half, false)
}

/// Flags after incrementing `v`; carry is kept from `f`.
pub open spec fn inc_flags(v: u8, f: u8) -> u8 {
    pack_flags(v == 255, false, v % 16 == 15, flag_carry(f))
}

/// Flags after decrementing `v`; carry is kept from `f`.
pub open spec fn dec_flags(v: u8, f: u8) -> u8 {
    pack_flags(v == 1, true, v % 16 == 0, flag_carry(f))
}

/// Flags after adding the 16-bit values `a` and `b`: zero is kept from `f`,
/// half-carry is the carry out of bit 11, carry the carry out of bit 15.
pub open spec fn add16_flags(a: int, b: int, f: u8) -> u8 {
    pack_flags(flag_zero(f), false, a % 4096 + b % 4096 > 4095, a + b > 65535)
}

/// Flags after adding the signed offset `b` to a 16-bit value whose low byte
/// is `a_l`: computed from the low-byte addition alone.
pub open spec fn add_offset_flags(a_l: u8, b: u8) -> u8 {
    pack_flags(false, false, a_l % 16 + b % 16 > 15, a_l + b > 255)
}

/// Whether the decimal adjustment adds (or, after a subtraction, removes) 0x60.
pub open spec fn daa_high_fix(a: u8, f: u8) -> bool {
    flag_carry(f) || (!flag_neg(f) && a > 0x99)
}

/// Whether the decimal adjustment adds (or, after a subtraction, removes) 0x06.
pub open spec fn daa_low_fix(a: u8, f: u8) -> bool {
    flag_half(f) || (!flag_neg(f) && a % 16 > 9)
}

/// The accumulator after decimal adjustment.
pub open spec fn daa_value(a: u8, f: u8) -> u8 {
    let fix = bit_value(daa_high_fix(a, f), 0x60) + bit_value(daa_low_fix(a, f), 0x06);
    if flag_neg(f) {
        ((a - fix) % 256) as u8
    } else {
        ((a + fix) % 256) as u8
    }
}

/// The flags after decimal adjustment.
pub open spec fn daa_flags(a: u8, f: u8) -> u8 {
    pack_flags(daa_value(a, f) == 0, flag_neg(f), false, daa_high_fix(a, f))
}

/// `v` rotated left by one bit.
pub open spec fn rlc_value(v: u8) -> u8 {
    ((v * 2) % 256 + v / 128) as u8
}

/// `v` rotated right by one bit.
pub open spec fn rrc_value(v: u8) -> u8 {
    (v / 2 + (v % 2) * 128) as u8
}

/// `v` shifted left by one bit, the carry-in entering at bit 0.
pub open spec fn rl_value(v: u8, cin: bool) -> u8 {
    ((v * 2) % 256 + carry_value(cin)) as u8
}

/// `v` shifted right by one bit, the carry-in entering at bit 7.
pub open spec fn rr_value(v: u8, cin: bool) -> u8 {
    (v / 2 + carry_value(cin) * 128) as u8
}

/// `v` shifted left by one bit.
pub open spec fn sla_value(v: u8) -> u8 {
    ((v * 2) % 256) as u8
}

/// `v` shifted right by one bit, bit 7 kept.
pub open spec fn sra_value(v: u8) -> u8 {
    (v / 2 + (v / 128) * 128) as u8
}

/// `v` with its two nibbles exchanged.
pub open spec fn swap_value(v: u8) -> u8 {
    ((v % 16) * 16 + v / 16) as u8
}

/// `v` shifted right by one bit.
pub open spec fn srl_value(v: u8) -> u8 {
    (v / 2) as u8
}

/// Flags after a rotate or shift with result `r` that moved bit `out` out.
pub open spec fn shift_flags(r: u8, out: bool) -> u8 {
    pack_flags(r == 0, false, false, out)
}

/// Whether bit `n` of `v` is set.
pub open spec fn bit_is_set(v: u8, n: u8) -> bool {
    v & (1u8 << n) != 0
}

/// Flags after testing bit `n` of `v`; carry is kept from `f`.
pub open spec fn bit_flags(v: u8, n: u8, f: u8) -> u8 {
    pack_flags(!bit_is_set(v, n), false, true, flag_carry(f))
}

/// Rotates, shifts and masks on bytes as arithmetic.
pub proof fn lemma_shift_bits(v: u8)
    by (bit_vector)
    ensures
        ({
            &&& (v << 1 | v >> 7) == (v * 2) % 256 + v / 128
            &&& (v >> 1 | v << 7) == v / 2 + (v % 2) * 128
            &&& (v << 1) == (v * 2) % 256
            &&& (v << 1 | 1) == (v * 2) % 256 + 1
            &&& (v >> 1 | 0x80) == v / 2 + 128
            &&& (v >> 1) == v / 2
            &&& ((v >> 1) | (v & 0x80)) == v / 2 + (v / 128) * 128
            &&& (v >> 4 | v << 4) == (v % 16) * 16 + v / 16
            &&& (v & 0x80 != 0) == (v >= 128)
            &&& (v & 0x01 != 0) == (v % 2 == 1)
            &&& (v & 0x0F) == v % 16
            &&& (!v) == 255 - v
        }),
{
}

/// Whether `x` holds two decimal digits, one in each nibble.
pub open spec fn is_bcd(x: u8) -> bool {
    x % 16 <= 9 && x / 16 <= 9
}

/// The number below 100 that the packed decimal byte `x` stands for.
pub open spec fn bcd_value(x: u8) -> int {
    (x / 16) * 10 + x % 16
}

/// The packed decimal byte for a number `v` below 100.
pub open spec fn to_bcd(v: int) -> int {
    (v / 10) * 16 + v % 10
}

/// The statement of `lemma_daa_after_add`, decided on bit vectors.
proof fn lemma_daa_add_bits(x: u8, y: u8, cin: bool)
    by (bit_vector)
    ensures
        (is_bcd(x) && is_bcd(y)) ==> ({
            let s = bcd_value(x) + bcd_value(y) + carry_value(cin);
            let r = add_value(x, y, cin);
            let f = add_flags(x, y, cin);
            &&& daa_value(r, f) == to_bcd(s % 100)
            &&& flag_carry(daa_flags(r, f)) == (s >= 100)
            &&& flag_zero(daa_flags(r, f)) == (s % 100 == 0)
            &&& !flag_half(daa_flags(r, f))
            &&& !flag_neg(daa_flags(r, f))
        }),
{
}

/// Decimal adjustment after the binary addition of two packed decimal bytes
/// (with carry-in) yields the packed decimal sum modulo 100; the carry flag
/// tells whether the sum reached 100, the zero flag whether the adjusted
/// byte is zero, and half-carry is cleared.
pub proof fn lemma_daa_after_add(x: u8, y: u8, cin: bool)
    requires
        is_bcd(x),
        is_bcd(y),
    ensures
        ({
            let s = bcd_value(x) + bcd_value(y) + carry_value(cin);
            let r = add_value(x, y, cin);
            let f = add_flags(x, y, cin);
            &&& daa_value(r, f) == to_bcd(s % 100)
            &&& flag_carry(daa_flags(r, f)) == (s >= 100)
            &&& flag_zero(daa_flags(r, f)) == (s % 100 == 0)
            &&& !flag_half(daa_flags(r, f))
            &&& !flag_neg(daa_flags(r, f))
        }),
{
    lemma_daa_add_bits(x, y, cin);
}

/// The statement of `lemma_daa_after_sub`, decided on bit vectors.
proof fn lemma_daa_sub_bits(x: u8, y: u8, cin: bool)
    by (bit_vector)
    ensures
        (is_bcd(x) && is_bcd(y)) ==> ({
            let d = bcd_value(x) - bcd_value(y) - carry_value(cin);
            let r = sub_value(x, y, cin);
            let f = sub_flags(x, y, cin);
            &&& daa_value(r, f) == to_bcd(d % 100)
            &&& flag_carry(daa_flags(r, f)) == (d < 0)
            &&& flag_zero(daa_flags(r, f)) == (d % 100 == 0)
            &&& !flag_half(daa_flags(r, f))
            &&& flag_neg(daa_flags(r, f))
        }),
{
}

/// Decimal adjustment after the binary subtraction of two packed decimal
/// bytes (with borrow-in) yields the packed decimal difference modulo 100;
/// the carry flag tells whether the difference was negative.
pub proof fn lemma_daa_after_sub(x: u8, y: u8, cin: bool)
    requires
        is_bcd(x),
        is_bcd(y),
    ensures
        ({
            let d = bcd_value(x) - bcd_value(y) - carry_value(cin);
            let r = sub_value(x, y, cin);
            let f = sub_flags(x, y, cin);
            &&& daa_value(r, f) == to_bcd(d % 100)
            &&& flag_carry(daa_flags(r, f)) == (d < 0)
            &&& flag_zero(daa_flags(r, f)) == (d % 100 == 0)
            &&& !flag_half(daa_flags(r, f))
            &&& flag_neg(daa_flags(r, f))
        }),
{
    lemma_daa_sub_bits(x, y, cin);
}

/// The CPU's registers and its instruction bookkeeping.
#[derive(Clone, Copy, Debug, PartialEq, Eq)]
pub struct Cpu {
    pub a: u8,
    pub f: u8,
    pub b: u8,
    pub c: u8,
    pub d: u8,
    pub e: u8,
    pub h: u8,
    pub l: u8,
    pub pc: u16,
    pub sp: u16,
    /// Interrupt master enable.
    pub ime: bool,
    /// Set by the enable instruction: the master enable follows once the
    /// next instruction has run.
    pub ime_pending: bool,
    pub halted: bool,
    /// Machine cycles still owed by the instruction in flight.
    pub cycles_to_wait: u32,
    pub last_opcode: u8,
    pub last_opcode_cycles: u32,
    pub new_instruction_tick: bool,
}

impl Cpu {
    /// Whether the carry flag is set.
    pub open spec fn carry(self) -> bool {
        flag_carry(self.f)
    }

    /// The registers with flag byte `f`.
    pub open spec fn with_flags(self, f: u8) -> Cpu {
        Cpu { f, ..self }
    }

    /// Adds `b` and the carry flag to `a`, and sets all four flags.
    pub fn adc_8_8(&mut self, a: u8, b: u8) -> (r: u8)
        ensures
            valid_flags(final(self).f),
            r == add_value(a, b, old(self).carry()),
            *final(self) == old(self).with_flags(add_flags(a, b, old(self).carry())),
    {
        let carry: u8 = if has_flag(self.f, FlagMask::Carry) { 1 } else { 0 };
        let low: u8 = a % 16 + b % 16 + carry;
        let sum: u16 = a as u16 + b as u16 + carry as u16;
        let r: u8 = low_byte(sum);
        self.f = make_flags(r == 0, false, low >= 0x10, sum >= 0x100);
        r
    }

    /// Subtracts `b` and the carry flag from `a`, and sets all four flags.
    pub fn sbc_8_8(&mut self, a: u8, b: u8) -> (r: u8)
        ensures
            valid_flags(final(self).f),
            r == sub_value(a, b, old(self).carry()),
            *final(self) == old(self).with_flags(sub_flags(a, b, old(self).carry())),
    {
        let borrow: u8 = if has_flag(self.f, FlagMask::Carry) { 1 } else { 0 };
        let half: bool = a % 16 < b % 16 + borrow;
        let carry: bool = (a as u16) < (b as u16) + (borrow as u16);
        let r: u8 = if carry {
            (0x100 + (a as u16) - (b as u16) - (borrow as u16)) as u8
        } else {
            a - b - borrow
        };
        self.f = make_flags(r == 0, true, half, carry);
        r
    }

    /// Adds `b` to `a`, and sets all four flags.
    pub fn add_8_8(&mut self, a: u8, b: u8) -> (r: u8)
        ensures
            valid_flags(final(self).f),
            r == add_value(a, b, false),
            *final(self) == old(self).with_flags(add_flags(a, b, false)),
    {
        self.f = 0x00;
        self.adc_8_8(a, b)
    }

    /// Subtracts `b` from `a`, and sets all four flags.
    pub fn sub_8_8(&mut self, a: u8, b: u8) -> (r: u8)
        ensures
            valid_flags(final(self).f),
            r == sub_value(a, b, false),
            *final(self) == old(self).with_flags(sub_flags(a, b, false)),
    {
        self.f = 0x00;
        self.sbc_8_8(a, b)
    }

    /// Adds the signed offset `b` to the pair `a_h:a_l`; flags come from the
    /// low-byte addition, zero and negative are cleared.
    pub fn add_16_s8(&mut self, a_h: u8, a_l: u8, b: u8) -> (r: (u8, u8))
        ensures
            valid_flags(final(self).f),
            pair(r.0, r.1) == (pair(a_h, a_l) + signed(b)) % 0x10000,
            *final(self) == old(self).with_flags(add_offset_flags(a_l, b)),
    {
        let half = a_l % 16 + b % 16 > 15;
        let carry = (a_l as u16) + (b as u16) > 0xFF;
        let offset: u16 = if b < 0x80 {
            b as u16
        } else {
            0xFF00 + (b as u16)
        };
        let r = make_u16(a_h, a_l).wrapping_add(offset);
        self.f = make_flags(false, false, half, carry);
        (high_byte(r), low_byte(r))
    }

    /// Adds the pair `b_h:b_l` to the pair `a_h:a_l`; the zero flag is kept.
    pub fn add_16_16(&mut self, a_h: u8, a_l: u8, b_h: u8, b_l: u8) -> (r: (u8, u8))
        ensures
            valid_flags(final(self).f),
            pair(r.0, r.1) == (pair(a_h, a_l) + pair(b_h, b_l)) % 0x10000,
            *final(self) == old(self).with_flags(
                add16_flags(pair(a_h, a_l), pair(b_h, b_l), old(self).f),
            ),
    {
        let zero = has_flag(self.f, FlagMask::Zero);
        let a = make_u16(a_h, a_l);
        let b = make_u16(b_h, b_l);
        let sum: u32 = a as u32 + b as u32;
        let half = a % 0x1000 + b % 0x1000 > 0x0FFF;
        let r: u16 = (sum % 0x10000) as u16;
        self.f = make_flags(zero, false, half, sum > 0xFFFF);
        (high_byte(r), low_byte(r))
    }

    /// Bitwise AND; sets zero and half-carry.
    pub fn and_8_8(&mut self, a: u8, b: u8) -> (r: u8)
        ensures
            valid_flags(final(self).f),
            r == a & b,
            *final(self) == old(self).with_flags(logic_flags(a & b, true)),
    {
        let r = a & b;
        self.f = make_flags(r == 0, false, true, false);
        r
    }

    /// Bitwise XOR; sets zero.
    pub fn xor_8_8(&mut self, a: u8, b: u8) -> (r: u8)
        ensures
            valid_flags(final(self).f),
            r == a ^ b,
            *final(self) == old(self).with_flags(logic_flags(a ^ b, false)),
    {
        let r = a ^ b;
        self.f = make_flags(r == 0, false, false, false);
        r
    }

    /// Bitwise OR; sets zero.
    pub fn or_8_8(&mut self, a: u8, b: u8) -> (r: u8)
        ensures
            valid_flags(final(self).f),
            r == a | b,
            *final(self) == old(self).with_flags(logic_flags(a | b, false)),
    {
        let r = a | b;
        self.f = make_flags(r == 0, false, false, false);
        r
    }

    /// Compares `a` with `b`: the flags of a subtraction, the result dropped.
    pub fn cp_8_8(&mut self, a: u8, b: u8)
        ensures
            valid_flags(final(self).f),
            *final(self) == old(self).with_flags(sub_flags(a, b, false)),
    {
        let _ = self.sub_8_8(a, b);
    }

    /// Increments `v`; the carry flag is kept.
    pub fn inc8(&mut self, v: u8) -> (r: u8)
        ensures
            valid_flags(final(self).f),
            r == (v + 1) % 256,
            *final(self) == old(self).with_flags(inc_flags(v, old(self).f)),
    {
        let carry = has_flag(self.f, FlagMask::Carry);
        let r = v.wrapping_add(1);
        self.f = make_flags(r == 0, false, v % 16 == 15, carry);
        r
    }

    /// Decrements `v`; the carry flag is kept.
    pub fn dec8(&mut self, v: u8) -> (r: u8)
        ensures
            valid_flags(final(self).f),
            r == (v - 1) % 256,
            *final(self) == old(self).with_flags(dec_flags(v, old(self).f)),
    {
        let carry = has_flag(self.f, FlagMask::Carry);
        let r = v.wrapping_sub(1);
        self.f = make_flags(r == 0, true, v % 16 == 0, carry);
        r
    }

    /// Decimal-adjusts the accumulator after an addition or subtraction of
    /// packed decimal numbers.
    pub fn daa(&mut self)
        ensures
            valid_flags(final(self).f),
            *final(self) == (Cpu {
                a: daa_value(old(self).a, old(self).f),
                f: daa_flags(old(self).a, old(self).f),
                ..*old(self)
            }),
    {
        let neg = has_flag(self.f, FlagMask::Neg);
        let half = has_flag(self.f, FlagMask::Half);
        let carry = has_flag(self.f, FlagMask::Carry);
        let high_fix = carry || (!neg && self.a > 0x99);
        let low_fix = half || (!neg && self.a % 16 > 9);
        let mut fix: u8 = 0;
        if high_fix {
            fix = fix + 0x60;
        }
        if low_fix {
            fix = fix + 0x06;
        }
        let value = if neg {
            self.a.wrapping_sub(fix)
        } else {
            self.a.wrapping_add(fix)
        };
        self.a = value;
        self.f = make_flags(value == 0, neg, false, high_fix);
    }

    /// Complements the accumulator; sets negative and half-carry.
    pub fn cpl(&mut self)
        ensures
            valid_flags(final(self).f),
            *final(self) == (Cpu {
                a: (255 - old(self).a) as u8,
                f: pack_flags(flag_zero(old(self).f), true, true, flag_carry(old(self).f)),
                ..*old(self)
            }),
    {
        proof {
            lemma_shift_bits(self.a);
        }
        let zero = has_flag(self.f, FlagMask::Zero);
        let carry = has_flag(self.f, FlagMask::Carry);
        self.a = !self.a;
        self.f = make_flags(zero, true, true, carry);
    }

    /// Sets the carry flag; clears negative and half-carry.
    pub fn scf(&mut self)
        ensures
            valid_flags(final(self).f),
            *final(self) == old(self).with_flags(
                pack_flags(flag_zero(old(self).f), false, false, true),
            ),
    {
        let zero = has_flag(self.f, FlagMask::Zero);
        self.f = make_flags(zero, false, false, true);
    }

    /// Complements the carry flag; clears negative and half-carry.
    pub fn ccf(&mut self)
        ensures
            valid_flags(final(self).f),
            *final(self) == old(self).with_flags(
                pack_flags(flag_zero(old(self).f), false, false, !flag_carry(old(self).f)),
            ),
    {
        let zero = has_flag(self.f, FlagMask::Zero);
        let carry = has_flag(self.f, FlagMask::Carry);
        self.f = make_flags(zero, false, false, !carry);
    }

    /// Rotates `value` left; bit 7 goes to bit 0 and to the carry flag.
    pub fn rlc(&mut self, value: u8) -> (r: u8)
        ensures
            valid_flags(final(self).f),
            r == rlc_value(value),
            *final(self) == old(self).with_flags(shift_flags(rlc_value(value), value >= 128)),
    {
        proof {
            lemma_shift_bits(value);
        }
        let r = value << 1 | value >> 7;
        self.f = make_flags(r == 0, false, false, value & 0x80 != 0);
        r
    }

    /// Rotates `value` right; bit 0 goes to bit 7 and to the carry flag.
    pub fn rrc(&mut self, value: u8) -> (r: u8)
        ensures
            valid_flags(final(self).f),
            r == rrc_value(value),
            *final(self) == old(self).with_flags(shift_flags(rrc_value(value), value % 2 == 1)),
    {
        proof {
            lemma_shift_bits(value);
        }
        let r = value >> 1 | value << 7;
        self.f = make_flags(r == 0, false, false, value & 0x01 != 0);
        r
    }

    /// Rotates `value` left through the carry flag.
    pub fn rl(&mut self, value: u8) -> (r: u8)
        ensures
            valid_flags(final(self).f),
            r == rl_value(value, old(self).carry()),
            *final(self) == old(self).with_flags(
                shift_flags(rl_value(value, old(self).carry()), value >= 128),
            ),
    {
        proof {
            lemma_shift_bits(value);
        }
        let mut r = value << 1;
        if has_flag(self.f, FlagMask::Carry) {
            r = value << 1 | 1;
        }
        self.f = make_flags(r == 0, false, false, value & 0x80 != 0);
        r
    }

    /// Rotates `value` right through the carry flag.
    pub fn rr(&mut self, value: u8) -> (r: u8)
        ensures
            valid_flags(final(self).f),
            r == rr_value(value, old(self).carry()),
            *final(self) == old(self).with_flags(
                shift_flags(rr_value(value, old(self).carry()), value % 2 == 1),
            ),
    {
        proof {
            lemma_shift_bits(value);
        }
        let mut r = value >> 1;
        if has_flag(self.f, FlagMask::Carry) {
            r = value >> 1 | 0x80;
        }
        self.f = make_flags(r == 0, false, false, value & 0x01 != 0);
        r
    }

    /// Shifts `value` left; bit 7 goes to the carry flag.
    pub fn sla(&mut self, value: u8) -> (r: u8)
        ensures
            valid_flags(final(self).f),
            r == sla_value(value),
            *final(self) == old(self).with_flags(shift_flags(sla_value(value), value >= 128)),
    {
        proof {
            lemma_shift_bits(value);
        }
        let r = value << 1;
        self.f = make_flags(r == 0, false, false, value & 0x80 != 0);
        r
    }

    /// Shifts `value` right and keeps bit 7; bit 0 goes to the carry flag.
    pub fn sra(&mut self, value: u8) -> (r: u8)
        ensures
            valid_flags(final(self).f),
            r == sra_value(value),
            *final(self) == old(self).with_flags(shift_flags(sra_value(value), value % 2 == 1)),
    {
        proof {
            lemma_shift_bits(value);
        }
        let r = (value >> 1) | (value & 0x80);
        self.f = make_flags(r == 0, false, false, value & 0x01 != 0);
        r
    }

    /// Swaps the two nibbles of `value`.
    pub fn swap(&mut self, value: u8) -> (r: u8)
        ensures
            valid_flags(final(self).f),
            r == swap_value(value),
            *final(self) == old(self).with_flags(shift_flags(swap_value(value), false)),
    {
        proof {
            lemma_shift_bits(value);
        }
        let r = value >> 4 | value << 4;
        self.f = make_flags(r == 0, false, false, false);
        r
    }

    /// Shifts `value` right; bit 0 goes to the carry flag.
    pub fn srl(&mut self, value: u8) -> (r: u8)
        ensures
            valid_flags(final(self).f),
            r == srl_value(value),
            *final(self) == old(self).with_flags(shift_flags(srl_value(value), value % 2 == 1)),
    {
        proof {
            lemma_shift_bits(value);
        }
        let r = value >> 1;
        self.f = make_flags(r == 0, false, false, value & 0x01 != 0);
        r
    }

    /// Tests bit `bit` of `value`: zero is set when the bit is clear; carry is kept.
    pub fn bit(&mut self, value: u8, bit: u8)
        requires
            bit < 8,
        ensures
            valid_flags(final(self).f),
            *final(self) == old(self).with_flags(bit_flags(value, bit, old(self).f)),
    {
        let carry = has_flag(self.f, FlagMask::Carry);
        self.f = make_flags(value & (1u8 << bit) == 0, false, true, carry);
    }

    /// Clears bit `bit` of `value`.
    pub fn res(&self, value: u8, bit: u8) -> (r: u8)
        requires
            bit < 8,
        ensures
            r == value & !(1u8 << bit),
    {
        value & !(1u8 << bit)
    }

    /// Sets bit `bit` of `value`.
    pub fn set(&self, value: u8, bit: u8) -> (r: u8)
        requires
            bit < 8,
        ensures
            r == value | (1u8 << bit),
    {
        value | (1u8 << bit)
    }
}

} // verus!
