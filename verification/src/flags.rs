//! The flag register: four condition bits in the upper nibble of one byte.

use vstd::prelude::*;

verus! {

/// The four condition flags of the CPU.
#[derive(Clone, Copy, Debug, PartialEq, Eq)]
pub enum FlagMask {
    Zero,
    Neg,
    Half,
    Carry,
}

/// Bit of the zero flag.
pub const ZERO: u8 = 0x80;

/// Bit of the negative flag.
pub const NEG: u8 = 0x40;

/// Bit of the half-carry flag.
pub const HALF: u8 = 0x20;

/// Bit of the carry flag.
pub const CARRY: u8 = 0x10;

impl FlagMask {
    /// The bit that this flag occupies in the flag register.
    pub open spec fn spec_mask(self) -> u8 {
        match self {
            FlagMask::Zero => 0x80,
            FlagMask::Neg => 0x40,
            FlagMask::Half => 0x20,
            FlagMask::Carry => 0x10,
        }
    }

    /// The bit that this flag occupies in the flag register.
    #[verifier::when_used_as_spec(spec_mask)]
    pub fn mask(self) -> (m: u8)
        ensures
            m == self.spec_mask(),
    {
        match self {
            FlagMask::Zero => ZERO,
            FlagMask::Neg => NEG,
            FlagMask::Half => HALF,
            FlagMask::Carry => CARRY,
        }
    }
}

/// Whether the zero flag is set in flag byte `f`.
pub open spec fn flag_zero(f: u8) -> bool {
    (f / 128) % 2 == 1
}

/// Whether the negative (subtraction) flag is set in flag byte `f`.
pub open spec fn flag_neg(f: u8) -> bool {
    (f / 64) % 2 == 1
}

/// Whether the half-carry flag is set in flag byte `f`.
pub open spec fn flag_half(f: u8) -> bool {
    (f / 32) % 2 == 1
}

/// Whether the carry flag is set in flag byte `f`.
pub open spec fn flag_carry(f: u8) -> bool {
    (f / 16) % 2 == 1
}

/// `weight` if `b` holds, else zero.
pub open spec fn bit_value(b: bool, weight: int) -> int {
    if b {
        weight
    } else {
        0
    }
}

/// The flag byte that holds exactly the four given flags; its lower nibble is zero.
pub open spec fn pack_flags(z: bool, n: bool, h: bool, c: bool) -> u8 {
    (bit_value(z, 128) + bit_value(n, 64) + bit_value(h, 32) + bit_value(c, 16)) as u8
}

/// A flag byte is valid when its lower nibble is zero.
pub open spec fn valid_flags(f: u8) -> bool {
    f % 16 == 0
}

/// Tests and masks of flag bits as arithmetic.
pub proof fn lemma_flag_bits(f: u8)
    by (bit_vector)
    ensures
        (f & 0x80 != 0) == ((f / 128) % 2 == 1),
        (f & 0x40 != 0) == ((f / 64) % 2 == 1),
        (f & 0x20 != 0) == ((f / 32) % 2 == 1),
        (f & 0x10 != 0) == ((f / 16) % 2 == 1),
        f & 0xF0 == (f / 16) * 16,
        (f & 0x0F == 0) == (f % 16 == 0),
{
}

/// Unpacking a packed flag byte gives back the four flags.
pub proof fn lemma_pack_unpack(z: bool, n: bool, h: bool, c: bool)
    ensures
        flag_zero(pack_flags(z, n, h, c)) == z,
        flag_neg(pack_flags(z, n, h, c)) == n,
        flag_half(pack_flags(z, n, h, c)) == h,
        flag_carry(pack_flags(z, n, h, c)) == c,
        valid_flags(pack_flags(z, n, h, c)),
{
}

/// A valid flag byte is the packing of its four flags.
pub proof fn lemma_unpack_pack(f: u8)
    requires
        valid_flags(f),
    ensures
        pack_flags(flag_zero(f), flag_neg(f), flag_half(f), flag_carry(f)) == f,
{
}

/// Packs four flags into a flag byte.
pub fn make_flags(z: bool, n: bool, h: bool, c: bool) -> (f: u8)
    ensures
        f == pack_flags(z, n, h, c),
        valid_flags(f),
{
    let mut f: u8 = 0;
    if z {
        f = f + ZERO;
    }
    if n {
        f = f + NEG;
    }
    if h {
        f = f + HALF;
    }
    if c {
        f = f + CARRY;
    }
    f
}

/// Whether `flag` is set in flag byte `f`.
pub fn has_flag(f: u8, flag: FlagMask) -> (b: bool)
    ensures
        b == match flag {
            FlagMask::Zero => flag_zero(f),
            FlagMask::Neg => flag_neg(f),
            FlagMask::Half => flag_half(f),
            FlagMask::Carry => flag_carry(f),
        },
{
    proof {
        lemma_flag_bits(f);
    }
    f & flag.mask() != 0
}

} // verus!
