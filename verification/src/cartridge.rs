//! The cartridge: its ROM image and its battery-backed RAM.

use vstd::prelude::*;
use crate::machine::{GameBoy, Machine};

verus! {

/// Offset of the RAM-size code in the cartridge header.
pub const RAM_SIZE_OFFSET: usize = 0x149;

/// The size in bytes of the cartridge RAM for a header code; an unknown
/// code counts as the largest size.
pub open spec fn eram_size_spec(code: u8) -> usize {
    if code == 0 {
        0
    } else if code == 1 {
        0x800
    } else if code == 2 {
        0x2000
    } else if code == 3 {
        0x8000
    } else if code == 5 {
        0x10000
    } else {
        0x20000
    }
}

/// The size in bytes of the cartridge RAM for a header code.
#[verifier::when_used_as_spec(eram_size_spec)]
pub fn eram_size(code: u8) -> (size: usize)
    ensures
        size == eram_size_spec(code),
{
    if code == 0 {
        0
    } else if code == 1 {
        2 * 1024
    } else if code == 2 {
        8 * 1024
    } else if code == 3 {
        32 * 1024
    } else if code == 5 {
        64 * 1024
    } else {
        128 * 1024
    }
}

/// The RAM size that the header of `rom` asks for; none where the image is
/// too short to hold a header.
pub open spec fn cartridge_ram_size(rom: Seq<u8>) -> usize {
    if rom.len() > RAM_SIZE_OFFSET {
        eram_size_spec(rom[RAM_SIZE_OFFSET as int])
    } else {
        0
    }
}

/// The cartridge RAM after a cartridge with image `rom` went in: untouched
/// where the cartridge has none, else the saved contents, or bytes of 0xFF
/// in the header's size where nothing was saved.
pub open spec fn inserted_ram(before: Seq<u8>, rom: Seq<u8>, saved: Option<Seq<u8>>) -> Seq<u8> {
    if cartridge_ram_size(rom) == 0 {
        before
    } else {
        match saved {
            Some(bytes) => bytes,
            None => Seq::new(cartridge_ram_size(rom) as nat, |i: int| 0xFFu8),
        }
    }
}

impl GameBoy {
    /// Puts a cartridge in: `rom` is its ROM image, `saved` the contents of
    /// its RAM as last persisted, if any.
    pub fn insert_cartridge(&mut self, rom: Vec<u8>, saved: Option<Vec<u8>>)
        requires
            old(self).wf(),
        ensures
            final(self).wf(),
            final(self)@ == (Machine {
                rom: rom@,
                eram: inserted_ram(
                    old(self)@.eram,
                    rom@,
                    match saved {
                        Some(bytes) => Some(bytes@),
                        None => None,
                    },
                ),
                ..old(self)@
            }),
    {
        let size = if rom.len() > RAM_SIZE_OFFSET {
            eram_size(rom[RAM_SIZE_OFFSET])
        } else {
            0
        };
        self.rom = rom;
        if size > 0 {
            match saved {
                Some(bytes) => {
                    self.eram = bytes;
                },
                None => {
                    let mut fresh: Vec<u8> = Vec::new();
                    let mut i: usize = 0;
                    while i < size
                        invariant
                            i <= size,
                            fresh@ == Seq::new(i as nat, |k: int| 0xFFu8),
                        decreases size - i,
                    {
                        fresh.push(0xFF);
                        i = i + 1;
                        assert(fresh@ =~= Seq::new(i as nat, |k: int| 0xFFu8));
                    }
                    self.eram = fresh;
                },
            }
        }
    }

    /// The cartridge RAM as it stands, for the host to persist.
    pub fn save_data(&self) -> (ram: &Vec<u8>)
        ensures
            ram@ == self@.eram,
    {
        &self.eram
    }
}

} // verus!
