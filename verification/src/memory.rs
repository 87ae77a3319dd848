//! The memory router: every CPU access to the 16-bit address space goes
//! through `fetch_byte_from_memory` and `store_byte_to_memory`.

use vstd::prelude::*;
use crate::cpu::{high_byte, low_byte, make_u16, pair, Cpu};
use crate::io::{lemma_write_io_keeps_wf, read_io, read_register, write_io, write_register};
use crate::machine::{wrap16, wrap32, Banking, GameBoy, Machine};

verus! {

/// The index into cartridge RAM that `address` (0xA000 to 0xBFFF) selects.
pub open spec fn eram_index(m: Machine, address: int) -> int {
    (address - 0xA000) + 0x2000 * m.bank.eram_bank
}

/// The index into cartridge ROM that `address` (0x4000 to 0x7FFF) selects;
/// the ROM has to hold at least one byte.
pub open spec fn rom_bank_index(m: Machine, address: int) -> int {
    (0x4000 * m.bank.rom_bank + (address - 0x4000)) % (m.rom.len() as int)
}

/// Whether the sprite table is open to the CPU: only during the two
/// blanks, and not while a transfer into it is in flight.
pub open spec fn oam_accessible(m: Machine) -> bool {
    (m.ppu.mode == 0 || m.ppu.mode == 1) && m.dma.counter == 0
}

/// Whether video RAM is open to the CPU: not during pixel transfer.
pub open spec fn vram_accessible(m: Machine) -> bool {
    m.ppu.mode != 3
}

/// The byte that the CPU reads at `address`.
pub open spec fn read_byte(m: Machine, address: u16) -> u8 {
    let a = address as int;
    if a < 0x4000 {
        if m.bank.boot_enabled && a < 0x100 {
            m.bios[a]
        } else if m.rom.len() > 0 {
            m.rom[a % (m.rom.len() as int)]
        } else {
            0xFF
        }
    } else if a < 0x8000 {
        if m.rom.len() > 0 {
            m.rom[rom_bank_index(m, a)]
        } else {
            0xFF
        }
    } else if a < 0xA000 {
        if vram_accessible(m) {
            m.vram[a - 0x8000]
        } else {
            0xFF
        }
    } else if a < 0xC000 {
        if m.bank.eram_enabled && eram_index(m, a) < m.eram.len() {
            m.eram[eram_index(m, a)]
        } else {
            0xFF
        }
    } else if a < 0xFE00 {
        m.wram[(a - 0xC000) % 0x2000]
    } else if a < 0xFEA0 {
        if oam_accessible(m) {
            m.oam[a - 0xFE00]
        } else {
            0xFF
        }
    } else if a < 0xFF00 {
        0xFF
    } else if a < 0xFF80 {
        read_io(m, a - 0xFF00)
    } else if a < 0xFFFF {
        m.hram[a - 0xFF80]
    } else {
        m.ie
    }
}

/// The cartridge RAM bank that a write of `value` selects: `value` modulo
/// the number of 8 KiB banks, bank 0 where the cartridge has no full bank.
pub open spec fn select_eram_bank(m: Machine, value: u8) -> u8 {
    if m.eram.len() >= 0x2000 {
        ((value as int) % (m.eram.len() as int / 0x2000)) as u8
    } else {
        0
    }
}

/// The machine after the CPU wrote `value` at `address`, cycle count aside.
#[verifier::opaque]
pub open spec fn write_byte(m: Machine, address: u16, value: u8) -> Machine {
    let a = address as int;
    if a < 0x2000 {
        Machine { bank: Banking { eram_enabled: value % 16 == 0x0A, ..m.bank }, ..m }
    } else if a < 0x4000 {
        Machine {
            bank: Banking {
                rom_bank: if value == 0 {
                    1
                } else {
                    value
                },
                ..m.bank
            },
            ..m
        }
    } else if a < 0x6000 {
        Machine { bank: Banking { eram_bank: select_eram_bank(m, value), ..m.bank }, ..m }
    } else if a < 0x8000 {
        m
    } else if a < 0xA000 {
        if vram_accessible(m) {
            Machine { vram: m.vram.update(a - 0x8000, value), ..m }
        } else {
            m
        }
    } else if a < 0xC000 {
        if m.bank.eram_enabled && eram_index(m, a) < m.eram.len() {
            Machine { eram: m.eram.update(eram_index(m, a), value), ..m }
        } else {
            m
        }
    } else if a < 0xFE00 {
        Machine { wram: m.wram.update((a - 0xC000) % 0x2000, value), ..m }
    } else if a < 0xFEA0 {
        if oam_accessible(m) {
            Machine { oam: m.oam.update(a - 0xFE00, value), ..m }
        } else {
            m
        }
    } else if a < 0xFF00 {
        m
    } else if a < 0xFF80 {
        write_io(m, a - 0xFF00, value)
    } else if a < 0xFFFF {
        Machine { hram: m.hram.update(a - 0xFF80, value), ..m }
    } else {
        Machine { ie: value, ..m }
    }
}

/// What a read yields does not depend on the CPU's registers.
pub proof fn lemma_read_ignores_cpu(m: Machine, cpu: Cpu, address: u16)
    ensures
        read_byte(m.with_cpu(cpu), address) == read_byte(m, address),
{
    reveal(read_io);
}

/// A write changes no CPU register.
pub proof fn lemma_write_keeps_cpu(m: Machine, address: u16, value: u8)
    ensures
        write_byte(m, address, value).cpu == m.cpu,
{
    reveal(write_byte);
    if 0xFF00 <= address < 0xFF80 && m.wf() {
        lemma_write_io_keeps_wf(m, address - 0xFF00, value);
    } else {
        reveal(write_io);
    }
}

/// A write into work RAM or high RAM changes no register.
pub proof fn lemma_ram_write_keeps_registers(m: Machine, address: u16, value: u8)
    requires
        0xC000 <= address < 0xFE00 || 0xFF80 <= address < 0xFFFF,
    ensures
        write_byte(m, address, value).io == m.io,
        write_byte(m, address, value).ie == m.ie,
        write_byte(m, address, value).cpu == m.cpu,
{
    reveal(write_byte);
}

/// A write keeps the machine well-formed.
pub proof fn lemma_write_keeps_wf(m: Machine, address: u16, value: u8)
    requires
        m.wf(),
    ensures
        write_byte(m, address, value).wf(),
{
    reveal(write_byte);
    let w = write_byte(m, address, value);
    if 0xFF00 <= address < 0xFF80 {
        lemma_write_io_keeps_wf(m, address - 0xFF00, value);
    } else {
        assert(w.fifo == m.fifo);
        assert(w.ppu == m.ppu);
        assert(w.apu == m.apu);
        assert(w.ppu_wf());
        assert(w.apu_wf());
        assert(w.memory_wf());
    }
}

/// The machine after a read: one more cycle owed.
pub open spec fn after_fetch(m: Machine) -> Machine {
    m.tick()
}

/// The machine after a write of `value` at `address`: the write, and one
/// more cycle owed.
pub open spec fn after_store(m: Machine, address: u16, value: u8) -> Machine {
    write_byte(m, address, value).tick()
}

/// The machine after the byte at the program counter was fetched.
pub open spec fn after_fetch_pc(m: Machine) -> Machine {
    Machine { cpu: Cpu { pc: wrap16(m.cpu.pc + 1), ..m.tick().cpu }, ..m }
}

/// The byte at the program counter.
pub open spec fn next_byte(m: Machine) -> u8 {
    read_byte(m, m.cpu.pc)
}

/// The little-endian 16-bit value at the program counter.
pub open spec fn next_short(m: Machine) -> int {
    pair(read_byte(m, wrap16(m.cpu.pc + 1)), read_byte(m, m.cpu.pc))
}

/// The little-endian 16-bit value at `address`.
pub open spec fn read_short(m: Machine, address: u16) -> int {
    pair(read_byte(m, wrap16(address + 1)), read_byte(m, address))
}

impl GameBoy {
    /// Books one machine cycle.
    fn add_cycle(&mut self)
        ensures
            final(self)@ == old(self)@.tick(),
    {
        self.cpu.cycles_to_wait = self.cpu.cycles_to_wait.wrapping_add(1);
    }

    /// The ROM byte at `index`, wrapped to the ROM's length.
    fn read_rom(&self, index: usize) -> (value: u8)
        requires
            self.rom@.len() > 0,
        ensures
            value == self.rom@[(index as int) % (self.rom@.len() as int)],
    {
        self.rom[index % self.rom.len()]
    }

    /// The byte at `address` as the CPU sees it, without the cycle it costs.
    pub(crate) fn peek(&self, address: u16) -> (value: u8)
        requires
            self.wf(),
        ensures
            value == read_byte(self@, address),
    {
        if address < 0x4000 {
            if self.bank.boot_enabled && address < 0x0100 {
                self.bios[address as usize]
            } else if self.rom.len() > 0 {
                self.read_rom(address as usize)
            } else {
                0xFF
            }
        } else if address < 0x8000 {
            if self.rom.len() > 0 {
                self.read_rom(
                    0x4000 * (self.bank.rom_bank as usize) + ((address - 0x4000) as usize),
                )
            } else {
                0xFF
            }
        } else if address < 0xA000 {
            if self.ppu.mode != 3 {
                self.vram[(address - 0x8000) as usize]
            } else {
                0xFF
            }
        } else if address < 0xC000 {
            let index = ((address - 0xA000) as usize) + 0x2000 * (self.bank.eram_bank as usize);
            if self.bank.eram_enabled && index < self.eram.len() {
                self.eram[index]
            } else {
                0xFF
            }
        } else if address < 0xFE00 {
            self.wram[((address - 0xC000) % 0x2000) as usize]
        } else if address < 0xFEA0 {
            if (self.ppu.mode == 0 || self.ppu.mode == 1) && self.dma.counter == 0 {
                self.oam[(address - 0xFE00) as usize]
            } else {
                0xFF
            }
        } else if address < 0xFF00 {
            0xFF
        } else if address < 0xFF80 {
            proof {
                reveal(read_register);
            }
            self.handle_io_register_read(address)
        } else if address < 0xFFFF {
            self.hram[(address - 0xFF80) as usize]
        } else {
            self.ie
        }
    }

    /// Reads the byte at `address` as the CPU sees it; costs one machine cycle.
    pub fn fetch_byte_from_memory(&mut self, address: u16) -> (value: u8)
        requires
            old(self).wf(),
        ensures
            final(self).wf(),
            value == read_byte(old(self)@, address),
            final(self)@ == after_fetch(old(self)@),
    {
        let value = self.peek(address);
        self.add_cycle();
        value
    }

    /// A write into the cartridge's address range: it moves a bank latch.
    fn write_cartridge_latch(&mut self, address: u16, value: u8)
        requires
            old(self).wf(),
            address < 0x8000,
        ensures
            final(self).wf(),
            final(self)@ == write_byte(old(self)@, address, value),
    {
        reveal(write_byte);
        if address < 0x2000 {
            self.bank.eram_enabled = value % 16 == 0x0A;
        } else if address < 0x4000 {
            self.bank.rom_bank = if value == 0 {
                1
            } else {
                value
            };
        } else if address < 0x6000 {
            let banks = self.eram.len() / 0x2000;
            self.bank.eram_bank = if banks > 0 {
                ((value as usize) % banks) as u8
            } else {
                0
            };
        }
    }

    /// The write of `value` at `address`, without the cycle it costs.
    fn poke(&mut self, address: u16, value: u8)
        requires
            old(self).wf(),
        ensures
            final(self).wf(),
            final(self)@ == write_byte(old(self)@, address, value),
    {
        reveal(write_byte);
        if address < 0x8000 {
            self.write_cartridge_latch(address, value);
        } else if address < 0xA000 {
            if self.ppu.mode != 3 {
                self.vram.set((address - 0x8000) as usize, value);
            }
        } else if address < 0xC000 {
            let index = ((address - 0xA000) as usize) + 0x2000 * (self.bank.eram_bank as usize);
            if self.bank.eram_enabled && index < self.eram.len() {
                self.eram.set(index, value);
            }
        } else if address < 0xFE00 {
            self.wram.set(((address - 0xC000) % 0x2000) as usize, value);
        } else if address < 0xFEA0 {
            if (self.ppu.mode == 0 || self.ppu.mode == 1) && self.dma.counter == 0 {
                self.oam.set((address - 0xFE00) as usize, value);
            }
        } else if address < 0xFF00 {
        } else if address < 0xFF80 {
            proof {
                reveal(write_register);
            }
            let _ = self.handle_io_register_write(address, value);
        } else if address < 0xFFFF {
            self.hram.set((address - 0xFF80) as usize, value);
        } else {
            self.ie = value;
        }
    }

    /// Writes `value` at `address` as the CPU does; costs one machine cycle.
    pub fn store_byte_to_memory(&mut self, address: u16, value: u8)
        requires
            old(self).wf(),
        ensures
            final(self).wf(),
            final(self)@ == after_store(old(self)@, address, value),
    {
        self.poke(address, value);
        self.add_cycle();
    }

    /// Reads the byte at the program counter and advances the counter.
    pub fn fetch_next_byte_from_pc(&mut self) -> (value: u8)
        requires
            old(self).wf(),
        ensures
            final(self).wf(),
            value == next_byte(old(self)@),
            final(self)@ == after_fetch_pc(old(self)@),
    {
        let byte = self.fetch_byte_from_memory(self.cpu.pc);
        self.cpu.pc = self.cpu.pc.wrapping_add(1);
        byte
    }

    /// Reads the little-endian 16-bit value at the program counter and
    /// advances the counter past it.
    pub fn fetch_next_short_from_pc(&mut self) -> (value: u16)
        requires
            old(self).wf(),
        ensures
            final(self).wf(),
            value == next_short(old(self)@),
            final(self)@ == after_fetch_pc(after_fetch_pc(old(self)@)),
    {
        let low = self.fetch_next_byte_from_pc();
        proof {
            lemma_read_ignores_cpu(old(self)@, self@.cpu, self@.cpu.pc);
            assert(self@ == old(self)@.with_cpu(self@.cpu));
        }
        let high = self.fetch_next_byte_from_pc();
        make_u16(high, low)
    }

    /// Reads the little-endian 16-bit value at `address`.
    pub fn fetch_short_from_memory(&mut self, address: u16) -> (value: u16)
        requires
            old(self).wf(),
        ensures
            final(self).wf(),
            value == read_short(old(self)@, address),
            final(self)@ == after_fetch(after_fetch(old(self)@)),
    {
        let low = self.fetch_byte_from_memory(address);
        proof {
            lemma_read_ignores_cpu(old(self)@, self@.cpu, wrap16(address + 1));
            assert(self@ == old(self)@.with_cpu(self@.cpu));
        }
        let high = self.fetch_byte_from_memory(address.wrapping_add(1));
        make_u16(high, low)
    }

    /// Writes `value` at the address held in the pair `h:l`.
    pub fn store8_to_pointer16(&mut self, h: u8, l: u8, value: u8)
        requires
            old(self).wf(),
        ensures
            final(self).wf(),
            final(self)@ == after_store(old(self)@, pair(h, l) as u16, value),
    {
        let address = make_u16(h, l);
        self.store_byte_to_memory(address, value);
    }

    /// Reads the byte at the address held in the pair `h:l`.
    pub fn load8_from_pointer16(&mut self, h: u8, l: u8) -> (value: u8)
        requires
            old(self).wf(),
        ensures
            final(self).wf(),
            value == read_byte(old(self)@, pair(h, l) as u16),
            final(self)@ == after_fetch(old(self)@),
    {
        let address = make_u16(h, l);
        self.fetch_byte_from_memory(address)
    }

    /// Reads `dump_length` bytes from `memory_start` on as the CPU would,
    /// one machine cycle each.
    pub fn dump_memory(&mut self, memory_start: u16, dump_length: u16) -> (bytes: Vec<u8>)
        requires
            old(self).wf(),
            memory_start + dump_length <= 0xFFFF,
        ensures
            final(self).wf(),
            bytes@.len() == dump_length,
            forall|i: int|
                0 <= i < dump_length ==> #[trigger] bytes@[i] == read_byte(
                    old(self)@,
                    (memory_start + i) as u16,
                ),
            final(self)@ == old(self)@.with_cpu(
                Cpu {
                    cycles_to_wait: wrap32(old(self)@.cpu.cycles_to_wait + dump_length),
                    ..old(self)@.cpu
                },
            ),
    {
        let mut bytes: Vec<u8> = Vec::new();
        let mut i: u16 = 0;
        while i < dump_length
            invariant
                i <= dump_length,
                self.wf(),
                self@ == old(self)@,
                memory_start + dump_length <= 0xFFFF,
                bytes@.len() == i,
                forall|k: int|
                    0 <= k < i ==> #[trigger] bytes@[k] == read_byte(
                        old(self)@,
                        (memory_start + k) as u16,
                    ),
            decreases dump_length - i,
        {
            bytes.push(self.peek(memory_start + i));
            i = i + 1;
        }
        self.cpu.cycles_to_wait = self.cpu.cycles_to_wait.wrapping_add(dump_length as u32);
        bytes
    }
}

} // verus!
