//! The load instructions.

use vstd::prelude::*;
use crate::cpu::{add_offset_flags, dec16, high_byte, inc16, low_byte, make_u16, pair, signed, Cpu};
use crate::machine::{wrap16, GameBoy, Machine};
use crate::memory::{
    after_fetch, after_fetch_pc, after_store, next_byte, next_short, read_byte,
};

verus! {

/// The value of the 8-bit operand with index `index`: B, C, D, E, H, L, the
/// byte at the address in HL, A.
pub open spec fn operand_value(m: Machine, index: u8) -> u8 {
    if index % 8 == 0 {
        m.cpu.b
    } else if index % 8 == 1 {
        m.cpu.c
    } else if index % 8 == 2 {
        m.cpu.d
    } else if index % 8 == 3 {
        m.cpu.e
    } else if index % 8 == 4 {
        m.cpu.h
    } else if index % 8 == 5 {
        m.cpu.l
    } else if index % 8 == 6 {
        read_byte(m, m.hl())
    } else {
        m.cpu.a
    }
}

/// The machine after operand `index` was read: a memory operand costs a cycle.
pub open spec fn after_operand_read(m: Machine, index: u8) -> Machine {
    if index % 8 == 6 {
        after_fetch(m)
    } else {
        m
    }
}

/// The machine after `value` was written to operand `index`.
pub open spec fn after_operand_write(m: Machine, index: u8, value: u8) -> Machine {
    if index % 8 == 0 {
        m.with_cpu(Cpu { b: value, ..m.cpu })
    } else if index % 8 == 1 {
        m.with_cpu(Cpu { c: value, ..m.cpu })
    } else if index % 8 == 2 {
        m.with_cpu(Cpu { d: value, ..m.cpu })
    } else if index % 8 == 3 {
        m.with_cpu(Cpu { e: value, ..m.cpu })
    } else if index % 8 == 4 {
        m.with_cpu(Cpu { h: value, ..m.cpu })
    } else if index % 8 == 5 {
        m.with_cpu(Cpu { l: value, ..m.cpu })
    } else if index % 8 == 6 {
        after_store(m, m.hl(), value)
    } else {
        m.with_cpu(Cpu { a: value, ..m.cpu })
    }
}

/// `LD r, r'`: operand `opcode % 8` is copied to operand `(opcode / 8) % 8`.
pub open spec fn ld_operand_operand(m: Machine, opcode: u8) -> Machine {
    after_operand_write(
        after_operand_read(m, opcode % 8),
        (opcode / 8) % 8,
        operand_value(m, opcode % 8),
    )
}

/// `LD r, n`: the byte after the opcode goes to operand `(opcode / 8) % 8`.
pub open spec fn ld_operand_immediate(m: Machine, opcode: u8) -> Machine {
    after_operand_write(after_fetch_pc(m), (opcode / 8) % 8, next_byte(m))
}

/// Whether `opcode` moves the accumulator to or from the address in a pair.
pub open spec fn is_ld_indirect(opcode: u8) -> bool {
    opcode < 0x40 && (opcode % 16 == 0x02 || opcode % 16 == 0x0A)
}

/// The address that an indirect accumulator load uses: BC, DE, HL, HL.
pub open spec fn indirect_address(m: Machine, opcode: u8) -> u16 {
    if opcode / 16 == 0 {
        m.bc()
    } else if opcode / 16 == 1 {
        m.de()
    } else {
        m.hl()
    }
}

/// HL after an indirect accumulator load: up by one for `(HL+)`, down by
/// one for `(HL-)`.
pub open spec fn indirect_step(m: Machine, opcode: u8) -> Machine {
    if opcode / 16 == 2 {
        m.set_hl(wrap16(m.hl() + 1))
    } else if opcode / 16 == 3 {
        m.set_hl(wrap16(m.hl() - 1))
    } else {
        m
    }
}

/// `LD (rr), A` and `LD A, (rr)`, with `(HL+)` and `(HL-)`.
pub open spec fn ld_indirect(m: Machine, opcode: u8) -> Machine {
    let address = indirect_address(m, opcode);
    if opcode % 16 == 0x02 {
        indirect_step(after_store(m, address, m.cpu.a), opcode)
    } else {
        indirect_step(after_fetch(m).set_a(read_byte(m, address)), opcode)
    }
}

/// Whether `opcode` moves the accumulator to or from an address that the
/// instruction names: the high page by immediate or by C, or a full address.
pub open spec fn is_ld_absolute(opcode: u8) -> bool {
    opcode == 0xE0 || opcode == 0xF0 || opcode == 0xE2 || opcode == 0xF2 || opcode == 0xEA
        || opcode == 0xFA
}

/// `LDH (n), A`, `LDH A, (n)`, `LD (C), A`, `LD A, (C)`, `LD (nn), A`, `LD A, (nn)`.
pub open spec fn ld_absolute(m: Machine, opcode: u8) -> Machine {
    if opcode == 0xE0 {
        after_store(after_fetch_pc(m), (0xFF00 + next_byte(m)) as u16, m.cpu.a)
    } else if opcode == 0xF0 {
        let m1 = after_fetch_pc(m);
        after_fetch(m1).set_a(read_byte(m1, (0xFF00 + next_byte(m)) as u16))
    } else if opcode == 0xE2 {
        after_store(m, (0xFF00 + m.cpu.c) as u16, m.cpu.a)
    } else if opcode == 0xF2 {
        after_fetch(m).set_a(read_byte(m, (0xFF00 + m.cpu.c) as u16))
    } else if opcode == 0xEA {
        after_store(after_fetch_pc(after_fetch_pc(m)), next_short(m) as u16, m.cpu.a)
    } else {
        let m2 = after_fetch_pc(after_fetch_pc(m));
        after_fetch(m2).set_a(read_byte(m2, next_short(m) as u16))
    }
}

/// Whether `opcode` is a 16-bit load.
pub open spec fn is_ld_wide(opcode: u8) -> bool {
    opcode == 0x01 || opcode == 0x11 || opcode == 0x21 || opcode == 0x31 || opcode == 0x08
        || opcode == 0xF8 || opcode == 0xF9
}

/// `LD rr, nn`, `LD (nn), SP`, `LD HL, SP+e`, `LD SP, HL`.
pub open spec fn ld_wide(m: Machine, opcode: u8) -> Machine {
    let m2 = after_fetch_pc(after_fetch_pc(m));
    let value = next_short(m) as u16;
    if opcode == 0x01 {
        m2.set_bc(value)
    } else if opcode == 0x11 {
        m2.set_de(value)
    } else if opcode == 0x21 {
        m2.set_hl(value)
    } else if opcode == 0x31 {
        m2.set_sp(value)
    } else if opcode == 0x08 {
        let m3 = after_store(m2, value, (m.cpu.sp % 256) as u8);
        after_store(m3, wrap16(value + 1), (m.cpu.sp / 256) as u8)
    } else if opcode == 0xF8 {
        let m1 = after_fetch_pc(m);
        let offset = next_byte(m);
        m1.with_cpu(
            Cpu { f: add_offset_flags((m.cpu.sp % 256) as u8, offset), ..m1.cpu },
        ).set_hl(wrap16(m.cpu.sp + signed(offset)))
    } else {
        m.set_sp(m.hl())
    }
}

/// What a load instruction does, or `None` where `opcode` is not a load.
pub open spec fn load_instruction(m: Machine, opcode: u8) -> Option<Machine> {
    if 0x40 <= opcode <= 0x7F {
        Some(ld_operand_operand(m, opcode))
    } else if opcode < 0x40 && opcode % 8 == 6 {
        Some(ld_operand_immediate(m, opcode))
    } else if is_ld_indirect(opcode) {
        Some(ld_indirect(m, opcode))
    } else if is_ld_absolute(opcode) {
        Some(ld_absolute(m, opcode))
    } else if is_ld_wide(opcode) {
        Some(ld_wide(m, opcode))
    } else {
        None
    }
}

impl GameBoy {
    /// Reads the 8-bit operand with index `index`.
    pub fn load_value_from_register(&mut self, index: u8) -> (value: u8)
        requires
            old(self).wf(),
        ensures
            final(self).wf(),
            value == operand_value(old(self)@, index),
            final(self)@ == after_operand_read(old(self)@, index),
    {
        let i = index % 8;
        if i == 0 {
            self.cpu.b
        } else if i == 1 {
            self.cpu.c
        } else if i == 2 {
            self.cpu.d
        } else if i == 3 {
            self.cpu.e
        } else if i == 4 {
            self.cpu.h
        } else if i == 5 {
            self.cpu.l
        } else if i == 6 {
            self.load8_from_pointer16(self.cpu.h, self.cpu.l)
        } else {
            self.cpu.a
        }
    }

    /// Writes `value` to the 8-bit operand with index `index`.
    pub fn store_value_to_register(&mut self, index: u8, value: u8)
        requires
            old(self).wf(),
        ensures
            final(self).wf(),
            final(self)@ == after_operand_write(old(self)@, index, value),
    {
        let i = index % 8;
        if i == 0 {
            self.cpu.b = value;
        } else if i == 1 {
            self.cpu.c = value;
        } else if i == 2 {
            self.cpu.d = value;
        } else if i == 3 {
            self.cpu.e = value;
        } else if i == 4 {
            self.cpu.h = value;
        } else if i == 5 {
            self.cpu.l = value;
        } else if i == 6 {
            self.store8_to_pointer16(self.cpu.h, self.cpu.l, value);
        } else {
            self.cpu.a = value;
        }
    }

    /// Moves HL up or down by one after an `(HL+)` or `(HL-)` access.
    fn step_hl(&mut self, opcode: u8)
        requires
            old(self).wf(),
        ensures
            final(self).wf(),
            final(self)@ == indirect_step(old(self)@, opcode),
    {
        if opcode / 16 == 2 {
            inc16(&mut self.cpu.h, &mut self.cpu.l);
        } else if opcode / 16 == 3 {
            dec16(&mut self.cpu.h, &mut self.cpu.l);
        }
    }

    /// Executes a load between the accumulator and the address in a pair.
    fn execute_ld_indirect(&mut self, opcode: u8)
        requires
            old(self).wf(),
            is_ld_indirect(opcode),
        ensures
            final(self).wf(),
            final(self)@ == ld_indirect(old(self)@, opcode),
    {
        let (h, l) = if opcode / 16 == 0 {
            (self.cpu.b, self.cpu.c)
        } else if opcode / 16 == 1 {
            (self.cpu.d, self.cpu.e)
        } else {
            (self.cpu.h, self.cpu.l)
        };
        if opcode % 16 == 0x02 {
            self.store8_to_pointer16(h, l, self.cpu.a);
        } else {
            self.cpu.a = self.load8_from_pointer16(h, l);
        }
        self.step_hl(opcode);
    }

    /// Executes a load between the accumulator and a named address.
    fn execute_ld_absolute(&mut self, opcode: u8)
        requires
            old(self).wf(),
            is_ld_absolute(opcode),
        ensures
            final(self).wf(),
            final(self)@ == ld_absolute(old(self)@, opcode),
    {
        if opcode == 0xE0 {
            let offset = self.fetch_next_byte_from_pc();
            self.store8_to_pointer16(0xFF, offset, self.cpu.a);
        } else if opcode == 0xF0 {
            let offset = self.fetch_next_byte_from_pc();
            self.cpu.a = self.load8_from_pointer16(0xFF, offset);
        } else if opcode == 0xE2 {
            self.store8_to_pointer16(0xFF, self.cpu.c, self.cpu.a);
        } else if opcode == 0xF2 {
            self.cpu.a = self.load8_from_pointer16(0xFF, self.cpu.c);
        } else if opcode == 0xEA {
            let address = self.fetch_next_short_from_pc();
            self.store_byte_to_memory(address, self.cpu.a);
        } else {
            let address = self.fetch_next_short_from_pc();
            self.cpu.a = self.fetch_byte_from_memory(address);
        }
    }

    /// Executes `LD rr, nn`.
    fn execute_ld_pair(&mut self, opcode: u8)
        requires
            old(self).wf(),
            opcode == 0x01 || opcode == 0x11 || opcode == 0x21 || opcode == 0x31,
        ensures
            final(self).wf(),
            final(self)@ == ld_wide(old(self)@, opcode),
    {
        if opcode == 0x01 {
            let value = self.fetch_next_short_from_pc();
            self.cpu.b = high_byte(value);
            self.cpu.c = low_byte(value);
        } else if opcode == 0x11 {
            let value = self.fetch_next_short_from_pc();
            self.cpu.d = high_byte(value);
            self.cpu.e = low_byte(value);
        } else if opcode == 0x21 {
            let value = self.fetch_next_short_from_pc();
            self.cpu.h = high_byte(value);
            self.cpu.l = low_byte(value);
        } else {
            self.cpu.sp = self.fetch_next_short_from_pc();
        }
    }

    /// Executes a 16-bit load.
    fn execute_ld_wide(&mut self, opcode: u8)
        requires
            old(self).wf(),
            is_ld_wide(opcode),
        ensures
            final(self).wf(),
            final(self)@ == ld_wide(old(self)@, opcode),
    {
        if opcode == 0x01 || opcode == 0x11 || opcode == 0x21 || opcode == 0x31 {
            self.execute_ld_pair(opcode);
        } else if opcode == 0x08 {
            let target = self.fetch_next_short_from_pc();
            let sp = self.cpu.sp;
            self.store_byte_to_memory(target, low_byte(sp));
            self.store_byte_to_memory(target.wrapping_add(1), high_byte(sp));
        } else if opcode == 0xF8 {
            let sp = self.cpu.sp;
            let offset = self.fetch_next_byte_from_pc();
            let (h, l) = self.cpu.add_16_s8(high_byte(sp), low_byte(sp), offset);
            self.cpu.h = h;
            self.cpu.l = l;
        } else {
            self.cpu.sp = make_u16(self.cpu.h, self.cpu.l);
        }
    }

    /// Executes `opcode` if it is a load instruction; tells whether it was.
    pub fn handle_load_instructions(&mut self, opcode: u8) -> (handled: bool)
        requires
            old(self).wf(),
        ensures
            final(self).wf(),
            handled == load_instruction(old(self)@, opcode).is_some(),
            handled ==> final(self)@ == load_instruction(old(self)@, opcode).unwrap(),
            !handled ==> final(self)@ == old(self)@,
    {
        if 0x40 <= opcode && opcode <= 0x7F {
            let value = self.load_value_from_register(opcode % 8);
            self.store_value_to_register((opcode / 8) % 8, value);
            true
        } else if opcode < 0x40 && opcode % 8 == 6 {
            let value = self.fetch_next_byte_from_pc();
            self.store_value_to_register((opcode / 8) % 8, value);
            true
        } else if opcode < 0x40 && (opcode % 16 == 0x02 || opcode % 16 == 0x0A) {
            self.execute_ld_indirect(opcode);
            true
        } else if opcode == 0xE0 || opcode == 0xF0 || opcode == 0xE2 || opcode == 0xF2 || opcode
            == 0xEA || opcode == 0xFA {
            self.execute_ld_absolute(opcode);
            true
        } else if opcode == 0x01 || opcode == 0x11 || opcode == 0x21 || opcode == 0x31 || opcode
            == 0x08 || opcode == 0xF8 || opcode == 0xF9 {
            self.execute_ld_wide(opcode);
            true
        } else {
            false
        }
    }
}

} // verus!
