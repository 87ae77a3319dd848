//! The arithmetic and logic instructions.

use vstd::prelude::*;
use crate::cpu::{
    add16_flags, add_flags, add_offset_flags, add_value, daa_flags, daa_value, dec16,
    dec_flags, high_byte, inc16, inc_flags, logic_flags, low_byte, make_u16, signed, sub_flags,
    sub_value, Cpu,
};
use crate::flags::{flag_carry, flag_zero, pack_flags, valid_flags};
use crate::machine::{wrap16, wrap8, GameBoy, Machine};
use crate::memory::{after_fetch_pc, next_byte};
use crate::opcodes_ld::{after_operand_read, after_operand_write, operand_value};

verus! {

/// The registers after the 8-bit operation with index `function` (ADD, ADC,
/// SUB, SBC, AND, XOR, OR, CP) was applied to the accumulator and `operand`.
pub open spec fn alu_result(cpu: Cpu, function: u8, operand: u8) -> Cpu {
    let a = cpu.a;
    if function % 8 == 0 {
        Cpu { a: add_value(a, operand, false), f: add_flags(a, operand, false), ..cpu }
    } else if function % 8 == 1 {
        Cpu { a: add_value(a, operand, cpu.carry()), f: add_flags(a, operand, cpu.carry()), ..cpu }
    } else if function % 8 == 2 {
        Cpu { a: sub_value(a, operand, false), f: sub_flags(a, operand, false), ..cpu }
    } else if function % 8 == 3 {
        Cpu { a: sub_value(a, operand, cpu.carry()), f: sub_flags(a, operand, cpu.carry()), ..cpu }
    } else if function % 8 == 4 {
        Cpu { a: a & operand, f: logic_flags(a & operand, true), ..cpu }
    } else if function % 8 == 5 {
        Cpu { a: a ^ operand, f: logic_flags(a ^ operand, false), ..cpu }
    } else if function % 8 == 6 {
        Cpu { a: a | operand, f: logic_flags(a | operand, false), ..cpu }
    } else {
        Cpu { f: sub_flags(a, operand, false), ..cpu }
    }
}

/// Whether `opcode` adds a register pair to HL.
pub open spec fn is_add_hl(opcode: u8) -> bool {
    opcode == 0x09 || opcode == 0x19 || opcode == 0x29 || opcode == 0x39
}

/// The pair that `ADD HL, rr` adds: BC, DE, HL, SP.
pub open spec fn wide_operand(m: Machine, opcode: u8) -> u16 {
    if opcode / 16 == 0 {
        m.bc()
    } else if opcode / 16 == 1 {
        m.de()
    } else if opcode / 16 == 2 {
        m.hl()
    } else {
        m.cpu.sp
    }
}

/// `ADD HL, rr`.
pub open spec fn add_hl(m: Machine, opcode: u8) -> Machine {
    let operand = wide_operand(m, opcode);
    m.with_cpu(
        Cpu { f: add16_flags(m.hl() as int, operand as int, m.cpu.f), ..m.cpu },
    ).set_hl(wrap16(m.hl() + operand))
}

/// What an 8-bit arithmetic or logic instruction, or `ADD HL, rr`, does; or
/// `None` where `opcode` is none of them.
pub open spec fn arithmetic_instruction(m: Machine, opcode: u8) -> Option<Machine> {
    if is_add_hl(opcode) {
        Some(add_hl(m, opcode))
    } else if 0x80 <= opcode <= 0xBF {
        let m1 = after_operand_read(m, opcode % 8);
        Some(m1.with_cpu(alu_result(m1.cpu, (opcode / 8) % 8, operand_value(m, opcode % 8))))
    } else if opcode >= 0xC0 && opcode % 8 == 6 {
        let m1 = after_fetch_pc(m);
        Some(m1.with_cpu(alu_result(m1.cpu, (opcode / 8) % 8, next_byte(m))))
    } else {
        None
    }
}

/// Whether `opcode` increments or decrements an 8-bit operand.
pub open spec fn is_step_operand(opcode: u8) -> bool {
    opcode < 0x40 && (opcode % 8 == 4 || opcode % 8 == 5)
}

/// `INC r` and `DEC r`: zero, negative and half-carry are set anew, carry is kept.
pub open spec fn step_operand(m: Machine, opcode: u8) -> Machine {
    let index = (opcode / 8) % 8;
    let value = operand_value(m, index);
    let m1 = after_operand_read(m, index);
    if opcode % 8 == 4 {
        after_operand_write(
            m1.with_cpu(m1.cpu.with_flags(inc_flags(value, m.cpu.f))),
            index,
            wrap8(value + 1),
        )
    } else {
        after_operand_write(
            m1.with_cpu(m1.cpu.with_flags(dec_flags(value, m.cpu.f))),
            index,
            wrap8(value - 1),
        )
    }
}

/// Whether `opcode` increments or decrements a register pair.
pub open spec fn is_step_wide(opcode: u8) -> bool {
    opcode < 0x40 && (opcode % 16 == 0x03 || opcode % 16 == 0x0B)
}

/// `INC rr` and `DEC rr`: the pair wraps, no flag changes.
pub open spec fn step_wide(m: Machine, opcode: u8) -> Machine {
    let delta: int = if opcode % 16 == 0x03 {
        1
    } else {
        -1
    };
    if opcode / 16 == 0 {
        m.set_bc(wrap16(m.bc() + delta))
    } else if opcode / 16 == 1 {
        m.set_de(wrap16(m.de() + delta))
    } else if opcode / 16 == 2 {
        m.set_hl(wrap16(m.hl() + delta))
    } else {
        m.set_sp(wrap16(m.cpu.sp + delta))
    }
}

/// `ADD SP, e`.
pub open spec fn add_sp(m: Machine) -> Machine {
    let m1 = after_fetch_pc(m);
    let offset = next_byte(m);
    m1.with_cpu(
        Cpu {
            f: add_offset_flags((m.cpu.sp % 256) as u8, offset),
            sp: wrap16(m.cpu.sp + signed(offset)),
            ..m1.cpu
        },
    )
}

/// `SCF`, `CCF`, `CPL` and `DAA`.
pub open spec fn adjust_accumulator(m: Machine, opcode: u8) -> Machine {
    let f = m.cpu.f;
    if opcode == 0x37 {
        m.with_cpu(m.cpu.with_flags(pack_flags(flag_zero(f), false, false, true)))
    } else if opcode == 0x3F {
        m.with_cpu(m.cpu.with_flags(pack_flags(flag_zero(f), false, false, !flag_carry(f))))
    } else if opcode == 0x2F {
        m.with_cpu(
            Cpu {
                a: (255 - m.cpu.a) as u8,
                f: pack_flags(flag_zero(f), true, true, flag_carry(f)),
                ..m.cpu
            },
        )
    } else {
        m.with_cpu(Cpu { a: daa_value(m.cpu.a, f), f: daa_flags(m.cpu.a, f), ..m.cpu })
    }
}

/// What an increment, a decrement, `ADD SP, e` or an accumulator
/// adjustment does; or `None` where `opcode` is none of them.
pub open spec fn incdec_instruction(m: Machine, opcode: u8) -> Option<Machine> {
    if is_step_operand(opcode) {
        Some(step_operand(m, opcode))
    } else if is_step_wide(opcode) {
        Some(step_wide(m, opcode))
    } else if opcode == 0xE8 {
        Some(add_sp(m))
    } else if opcode == 0x37 || opcode == 0x3F || opcode == 0x2F || opcode == 0x27 {
        Some(adjust_accumulator(m, opcode))
    } else {
        None
    }
}

impl Cpu {
    /// Applies the 8-bit operation with index `function` to the accumulator
    /// and `operand`.
    pub fn alu(&mut self, function: u8, operand: u8)
        ensures
            valid_flags(final(self).f),
            *final(self) == alu_result(*old(self), function, operand),
    {
        let index = function % 8;
        let a = self.a;
        if index == 0 {
            self.a = self.add_8_8(a, operand);
        } else if index == 1 {
            self.a = self.adc_8_8(a, operand);
        } else if index == 2 {
            self.a = self.sub_8_8(a, operand);
        } else if index == 3 {
            self.a = self.sbc_8_8(a, operand);
        } else if index == 4 {
            self.a = self.and_8_8(a, operand);
        } else if index == 5 {
            self.a = self.xor_8_8(a, operand);
        } else if index == 6 {
            self.a = self.or_8_8(a, operand);
        } else {
            self.cp_8_8(a, operand);
        }
    }
}

impl GameBoy {
    /// Executes `ADD HL, rr`.
    fn execute_add_hl(&mut self, opcode: u8)
        requires
            old(self).wf(),
            is_add_hl(opcode),
        ensures
            final(self).wf(),
            final(self)@ == add_hl(old(self)@, opcode),
    {
        let (b_h, b_l) = if opcode / 16 == 0 {
            (self.cpu.b, self.cpu.c)
        } else if opcode / 16 == 1 {
            (self.cpu.d, self.cpu.e)
        } else if opcode / 16 == 2 {
            (self.cpu.h, self.cpu.l)
        } else {
            (high_byte(self.cpu.sp), low_byte(self.cpu.sp))
        };
        let (h, l) = self.cpu.add_16_16(self.cpu.h, self.cpu.l, b_h, b_l);
        self.cpu.h = h;
        self.cpu.l = l;
    }

    /// Executes `opcode` if it is an 8-bit arithmetic or logic instruction or
    /// `ADD HL, rr`; tells whether it was.
    pub fn handle_arithmetic_instructions(&mut self, opcode: u8) -> (handled: bool)
        requires
            old(self).wf(),
        ensures
            final(self).wf(),
            handled == arithmetic_instruction(old(self)@, opcode).is_some(),
            handled ==> final(self)@ == arithmetic_instruction(old(self)@, opcode).unwrap(),
            !handled ==> final(self)@ == old(self)@,
    {
        if opcode == 0x09 || opcode == 0x19 || opcode == 0x29 || opcode == 0x39 {
            self.execute_add_hl(opcode);
            true
        } else if 0x80 <= opcode && opcode <= 0xBF {
            let operand = self.load_value_from_register(opcode % 8);
            self.cpu.alu((opcode / 8) % 8, operand);
            true
        } else if opcode >= 0xC0 && opcode % 8 == 6 {
            let operand = self.fetch_next_byte_from_pc();
            self.cpu.alu((opcode / 8) % 8, operand);
            true
        } else {
            false
        }
    }

    /// Executes `INC r` or `DEC r`.
    fn execute_step_operand(&mut self, opcode: u8)
        requires
            old(self).wf(),
            is_step_operand(opcode),
        ensures
            final(self).wf(),
            final(self)@ == step_operand(old(self)@, opcode),
    {
        let index = (opcode / 8) % 8;
        let value = self.load_value_from_register(index);
        let result = if opcode % 8 == 4 {
            self.cpu.inc8(value)
        } else {
            self.cpu.dec8(value)
        };
        self.store_value_to_register(index, result);
    }

    /// Executes `INC rr` or `DEC rr`.
    fn execute_step_wide(&mut self, opcode: u8)
        requires
            old(self).wf(),
            is_step_wide(opcode),
        ensures
            final(self).wf(),
            final(self)@ == step_wide(old(self)@, opcode),
    {
        let up = opcode % 16 == 0x03;
        if opcode / 16 == 0 {
            if up {
                inc16(&mut self.cpu.b, &mut self.cpu.c);
            } else {
                dec16(&mut self.cpu.b, &mut self.cpu.c);
            }
        } else if opcode / 16 == 1 {
            if up {
                inc16(&mut self.cpu.d, &mut self.cpu.e);
            } else {
                dec16(&mut self.cpu.d, &mut self.cpu.e);
            }
        } else if opcode / 16 == 2 {
            if up {
                inc16(&mut self.cpu.h, &mut self.cpu.l);
            } else {
                dec16(&mut self.cpu.h, &mut self.cpu.l);
            }
        } else {
            let mut sp_h = high_byte(self.cpu.sp);
            let mut sp_l = low_byte(self.cpu.sp);
            if up {
                inc16(&mut sp_h, &mut sp_l);
            } else {
                dec16(&mut sp_h, &mut sp_l);
            }
            self.cpu.sp = make_u16(sp_h, sp_l);
        }
    }

    /// Executes `ADD SP, e`.
    fn execute_add_sp(&mut self)
        requires
            old(self).wf(),
        ensures
            final(self).wf(),
            final(self)@ == add_sp(old(self)@),
    {
        let sp = self.cpu.sp;
        let offset = self.fetch_next_byte_from_pc();
        let (s, p) = self.cpu.add_16_s8(high_byte(sp), low_byte(sp), offset);
        self.cpu.sp = make_u16(s, p);
    }

    /// Executes `opcode` if it is an increment, a decrement, `ADD SP, e` or
    /// an accumulator adjustment; tells whether it was.
    pub fn handle_incdec_instructions(&mut self, opcode: u8) -> (handled: bool)
        requires
            old(self).wf(),
        ensures
            final(self).wf(),
            handled == incdec_instruction(old(self)@, opcode).is_some(),
            handled ==> final(self)@ == incdec_instruction(old(self)@, opcode).unwrap(),
            !handled ==> final(self)@ == old(self)@,
    {
        if opcode < 0x40 && (opcode % 8 == 4 || opcode % 8 == 5) {
            self.execute_step_operand(opcode);
            true
        } else if opcode < 0x40 && (opcode % 16 == 0x03 || opcode % 16 == 0x0B) {
            self.execute_step_wide(opcode);
            true
        } else if opcode == 0xE8 {
            self.execute_add_sp();
            true
        } else if opcode == 0x37 {
            self.cpu.scf();
            true
        } else if opcode == 0x3F {
            self.cpu.ccf();
            true
        } else if opcode == 0x2F {
            self.cpu.cpl();
            true
        } else if opcode == 0x27 {
            self.cpu.daa();
            true
        } else {
            false
        }
    }
}

} // verus!
