//! Jumps, calls, returns, and the stack instructions.

use vstd::prelude::*;
use crate::branch::{after_jump, after_jump_relative, after_pop, after_push, stack_top};
use crate::cpu::{high_byte, low_byte, make_u16, Cpu};
use crate::flags::{flag_carry, flag_zero, has_flag, lemma_flag_bits, FlagMask};
use crate::machine::{GameBoy, Machine};
use crate::memory::{after_fetch_pc, next_byte, next_short};

verus! {

/// Whether the condition with index `condition` holds of flag byte `f`:
/// not zero, zero, no carry, carry.
pub open spec fn condition_holds(f: u8, condition: u8) -> bool {
    if condition % 4 == 0 {
        !flag_zero(f)
    } else if condition % 4 == 1 {
        flag_zero(f)
    } else if condition % 4 == 2 {
        !flag_carry(f)
    } else {
        flag_carry(f)
    }
}

/// Whether `opcode` is a relative jump.
pub open spec fn is_jr(opcode: u8) -> bool {
    opcode == 0x18 || opcode == 0x20 || opcode == 0x28 || opcode == 0x30 || opcode == 0x38
}

/// Whether the jump, call or return `opcode` is taken: always for the
/// unconditional forms, else by the condition `(opcode / 8) % 4`.
pub open spec fn branch_taken(m: Machine, opcode: u8, unconditional: bool) -> bool {
    unconditional || condition_holds(m.cpu.f, (opcode / 8) % 4)
}

/// `JR e` and `JR cc, e`.
pub open spec fn jr(m: Machine, opcode: u8) -> Machine {
    let m1 = after_fetch_pc(m);
    if branch_taken(m, opcode, opcode == 0x18) {
        after_jump_relative(m1, next_byte(m))
    } else {
        m1
    }
}

/// Whether `opcode` is an absolute jump to an address in the instruction.
pub open spec fn is_jp(opcode: u8) -> bool {
    opcode == 0xC3 || opcode == 0xC2 || opcode == 0xCA || opcode == 0xD2 || opcode == 0xDA
}

/// `JP nn` and `JP cc, nn`.
pub open spec fn jp(m: Machine, opcode: u8) -> Machine {
    let m2 = after_fetch_pc(after_fetch_pc(m));
    if branch_taken(m, opcode, opcode == 0xC3) {
        after_jump(m2, next_short(m) as u16)
    } else {
        m2
    }
}

/// Whether `opcode` is a call.
pub open spec fn is_call(opcode: u8) -> bool {
    opcode == 0xCD || opcode == 0xC4 || opcode == 0xCC || opcode == 0xD4 || opcode == 0xDC
}

/// `CALL nn` and `CALL cc, nn`: the address after the instruction is pushed.
pub open spec fn call(m: Machine, opcode: u8) -> Machine {
    let m2 = after_fetch_pc(after_fetch_pc(m));
    if branch_taken(m, opcode, opcode == 0xCD) {
        after_jump(after_push(m2, m2.cpu.pc), next_short(m) as u16)
    } else {
        m2
    }
}

/// Whether `opcode` is a return.
pub open spec fn is_ret(opcode: u8) -> bool {
    opcode == 0xC9 || opcode == 0xD9 || opcode == 0xC0 || opcode == 0xC8 || opcode == 0xD0
        || opcode == 0xD8
}

/// `RET`, `RET cc` and `RETI`, which sets the master enable at once.
pub open spec fn ret(m: Machine, opcode: u8) -> Machine {
    let m1 = if opcode == 0xD9 {
        m.with_cpu(Cpu { ime: true, ime_pending: false, ..m.cpu })
    } else {
        m
    };
    if branch_taken(m, opcode, opcode == 0xC9 || opcode == 0xD9) {
        after_jump(after_pop(m1), stack_top(m1) as u16)
    } else {
        m1
    }
}

/// Whether `opcode` is a call to a fixed vector.
pub open spec fn is_rst(opcode: u8) -> bool {
    opcode >= 0xC0 && opcode % 8 == 7
}

/// `RST v`: a call to the vector `opcode - 0xC7`.
pub open spec fn rst(m: Machine, opcode: u8) -> Machine {
    after_jump(after_push(m, m.cpu.pc), (opcode - 0xC7) as u16)
}

/// Whether `opcode` pushes a register pair.
pub open spec fn is_push(opcode: u8) -> bool {
    opcode == 0xC5 || opcode == 0xD5 || opcode == 0xE5 || opcode == 0xF5
}

/// The pair that `PUSH` and `POP` name: BC, DE, HL, AF.
pub open spec fn stack_operand(m: Machine, opcode: u8) -> u16 {
    if opcode / 16 == 0x0C {
        m.bc()
    } else if opcode / 16 == 0x0D {
        m.de()
    } else if opcode / 16 == 0x0E {
        m.hl()
    } else {
        m.af()
    }
}

/// `PUSH rr`.
pub open spec fn push(m: Machine, opcode: u8) -> Machine {
    after_push(m, stack_operand(m, opcode))
}

/// Whether `opcode` pops a register pair.
pub open spec fn is_pop(opcode: u8) -> bool {
    opcode == 0xC1 || opcode == 0xD1 || opcode == 0xE1 || opcode == 0xF1
}

/// `POP rr`; popping into AF clears the lower nibble of the flag register.
pub open spec fn pop(m: Machine, opcode: u8) -> Machine {
    let value = stack_top(m) as u16;
    let m1 = after_pop(m);
    if opcode / 16 == 0x0C {
        m1.set_bc(value)
    } else if opcode / 16 == 0x0D {
        m1.set_de(value)
    } else if opcode / 16 == 0x0E {
        m1.set_hl(value)
    } else {
        m1.with_cpu(
            Cpu { a: (value / 256) as u8, f: (((value % 256) / 16) * 16) as u8, ..m1.cpu },
        )
    }
}

/// What a jump, call, return or stack instruction does; or `None` where
/// `opcode` is none of them.
pub open spec fn branch_instruction(m: Machine, opcode: u8) -> Option<Machine> {
    if is_jr(opcode) {
        Some(jr(m, opcode))
    } else if is_jp(opcode) {
        Some(jp(m, opcode))
    } else if opcode == 0xE9 {
        Some(after_jump(m, m.hl()))
    } else if is_call(opcode) {
        Some(call(m, opcode))
    } else if is_ret(opcode) {
        Some(ret(m, opcode))
    } else if is_rst(opcode) {
        Some(rst(m, opcode))
    } else if is_push(opcode) {
        Some(push(m, opcode))
    } else if is_pop(opcode) {
        Some(pop(m, opcode))
    } else {
        None
    }
}

impl GameBoy {
    /// Tests the branch condition of `opcode`.
    fn test_condition(&self, opcode: u8) -> (holds: bool)
        ensures
            holds == condition_holds(self@.cpu.f, (opcode / 8) % 4),
    {
        let condition = (opcode / 8) % 4;
        if condition == 0 {
            !has_flag(self.cpu.f, FlagMask::Zero)
        } else if condition == 1 {
            has_flag(self.cpu.f, FlagMask::Zero)
        } else if condition == 2 {
            !has_flag(self.cpu.f, FlagMask::Carry)
        } else {
            has_flag(self.cpu.f, FlagMask::Carry)
        }
    }

    /// Executes a relative jump.
    fn execute_jr(&mut self, opcode: u8)
        requires
            old(self).wf(),
        ensures
            final(self).wf(),
            final(self)@ == jr(old(self)@, opcode),
    {
        let taken = opcode == 0x18 || self.test_condition(opcode);
        let offset = self.fetch_next_byte_from_pc();
        if taken {
            self.jump_relative(offset);
        }
    }

    /// Executes an absolute jump.
    fn execute_jp(&mut self, opcode: u8)
        requires
            old(self).wf(),
        ensures
            final(self).wf(),
            final(self)@ == jp(old(self)@, opcode),
    {
        let taken = opcode == 0xC3 || self.test_condition(opcode);
        let target = self.fetch_next_short_from_pc();
        if taken {
            self.jump_absolute(target);
        }
    }

    /// Executes a call.
    fn execute_call(&mut self, opcode: u8)
        requires
            old(self).wf(),
        ensures
            final(self).wf(),
            final(self)@ == call(old(self)@, opcode),
    {
        let taken = opcode == 0xCD || self.test_condition(opcode);
        let target = self.fetch_next_short_from_pc();
        if taken {
            self.push_stack(self.cpu.pc);
            self.jump_absolute(target);
        }
    }

    /// Executes a return.
    fn execute_ret(&mut self, opcode: u8)
        requires
            old(self).wf(),
        ensures
            final(self).wf(),
            final(self)@ == ret(old(self)@, opcode),
    {
        let taken = opcode == 0xC9 || opcode == 0xD9 || self.test_condition(opcode);
        if opcode == 0xD9 {
            self.cpu.ime = true;
            self.cpu.ime_pending = false;
        }
        if taken {
            let target = self.pop_stack();
            self.jump_absolute(target);
        }
    }

    /// Executes `PUSH rr`.
    fn execute_push(&mut self, opcode: u8)
        requires
            old(self).wf(),
        ensures
            final(self).wf(),
            final(self)@ == push(old(self)@, opcode),
    {
        let value = if opcode / 16 == 0x0C {
            make_u16(self.cpu.b, self.cpu.c)
        } else if opcode / 16 == 0x0D {
            make_u16(self.cpu.d, self.cpu.e)
        } else if opcode / 16 == 0x0E {
            make_u16(self.cpu.h, self.cpu.l)
        } else {
            make_u16(self.cpu.a, self.cpu.f)
        };
        self.push_stack(value);
    }

    /// Executes `POP rr`.
    fn execute_pop(&mut self, opcode: u8)
        requires
            old(self).wf(),
        ensures
            final(self).wf(),
            final(self)@ == pop(old(self)@, opcode),
    {
        let value = self.pop_stack();
        let high = high_byte(value);
        let low = low_byte(value);
        if opcode / 16 == 0x0C {
            self.cpu.b = high;
            self.cpu.c = low;
        } else if opcode / 16 == 0x0D {
            self.cpu.d = high;
            self.cpu.e = low;
        } else if opcode / 16 == 0x0E {
            self.cpu.h = high;
            self.cpu.l = low;
        } else {
            proof {
                lemma_flag_bits(low);
            }
            self.cpu.a = high;
            self.cpu.f = low & 0xF0;
        }
    }

    /// Executes `opcode` if it is a jump, call, return or stack instruction;
    /// tells whether it was.
    pub fn handle_branch_instructions(&mut self, opcode: u8) -> (handled: bool)
        requires
            old(self).wf(),
        ensures
            final(self).wf(),
            handled == branch_instruction(old(self)@, opcode).is_some(),
            handled ==> final(self)@ == branch_instruction(old(self)@, opcode).unwrap(),
            !handled ==> final(self)@ == old(self)@,
    {
        if opcode == 0x18 || opcode == 0x20 || opcode == 0x28 || opcode == 0x30 || opcode == 0x38 {
            self.execute_jr(opcode);
            true
        } else if opcode == 0xC3 || opcode == 0xC2 || opcode == 0xCA || opcode == 0xD2 || opcode
            == 0xDA {
            self.execute_jp(opcode);
            true
        } else if opcode == 0xE9 {
            let target = make_u16(self.cpu.h, self.cpu.l);
            self.jump_absolute(target);
            true
        } else if opcode == 0xCD || opcode == 0xC4 || opcode == 0xCC || opcode == 0xD4 || opcode
            == 0xDC {
            self.execute_call(opcode);
            true
        } else if opcode == 0xC9 || opcode == 0xD9 || opcode == 0xC0 || opcode == 0xC8 || opcode
            == 0xD0 || opcode == 0xD8 {
            self.execute_ret(opcode);
            true
        } else if opcode >= 0xC0 && opcode % 8 == 7 {
            self.push_stack(self.cpu.pc);
            self.jump_absolute((opcode - 0xC7) as u16);
            true
        } else if opcode == 0xC5 || opcode == 0xD5 || opcode == 0xE5 || opcode == 0xF5 {
            self.execute_push(opcode);
            true
        } else if opcode == 0xC1 || opcode == 0xD1 || opcode == 0xE1 || opcode == 0xF1 {
            self.execute_pop(opcode);
            true
        } else {
            false
        }
    }
}

} // verus!
