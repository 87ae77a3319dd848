//! The 0xCB-prefixed instructions: rotates, shifts and single-bit operations.

use vstd::prelude::*;
use crate::cpu::{
    bit_flags, rl_value, rlc_value, rr_value, rrc_value, shift_flags, sla_value, sra_value,
    srl_value, swap_value, Cpu,
};
use crate::flags::flag_carry;
use crate::flags::valid_flags;
use crate::machine::{GameBoy, Machine};
use crate::memory::{after_fetch_pc, next_byte};
use crate::opcodes_ld::{after_operand_read, after_operand_write, operand_value};

verus! {

/// The result of the rotate or shift with index `function` (RLC, RRC, RL,
/// RR, SLA, SRA, SWAP, SRL) on `value`, with the carry flag taken from `f`.
pub open spec fn shift_value(f: u8, function: u8, value: u8) -> u8 {
    if function % 8 == 0 {
        rlc_value(value)
    } else if function % 8 == 1 {
        rrc_value(value)
    } else if function % 8 == 2 {
        rl_value(value, flag_carry(f))
    } else if function % 8 == 3 {
        rr_value(value, flag_carry(f))
    } else if function % 8 == 4 {
        sla_value(value)
    } else if function % 8 == 5 {
        sra_value(value)
    } else if function % 8 == 6 {
        swap_value(value)
    } else {
        srl_value(value)
    }
}

/// The bit that the rotate or shift with index `function` moves out of `value`.
pub open spec fn shift_carry(function: u8, value: u8) -> bool {
    if function % 8 == 6 {
        false
    } else if function % 8 == 0 || function % 8 == 2 || function % 8 == 4 {
        value >= 128
    } else {
        value % 2 == 1
    }
}

/// The flags after the rotate or shift with index `function` on `value`.
pub open spec fn shift_result_flags(f: u8, function: u8, value: u8) -> u8 {
    shift_flags(shift_value(f, function, value), shift_carry(function, value))
}

/// What the instruction after a 0xCB prefix does: the second byte names the
/// operation in its upper five bits and the operand in its lower three.
pub open spec fn prefixed_instruction(m: Machine) -> Machine {
    let opcode = next_byte(m);
    let m1 = after_fetch_pc(m);
    let index = opcode % 8;
    let value = operand_value(m1, index);
    let m2 = after_operand_read(m1, index);
    let n = (opcode / 8) % 8;
    if opcode < 0x40 {
        after_operand_write(
            m2.with_cpu(m2.cpu.with_flags(shift_result_flags(m.cpu.f, n, value))),
            index,
            shift_value(m.cpu.f, n, value),
        )
    } else if opcode < 0x80 {
        m2.with_cpu(m2.cpu.with_flags(bit_flags(value, n, m.cpu.f)))
    } else if opcode < 0xC0 {
        after_operand_write(m2, index, value & !(1u8 << n))
    } else {
        after_operand_write(m2, index, value | (1u8 << n))
    }
}

impl Cpu {
    /// Applies the rotate or shift with index `function` to `value`.
    pub fn shift(&mut self, function: u8, value: u8) -> (r: u8)
        ensures
            valid_flags(final(self).f),
            r == shift_value(old(self).f, function, value),
            *final(self) == old(self).with_flags(
                shift_result_flags(old(self).f, function, value),
            ),
    {
        let index = function % 8;
        if index == 0 {
            self.rlc(value)
        } else if index == 1 {
            self.rrc(value)
        } else if index == 2 {
            self.rl(value)
        } else if index == 3 {
            self.rr(value)
        } else if index == 4 {
            self.sla(value)
        } else if index == 5 {
            self.sra(value)
        } else if index == 6 {
            self.swap(value)
        } else {
            self.srl(value)
        }
    }
}

impl GameBoy {
    /// Executes the instruction that follows the 0xCB prefix `opcode`.
    pub fn handle_prefixed_instructions(&mut self, opcode: u8) -> (handled: bool)
        requires
            old(self).wf(),
            opcode == 0xCB,
        ensures
            handled,
            final(self).wf(),
            final(self)@ == prefixed_instruction(old(self)@),
    {
        let opcode = self.fetch_next_byte_from_pc();
        let index = opcode % 8;
        let value = self.load_value_from_register(index);
        let n = (opcode / 8) % 8;
        if opcode < 0x40 {
            let result = self.cpu.shift(n, value);
            self.store_value_to_register(index, result);
        } else if opcode < 0x80 {
            self.cpu.bit(value, n);
        } else if opcode < 0xC0 {
            let result = self.cpu.res(value, n);
            self.store_value_to_register(index, result);
        } else {
            let result = self.cpu.set(value, n);
            self.store_value_to_register(index, result);
        }
        true
    }
}

} // verus!
