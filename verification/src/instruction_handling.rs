//! The fetch-decode-execute step.

use vstd::prelude::*;
use crate::cpu::Cpu;
use crate::flags::{flag_carry, has_flag, make_flags, pack_flags, FlagMask};
use crate::interrupts::{interrupt_step, timer_step};
use crate::machine::{GameBoy, Machine};
use crate::memory::{after_fetch_pc, next_byte};
use crate::opcodes_arithmetic::{arithmetic_instruction, incdec_instruction};
use crate::opcodes_branch::branch_instruction;
use crate::opcodes_ld::load_instruction;
use crate::opcodes_prefixed::{prefixed_instruction, shift_carry, shift_value};

verus! {

/// An opcode that the instruction table does not hold, and where it stood.
#[derive(Clone, Copy, Debug, PartialEq, Eq)]
pub struct UnknownOpcode {
    pub opcode: u8,
    /// The address that the opcode was fetched from.
    pub pc: u16,
}

/// `RLCA`, `RRCA`, `RLA`, `RRA`: the accumulator is rotated and every flag
/// but carry is cleared.
pub open spec fn rotate_accumulator(m: Machine, opcode: u8) -> Machine {
    m.with_cpu(
        Cpu {
            a: shift_value(m.cpu.f, opcode / 8, m.cpu.a),
            f: pack_flags(false, false, false, shift_carry(opcode / 8, m.cpu.a)),
            ..m.cpu
        },
    )
}

/// What one of the instructions outside the regular groups does: `NOP`, the
/// accumulator rotates, `STOP`, `HALT`, the 0xCB prefix, `DI` (at once) and
/// `EI` (after the next instruction); or `None` where `opcode` is none of them.
pub open spec fn misc_instruction(m: Machine, opcode: u8) -> Option<Machine> {
    if opcode == 0x00 {
        Some(m)
    } else if opcode == 0x07 || opcode == 0x0F || opcode == 0x17 || opcode == 0x1F {
        Some(rotate_accumulator(m, opcode))
    } else if opcode == 0x10 {
        Some(after_fetch_pc(m))
    } else if opcode == 0x76 {
        Some(m.with_cpu(Cpu { halted: true, ..m.cpu }))
    } else if opcode == 0xCB {
        Some(prefixed_instruction(m))
    } else if opcode == 0xF3 {
        Some(m.with_cpu(Cpu { ime: false, ime_pending: false, ..m.cpu }))
    } else if opcode == 0xFB {
        Some(m.with_cpu(Cpu { ime_pending: true, ..m.cpu }))
    } else {
        None
    }
}

/// What the instruction `opcode` does, its opcode byte already fetched; or
/// `None` where the instruction table does not hold `opcode`.
#[verifier::opaque]
pub open spec fn execute(m: Machine, opcode: u8) -> Option<Machine> {
    if misc_instruction(m, opcode).is_some() {
        misc_instruction(m, opcode)
    } else if load_instruction(m, opcode).is_some() {
        load_instruction(m, opcode)
    } else if arithmetic_instruction(m, opcode).is_some() {
        arithmetic_instruction(m, opcode)
    } else if branch_instruction(m, opcode).is_some() {
        branch_instruction(m, opcode)
    } else {
        incdec_instruction(m, opcode)
    }
}

/// The eleven opcodes that the instruction table does not hold.
pub open spec fn is_unknown_opcode(opcode: u8) -> bool {
    opcode == 0xD3 || opcode == 0xDB || opcode == 0xDD || opcode == 0xE3 || opcode == 0xE4
        || opcode == 0xEB || opcode == 0xEC || opcode == 0xED || opcode == 0xF4 || opcode == 0xFC
        || opcode == 0xFD
}

/// Every opcode but the eleven unknown ones is executed.
pub proof fn lemma_unknown_opcodes(m: Machine, opcode: u8)
    ensures
        execute(m, opcode).is_none() <==> is_unknown_opcode(opcode),
{
    reveal(execute);
}

/// The machine as an instruction ends: a pending enable takes effect if it
/// was pending before the instruction and still is, and the instruction's
/// cycle count is recorded.
pub open spec fn finish_instruction(m: Machine, was_pending: bool) -> Machine {
    let enable = was_pending && m.cpu.ime_pending;
    m.with_cpu(
        Cpu {
            ime: m.cpu.ime || enable,
            ime_pending: m.cpu.ime_pending && !enable,
            last_opcode_cycles: m.cpu.cycles_to_wait,
            ..m.cpu
        },
    )
}

/// The machine as the CPU begins a step that does not wait: the cycle debt
/// cleared, the interrupt controller run.
pub open spec fn before_fetch(m: Machine) -> Machine {
    interrupt_step(
        m.with_cpu(
            Cpu {
                cycles_to_wait: 0,
                new_instruction_tick: m.cpu.cycles_to_wait == 1,
                ..m.cpu
            },
        ),
    )
}

/// The machine with the opcode at the program counter fetched and noted.
pub open spec fn fetched(m: Machine) -> Machine {
    let f = after_fetch_pc(m);
    f.with_cpu(Cpu { last_opcode: next_byte(m), ..f.cpu })
}

/// Whether a step only pays off a cycle of the instruction in flight.
pub open spec fn step_waits(m: Machine) -> bool {
    m.cpu.cycles_to_wait > 1
}

/// The machine after one cycle of the instruction in flight was paid off.
pub open spec fn pay_cycle(m: Machine) -> Machine {
    m.with_cpu(
        Cpu {
            cycles_to_wait: (m.cpu.cycles_to_wait - 1) as u32,
            new_instruction_tick: false,
            ..m.cpu
        },
    )
}

/// The machine after the instruction at the program counter ran; an
/// unknown opcode leaves the machine as the fetch left it.
pub open spec fn run_instruction(m: Machine) -> Machine {
    match execute(fetched(m), next_byte(m)) {
        Some(done) => finish_instruction(done, m.cpu.ime_pending),
        None => fetched(m),
    }
}

/// The CPU's part of a step. While the instruction in flight owes more
/// than one cycle, the step pays one off. Otherwise the interrupt
/// controller runs and, unless the CPU is halted, one instruction is
/// fetched and executed.
pub open spec fn cpu_step(m: Machine) -> Machine {
    if step_waits(m) {
        pay_cycle(m)
    } else if before_fetch(m).cpu.halted {
        before_fetch(m)
    } else {
        run_instruction(before_fetch(m))
    }
}

/// The unknown opcode that the CPU's part of a step runs into, if it does.
pub open spec fn cpu_fault(m: Machine) -> Option<UnknownOpcode> {
    let i = before_fetch(m);
    if !step_waits(m) && !i.cpu.halted && is_unknown_opcode(next_byte(i)) {
        Some(UnknownOpcode { opcode: next_byte(i), pc: i.cpu.pc })
    } else {
        None
    }
}

/// One step of the CPU: the timer advances, then the CPU does its part.
pub open spec fn step(m: Machine) -> Machine {
    cpu_step(timer_step(m))
}

/// The unknown opcode that a step runs into, if it does.
pub open spec fn step_fault(m: Machine) -> Option<UnknownOpcode> {
    cpu_fault(timer_step(m))
}

impl GameBoy {
    /// Executes `opcode` if it is one of the instructions outside the
    /// regular groups; tells whether it was.
    pub fn handle_misc_instructions(&mut self, opcode: u8) -> (handled: bool)
        requires
            old(self).wf(),
        ensures
            final(self).wf(),
            handled == misc_instruction(old(self)@, opcode).is_some(),
            handled ==> final(self)@ == misc_instruction(old(self)@, opcode).unwrap(),
            !handled ==> final(self)@ == old(self)@,
    {
        if opcode == 0x00 {
            true
        } else if opcode == 0x07 || opcode == 0x0F || opcode == 0x17 || opcode == 0x1F {
            proof {
                crate::flags::lemma_pack_unpack(
                    shift_value(self.cpu.f, opcode / 8, self.cpu.a) == 0,
                    false,
                    false,
                    shift_carry(opcode / 8, self.cpu.a),
                );
            }
            self.cpu.a = self.cpu.shift(opcode / 8, self.cpu.a);
            let carry = has_flag(self.cpu.f, FlagMask::Carry);
            self.cpu.f = make_flags(false, false, false, carry);
            true
        } else if opcode == 0x10 {
            let _ = self.fetch_next_byte_from_pc();
            true
        } else if opcode == 0x76 {
            self.cpu.halted = true;
            true
        } else if opcode == 0xCB {
            self.handle_prefixed_instructions(opcode)
        } else if opcode == 0xF3 {
            self.cpu.ime = false;
            self.cpu.ime_pending = false;
            true
        } else if opcode == 0xFB {
            self.cpu.ime_pending = true;
            true
        } else {
            false
        }
    }

    /// Executes the instruction `opcode`, its opcode byte already fetched;
    /// tells whether the instruction table holds it.
    pub fn execute_instruction(&mut self, opcode: u8) -> (handled: bool)
        requires
            old(self).wf(),
        ensures
            final(self).wf(),
            handled == !is_unknown_opcode(opcode),
            handled == execute(old(self)@, opcode).is_some(),
            handled ==> final(self)@ == execute(old(self)@, opcode).unwrap(),
            !handled ==> final(self)@ == old(self)@,
    {
        proof {
            lemma_unknown_opcodes(self@, opcode);
            reveal(execute);
        }
        if self.handle_misc_instructions(opcode) {
            return true;
        }
        if self.handle_load_instructions(opcode) {
            return true;
        }
        if self.handle_arithmetic_instructions(opcode) {
            return true;
        }
        if self.handle_branch_instructions(opcode) {
            return true;
        }
        self.handle_incdec_instructions(opcode)
    }

    /// Clears the cycle debt and runs the interrupt controller.
    fn prepare_fetch(&mut self)
        requires
            old(self).wf(),
            !step_waits(old(self)@),
        ensures
            final(self).wf(),
            final(self)@ == before_fetch(old(self)@),
    {
        self.cpu.new_instruction_tick = self.cpu.cycles_to_wait == 1;
        self.cpu.cycles_to_wait = 0;
        self.handle_interrupts();
    }

    /// Fetches and executes the instruction at the program counter.
    fn fetch_and_execute(&mut self) -> (result: Result<(), UnknownOpcode>)
        requires
            old(self).wf(),
        ensures
            final(self).wf(),
            final(self)@ == run_instruction(old(self)@),
            result == (if is_unknown_opcode(next_byte(old(self)@)) {
                Err::<(), UnknownOpcode>(
                    UnknownOpcode { opcode: next_byte(old(self)@), pc: old(self)@.cpu.pc },
                )
            } else {
                Ok::<(), UnknownOpcode>(())
            }),
    {
        let was_pending = self.cpu.ime_pending;
        let pc = self.cpu.pc;
        let opcode = self.fetch_next_byte_from_pc();
        self.cpu.last_opcode = opcode;
        if !self.execute_instruction(opcode) {
            return Err(UnknownOpcode { opcode, pc });
        }
        if was_pending && self.cpu.ime_pending {
            self.cpu.ime = true;
            self.cpu.ime_pending = false;
        }
        self.cpu.last_opcode_cycles = self.cpu.cycles_to_wait;
        Ok(())
    }

    /// The CPU's part of a step, after the timer's.
    fn run_cpu(&mut self) -> (result: Result<(), UnknownOpcode>)
        requires
            old(self).wf(),
        ensures
            final(self).wf(),
            final(self)@ == cpu_step(old(self)@),
            result == match cpu_fault(old(self)@) {
                Some(fault) => Err::<(), UnknownOpcode>(fault),
                None => Ok::<(), UnknownOpcode>(()),
            },
    {
        if self.cpu.cycles_to_wait > 1 {
            self.cpu.new_instruction_tick = false;
            self.cpu.cycles_to_wait -= 1;
            return Ok(());
        }
        self.prepare_fetch();
        if self.cpu.halted {
            return Ok(());
        }
        self.fetch_and_execute()
    }

    /// Advances the CPU by one step. Fails, with the machine as the fetch
    /// left it, exactly when the opcode fetched is not in the instruction
    /// table.
    pub fn process_next_instruction(&mut self) -> (result: Result<(), UnknownOpcode>)
        requires
            old(self).wf(),
        ensures
            final(self).wf(),
            final(self)@ == step(old(self)@),
            result == match step_fault(old(self)@) {
                Some(fault) => Err::<(), UnknownOpcode>(fault),
                None => Ok::<(), UnknownOpcode>(()),
            },
    {
        self.handle_timer();
        self.run_cpu()
    }
}

} // verus!
