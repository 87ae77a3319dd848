//! Jumps and the stack.

use vstd::prelude::*;
use crate::cpu::{high_byte, low_byte, make_u16, signed, Cpu};
use crate::io::read_io;
use crate::machine::{wrap16, GameBoy, Machine};
use crate::memory::{
    after_fetch, after_store, eram_index, oam_accessible, read_byte, read_short,
    lemma_read_ignores_cpu, lemma_write_keeps_cpu, lemma_write_keeps_wf, vram_accessible, write_byte,
};

verus! {

/// The machine after a jump to `address`, which costs one machine cycle.
pub open spec fn after_jump(m: Machine, address: u16) -> Machine {
    Machine { cpu: Cpu { pc: address, ..m.tick().cpu }, ..m }
}

/// The machine after a jump by the signed offset `offset`.
pub open spec fn after_jump_relative(m: Machine, offset: u8) -> Machine {
    Machine { cpu: Cpu { pc: wrap16(m.cpu.pc + signed(offset)), ..m.cpu }, ..m }
}

/// The machine with the stack pointer moved by `delta`.
pub open spec fn move_sp(m: Machine, delta: int) -> Machine {
    Machine { cpu: Cpu { sp: wrap16(m.cpu.sp + delta), ..m.cpu }, ..m }
}

/// The machine after `value` was pushed: high byte first, each below the last.
pub open spec fn after_push(m: Machine, value: u16) -> Machine {
    let m1 = move_sp(m, -1);
    let m2 = after_store(m1, m1.cpu.sp, (value / 256) as u8);
    let m3 = move_sp(m2, -1);
    after_store(m3, m3.cpu.sp, (value % 256) as u8)
}

/// The 16-bit value on top of the stack.
pub open spec fn stack_top(m: Machine) -> int {
    read_short(m, m.cpu.sp)
}

/// The machine after the top of the stack was popped.
pub open spec fn after_pop(m: Machine) -> Machine {
    move_sp(after_fetch(after_fetch(m)), 2)
}

/// Whether `address` is a plain memory cell in state `m`: a byte of video
/// RAM, cartridge RAM, work RAM, sprite table or high RAM that the CPU can
/// reach, or the interrupt-enable register. Such a cell reads back what was
/// last written to it.
pub open spec fn ram_cell(m: Machine, address: u16) -> bool {
    let a = address as int;
    ||| 0x8000 <= a < 0xA000 && vram_accessible(m)
    ||| 0xA000 <= a < 0xC000 && m.bank.eram_enabled && eram_index(m, a) < m.eram.len()
    ||| 0xC000 <= a < 0xFE00
    ||| 0xFE00 <= a < 0xFEA0 && oam_accessible(m)
    ||| 0xFF80 <= a
}

/// Whether `a` and `b` name the same cell: work RAM answers at two addresses.
pub open spec fn same_cell(a: u16, b: u16) -> bool {
    a == b || (0xC000 <= a < 0xFE00 && 0xC000 <= b < 0xFE00 && (a - 0xC000) % 0x2000 == (b
        - 0xC000) % 0x2000)
}

/// A plain cell reads back the value written to it.
pub proof fn lemma_write_then_read(m: Machine, address: u16, value: u8)
    requires
        m.wf(),
        ram_cell(m, address),
    ensures
        read_byte(write_byte(m, address, value), address) == value,
        ram_cell(write_byte(m, address, value), address),
{
    reveal(write_byte);
}

/// A write to a plain cell leaves every other cell as it was.
pub proof fn lemma_write_keeps_others(m: Machine, address: u16, value: u8, other: u16)
    requires
        m.wf(),
        ram_cell(m, address),
        !same_cell(address, other),
    ensures
        read_byte(write_byte(m, address, value), other) == read_byte(m, other),
        ram_cell(write_byte(m, address, value), other) == ram_cell(m, other),
{
    reveal(write_byte);
    reveal(read_io);
}

/// Pushing `x` and popping again yields `x` and leaves the stack pointer
/// where it was, wherever the two bytes below the stack pointer are plain
/// memory cells.
pub proof fn lemma_push_pop_round_trip(m: Machine, x: u16)
    requires
        m.wf(),
        ram_cell(m, wrap16(m.cpu.sp - 1)),
        ram_cell(m, wrap16(m.cpu.sp - 2)),
    ensures
        stack_top(after_push(m, x)) == x,
        after_pop(after_push(m, x)).cpu.sp == m.cpu.sp,
{
    let sp1 = wrap16(m.cpu.sp - 1);
    let sp2 = wrap16(m.cpu.sp - 2);
    let high = (x / 256) as u8;
    let low = (x % 256) as u8;
    let m1 = move_sp(m, -1);
    let m2 = after_store(m1, sp1, high);
    let m3 = move_sp(m2, -1);
    let m4 = after_store(m3, sp2, low);
    lemma_write_keeps_cpu(m1, sp1, high);
    lemma_write_keeps_cpu(m3, sp2, low);
    lemma_write_keeps_wf(m1, sp1, high);
    lemma_write_keeps_others(m1, sp1, high, sp2);
    assert(m3.cpu.sp == sp2);
    assert(wrap16(sp2 + 1) == sp1);
    let w1 = write_byte(m1, sp1, high);
    lemma_write_then_read(m1, sp1, high);
    assert(read_byte(m3, sp1) == high);
    lemma_write_keeps_others(m3, sp2, low, sp1);
    lemma_write_then_read(m3, sp2, low);
    assert(read_byte(m4, sp1) == high);
    assert(read_byte(m4, sp2) == low);
}

impl GameBoy {
    /// Continues execution at `address`; costs one machine cycle.
    pub fn jump_absolute(&mut self, address: u16)
        requires
            old(self).wf(),
        ensures
            final(self).wf(),
            final(self)@ == after_jump(old(self)@, address),
    {
        self.cpu.cycles_to_wait = self.cpu.cycles_to_wait.wrapping_add(1);
        self.cpu.pc = address;
    }

    /// Moves the program counter by the signed offset `offset`.
    pub fn jump_relative(&mut self, offset: u8)
        requires
            old(self).wf(),
        ensures
            final(self).wf(),
            final(self)@ == after_jump_relative(old(self)@, offset),
    {
        if offset < 0x80 {
            self.cpu.pc = self.cpu.pc.wrapping_add(offset as u16);
        } else {
            self.cpu.pc = self.cpu.pc.wrapping_sub(0x100 - (offset as u16));
        }
    }

    /// Pushes `value` onto the stack.
    pub fn push_stack(&mut self, value: u16)
        requires
            old(self).wf(),
        ensures
            final(self).wf(),
            final(self)@ == after_push(old(self)@, value),
    {
        self.cpu.sp = self.cpu.sp.wrapping_sub(1);
        self.store_byte_to_memory(self.cpu.sp, high_byte(value));
        self.cpu.sp = self.cpu.sp.wrapping_sub(1);
        self.store_byte_to_memory(self.cpu.sp, low_byte(value));
    }

    /// Pops the 16-bit value on top of the stack.
    pub fn pop_stack(&mut self) -> (value: u16)
        requires
            old(self).wf(),
        ensures
            final(self).wf(),
            value == stack_top(old(self)@),
            final(self)@ == after_pop(old(self)@),
    {
        let low = self.fetch_byte_from_memory(self.cpu.sp);
        self.cpu.sp = self.cpu.sp.wrapping_add(1);
        proof {
            lemma_read_ignores_cpu(old(self)@, self@.cpu, self@.cpu.sp);
            assert(self@ == old(self)@.with_cpu(self@.cpu));
        }
        let high = self.fetch_byte_from_memory(self.cpu.sp);
        self.cpu.sp = self.cpu.sp.wrapping_add(1);
        make_u16(high, low)
    }
}

} // verus!
