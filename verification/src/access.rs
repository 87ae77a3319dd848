//! What the host may read of the machine, and the registers it may set.

use vstd::prelude::*;
use crate::cpu::Cpu;
use crate::machine::{ApuState, Banking, Dma, GameBoy, Machine, PpuState, Timer};
use crate::memory::read_byte;

verus! {

impl GameBoy {
    /// The CPU's registers.
    pub fn registers(&self) -> (cpu: Cpu)
        ensures
            cpu == self@.cpu,
    {
        self.cpu
    }

    /// Replaces the CPU's registers; the lower nibble of the flag register
    /// is cleared.
    pub fn set_registers(&mut self, cpu: Cpu)
        requires
            old(self).wf(),
        ensures
            final(self).wf(),
            final(self)@ == old(self)@.with_cpu(Cpu { f: ((cpu.f / 16) * 16) as u8, ..cpu }),
    {
        self.cpu = cpu;
        self.cpu.f = (cpu.f / 16) * 16;
    }

    /// The byte at `address` as the CPU would read it, at no cost.
    pub fn read_memory(&self, address: u16) -> (value: u8)
        requires
            self.wf(),
        ensures
            value == read_byte(self@, address),
    {
        self.peek(address)
    }

    /// The 160x144 picture, row by row.
    pub fn framebuffer(&self) -> (pixels: &Vec<u32>)
        ensures
            pixels@ == self@.framebuffer,
    {
        &self.framebuffer
    }

    /// The pixel unit's counters and latches.
    pub fn ppu_state(&self) -> (ppu: PpuState)
        ensures
            ppu == self@.ppu,
    {
        self.ppu
    }

    /// The sound unit's state.
    pub fn apu_state(&self) -> (apu: ApuState)
        ensures
            apu == self@.apu,
    {
        self.apu
    }

    /// The divider and the overflow latch.
    pub fn timer_state(&self) -> (timer: Timer)
        ensures
            timer == self@.timer,
    {
        self.timer
    }

    /// The sprite-table transfer in flight.
    pub fn dma_state(&self) -> (dma: Dma)
        ensures
            dma == self@.dma,
    {
        self.dma
    }

    /// The cartridge bank latches.
    pub fn banking(&self) -> (bank: Banking)
        ensures
            bank == self@.bank,
    {
        self.bank
    }

    /// The interrupt-enable register.
    pub fn interrupt_enable(&self) -> (ie: u8)
        ensures
            ie == self@.ie,
    {
        self.ie
    }

    /// Machine cycles that the instruction executed last took.
    pub fn last_instruction_cycles(&self) -> (cycles: u32)
        ensures
            cycles == self@.cpu.last_opcode_cycles,
    {
        self.cpu.last_opcode_cycles
    }
}

} // verus!
