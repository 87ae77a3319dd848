//! The driver's step: the CPU, the pixel unit, the sprite-table transfer
//! and the sound unit in their fixed order, and the loop that runs them
//! for a frame.

use vstd::prelude::*;
use crate::apu::{apu_cycle, apu_output};
use crate::instruction_handling::{step, step_fault, UnknownOpcode};
use crate::machine::{wrap16, Dma, GameBoy, Machine};
use crate::memory::{after_fetch, read_byte};
use crate::ppu::ppu_cycle;

verus! {

/// One step of the sprite-table transfer: while bytes are left, the next
/// one is read from the source page as the CPU would read it, at the cost
/// of a machine cycle, and stored in the sprite table.
pub open spec fn dma_step(m: Machine) -> Machine {
    if m.dma.counter > 0 {
        let index = 160 - m.dma.counter;
        let fetched = after_fetch(m);
        Machine {
            oam: m.oam.update(index, read_byte(m, wrap16(m.dma.source + index))),
            dma: Dma { counter: (m.dma.counter - 1) as u8, ..m.dma },
            ..fetched
        }
    } else {
        m
    }
}

/// The machine after the four dots of a machine cycle.
pub open spec fn four_dots(m: Machine) -> Machine {
    ppu_cycle(ppu_cycle(ppu_cycle(ppu_cycle(m))))
}

/// The machine before the sound tick of a driver step whose CPU part left
/// it in state `m`: after the four dots of the pixel unit and a step of
/// the sprite-table transfer.
pub open spec fn before_sound(m: Machine) -> Machine {
    dma_step(four_dots(m))
}

/// What follows the CPU's part in a driver step, a machine cycle: four
/// dots of the pixel unit, a step of the sprite-table transfer, and a
/// sound tick.
pub open spec fn after_cpu(m: Machine) -> Machine {
    apu_cycle(before_sound(m))
}

/// The machine after one driver step; after an unknown opcode, nothing
/// runs but the CPU.
#[verifier::opaque]
pub open spec fn driver_step(m: Machine) -> Machine {
    if step_fault(m).is_some() {
        step(m)
    } else {
        after_cpu(step(m))
    }
}

/// The samples that one driver step completes: a buffer of 256 stereo
/// samples where its sound tick fills one, else none.
#[verifier::opaque]
pub open spec fn driver_sound(m: Machine) -> Seq<u16> {
    if step_fault(m).is_some() {
        Seq::empty()
    } else {
        match apu_output(before_sound(step(m))) {
            Some(buffer) => buffer,
            None => Seq::empty(),
        }
    }
}

/// Whether the step from `before` to `after` ended a frame: the line
/// counter changed and stands at the first line of the picture or of
/// vertical blank.
pub open spec fn frame_ends(before: Machine, after: Machine) -> bool {
    before.ppu.ly != after.ppu.ly && after.ppu.ly % 144 == 0
}

/// Whether a run of driver steps stops with the step from state `m`: at
/// an unknown opcode or at the end of a frame.
pub open spec fn run_stops(m: Machine) -> bool {
    step_fault(m).is_some() || frame_ends(m, driver_step(m))
}

/// The machine after driver steps up to the end of a frame, an unknown
/// opcode, or `budget` steps, whichever comes first.
pub open spec fn frame_run(m: Machine, budget: nat) -> Machine
    decreases budget,
{
    if budget == 0 {
        m
    } else if run_stops(m) {
        driver_step(m)
    } else {
        frame_run(driver_step(m), (budget - 1) as nat)
    }
}

/// How such a run ends: with the unknown opcode, with `true` at the end of
/// a frame, with `false` when the budget is used up.
pub open spec fn frame_result(m: Machine, budget: nat) -> Result<bool, UnknownOpcode>
    decreases budget,
{
    if budget == 0 {
        Ok(false)
    } else if step_fault(m).is_some() {
        Err(step_fault(m).unwrap())
    } else if frame_ends(m, driver_step(m)) {
        Ok(true)
    } else {
        frame_result(driver_step(m), (budget - 1) as nat)
    }
}

/// The samples that such a run completes, in order.
pub open spec fn frame_sound(m: Machine, budget: nat) -> Seq<u16>
    decreases budget,
{
    if budget == 0 {
        Seq::empty()
    } else if run_stops(m) {
        driver_sound(m)
    } else {
        driver_sound(m) + frame_sound(driver_step(m), (budget - 1) as nat)
    }
}

impl GameBoy {
    /// Copies the next byte of a sprite-table transfer in flight.
    pub fn run_dma(&mut self)
        requires
            old(self).wf(),
        ensures
            final(self).wf(),
            final(self)@ == dma_step(old(self)@),
    {
        if self.dma.counter > 0 {
            let index = 160 - self.dma.counter;
            let value = self.fetch_byte_from_memory(self.dma.source.wrapping_add(index as u16));
            self.oam.set(index as usize, value);
            self.dma.counter = self.dma.counter - 1;
        }
    }

    /// The four dots of a machine cycle.
    fn run_four_dots(&mut self)
        requires
            old(self).wf(),
        ensures
            final(self).wf(),
            final(self)@ == four_dots(old(self)@),
    {
        self.run_ppu_cycle();
        self.run_ppu_cycle();
        self.run_ppu_cycle();
        self.run_ppu_cycle();
    }

    /// One driver step, a machine cycle: a CPU step, four dots of the
    /// pixel unit, a step of the sprite-table transfer, a sound tick. The
    /// samples that the step completes are appended to `samples`. Tells
    /// whether the step ended a frame; fails exactly when the CPU ran into
    /// an unknown opcode.
    pub fn advance(&mut self, samples: &mut Vec<u16>) -> (result: Result<bool, UnknownOpcode>)
        requires
            old(self).wf(),
        ensures
            final(self).wf(),
            final(self)@ == driver_step(old(self)@),
            final(samples)@ == old(samples)@ + driver_sound(old(self)@),
            result == match step_fault(old(self)@) {
                Some(fault) => Err::<bool, UnknownOpcode>(fault),
                None => Ok::<bool, UnknownOpcode>(frame_ends(old(self)@, final(self)@)),
            },
    {
        reveal(driver_step);
        reveal(driver_sound);
        let previous_line = self.ppu.ly;
        match self.process_next_instruction() {
            Err(fault) => {
                assert(samples@ =~= old(samples)@ + driver_sound(old(self)@));
                return Err(fault);
            },
            Ok(_) => {},
        }
        self.run_four_dots();
        self.run_dma();
        match self.run_apu_cycle() {
            Some(buffer) => {
                let mut buffer = buffer;
                samples.append(&mut buffer);
            },
            None => {
                assert(samples@ =~= old(samples)@ + Seq::<u16>::empty());
            },
        }
        Ok(previous_line != self.ppu.ly && self.ppu.ly % 144 == 0)
    }

    /// Runs driver steps up to the end of a frame, at most `budget` of
    /// them, and appends the samples that they complete to `samples`.
    /// `Ok(true)`: a frame ended. `Ok(false)`: the budget is used up, as
    /// happens while the display is off. `Err`: the CPU ran into an unknown
    /// opcode.
    pub fn run_frame(&mut self, budget: u32, samples: &mut Vec<u16>) -> (result: Result<
        bool,
        UnknownOpcode,
    >)
        requires
            old(self).wf(),
        ensures
            final(self).wf(),
            final(self)@ == frame_run(old(self)@, budget as nat),
            final(samples)@ == old(samples)@ + frame_sound(old(self)@, budget as nat),
            result == frame_result(old(self)@, budget as nat),
    {
        let mut left = budget;
        while left > 0
            invariant
                self.wf(),
                frame_run(self@, left as nat) == frame_run(old(self)@, budget as nat),
                frame_result(self@, left as nat) == frame_result(old(self)@, budget as nat),
                samples@ + frame_sound(self@, left as nat) == old(samples)@ + frame_sound(
                    old(self)@,
                    budget as nat,
                ),
            decreases left,
        {
            let ghost before = self@;
            let ghost heard = samples@;
            let outcome = self.advance(samples);
            proof {
                assert(heard + (driver_sound(before) + frame_sound(
                    driver_step(before),
                    (left - 1) as nat,
                )) =~= (heard + driver_sound(before)) + frame_sound(
                    driver_step(before),
                    (left - 1) as nat,
                ));
            }
            match outcome {
                Err(fault) => {
                    return Err(fault);
                },
                Ok(done) => {
                    if done {
                        return Ok(true);
                    }
                },
            }
            left = left - 1;
        }
        assert(samples@ + Seq::<u16>::empty() =~= samples@);
        Ok(false)
    }
}

} // verus!
