//! The interrupt controller and the timer.

use vstd::prelude::*;
use crate::branch::{after_jump, after_push, lemma_push_pop_round_trip, move_sp, stack_top};
use crate::cpu::Cpu;
use crate::machine::{wrap16, wrap32, wrap8, GameBoy, Machine, Timer};
use crate::memory::{after_store, lemma_ram_write_keeps_registers, lemma_write_keeps_wf};

verus! {

/// The five interrupt sources, in priority order.
#[derive(Clone, Copy, Debug, PartialEq, Eq)]
pub enum InterruptMasks {
    Vblank,
    Lcd,
    Timer,
    Serial,
    Joypad,
}

/// Clock ticks in a machine cycle.
pub const TICKS_PER_CYCLE: u16 = 4;

/// Index of the interrupt-request register among the I/O registers.
pub const IF_REG: usize = 0x0F;

impl InterruptMasks {
    /// The source's bit in the request and enable registers.
    pub open spec fn spec_mask(self) -> u8 {
        match self {
            InterruptMasks::Vblank => 0x01,
            InterruptMasks::Lcd => 0x02,
            InterruptMasks::Timer => 0x04,
            InterruptMasks::Serial => 0x08,
            InterruptMasks::Joypad => 0x10,
        }
    }

    /// The source's bit in the request and enable registers.
    #[verifier::when_used_as_spec(spec_mask)]
    pub fn mask(self) -> (m: u8)
        ensures
            m == self.spec_mask(),
    {
        match self {
            InterruptMasks::Vblank => 0x01,
            InterruptMasks::Lcd => 0x02,
            InterruptMasks::Timer => 0x04,
            InterruptMasks::Serial => 0x08,
            InterruptMasks::Joypad => 0x10,
        }
    }

    /// The address of the source's handler.
    pub open spec fn spec_vector(self) -> u16 {
        match self {
            InterruptMasks::Vblank => 0x0040,
            InterruptMasks::Lcd => 0x0048,
            InterruptMasks::Timer => 0x0050,
            InterruptMasks::Serial => 0x0058,
            InterruptMasks::Joypad => 0x0060,
        }
    }

    /// The address of the source's handler.
    #[verifier::when_used_as_spec(spec_vector)]
    pub fn vector(self) -> (v: u16)
        ensures
            v == self.spec_vector(),
    {
        match self {
            InterruptMasks::Vblank => 0x0040,
            InterruptMasks::Lcd => 0x0048,
            InterruptMasks::Timer => 0x0050,
            InterruptMasks::Serial => 0x0058,
            InterruptMasks::Joypad => 0x0060,
        }
    }
}

/// The requests that are both raised and enabled.
pub open spec fn pending_interrupts(m: Machine) -> u8 {
    m.io[IF_REG as int] & m.ie
}

/// The pending source of highest priority, if any of the five is pending.
pub open spec fn next_interrupt(pending: u8) -> Option<InterruptMasks> {
    if pending & 0x01 != 0 {
        Some(InterruptMasks::Vblank)
    } else if pending & 0x02 != 0 {
        Some(InterruptMasks::Lcd)
    } else if pending & 0x04 != 0 {
        Some(InterruptMasks::Timer)
    } else if pending & 0x08 != 0 {
        Some(InterruptMasks::Serial)
    } else if pending & 0x10 != 0 {
        Some(InterruptMasks::Joypad)
    } else {
        None
    }
}

/// The machine as the dispatch of `source` begins: the request taken back,
/// the master enable cleared, two wait cycles booked.
pub open spec fn acknowledge(m: Machine, source: InterruptMasks) -> Machine {
    Machine {
        io: m.io.update(IF_REG as int, m.io[IF_REG as int] & !source.spec_mask()),
        cpu: Cpu { ime: false, cycles_to_wait: wrap32(m.cpu.cycles_to_wait + 2), ..m.cpu },
        ..m
    }
}

/// The machine after the dispatch of `source`: acknowledged, the program
/// counter pushed, execution at the source's handler. Five machine cycles.
pub open spec fn dispatch(m: Machine, source: InterruptMasks) -> Machine {
    let m1 = acknowledge(m, source);
    after_jump(after_push(m1, m1.cpu.pc), source.spec_vector())
}

/// The machine with the CPU awake.
pub open spec fn awake(m: Machine) -> Machine {
    Machine { cpu: Cpu { halted: false, ..m.cpu }, ..m }
}

/// One run of the interrupt controller: a pending request wakes a halted
/// CPU whatever the master enable says; with the master enable set, the
/// pending source of highest priority is dispatched, and only that one.
#[verifier::opaque]
pub open spec fn interrupt_step(m: Machine) -> Machine {
    let pending = pending_interrupts(m);
    let m1 = if pending != 0 {
        awake(m)
    } else {
        m
    };
    if !m.cpu.ime {
        m1
    } else {
        match next_interrupt(pending) {
            Some(source) => dispatch(m1, source),
            None => m1,
        }
    }
}

/// The divider bit whose falling edge clocks the counter, for rate `select`.
pub open spec fn divider_bit(div: u16, select: u8) -> bool {
    if select % 4 == 0 {
        (div / 512) % 2 == 1
    } else if select % 4 == 1 {
        (div / 8) % 2 == 1
    } else if select % 4 == 2 {
        (div / 32) % 2 == 1
    } else {
        (div / 128) % 2 == 1
    }
}

/// Whether the timer is switched on in control byte `tac`.
pub open spec fn timer_enabled(tac: u8) -> bool {
    (tac / 4) % 2 == 1
}

/// The machine after a reload that was pending: the request raised, the
/// counter loaded from the modulo register.
pub open spec fn resolve_overflow(m: Machine) -> Machine {
    if m.timer.overflow {
        Machine {
            io: m.io.update(IF_REG as int, m.io[IF_REG as int] | 0x04).update(0x05, m.io[0x06]),
            timer: Timer { overflow: false, ..m.timer },
            ..m
        }
    } else {
        m
    }
}

/// The machine after the counter was clocked once.
pub open spec fn count_up(m: Machine) -> Machine {
    Machine {
        io: m.io.update(0x05, wrap8(m.io[0x05] + 1)),
        timer: Timer { overflow: m.io[0x05] == 0xFF, ..m.timer },
        ..m
    }
}

/// One step of the timer, a machine cycle: the divider advances by four
/// clock ticks and shows its high byte; with the timer on, a pending overflow is resolved, and a
/// falling edge of the selected divider bit clocks the counter.
pub open spec fn timer_step(m: Machine) -> Machine {
    let div = wrap16(m.timer.div + TICKS_PER_CYCLE);
    let m1 = Machine {
        io: m.io.update(0x04, (div / 256) as u8),
        timer: Timer { div, ..m.timer },
        ..m
    };
    if !timer_enabled(m.io[0x07]) {
        m1
    } else {
        let m2 = resolve_overflow(m1);
        if divider_bit(m.timer.div, m.io[0x07]) && !divider_bit(div, m.io[0x07]) {
            count_up(m2)
        } else {
            m2
        }
    }
}

/// Whether the `depth` bytes below the stack pointer all lie in work RAM
/// or in high RAM, so that pushing them touches no register.
pub open spec fn stack_clear_of_registers(m: Machine, depth: int) -> bool {
    (0xC000 + depth <= m.cpu.sp <= 0xFE00) || (0xFF80 + depth <= m.cpu.sp <= 0xFFFF)
}

/// The machine with the master enable set again, as a handler's return does.
pub open spec fn reenabled(m: Machine) -> Machine {
    Machine { cpu: Cpu { ime: true, ..m.cpu }, ..m }
}

/// Taking back one request leaves the other requests as they are.
proof fn lemma_request_bits(requests: u8, enable: u8)
    by (bit_vector)
    ensures
        ({
            &&& ((requests & !0x01u8) & enable) == (requests & enable) & !0x01u8
            &&& ((requests & !0x04u8) & enable) == (requests & enable) & !0x04u8
            &&& ((requests & enable) & !0x01u8) & 0x01 == 0
            &&& ((requests & enable) & !0x01u8) & 0x02 == (requests & enable) & 0x02
            &&& ((requests & enable) & !0x01u8) & 0x04 == (requests & enable) & 0x04
            &&& (((requests & enable) & !0x01u8) & !0x04u8) & 0x04 == 0
            &&& ((requests & enable) & 0x01 != 0) ==> (requests & enable) != 0
            &&& ((requests & enable) & 0x04 != 0) ==> ((requests & enable) & !0x01u8) != 0
        }),
{
}

/// A push into work RAM or high RAM changes neither the interrupt
/// registers nor any CPU register but the stack pointer and the cycle count.
proof fn lemma_push_keeps_requests(m: Machine, value: u16)
    requires
        m.wf(),
        stack_clear_of_registers(m, 2),
    ensures
        after_push(m, value).io == m.io,
        after_push(m, value).ie == m.ie,
        after_push(m, value).wf(),
        after_push(m, value).cpu == (Cpu {
            sp: wrap16(m.cpu.sp - 2),
            cycles_to_wait: wrap32(wrap32(m.cpu.cycles_to_wait + 1) + 1),
            ..m.cpu
        }),
{
    let high = (value / 256) as u8;
    let low = (value % 256) as u8;
    let m1 = move_sp(m, -1);
    lemma_ram_write_keeps_registers(m1, m1.cpu.sp, high);
    lemma_write_keeps_wf(m1, m1.cpu.sp, high);
    let m2 = after_store(m1, m1.cpu.sp, high);
    let m3 = move_sp(m2, -1);
    lemma_ram_write_keeps_registers(m3, m3.cpu.sp, low);
    lemma_write_keeps_wf(m3, m3.cpu.sp, low);
}

/// With the vertical-blank and the timer request both pending (and no
/// display-status request between them), the controller dispatches the
/// vertical-blank handler first and takes back only that request; run
/// again with the master enable set once more, it dispatches the timer
/// handler.
pub proof fn lemma_interrupt_priority(m: Machine)
    requires
        m.wf(),
        m.cpu.ime,
        pending_interrupts(m) & 0x01 != 0,
        pending_interrupts(m) & 0x02 == 0,
        pending_interrupts(m) & 0x04 != 0,
        stack_clear_of_registers(m, 4),
    ensures
        ({
            let first = interrupt_step(m);
            let second = interrupt_step(reenabled(first));
            &&& first.cpu.pc == 0x0040
            &&& !first.cpu.ime
            &&& pending_interrupts(first) == pending_interrupts(m) & !0x01u8
            &&& stack_top_is(first, m.cpu.pc)
            &&& second.cpu.pc == 0x0050
            &&& !second.cpu.ime
            &&& pending_interrupts(second) == (pending_interrupts(m) & !0x01u8) & !0x04u8
        }),
{
    reveal(interrupt_step);
    lemma_request_bits(m.io[IF_REG as int], m.ie);
    let a1 = acknowledge(awake(m), InterruptMasks::Vblank);
    lemma_push_keeps_requests(a1, a1.cpu.pc);
    let first = interrupt_step(m);
    assert(first == dispatch(awake(m), InterruptMasks::Vblank));
    lemma_push_pop_round_trip(a1, a1.cpu.pc);
    let r = reenabled(first);
    lemma_request_bits(r.io[IF_REG as int], r.ie);
    assert(pending_interrupts(r) == pending_interrupts(m) & !0x01u8);
    let a2 = acknowledge(awake(r), InterruptMasks::Timer);
    lemma_push_keeps_requests(a2, a2.cpu.pc);
    assert(interrupt_step(r) == dispatch(awake(r), InterruptMasks::Timer));
}

/// Whether the 16-bit value on top of the stack is `value`.
pub open spec fn stack_top_is(m: Machine, value: u16) -> bool {
    stack_top(m) == value
}

/// The machine after `n` steps of the timer.
pub open spec fn timer_run(m: Machine, n: nat) -> Machine
    decreases n,
{
    if n == 0 {
        m
    } else {
        timer_step(timer_run(m, (n - 1) as nat))
    }
}

/// Whether the timer was just started at the rate of one count in 256
/// divider ticks: switched on with rate 3, divider and counter at zero,
/// modulo zero, no overflow pending and no timer request raised.
pub open spec fn timer_started(m: Machine) -> bool {
    &&& m.io.len() == 0x80
    &&& timer_enabled(m.io[0x07])
    &&& m.io[0x07] % 4 == 3
    &&& m.io[0x06] == 0
    &&& m.io[0x05] == 0
    &&& m.timer.div == 0
    &&& !m.timer.overflow
    &&& m.io[IF_REG as int] & 0x04 == 0
}

/// Steps of the timer for one count at rate 3: 256 divider ticks, four a step.
pub const STEPS_PER_COUNT: u32 = 64;

/// Steps of the timer for 256 counts at rate 3.
pub const STEPS_TO_OVERFLOW: u32 = 16384;

/// Through its first 256 counts a timer started at rate 3 counts once in
/// 64 steps and raises no request; the overflow is pending exactly after
/// the 256th count.
pub proof fn lemma_timer_counts(m: Machine, n: nat)
    requires
        timer_started(m),
        n <= STEPS_TO_OVERFLOW,
    ensures
        ({
            let r = timer_run(m, n);
            &&& r.io.len() == 0x80
            &&& r.timer.div == (4 * n) % 0x10000
            &&& r.io[0x05] == (n / (STEPS_PER_COUNT as nat)) % 256
            &&& r.io[0x06] == 0
            &&& r.io[0x07] == m.io[0x07]
            &&& r.io[IF_REG as int] == m.io[IF_REG as int]
            &&& r.timer.overflow == (n == STEPS_TO_OVERFLOW)
        }),
    decreases n,
{
    if n > 0 {
        lemma_timer_counts(m, (n - 1) as nat);
        let p = timer_run(m, (n - 1) as nat);
        let div = wrap16(p.timer.div + 4);
        assert(p.timer.div == 4 * (n - 1));
        assert(div == 4 * n || (n == 16384 && div == 0));
        assert(divider_bit(p.timer.div, p.io[0x07]) == ((p.timer.div / 128) % 2 == 1));
        assert(divider_bit(div, p.io[0x07]) == ((div / 128) % 2 == 1));
        assert((divider_bit(p.timer.div, p.io[0x07]) && !divider_bit(div, p.io[0x07])) == (n % 64
            == 0));
    }
}

/// With rate 3 and modulo zero, the 256 counts after the timer's start
/// produce exactly one overflow and one timer request: no request is
/// raised through the step of the 256th count, and the step after it
/// raises the request and reloads the counter with zero.
pub proof fn lemma_timer_overflow_after_256_counts(m: Machine)
    requires
        timer_started(m),
    ensures
        forall|n: nat|
            n <= STEPS_TO_OVERFLOW ==> (#[trigger] timer_run(m, n)).io[IF_REG as int]
                == m.io[IF_REG as int],
        timer_run(m, STEPS_TO_OVERFLOW as nat).timer.overflow,
        timer_run(m, (STEPS_TO_OVERFLOW + 1) as nat).io[IF_REG as int] == m.io[IF_REG as int]
            | 0x04,
        timer_run(m, (STEPS_TO_OVERFLOW + 1) as nat).io[0x05] == 0,
        !timer_run(m, (STEPS_TO_OVERFLOW + 1) as nat).timer.overflow,
{
    assert forall|n: nat| n <= STEPS_TO_OVERFLOW implies (#[trigger] timer_run(m, n)).io[IF_REG as int]
        == m.io[IF_REG as int] by {
        lemma_timer_counts(m, n);
    }
    lemma_timer_counts(m, STEPS_TO_OVERFLOW as nat);
    let p = timer_run(m, STEPS_TO_OVERFLOW as nat);
    assert(timer_run(m, (STEPS_TO_OVERFLOW + 1) as nat) == timer_step(p));
    assert(p.timer.div == 0);
    assert(!divider_bit(p.timer.div, p.io[0x07]));
}

/// Tests the divider bit that rate `select` names.
fn test_divider_bit(div: u16, select: u8) -> (b: bool)
    ensures
        b == divider_bit(div, select),
{
    let rate = select % 4;
    if rate == 0 {
        (div / 512) % 2 == 1
    } else if rate == 1 {
        (div / 8) % 2 == 1
    } else if rate == 2 {
        (div / 32) % 2 == 1
    } else {
        (div / 128) % 2 == 1
    }
}

impl GameBoy {
    /// Takes the request of `source`, pushes the program counter and jumps
    /// to the source's handler.
    fn dispatch_interrupt(&mut self, source: InterruptMasks)
        requires
            old(self).wf(),
        ensures
            final(self).wf(),
            final(self)@ == dispatch(old(self)@, source),
    {
        let requests = self.io[IF_REG];
        self.io.set(IF_REG, requests & !source.mask());
        self.cpu.ime = false;
        self.cpu.cycles_to_wait = self.cpu.cycles_to_wait.wrapping_add(2);
        self.push_stack(self.cpu.pc);
        self.jump_absolute(source.vector());
    }

    /// Runs the interrupt controller once, before an instruction is fetched.
    pub fn handle_interrupts(&mut self)
        requires
            old(self).wf(),
        ensures
            final(self).wf(),
            final(self)@ == interrupt_step(old(self)@),
    {
        reveal(interrupt_step);
        let pending = self.io[IF_REG] & self.ie;
        if pending != 0 {
            self.cpu.halted = false;
        }
        if !self.cpu.ime {
            return ;
        }
        if pending & 0x01 != 0 {
            self.dispatch_interrupt(InterruptMasks::Vblank);
        } else if pending & 0x02 != 0 {
            self.dispatch_interrupt(InterruptMasks::Lcd);
        } else if pending & 0x04 != 0 {
            self.dispatch_interrupt(InterruptMasks::Timer);
        } else if pending & 0x08 != 0 {
            self.dispatch_interrupt(InterruptMasks::Serial);
        } else if pending & 0x10 != 0 {
            self.dispatch_interrupt(InterruptMasks::Joypad);
        }
    }

    /// Advances the divider and the timer by one step.
    pub fn handle_timer(&mut self)
        requires
            old(self).wf(),
        ensures
            final(self).wf(),
            final(self)@ == timer_step(old(self)@),
    {
        let previous = self.timer.div;
        self.timer.div = self.timer.div.wrapping_add(TICKS_PER_CYCLE);
        self.io.set(0x04, (self.timer.div / 256) as u8);
        let control = self.io[0x07];
        if (control / 4) % 2 == 0 {
            return ;
        }
        if self.timer.overflow {
            let requests = self.io[IF_REG];
            self.io.set(IF_REG, requests | 0x04);
            let modulo = self.io[0x06];
            self.io.set(0x05, modulo);
            self.timer.overflow = false;
        }
        if test_divider_bit(previous, control) && !test_divider_bit(self.timer.div, control) {
            let counter = self.io[0x05];
            self.io.set(0x05, counter.wrapping_add(1));
            self.timer.overflow = counter == 0xFF;
        }
    }
}

} // verus!
