//! The memory-mapped I/O registers and the side effects of accessing them.

use vstd::prelude::*;
use crate::apu::{pulse1_frequency, sweep_step};
use crate::cpu::bit_is_set;
use crate::ppu::test_bit;
use crate::machine::{ApuState, Banking, Channel, Dma, GameBoy, Machine, Timer};

verus! {

/// What the joypad register reads as: the select bits as written, and in the
/// low nibble the selected half of the button state (0 is pressed).
pub open spec fn joypad_read(select: u8, joypad_state: u8) -> u8 {
    let high = (select / 16) * 16;
    if (select / 16) % 2 == 0 {
        (high + joypad_state / 16) as u8
    } else if (select / 32) % 2 == 0 {
        (high + joypad_state % 16) as u8
    } else {
        (high + 15) as u8
    }
}

/// The value read from I/O register `reg` (0 to 0x7F): the joypad
/// register shows the selected buttons, and the sound registers 0x10 to
/// 0x25 read as zero while the sound unit is switched off.
#[verifier::opaque]
pub open spec fn read_io(m: Machine, reg: int) -> u8 {
    if reg == 0 {
        joypad_read(m.io[0], m.joypad_state)
    } else if 0x10 <= reg <= 0x25 && !bit_is_set(m.io[0x26], 7) {
        0
    } else {
        m.io[reg]
    }
}

/// What `handle_io_register_read` yields for `address`: the register's
/// value for an address of the I/O page, else the cell of the I/O bank
/// that the address's low seven bits select.
#[verifier::opaque]
pub open spec fn read_register(m: Machine, address: u16) -> u8 {
    if 0xFF00 <= address <= 0xFF7F {
        read_io(m, address - 0xFF00)
    } else {
        m.io[(address % 128) as int]
    }
}

/// The machine after `handle_io_register_write` wrote `value` at
/// `address`: the register's side effect for an address of the I/O page,
/// else a plain store to the cell that the address's low seven bits select.
#[verifier::opaque]
pub open spec fn write_register(m: Machine, address: u16, value: u8) -> Machine {
    if 0xFF00 <= address <= 0xFF7F {
        write_io(m, address - 0xFF00, value)
    } else {
        m.with_io((address % 128) as int, value)
    }
}

/// The length timer that a write of `value` to a length register loads.
pub open spec fn length_reload(value: u8) -> u8 {
    ((64 - value) % 64) as u8
}

/// The volume after a write of `value` to an envelope register.
pub open spec fn envelope_write(ch: Channel, value: u8) -> Channel {
    if ch.enabled && value % 16 == 8 {
        Channel { curr_volume: ((ch.curr_volume + 1) % 16) as u8, ..ch }
    } else {
        ch
    }
}

/// A channel after its trigger bit was written: enabled, its frequency
/// timer and envelope counter reset, an expired length timer reloaded with
/// `full_length`, volume and phase as given.
pub open spec fn triggered(ch: Channel, volume: u8, duty_step: u16, full_length: u8) -> Channel {
    Channel {
        enabled: true,
        freq_counter: 0,
        env_counter: 0,
        curr_volume: volume,
        duty_step,
        length_timer: if ch.length_timer == 0 {
            full_length
        } else {
            ch.length_timer
        },
        ..ch
    }
}

/// The machine after the first pulse channel is triggered.
pub open spec fn trigger_pulse1(m: Machine) -> Machine {
    sweep_step(
        Machine {
            apu: ApuState {
                pulse1: triggered(m.apu.pulse1, m.io[0x12] / 16, 0, 64),
                sweep_shadow_freq: pulse1_frequency(m.io) as u16,
                sweep_timer: 0,
                sweep_enable: (m.io[0x10] / 16) % 8 != 0 || m.io[0x10] % 8 != 0,
                ..m.apu
            },
            ..m
        },
    )
}

/// The machine after a length register (already stored) took `value`.
pub open spec fn write_length(m: Machine, reg: int, value: u8) -> Machine {
    if reg == 0x11 {
        Machine {
            apu: ApuState {
                pulse1: Channel { length_timer: length_reload(value), ..m.apu.pulse1 },
                ..m.apu
            },
            ..m
        }
    } else if reg == 0x16 {
        Machine {
            apu: ApuState {
                pulse2: Channel { length_timer: length_reload(value), ..m.apu.pulse2 },
                ..m.apu
            },
            ..m
        }
    } else if reg == 0x1B {
        Machine {
            apu: ApuState {
                wave: Channel { length_timer: (255 - value) as u8, ..m.apu.wave },
                ..m.apu
            },
            ..m
        }
    } else {
        Machine {
            apu: ApuState {
                noise: Channel { length_timer: length_reload(value), ..m.apu.noise },
                ..m.apu
            },
            ..m
        }
    }
}

/// The machine after an envelope register (already stored) took `value`.
pub open spec fn write_envelope(m: Machine, reg: int, value: u8) -> Machine {
    if reg == 0x12 {
        Machine { apu: ApuState { pulse1: envelope_write(m.apu.pulse1, value), ..m.apu }, ..m }
    } else if reg == 0x17 {
        Machine { apu: ApuState { pulse2: envelope_write(m.apu.pulse2, value), ..m.apu }, ..m }
    } else {
        Machine { apu: ApuState { noise: envelope_write(m.apu.noise, value), ..m.apu }, ..m }
    }
}

/// The machine after the channel whose control register is `reg` is triggered.
pub open spec fn trigger_channel(m: Machine, reg: int) -> Machine {
    if reg == 0x14 {
        trigger_pulse1(m)
    } else if reg == 0x19 {
        Machine {
            apu: ApuState {
                pulse2: triggered(m.apu.pulse2, m.io[0x17] / 16, 0, 64),
                ..m.apu
            },
            ..m
        }
    } else if reg == 0x1E {
        Machine {
            apu: ApuState {
                wave: triggered(m.apu.wave, m.apu.wave.curr_volume, 0, 255),
                ..m.apu
            },
            ..m
        }
    } else {
        Machine {
            apu: ApuState {
                noise: triggered(m.apu.noise, m.io[0x21] / 16, 0x7FFF, 64),
                ..m.apu
            },
            ..m
        }
    }
}

/// Whether `reg` is the length register of a channel.
pub open spec fn is_length_register(reg: int) -> bool {
    reg == 0x11 || reg == 0x16 || reg == 0x1B || reg == 0x20
}

/// Whether `reg` is the envelope register of a channel.
pub open spec fn is_envelope_register(reg: int) -> bool {
    reg == 0x12 || reg == 0x17 || reg == 0x21
}

/// Whether `reg` is the control register of a channel, which holds its trigger bit.
pub open spec fn is_trigger_register(reg: int) -> bool {
    reg == 0x14 || reg == 0x19 || reg == 0x1E || reg == 0x23
}

/// The machine after `value` is written to I/O register `reg` (0 to 0x7F).
#[verifier::opaque]
pub open spec fn write_io(m: Machine, reg: int, value: u8) -> Machine {
    let stored = m.with_io(reg, value);
    if reg == 0x00 {
        m.with_io(0, ((m.io[0] / 64) * 64 + ((value / 16) % 4) * 16 + m.io[0] % 16) as u8)
    } else if reg == 0x04 {
        Machine { timer: Timer { div: 0, ..m.timer }, ..m }
    } else if is_length_register(reg) {
        write_length(stored, reg, value)
    } else if is_envelope_register(reg) {
        write_envelope(stored, reg, value)
    } else if is_trigger_register(reg) {
        if value >= 0x80 {
            trigger_channel(stored, reg)
        } else {
            stored
        }
    } else if reg == 0x46 {
        Machine { dma: Dma { counter: 160, source: (value * 256) as u16 }, ..m }
    } else if reg == 0x50 {
        Machine { bank: Banking { boot_enabled: false, ..m.bank }, ..m }
    } else {
        stored
    }
}

/// A write to an I/O register keeps the machine well-formed.
pub proof fn lemma_write_io_keeps_wf(m: Machine, reg: int, value: u8)
    requires
        m.wf(),
        0 <= reg < 0x80,
    ensures
        write_io(m, reg, value).wf(),
        write_io(m, reg, value).cpu == m.cpu,
{
    reveal(write_io);
    let w = write_io(m, reg, value);
    assert(w.fifo == m.fifo);
    assert(w.ppu == m.ppu);
    assert(w.ppu_wf());
    assert(w.apu_wf());
    assert(w.memory_wf());
}

/// The I/O registers after reset.
pub open spec fn initial_io_state() -> Seq<u8> {
    seq![
        0xCF, 0x00, 0x7E, 0xFF, 0x00, 0x00, 0x00, 0xF8, 0xFF, 0xFF, 0xFF, 0xFF, 0xFF, 0xFF, 0xFF, 0xE1,
        0x80, 0x3F, 0x00, 0xFF, 0xBF, 0xFF, 0x3F, 0x00, 0xFF, 0xBF, 0x7F, 0xFF, 0x9F, 0xFF, 0xBF, 0xFF,
        0xFF, 0x00, 0x00, 0xBF, 0x00, 0xFF, 0x80, 0xFF, 0xFF, 0xFF, 0xFF, 0xFF, 0xFF, 0xFF, 0xFF, 0xFF,
        0x50, 0xBD, 0x02, 0xF9, 0x29, 0xF3, 0x48, 0x6E, 0x03, 0xB2, 0xDC, 0x37, 0x16, 0xF6, 0x9D, 0x9F,
        0x00, 0x84, 0x00, 0x00, 0x00, 0x00, 0xFF, 0xFC, 0xFF, 0xFF, 0x00, 0x00, 0xFF, 0xFF, 0xFF, 0xFF,
        0xFF, 0xFF, 0xFF, 0xFF, 0xFF, 0xFF, 0xFF, 0xFF, 0xFF, 0xFF, 0xFF, 0xFF, 0xFF, 0xFF, 0xFF, 0xFF,
        0xFF, 0xFF, 0xFF, 0xFF, 0xFF, 0xFF, 0xFF, 0xFF, 0xFF, 0xFF, 0xFF, 0xFF, 0xFF, 0xFF, 0xFF, 0xFF,
        0xFF, 0xFF, 0xFF, 0xFF, 0xFF, 0xFF, 0xFF, 0xFF, 0xFF, 0xFF, 0xFF, 0xFF, 0xFF, 0xFF, 0xFF, 0xFF,
    ]
}

/// The masks of the joypad register as arithmetic.
proof fn lemma_joypad_bits(select: u8, state: u8, nibble: u8)
    by (bit_vector)
    ensures
        ({
            &&& (select & 0xF0) == (select / 16) * 16
            &&& ((select & 0xF0) & 0x10 == 0) == ((select / 16) % 2 == 0)
            &&& ((select & 0xF0) & 0x20 == 0) == ((select / 32) % 2 == 0)
            &&& nibble < 16 ==> ((select & 0xF0) | nibble) == (select / 16) * 16 + nibble
            &&& (state >> 4) == state / 16
            &&& (state & 0x0F) == state % 16
            &&& ((nibble & 0x30) | (select & 0xCF)) == (select / 64) * 64 + ((nibble / 16) % 4) * 16
                + select % 16
        }),
{
}

impl GameBoy {
    /// Reads the I/O register at `address`.
    pub fn handle_io_register_read(&self, address: u16) -> (value: u8)
        requires
            self.wf(),
        ensures
            value == read_register(self@, address),
    {
        reveal(read_register);
        reveal(read_io);
        if address < 0xFF00 || address > 0xFF7F {
            return self.io[(address % 128) as usize];
        }
        let reg = (address - 0xFF00) as usize;
        if reg == 0 {
            let select = self.io[0] & 0xF0;
            proof {
                lemma_joypad_bits(self.io[0], self.joypad_state, (self.joypad_state >> 4));
                lemma_joypad_bits(self.io[0], self.joypad_state, (self.joypad_state & 0x0F));
                lemma_joypad_bits(self.io[0], self.joypad_state, 0x0F);
            }
            if select & 0x10 == 0 {
                select | (self.joypad_state >> 4)
            } else if select & 0x20 == 0 {
                select | (self.joypad_state & 0x0F)
            } else {
                select | 0x0F
            }
        } else if 0x10 <= reg && reg <= 0x25 && !test_bit(self.io[0x26], 7) {
            0
        } else {
            self.io[reg]
        }
    }

    /// Loads the length timer of the channel whose length register is `reg`.
    fn write_length_register(&mut self, reg: usize, value: u8)
        requires
            old(self).wf(),
            is_length_register(reg as int),
        ensures
            final(self).wf(),
            final(self)@ == write_length(old(self)@, reg as int, value),
    {
        if reg == 0x11 {
            self.apu.pulse1.length_timer = 64u8.wrapping_sub(value) % 64;
        } else if reg == 0x16 {
            self.apu.pulse2.length_timer = 64u8.wrapping_sub(value) % 64;
        } else if reg == 0x1B {
            self.apu.wave.length_timer = 255 - value;
        } else {
            self.apu.noise.length_timer = 64u8.wrapping_sub(value) % 64;
        }
    }

    /// Applies a write to the envelope register `reg`: writing 8 to the low
    /// nibble of a running channel steps its volume.
    fn write_envelope_register(&mut self, reg: usize, value: u8)
        requires
            old(self).wf(),
            is_envelope_register(reg as int),
        ensures
            final(self).wf(),
            final(self)@ == write_envelope(old(self)@, reg as int, value),
    {
        let step = value % 16 == 8;
        if reg == 0x12 {
            if self.apu.pulse1.enabled && step {
                self.apu.pulse1.curr_volume = (self.apu.pulse1.curr_volume + 1) % 16;
            }
        } else if reg == 0x17 {
            if self.apu.pulse2.enabled && step {
                self.apu.pulse2.curr_volume = (self.apu.pulse2.curr_volume + 1) % 16;
            }
        } else {
            if self.apu.noise.enabled && step {
                self.apu.noise.curr_volume = (self.apu.noise.curr_volume + 1) % 16;
            }
        }
    }

    /// Triggers the first pulse channel, sweep unit included.
    fn trigger_pulse1_channel(&mut self)
        requires
            old(self).wf(),
        ensures
            final(self).wf(),
            final(self)@ == trigger_pulse1(old(self)@),
    {
        self.apu.pulse1.enabled = true;
        self.apu.pulse1.freq_counter = 0;
        self.apu.pulse1.env_counter = 0;
        self.apu.pulse1.curr_volume = self.io[0x12] / 16;
        self.apu.pulse1.duty_step = 0;
        if self.apu.pulse1.length_timer == 0 {
            self.apu.pulse1.length_timer = 64;
        }
        self.apu.sweep_shadow_freq = self.io[0x13] as u16 + (self.io[0x14] % 8) as u16 * 256;
        self.apu.sweep_timer = 0;
        self.apu.sweep_enable = (self.io[0x10] / 16) % 8 != 0 || self.io[0x10] % 8 != 0;
        self.handle_sweep();
    }

    /// Triggers the channel whose control register is `reg`.
    fn trigger_sound_channel(&mut self, reg: usize)
        requires
            old(self).wf(),
            is_trigger_register(reg as int),
        ensures
            final(self).wf(),
            final(self)@ == trigger_channel(old(self)@, reg as int),
    {
        if reg == 0x14 {
            self.trigger_pulse1_channel();
        } else if reg == 0x19 {
            self.apu.pulse2.enabled = true;
            self.apu.pulse2.freq_counter = 0;
            self.apu.pulse2.env_counter = 0;
            self.apu.pulse2.curr_volume = self.io[0x17] / 16;
            self.apu.pulse2.duty_step = 0;
            if self.apu.pulse2.length_timer == 0 {
                self.apu.pulse2.length_timer = 64;
            }
        } else if reg == 0x1E {
            self.apu.wave.enabled = true;
            self.apu.wave.freq_counter = 0;
            self.apu.wave.env_counter = 0;
            self.apu.wave.duty_step = 0;
            if self.apu.wave.length_timer == 0 {
                self.apu.wave.length_timer = 255;
            }
        } else {
            self.apu.noise.enabled = true;
            self.apu.noise.freq_counter = 0;
            self.apu.noise.env_counter = 0;
            self.apu.noise.curr_volume = self.io[0x21] / 16;
            self.apu.noise.duty_step = 0x7FFF;
            if self.apu.noise.length_timer == 0 {
                self.apu.noise.length_timer = 64;
            }
        }
    }

    /// Writes `value` to the I/O register at `address` with the register's
    /// side effect. Every register is writable, so the result is always
    /// `true`.
    pub fn handle_io_register_write(&mut self, address: u16, value: u8) -> (handled: bool)
        requires
            old(self).wf(),
        ensures
            handled,
            final(self).wf(),
            final(self)@ == write_register(old(self)@, address, value),
    {
        reveal(write_register);
        if address < 0xFF00 || address > 0xFF7F {
            self.io.set((address % 128) as usize, value);
            return true;
        }
        let reg = (address - 0xFF00) as usize;
        reveal(write_io);
        if reg == 0x00 {
            proof {
                lemma_joypad_bits(self.io[0], 0, value);
            }
            let kept = self.io[0] & 0xCF;
            self.io.set(0, (value & 0x30) | kept);
        } else if reg == 0x04 {
            self.timer.div = 0;
        } else if reg == 0x11 || reg == 0x16 || reg == 0x1B || reg == 0x20 {
            self.io.set(reg, value);
            self.write_length_register(reg, value);
        } else if reg == 0x12 || reg == 0x17 || reg == 0x21 {
            self.io.set(reg, value);
            self.write_envelope_register(reg, value);
        } else if reg == 0x14 || reg == 0x19 || reg == 0x1E || reg == 0x23 {
            self.io.set(reg, value);
            if value >= 0x80 {
                self.trigger_sound_channel(reg);
            }
        } else if reg == 0x46 {
            self.dma.counter = 160;
            self.dma.source = (value as u16) * 256;
        } else if reg == 0x50 {
            self.bank.boot_enabled = false;
        } else {
            self.io.set(reg, value);
        }
        true
    }

    /// Loads the I/O registers with their values after reset.
    pub fn init_io_registers(&mut self)
        requires
            old(self).wf(),
        ensures
            final(self).wf(),
            final(self)@ == (Machine { io: initial_io_state(), ..old(self)@ }),
    {
        let initial: Vec<u8> = vec![
            0xCF, 0x00, 0x7E, 0xFF, 0x00, 0x00, 0x00, 0xF8, 0xFF, 0xFF, 0xFF, 0xFF, 0xFF, 0xFF, 0xFF, 0xE1,
            0x80, 0x3F, 0x00, 0xFF, 0xBF, 0xFF, 0x3F, 0x00, 0xFF, 0xBF, 0x7F, 0xFF, 0x9F, 0xFF, 0xBF, 0xFF,
            0xFF, 0x00, 0x00, 0xBF, 0x00, 0xFF, 0x80, 0xFF, 0xFF, 0xFF, 0xFF, 0xFF, 0xFF, 0xFF, 0xFF, 0xFF,
            0x50, 0xBD, 0x02, 0xF9, 0x29, 0xF3, 0x48, 0x6E, 0x03, 0xB2, 0xDC, 0x37, 0x16, 0xF6, 0x9D, 0x9F,
            0x00, 0x84, 0x00, 0x00, 0x00, 0x00, 0xFF, 0xFC, 0xFF, 0xFF, 0x00, 0x00, 0xFF, 0xFF, 0xFF, 0xFF,
            0xFF, 0xFF, 0xFF, 0xFF, 0xFF, 0xFF, 0xFF, 0xFF, 0xFF, 0xFF, 0xFF, 0xFF, 0xFF, 0xFF, 0xFF, 0xFF,
            0xFF, 0xFF, 0xFF, 0xFF, 0xFF, 0xFF, 0xFF, 0xFF, 0xFF, 0xFF, 0xFF, 0xFF, 0xFF, 0xFF, 0xFF, 0xFF,
            0xFF, 0xFF, 0xFF, 0xFF, 0xFF, 0xFF, 0xFF, 0xFF, 0xFF, 0xFF, 0xFF, 0xFF, 0xFF, 0xFF, 0xFF, 0xFF,
        ];
        assert(initial@ =~= initial_io_state());
        self.io = initial;
    }
}

} // verus!
