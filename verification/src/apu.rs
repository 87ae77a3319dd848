//! The sound unit: four channel generators driven by a 512 Hz sequencer.

use vstd::prelude::*;
use crate::cpu::bit_is_set;
use crate::machine::{wrap32, wrap8, ApuState, Channel, GameBoy, Machine, APU_BUFFER_SIZE};
use crate::ppu::test_bit;

verus! {

/// The 11-bit frequency of the first pulse channel, from its two registers.
pub open spec fn pulse1_frequency(io: Seq<u8>) -> int {
    io[0x13] + (io[0x14] % 8) * 256
}

/// The sweep period, in sweep ticks; zero switches the sweep off.
pub open spec fn sweep_period(io: Seq<u8>) -> u8 {
    (io[0x10] / 16) % 8
}

/// The sweep's shift amount.
pub open spec fn sweep_shift(io: Seq<u8>) -> u8 {
    io[0x10] % 8
}

/// Whether the sweep lowers the frequency.
pub open spec fn sweep_negate(io: Seq<u8>) -> bool {
    (io[0x10] / 8) % 2 == 1
}

/// The frequency that a sweep step moves to from `shadow` (below 2048).
pub open spec fn sweep_target(shadow: u16, shift: u8, negate: bool) -> int {
    if negate {
        shadow - (shadow >> shift)
    } else {
        shadow + (shadow >> shift)
    }
}

/// One call of the sweep unit: it acts on sequencer phases 2 and 6 when the
/// period is not zero, counts up to the period, and then moves the frequency.
pub open spec fn sweep_step(m: Machine) -> Machine {
    let phase = m.apu.clock % 8;
    if phase != 2 && phase != 6 {
        m
    } else if sweep_period(m.io) == 0 {
        m
    } else {
        let timer = wrap8(m.apu.sweep_timer + 1);
        if timer < sweep_period(m.io) || sweep_shift(m.io) == 0 || !m.apu.sweep_enable {
            Machine { apu: ApuState { sweep_timer: timer, ..m.apu }, ..m }
        } else {
            let shadow = (m.apu.sweep_shadow_freq % 2048) as u16;
            let target = sweep_target(shadow, sweep_shift(m.io), sweep_negate(m.io));
            if target > 2047 {
                Machine {
                    apu: ApuState {
                        sweep_timer: 0,
                        pulse1: Channel { enabled: false, ..m.apu.pulse1 },
                        ..m.apu
                    },
                    ..m
                }
            } else {
                Machine {
                    io: m.io.update(0x13, (target % 256) as u8).update(
                        0x14,
                        ((m.io[0x14] / 8) * 8 + target / 256) as u8,
                    ),
                    apu: ApuState { sweep_timer: 0, sweep_shadow_freq: target as u16, ..m.apu },
                    ..m
                }
            }
        }
    }
}

/// Whether the duty pattern `duty` (0 to 3) is high at step `step` (0 to 7).
pub open spec fn duty_high(duty: u8, step: u16) -> bool {
    if duty == 0 {
        step == 7
    } else if duty == 1 {
        step == 0 || step == 7
    } else if duty == 2 {
        step == 0 || step >= 5
    } else {
        1 <= step <= 6
    }
}

/// The period value in two frequency registers: 2047 less the 11-bit frequency.
pub open spec fn period_value(low: u8, high: u8) -> int {
    2047 - (low + (high % 8) * 256)
}

/// A channel after one tick of its frequency timer with reload value
/// `period`: the timer counts up to the period, then restarts and the
/// phase moves one step on, modulo `steps`.
pub open spec fn advance_phase(ch: Channel, period: int, steps: int) -> Channel {
    if ch.freq_counter < period {
        Channel { freq_counter: (ch.freq_counter + 1) as u32, ..ch }
    } else {
        Channel { freq_counter: 0, duty_step: ((ch.duty_step + 1) % steps) as u16, ..ch }
    }
}

/// A pulse channel after one sound tick. `routed` tells whether the
/// channel goes to either output; `low`, `high` are its frequency
/// registers, `duty` its duty register.
pub open spec fn pulse_tick(ch: Channel, routed: bool, low: u8, high: u8, duty: u8) -> Channel {
    if !routed {
        Channel { output: 0, ..ch }
    } else {
        let moved = advance_phase(ch, period_value(low, high) * 2, 8);
        Channel {
            output: if ch.enabled && duty_high(duty / 64, moved.duty_step) {
                (ch.curr_volume * 8) as u8
            } else {
                0
            },
            ..moved
        }
    }
}

/// The factor for the wave channel's output level code: mute, full, half, quarter.
pub open spec fn wave_gain(level: u8) -> u8 {
    let code = (level / 32) % 4;
    if code == 0 {
        0
    } else if code == 1 {
        8
    } else if code == 2 {
        4
    } else {
        2
    }
}

/// The 4-bit sample at position `step` (0 to 31) of the waveform in the
/// I/O registers 0x30 to 0x3F: the high nibble of a byte comes first.
pub open spec fn wave_sample(io: Seq<u8>, step: u16) -> u8 {
    let byte = io[0x30 + step / 2];
    if step % 2 == 0 {
        byte / 16
    } else {
        byte % 16
    }
}

/// The wave channel after one sound tick.
pub open spec fn wave_tick(ch: Channel, routed: bool, io: Seq<u8>) -> Channel {
    if !routed || io[0x1A] == 0 {
        Channel { output: 0, ..ch }
    } else {
        let moved = advance_phase(ch, period_value(io[0x1D], io[0x1E]), 32);
        Channel {
            output: if ch.enabled {
                ((15 - wave_sample(io, moved.duty_step)) * wave_gain(io[0x1C])) as u8
            } else {
                0
            },
            ..moved
        }
    }
}

/// The divisor for the noise channel's divisor code.
pub open spec fn noise_divisor(control: u8) -> int {
    if control % 8 == 0 {
        8
    } else {
        (control % 8) * 16
    }
}

/// The noise channel's period: its divisor shifted left by the clock
/// shift, halved.
pub open spec fn noise_period(control: u8) -> u32 {
    ((noise_divisor(control) as u32) << ((control / 16) as u32)) / 2
}

/// The shift register after one step: the exclusive or of its two lowest
/// bits enters at bit 14, and at bit 6 too in the short mode.
pub open spec fn lfsr_step(lfsr: u16, short_mode: bool) -> u16 {
    let feedback = (lfsr & 1) ^ ((lfsr >> 1) & 1);
    let shifted = (lfsr >> 1) | (feedback << 14);
    if short_mode {
        (shifted & !(1u16 << 6)) | (feedback << 6)
    } else {
        shifted
    }
}

/// The noise channel after one sound tick with control register `control`.
pub open spec fn noise_tick(ch: Channel, routed: bool, control: u8) -> Channel {
    if !routed {
        Channel { output: 0, ..ch }
    } else {
        let moved = if ch.freq_counter < noise_period(control) {
            Channel { freq_counter: (ch.freq_counter + 1) as u32, ..ch }
        } else {
            Channel {
                freq_counter: 0,
                duty_step: lfsr_step(ch.duty_step, bit_is_set(control, 3)),
                ..ch
            }
        };
        Channel {
            output: if ch.enabled && moved.duty_step & 1 == 0 {
                (ch.curr_volume * 8) as u8
            } else {
                0
            },
            ..moved
        }
    }
}

/// A channel after the length step of the sequencer: on even phases, with
/// the length enabled, a running timer counts down and stops the channel
/// at zero.
pub open spec fn length_step(ch: Channel, phase: int, length_enabled: bool) -> Channel {
    if phase % 2 == 0 && length_enabled && ch.length_timer > 0 {
        Channel {
            length_timer: (ch.length_timer - 1) as u8,
            enabled: ch.enabled && ch.length_timer != 1,
            ..ch
        }
    } else {
        ch
    }
}

/// A channel after the envelope step of the sequencer with envelope
/// register `envelope`: on phase 7 the envelope counter counts up; when it
/// meets a period that is not zero, it restarts and the volume moves by
/// one in the register's direction, within 0 to 15.
pub open spec fn envelope_step(ch: Channel, phase: int, envelope: u8) -> Channel {
    if phase != 7 {
        ch
    } else {
        let counter = wrap8(ch.env_counter + 1);
        if counter == envelope % 8 && envelope % 8 != 0 {
            Channel {
                env_counter: 0,
                curr_volume: if (envelope / 8) % 2 == 0 {
                    if ch.curr_volume == 0 {
                        0
                    } else {
                        (ch.curr_volume - 1) as u8
                    }
                } else {
                    if ch.curr_volume >= 15 {
                        15
                    } else {
                        (ch.curr_volume + 1) as u8
                    }
                },
                ..ch
            }
        } else {
            Channel { env_counter: counter, ..ch }
        }
    }
}

/// Whether the length timer is enabled in a channel's control register.
pub open spec fn length_enabled(control: u8) -> bool {
    (control / 64) % 2 == 1
}

/// The machine after one step of the 512 Hz sequencer: the clock counts
/// on, and each channel's length, envelope and sweep units run.
pub open spec fn sequencer_step(m: Machine) -> Machine {
    let clock = wrap32(m.apu.clock + 1);
    let phase = clock % 8;
    let io = m.io;
    sweep_step(
        Machine {
            apu: ApuState {
                clock_timer: 0,
                clock,
                pulse1: envelope_step(
                    length_step(m.apu.pulse1, phase as int, length_enabled(io[0x14])),
                    phase as int,
                    io[0x12],
                ),
                pulse2: envelope_step(
                    length_step(m.apu.pulse2, phase as int, length_enabled(io[0x19])),
                    phase as int,
                    io[0x17],
                ),
                wave: length_step(m.apu.wave, phase as int, length_enabled(io[0x1E])),
                noise: envelope_step(
                    length_step(m.apu.noise, phase as int, length_enabled(io[0x23])),
                    phase as int,
                    io[0x21],
                ),
                ..m.apu
            },
            ..m
        },
    )
}

/// The machine after the tick of the sequencer's prescaler: every 4096
/// sound ticks the sequencer steps.
pub open spec fn prescaler_tick(m: Machine) -> Machine {
    if m.apu.clock_timer + 1 == 4096 {
        sequencer_step(m)
    } else {
        Machine { apu: ApuState { clock_timer: (m.apu.clock_timer + 1) as u32, ..m.apu }, ..m }
    }
}

/// Index in the buffer of the left sample under accumulation; the right
/// one follows it.
pub open spec fn sample_slot(m: Machine) -> int {
    2 * (m.apu.buffer_write_index as int / 64)
}

/// The machine as a sample's accumulation begins: every 64 sound ticks
/// the next stereo sample starts from zero.
pub open spec fn begin_sample(m: Machine) -> Machine {
    if m.apu.buffer_write_index % 64 == 0 {
        Machine {
            apu_buffer: m.apu_buffer.update(sample_slot(m), 0).update(sample_slot(m) + 1, 0),
            ..m
        }
    } else {
        m
    }
}

/// What a channel at level `output` adds to a sample at master volume
/// `volume` (0 to 7).
pub open spec fn contribution(output: u8, volume: u8) -> int {
    (output * (16 * volume)) / 64
}

/// Whether channel `channel` (0 to 3) goes to the left output.
pub open spec fn routed_left(io: Seq<u8>, channel: u8) -> bool {
    bit_is_set(io[0x25], (channel + 4) as u8)
}

/// Whether channel `channel` (0 to 3) goes to the right output.
pub open spec fn routed_right(io: Seq<u8>, channel: u8) -> bool {
    bit_is_set(io[0x25], channel)
}

/// The machine after channel `channel` at level `output` was added to the
/// sample under accumulation, on each side that it is routed to.
pub open spec fn mix_channel(m: Machine, output: u8, channel: u8) -> Machine {
    let slot = sample_slot(m);
    let left = if routed_left(m.io, channel) {
        m.apu_buffer[slot] + contribution(output, (m.io[0x24] / 16) % 8)
    } else {
        m.apu_buffer[slot] as int
    };
    let right = if routed_right(m.io, channel) {
        m.apu_buffer[slot + 1] + contribution(output, m.io[0x24] % 8)
    } else {
        m.apu_buffer[slot + 1] as int
    };
    Machine { apu_buffer: m.apu_buffer.update(slot, left as u16).update(slot + 1, right as u16), ..m }
}

/// Whether channel `channel` goes to either output.
pub open spec fn routed(io: Seq<u8>, channel: u8) -> bool {
    routed_left(io, channel) || routed_right(io, channel)
}

/// The machine after the first pulse channel's sound tick.
pub open spec fn channel_1_tick(m: Machine) -> Machine {
    let ch = pulse_tick(m.apu.pulse1, routed(m.io, 0), m.io[0x13], m.io[0x14], m.io[0x11]);
    mix_channel(Machine { apu: ApuState { pulse1: ch, ..m.apu }, ..m }, ch.output, 0)
}

/// The machine after the second pulse channel's sound tick.
pub open spec fn channel_2_tick(m: Machine) -> Machine {
    let ch = pulse_tick(m.apu.pulse2, routed(m.io, 1), m.io[0x18], m.io[0x19], m.io[0x16]);
    mix_channel(Machine { apu: ApuState { pulse2: ch, ..m.apu }, ..m }, ch.output, 1)
}

/// The machine after the wave channel's sound tick.
pub open spec fn channel_3_tick(m: Machine) -> Machine {
    let ch = wave_tick(m.apu.wave, routed(m.io, 2), m.io);
    mix_channel(Machine { apu: ApuState { wave: ch, ..m.apu }, ..m }, ch.output, 2)
}

/// The machine after the noise channel's sound tick.
pub open spec fn channel_4_tick(m: Machine) -> Machine {
    let ch = noise_tick(m.apu.noise, routed(m.io, 3), m.io[0x22]);
    mix_channel(Machine { apu: ApuState { noise: ch, ..m.apu }, ..m }, ch.output, 3)
}

/// The machine as a sound tick ends: the write position moves on, and
/// restarts when the buffer is full.
pub open spec fn end_sample(m: Machine) -> Machine {
    Machine {
        apu: ApuState {
            buffer_write_index: if m.apu.buffer_write_index + 1 == 16384 {
                0
            } else {
                (m.apu.buffer_write_index + 1) as usize
            },
            ..m.apu
        },
        ..m
    }
}

/// Whether the sound unit is switched on.
pub open spec fn sound_enabled(m: Machine) -> bool {
    bit_is_set(m.io[0x26], 7)
}

/// The I/O registers with the sound registers 0x10 to 0x25 cleared.
pub open spec fn silenced(io: Seq<u8>) -> Seq<u8> {
    Seq::new(
        io.len(),
        |i: int|
            if 0x10 <= i <= 0x25 {
                0u8
            } else {
                io[i]
            },
    )
}

/// The machine after the four channels' sound ticks, before the write
/// position moves on.
pub open spec fn channels_tick(m: Machine) -> Machine {
    channel_4_tick(channel_3_tick(channel_2_tick(channel_1_tick(begin_sample(prescaler_tick(m))))))
}

/// One sound tick. With the unit switched off, its registers are cleared
/// and nothing advances.
pub open spec fn apu_cycle(m: Machine) -> Machine {
    if !sound_enabled(m) {
        Machine { io: silenced(m.io), ..m }
    } else {
        end_sample(channels_tick(m))
    }
}

/// The buffer that a sound tick completes, if it completes one.
pub open spec fn apu_output(m: Machine) -> Option<Seq<u16>> {
    if sound_enabled(m) && m.apu.buffer_write_index + 1 == 16384 {
        Some(channels_tick(m).apu_buffer)
    } else {
        None
    }
}

/// Whether the sample under accumulation has room for the channels from
/// `channel` on: each adds at most 210 on a side per sound tick.
pub open spec fn sample_room(m: Machine, channel: int) -> bool {
    let filled = 840 * (m.apu.buffer_write_index % 64) + 210 * channel;
    m.apu_buffer[sample_slot(m)] <= filled && m.apu_buffer[sample_slot(m) + 1] <= filled
}

/// A right shift does not enlarge a number.
proof fn lemma_shift_right_bound(f: u16, s: u8)
    by (bit_vector)
    ensures
        (f >> s) <= f,
{
}

impl Channel {
    /// One tick of the frequency timer.
    pub fn advance(&mut self, period: u32, steps: u16)
        requires
            steps == 8 || steps == 32,
            old(self).duty_step < steps,
        ensures
            *final(self) == advance_phase(*old(self), period as int, steps as int),
            final(self).duty_step < steps,
    {
        if self.freq_counter < period {
            self.freq_counter = self.freq_counter + 1;
        } else {
            self.freq_counter = 0;
            self.duty_step = (self.duty_step + 1) % steps;
        }
    }

    /// One sound tick of a pulse channel.
    pub fn tick_pulse(&mut self, routed: bool, low: u8, high: u8, duty: u8)
        requires
            old(self).wf(),
            old(self).duty_step < 8,
        ensures
            final(self).wf(),
            final(self).duty_step < 8,
            *final(self) == pulse_tick(*old(self), routed, low, high, duty),
    {
        if !routed {
            self.output = 0;
            return ;
        }
        let period = 2047 - (low as u32 + ((high % 8) as u32) * 256);
        self.advance(period * 2, 8);
        let pattern = duty / 64;
        let step = self.duty_step;
        let high_now = if pattern == 0 {
            step == 7
        } else if pattern == 1 {
            step == 0 || step == 7
        } else if pattern == 2 {
            step == 0 || step >= 5
        } else {
            1 <= step && step <= 6
        };
        self.output = if self.enabled && high_now {
            self.curr_volume * 8
        } else {
            0
        };
    }

    /// One sound tick of the noise channel.
    pub fn tick_noise(&mut self, routed: bool, control: u8)
        requires
            old(self).wf(),
        ensures
            final(self).wf(),
            *final(self) == noise_tick(*old(self), routed, control),
    {
        if !routed {
            self.output = 0;
            return ;
        }
        let code = control % 8;
        let divisor: u32 = if code == 0 {
            8
        } else {
            (code as u32) * 16
        };
        let period = (divisor << ((control / 16) as u32)) / 2;
        if self.freq_counter < period {
            self.freq_counter = self.freq_counter + 1;
        } else {
            self.freq_counter = 0;
            let lfsr = self.duty_step;
            let feedback = (lfsr & 1) ^ ((lfsr >> 1) & 1);
            let shifted = (lfsr >> 1) | (feedback << 14);
            self.duty_step = if test_bit(control, 3) {
                (shifted & !(1u16 << 6)) | (feedback << 6)
            } else {
                shifted
            };
        }
        self.output = if self.enabled && self.duty_step & 1 == 0 {
            self.curr_volume * 8
        } else {
            0
        };
    }

    /// The sequencer's length step.
    pub fn step_length(&mut self, phase: u8, length_enabled: bool)
        ensures
            *final(self) == length_step(*old(self), phase as int, length_enabled),
    {
        if phase % 2 == 0 && length_enabled && self.length_timer > 0 {
            self.length_timer = self.length_timer - 1;
            if self.length_timer == 0 {
                self.enabled = false;
            }
        }
    }

    /// The sequencer's envelope step.
    pub fn step_envelope(&mut self, phase: u8, envelope: u8)
        requires
            old(self).wf(),
        ensures
            final(self).wf(),
            *final(self) == envelope_step(*old(self), phase as int, envelope),
    {
        if phase == 7 {
            self.env_counter = self.env_counter.wrapping_add(1);
            let period = envelope % 8;
            if self.env_counter == period && period != 0 {
                self.env_counter = 0;
                if (envelope / 8) % 2 == 0 {
                    self.curr_volume = self.curr_volume.saturating_sub(1);
                } else if self.curr_volume < 15 {
                    self.curr_volume = self.curr_volume + 1;
                }
            }
        }
    }
}

impl GameBoy {
    /// Runs the frequency sweep of the first pulse channel.
    pub fn handle_sweep(&mut self)
        requires
            old(self).wf(),
        ensures
            final(self).wf(),
            final(self)@ == sweep_step(old(self)@),
    {
        let phase = self.apu.clock % 8;
        if phase != 2 && phase != 6 {
            return ;
        }
        let control = self.io[0x10];
        let period = (control / 16) % 8;
        if period == 0 {
            return ;
        }
        self.apu.sweep_timer = self.apu.sweep_timer.wrapping_add(1);
        let shift = control % 8;
        if self.apu.sweep_timer < period || shift == 0 || !self.apu.sweep_enable {
            return ;
        }
        self.apu.sweep_timer = 0;
        let shadow = self.apu.sweep_shadow_freq % 2048;
        let delta = shadow >> shift;
        proof {
            lemma_shift_right_bound(shadow, shift);
        }
        let target = if (control / 8) % 2 == 1 {
            shadow - delta
        } else {
            shadow + delta
        };
        if target > 2047 {
            self.apu.pulse1.enabled = false;
        } else {
            let high = self.io[0x14];
            self.io.set(0x13, (target % 256) as u8);
            self.io.set(0x14, (high / 8) * 8 + (target / 256) as u8);
            self.apu.sweep_shadow_freq = target;
        }
    }

    /// One step of the 512 Hz sequencer.
    fn run_sequencer(&mut self)
        requires
            old(self).wf(),
        ensures
            final(self).wf(),
            final(self)@ == sequencer_step(old(self)@),
    {
        self.apu.clock_timer = 0;
        self.apu.clock = self.apu.clock.wrapping_add(1);
        let phase = (self.apu.clock % 8) as u8;
        self.handle512_channel_1(phase);
        self.handle512_channel_2(phase);
        self.handle512_channel_3(phase);
        self.handle512_channel_4(phase);
        self.handle_sweep();
    }

    /// The sequencer's step for the first pulse channel: length and envelope.
    fn handle512_channel_1(&mut self, phase: u8)
        requires
            old(self).wf(),
        ensures
            final(self).wf(),
            final(self)@ == (Machine {
                apu: ApuState {
                    pulse1: envelope_step(
                        length_step(
                            old(self)@.apu.pulse1,
                            phase as int,
                            length_enabled(old(self)@.io[0x14]),
                        ),
                        phase as int,
                        old(self)@.io[0x12],
                    ),
                    ..old(self)@.apu
                },
                ..old(self)@
            }),
    {
        self.apu.pulse1.step_length(phase, (self.io[0x14] / 64) % 2 == 1);
        self.apu.pulse1.step_envelope(phase, self.io[0x12]);
    }

    /// The sequencer's step for the second pulse channel: length and envelope.
    fn handle512_channel_2(&mut self, phase: u8)
        requires
            old(self).wf(),
        ensures
            final(self).wf(),
            final(self)@ == (Machine {
                apu: ApuState {
                    pulse2: envelope_step(
                        length_step(
                            old(self)@.apu.pulse2,
                            phase as int,
                            length_enabled(old(self)@.io[0x19]),
                        ),
                        phase as int,
                        old(self)@.io[0x17],
                    ),
                    ..old(self)@.apu
                },
                ..old(self)@
            }),
    {
        self.apu.pulse2.step_length(phase, (self.io[0x19] / 64) % 2 == 1);
        self.apu.pulse2.step_envelope(phase, self.io[0x17]);
    }

    /// The sequencer's step for the wave channel: length only.
    fn handle512_channel_3(&mut self, phase: u8)
        requires
            old(self).wf(),
        ensures
            final(self).wf(),
            final(self)@ == (Machine {
                apu: ApuState {
                    wave: length_step(
                        old(self)@.apu.wave,
                        phase as int,
                        length_enabled(old(self)@.io[0x1E]),
                    ),
                    ..old(self)@.apu
                },
                ..old(self)@
            }),
    {
        self.apu.wave.step_length(phase, (self.io[0x1E] / 64) % 2 == 1);
    }

    /// The sequencer's step for the noise channel: length and envelope.
    fn handle512_channel_4(&mut self, phase: u8)
        requires
            old(self).wf(),
        ensures
            final(self).wf(),
            final(self)@ == (Machine {
                apu: ApuState {
                    noise: envelope_step(
                        length_step(
                            old(self)@.apu.noise,
                            phase as int,
                            length_enabled(old(self)@.io[0x23]),
                        ),
                        phase as int,
                        old(self)@.io[0x21],
                    ),
                    ..old(self)@.apu
                },
                ..old(self)@
            }),
    {
        self.apu.noise.step_length(phase, (self.io[0x23] / 64) % 2 == 1);
        self.apu.noise.step_envelope(phase, self.io[0x21]);
    }

    /// Adds channel `channel` at level `output` to the sample under accumulation.
    fn mix_into_sample(&mut self, output: u8, channel: u8)
        requires
            old(self)@.mixing(),
            channel < 4,
            output <= 120,
            sample_room(old(self)@, channel as int),
        ensures
            final(self)@ == mix_channel(old(self)@, output, channel),
            final(self)@.mixing(),
            sample_room(final(self)@, channel + 1),
    {
        let slot = 2 * (self.apu.buffer_write_index / 64);
        let master = self.io[0x24];
        let routing = self.io[0x25];
        if test_bit(routing, channel + 4) {
            let volume = ((master / 16) % 8) as u16;
            assert((output as u16) * (16 * volume) / 64 <= 210) by (nonlinear_arith)
                requires
                    output <= 120,
                    volume <= 7,
            ;
            assert((output as u16) * (16 * volume) <= 13440) by (nonlinear_arith)
                requires
                    output <= 120,
                    volume <= 7,
            ;
            let sample = self.apu_buffer[slot];
            self.apu_buffer.set(slot, sample + ((output as u16) * (16 * volume)) / 64);
        }
        if test_bit(routing, channel) {
            let volume = (master % 8) as u16;
            assert((output as u16) * (16 * volume) / 64 <= 210) by (nonlinear_arith)
                requires
                    output <= 120,
                    volume <= 7,
            ;
            assert((output as u16) * (16 * volume) <= 13440) by (nonlinear_arith)
                requires
                    output <= 120,
                    volume <= 7,
            ;
            let sample = self.apu_buffer[slot + 1];
            self.apu_buffer.set(slot + 1, sample + ((output as u16) * (16 * volume)) / 64);
        }
        assert(self@.apu_buffer =~= mix_channel(old(self)@, output, channel).apu_buffer);
    }

    /// Whether channel `channel` goes to either output.
    fn is_routed(&self, channel: u8) -> (r: bool)
        requires
            self@.mixing(),
            channel < 4,
        ensures
            r == routed(self@.io, channel),
    {
        test_bit(self.io[0x25], channel + 4) || test_bit(self.io[0x25], channel)
    }

    /// The sound tick of the first pulse channel.
    fn handle_apu_channel_1(&mut self)
        requires
            old(self)@.mixing(),
            sample_room(old(self)@, 0),
        ensures
            final(self)@ == channel_1_tick(old(self)@),
            final(self)@.mixing(),
            sample_room(final(self)@, 1),
    {
        let routed = self.is_routed(0);
        self.apu.pulse1.tick_pulse(routed, self.io[0x13], self.io[0x14], self.io[0x11]);
        self.mix_into_sample(self.apu.pulse1.output, 0);
    }

    /// The sound tick of the second pulse channel.
    fn handle_apu_channel_2(&mut self)
        requires
            old(self)@.mixing(),
            sample_room(old(self)@, 1),
        ensures
            final(self)@ == channel_2_tick(old(self)@),
            final(self)@.mixing(),
            sample_room(final(self)@, 2),
    {
        let routed = self.is_routed(1);
        self.apu.pulse2.tick_pulse(routed, self.io[0x18], self.io[0x19], self.io[0x16]);
        self.mix_into_sample(self.apu.pulse2.output, 1);
    }

    /// The sound tick of the wave channel.
    fn handle_apu_channel_3(&mut self)
        requires
            old(self)@.mixing(),
            sample_room(old(self)@, 2),
        ensures
            final(self)@ == channel_3_tick(old(self)@),
            final(self)@.mixing(),
            sample_room(final(self)@, 3),
    {
        let routed = self.is_routed(2);
        if !routed || self.io[0x1A] == 0 {
            self.apu.wave.output = 0;
        } else {
            let period = 2047 - (self.io[0x1D] as u32 + ((self.io[0x1E] % 8) as u32) * 256);
            self.apu.wave.advance(period, 32);
            if self.apu.wave.enabled {
                let step = self.apu.wave.duty_step;
                let byte = self.io[0x30 + (step / 2) as usize];
                let sample = if step % 2 == 0 {
                    byte / 16
                } else {
                    byte % 16
                };
                let code = (self.io[0x1C] / 32) % 4;
                let gain: u8 = if code == 0 {
                    0
                } else if code == 1 {
                    8
                } else if code == 2 {
                    4
                } else {
                    2
                };
                assert((15 - sample) * gain <= 120) by (nonlinear_arith)
                    requires
                        sample <= 15,
                        gain <= 8,
                ;
                self.apu.wave.output = (15 - sample) * gain;
            } else {
                self.apu.wave.output = 0;
            }
        }
        self.mix_into_sample(self.apu.wave.output, 2);
    }

    /// The sound tick of the noise channel.
    fn handle_apu_channel_4(&mut self)
        requires
            old(self)@.mixing(),
            sample_room(old(self)@, 3),
        ensures
            final(self)@ == channel_4_tick(old(self)@),
            final(self)@.mixing(),
            sample_room(final(self)@, 4),
    {
        let routed = self.is_routed(3);
        self.apu.noise.tick_noise(routed, self.io[0x22]);
        self.mix_into_sample(self.apu.noise.output, 3);
    }

    /// Clears the sound registers.
    fn silence_registers(&mut self)
        requires
            old(self).wf(),
        ensures
            final(self).wf(),
            final(self)@ == (Machine { io: silenced(old(self)@.io), ..old(self)@ }),
    {
        let mut reg: usize = 0x10;
        while reg <= 0x25
            invariant
                0x10 <= reg <= 0x26,
                self@.io.len() == 0x80,
                forall|i: int|
                    0 <= i < 0x80 ==> self@.io[i] == (if 0x10 <= i < reg {
                        0u8
                    } else {
                        old(self)@.io[i]
                    }),
                self@ == (Machine { io: self@.io, ..old(self)@ }),
            decreases 0x26 - reg,
        {
            self.io.set(reg, 0);
            reg = reg + 1;
        }
        assert(self@.io =~= silenced(old(self)@.io));
    }

    /// A copy of the sample buffer.
    fn copy_buffer(&self) -> (copy: Vec<u16>)
        ensures
            copy@ == self@.apu_buffer,
    {
        let mut copy: Vec<u16> = Vec::new();
        let mut i: usize = 0;
        while i < self.apu_buffer.len()
            invariant
                i <= self.apu_buffer@.len(),
                copy@ == self.apu_buffer@.subrange(0, i as int),
            decreases self.apu_buffer@.len() - i,
        {
            copy.push(self.apu_buffer[i]);
            i = i + 1;
            assert(copy@ =~= self.apu_buffer@.subrange(0, i as int));
        }
        assert(self.apu_buffer@.subrange(0, i as int) =~= self.apu_buffer@);
        copy
    }

    /// The tick of the sequencer's prescaler.
    fn tick_prescaler(&mut self)
        requires
            old(self).wf(),
        ensures
            final(self).wf(),
            final(self)@ == prescaler_tick(old(self)@),
            final(self)@.apu.buffer_write_index == old(self)@.apu.buffer_write_index,
    {
        if self.apu.clock_timer + 1 == 4096 {
            self.run_sequencer();
        } else {
            self.apu.clock_timer = self.apu.clock_timer + 1;
        }
    }

    /// Starts a stereo sample from zero every 64 sound ticks.
    fn start_sample(&mut self)
        requires
            old(self).wf(),
        ensures
            final(self)@.mixing(),
            sample_room(final(self)@, 0),
            final(self)@ == begin_sample(old(self)@),
    {
        let slot = 2 * (self.apu.buffer_write_index / 64);
        if self.apu.buffer_write_index % 64 == 0 {
            self.apu_buffer.set(slot, 0);
            self.apu_buffer.set(slot + 1, 0);
        }
    }

    /// The four channels' sound ticks.
    fn tick_channels(&mut self)
        requires
            old(self)@.mixing(),
            sample_room(old(self)@, 0),
        ensures
            final(self)@.mixing(),
            sample_room(final(self)@, 4),
            final(self)@ == channel_4_tick(
                channel_3_tick(channel_2_tick(channel_1_tick(old(self)@))),
            ),
            final(self)@.apu.buffer_write_index == old(self)@.apu.buffer_write_index,
    {
        self.handle_apu_channel_1();
        self.handle_apu_channel_2();
        self.handle_apu_channel_3();
        self.handle_apu_channel_4();
    }

    /// Moves the write position on; hands out the buffer when it is full.
    fn finish_sample(&mut self) -> (completed: Option<Vec<u16>>)
        requires
            old(self)@.mixing(),
            sample_room(old(self)@, 4),
        ensures
            final(self).wf(),
            final(self)@ == end_sample(old(self)@),
            match completed {
                Some(buffer) => old(self)@.apu.buffer_write_index + 1 == 16384 && buffer@ == old(
                    self,
                )@.apu_buffer,
                None => old(self)@.apu.buffer_write_index + 1 != 16384,
            },
    {
        if self.apu.buffer_write_index + 1 == 16384 {
            self.apu.buffer_write_index = 0;
            Some(self.copy_buffer())
        } else {
            self.apu.buffer_write_index = self.apu.buffer_write_index + 1;
            None
        }
    }

    /// Advances the sound unit by one sound tick. Every 16384 ticks a
    /// buffer of 256 stereo samples is complete and handed out.
    pub fn run_apu_cycle(&mut self) -> (completed: Option<Vec<u16>>)
        requires
            old(self).wf(),
        ensures
            final(self).wf(),
            final(self)@ == apu_cycle(old(self)@),
            match completed {
                Some(buffer) => apu_output(old(self)@) == Some(buffer@),
                None => apu_output(old(self)@).is_none(),
            },
    {
        if !test_bit(self.io[0x26], 7) {
            self.silence_registers();
            return None;
        }
        self.tick_prescaler();
        self.start_sample();
        self.tick_channels();
        self.finish_sample()
    }
}

} // verus!
