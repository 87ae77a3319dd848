//! The machine state: every memory bank and every component's registers in
//! one owned aggregate, and the mathematical model that contracts speak of.

use std::collections::VecDeque;
use vstd::prelude::*;
use crate::cpu::{pair, Cpu};
use crate::flags::valid_flags;

verus! {

/// Bytes of boot code.
pub const BIOS_SIZE: usize = 0x100;

/// Bytes of video RAM.
pub const VRAM_SIZE: usize = 0x2000;

/// Bytes of work RAM.
pub const WRAM_SIZE: usize = 0x2000;

/// Bytes of the sprite attribute table: 40 entries of four.
pub const OAM_SIZE: usize = 0xA0;

/// Number of I/O registers.
pub const IO_SIZE: usize = 0x80;

/// Bytes of high RAM.
pub const HRAM_SIZE: usize = 0x7F;

/// Pixels of the picture: 144 lines of 160.
pub const FRAMEBUFFER_SIZE: usize = 23040;

/// The pixel of a blank screen.
pub const WHITE: u32 = 0xFFFF_FFFF;

/// Stereo samples in one audio buffer: 256 frames of left and right.
pub const APU_BUFFER_SIZE: usize = 512;

/// One pending pixel of the pixel pipeline.
#[derive(Clone, Copy, Debug, PartialEq, Eq)]
pub struct PpuFifoElement {
    /// Color index, 0 to 3.
    pub color: u8,
    /// 0: background or window, 1: first sprite palette, 2: second sprite palette.
    pub source: u8,
}

impl PpuFifoElement {
    /// The color index and the source tag are in range.
    pub open spec fn valid(self) -> bool {
        self.color <= 3 && self.source <= 2
    }
}

/// One entry of the sprite attribute table.
#[derive(Clone, Copy, Debug, PartialEq, Eq)]
pub struct OamEntry {
    pub posy: u8,
    pub posx: u8,
    pub tile: u8,
    pub attr: u8,
}

/// The state of the eight buttons; `true` is pressed.
#[derive(Clone, Copy, Debug, PartialEq, Eq)]
pub struct InputState {
    pub down: bool,
    pub up: bool,
    pub left: bool,
    pub right: bool,
    pub start: bool,
    pub select: bool,
    pub b: bool,
    pub a: bool,
}

impl Default for InputState {
    /// No button pressed.
    fn default() -> (s: InputState)
        ensures
            s == (InputState {
                down: false,
                up: false,
                left: false,
                right: false,
                start: false,
                select: false,
                b: false,
                a: false,
            }),
    {
        InputState {
            down: false,
            up: false,
            left: false,
            right: false,
            start: false,
            select: false,
            b: false,
            a: false,
        }
    }
}

/// Cartridge bank latches.
#[derive(Clone, Copy, Debug, PartialEq, Eq)]
pub struct Banking {
    /// While set, the boot code overlays the first 256 bytes of the ROM.
    pub boot_enabled: bool,
    pub eram_enabled: bool,
    pub rom_bank: u8,
    pub eram_bank: u8,
}

/// The divider and the timer's overflow latch.
#[derive(Clone, Copy, Debug, PartialEq, Eq)]
pub struct Timer {
    pub div: u16,
    /// Set when the counter wrapped; the reload and the interrupt request
    /// follow on the next step.
    pub overflow: bool,
}

/// The sprite-table transfer in flight.
#[derive(Clone, Copy, Debug, PartialEq, Eq)]
pub struct Dma {
    /// Bytes still to copy, at most 160.
    pub counter: u8,
    pub source: u16,
}

/// The pixel unit's counters and latches.
#[derive(Clone, Copy, Debug, PartialEq, Eq)]
pub struct PpuState {
    pub lx: u8,
    pub ly: u8,
    /// 0: horizontal blank, 1: vertical blank, 2: sprite scan, 3: pixel transfer.
    pub mode: u8,
    pub dots_into_curr_mode: u16,
    pub dots_into_curr_line: u16,
    pub tilemap_x: u8,
    pub tilemap_y: u8,
    pub pixels_to_discard: u8,
    /// Dots that the first tile fetch of the line still takes.
    pub fetch_delay: u8,
    /// Set while the current line is fetched from the window.
    pub window_is_rendering: bool,
    /// Set once per frame, when the window's first line is reached.
    pub window_triggered: bool,
    /// Set while the whole framebuffer is blank white.
    pub blanked: bool,
}

/// The generator state of one sound channel.
#[derive(Clone, Copy, Debug, PartialEq, Eq)]
pub struct Channel {
    pub freq_counter: u32,
    pub env_counter: u8,
    /// Duty step of a pulse channel, sample index of the wave channel,
    /// shift register of the noise channel.
    pub duty_step: u16,
    pub length_timer: u8,
    pub enabled: bool,
    pub curr_volume: u8,
    /// The channel's current output level.
    pub output: u8,
}

/// The sound unit's state besides its registers.
#[derive(Clone, Copy, Debug, PartialEq, Eq)]
pub struct ApuState {
    pub pulse1: Channel,
    pub pulse2: Channel,
    pub wave: Channel,
    pub noise: Channel,
    pub sweep_timer: u8,
    pub sweep_shadow_freq: u16,
    pub sweep_enable: bool,
    /// Counts sound ticks up to one step of the 512 Hz sequencer.
    pub clock_timer: u32,
    /// Steps of the 512 Hz sequencer so far.
    pub clock: u32,
    pub buffer_write_index: usize,
}

/// The emulated machine.
pub struct GameBoy {
    pub(crate) bios: Vec<u8>,
    pub(crate) rom: Vec<u8>,
    pub(crate) eram: Vec<u8>,
    pub(crate) vram: Vec<u8>,
    pub(crate) wram: Vec<u8>,
    pub(crate) oam: Vec<u8>,
    pub(crate) io: Vec<u8>,
    pub(crate) hram: Vec<u8>,
    pub(crate) ie: u8,
    pub(crate) cpu: Cpu,
    pub(crate) bank: Banking,
    pub(crate) timer: Timer,
    pub(crate) dma: Dma,
    pub(crate) joypad_state: u8,
    pub(crate) ppu: PpuState,
    pub(crate) ppu_fifo: VecDeque<PpuFifoElement>,
    pub(crate) ppu_sprite_buffer: Vec<OamEntry>,
    pub(crate) framebuffer: Vec<u32>,
    pub(crate) apu: ApuState,
    pub(crate) apu_buffer: Vec<u16>,
}

/// The mathematical model of the machine: what a `GameBoy` holds, with
/// sequences for its memory banks and queues.
pub struct Machine {
    pub bios: Seq<u8>,
    pub rom: Seq<u8>,
    pub eram: Seq<u8>,
    pub vram: Seq<u8>,
    pub wram: Seq<u8>,
    pub oam: Seq<u8>,
    pub io: Seq<u8>,
    pub hram: Seq<u8>,
    pub ie: u8,
    pub cpu: Cpu,
    pub bank: Banking,
    pub timer: Timer,
    pub dma: Dma,
    pub joypad_state: u8,
    pub ppu: PpuState,
    pub fifo: Seq<PpuFifoElement>,
    pub sprites: Seq<OamEntry>,
    pub framebuffer: Seq<u32>,
    pub apu: ApuState,
    pub apu_buffer: Seq<u16>,
}

impl View for GameBoy {
    type V = Machine;

    open(crate) spec fn view(&self) -> Machine {
        Machine {
            bios: self.bios@,
            rom: self.rom@,
            eram: self.eram@,
            vram: self.vram@,
            wram: self.wram@,
            oam: self.oam@,
            io: self.io@,
            hram: self.hram@,
            ie: self.ie,
            cpu: self.cpu,
            bank: self.bank,
            timer: self.timer,
            dma: self.dma,
            joypad_state: self.joypad_state,
            ppu: self.ppu,
            fifo: self.ppu_fifo@,
            sprites: self.ppu_sprite_buffer@,
            framebuffer: self.framebuffer@,
            apu: self.apu,
            apu_buffer: self.apu_buffer@,
        }
    }
}

impl Channel {
    /// Volume and output level are in range.
    pub open spec fn wf(self) -> bool {
        self.curr_volume <= 15 && self.output <= 120
    }
}

impl ApuState {
    /// Every channel is well-formed, and phases and counters are in range.
    pub open spec fn wf(self) -> bool {
        &&& self.pulse1.wf()
        &&& self.pulse2.wf()
        &&& self.wave.wf()
        &&& self.noise.wf()
        &&& self.pulse1.duty_step < 8
        &&& self.pulse2.duty_step < 8
        &&& self.wave.duty_step < 32
        &&& self.clock_timer < 4096
        &&& self.buffer_write_index < 16384
    }
}

impl Machine {
    /// The fixed-size banks have their sizes, a transfer has at most 160
    /// bytes to go, and the lower nibble of the flag register is zero.
    pub open spec fn memory_wf(self) -> bool {
        &&& valid_flags(self.cpu.f)
        &&& self.bios.len() == BIOS_SIZE
        &&& self.vram.len() == VRAM_SIZE
        &&& self.wram.len() == WRAM_SIZE
        &&& self.oam.len() == OAM_SIZE
        &&& self.io.len() == IO_SIZE
        &&& self.hram.len() == HRAM_SIZE
        &&& self.dma.counter <= 160
    }

    /// What the pixel unit's queues and picture hold is valid.
    pub open spec fn ppu_structure(self) -> bool {
        &&& self.framebuffer.len() == FRAMEBUFFER_SIZE
        &&& self.ppu.mode <= 3
        &&& self.ppu.ly <= 153
        &&& self.ppu.mode != 1 ==> self.ppu.ly < 144
        &&& self.ppu.lx <= 160
        &&& self.fifo.len() <= 16
        &&& forall|i: int| 0 <= i < self.fifo.len() ==> (#[trigger] self.fifo[i]).valid()
        &&& self.sprites.len() <= 10
        &&& self.ppu.blanked ==> forall|i: int|
            0 <= i < self.framebuffer.len() ==> #[trigger] self.framebuffer[i] == WHITE
    }

    /// Dots that pixel transfer can still take on this line: a pixel for
    /// each column left, the pixels still to discard, the rest of the first
    /// fetch, and the pixels that a window not yet started may add.
    pub open spec fn pixel_budget(self) -> int {
        (160 - self.ppu.lx) + self.ppu.pixels_to_discard + self.ppu.fetch_delay + (
        if self.ppu.window_is_rendering {
            0int
        } else {
            7int
        })
    }

    /// The pixel unit's dot counters are in range for its mode: a line has
    /// 456 dots, the sprite scan 80, vertical blank 4560, and pixel
    /// transfer at most 186.
    pub open spec fn ppu_timing(self) -> bool {
        let ppu = self.ppu;
        &&& ppu.mode == 0 ==> ppu.dots_into_curr_mode <= ppu.dots_into_curr_line <= 455
        &&& ppu.mode == 1 ==> ppu.dots_into_curr_mode <= 4559 && ppu.dots_into_curr_line
            == ppu.dots_into_curr_mode
        &&& ppu.mode == 2 ==> ppu.dots_into_curr_mode <= 79 && ppu.dots_into_curr_line
            == ppu.dots_into_curr_mode
        &&& ppu.mode == 3 ==> {
            &&& ppu.dots_into_curr_line == ppu.dots_into_curr_mode + 80
            &&& ppu.dots_into_curr_mode == 0 || (ppu.lx < 160 && ppu.pixels_to_discard <= 7
                && ppu.fetch_delay <= 12 && ppu.dots_into_curr_mode + self.pixel_budget() <= 186)
        }
    }

    /// The pixel unit's counters are in range for its mode, and what its
    /// queues hold is valid.
    pub open spec fn ppu_wf(self) -> bool {
        self.ppu_structure() && self.ppu_timing()
    }

    /// The sound unit's counters are in range.
    pub open spec fn apu_structure(self) -> bool {
        &&& self.apu.wf()
        &&& self.apu_buffer.len() == APU_BUFFER_SIZE
    }

    /// The sample under accumulation has room for what the rest of its
    /// period can add: each sound tick adds at most 840 on a side.
    pub open spec fn apu_room(self) -> bool {
        self.apu.buffer_write_index % 64 != 0 ==> {
            &&& self.apu_buffer[2 * (self.apu.buffer_write_index as int / 64)] <= 840 * (
            self.apu.buffer_write_index % 64)
            &&& self.apu_buffer[2 * (self.apu.buffer_write_index as int / 64) + 1] <= 840 * (
            self.apu.buffer_write_index % 64)
        }
    }

    /// The sound unit's counters are in range, and the sample under
    /// accumulation has room.
    pub open spec fn apu_wf(self) -> bool {
        self.apu_structure() && self.apu_room()
    }

    /// Well-formedness but for the room in the sample under accumulation,
    /// which is used up while a sound tick is under way.
    pub open spec fn mixing(self) -> bool {
        &&& self.memory_wf()
        &&& self.ppu_wf()
        &&& self.apu_structure()
    }

    /// Well-formedness of the whole machine.
    pub open spec fn wf(self) -> bool {
        &&& self.memory_wf()
        &&& self.ppu_wf()
        &&& self.apu_wf()
    }

    /// Well-formedness but for the pixel unit's dot counters, which are out
    /// of step while a dot is under way.
    pub open spec fn steady(self) -> bool {
        &&& self.memory_wf()
        &&& self.ppu_structure()
        &&& self.apu_wf()
    }

    /// The machine with one more machine cycle owed.
    pub open spec fn tick(self) -> Machine {
        Machine {
            cpu: Cpu { cycles_to_wait: wrap32(self.cpu.cycles_to_wait + 1), ..self.cpu },
            ..self
        }
    }

    /// The machine with the CPU registers `cpu`.
    pub open spec fn with_cpu(self, cpu: Cpu) -> Machine {
        Machine { cpu, ..self }
    }

    /// The register pair BC.
    pub open spec fn bc(self) -> u16 {
        pair(self.cpu.b, self.cpu.c) as u16
    }

    /// The register pair DE.
    pub open spec fn de(self) -> u16 {
        pair(self.cpu.d, self.cpu.e) as u16
    }

    /// The register pair HL.
    pub open spec fn hl(self) -> u16 {
        pair(self.cpu.h, self.cpu.l) as u16
    }

    /// The accumulator and the flag register as one pair.
    pub open spec fn af(self) -> u16 {
        pair(self.cpu.a, self.cpu.f) as u16
    }

    /// The machine with `value` in the accumulator.
    pub open spec fn set_a(self, value: u8) -> Machine {
        self.with_cpu(Cpu { a: value, ..self.cpu })
    }

    /// The machine with `value` in the pair BC.
    pub open spec fn set_bc(self, value: u16) -> Machine {
        self.with_cpu(Cpu { b: (value / 256) as u8, c: (value % 256) as u8, ..self.cpu })
    }

    /// The machine with `value` in the pair DE.
    pub open spec fn set_de(self, value: u16) -> Machine {
        self.with_cpu(Cpu { d: (value / 256) as u8, e: (value % 256) as u8, ..self.cpu })
    }

    /// The machine with `value` in the pair HL.
    pub open spec fn set_hl(self, value: u16) -> Machine {
        self.with_cpu(Cpu { h: (value / 256) as u8, l: (value % 256) as u8, ..self.cpu })
    }

    /// The machine with `value` in the stack pointer.
    pub open spec fn set_sp(self, value: u16) -> Machine {
        self.with_cpu(Cpu { sp: value, ..self.cpu })
    }

    /// The machine with I/O register `reg` holding `value`.
    pub open spec fn with_io(self, reg: int, value: u8) -> Machine {
        Machine { io: self.io.update(reg, value), ..self }
    }
}

/// `x` reduced to 32 bits.
pub open spec fn wrap32(x: int) -> u32 {
    (x % 0x1_0000_0000) as u32
}

/// `x` reduced to 16 bits.
pub open spec fn wrap16(x: int) -> u16 {
    (x % 0x10000) as u16
}

/// `x` reduced to 8 bits.
pub open spec fn wrap8(x: int) -> u8 {
    (x % 0x100) as u8
}

impl GameBoy {
    /// Well-formedness: every constructor establishes it and every method keeps it.
    pub open spec fn wf(&self) -> bool {
        self@.wf()
    }
}

} // verus!
