//! Power-on: the machine's state after reset.

use rand::rngs::ThreadRng;
use rand::Rng;
use std::collections::VecDeque;
use vstd::prelude::*;
use crate::cpu::Cpu;
use crate::io::initial_io_state;
use crate::machine::{
    ApuState, Banking, Channel, Dma, GameBoy, Machine, OamEntry, PpuFifoElement, PpuState, Timer,
    APU_BUFFER_SIZE, BIOS_SIZE, FRAMEBUFFER_SIZE, HRAM_SIZE, OAM_SIZE, VRAM_SIZE, WRAM_SIZE,
};

verus! {

/// `rand::rngs::ThreadRng`: the generator's state, carried through unread.
#[verifier::external_type_specification]
#[verifier::external_body]
pub struct ExThreadRng(ThreadRng);

/// `rand::thread_rng`: the calling thread's random number generator.
/// Nothing is claimed of it. The call panics where the operating system's
/// random source fails when the thread's generator is first made.
pub assume_specification[ rand::thread_rng ]() -> (rng: ThreadRng);

/// `rand::Rng::gen_range` over all byte values: a random byte. Nothing is
/// claimed of it beyond its type. The range is not empty, so the call's
/// own checks pass; the generator reseeds itself from the operating
/// system's random source from time to time, and the call panics where
/// that source fails.
#[verifier::external_body]
fn random_byte(rng: &mut ThreadRng) -> (byte: u8) {
    rng.gen_range(0..=255)
}

/// The CPU's registers after reset.
pub open spec fn initial_cpu() -> Cpu {
    Cpu {
        a: 0,
        f: 0,
        b: 0,
        c: 0,
        d: 0,
        e: 0,
        h: 0,
        l: 0,
        pc: 0,
        sp: 0,
        ime: false,
        ime_pending: false,
        halted: false,
        cycles_to_wait: 0,
        last_opcode: 0,
        last_opcode_cycles: 0,
        new_instruction_tick: false,
    }
}

/// The pixel unit's counters after reset: in vertical blank.
pub open spec fn initial_ppu() -> PpuState {
    PpuState {
        lx: 0,
        ly: 0,
        mode: 1,
        dots_into_curr_mode: 0,
        dots_into_curr_line: 0,
        tilemap_x: 0,
        tilemap_y: 0,
        pixels_to_discard: 0,
                fetch_delay: 0,
        window_is_rendering: false,
        window_triggered: false,
        blanked: false,
    }
}

/// A silent channel.
pub open spec fn initial_channel() -> Channel {
    Channel {
        freq_counter: 0,
        env_counter: 0,
        duty_step: 0,
        length_timer: 0,
        enabled: false,
        curr_volume: 0,
        output: 0,
    }
}

/// The sound unit's state after reset.
pub open spec fn initial_apu() -> ApuState {
    ApuState {
        pulse1: initial_channel(),
        pulse2: initial_channel(),
        wave: initial_channel(),
        noise: initial_channel(),
        sweep_timer: 0,
        sweep_shadow_freq: 0,
        sweep_enable: false,
        clock_timer: 0,
        clock: 0,
        buffer_write_index: 0,
    }
}

/// The machine after reset with the given boot code and RAM contents: no
/// cartridge, boot code mapped, every register at its documented value,
/// a black framebuffer and a silent sound unit.
pub open spec fn power_on_state(
    boot: Seq<u8>,
    vram: Seq<u8>,
    wram: Seq<u8>,
    oam: Seq<u8>,
    hram: Seq<u8>,
) -> Machine {
    Machine {
        bios: boot,
        rom: Seq::empty(),
        eram: Seq::empty(),
        vram,
        wram,
        oam,
        io: initial_io_state(),
        hram,
        ie: 0,
        cpu: initial_cpu(),
        bank: Banking { boot_enabled: true, eram_enabled: false, rom_bank: 1, eram_bank: 0 },
        timer: Timer { div: 0, overflow: false },
        dma: Dma { counter: 0, source: 0 },
        joypad_state: 0xFF,
        ppu: initial_ppu(),
        fifo: Seq::empty(),
        sprites: Seq::empty(),
        framebuffer: Seq::new(FRAMEBUFFER_SIZE as nat, |i: int| 0u32),
        apu: initial_apu(),
        apu_buffer: Seq::new(APU_BUFFER_SIZE as nat, |i: int| 0u16),
    }
}

/// The boot code used where none is supplied.
pub open spec fn fallback_boot_code() -> Seq<u8> {
    seq![
        0x31, 0xFE, 0xFF, 0xAF, 0x21, 0xFF, 0x9F, 0x32, 0xCB, 0x7C, 0x20, 0xFB, 0x11, 0x9E, 0x00, 0x21,
        0x10, 0x80, 0x1A, 0x22, 0x22, 0x1C, 0x20, 0xFA, 0x21, 0xE8, 0x98, 0x01, 0x1C, 0x00, 0x3E, 0x01,
        0x22, 0x3C, 0x22, 0x3C, 0x22, 0x3C, 0x22, 0x3C, 0x09, 0x22, 0x3C, 0x22, 0x3C, 0x22, 0x3C, 0x22,
        0x3C, 0x09, 0x22, 0x3C, 0x22, 0x3C, 0x22, 0x3C, 0x22, 0x3C, 0x09, 0x21, 0x47, 0xFF, 0x3E, 0x00,
        0x77, 0x3E, 0x91, 0xE0, 0x40, 0x06, 0x0A, 0xCD, 0x8E, 0x00, 0x0E, 0x03, 0x06, 0x06, 0xCD, 0x8E,
        0x00, 0x3E, 0x54, 0x86, 0x77, 0x0D, 0x20, 0xF4, 0x06, 0x32, 0xCD, 0x8E, 0x00, 0x0E, 0x03, 0x06,
        0x06, 0xCD, 0x8E, 0x00, 0x3E, 0xAC, 0x86, 0x77, 0x0D, 0x20, 0xF4, 0xFA, 0x04, 0x01, 0xFE, 0xCE,
        0x20, 0xFE, 0x01, 0x13, 0x00, 0x11, 0xD8, 0x00, 0x21, 0x4D, 0x01, 0x31, 0xFE, 0xFF, 0x3E, 0xE1,
        0xE0, 0x0F, 0xAF, 0xE0, 0xFF, 0xF3, 0x3E, 0xFF, 0xC6, 0x01, 0x3E, 0x01, 0x18, 0x70, 0xF0, 0x44,
        0xFE, 0x90, 0x20, 0xFA, 0x16, 0x00, 0x14, 0x20, 0xFD, 0x05, 0x20, 0xF2, 0xC9, 0xFF, 0x00, 0x00,
        0x01, 0x01, 0x01, 0x02, 0x02, 0x02, 0x3F, 0xD5, 0xAA, 0x55, 0xAA, 0xD5, 0x7F, 0x00, 0xFC, 0x57,
        0xAA, 0x55, 0xAA, 0x55, 0xFE, 0x00, 0x00, 0x00, 0x80, 0x80, 0x80, 0x40, 0x40, 0x40, 0x02, 0x04,
        0x04, 0x04, 0x04, 0x04, 0x04, 0x02, 0x04, 0x04, 0x04, 0x00, 0x10, 0x08, 0x07, 0x00, 0x20, 0x20,
        0x20, 0x00, 0x08, 0x10, 0xE0, 0x00, 0x40, 0x20, 0x20, 0x20, 0x20, 0x20, 0x20, 0x40, 0x01, 0x00,
        0x00, 0x7A, 0x42, 0x72, 0x42, 0x43, 0x80, 0x7F, 0x00, 0x19, 0x25, 0x3D, 0x25, 0xA5, 0x01, 0xFE,
        0x00, 0x20, 0xAD, 0x61, 0x21, 0x20, 0x80, 0x00, 0x00, 0xCC, 0x0A, 0x6C, 0x2A, 0xCC, 0xE0, 0x50,
    ]
}

/// The boot code that the machine maps for a supplied image: the image's
/// first 256 bytes, or the fallback where the image is missing or shorter.
pub open spec fn boot_code(image: Option<Seq<u8>>) -> Seq<u8> {
    match image {
        Some(bytes) => if bytes.len() >= BIOS_SIZE {
            bytes.subrange(0, BIOS_SIZE as int)
        } else {
            fallback_boot_code()
        },
        None => fallback_boot_code(),
    }
}

/// The fallback boot code as bytes.
pub fn fallback_boot_rom() -> (rom: Vec<u8>)
    ensures
        rom@ == fallback_boot_code(),
{
    let rom: Vec<u8> = vec![
        0x31, 0xFE, 0xFF, 0xAF, 0x21, 0xFF, 0x9F, 0x32, 0xCB, 0x7C, 0x20, 0xFB, 0x11, 0x9E, 0x00, 0x21,
        0x10, 0x80, 0x1A, 0x22, 0x22, 0x1C, 0x20, 0xFA, 0x21, 0xE8, 0x98, 0x01, 0x1C, 0x00, 0x3E, 0x01,
        0x22, 0x3C, 0x22, 0x3C, 0x22, 0x3C, 0x22, 0x3C, 0x09, 0x22, 0x3C, 0x22, 0x3C, 0x22, 0x3C, 0x22,
        0x3C, 0x09, 0x22, 0x3C, 0x22, 0x3C, 0x22, 0x3C, 0x22, 0x3C, 0x09, 0x21, 0x47, 0xFF, 0x3E, 0x00,
        0x77, 0x3E, 0x91, 0xE0, 0x40, 0x06, 0x0A, 0xCD, 0x8E, 0x00, 0x0E, 0x03, 0x06, 0x06, 0xCD, 0x8E,
        0x00, 0x3E, 0x54, 0x86, 0x77, 0x0D, 0x20, 0xF4, 0x06, 0x32, 0xCD, 0x8E, 0x00, 0x0E, 0x03, 0x06,
        0x06, 0xCD, 0x8E, 0x00, 0x3E, 0xAC, 0x86, 0x77, 0x0D, 0x20, 0xF4, 0xFA, 0x04, 0x01, 0xFE, 0xCE,
        0x20, 0xFE, 0x01, 0x13, 0x00, 0x11, 0xD8, 0x00, 0x21, 0x4D, 0x01, 0x31, 0xFE, 0xFF, 0x3E, 0xE1,
        0xE0, 0x0F, 0xAF, 0xE0, 0xFF, 0xF3, 0x3E, 0xFF, 0xC6, 0x01, 0x3E, 0x01, 0x18, 0x70, 0xF0, 0x44,
        0xFE, 0x90, 0x20, 0xFA, 0x16, 0x00, 0x14, 0x20, 0xFD, 0x05, 0x20, 0xF2, 0xC9, 0xFF, 0x00, 0x00,
        0x01, 0x01, 0x01, 0x02, 0x02, 0x02, 0x3F, 0xD5, 0xAA, 0x55, 0xAA, 0xD5, 0x7F, 0x00, 0xFC, 0x57,
        0xAA, 0x55, 0xAA, 0x55, 0xFE, 0x00, 0x00, 0x00, 0x80, 0x80, 0x80, 0x40, 0x40, 0x40, 0x02, 0x04,
        0x04, 0x04, 0x04, 0x04, 0x04, 0x02, 0x04, 0x04, 0x04, 0x00, 0x10, 0x08, 0x07, 0x00, 0x20, 0x20,
        0x20, 0x00, 0x08, 0x10, 0xE0, 0x00, 0x40, 0x20, 0x20, 0x20, 0x20, 0x20, 0x20, 0x40, 0x01, 0x00,
        0x00, 0x7A, 0x42, 0x72, 0x42, 0x43, 0x80, 0x7F, 0x00, 0x19, 0x25, 0x3D, 0x25, 0xA5, 0x01, 0xFE,
        0x00, 0x20, 0xAD, 0x61, 0x21, 0x20, 0x80, 0x00, 0x00, 0xCC, 0x0A, 0x6C, 0x2A, 0xCC, 0xE0, 0x50,
    ];
    assert(rom@ =~= fallback_boot_code());
    rom
}

/// `count` random bytes.
fn random_bytes(rng: &mut ThreadRng, count: usize) -> (bytes: Vec<u8>)
    ensures
        bytes@.len() == count,
{
    let mut bytes: Vec<u8> = Vec::new();
    let mut i: usize = 0;
    while i < count
        invariant
            i <= count,
            bytes@.len() == i,
        decreases count - i,
    {
        bytes.push(random_byte(rng));
        i = i + 1;
    }
    bytes
}

/// `count` zeros.
fn filled16(count: usize) -> (v: Vec<u16>)
    ensures
        v@ == Seq::new(count as nat, |i: int| 0u16),
{
    let mut v: Vec<u16> = Vec::new();
    let mut i: usize = 0;
    while i < count
        invariant
            i <= count,
            v@ == Seq::new(i as nat, |k: int| 0u16),
        decreases count - i,
    {
        v.push(0);
        i = i + 1;
        assert(v@ =~= Seq::new(i as nat, |k: int| 0u16));
    }
    v
}

/// `count` zeros.
fn filled32(count: usize) -> (v: Vec<u32>)
    ensures
        v@ == Seq::new(count as nat, |i: int| 0u32),
{
    let mut v: Vec<u32> = Vec::new();
    let mut i: usize = 0;
    while i < count
        invariant
            i <= count,
            v@ == Seq::new(i as nat, |k: int| 0u32),
        decreases count - i,
    {
        v.push(0);
        i = i + 1;
        assert(v@ =~= Seq::new(i as nat, |k: int| 0u32));
    }
    v
}

impl GameBoy {
    /// Builds the machine after reset from the given boot code and RAM
    /// contents; `None` exactly where one of them has not its bank's size.
    pub fn power_on(
        boot: Vec<u8>,
        vram: Vec<u8>,
        wram: Vec<u8>,
        oam: Vec<u8>,
        hram: Vec<u8>,
    ) -> (machine: Option<GameBoy>)
        ensures
            machine.is_some() == (boot@.len() == BIOS_SIZE && vram@.len() == VRAM_SIZE
                && wram@.len() == WRAM_SIZE && oam@.len() == OAM_SIZE && hram@.len()
                == HRAM_SIZE),
            machine matches Some(g) ==> g.wf() && g@ == power_on_state(
                boot@,
                vram@,
                wram@,
                oam@,
                hram@,
            ),
    {
        if boot.len() != BIOS_SIZE || vram.len() != VRAM_SIZE || wram.len() != WRAM_SIZE
            || oam.len() != OAM_SIZE || hram.len() != HRAM_SIZE {
            return None;
        }
        let silent = Channel {
            freq_counter: 0,
            env_counter: 0,
            duty_step: 0,
            length_timer: 0,
            enabled: false,
            curr_volume: 0,
            output: 0,
        };
        let mut machine = GameBoy {
            bios: boot,
            rom: Vec::new(),
            eram: Vec::new(),
            vram,
            wram,
            oam,
            io: filled_io(),
            hram,
            ie: 0,
            cpu: Cpu {
                a: 0,
                f: 0,
                b: 0,
                c: 0,
                d: 0,
                e: 0,
                h: 0,
                l: 0,
                pc: 0,
                sp: 0,
                ime: false,
                ime_pending: false,
                halted: false,
                cycles_to_wait: 0,
                last_opcode: 0,
                last_opcode_cycles: 0,
                new_instruction_tick: false,
            },
            bank: Banking { boot_enabled: true, eram_enabled: false, rom_bank: 1, eram_bank: 0 },
            timer: Timer { div: 0, overflow: false },
            dma: Dma { counter: 0, source: 0 },
            joypad_state: 0xFF,
            ppu: PpuState {
                lx: 0,
                ly: 0,
                mode: 1,
                dots_into_curr_mode: 0,
                dots_into_curr_line: 0,
                tilemap_x: 0,
                tilemap_y: 0,
                pixels_to_discard: 0,
                fetch_delay: 0,
                window_is_rendering: false,
                window_triggered: false,
                blanked: false,
            },
            ppu_fifo: VecDeque::new(),
            ppu_sprite_buffer: Vec::new(),
            framebuffer: filled32(FRAMEBUFFER_SIZE),
            apu: ApuState {
                pulse1: silent,
                pulse2: silent,
                wave: silent,
                noise: silent,
                sweep_timer: 0,
                sweep_shadow_freq: 0,
                sweep_enable: false,
                clock_timer: 0,
                clock: 0,
                buffer_write_index: 0,
            },
            apu_buffer: filled16(APU_BUFFER_SIZE),
        };
        machine.init_io_registers();
        Some(machine)
    }

    /// Builds the machine after reset: boot code from `image` (the fallback
    /// where it is missing or shorter than 256 bytes), and RAM filled with
    /// random bytes, as on hardware that was just switched on.
    pub fn new(image: Option<Vec<u8>>) -> (machine: GameBoy)
        ensures
            machine.wf(),
            machine@ == power_on_state(
                boot_code(
                    match image {
                        Some(bytes) => Some(bytes@),
                        None => None,
                    },
                ),
                machine@.vram,
                machine@.wram,
                machine@.oam,
                machine@.hram,
            ),
    {
        let boot = match image {
            Some(bytes) => {
                if bytes.len() >= BIOS_SIZE {
                    let mut bytes = bytes;
                    bytes.truncate(BIOS_SIZE);
                    bytes
                } else {
                    fallback_boot_rom()
                }
            },
            None => fallback_boot_rom(),
        };
        let mut rng = rand::thread_rng();
        let vram = random_bytes(&mut rng, VRAM_SIZE);
        let wram = random_bytes(&mut rng, WRAM_SIZE);
        let oam = random_bytes(&mut rng, OAM_SIZE);
        let hram = random_bytes(&mut rng, HRAM_SIZE);
        let machine = GameBoy::power_on(boot, vram, wram, oam, hram);
        machine.unwrap()
    }
}

/// 128 bytes for the I/O bank, before the reset values are loaded.
fn filled_io() -> (v: Vec<u8>)
    ensures
        v@.len() == 0x80,
{
    let mut v: Vec<u8> = Vec::new();
    let mut i: usize = 0;
    while i < 0x80
        invariant
            i <= 0x80,
            v@.len() == i,
        decreases 0x80 - i,
    {
        v.push(0xFF);
        i = i + 1;
    }
    v
}

} // verus!
