//! A cycle-stepped emulator core for an 8-bit handheld console: CPU,
//! memory map, interrupt controller, timer, pixel pipeline and sound
//! channels, each with a machine-checked contract.

pub mod flags;
pub mod cpu;
pub mod machine;
pub mod apu;
pub mod io;
pub mod memory;
pub mod branch;
pub mod interrupts;
pub mod opcodes_ld;
pub mod opcodes_arithmetic;
pub mod opcodes_branch;
pub mod opcodes_prefixed;
pub mod instruction_handling;
pub mod ppu;
pub mod ppu_laws;
pub mod frame;
pub mod render;
pub mod power;
pub mod input;
pub mod cartridge;
pub mod access;

pub use flags::FlagMask;
pub use instruction_handling::UnknownOpcode;
pub use interrupts::InterruptMasks;
pub use machine::{GameBoy, InputState, PpuFifoElement};
