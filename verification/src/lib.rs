//! Core of a DMG handheld-console emulator: CPU, memory bus, LCD controller,
//! interrupt controller, timer, joypad and cartridge banking, with their
//! behaviour stated in contracts and machine-checked.

pub mod bytes;
pub mod cartridge;
pub mod cpu;
pub mod gameboy;
pub mod interrupt;
pub mod joypad;
pub mod mmu;
pub mod registers;
pub mod timer;
pub mod vram;
