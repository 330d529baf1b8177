//! A verified core of an original-model handheld game console emulator.
//!
//! The crate models the CPU interpreter, the memory bus, the pixel
//! processing unit, the programmable timer, the joypad matrix and the
//! cartridge bank controllers as plain data with contracts; the host
//! window, pacing loop and file handling live outside the library.

pub mod cartridge;
pub mod clock;
pub mod cpu;
pub mod gpu;
pub mod input;
pub mod instructions;
pub mod memory;
pub mod registers;

pub use registers::Flags;
pub use registers::Registers;
