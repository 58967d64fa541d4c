//! A verified core for an 8-bit cartridge console: cartridge image parsing,
//! the picture processing unit's registers and timing, the system bus with
//! its mirrored address map, and the 6502 instruction interpreter.
//!
//! Every type has a mathematical view (`RomModel`, `PpuModel`, `BusModel`,
//! `CpuModel`), and every operation is specified as a function on those
//! views; the laws that relate several operations (mirroring, frame cadence,
//! the flag rule) are proof functions beside them.
//!
//! The machine never draws, waits or fails by itself. `Cpu::run` hands
//! control back to its host with an `Outcome` whenever a frame has ended, the
//! halt opcode was decoded or the program made an access that has no defined
//! answer; the host presents the picture, or stops, and calls `run` again.

pub mod access;
pub mod rom;
pub mod ppu;
pub mod cpu;
