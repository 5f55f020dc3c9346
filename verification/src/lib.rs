//! A cycle-level interpreter core for a classic 8-bit home console: a
//! 6502-family instruction engine and a tile-based scanline video pipeline,
//! joined by a shared memory bus.
//!
//! The library is pure computation: the host program feeds it a cartridge
//! image as bytes, steps the instruction engine and the video pipeline, and
//! reads the framebuffer out once per frame.

pub mod errors;
pub mod ines;
pub mod cartridge;
pub mod controller;
pub mod instructions;
pub mod memory;
pub mod cpu;
pub mod ppu;
