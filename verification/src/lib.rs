//! Timing and register core of a scanline-based LCD display controller.
//!
//! The crate models a memory-mapped display peripheral as seen by a host
//! processor: a small register file with per-register access policy, a
//! timing accumulator that advances a horizontal counter and rolls over
//! completed scanlines, a mode classifier deriving the current operating
//! phase from the counters, and a pair of one-shot interrupt latches.

pub mod laws;
pub mod model;
pub mod ppu;

pub use ppu::Fault;
pub use ppu::Mode;
pub use ppu::PPU;
