//! A verified CHIP-8 interpreter core: instruction codec, memory model,
//! logical framebuffer, and the processor execution engine.
//!
//! The host drives the machine through [`processor::Processor`]: load a ROM
//! image, call `step` at its own pacing, tick the timers at 60 Hz, feed key
//! state in, and read the pixel grid out.

pub mod error;
pub mod events;
pub mod framebuffer;
pub mod instructions;
pub mod memory;
pub mod processor;
pub mod rom;
