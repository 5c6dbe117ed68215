//! A CHIP-8 virtual machine: instruction decoder, execution engine, key
//! state, ROM image handling and the rate limiter that paces the emulation.

use vstd::prelude::*;

pub mod cpu;
pub mod decoder;
pub mod display;
pub mod driver;
pub mod font;
pub mod keyboard;
pub mod laws;
pub mod machine;
pub mod reader;
pub mod rom;
pub mod tools;

verus! {

/// Number of addressable bytes of machine memory.
pub const MEMORY_SIZE: usize = 0x1000;

/// Size of the program region, which starts at address `0x200`.
pub const ROM_SIZE: usize = MEMORY_SIZE - 0x200;

/// Width of the display in pixels.
pub const WIDTH: usize = 64;

/// Height of the display in pixels.
pub const HEIGHT: usize = 32;

} // verus!
