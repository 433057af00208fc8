//! A verified core for a libretro-style emulator frontend.
//!
//! The frontend's own logic lives here: converting the core's RGB565
//! framebuffers into 32-bit pixel buffers, mapping pressed keys to joypad
//! button states, and keeping the frontend state that the core's callbacks
//! read and write. The dynamic emulation core itself, the window, and all
//! file I/O stay outside this crate.

pub mod emulator;
pub mod input;
pub mod pixel;
