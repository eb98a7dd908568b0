//! A cycle-stepped 6502-family processor core over a console-style memory map:
//! 2 KiB of mirrored work RAM below `0x8000` and a fixed 32 KiB ROM bank above it.
pub mod flags;
pub mod ops;
pub mod model;
pub mod emulator;
pub mod laws;
