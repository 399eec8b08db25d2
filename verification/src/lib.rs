//! Core hardware emulation of the Game Boy (DMG): the SM83 CPU, the memory
//! bus with its cartridge bank controllers, the pixel-processing unit and
//! the timer, each stated against a mathematical model of its state.

pub mod gameboy;
pub mod util;
