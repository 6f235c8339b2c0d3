//! An Atari 2600 emulator core: the MOS 6507 processor, the RIOT (6532)
//! timer and RAM, the TIA video/audio chip, cartridge mapping and the bus
//! that ties them together.

pub mod bits;
pub mod flags;
pub mod cpu;
pub mod input;
pub mod riot;
pub mod cartridge;
pub mod audio;
pub mod tia;
pub mod bus;
pub mod console;
