//! Protocol and flashing logic for Anne Pro 2 keyboards: framing of commands
//! into fixed-size HID reports, the firmware command vocabulary, chunked
//! firmware transfer, device selection, and the ordered flash sequence.
//!
//! All device I/O is left to the caller: the library produces the exact bytes
//! to send and decides every step of the flash sequence from the results the
//! caller reports back.

pub mod codec;
pub mod commands;
pub mod locator;
pub mod sequencer;
pub mod transfer;
