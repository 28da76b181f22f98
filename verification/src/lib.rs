//! A facade over the input devices of a board: its touch panel and its
//! buttons. The native driver takes the snapshots; this crate decides what a
//! caller gets to see of them, given the devices that the board carries.

pub mod io;
