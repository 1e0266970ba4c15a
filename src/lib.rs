//! The per-tick state of a car-and-ball sports simulation in two forms: a
//! canonical one with named fields, and a lane-packed one built on glam's
//! four-lane vectors, with conversions proved lossless between them.
//!
//! Every float is held as its IEEE-754 bit pattern (`u32`), so that the
//! conversions can be stated and checked bit for bit.

pub mod ball;
pub mod boostpad;
pub mod car;
pub mod game_state;
pub mod math;
