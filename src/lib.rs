//! Model and decoder for graphics commands of the kitty terminal protocol.
//!
//! A command arrives as an application program command whose control part is a list of
//! `key=value` pairs. [`decode`] turns those pairs into a [`Kitty`] record, starting from
//! the protocol defaults and rejecting unknown keys and malformed values.
pub mod decode;
pub mod display;
pub mod kitty;
pub mod laws;

pub use decode::{decode, parse_magnitude, parse_number, KittyError, KittyErrorKind, MAX_ID};
pub use kitty::{Kitty, KittyAction, KittyCompression, KittyDelete, KittyMedium};
