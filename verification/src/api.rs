//! The entry points of the token interface, on plain values.

pub mod object;
