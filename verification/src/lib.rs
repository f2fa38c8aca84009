//! Checked enumerations and flag sets for a native 2D graphics API.
//!
//! The native layer speaks in raw 32-bit integers. This crate gives each
//! closed enumeration a strict, exhaustively-matchable Rust type with a
//! total conversion to, and a fallible conversion from, its wire
//! representation; open bitmask concepts get flag-set types instead, for
//! which every bit pattern is legal; and `UncheckedEnum` carries a raw
//! value across the boundary without validating it, deferring promotion
//! to the strict type until a call site asks for it.

pub mod enums;
pub mod flags;
