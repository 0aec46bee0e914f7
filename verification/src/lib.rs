//! Build-time layout validation for bit-packed records.
//!
//! A record definition declares an ordered list of fields, each with a fixed
//! bit-width taken from a closed catalog of widths `0..=64`. The library
//! checks that the total width of a record is a whole number of bytes, i.e.
//! a multiple of eight bits, and reports a misaligned or malformed layout as
//! a rejection instead of letting it through.

pub mod catalog;
pub mod classify;
pub mod validate;
pub mod epilogue;
pub mod readonly;
