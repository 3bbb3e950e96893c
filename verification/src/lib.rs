//! The core of a unit converter: a registry of unit types, the grammar of the
//! free-text conversion command, and the reducer that keeps the "from" field,
//! the "to" field, the unit selectors and the command line consistent.
//!
//! Numbers are IEEE 754 binary64 values carried by their bit pattern
//! ([`binary64::Binary64`]). The library compares them; arithmetic on them,
//! reading them from text and writing them as text is the work of the shell
//! that drives the reducer, which asks for it through [`converter::Request`].

pub mod binary64;
pub mod command;
pub mod converter;
pub mod laws;
pub mod text;
pub mod units;
