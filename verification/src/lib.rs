//! Numbering of sequences of numbers: counting symbols, numeral systems
//! and numbering patterns such as `1.a)` or `{upper-roman}.`.
//!
//! - [`kind`]: the numbering kinds, their names and counting symbols, and
//!   the text each writes for a number;
//! - [`systems`]: the numeral systems the kinds are built from;
//! - [`symbols`]: the symbol tables of the kinds;
//! - [`pattern`]: numbering patterns, how they are read and applied, and
//!   numberings;
//! - [`laws`]: what holds across these functions;
//! - [`counting`]: how each kind counts: its own symbol table, place
//!   value of positional and alphabetic notation, weights of additive
//!   notation;
//! - [`eco`], [`chinese`]: the contracts of the outside operations used.

pub mod chinese;
pub mod counting;
pub mod eco;
pub mod kind;
pub mod laws;
pub mod pattern;
pub mod symbols;
pub mod systems;
mod text;

pub use kind::NumberingKind;
pub use pattern::{numbering, Applied, Numbering, NumberingPattern};
