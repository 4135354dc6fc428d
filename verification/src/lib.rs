//! Fixed-width cells that hold one primitive value and expose it through a
//! small load/store interface: a boolean cell, unsigned cells of 8/16/32
//! bits, and signed cells of the same widths.
//!
//! Every operation on a cell is total: construction wraps a value, `get`
//! reads it, `set` replaces it, `update` applies a caller-supplied function
//! to the current value and stores the result, and the boolean cell also
//! offers `fetch_not`, which flips the value and returns what was there
//! before. Each cell can render its current value as decimal text.

mod text;
mod flag;
mod unsigned;
mod signed;

pub use flag::RelaxedBool;
pub use unsigned::{RelaxedU8, RelaxedU16, RelaxedU32};
pub use signed::{RelaxedI8, RelaxedI16, RelaxedI32};
pub use text::{digit_char, spec_bool_text, spec_decimal, spec_signed_decimal};
