//! The boolean cell.

use vstd::prelude::*;
use crate::text::{bool_text, spec_bool_text};

verus! {

/// A cell holding one `bool`, read with `get` and replaced with `set`.
///
/// Besides the plain load/store interface shared by all cells, the boolean
/// cell offers `fetch_not`, which flips the value and hands back what was
/// stored before the flip.
pub struct RelaxedBool {
    value: bool,
}

impl View for RelaxedBool {
    type V = bool;

    closed spec fn view(&self) -> bool {
        self.value
    }
}

impl RelaxedBool {
    /// Create a new cell holding `val`.
    pub fn new(val: bool) -> (r: Self)
        ensures
            r@ == val,
    {
        RelaxedBool { value: val }
    }

    /// Read the current value.
    pub fn get(&self) -> (r: bool)
        ensures
            r == self@,
    {
        self.value
    }

    /// Replace the current value with `val`; the previous value is discarded.
    pub fn set(&mut self, val: bool)
        ensures
            final(self)@ == val,
    {
        self.value = val;
    }

    /// Read the current value, apply `f` to it, and store the result.
    ///
    /// The read and the write are two separate accesses, not one indivisible
    /// step: a caller that shares the cell must rule out writers slipping in
    /// between, or their store is silently overwritten.
    pub fn update<F: FnOnce(bool) -> bool>(&mut self, f: F)
        requires
            call_requires(f, (old(self)@,)),
        ensures
            call_ensures(f, (old(self)@,), final(self)@),
    {
        let cur = self.get();
        let next = f(cur);
        self.set(next);
    }

    /// Flip the stored boolean and return the value that was stored
    /// immediately before the flip.
    pub fn fetch_not(&mut self) -> (prev: bool)
        ensures
            prev == old(self)@,
            final(self)@ == !old(self)@,
    {
        let prev = self.value;
        self.value = !prev;
        prev
    }

    /// Render the current value as text (`"true"` or `"false"`).
    pub fn render(&self) -> (s: String)
        ensures
            s@ == spec_bool_text(self@),
    {
        bool_text(self.get())
    }
}

impl Default for RelaxedBool {
    /// A cell holding `false`.
    fn default() -> (r: Self)
        ensures
            r@ == false,
    {
        RelaxedBool { value: false }
    }
}

impl From<bool> for RelaxedBool {
    /// Wrap a bare value, exactly as `new` does.
    fn from(val: bool) -> (r: Self)
        ensures
            r@ == val,
    {
        RelaxedBool { value: val }
    }
}

impl vstd::std_specs::convert::FromSpecImpl<bool> for RelaxedBool {
    open spec fn obeys_from_spec() -> bool {
        true
    }

    closed spec fn from_spec(v: bool) -> Self {
        RelaxedBool { value: v }
    }
}

} // verus!
