//! The signed integer cells: 8, 16 and 32 bits wide.

use vstd::prelude::*;
use crate::text::{decimal_i32, spec_signed_decimal};

verus! {

/// A cell holding one `i8`, read with `get` and replaced with `set`.
pub struct RelaxedI8 {
    value: i8,
}

impl View for RelaxedI8 {
    type V = i8;

    closed spec fn view(&self) -> i8 {
        self.value
    }
}

impl RelaxedI8 {
    /// Create a new cell holding `val`.
    pub fn new(val: i8) -> (r: Self)
        ensures
            r@ == val,
    {
        RelaxedI8 { value: val }
    }

    /// Read the current value.
    pub fn get(&self) -> (r: i8)
        ensures
            r == self@,
    {
        self.value
    }

    /// Replace the current value with `val`; the previous value is discarded.
    pub fn set(&mut self, val: i8)
        ensures
            final(self)@ == val,
    {
        self.value = val;
    }

    /// Read the current value, apply `f` to it, and store the result.
    ///
    /// The read and the write are two separate accesses, not one indivisible
    /// step: a caller that shares the cell must rule out writers slipping in
    /// between, or their store is silently overwritten.
    pub fn update<F: FnOnce(i8) -> i8>(&mut self, f: F)
        requires
            call_requires(f, (old(self)@,)),
        ensures
            call_ensures(f, (old(self)@,), final(self)@),
    {
        let cur = self.get();
        let next = f(cur);
        self.set(next);
    }

    /// Render the current value as decimal text, with a leading minus sign
    /// for negative values.
    pub fn render(&self) -> (s: String)
        ensures
            s@ == spec_signed_decimal(self@ as int),
    {
        decimal_i32(self.get() as i32)
    }
}

impl Default for RelaxedI8 {
    /// A cell holding zero.
    fn default() -> (r: Self)
        ensures
            r@ == 0i8,
    {
        RelaxedI8 { value: 0 }
    }
}

impl From<i8> for RelaxedI8 {
    /// Wrap a bare value, exactly as `new` does.
    fn from(val: i8) -> (r: Self)
        ensures
            r@ == val,
    {
        RelaxedI8 { value: val }
    }
}

impl vstd::std_specs::convert::FromSpecImpl<i8> for RelaxedI8 {
    open spec fn obeys_from_spec() -> bool {
        true
    }

    closed spec fn from_spec(v: i8) -> Self {
        RelaxedI8 { value: v }
    }
}

/// A cell holding one `i16`, read with `get` and replaced with `set`.
pub struct RelaxedI16 {
    value: i16,
}

impl View for RelaxedI16 {
    type V = i16;

    closed spec fn view(&self) -> i16 {
        self.value
    }
}

impl RelaxedI16 {
    /// Create a new cell holding `val`.
    pub fn new(val: i16) -> (r: Self)
        ensures
            r@ == val,
    {
        RelaxedI16 { value: val }
    }

    /// Read the current value.
    pub fn get(&self) -> (r: i16)
        ensures
            r == self@,
    {
        self.value
    }

    /// Replace the current value with `val`; the previous value is discarded.
    pub fn set(&mut self, val: i16)
        ensures
            final(self)@ == val,
    {
        self.value = val;
    }

    /// Read the current value, apply `f` to it, and store the result.
    ///
    /// The read and the write are two separate accesses, not one indivisible
    /// step: a caller that shares the cell must rule out writers slipping in
    /// between, or their store is silently overwritten.
    pub fn update<F: FnOnce(i16) -> i16>(&mut self, f: F)
        requires
            call_requires(f, (old(self)@,)),
        ensures
            call_ensures(f, (old(self)@,), final(self)@),
    {
        let cur = self.get();
        let next = f(cur);
        self.set(next);
    }

    /// Render the current value as decimal text, with a leading minus sign
    /// for negative values.
    pub fn render(&self) -> (s: String)
        ensures
            s@ == spec_signed_decimal(self@ as int),
    {
        decimal_i32(self.get() as i32)
    }
}

impl Default for RelaxedI16 {
    /// A cell holding zero.
    fn default() -> (r: Self)
        ensures
            r@ == 0i16,
    {
        RelaxedI16 { value: 0 }
    }
}

impl From<i16> for RelaxedI16 {
    /// Wrap a bare value, exactly as `new` does.
    fn from(val: i16) -> (r: Self)
        ensures
            r@ == val,
    {
        RelaxedI16 { value: val }
    }
}

impl vstd::std_specs::convert::FromSpecImpl<i16> for RelaxedI16 {
    open spec fn obeys_from_spec() -> bool {
        true
    }

    closed spec fn from_spec(v: i16) -> Self {
        RelaxedI16 { value: v }
    }
}

/// A cell holding one `i32`, read with `get` and replaced with `set`.
pub struct RelaxedI32 {
    value: i32,
}

impl View for RelaxedI32 {
    type V = i32;

    closed spec fn view(&self) -> i32 {
        self.value
    }
}

impl RelaxedI32 {
    /// Create a new cell holding `val`.
    pub fn new(val: i32) -> (r: Self)
        ensures
            r@ == val,
    {
        RelaxedI32 { value: val }
    }

    /// Read the current value.
    pub fn get(&self) -> (r: i32)
        ensures
            r == self@,
    {
        self.value
    }

    /// Replace the current value with `val`; the previous value is discarded.
    pub fn set(&mut self, val: i32)
        ensures
            final(self)@ == val,
    {
        self.value = val;
    }

    /// Read the current value, apply `f` to it, and store the result.
    ///
    /// The read and the write are two separate accesses, not one indivisible
    /// step: a caller that shares the cell must rule out writers slipping in
    /// between, or their store is silently overwritten.
    pub fn update<F: FnOnce(i32) -> i32>(&mut self, f: F)
        requires
            call_requires(f, (old(self)@,)),
        ensures
            call_ensures(f, (old(self)@,), final(self)@),
    {
        let cur = self.get();
        let next = f(cur);
        self.set(next);
    }

    /// Render the current value as decimal text, with a leading minus sign
    /// for negative values.
    pub fn render(&self) -> (s: String)
        ensures
            s@ == spec_signed_decimal(self@ as int),
    {
        decimal_i32(self.get())
    }
}

impl Default for RelaxedI32 {
    /// A cell holding zero.
    fn default() -> (r: Self)
        ensures
            r@ == 0i32,
    {
        RelaxedI32 { value: 0 }
    }
}

impl From<i32> for RelaxedI32 {
    /// Wrap a bare value, exactly as `new` does.
    fn from(val: i32) -> (r: Self)
        ensures
            r@ == val,
    {
        RelaxedI32 { value: val }
    }
}

impl vstd::std_specs::convert::FromSpecImpl<i32> for RelaxedI32 {
    open spec fn obeys_from_spec() -> bool {
        true
    }

    closed spec fn from_spec(v: i32) -> Self {
        RelaxedI32 { value: v }
    }
}

} // verus!
