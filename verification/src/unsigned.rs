//! The unsigned integer cells: 8, 16 and 32 bits wide.

use vstd::prelude::*;
use crate::text::{decimal_u32, spec_decimal};

verus! {

/// A cell holding one `u8`, read with `get` and replaced with `set`.
pub struct RelaxedU8 {
    value: u8,
}

impl View for RelaxedU8 {
    type V = u8;

    closed spec fn view(&self) -> u8 {
        self.value
    }
}

impl RelaxedU8 {
    /// Create a new cell holding `val`.
    pub fn new(val: u8) -> (r: Self)
        ensures
            r@ == val,
    {
        RelaxedU8 { value: val }
    }

    /// Read the current value.
    pub fn get(&self) -> (r: u8)
        ensures
            r == self@,
    {
        self.value
    }

    /// Replace the current value with `val`; the previous value is discarded.
    pub fn set(&mut self, val: u8)
        ensures
            final(self)@ == val,
    {
        self.value = val;
    }

    /// Read the current value, apply `f` to it, and store the result.
    ///
    /// The read and the write are two separate accesses, not one indivisible
    /// step: a caller that shares the cell must rule out writers slipping in
    /// between, or their store is silently overwritten.
    pub fn update<F: FnOnce(u8) -> u8>(&mut self, f: F)
        requires
            call_requires(f, (old(self)@,)),
        ensures
            call_ensures(f, (old(self)@,), final(self)@),
    {
        let cur = self.get();
        let next = f(cur);
        self.set(next);
    }

    /// Render the current value as decimal text.
    pub fn render(&self) -> (s: String)
        ensures
            s@ == spec_decimal(self@ as int),
    {
        decimal_u32(self.get() as u32)
    }
}

impl Default for RelaxedU8 {
    /// A cell holding zero.
    fn default() -> (r: Self)
        ensures
            r@ == 0u8,
    {
        RelaxedU8 { value: 0 }
    }
}

impl From<u8> for RelaxedU8 {
    /// Wrap a bare value, exactly as `new` does.
    fn from(val: u8) -> (r: Self)
        ensures
            r@ == val,
    {
        RelaxedU8 { value: val }
    }
}

impl vstd::std_specs::convert::FromSpecImpl<u8> for RelaxedU8 {
    open spec fn obeys_from_spec() -> bool {
        true
    }

    closed spec fn from_spec(v: u8) -> Self {
        RelaxedU8 { value: v }
    }
}

/// A cell holding one `u16`, read with `get` and replaced with `set`.
pub struct RelaxedU16 {
    value: u16,
}

impl View for RelaxedU16 {
    type V = u16;

    closed spec fn view(&self) -> u16 {
        self.value
    }
}

impl RelaxedU16 {
    /// Create a new cell holding `val`.
    pub fn new(val: u16) -> (r: Self)
        ensures
            r@ == val,
    {
        RelaxedU16 { value: val }
    }

    /// Read the current value.
    pub fn get(&self) -> (r: u16)
        ensures
            r == self@,
    {
        self.value
    }

    /// Replace the current value with `val`; the previous value is discarded.
    pub fn set(&mut self, val: u16)
        ensures
            final(self)@ == val,
    {
        self.value = val;
    }

    /// Read the current value, apply `f` to it, and store the result.
    ///
    /// The read and the write are two separate accesses, not one indivisible
    /// step: a caller that shares the cell must rule out writers slipping in
    /// between, or their store is silently overwritten.
    pub fn update<F: FnOnce(u16) -> u16>(&mut self, f: F)
        requires
            call_requires(f, (old(self)@,)),
        ensures
            call_ensures(f, (old(self)@,), final(self)@),
    {
        let cur = self.get();
        let next = f(cur);
        self.set(next);
    }

    /// Render the current value as decimal text.
    pub fn render(&self) -> (s: String)
        ensures
            s@ == spec_decimal(self@ as int),
    {
        decimal_u32(self.get() as u32)
    }
}

impl Default for RelaxedU16 {
    /// A cell holding zero.
    fn default() -> (r: Self)
        ensures
            r@ == 0u16,
    {
        RelaxedU16 { value: 0 }
    }
}

impl From<u16> for RelaxedU16 {
    /// Wrap a bare value, exactly as `new` does.
    fn from(val: u16) -> (r: Self)
        ensures
            r@ == val,
    {
        RelaxedU16 { value: val }
    }
}

impl vstd::std_specs::convert::FromSpecImpl<u16> for RelaxedU16 {
    open spec fn obeys_from_spec() -> bool {
        true
    }

    closed spec fn from_spec(v: u16) -> Self {
        RelaxedU16 { value: v }
    }
}

/// A cell holding one `u32`, read with `get` and replaced with `set`.
pub struct RelaxedU32 {
    value: u32,
}

impl View for RelaxedU32 {
    type V = u32;

    closed spec fn view(&self) -> u32 {
        self.value
    }
}

impl RelaxedU32 {
    /// Create a new cell holding `val`.
    pub fn new(val: u32) -> (r: Self)
        ensures
            r@ == val,
    {
        RelaxedU32 { value: val }
    }

    /// Read the current value.
    pub fn get(&self) -> (r: u32)
        ensures
            r == self@,
    {
        self.value
    }

    /// Replace the current value with `val`; the previous value is discarded.
    pub fn set(&mut self, val: u32)
        ensures
            final(self)@ == val,
    {
        self.value = val;
    }

    /// Read the current value, apply `f` to it, and store the result.
    ///
    /// The read and the write are two separate accesses, not one indivisible
    /// step: a caller that shares the cell must rule out writers slipping in
    /// between, or their store is silently overwritten.
    pub fn update<F: FnOnce(u32) -> u32>(&mut self, f: F)
        requires
            call_requires(f, (old(self)@,)),
        ensures
            call_ensures(f, (old(self)@,), final(self)@),
    {
        let cur = self.get();
        let next = f(cur);
        self.set(next);
    }

    /// Render the current value as decimal text.
    pub fn render(&self) -> (s: String)
        ensures
            s@ == spec_decimal(self@ as int),
    {
        decimal_u32(self.get())
    }
}

impl Default for RelaxedU32 {
    /// A cell holding zero.
    fn default() -> (r: Self)
        ensures
            r@ == 0u32,
    {
        RelaxedU32 { value: 0 }
    }
}

impl From<u32> for RelaxedU32 {
    /// Wrap a bare value, exactly as `new` does.
    fn from(val: u32) -> (r: Self)
        ensures
            r@ == val,
    {
        RelaxedU32 { value: val }
    }
}

impl vstd::std_specs::convert::FromSpecImpl<u32> for RelaxedU32 {
    open spec fn obeys_from_spec() -> bool {
        true
    }

    closed spec fn from_spec(v: u32) -> Self {
        RelaxedU32 { value: v }
    }
}

} // verus!
