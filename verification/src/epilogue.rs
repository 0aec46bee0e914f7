//! A record with a method given in two forms that must behave alike.
//!
//! `original_f` is the method as written; `generated_f` is the same method
//! after its body has been wrapped for instrumentation. Both carry the same
//! contract, so callers can rely on the wrapped form returning exactly what
//! the plain form returns: a borrow of the record's field together with the
//! sum of the arguments.

use vstd::prelude::*;

verus! {

/// A record holding one integer.
pub struct S(i32);

impl S {
    /// The record's integer, as a mathematical value.
    pub closed spec fn spec_n(&self) -> int {
        self.0 as int
    }

    /// Build a record around the given integer.
    pub fn new(n: i32) -> (s: S)
        ensures
            s.spec_n() == n,
    {
        S(n)
    }

    /// The method as written: hand out a borrow of the field together with
    /// the sum of the arguments.
    pub fn original_f<'a>(&'a mut self, a: &i32, b: i32) -> (r: (&'a mut i32, i32))
        requires
            i32::MIN <= *a + b <= i32::MAX,
        ensures
            r.1 == *a + b,
            *r.0 as int == old(self).spec_n(),
            final(self).spec_n() == *final(r.0) as int,
    {
        (&mut self.0, *a + b)
    }

    /// The wrapped form of `original_f`: the body runs inside an epilogue
    /// wrapper, and the contract states that the wrapping changes nothing —
    /// the result and the effect on the record equal the plain form's.
    pub fn generated_f<'a>(&'a mut self, a: &i32, b: i32) -> (r: (&'a mut i32, i32))
        requires
            i32::MIN <= *a + b <= i32::MAX,
        ensures
            r.1 == *a + b,
            *r.0 as int == old(self).spec_n(),
            final(self).spec_n() == *final(r.0) as int,
    {
        let value: (&'a mut i32, i32) = (&mut self.0, *a + b);
        value
    }
}

} // verus!
