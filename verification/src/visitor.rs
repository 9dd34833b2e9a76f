//! A carrier for the words that say what a text-based decoder expected.

use vstd::prelude::*;

verus! {

/// Remembers, for a decoder that reads a value of type `T` from text, the
/// words to report when the input was something other than text.
pub struct FromStrVisitor<T> {
    expecting: &'static str,
    ty: core::marker::PhantomData<T>,
}

impl<T> FromStrVisitor<T> {
    /// The words this visitor was made with.
    pub closed spec fn spec_expecting(&self) -> &'static str {
        self.expecting
    }

    /// A visitor that reports `expecting` as what it wanted to read.
    pub fn new(expecting: &'static str) -> (ret: Self)
        ensures
            ret.spec_expecting() == expecting,
    {
        FromStrVisitor { expecting: expecting, ty: core::marker::PhantomData }
    }

    /// The words to report as what was wanted.
    pub fn expecting(&self) -> (ret: &'static str)
        ensures
            ret == self.spec_expecting(),
    {
        self.expecting
    }
}

} // verus!
