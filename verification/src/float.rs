//! The floating-point payload of a value.
//!
//! A 64-bit float is carried here as its shortest round-tripping decimal
//! text, which identifies it exactly; producing that text from a machine
//! float is the host's side of the boundary, since floating-point
//! computation has no place in the verified core.

use vstd::prelude::*;

use crate::text::int_digits;

verus! {

/// A 64-bit float, represented by its shortest round-tripping decimal text.
#[derive(Debug)]
pub struct Float64 {
    pub repr: String,
}

impl Clone for Float64 {
    /// A copy denoting the same float.
    fn clone(&self) -> (r: Self)
        ensures
            r == *self,
    {
        Float64 { repr: self.repr.clone() }
    }
}

impl Float64 {
    /// A float from its decimal text.
    pub fn new(repr: String) -> (r: Self)
        ensures
            r.repr == repr,
    {
        Float64 { repr }
    }

    /// The float a 64-bit integer converts to; its text is the integer's
    /// decimal form followed by `.0`. The text denotes the integer exactly;
    /// a host turning it into a machine float rounds only there, so beyond
    /// fifty-three bits of magnitude this is the unrounded reading, not the
    /// shortest form of the rounded float.
    pub fn from_int(v: i64) -> (r: Self)
        ensures
            r.repr@ == int_digits(v as int) + ".0"@,
    {
        let mut repr = crate::text::int_to_string(v);
        repr.append(".0");
        Float64 { repr }
    }

    /// The decimal text of this float.
    pub fn to_text(&self) -> (r: String)
        ensures
            r@ == self.repr@,
    {
        self.repr.clone()
    }
}

} // verus!
