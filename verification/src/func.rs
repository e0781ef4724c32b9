//! Function values: named callables whose instances are defined to be
//! incomparable.
//!
//! The callable body itself belongs to the surrounding evaluator; the value
//! system carries the name for diagnostics and printing only, never for
//! identity — equality between function values is false without exception,
//! which is stated where value equality is defined.

use vstd::prelude::*;

verus! {

/// A named function value.
#[derive(Debug)]
pub struct ValueFunc {
    pub name: String,
}

impl Clone for ValueFunc {
    /// A copy carrying the same name — and, at the host, the same shared
    /// callable; copies still never compare equal as values.
    fn clone(&self) -> (r: Self)
        ensures
            r == *self,
    {
        ValueFunc { name: self.name.clone() }
    }
}

/// The canonical text of a function value.
pub open spec fn func_text(f: ValueFunc) -> Seq<char> {
    "(function "@ + f.name@ + ")"@
}

impl ValueFunc {
    /// A new function value with the given name.
    pub fn new(name: String) -> (f: Self)
        ensures
            f.name == name,
    {
        ValueFunc { name }
    }

    /// The canonical text of this function value.
    pub fn to_text(&self) -> (r: String)
        ensures
            r@ == func_text(*self),
    {
        let mut r = String::from_str("(function ");
        r.append(self.name.as_str());
        r.append(")");
        proof {
            assert(r@ =~= func_text(*self));
        }
        r
    }
}

} // verus!
