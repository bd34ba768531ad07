//! Structural equality of values.

use crate::sexpr::Sexpr;
use vstd::prelude::*;

verus! {

impl PartialEq for Sexpr {
    /// Two S-expressions are equal when they denote the same value: the same
    /// variant, the same number, the same text, and for pairs equal heads and
    /// equal tails.
    fn eq(&self, other: &Sexpr) -> (r: bool)
        decreases self,
    {
        match (self, other) {
            (Sexpr::Integer(a), Sexpr::Integer(b)) => *a == *b,
            (Sexpr::String(a), Sexpr::String(b)) => *a == *b,
            (Sexpr::Null, Sexpr::Null) => true,
            (Sexpr::Cons(h1, t1), Sexpr::Cons(h2, t2)) => {
                (**h1).eq(&**h2) && (**t1).eq(&**t2)
            },
            _ => false,
        }
    }
}

impl vstd::std_specs::cmp::PartialEqSpecImpl for Sexpr {
    open spec fn obeys_eq_spec() -> bool {
        true
    }

    open spec fn eq_spec(&self, other: &Sexpr) -> bool {
        self@ == other@
    }
}

impl Eq for Sexpr {

}

} // verus!
