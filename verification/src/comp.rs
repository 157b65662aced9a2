use vstd::prelude::*;

verus! {

/// An early sketch of the evaluator's interface: anything that can say
/// whether it still admits a reduction step.
pub trait Reducable {
    /// What `reducable` answers, as a specification-level predicate.
    spec fn spec_reducable(&self) -> bool;

    /// True while the term still admits a reduction step.
    fn reducable(&self) -> (r: bool)
        ensures
            r == self.spec_reducable(),
    ;
}

/// A terminal integer value.
pub struct Number {
    pub value: i64,
}

impl Number {
    pub fn new(value: i64) -> (r: Number)
        ensures
            r.value == value,
    {
        Number { value }
    }
}

impl Reducable for Number {
    open spec fn spec_reducable(&self) -> bool {
        false
    }

    fn reducable(&self) -> (r: bool) {
        false
    }
}

/// The sum of two reducible terms.
pub struct Add<L: Reducable, R: Reducable> {
    pub left: L,
    pub right: R,
}

impl<L: Reducable, R: Reducable> Add<L, R> {
    pub fn new(left: L, right: R) -> (r: Add<L, R>)
        ensures
            r.left == left,
            r.right == right,
    {
        Add { left, right }
    }
}

impl<L: Reducable, R: Reducable> Reducable for Add<L, R> {
    open spec fn spec_reducable(&self) -> bool {
        true
    }

    fn reducable(&self) -> (r: bool) {
        true
    }
}

/// The product of two reducible terms.
pub struct Multiply<L: Reducable, R: Reducable> {
    pub left: L,
    pub right: R,
}

impl<L: Reducable, R: Reducable> Multiply<L, R> {
    pub fn new(left: L, right: R) -> (r: Multiply<L, R>)
        ensures
            r.left == left,
            r.right == right,
    {
        Multiply { left, right }
    }
}

impl<L: Reducable, R: Reducable> Reducable for Multiply<L, R> {
    open spec fn spec_reducable(&self) -> bool {
        true
    }

    fn reducable(&self) -> (r: bool) {
        true
    }
}

} // verus!
