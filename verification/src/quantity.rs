//! Exact quantities of the form `rational + pi · π`.

use vstd::prelude::*;

verus! {

/// The mathematical value `rational + pi · π`, with unbounded integer parts.
///
/// π is transcendental, so two quantities denote the same real number exactly
/// when both parts agree: structural equality is numeric equality.
pub struct Quantity {
    pub rational: int,
    pub pi: int,
}

impl Quantity {
    /// The quantity `0`.
    pub open spec fn zero() -> Quantity {
        Quantity { rational: 0, pi: 0 }
    }

    /// The sum of two quantities, part by part.
    pub open spec fn plus(self, other: Quantity) -> Quantity {
        Quantity { rational: self.rational + other.rational, pi: self.pi + other.pi }
    }

    /// Whether both parts can be held by a [`Measure`].
    pub open spec fn fits(self) -> bool {
        &&& i128::MIN <= self.rational <= i128::MAX
        &&& i128::MIN <= self.pi <= i128::MAX
    }
}

/// A quantity `rational + pi · π` held in machine integers.
#[derive(Clone, Copy, Debug, PartialEq, Eq, Structural)]
pub struct Measure {
    pub rational: i128,
    pub pi: i128,
}

impl View for Measure {
    type V = Quantity;

    open spec fn view(&self) -> Quantity {
        Quantity { rational: self.rational as int, pi: self.pi as int }
    }
}

impl Measure {
    /// The measure of nothing.
    pub fn zero() -> (measure: Measure)
        ensures
            measure@ == Quantity::zero(),
    {
        Measure { rational: 0, pi: 0 }
    }

    /// The sum of two measures, where it can be held.
    pub fn plus(&self, other: &Measure) -> (sum: Measure)
        requires
            self@.plus(other@).fits(),
        ensures
            sum@ == self@.plus(other@),
    {
        Measure { rational: self.rational + other.rational, pi: self.pi + other.pi }
    }
}

} // verus!
