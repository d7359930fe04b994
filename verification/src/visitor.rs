//! Visitors: one running total, one method per kind of shape.

use vstd::prelude::*;
use crate::quantity::{Measure, Quantity};
use crate::shape::{Circle, Square};

verus! {

/// An operation over shapes that accumulates a total.
///
/// A visitor is described by three things: the total it has reached, and the
/// term it adds for a circle and for a square. Visiting a shape adds that
/// shape's term to the total and does nothing else; the shape is not changed.
/// There is no way to reset or lower the total other than by visiting a shape
/// whose term is negative.
pub trait ShapeVisitor: Sized {
    /// The total reached so far.
    spec fn total(&self) -> Quantity;

    /// What visiting `circle` adds to the total.
    spec fn circle_term(circle: Circle) -> Quantity;

    /// What visiting `square` adds to the total.
    spec fn square_term(square: Square) -> Quantity;

    /// Adds the term of `circle` to the total.
    fn visit_circle(&mut self, circle: &Circle)
        requires
            old(self).total().plus(Self::circle_term(*circle)).fits(),
        ensures
            final(self).total() == old(self).total().plus(Self::circle_term(*circle)),
    ;

    /// Adds the term of `square` to the total.
    fn visit_square(&mut self, square: &Square)
        requires
            old(self).total().plus(Self::square_term(*square)).fits(),
        ensures
            final(self).total() == old(self).total().plus(Self::square_term(*square)),
    ;

    /// The total reached so far.
    fn result(&self) -> (measure: Measure)
        ensures
            measure@ == self.total(),
    ;
}

/// Adds `2 · r · π` for a circle of radius `r` and `s · s` for a square of
/// side `s`.
///
/// The term for a circle is the length of its boundary, not the surface it
/// encloses: the two visitors of this crate have their circle formulas the
/// other way round than their names suggest, and callers rely on that.
pub struct AreaVisitor {
    area: Measure,
}

/// Adds `π · r · r` for a circle of radius `r` and `4 · s` for a square of
/// side `s`.
///
/// The term for a circle is the surface it encloses, not the length of its
/// boundary: see [`AreaVisitor`].
pub struct PerimeterVisitor {
    perimeter: Measure,
}

impl AreaVisitor {
    /// A visitor that has seen nothing: its total is zero.
    pub fn new() -> (visitor: AreaVisitor)
        ensures
            visitor.total() == Quantity::zero(),
    {
        AreaVisitor { area: Measure::zero() }
    }
}

impl PerimeterVisitor {
    /// A visitor that has seen nothing: its total is zero.
    pub fn new() -> (visitor: PerimeterVisitor)
        ensures
            visitor.total() == Quantity::zero(),
    {
        PerimeterVisitor { perimeter: Measure::zero() }
    }
}

impl ShapeVisitor for AreaVisitor {
    closed spec fn total(&self) -> Quantity {
        self.area@
    }

    open spec fn circle_term(circle: Circle) -> Quantity {
        Quantity { rational: 0, pi: 2 * circle.radius }
    }

    open spec fn square_term(square: Square) -> Quantity {
        Quantity { rational: square.side_length * square.side_length, pi: 0 }
    }

    fn visit_circle(&mut self, circle: &Circle) {
        let radius: i128 = circle.radius as i128;
        let term = Measure { rational: 0, pi: 2 * radius };
        self.area = self.area.plus(&term);
    }

    fn visit_square(&mut self, square: &Square) {
        let side: i128 = square.side_length as i128;
        proof {
            lemma_square_of_i64_fits(square.side_length);
        }
        let term = Measure { rational: side * side, pi: 0 };
        self.area = self.area.plus(&term);
    }

    fn result(&self) -> (measure: Measure) {
        self.area
    }
}

impl ShapeVisitor for PerimeterVisitor {
    closed spec fn total(&self) -> Quantity {
        self.perimeter@
    }

    open spec fn circle_term(circle: Circle) -> Quantity {
        Quantity { rational: 0, pi: circle.radius * circle.radius }
    }

    open spec fn square_term(square: Square) -> Quantity {
        Quantity { rational: 4 * square.side_length, pi: 0 }
    }

    fn visit_circle(&mut self, circle: &Circle) {
        let radius: i128 = circle.radius as i128;
        proof {
            lemma_square_of_i64_fits(circle.radius);
        }
        let term = Measure { rational: 0, pi: radius * radius };
        self.perimeter = self.perimeter.plus(&term);
    }

    fn visit_square(&mut self, square: &Square) {
        let side: i128 = square.side_length as i128;
        let term = Measure { rational: 4 * side, pi: 0 };
        self.perimeter = self.perimeter.plus(&term);
    }

    fn result(&self) -> (measure: Measure) {
        self.perimeter
    }
}

/// The square of a 64-bit integer lies between 0 and 2^126, so a `Measure`
/// holds it.
pub proof fn lemma_square_of_i64_fits(x: i64)
    ensures
        0 <= x * x <= 0x4000_0000_0000_0000_0000_0000_0000_0000,
        x * x <= i128::MAX,
{
    assert(0 <= x * x <= 0x4000_0000_0000_0000_0000_0000_0000_0000) by (nonlinear_arith)
        requires
            -0x8000_0000_0000_0000 <= x <= 0x7fff_ffff_ffff_ffff,
    ;
}

} // verus!
