//! What holds of every shape and every visitor, proved once.
//!
//! `new` leaves a visitor at `Quantity::zero()`, and every visit adds the
//! shape's term with `Quantity::plus`; the statements below are about those
//! two functions and the terms, so they hold of the running code.

use vstd::prelude::*;
use crate::quantity::Quantity;
use crate::shape::{Circle, Shape, Square};
use crate::visitor::{lemma_square_of_i64_fits, AreaVisitor, PerimeterVisitor, ShapeVisitor};

verus! {

/// A new `AreaVisitor` that visits a circle of radius `r` has reached
/// `2 · r · π`, for every `r`, and can always make that visit.
pub proof fn lemma_area_visitor_on_circle(radius: i64)
    ensures
        Quantity::zero().plus(AreaVisitor::circle_term(Circle { radius })) == (Quantity {
            rational: 0,
            pi: 2 * radius,
        }),
        Quantity::zero().plus(AreaVisitor::circle_term(Circle { radius })).fits(),
{
}

/// A new `PerimeterVisitor` that visits a circle of radius `r` has reached
/// `π · r · r`, for every `r`, and can always make that visit.
pub proof fn lemma_perimeter_visitor_on_circle(radius: i64)
    ensures
        Quantity::zero().plus(PerimeterVisitor::circle_term(Circle { radius })) == (Quantity {
            rational: 0,
            pi: radius * radius,
        }),
        Quantity::zero().plus(PerimeterVisitor::circle_term(Circle { radius })).fits(),
{
    lemma_square_of_i64_fits(radius);
}

/// A new `AreaVisitor` that visits a square of side `s` has reached `s · s`,
/// for every `s`, and can always make that visit.
pub proof fn lemma_area_visitor_on_square(side_length: i64)
    ensures
        Quantity::zero().plus(AreaVisitor::square_term(Square { side_length })) == (Quantity {
            rational: side_length * side_length,
            pi: 0,
        }),
        Quantity::zero().plus(AreaVisitor::square_term(Square { side_length })).fits(),
{
    lemma_square_of_i64_fits(side_length);
}

/// A new `PerimeterVisitor` that visits a square of side `s` has reached
/// `4 · s`, for every `s`, and can always make that visit.
pub proof fn lemma_perimeter_visitor_on_square(side_length: i64)
    ensures
        Quantity::zero().plus(PerimeterVisitor::square_term(Square { side_length })) == (Quantity {
            rational: 4 * side_length,
            pi: 0,
        }),
        Quantity::zero().plus(PerimeterVisitor::square_term(Square { side_length })).fits(),
{
}

/// For a shape whose dimension is not negative, neither visitor of this
/// crate adds a term with a negative part: over such shapes a total never
/// goes down.
pub proof fn lemma_totals_only_grow(start: Quantity, shape: Shape)
    requires
        match shape {
            Shape::Circle(circle) => circle.radius >= 0,
            Shape::Square(square) => square.side_length >= 0,
        },
    ensures
        start.plus(shape.term::<AreaVisitor>()).rational >= start.rational,
        start.plus(shape.term::<AreaVisitor>()).pi >= start.pi,
        start.plus(shape.term::<PerimeterVisitor>()).rational >= start.rational,
        start.plus(shape.term::<PerimeterVisitor>()).pi >= start.pi,
{
    match shape {
        Shape::Circle(circle) => lemma_square_of_i64_fits(circle.radius),
        Shape::Square(square) => lemma_square_of_i64_fits(square.side_length),
    }
}

/// Two visits by one visitor add the sum of the two shapes' terms to the
/// total it started from, and the order of the two visits does not matter.
pub proof fn lemma_two_visits_add_up<V: ShapeVisitor>(start: Quantity, first: Shape, second: Shape)
    ensures
        start.plus(first.term::<V>()).plus(second.term::<V>()) == start.plus(
            first.term::<V>().plus(second.term::<V>()),
        ),
        start.plus(first.term::<V>()).plus(second.term::<V>()) == start.plus(
            second.term::<V>(),
        ).plus(first.term::<V>()),
{
}

} // verus!
