//! The shapes and how each hands itself to a visitor.

use vstd::prelude::*;
use crate::quantity::Quantity;
use crate::visitor::ShapeVisitor;

verus! {

/// A circle, known by its radius. Any radius is taken, negative ones too.
#[derive(Clone, Copy, Debug, PartialEq, Eq, Structural)]
pub struct Circle {
    pub radius: i64,
}

/// A square, known by the length of its side. Any length is taken,
/// negative ones too.
#[derive(Clone, Copy, Debug, PartialEq, Eq, Structural)]
pub struct Square {
    pub side_length: i64,
}

/// Either kind of shape, for callers that learn the kind only at run time.
#[derive(Clone, Copy, Debug, PartialEq, Eq, Structural)]
pub enum Shape {
    Circle(Circle),
    Square(Square),
}

impl Circle {
    /// A circle of the given radius.
    pub fn new(radius: i64) -> (circle: Circle)
        ensures
            circle == (Circle { radius }),
    {
        Circle { radius }
    }

    /// Hands this circle to the visitor's method for circles, and to no other.
    pub fn accept<V: ShapeVisitor>(&self, visitor: &mut V)
        requires
            old(visitor).total().plus(V::circle_term(*self)).fits(),
        ensures
            final(visitor).total() == old(visitor).total().plus(V::circle_term(*self)),
    {
        visitor.visit_circle(self);
    }
}

impl Square {
    /// A square of the given side length.
    pub fn new(side_length: i64) -> (square: Square)
        ensures
            square == (Square { side_length }),
    {
        Square { side_length }
    }

    /// Hands this square to the visitor's method for squares, and to no other.
    pub fn accept<V: ShapeVisitor>(&self, visitor: &mut V)
        requires
            old(visitor).total().plus(V::square_term(*self)).fits(),
        ensures
            final(visitor).total() == old(visitor).total().plus(V::square_term(*self)),
    {
        visitor.visit_square(self);
    }
}

impl Shape {
    /// What a visitor of type `V` adds to its total for this shape: the
    /// visitor's term for circles if this is a circle, its term for squares
    /// if this is a square.
    pub open spec fn term<V: ShapeVisitor>(self) -> Quantity {
        match self {
            Shape::Circle(circle) => V::circle_term(circle),
            Shape::Square(square) => V::square_term(square),
        }
    }

    /// Hands the shape to the one method of the visitor that is meant for
    /// its kind.
    pub fn accept<V: ShapeVisitor>(&self, visitor: &mut V)
        requires
            old(visitor).total().plus(self.term::<V>()).fits(),
        ensures
            final(visitor).total() == old(visitor).total().plus(self.term::<V>()),
    {
        match self {
            Shape::Circle(circle) => circle.accept(visitor),
            Shape::Square(square) => square.accept(visitor),
        }
    }
}

} // verus!
