//! Shapes and the visitors that measure them, in exact arithmetic.
//!
//! A shape has one integer dimension. A visitor keeps a running total and
//! adds to it one term per shape it visits. Totals are exact: they have a
//! rational part and a part that counts multiples of π, so no rounding ever
//! takes place inside this crate.

pub mod laws;
pub mod quantity;
pub mod shape;
pub mod visitor;
