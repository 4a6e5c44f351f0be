//! Mandelbrot set rendering and zoom control, generic over the numeric field.
//!
//! The arithmetic is written once, over any scalar type with `+`, `-`, `*`, `/`, an order
//! and a conversion from `u32`. Every contract is stated over the operator specifications
//! of that type, and holds for the types whose operators obey them. [`whole::Whole`] is such
//! a type; the general facts about mapping, escape and zoom are proved for it.

pub mod complex;
pub mod controller;
pub mod escape;
pub mod exact;
pub mod image;
pub mod range;
pub mod scalar;
pub mod selection;
pub mod viewport;
pub mod whole;
