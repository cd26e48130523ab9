//! A unit-conversion engine: distance, mass and temperature units, parsed
//! from text aliases and converted through a canonical base unit per
//! category. Values are exact rational numbers, so the conversion
//! arithmetic and its laws (identity, round trip, transitivity through a
//! third unit) are stated and proved exactly.

pub mod convert;
pub mod distance;
pub mod error;
pub mod expression;
pub mod mass;
pub mod number;
pub mod rational;
pub mod temperature;
pub mod text;

pub use rational::Rational;
