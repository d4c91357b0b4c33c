//! Dimensional analysis in the type system, over exact magnitudes.
//!
//! A quantity is a magnitude whose unit is its type: `Meter`, `Hour`, or a
//! composite such as `Div<Meter, Second>`. Adding a length to a time does not
//! compile. Quantities of one dimension convert into one another and may be
//! added and compared across units, the left operand's unit winning.
//! Multiplying and dividing quantities builds composite units, whose types
//! nest by fixed rules.
//!
//! Magnitudes are [`scalar::Scalar`]s: exact rationals, the two infinities
//! that a division by zero gives, and undefined, which a result becomes where
//! no scalar can hold it. Only a square root that is no fraction is rounded.
//! The contracts of the library are stated over the real numbers that the
//! scalars hold.

pub mod gcd;
pub mod scalar;
pub mod text;
pub mod composite;
pub mod dimension;
pub mod length;
pub mod time;
mod cross;
pub mod laws;
