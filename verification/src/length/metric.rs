//! The metric units of length. The meter is their hub.

mod centimeter;
mod kilometer;
mod meter;
mod millimeter;

pub use centimeter::{Centimeter, Centimeters};
pub use kilometer::{Kilometer, Kilometers};
pub use meter::{Meter, Meters};
pub use millimeter::{Millimeter, Millimeters};
