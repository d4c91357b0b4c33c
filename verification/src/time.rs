//! Units of time. The second is their hub.

mod hour;
mod minute;
mod second;

pub use hour::{Hour, Hours};
pub use minute::{Minute, Minutes};
pub use second::{Second, Seconds};
