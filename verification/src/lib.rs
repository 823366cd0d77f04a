//! A typed builder for two-dimensional plots.
//!
//! A [`Figure`] gathers global settings, axis, legend and grid records and any
//! number of data series, and compiles them into one byte stream: a gnuplot
//! command script followed by the samples of every series as packed
//! little-endian doubles.
//!
//! Doubles never appear as such in this crate.  A sample is carried as its
//! IEEE-754 bit pattern (`u64`), a number that a directive prints is a
//! [`Number`] (bit pattern plus decimal text), and the product of a sample and
//! a scale factor is computed by a function that the caller hands to
//! [`plot`](crate::traits::Plot::plot).

pub mod axis;
pub mod candlestick;
pub mod curve;
pub mod data;
pub mod errorbar;
pub mod figure;
pub mod filledcurve;
pub mod grid;
pub mod key;
pub mod map;
pub mod number;
pub mod prelude;
pub mod style;
pub mod text;
pub mod traits;
pub mod version;

pub use crate::figure::Figure;
pub use crate::number::Number;
pub use crate::style::{Color, LineType, PointType, Terminal};
pub use crate::version::{parse_version, version, Version, VersionError};
