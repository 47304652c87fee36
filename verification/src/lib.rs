//! Maps 3-axis magnetic-field readings to patterns on a 5x5 LED matrix.
//!
//! The crate holds the two pure components of the display pipeline: the
//! level classifier, which turns one sensor reading into one of six ordinal
//! signal levels, and the pattern compositor, which turns a signal level
//! into a 5x5 bitmap by OR-combining fixed concentric ring patterns.
//! Reading the sensor and driving the LED matrix are hardware concerns and
//! stay outside; they hand plain integer samples in and take bitmaps out.

pub mod level;
pub mod pattern;
