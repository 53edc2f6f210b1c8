//! Pan and zoom state of a single-image viewer.
//!
//! The viewer keeps the centre of the image box and a zoom exponent rather
//! than its four edges, so that every quantity the display needs is an exact
//! rational function of integers: a drag moves the centre, a wheel tick moves
//! the exponent by one, and the box `(left, top, width, height)` follows.
pub mod ratio;
pub mod model;
pub mod viewer;
pub mod laws;
