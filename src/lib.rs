//! Procedural animated backdrop: a drifting, parallax sprite field over a
//! scroll-driven day/night gradient, with GPU render surfaces driven frame by frame.
//!
//! All quantities are integers in fixed units: lengths in milli-pixels (mpx),
//! times in microseconds (us), fractions in parts per million (ppm) or per mille (pm).
pub mod clock;
pub mod random;
pub mod layout;
pub mod motion;
pub mod surface;
pub mod skills;
