//! Screen-capture source for a single Android display: cached display
//! geometry, parsing of the host bridge's JSON answers, and the capturer's
//! per-call frame state machine with orientation normalisation.

pub mod capturer;
pub mod response;
pub mod rotation;
pub mod screen;
