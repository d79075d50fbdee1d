//! Structural members and what holds them.

pub mod beams;
