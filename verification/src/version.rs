//! Version counters for successive backups of one source file.
//!
//! A counter's raw value is a 32-bit unsigned integer; the value zero is
//! reserved to mean *invalid / uninitialized*, so every valid counter is at
//! least 1.  Two counter types share this shape and differ only in their
//! overflow policy: one wraps past the maximum back to 1, the other clamps
//! at the maximum.

pub mod saturating;
pub mod wrapping;
