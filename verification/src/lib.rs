//! Value-level model of the JPEG XL codec's C interface.
//!
//! The codec library speaks in plain integers across its application binary
//! interface: every enumeration is a numbered set of constants, status values
//! double as subscribable event bits, and the library version is packed into a
//! single integer. This crate pins those numberings down. Each mirrored
//! enumeration carries a verified, invertible mapping between its variants and
//! the numeric values the C interface assigns them, so a caller that marshals
//! values in and out of the native library can rely on the translation being
//! exact in both directions.

pub mod common;
pub mod decoder;
pub mod encoder;
