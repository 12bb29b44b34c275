//! Conversion of rank-1 constraint systems into the padded arithmetic-circuit
//! format of a Bulletproofs-style proof engine, with machine-checked contracts.

pub mod scalar;
pub mod padding;
pub mod conversion;
pub mod laws;
