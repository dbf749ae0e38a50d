//! The quantum-defence half of the suite: placeholder lattice signatures, the
//! time-locked multi-signature vault, homomorphic-ciphertext arithmetic,
//! threshold secret sharing and the attempt-rate threat detector.

pub mod detector;
pub mod errors;
pub mod homomorphic;
pub mod sharing;
pub mod signature;
pub mod vault;
