//! The untraceable-transaction half of the suite: stealth addresses, ring
//! signatures, the commitment/nullifier mixer, confidential transactions and
//! decoy routing.

pub mod confidential;
pub mod decoy;
pub mod errors;
pub mod mixer;
pub mod ring;
pub mod stealth;
