//! A privacy-preserving transaction protocol suite: stealth one-time receiving
//! addresses, ring signatures with double-spend-detecting key images, a
//! commitment/nullifier mixer with Merkle-proof-gated withdrawal, confidential
//! (amount-hidden) transactions, multi-hop decoy routing, threshold secret
//! sharing, and a time-locked multi-signature vault with a rate-based threat
//! detector.
//!
//! The protocols model their cryptography with domain-separated hash
//! derivations over two fixed 256-bit digests; they are simplified stand-ins,
//! not reference-grade elliptic-curve or lattice primitives. Ledger concerns
//! (spent-set persistence, Merkle-tree maintenance, fund transfer, the clock)
//! are external capabilities: this crate only defines the values it hands
//! them, and every time-dependent operation takes the current timestamp as an
//! argument.

pub mod byteops;
pub mod hashes;
pub mod privacy;
pub mod quantum;

pub use privacy::confidential::ConfidentialTransaction;
pub use privacy::decoy::{DecoyNetwork, TransactionPath};
pub use privacy::mixer::ZKMixer;
pub use privacy::ring::RingSignature;
pub use privacy::stealth::StealthAddress;
pub use quantum::detector::{QuantumThreatDetector, ThreatLevel};
pub use quantum::homomorphic::HomomorphicCiphertext;
pub use quantum::sharing::SecretShare;
pub use quantum::signature::QuantumResistantSignature;
pub use quantum::vault::{QuantumVault, VaultState};
