//! Homomorphic-ciphertext arithmetic: byte-wise wrapping operations on
//! opaque ciphertext bytes, gated by a noise budget that each operation
//! consumes. A simplified stand-in for real homomorphic encryption.

use vstd::prelude::*;
use crate::quantum::errors::ErrorCode;

verus! {

/// An encrypted value supporting computation without decryption.
#[derive(Clone, Debug)]
pub struct HomomorphicCiphertext {
    /// The ciphertext bytes.
    pub encrypted_data: Vec<u8>,
    /// The scheme parameters the ciphertext was made under.
    pub public_parameters: [u8; 64],
    /// How much computation capacity remains.
    pub noise_budget: u16,
}

impl HomomorphicCiphertext {
    /// Adds two ciphertexts byte-wise (wrapping), pairing bytes up to the
    /// shorter operand. Both budgets must exceed 100; the result keeps this
    /// operand's parameters and pays 50 from this operand's budget.
    pub fn homomorphic_add(&self, other: &Self) -> (r: Result<Self, ErrorCode>)
        ensures
            !(self.noise_budget > 100 && other.noise_budget > 100)
                ==> r == Err::<HomomorphicCiphertext, ErrorCode>(ErrorCode::InsufficientNoiseBudget),
            self.noise_budget > 100 && other.noise_budget > 100 ==> ({
                let n = if self.encrypted_data@.len() <= other.encrypted_data@.len() {
                    self.encrypted_data@.len()
                } else {
                    other.encrypted_data@.len()
                };
                &&& r matches Ok(c)
                &&& c.encrypted_data@.len() == n
                &&& forall|i: int| 0 <= i < n
                    ==> #[trigger] c.encrypted_data@[i]
                        == self.encrypted_data@[i].wrapping_add(other.encrypted_data@[i])
                &&& c.public_parameters == self.public_parameters
                &&& c.noise_budget == self.noise_budget - 50
            }),
    {
        if !(self.noise_budget > 100 && other.noise_budget > 100) {
            return Err(ErrorCode::InsufficientNoiseBudget);
        }

        let n = if self.encrypted_data.len() <= other.encrypted_data.len() {
            self.encrypted_data.len()
        } else {
            other.encrypted_data.len()
        };
        let mut result_data: Vec<u8> = Vec::new();
        let mut i: usize = 0;
        while i < n
            invariant
                i <= n,
                n <= self.encrypted_data@.len(),
                n <= other.encrypted_data@.len(),
                result_data@.len() == i as int,
                forall|j: int| 0 <= j < i as int
                    ==> #[trigger] result_data@[j]
                        == self.encrypted_data@[j].wrapping_add(other.encrypted_data@[j]),
            decreases n - i,
        {
            result_data.push(self.encrypted_data[i].wrapping_add(other.encrypted_data[i]));
            i = i + 1;
        }

        Ok(HomomorphicCiphertext {
            encrypted_data: result_data,
            public_parameters: self.public_parameters,
            noise_budget: self.noise_budget - 50,
        })
    }

    /// Multiplies every ciphertext byte by a plaintext scalar (wrapping).
    /// The budget must exceed 200; the result pays 100 of it.
    pub fn scalar_multiply(&self, scalar: u8) -> (r: Result<Self, ErrorCode>)
        ensures
            self.noise_budget <= 200
                ==> r == Err::<HomomorphicCiphertext, ErrorCode>(ErrorCode::InsufficientNoiseBudget),
            self.noise_budget > 200 ==> ({
                &&& r matches Ok(c)
                &&& c.encrypted_data@.len() == self.encrypted_data@.len()
                &&& forall|i: int| 0 <= i < self.encrypted_data@.len()
                    ==> #[trigger] c.encrypted_data@[i] == self.encrypted_data@[i].wrapping_mul(scalar)
                &&& c.public_parameters == self.public_parameters
                &&& c.noise_budget == self.noise_budget - 100
            }),
    {
        if self.noise_budget <= 200 {
            return Err(ErrorCode::InsufficientNoiseBudget);
        }

        let n = self.encrypted_data.len();
        let mut result_data: Vec<u8> = Vec::new();
        let mut i: usize = 0;
        while i < n
            invariant
                i <= n,
                n == self.encrypted_data@.len(),
                result_data@.len() == i as int,
                forall|j: int| 0 <= j < i as int
                    ==> #[trigger] result_data@[j] == self.encrypted_data@[j].wrapping_mul(scalar),
            decreases n - i,
        {
            result_data.push(self.encrypted_data[i].wrapping_mul(scalar));
            i = i + 1;
        }

        Ok(HomomorphicCiphertext {
            encrypted_data: result_data,
            public_parameters: self.public_parameters,
            noise_budget: self.noise_budget - 100,
        })
    }
}

} // verus!
