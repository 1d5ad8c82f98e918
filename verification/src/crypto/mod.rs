//! Cryptographic capabilities: key material, encryption and signatures.

use vstd::prelude::*;

pub mod quantum_vault;
pub mod sphincs;

verus! {

/// Why a cryptographic operation was refused.
#[derive(Debug, PartialEq)]
pub enum CryptoError {
    /// A key or a signature does not belong to the scheme it was used with.
    InvalidKey(String),
}

impl CryptoError {
    /// The explanation that the error carries.
    pub open spec fn detail(self) -> Seq<char> {
        match self {
            CryptoError::InvalidKey(text) => text@,
        }
    }
}

/// A key that signs.
#[derive(Debug)]
pub struct SigningKey {
    pub algorithm: String,
    pub key_data: Vec<u8>,
    /// Seconds since the Unix epoch.
    pub created_at: i64,
}

/// A key that checks signatures.
#[derive(Debug)]
pub struct VerifyingKey {
    pub algorithm: String,
    pub key_data: Vec<u8>,
    /// Seconds since the Unix epoch.
    pub created_at: i64,
}

/// A signature over a message.
#[derive(Debug)]
pub struct Signature {
    pub data: Vec<u8>,
    pub algorithm: String,
    /// Seconds since the Unix epoch.
    pub created_at: i64,
}

/// A signature scheme.
pub trait DigitalSignature {
    /// Makes a new pair of keys.
    fn generate_keypair(&mut self) -> Result<(SigningKey, VerifyingKey), CryptoError>;

    /// Signs `message` with `signing_key`.
    fn sign(&mut self, signing_key: &SigningKey, message: &[u8]) -> Result<Signature, CryptoError>;

    /// Checks `signature` over `message` against `verifying_key`.
    fn verify(&self, verifying_key: &VerifyingKey, message: &[u8], signature: &Signature) -> Result<
        bool,
        CryptoError,
    >;

    /// The name of the scheme.
    fn algorithm_name(&self) -> &str;

    /// The NIST security level of the scheme.
    fn security_level(&self) -> u8;
}

/// `n` zero bytes.
pub open spec fn zero_bytes(n: nat) -> Seq<u8> {
    Seq::new(n, |i: int| 0u8)
}

/// A buffer of `n` zero bytes.
pub fn zeros(n: usize) -> (r: Vec<u8>)
    ensures
        r@ == zero_bytes(n as nat),
{
    let mut out: Vec<u8> = Vec::new();
    let mut i: usize = 0;
    while i < n
        invariant
            i <= n,
            out@.len() == i,
            forall|j: int| 0 <= j < i ==> out@[j] == 0u8,
        decreases n - i,
    {
        out.push(0u8);
        i += 1;
    }
    assert(out@ =~= zero_bytes(n as nat));
    out
}

} // verus!
