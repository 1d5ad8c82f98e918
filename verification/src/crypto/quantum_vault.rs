//! A vault of post-quantum key material with placeholder primitives:
//! encryption masks the data with the key, signatures are fixed-size blanks.

use vstd::prelude::*;
use crate::crypto::{zero_bytes, zeros};
use crate::fixed::{accumulate, accumulated};
use crate::host::clock_micros;

verus! {

/// The post-quantum algorithms that the vault knows.
#[derive(Debug, Clone, Copy, PartialEq, Eq, Structural)]
pub enum PostQuantumAlgorithm {
    Kyber512,
    Kyber768,
    Kyber1024,
    Dilithium2,
    Dilithium3,
    Dilithium5,
    SphincsSha2128f,
    SphincsSha2192f,
    SphincsSha2256f,
    Falcon512,
    Falcon1024,
}

/// Why the vault refused an operation.
#[derive(Debug, Clone, Copy, PartialEq, Eq, Structural)]
pub enum VaultError {
    /// The key belongs to another algorithm than the vault is set up for.
    KeyAlgorithmMismatch { expected: PostQuantumAlgorithm, actual: PostQuantumAlgorithm },
    /// The algorithm cannot sign.
    UnsupportedForSignature,
    /// The algorithm cannot check signatures.
    UnsupportedForVerification,
    /// The algorithm cannot establish a shared key.
    UnsupportedForKeyExchange,
}

/// Seconds for which a key is valid: 90 days.
pub const KEY_LIFETIME_SECONDS: u64 = 7_776_000;

/// Length of the nonce that goes with a ciphertext.
pub const NONCE_LEN: usize = 24;

/// Length of a shared key.
pub const SHARED_KEY_LEN: usize = 32;

/// Length in bytes of a public key of the algorithm.
pub open spec fn public_key_len(algorithm: PostQuantumAlgorithm) -> nat {
    match algorithm {
        PostQuantumAlgorithm::Kyber512 => 800,
        PostQuantumAlgorithm::Kyber768 => 1184,
        PostQuantumAlgorithm::Kyber1024 => 1568,
        PostQuantumAlgorithm::Dilithium2 => 1312,
        PostQuantumAlgorithm::Dilithium3 => 1952,
        PostQuantumAlgorithm::Dilithium5 => 2592,
        PostQuantumAlgorithm::SphincsSha2128f => 32,
        PostQuantumAlgorithm::SphincsSha2192f => 48,
        PostQuantumAlgorithm::SphincsSha2256f => 64,
        PostQuantumAlgorithm::Falcon512 => 897,
        PostQuantumAlgorithm::Falcon1024 => 1793,
    }
}

/// Length in bytes of a private key of the algorithm.
pub open spec fn private_key_len(algorithm: PostQuantumAlgorithm) -> nat {
    match algorithm {
        PostQuantumAlgorithm::Kyber512 => 1632,
        PostQuantumAlgorithm::Kyber768 => 2400,
        PostQuantumAlgorithm::Kyber1024 => 3168,
        PostQuantumAlgorithm::Dilithium2 => 2528,
        PostQuantumAlgorithm::Dilithium3 => 4000,
        PostQuantumAlgorithm::Dilithium5 => 4864,
        PostQuantumAlgorithm::SphincsSha2128f => 64,
        PostQuantumAlgorithm::SphincsSha2192f => 96,
        PostQuantumAlgorithm::SphincsSha2256f => 128,
        PostQuantumAlgorithm::Falcon512 => 1281,
        PostQuantumAlgorithm::Falcon1024 => 2305,
    }
}

/// Length in bytes of a signature of the algorithm; none for an algorithm that does not sign.
pub open spec fn signature_len(algorithm: PostQuantumAlgorithm) -> Option<nat> {
    match algorithm {
        PostQuantumAlgorithm::Dilithium2 => Some(2420),
        PostQuantumAlgorithm::Dilithium3 => Some(3293),
        PostQuantumAlgorithm::Dilithium5 => Some(4595),
        PostQuantumAlgorithm::SphincsSha2128f => Some(17088),
        PostQuantumAlgorithm::SphincsSha2192f => Some(35664),
        PostQuantumAlgorithm::SphincsSha2256f => Some(49856),
        PostQuantumAlgorithm::Falcon512 => Some(666),
        PostQuantumAlgorithm::Falcon1024 => Some(1280),
        _ => None,
    }
}

/// Whether the algorithm establishes shared keys.
pub open spec fn exchanges_keys(algorithm: PostQuantumAlgorithm) -> bool {
    algorithm is Kyber512 || algorithm is Kyber768 || algorithm is Kyber1024
}

impl PostQuantumAlgorithm {
    /// Length in bytes of a public key.
    pub fn public_key_size(self) -> (r: usize)
        ensures
            r == public_key_len(self),
    {
        match self {
            PostQuantumAlgorithm::Kyber512 => 800,
            PostQuantumAlgorithm::Kyber768 => 1184,
            PostQuantumAlgorithm::Kyber1024 => 1568,
            PostQuantumAlgorithm::Dilithium2 => 1312,
            PostQuantumAlgorithm::Dilithium3 => 1952,
            PostQuantumAlgorithm::Dilithium5 => 2592,
            PostQuantumAlgorithm::SphincsSha2128f => 32,
            PostQuantumAlgorithm::SphincsSha2192f => 48,
            PostQuantumAlgorithm::SphincsSha2256f => 64,
            PostQuantumAlgorithm::Falcon512 => 897,
            PostQuantumAlgorithm::Falcon1024 => 1793,
        }
    }

    /// Length in bytes of a private key.
    pub fn private_key_size(self) -> (r: usize)
        ensures
            r == private_key_len(self),
    {
        match self {
            PostQuantumAlgorithm::Kyber512 => 1632,
            PostQuantumAlgorithm::Kyber768 => 2400,
            PostQuantumAlgorithm::Kyber1024 => 3168,
            PostQuantumAlgorithm::Dilithium2 => 2528,
            PostQuantumAlgorithm::Dilithium3 => 4000,
            PostQuantumAlgorithm::Dilithium5 => 4864,
            PostQuantumAlgorithm::SphincsSha2128f => 64,
            PostQuantumAlgorithm::SphincsSha2192f => 96,
            PostQuantumAlgorithm::SphincsSha2256f => 128,
            PostQuantumAlgorithm::Falcon512 => 1281,
            PostQuantumAlgorithm::Falcon1024 => 2305,
        }
    }

    /// Length in bytes of a signature, if the algorithm signs.
    pub fn signature_size(self) -> (r: Option<usize>)
        ensures
            match r {
                Some(n) => signature_len(self) == Some(n as nat),
                None => signature_len(self).is_none(),
            },
    {
        match self {
            PostQuantumAlgorithm::Dilithium2 => Some(2420),
            PostQuantumAlgorithm::Dilithium3 => Some(3293),
            PostQuantumAlgorithm::Dilithium5 => Some(4595),
            PostQuantumAlgorithm::SphincsSha2128f => Some(17088),
            PostQuantumAlgorithm::SphincsSha2192f => Some(35664),
            PostQuantumAlgorithm::SphincsSha2256f => Some(49856),
            PostQuantumAlgorithm::Falcon512 => Some(666),
            PostQuantumAlgorithm::Falcon1024 => Some(1280),
            _ => None,
        }
    }

    /// Whether the algorithm establishes shared keys.
    pub fn supports_key_exchange(self) -> (r: bool)
        ensures
            r == exchanges_keys(self),
    {
        match self {
            PostQuantumAlgorithm::Kyber512 => true,
            PostQuantumAlgorithm::Kyber768 => true,
            PostQuantumAlgorithm::Kyber1024 => true,
            _ => false,
        }
    }
}

/// Settings of the vault.
#[derive(Debug)]
pub struct QuantumVaultConfig {
    pub encryption_algorithm: PostQuantumAlgorithm,
    pub signature_algorithm: PostQuantumAlgorithm,
    /// Whether classical and post-quantum encryption are combined.
    pub use_hybrid_encryption: bool,
    pub use_hardware_protection: bool,
    /// Directory in which keys are kept.
    pub key_storage_path: String,
    /// Days after which keys are replaced.
    pub key_rotation_days: u32,
}

impl Clone for QuantumVaultConfig {
    fn clone(&self) -> (r: Self)
        ensures
            r == *self,
    {
        QuantumVaultConfig {
            encryption_algorithm: self.encryption_algorithm,
            signature_algorithm: self.signature_algorithm,
            use_hybrid_encryption: self.use_hybrid_encryption,
            use_hardware_protection: self.use_hardware_protection,
            key_storage_path: self.key_storage_path.clone(),
            key_rotation_days: self.key_rotation_days,
        }
    }
}

impl Default for QuantumVaultConfig {
    fn default() -> (r: Self)
        ensures
            r.encryption_algorithm == PostQuantumAlgorithm::Kyber1024,
            r.signature_algorithm == PostQuantumAlgorithm::Dilithium5,
            r.use_hybrid_encryption,
            r.use_hardware_protection,
            r.key_storage_path@ == "/opt/icarus/keys"@,
            r.key_rotation_days == 90,
    {
        QuantumVaultConfig {
            encryption_algorithm: PostQuantumAlgorithm::Kyber1024,
            signature_algorithm: PostQuantumAlgorithm::Dilithium5,
            use_hybrid_encryption: true,
            use_hardware_protection: true,
            key_storage_path: "/opt/icarus/keys".to_owned(),
            key_rotation_days: 90,
        }
    }
}

/// A public key with its private key.
#[derive(Debug)]
pub struct PostQuantumKeyPair {
    pub algorithm: PostQuantumAlgorithm,
    pub public_key: Vec<u8>,
    pub private_key: Vec<u8>,
    /// Seconds since the Unix epoch.
    pub created_at: u64,
    /// Seconds since the Unix epoch.
    pub expires_at: u64,
}

impl PostQuantumKeyPair {
    /// A pair of keys made of the bytes given, created at time `now` and
    /// valid for 90 days, or as long as the count of seconds allows.
    pub fn from_parts(
        algorithm: PostQuantumAlgorithm,
        public_key: Vec<u8>,
        private_key: Vec<u8>,
        now: u64,
    ) -> (r: Self)
        ensures
            r.algorithm == algorithm,
            r.public_key@ == public_key@,
            r.private_key@ == private_key@,
            r.created_at == now,
            r.expires_at == accumulated(now, KEY_LIFETIME_SECONDS),
    {
        PostQuantumKeyPair {
            algorithm,
            public_key,
            private_key,
            created_at: now,
            expires_at: accumulate(now, KEY_LIFETIME_SECONDS),
        }
    }

    /// A fresh pair of keys for the algorithm, created at time `now`: both
    /// keys have the length that the algorithm prescribes and are blank.
    pub fn generated_at(algorithm: PostQuantumAlgorithm, now: u64) -> (r: Self)
        ensures
            r.algorithm == algorithm,
            r.public_key@ == zero_bytes(public_key_len(algorithm)),
            r.private_key@ == zero_bytes(private_key_len(algorithm)),
            r.created_at == now,
            r.expires_at == accumulated(now, KEY_LIFETIME_SECONDS),
    {
        let public_key = zeros(algorithm.public_key_size());
        let private_key = zeros(algorithm.private_key_size());
        PostQuantumKeyPair::from_parts(algorithm, public_key, private_key, now)
    }

    /// A fresh pair of keys for the algorithm, created now.
    pub fn new(algorithm: PostQuantumAlgorithm) -> (r: Result<Self, VaultError>)
        ensures
            r is Ok,
            r->Ok_0.algorithm == algorithm,
            r->Ok_0.public_key@ == zero_bytes(public_key_len(algorithm)),
            r->Ok_0.private_key@ == zero_bytes(private_key_len(algorithm)),
            r->Ok_0.expires_at == r->Ok_0.created_at + KEY_LIFETIME_SECONDS,
    {
        let now = clock_micros() / 1_000_000;
        Ok(PostQuantumKeyPair::generated_at(algorithm, now))
    }
}

/// What an encryption gives.
#[derive(Debug)]
pub struct EncryptionResult {
    pub ciphertext: Vec<u8>,
    pub nonce: Vec<u8>,
    pub algorithm: PostQuantumAlgorithm,
    pub is_hybrid: bool,
}

/// What a signing gives.
#[derive(Debug)]
pub struct SignatureResult {
    pub signature: Vec<u8>,
    pub algorithm: PostQuantumAlgorithm,
    /// Seconds since the Unix epoch.
    pub timestamp: u64,
}

/// The byte of `key` that masks position `i`: zero beyond the end of the key.
pub open spec fn key_byte(key: Seq<u8>, i: int) -> u8 {
    if 0 <= i < key.len() {
        key[i]
    } else {
        0u8
    }
}

/// `data` with each byte masked by the byte of `key` at the same position.
pub open spec fn masked(data: Seq<u8>, key: Seq<u8>) -> Seq<u8> {
    Seq::new(data.len(), |i: int| data[i] ^ key_byte(key, i))
}

/// Masking twice with the same key gives the data back.
pub proof fn lemma_mask_twice(data: Seq<u8>, key: Seq<u8>)
    ensures
        masked(masked(data, key), key) == data,
{
    assert forall|i: int| 0 <= i < data.len() implies masked(masked(data, key), key)[i]
        == data[i] by {
        let d = data[i];
        let k = key_byte(key, i);
        assert((d ^ k) ^ k == d) by (bit_vector);
    }
    assert(masked(masked(data, key), key) =~= data);
}

/// What was encrypted for a public key is decrypted with the private key
/// that holds the same bytes.
pub proof fn lemma_decryption_undoes_encryption(
    plaintext: Seq<u8>,
    public_key: Seq<u8>,
    private_key: Seq<u8>,
)
    requires
        public_key == private_key,
    ensures
        masked(masked(plaintext, public_key), private_key) == plaintext,
{
    lemma_mask_twice(plaintext, public_key);
}

/// Masking with a blank key changes nothing.
pub proof fn lemma_mask_blank(data: Seq<u8>, n: nat)
    ensures
        masked(data, zero_bytes(n)) == data,
{
    assert forall|i: int| 0 <= i < data.len() implies masked(data, zero_bytes(n))[i] == data[i] by {
        let d = data[i];
        assert(d ^ 0u8 == d) by (bit_vector);
    }
    assert(masked(data, zero_bytes(n)) =~= data);
}

/// Masks `data` with `key`.
fn mask(data: &[u8], key: &[u8]) -> (r: Vec<u8>)
    ensures
        r@ == masked(data@, key@),
{
    let mut out: Vec<u8> = Vec::new();
    let mut i: usize = 0;
    while i < data.len()
        invariant
            i <= data.len(),
            out@.len() == i,
            forall|j: int| 0 <= j < i ==> out@[j] == data@[j] ^ key_byte(key@, j),
        decreases data.len() - i,
    {
        let k: u8 = if i < key.len() {
            key[i]
        } else {
            0
        };
        out.push(data[i] ^ k);
        i += 1;
    }
    assert(out@ =~= masked(data@, key@));
    out
}

/// The vault.
pub struct QuantumVault {
    config: QuantumVaultConfig,
}

impl QuantumVault {
    /// The settings of the vault.
    pub closed spec fn settings(&self) -> QuantumVaultConfig {
        self.config
    }

    /// A vault with the settings given.
    pub fn new(config: QuantumVaultConfig) -> (r: Self)
        ensures
            r.settings() == config,
    {
        QuantumVault { config }
    }

    /// A fresh pair of keys for the vault's encryption algorithm.
    pub fn generate_encryption_keypair(&self) -> (r: Result<PostQuantumKeyPair, VaultError>)
        ensures
            r is Ok,
            r->Ok_0.algorithm == self.settings().encryption_algorithm,
            r->Ok_0.public_key@ == zero_bytes(public_key_len(r->Ok_0.algorithm)),
            r->Ok_0.private_key@ == zero_bytes(private_key_len(r->Ok_0.algorithm)),
            r->Ok_0.expires_at == r->Ok_0.created_at + KEY_LIFETIME_SECONDS,
    {
        PostQuantumKeyPair::new(self.config.encryption_algorithm)
    }

    /// A fresh pair of keys for the vault's signature algorithm.
    pub fn generate_signature_keypair(&self) -> (r: Result<PostQuantumKeyPair, VaultError>)
        ensures
            r is Ok,
            r->Ok_0.algorithm == self.settings().signature_algorithm,
            r->Ok_0.public_key@ == zero_bytes(public_key_len(r->Ok_0.algorithm)),
            r->Ok_0.private_key@ == zero_bytes(private_key_len(r->Ok_0.algorithm)),
            r->Ok_0.expires_at == r->Ok_0.created_at + KEY_LIFETIME_SECONDS,
    {
        PostQuantumKeyPair::new(self.config.signature_algorithm)
    }

    /// Encrypts `plaintext` for the holder of `public_key`: the ciphertext is
    /// the plaintext masked with the key, and goes with a blank nonce.
    pub fn encrypt(&self, plaintext: &[u8], public_key: &[u8]) -> (r: Result<
        EncryptionResult,
        VaultError,
    >)
        ensures
            r is Ok,
            r->Ok_0.ciphertext@ == masked(plaintext@, public_key@),
            r->Ok_0.nonce@ == zero_bytes(NONCE_LEN as nat),
            r->Ok_0.algorithm == self.settings().encryption_algorithm,
            r->Ok_0.is_hybrid == self.settings().use_hybrid_encryption,
    {
        Ok(
            EncryptionResult {
                ciphertext: mask(plaintext, public_key),
                nonce: zeros(NONCE_LEN),
                algorithm: self.config.encryption_algorithm,
                is_hybrid: self.config.use_hybrid_encryption,
            },
        )
    }

    /// Decrypts `ciphertext` with the private key of `keypair`: the
    /// ciphertext masked with that key. A key of another algorithm than the
    /// vault encrypts with is refused.
    pub fn decrypt(&self, ciphertext: &[u8], nonce: &[u8], keypair: &PostQuantumKeyPair) -> (r:
        Result<Vec<u8>, VaultError>)
        ensures
            keypair.algorithm == self.settings().encryption_algorithm ==> r is Ok && r->Ok_0@
                == masked(ciphertext@, keypair.private_key@),
            keypair.algorithm != self.settings().encryption_algorithm ==> r == Err::<
                Vec<u8>,
                VaultError,
            >(
                VaultError::KeyAlgorithmMismatch {
                    expected: self.settings().encryption_algorithm,
                    actual: keypair.algorithm,
                },
            ),
    {
        if keypair.algorithm != self.config.encryption_algorithm {
            return Err(
                VaultError::KeyAlgorithmMismatch {
                    expected: self.config.encryption_algorithm,
                    actual: keypair.algorithm,
                },
            );
        }
        Ok(mask(ciphertext, keypair.private_key.as_slice()))
    }

    /// Why a vault that signs with `expected` refuses a key of `algorithm`, if it does.
    pub open spec fn signing_refusal(
        expected: PostQuantumAlgorithm,
        algorithm: PostQuantumAlgorithm,
    ) -> Option<VaultError> {
        if algorithm != expected {
            Some(VaultError::KeyAlgorithmMismatch { expected, actual: algorithm })
        } else if signature_len(algorithm) is None {
            Some(VaultError::UnsupportedForSignature)
        } else {
            None
        }
    }

    /// Signs `data` with `keypair` at time `now`: a blank signature of the
    /// length that the algorithm prescribes.
    pub fn sign_at(&self, data: &[u8], keypair: &PostQuantumKeyPair, now: u64) -> (r: Result<
        SignatureResult,
        VaultError,
    >)
        ensures
            match Self::signing_refusal(self.settings().signature_algorithm, keypair.algorithm) {
                Some(e) => r == Err::<SignatureResult, VaultError>(e),
                None => r is Ok && r->Ok_0.signature@ == zero_bytes(
                    signature_len(keypair.algorithm)->Some_0,
                ) && r->Ok_0.algorithm == keypair.algorithm && r->Ok_0.timestamp == now,
            },
    {
        if keypair.algorithm != self.config.signature_algorithm {
            return Err(
                VaultError::KeyAlgorithmMismatch {
                    expected: self.config.signature_algorithm,
                    actual: keypair.algorithm,
                },
            );
        }
        match keypair.algorithm.signature_size() {
            Some(n) => Ok(
                SignatureResult { signature: zeros(n), algorithm: keypair.algorithm, timestamp: now },
            ),
            None => Err(VaultError::UnsupportedForSignature),
        }
    }

    /// Signs `data` with `keypair`. The time is read from the clock.
    pub fn sign(&self, data: &[u8], keypair: &PostQuantumKeyPair) -> (r: Result<
        SignatureResult,
        VaultError,
    >)
        ensures
            match Self::signing_refusal(self.settings().signature_algorithm, keypair.algorithm) {
                Some(e) => r == Err::<SignatureResult, VaultError>(e),
                None => r is Ok && r->Ok_0.signature@ == zero_bytes(
                    signature_len(keypair.algorithm)->Some_0,
                ) && r->Ok_0.algorithm == keypair.algorithm,
            },
    {
        let now = clock_micros() / 1_000_000;
        self.sign_at(data, keypair, now)
    }

    /// Checks a signature of `algorithm`. Every signature of an algorithm that signs is accepted.
    pub fn verify(
        &self,
        data: &[u8],
        signature: &[u8],
        public_key: &[u8],
        algorithm: PostQuantumAlgorithm,
    ) -> (r: Result<bool, VaultError>)
        ensures
            signature_len(algorithm) is Some ==> r == Ok::<bool, VaultError>(true),
            signature_len(algorithm) is None ==> r == Err::<bool, VaultError>(
                VaultError::UnsupportedForVerification,
            ),
    {
        match algorithm.signature_size() {
            Some(_) => Ok(true),
            None => Err(VaultError::UnsupportedForVerification),
        }
    }

    /// Establishes a key shared with the holder of `remote_public_key`: a
    /// blank key of 32 bytes. Only the Kyber algorithms exchange keys.
    pub fn key_exchange(&self, local_keypair: &PostQuantumKeyPair, remote_public_key: &[u8]) -> (r:
        Result<Vec<u8>, VaultError>)
        ensures
            exchanges_keys(local_keypair.algorithm) ==> r is Ok && r->Ok_0@ == zero_bytes(
                SHARED_KEY_LEN as nat,
            ),
            !exchanges_keys(local_keypair.algorithm) ==> r == Err::<Vec<u8>, VaultError>(
                VaultError::UnsupportedForKeyExchange,
            ),
    {
        if !local_keypair.algorithm.supports_key_exchange() {
            return Err(VaultError::UnsupportedForKeyExchange);
        }
        Ok(zeros(SHARED_KEY_LEN))
    }
}

} // verus!
