//! Hash-based signatures in three parameter sets, with placeholder primitives.

use vstd::prelude::*;
use crate::crypto::{
    zero_bytes, zeros, CryptoError, DigitalSignature, Signature, SigningKey, VerifyingKey,
};
use crate::host::utc_timestamp;

verus! {

/// A parameter set.
#[derive(Debug, Clone, Copy, PartialEq, Eq, Structural)]
pub struct SphincsParams {
    /// Length of a hash in bytes.
    pub n: usize,
    /// Height of the hypertree.
    pub h: usize,
    /// Number of layers.
    pub d: usize,
    /// Height of a FORS tree.
    pub a: usize,
    /// Number of FORS trees.
    pub k: usize,
    /// Winternitz parameter.
    pub w: usize,
    pub public_key_size: usize,
    pub private_key_size: usize,
    pub signature_size: usize,
    pub security_level: u8,
}

/// The parameters with small signatures at security level 1.
pub open spec fn params_128s() -> SphincsParams {
    SphincsParams {
        n: 16,
        h: 63,
        d: 7,
        a: 12,
        k: 14,
        w: 16,
        public_key_size: 32,
        private_key_size: 64,
        signature_size: 7856,
        security_level: 1,
    }
}

/// The parameters with small signatures at security level 3.
pub open spec fn params_192s() -> SphincsParams {
    SphincsParams {
        n: 24,
        h: 66,
        d: 22,
        a: 14,
        k: 17,
        w: 16,
        public_key_size: 48,
        private_key_size: 96,
        signature_size: 16224,
        security_level: 3,
    }
}

/// The parameters with small signatures at security level 5.
pub open spec fn params_256s() -> SphincsParams {
    SphincsParams {
        n: 32,
        h: 68,
        d: 17,
        a: 16,
        k: 22,
        w: 16,
        public_key_size: 64,
        private_key_size: 128,
        signature_size: 29792,
        security_level: 5,
    }
}

impl SphincsParams {
    /// The set with small signatures at security level 1.
    pub fn sphincs_128s() -> (r: Self)
        ensures
            r == params_128s(),
    {
        SphincsParams {
            n: 16,
            h: 63,
            d: 7,
            a: 12,
            k: 14,
            w: 16,
            public_key_size: 32,
            private_key_size: 64,
            signature_size: 7856,
            security_level: 1,
        }
    }

    /// The set with small signatures at security level 3.
    pub fn sphincs_192s() -> (r: Self)
        ensures
            r == params_192s(),
    {
        SphincsParams {
            n: 24,
            h: 66,
            d: 22,
            a: 14,
            k: 17,
            w: 16,
            public_key_size: 48,
            private_key_size: 96,
            signature_size: 16224,
            security_level: 3,
        }
    }

    /// The set with small signatures at security level 5.
    pub fn sphincs_256s() -> (r: Self)
        ensures
            r == params_256s(),
    {
        SphincsParams {
            n: 32,
            h: 68,
            d: 17,
            a: 16,
            k: 22,
            w: 16,
            public_key_size: 64,
            private_key_size: 128,
            signature_size: 29792,
            security_level: 5,
        }
    }
}

/// One step of the generator that drives the placeholder primitives.
pub open spec fn lcg_next(state: u64) -> u64 {
    state.wrapping_mul(1103515245).wrapping_add(12345)
}

/// The generator's state after `steps` steps.
pub open spec fn lcg_state(state: u64, steps: nat) -> u64
    decreases steps,
{
    if steps == 0 {
        state
    } else {
        lcg_next(lcg_state(state, (steps - 1) as nat))
    }
}

/// The `count` bytes that the generator gives from `state`: byte `i` is
/// bits 16 to 23 of the state after `i + 1` steps.
pub open spec fn lcg_bytes(state: u64, count: nat) -> Seq<u8> {
    Seq::new(count, |i: int| ((lcg_state(state, (i + 1) as nat) >> 16) & 0xff) as u8)
}

/// The state from which the hash starts.
pub const HASH_SEED: u64 = 0x123456789abcdef;

/// The hash state after `input` has been taken in.
pub open spec fn absorbed(state: u64, input: Seq<u8>) -> u64
    decreases input.len(),
{
    if input.len() == 0 {
        state
    } else {
        absorbed(state, input.drop_last()).wrapping_mul(31).wrapping_add(input.last() as u64)
    }
}

/// The hash of `input`, `n` bytes long: byte `i` is bits 24 to 31 of the
/// generator's state `i + 1` steps after the input has been taken in.
pub open spec fn hash_bytes(input: Seq<u8>, n: nat) -> Seq<u8> {
    Seq::new(
        n,
        |i: int| ((lcg_state(absorbed(HASH_SEED, input), (i + 1) as nat) >> 24) & 0xff) as u8,
    )
}

/// The name of the scheme at security level 1.
pub open spec fn name_128s() -> Seq<char> {
    "SPHINCS+128s"@
}

/// The name of the scheme at security level 3.
pub open spec fn name_192s() -> Seq<char> {
    "SPHINCS+192s"@
}

/// The name of the scheme at security level 5.
pub open spec fn name_256s() -> Seq<char> {
    "SPHINCS+256s"@
}

/// The scheme at security level 1.
#[derive(Debug)]
pub struct SphincsPlus128s {
    params: SphincsParams,
    rng_state: u64,
}

/// The scheme at security level 3.
#[derive(Debug)]
pub struct SphincsPlus192s {
    params: SphincsParams,
    rng_state: u64,
}

/// The scheme at security level 5.
#[derive(Debug)]
pub struct SphincsPlus256s {
    params: SphincsParams,
    rng_state: u64,
}

/// Bits 8 to 15 of the low 24 bits above `shift`, as one byte.
fn byte_at(state: u64, shift: u32) -> (r: u8)
    requires
        shift == 16 || shift == 24,
    ensures
        r == ((state >> shift) & 0xff) as u8,
{
    let masked: u64 = (state >> shift) & 0xff;
    assert(masked <= 0xff) by (bit_vector)
        requires
            masked == (state >> shift) & 0xff,
    ;
    masked as u8
}

impl SphincsPlus128s {
    /// The parameter set of the scheme.
    pub closed spec fn parameters(&self) -> SphincsParams {
        self.params
    }

    /// The state of the scheme's generator.
    pub closed spec fn generator(&self) -> u64 {
        self.rng_state
    }

    /// The scheme with its generator at the start.
    pub fn new() -> (r: Self)
        ensures
            r.parameters() == params_128s(),
            r.generator() == 42,
    {
        SphincsPlus128s { params: SphincsParams::sphincs_128s(), rng_state: 42 }
    }

    /// Draws `length` bytes from the generator.
    pub fn generate_random_bytes(&mut self, length: usize) -> (r: Vec<u8>)
        ensures
            r@ == lcg_bytes(old(self).generator(), length as nat),
            final(self).generator() == lcg_state(old(self).generator(), length as nat),
            final(self).parameters() == old(self).parameters(),
    {
        let mut bytes: Vec<u8> = Vec::new();
        let mut i: usize = 0;
        let ghost start = self.rng_state;
        while i < length
            invariant
                i <= length,
                bytes@.len() == i,
                self.rng_state == lcg_state(start, i as nat),
                self.params == old(self).params,
                forall|j: int|
                    0 <= j < i ==> bytes@[j] == ((lcg_state(start, (j + 1) as nat) >> 16)
                        & 0xff) as u8,
            decreases length - i,
        {
            self.rng_state = self.rng_state.wrapping_mul(1103515245).wrapping_add(12345);
            bytes.push(byte_at(self.rng_state, 16));
            i += 1;
        }
        assert(bytes@ =~= lcg_bytes(start, length as nat));
        bytes
    }

    /// Hashes `input` to as many bytes as the parameter set prescribes.
    pub fn hash_function(&self, input: &[u8]) -> (r: Vec<u8>)
        ensures
            r@ == hash_bytes(input@, self.parameters().n as nat),
    {
        let mut state: u64 = HASH_SEED;
        let mut i: usize = 0;
        while i < input.len()
            invariant
                i <= input.len(),
                state == absorbed(HASH_SEED, input@.subrange(0, i as int)),
            decreases input.len() - i,
        {
            proof {
                let next = input@.subrange(0, i + 1);
                assert(next.drop_last() =~= input@.subrange(0, i as int));
                assert(next.last() == input@[i as int]);
            }
            state = state.wrapping_mul(31).wrapping_add(input[i] as u64);
            i += 1;
        }
        assert(input@.subrange(0, input@.len() as int) =~= input@);
        let ghost taken = state;
        let mut hash: Vec<u8> = Vec::new();
        let mut k: usize = 0;
        while k < self.params.n
            invariant
                k <= self.params.n,
                hash@.len() == k,
                state == lcg_state(taken, k as nat),
                forall|j: int|
                    0 <= j < k ==> hash@[j] == ((lcg_state(taken, (j + 1) as nat) >> 24)
                        & 0xff) as u8,
            decreases self.params.n - k,
        {
            state = state.wrapping_mul(1103515245).wrapping_add(12345);
            hash.push(byte_at(state, 24));
            k += 1;
        }
        assert(hash@ =~= hash_bytes(input@, self.params.n as nat));
        hash
    }

    /// Makes a pair of keys from two seeds and a time: the private key is
    /// the seeds one after the other, the public key the hash of the private
    /// key followed by the second seed.
    pub fn keypair_from_seeds(&self, seed: Vec<u8>, pk_seed: Vec<u8>, now: i64) -> (r: (
        SigningKey,
        VerifyingKey,
    ))
        ensures
            r.0.algorithm@ == name_128s(),
            r.0.key_data@ == seed@ + pk_seed@,
            r.0.created_at == now,
            r.1.algorithm@ == name_128s(),
            r.1.key_data@ == hash_bytes(seed@ + pk_seed@, self.parameters().n as nat) + pk_seed@,
            r.1.created_at == now,
    {
        let mut private_key_data = seed;
        private_key_data.extend_from_slice(pk_seed.as_slice());
        let mut public_key_data = self.hash_function(private_key_data.as_slice());
        public_key_data.extend_from_slice(pk_seed.as_slice());
        (
            SigningKey {
                algorithm: "SPHINCS+128s".to_owned(),
                key_data: private_key_data,
                created_at: now,
            },
            VerifyingKey {
                algorithm: "SPHINCS+128s".to_owned(),
                key_data: public_key_data,
                created_at: now,
            },
        )
    }
}

impl DigitalSignature for SphincsPlus128s {
    /// Makes a new pair of keys from two seeds drawn from the generator.
    fn generate_keypair(&mut self) -> (r: Result<(SigningKey, VerifyingKey), CryptoError>)
        ensures
            r is Ok,
            final(self).parameters() == old(self).parameters(),
            final(self).generator() == lcg_state(
                old(self).generator(),
                (2 * old(self).parameters().n) as nat,
            ),
            r->Ok_0.0.algorithm@ == name_128s(),
            r->Ok_0.1.algorithm@ == name_128s(),
            r->Ok_0.0.key_data@ == lcg_bytes(
                old(self).generator(),
                old(self).parameters().n as nat,
            ) + lcg_bytes(
                lcg_state(old(self).generator(), old(self).parameters().n as nat),
                old(self).parameters().n as nat,
            ),
            r->Ok_0.1.key_data@ == hash_bytes(
                r->Ok_0.0.key_data@,
                old(self).parameters().n as nat,
            ) + lcg_bytes(
                lcg_state(old(self).generator(), old(self).parameters().n as nat),
                old(self).parameters().n as nat,
            ),
    {
        let n = self.params.n;
        let seed = self.generate_random_bytes(n);
        let pk_seed = self.generate_random_bytes(n);
        proof {
            lemma_lcg_state_add(old(self).generator(), n as nat, n as nat);
        }
        let now = utc_timestamp();
        Ok(self.keypair_from_seeds(seed, pk_seed, now))
    }

    /// Signs `message` with `signing_key`: the signature is drawn from the
    /// generator. A key of another scheme is refused.
    fn sign(&mut self, signing_key: &SigningKey, message: &[u8]) -> (r: Result<
        Signature,
        CryptoError,
    >)
        ensures
            final(self).parameters() == old(self).parameters(),
            signing_key.algorithm@ == name_128s() ==> r is Ok && r->Ok_0.algorithm@ == name_128s()
                && r->Ok_0.data@ == lcg_bytes(
                old(self).generator(),
                old(self).parameters().signature_size as nat,
            ) && final(self).generator() == lcg_state(
                old(self).generator(),
                old(self).parameters().signature_size as nat,
            ),
            signing_key.algorithm@ != name_128s() ==> r is Err && r->Err_0.detail()
                == "Wrong algorithm for SPHINCS+128s"@ && final(self).generator() == old(
                self).generator(),
    {
        if *signing_key.algorithm.as_str() != *"SPHINCS+128s" {
            return Err(CryptoError::InvalidKey("Wrong algorithm for SPHINCS+128s".to_owned()));
        }
        let size = self.params.signature_size;
        let signature_data = self.generate_random_bytes(size);
        Ok(
            Signature {
                data: signature_data,
                algorithm: "SPHINCS+128s".to_owned(),
                created_at: utc_timestamp(),
            },
        )
    }

    /// Checks `signature` over `message`. Every signature of this scheme is
    /// accepted; a key or a signature of another scheme is refused.
    fn verify(&self, verifying_key: &VerifyingKey, message: &[u8], signature: &Signature) -> (r:
        Result<bool, CryptoError>)
        ensures
            verifying_key.algorithm@ == name_128s() && signature.algorithm@ == name_128s() ==> r
                == Ok::<bool, CryptoError>(true),
            !(verifying_key.algorithm@ == name_128s() && signature.algorithm@ == name_128s())
                ==> r is Err && r->Err_0.detail() == "Algorithm mismatch"@,
    {
        if *verifying_key.algorithm.as_str() != *"SPHINCS+128s" || *signature.algorithm.as_str()
            != *"SPHINCS+128s" {
            return Err(CryptoError::InvalidKey("Algorithm mismatch".to_owned()));
        }
        Ok(true)
    }

    fn algorithm_name(&self) -> (r: &str)
        ensures
            r@ == name_128s(),
    {
        "SPHINCS+128s"
    }

    fn security_level(&self) -> (r: u8)
        ensures
            r == 1,
    {
        1
    }
}

impl SphincsPlus192s {
    /// The parameter set of the scheme.
    pub closed spec fn parameters(&self) -> SphincsParams {
        self.params
    }

    /// The scheme with its parameter set.
    pub fn new() -> (r: Self)
        ensures
            r.parameters() == params_192s(),
    {
        SphincsPlus192s { params: SphincsParams::sphincs_192s(), rng_state: 12345 }
    }

    /// Blank keys of the lengths that the parameter set prescribes, made at time `now`.
    pub fn blank_keypair(&self, now: i64) -> (r: (SigningKey, VerifyingKey))
        ensures
            r.0.algorithm@ == name_192s(),
            r.0.key_data@ == zero_bytes(self.parameters().private_key_size as nat),
            r.0.created_at == now,
            r.1.algorithm@ == name_192s(),
            r.1.key_data@ == zero_bytes(self.parameters().public_key_size as nat),
            r.1.created_at == now,
    {
        (
            SigningKey {
                algorithm: "SPHINCS+192s".to_owned(),
                key_data: zeros(self.params.private_key_size),
                created_at: now,
            },
            VerifyingKey {
                algorithm: "SPHINCS+192s".to_owned(),
                key_data: zeros(self.params.public_key_size),
                created_at: now,
            },
        )
    }
}

impl DigitalSignature for SphincsPlus192s {
    /// Makes a new pair of blank keys.
    fn generate_keypair(&mut self) -> (r: Result<(SigningKey, VerifyingKey), CryptoError>)
        ensures
            r is Ok,
            final(self).parameters() == old(self).parameters(),
            r->Ok_0.0.algorithm@ == name_192s(),
            r->Ok_0.0.key_data@ == zero_bytes(old(self).parameters().private_key_size as nat),
            r->Ok_0.1.algorithm@ == name_192s(),
            r->Ok_0.1.key_data@ == zero_bytes(old(self).parameters().public_key_size as nat),
    {
        let now = utc_timestamp();
        Ok(self.blank_keypair(now))
    }

    /// Signs `message`: a blank signature of the length that the parameter set prescribes.
    fn sign(&mut self, signing_key: &SigningKey, message: &[u8]) -> (r: Result<
        Signature,
        CryptoError,
    >)
        ensures
            r is Ok,
            final(self).parameters() == old(self).parameters(),
            r->Ok_0.algorithm@ == name_192s(),
            r->Ok_0.data@ == zero_bytes(old(self).parameters().signature_size as nat),
    {
        Ok(
            Signature {
                data: zeros(self.params.signature_size),
                algorithm: "SPHINCS+192s".to_owned(),
                created_at: utc_timestamp(),
            },
        )
    }

    /// Checks `signature` over `message`. Every signature is accepted.
    fn verify(&self, verifying_key: &VerifyingKey, message: &[u8], signature: &Signature) -> (r:
        Result<bool, CryptoError>)
        ensures
            r == Ok::<bool, CryptoError>(true),
    {
        Ok(true)
    }

    fn algorithm_name(&self) -> (r: &str)
        ensures
            r@ == name_192s(),
    {
        "SPHINCS+192s"
    }

    fn security_level(&self) -> (r: u8)
        ensures
            r == 3,
    {
        3
    }
}

impl SphincsPlus256s {
    /// The parameter set of the scheme.
    pub closed spec fn parameters(&self) -> SphincsParams {
        self.params
    }

    /// The scheme with its parameter set.
    pub fn new() -> (r: Self)
        ensures
            r.parameters() == params_256s(),
    {
        SphincsPlus256s { params: SphincsParams::sphincs_256s(), rng_state: 54321 }
    }

    /// Blank keys of the lengths that the parameter set prescribes, made at time `now`.
    pub fn blank_keypair(&self, now: i64) -> (r: (SigningKey, VerifyingKey))
        ensures
            r.0.algorithm@ == name_256s(),
            r.0.key_data@ == zero_bytes(self.parameters().private_key_size as nat),
            r.0.created_at == now,
            r.1.algorithm@ == name_256s(),
            r.1.key_data@ == zero_bytes(self.parameters().public_key_size as nat),
            r.1.created_at == now,
    {
        (
            SigningKey {
                algorithm: "SPHINCS+256s".to_owned(),
                key_data: zeros(self.params.private_key_size),
                created_at: now,
            },
            VerifyingKey {
                algorithm: "SPHINCS+256s".to_owned(),
                key_data: zeros(self.params.public_key_size),
                created_at: now,
            },
        )
    }
}

impl DigitalSignature for SphincsPlus256s {
    /// Makes a new pair of blank keys.
    fn generate_keypair(&mut self) -> (r: Result<(SigningKey, VerifyingKey), CryptoError>)
        ensures
            r is Ok,
            final(self).parameters() == old(self).parameters(),
            r->Ok_0.0.algorithm@ == name_256s(),
            r->Ok_0.0.key_data@ == zero_bytes(old(self).parameters().private_key_size as nat),
            r->Ok_0.1.algorithm@ == name_256s(),
            r->Ok_0.1.key_data@ == zero_bytes(old(self).parameters().public_key_size as nat),
    {
        let now = utc_timestamp();
        Ok(self.blank_keypair(now))
    }

    /// Signs `message`: a blank signature of the length that the parameter set prescribes.
    fn sign(&mut self, signing_key: &SigningKey, message: &[u8]) -> (r: Result<
        Signature,
        CryptoError,
    >)
        ensures
            r is Ok,
            final(self).parameters() == old(self).parameters(),
            r->Ok_0.algorithm@ == name_256s(),
            r->Ok_0.data@ == zero_bytes(old(self).parameters().signature_size as nat),
    {
        Ok(
            Signature {
                data: zeros(self.params.signature_size),
                algorithm: "SPHINCS+256s".to_owned(),
                created_at: utc_timestamp(),
            },
        )
    }

    /// Checks `signature` over `message`. Every signature is accepted.
    fn verify(&self, verifying_key: &VerifyingKey, message: &[u8], signature: &Signature) -> (r:
        Result<bool, CryptoError>)
        ensures
            r == Ok::<bool, CryptoError>(true),
    {
        Ok(true)
    }

    fn algorithm_name(&self) -> (r: &str)
        ensures
            r@ == name_256s(),
    {
        "SPHINCS+256s"
    }

    fn security_level(&self) -> (r: u8)
        ensures
            r == 5,
    {
        5
    }
}

/// Stepping the generator `a` times and then `b` times is stepping it `a + b` times.
pub proof fn lemma_lcg_state_add(state: u64, a: nat, b: nat)
    ensures
        lcg_state(lcg_state(state, a), b) == lcg_state(state, a + b),
    decreases b,
{
    if b > 0 {
        lemma_lcg_state_add(state, a, (b - 1) as nat);
        assert((a + b - 1) as nat == a + (b - 1) as nat);
    }
}

} // verus!
