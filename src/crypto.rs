use vstd::prelude::*;
use crate::error::BlockError;
use ed25519_dalek::{Signer, Verifier};
use sha2::Digest;

verus! {

/// Length in bytes of a content digest.
pub const DIGEST_LEN: usize = 32;

/// Length in bytes of a secret or public signing key.
pub const KEY_LEN: usize = 32;

/// Length in bytes of a signature.
pub const SIGNATURE_LEN: usize = 64;

/// The SHA-256 digest of a byte sequence.
pub uninterp spec fn sha256_of(m: Seq<u8>) -> Seq<u8>;

/// The Ed25519 signature that the secret key (seed) `sk` makes over `m`.
pub uninterp spec fn ed25519_signature_of(sk: Seq<u8>, m: Seq<u8>) -> Seq<u8>;

/// Whether Ed25519 accepts `sig` as a signature by public key `pk` over `m`.
pub uninterp spec fn ed25519_accepts(pk: Seq<u8>, m: Seq<u8>, sig: Seq<u8>) -> bool;

/// Relies on sha2::Sha256::digest: a 32-byte digest that depends on the message alone.
#[verifier::external_body]
pub(crate) fn sha256(m: &[u8]) -> (r: Vec<u8>)
    ensures
        r@ == sha256_of(m@),
        r@.len() == DIGEST_LEN,
{
    sha2::Sha256::digest(m).to_vec()
}

/// Relies on ed25519_dalek::SigningKey::sign: a deterministic 64-byte signature
/// made from the 32-byte seed and the message.
#[verifier::external_body]
pub(crate) fn ed25519_sign(sk: &[u8], m: &[u8]) -> (r: Vec<u8>)
    requires
        sk@.len() == KEY_LEN,
    ensures
        r@ == ed25519_signature_of(sk@, m@),
        r@.len() == SIGNATURE_LEN,
{
    let seed: [u8; 32] = sk.try_into().unwrap();
    ed25519_dalek::SigningKey::from_bytes(&seed).sign(m).to_bytes().to_vec()
}

/// Relies on ed25519_dalek::VerifyingKey::from_bytes and its `verify`: whether
/// the signature is valid for the key and message; a key that is not a curve
/// point is refused.
#[verifier::external_body]
pub(crate) fn ed25519_verify(pk: &[u8], m: &[u8], sig: &[u8]) -> (r: bool)
    requires
        pk@.len() == KEY_LEN,
        sig@.len() == SIGNATURE_LEN,
    ensures
        r == ed25519_accepts(pk@, m@, sig@),
{
    let key: [u8; 32] = pk.try_into().unwrap();
    let sig: [u8; 64] = sig.try_into().unwrap();
    match ed25519_dalek::VerifyingKey::from_bytes(&key) {
        Ok(k) => k.verify(m, &ed25519_dalek::Signature::from_bytes(&sig)).is_ok(),
        Err(_) => false,
    }
}

/// Relies on ed25519_dalek::SigningKey::verifying_key: the public key of a
/// 32-byte seed, under which every signature made with that seed verifies.
#[verifier::external_body]
pub(crate) fn ed25519_public_key(sk: &[u8]) -> (r: Vec<u8>)
    requires
        sk@.len() == KEY_LEN,
    ensures
        r@.len() == KEY_LEN,
        forall|m: Seq<u8>| #[trigger] ed25519_accepts(r@, m, ed25519_signature_of(sk@, m)),
{
    let seed: [u8; 32] = sk.try_into().unwrap();
    ed25519_dalek::SigningKey::from_bytes(&seed).verifying_key().to_bytes().to_vec()
}

/// Relies on rand::random: 32 bytes from the thread-local generator; nothing
/// is known of their values.
#[verifier::external_body]
pub(crate) fn random_seed() -> (r: Vec<u8>)
    ensures
        r@.len() == KEY_LEN,
{
    rand::random::<[u8; 32]>().to_vec()
}

/// Whether two byte sequences are equal.
pub fn bytes_eq(a: &[u8], b: &[u8]) -> (r: bool)
    ensures
        r == (a@ == b@),
{
    if a.len() != b.len() {
        return false;
    }
    let mut i: usize = 0;
    while i < a.len()
        invariant
            a@.len() == b@.len(),
            0 <= i <= a@.len(),
            forall|k: int| 0 <= k < i ==> a@[k] == b@[k],
        decreases a@.len() - i,
    {
        if a[i] != b[i] {
            return false;
        }
        i = i + 1;
    }
    assert(a@ =~= b@);
    true
}

/// A fresh vector holding the same bytes.
pub fn copy_bytes(b: &[u8]) -> (r: Vec<u8>)
    ensures
        r@ == b@,
{
    let mut r: Vec<u8> = Vec::with_capacity(b.len());
    let mut i: usize = 0;
    while i < b.len()
        invariant
            0 <= i <= b@.len(),
            r@ == b@.subrange(0, i as int),
        decreases b@.len() - i,
    {
        r.push(b[i]);
        i = i + 1;
        assert(r@ =~= b@.subrange(0, i as int));
    }
    assert(r@ =~= b@);
    r
}

/// What decoding yields from raw bytes: the digest when the length is right.
pub open spec fn digest_decoding(b: Seq<u8>) -> Option<Seq<u8>> {
    if b.len() == DIGEST_LEN {
        Some(b)
    } else {
        None
    }
}

/// Decoding refuses every byte string whose length is not the digest length,
/// and a digest decoded from bytes of the right length gives those same bytes
/// back when encoded.
pub proof fn lemma_digest_codec_round_trip(b: Seq<u8>)
    ensures
        b.len() != DIGEST_LEN ==> digest_decoding(b) is None,
        b.len() == DIGEST_LEN ==> digest_decoding(b) == Some(b),
{
}

/// A content digest: exactly `DIGEST_LEN` bytes, compared byte for byte.
#[derive(Debug)]
pub struct HashDigest {
    bytes: Vec<u8>,
}

impl View for HashDigest {
    type V = Seq<u8>;

    closed spec fn view(&self) -> Seq<u8> {
        self.bytes@
    }
}

impl HashDigest {
    #[verifier::type_invariant]
    spec fn well_formed(self) -> bool {
        self.bytes@.len() == DIGEST_LEN
    }

    /// Decodes raw bytes; fails when their length is not the digest length.
    pub fn from_bytes(b: &[u8]) -> (r: Result<HashDigest, BlockError>)
        ensures
            r is Ok <==> b@.len() == DIGEST_LEN,
            r matches Ok(d) ==> Some(d@) == digest_decoding(b@),
            r matches Err(e) ==> e == (BlockError::MalformedDigest { len: b@.len() as usize }),
    {
        if b.len() != DIGEST_LEN {
            return Err(BlockError::MalformedDigest { len: b.len() });
        }
        Ok(HashDigest { bytes: copy_bytes(b) })
    }

    /// The all-zero digest, which stands for "no predecessor".
    pub fn zero() -> (r: HashDigest)
        ensures
            r@ == Seq::new(DIGEST_LEN as nat, |i: int| 0u8),
    {
        let mut bytes: Vec<u8> = Vec::new();
        while bytes.len() < DIGEST_LEN
            invariant
                bytes@.len() <= DIGEST_LEN,
                forall|k: int| 0 <= k < bytes@.len() ==> bytes@[k] == 0u8,
            decreases DIGEST_LEN - bytes@.len(),
        {
            bytes.push(0u8);
        }
        assert(bytes@ =~= Seq::new(DIGEST_LEN as nat, |i: int| 0u8));
        HashDigest { bytes }
    }

    /// The digest's bytes.
    pub fn to_vec(&self) -> (r: Vec<u8>)
        ensures
            r@ == self@,
            r@.len() == DIGEST_LEN,
    {
        proof {
            use_type_invariant(self);
        }
        self.bytes.clone()
    }

    /// Byte-exact equality of two digests.
    pub fn equals(&self, other: &HashDigest) -> (r: bool)
        ensures
            r == (self@ == other@),
    {
        bytes_eq(self.bytes.as_slice(), other.bytes.as_slice())
    }
}

impl Clone for HashDigest {
    fn clone(&self) -> (r: HashDigest)
        ensures
            r@ == self@,
    {
        proof {
            use_type_invariant(self);
        }
        HashDigest { bytes: copy_bytes(self.bytes.as_slice()) }
    }
}

/// A public signing key, as the bytes that identify it.
#[derive(Debug, Clone, PartialEq, Eq)]
pub struct PublicKey {
    pub bytes: Vec<u8>,
}

impl View for PublicKey {
    type V = Seq<u8>;

    open spec fn view(&self) -> Seq<u8> {
        self.bytes@
    }
}

/// A secret signing key: a seed of `KEY_LEN` bytes.
pub struct SecretKey {
    bytes: Vec<u8>,
}

impl View for SecretKey {
    type V = Seq<u8>;

    closed spec fn view(&self) -> Seq<u8> {
        self.bytes@
    }
}

impl SecretKey {
    #[verifier::type_invariant]
    spec fn well_formed(self) -> bool {
        self.bytes@.len() == KEY_LEN
    }

    /// The seed's bytes.
    pub fn as_bytes(&self) -> (r: &[u8])
        ensures
            r@ == self@,
            r@.len() == KEY_LEN,
    {
        proof {
            use_type_invariant(self);
        }
        self.bytes.as_slice()
    }
}

/// Whether `pk` and `sk` form a key pair: every signature made with `sk`
/// verifies under `pk`.
pub open spec fn is_key_pair(pk: Seq<u8>, sk: Seq<u8>) -> bool {
    &&& pk.len() == KEY_LEN
    &&& sk.len() == KEY_LEN
    &&& forall|m: Seq<u8>| #[trigger] ed25519_accepts(pk, m, ed25519_signature_of(sk, m))
}

/// Generates a fresh key pair from a random seed.
pub fn gen_keypair() -> (r: (PublicKey, SecretKey))
    ensures
        is_key_pair(r.0@, r.1@),
{
    let seed = random_seed();
    let pk = ed25519_public_key(seed.as_slice());
    (PublicKey { bytes: pk }, SecretKey { bytes: seed })
}

/// The digest of a message (SHA-256).
pub fn hash(m: &[u8]) -> (r: HashDigest)
    ensures
        r@ == sha256_of(m@),
{
    HashDigest { bytes: sha256(m) }
}

} // verus!
