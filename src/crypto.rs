//! Keys and the public-key, symmetric, signature and hash primitives of libsodium that the
//! envelopes and signed hashes use.

use vstd::prelude::*;

verus! {

/// A public key for authenticated encryption.
#[derive(Debug, Clone, Copy, PartialEq, Eq, Hash)]
pub struct PublicKey(pub [u8; 32]);

/// A secret key for authenticated encryption.
#[derive(Debug, Clone, Copy, PartialEq, Eq)]
pub struct SecretKey(pub [u8; 32]);

/// The shared key that one party's secret key and the other's public key give.
#[derive(Debug, Clone, Copy, PartialEq, Eq)]
pub struct PrecomputedKey(pub [u8; 32]);

/// A nonce for authenticated encryption.
#[derive(Debug, Clone, Copy, PartialEq, Eq, Hash)]
pub struct Nonce(pub [u8; 24]);

/// A symmetric session key.
#[derive(Debug, Clone, Copy, PartialEq, Eq)]
pub struct SessionKey(pub [u8; 32]);

/// A public key for detached signatures.
#[derive(Debug, Clone, Copy, PartialEq, Eq, Hash)]
pub struct SigningPublicKey(pub [u8; 32]);

/// A secret key for detached signatures.
#[derive(Debug, Clone, Copy, PartialEq, Eq)]
pub struct SigningSecretKey(pub [u8; 64]);

/// A SHA-512 digest.
#[derive(Debug, Clone, Copy, PartialEq, Eq, Hash)]
pub struct Digest(pub [u8; 64]);

/// The key that `box_::precompute` derives from a public and a secret key.
pub uninterp spec fn box_key_of(pk: Seq<u8>, sk: Seq<u8>) -> Seq<u8>;

/// The ciphertext that `box_::seal_precomputed` gives.
pub uninterp spec fn box_seal_of(m: Seq<u8>, n: Seq<u8>, k: Seq<u8>) -> Seq<u8>;

/// The plaintext that `box_::open_precomputed` gives, or `None` when authentication fails.
pub uninterp spec fn box_open_of(c: Seq<u8>, n: Seq<u8>, k: Seq<u8>) -> Option<Seq<u8>>;

/// The ciphertext that `secretbox::seal` gives.
pub uninterp spec fn secretbox_seal_of(m: Seq<u8>, n: Seq<u8>, k: Seq<u8>) -> Seq<u8>;

/// The plaintext that `secretbox::open` gives, or `None` when authentication fails.
pub uninterp spec fn secretbox_open_of(c: Seq<u8>, n: Seq<u8>, k: Seq<u8>) -> Option<Seq<u8>>;

/// The signed message that `sign::sign` gives.
pub uninterp spec fn signed_of(m: Seq<u8>, sk: Seq<u8>) -> Seq<u8>;

/// The message that `sign::verify` recovers, or `None` when the signature does not verify.
pub uninterp spec fn sign_open_of(sm: Seq<u8>, pk: Seq<u8>) -> Option<Seq<u8>>;

/// The public key that `sign::keypair_from_seed` derives from a 32-byte seed.
pub uninterp spec fn seed_public_of(seed: Seq<u8>) -> Seq<u8>;

/// The public key that `box_::SecretKey::public_key` derives from a secret key.
pub uninterp spec fn box_public_of(sk: Seq<u8>) -> Seq<u8>;

/// `pk` and `sk` form a signing key pair: the secret key is a seed followed by the public key
/// derived from that seed.
pub open spec fn is_signing_keypair(pk: Seq<u8>, sk: Seq<u8>) -> bool {
    &&& sk.len() == 64
    &&& pk == sk.subrange(32, 64)
    &&& pk == seed_public_of(sk.subrange(0, 32))
}

/// The SHA-512 digest that `hash::hash` gives.
pub uninterp spec fn sha512_of(m: Seq<u8>) -> Seq<u8>;

/// Relies on `sodiumoxide::crypto::box_::precompute`: the shared key is the same from both
/// sides, one party's public key with the other's secret key.
#[verifier::external_body]
pub(crate) fn box_precompute(pk: &[u8; 32], sk: &[u8; 32]) -> (r: [u8; 32])
    ensures
        r@ == box_key_of(pk@, sk@),
        forall|other_sk: Seq<u8>|
            other_sk.len() == 32 && pk@ == #[trigger] box_public_of(other_sk) ==> r@ == box_key_of(
                box_public_of(sk@),
                other_sk,
            ),
{
    sodiumoxide::crypto::box_::precompute(
        &sodiumoxide::crypto::box_::PublicKey(*pk),
        &sodiumoxide::crypto::box_::SecretKey(*sk),
    ).0
}

/// Relies on `sodiumoxide::crypto::box_::gen_keypair`: a random secret key and the public
/// key that `SecretKey::public_key` derives from it.
#[verifier::external_body]
fn box_keypair() -> (r: ([u8; 32], [u8; 32]))
    ensures
        r.0@ == box_public_of(r.1@),
{
    let (pk, sk) = sodiumoxide::crypto::box_::gen_keypair();
    (pk.0, sk.0)
}

/// Relies on `sodiumoxide::crypto::box_::gen_nonce`: a random nonce.
#[verifier::external_body]
pub(crate) fn box_nonce() -> (r: [u8; 24]) {
    sodiumoxide::crypto::box_::gen_nonce().0
}

/// Relies on `sodiumoxide::crypto::box_::seal_precomputed`: the ciphertext is 16 bytes longer
/// than the message.
#[verifier::external_body]
pub(crate) fn box_seal(m: &[u8], n: &[u8; 24], k: &[u8; 32]) -> (r: Vec<u8>)
    ensures
        r@ == box_seal_of(m@, n@, k@),
        r@.len() == m@.len() + 16,
{
    sodiumoxide::crypto::box_::seal_precomputed(
        m,
        &sodiumoxide::crypto::box_::Nonce(*n),
        &sodiumoxide::crypto::box_::PrecomputedKey(*k),
    )
}

/// Relies on `sodiumoxide::crypto::box_::open_precomputed`: it recovers what
/// `seal_precomputed` sealed under the same nonce and key.
#[verifier::external_body]
pub(crate) fn box_open(c: &[u8], n: &[u8; 24], k: &[u8; 32]) -> (r: Option<Vec<u8>>)
    ensures
        match r {
            Some(m) => box_open_of(c@, n@, k@) == Some(m@),
            None => box_open_of(c@, n@, k@) is None,
        },
        forall|m: Seq<u8>| c@ == box_seal_of(m, n@, k@) ==> (r is Some && r->0@ == m),
{
    sodiumoxide::crypto::box_::open_precomputed(
        c,
        &sodiumoxide::crypto::box_::Nonce(*n),
        &sodiumoxide::crypto::box_::PrecomputedKey(*k),
    ).ok()
}

/// Relies on `sodiumoxide::crypto::secretbox::gen_nonce`: a random nonce.
#[verifier::external_body]
pub(crate) fn secretbox_nonce() -> (r: [u8; 24]) {
    sodiumoxide::crypto::secretbox::gen_nonce().0
}

/// Relies on `sodiumoxide::crypto::secretbox::seal`.
#[verifier::external_body]
pub(crate) fn secretbox_seal(m: &[u8], n: &[u8; 24], k: &[u8; 32]) -> (r: Vec<u8>)
    ensures
        r@ == secretbox_seal_of(m@, n@, k@),
{
    sodiumoxide::crypto::secretbox::seal(
        m,
        &sodiumoxide::crypto::secretbox::Nonce(*n),
        &sodiumoxide::crypto::secretbox::Key(*k),
    )
}

/// Relies on `sodiumoxide::crypto::secretbox::open`: it recovers what `seal` sealed under
/// the same nonce and key.
#[verifier::external_body]
pub(crate) fn secretbox_open(c: &[u8], n: &[u8; 24], k: &[u8; 32]) -> (r: Option<Vec<u8>>)
    ensures
        match r {
            Some(m) => secretbox_open_of(c@, n@, k@) == Some(m@),
            None => secretbox_open_of(c@, n@, k@) is None,
        },
        forall|m: Seq<u8>| c@ == secretbox_seal_of(m, n@, k@) ==> (r is Some && r->0@ == m),
{
    sodiumoxide::crypto::secretbox::open(
        c,
        &sodiumoxide::crypto::secretbox::Nonce(*n),
        &sodiumoxide::crypto::secretbox::Key(*k),
    ).ok()
}

/// Relies on `sodiumoxide::crypto::sign::sign`: the signature followed by the message.
#[verifier::external_body]
pub(crate) fn sign_message(m: &[u8], sk: &[u8; 64]) -> (r: Vec<u8>)
    ensures
        r@ == signed_of(m@, sk@),
{
    sodiumoxide::crypto::sign::sign(m, &sodiumoxide::crypto::sign::SecretKey(*sk))
}

/// Relies on `sodiumoxide::crypto::sign::verify`: a message signed with the secret key of a
/// key pair is recovered with the public key of that pair.
#[verifier::external_body]
pub(crate) fn sign_open(sm: &[u8], pk: &[u8; 32]) -> (r: Option<Vec<u8>>)
    ensures
        match r {
            Some(m) => sign_open_of(sm@, pk@) == Some(m@),
            None => sign_open_of(sm@, pk@) is None,
        },
        forall|m: Seq<u8>, sk: Seq<u8>|
            sm@ == signed_of(m, sk) && is_signing_keypair(pk@, sk) ==> (r is Some && r->0@ == m),
{
    sodiumoxide::crypto::sign::verify(sm, &sodiumoxide::crypto::sign::PublicKey(*pk)).ok()
}

/// Relies on `sodiumoxide::crypto::sign::SecretKey::public_key`: the last 32 bytes of the
/// secret key.
#[verifier::external_body]
pub(crate) fn signing_public_key(sk: &[u8; 64]) -> (r: [u8; 32])
    ensures
        r@ == sk@.subrange(32, 64),
{
    sodiumoxide::crypto::sign::SecretKey(*sk).public_key().0
}

/// Relies on `sodiumoxide::crypto::hash::hash` (SHA-512).
#[verifier::external_body]
pub(crate) fn sha512(m: &[u8]) -> (r: [u8; 64])
    ensures
        r@ == sha512_of(m@),
{
    sodiumoxide::crypto::hash::hash(m).0
}

/// Relies on `sodiumoxide::crypto::sign::gen_keypair`: a random seed, followed in the secret
/// key by the public key derived from it.
#[verifier::external_body]
fn sign_keypair() -> (r: ([u8; 32], [u8; 64]))
    ensures
        r.0@ == r.1@.subrange(32, 64),
        r.0@ == seed_public_of(r.1@.subrange(0, 32)),
{
    let (pk, sk) = sodiumoxide::crypto::sign::gen_keypair();
    (pk.0, sk.0)
}

/// A fresh random key pair for authenticated encryption.
pub fn gen_box_keypair() -> (r: (PublicKey, SecretKey))
    ensures
        r.0.0@ == box_public_of(r.1.0@),
{
    let (pk, sk) = box_keypair();
    (PublicKey(pk), SecretKey(sk))
}

/// A fresh random signing key pair.
pub fn gen_signing_keypair() -> (r: (SigningPublicKey, SigningSecretKey))
    ensures
        is_signing_keypair(r.0.0@, r.1.0@),
{
    let (pk, sk) = sign_keypair();
    (SigningPublicKey(pk), SigningSecretKey(sk))
}

/// Relies on `sodiumoxide::crypto::secretbox::gen_key`: a random key.
#[verifier::external_body]
fn secretbox_key() -> (r: [u8; 32]) {
    sodiumoxide::crypto::secretbox::gen_key().0
}

impl SessionKey {
    /// A fresh random session key.
    pub fn generate() -> (r: SessionKey) {
        SessionKey(secretbox_key())
    }
}

impl SigningSecretKey {
    /// The public key that the secret key holds (its last 32 bytes); for a key pair, its
    /// public key.
    pub fn public_key(&self) -> (r: SigningPublicKey)
        ensures
            r.0@ == self.0@.subrange(32, 64),
    {
        SigningPublicKey(signing_public_key(&self.0))
    }
}

impl Digest {
    /// The SHA-512 digest of `m`.
    pub fn of(m: &[u8]) -> (r: Digest)
        ensures
            r.0@ == sha512_of(m@),
    {
        Digest(sha512(m))
    }
}

} // verus!
