//! Envelopes: addressed payloads, sealed by public-key authenticated encryption, and signed
//! hashes that a session key can encrypt.

use crate::crypto::{
    box_nonce, box_open, box_open_of, box_precompute, box_key_of, box_seal, box_seal_of, secretbox_nonce,
    secretbox_open, secretbox_open_of, secretbox_seal, secretbox_seal_of, sign_message,
    sign_open, sign_open_of, signed_of, is_signing_keypair, box_public_of, sha512, sha512_of, Digest, Nonce,
    PrecomputedKey, PublicKey, SecretKey, SessionKey, SigningPublicKey, SigningSecretKey,
};
use crate::frame::{decode_frame, encode_frame, frame_bytes};
use crate::message::{EncryptedMessageBytes, Message, MessageBytes};
use crate::metadata::Metadata;
use crate::wire::{
    bytes_to_vec, le_bytes, le_value, lemma_le_bytes_len, lemma_le_round_trip, lemma_le_value_bytes,
    lemma_pow256_16, pow256, read_bytes, read_le, write_bytes, write_le,
};
use vstd::prelude::*;

verus! {

/// Smallest size, in bytes, of a sealed envelope on the wire.
pub const SEALED_ENVELOPE_MIN_SIZE: usize = 90;

/// Errors of envelopes and signed hashes.
#[derive(Debug, Clone, Copy, PartialEq, Eq, Structural)]
pub enum MessageError {
    /// The bytes are not a sealed envelope.
    InvalidSealedEnvelope,
    /// The envelope's payload is not a message frame.
    MessageDataDeserializationFailed,
    /// Authenticated decryption of a sealed envelope failed.
    SealedEnvelopeOpenFailed,
    /// The signature does not verify under the public key.
    InvalidSignature,
    /// The signed digest is not the digest of the message.
    ChecksumFailed,
    /// The signed content is not a digest.
    InvalidDigestLength { len: usize },
    /// Decrypting a signed hash failed.
    DecryptionFailed,
}

/// A peer's address: its public key.
#[derive(Debug, Clone, Copy, PartialEq, Eq, Hash)]
pub struct Address(pub PublicKey);

impl Address {
    /// The address of a public key.
    pub fn new(public_key: PublicKey) -> (r: Address)
        ensures
            r.0 == public_key,
    {
        Address(public_key)
    }

    /// The underlying public key.
    pub fn public_key(&self) -> (r: &PublicKey)
        ensures
            *r == self.0,
    {
        &self.0
    }

    /// The key with which a sender holding `sender_private_key` seals envelopes to this
    /// address.
    pub fn precompute_sealing_key(&self, sender_private_key: &SecretKey) -> (r: PrecomputedKey)
        ensures
            r.0@ == box_key_of(self.0.0@, sender_private_key.0@),
    {
        PrecomputedKey(box_precompute(&self.0.0, &sender_private_key.0))
    }

    /// The key with which a recipient holding `recipient_private_key` opens envelopes from
    /// this address. When this address is the public key of the sender's secret key, it is
    /// the key the sender seals with to the recipient's address.
    pub fn precompute_opening_key(&self, recipient_private_key: &SecretKey) -> (r: PrecomputedKey)
        ensures
            r.0@ == box_key_of(self.0.0@, recipient_private_key.0@),
            forall|sender_sk: Seq<u8>|
                sender_sk.len() == 32 && self.0.0@ == #[trigger] box_public_of(sender_sk) ==> r.0@
                    == box_key_of(box_public_of(recipient_private_key.0@), sender_sk),
    {
        PrecomputedKey(box_precompute(&self.0.0, &recipient_private_key.0))
    }
}

/// Copies `N` bytes at `pos` into an array.
fn read_array<const N: usize>(b: &[u8], pos: usize) -> (r: [u8; N])
    requires
        pos + N <= b@.len(),
    ensures
        r@ == b@.subrange(pos as int, pos + N),
{
    let total: usize = b.len();
    let mut r: [u8; N] = [0u8; N];
    let mut i: usize = 0;
    while i < N
        invariant
            i <= N,
            pos + N <= b@.len() == total,
            r@.len() == N,
            forall|j: int| 0 <= j < i ==> r@[j] == b@[pos + j],
        decreases N - i,
    {
        r[i] = b[pos + i];
        i = i + 1;
    }
    assert(r@ =~= b@.subrange(pos as int, pos + N));
    r
}

/// An envelope whose payload is in the clear.
#[derive(Debug, Clone)]
pub struct OpenEnvelope {
    pub(crate) sender: Address,
    pub(crate) recipient: Address,
    pub(crate) msg: MessageBytes,
}

/// An envelope whose payload is sealed for its recipient.
#[derive(Debug, Clone)]
pub struct SealedEnvelope {
    pub(crate) sender: Address,
    pub(crate) recipient: Address,
    pub(crate) nonce: Nonce,
    pub(crate) msg: EncryptedMessageBytes,
}

/// A sealed envelope on the wire: sender key, recipient key, nonce, ciphertext length as a
/// `u64`, ciphertext.
pub open spec fn sealed_envelope_bytes(
    sender: Seq<u8>,
    recipient: Seq<u8>,
    nonce: Seq<u8>,
    c: Seq<u8>,
) -> Seq<u8> {
    sender + recipient + nonce + le_bytes(c.len(), 8) + c
}

/// The bytes are a sealed envelope on the wire.
pub open spec fn is_sealed_envelope_bytes(b: Seq<u8>) -> bool {
    b.len() >= 96 && le_value(b.subrange(88, 96)) == b.len() - 96
}

impl OpenEnvelope {
    pub open(crate) spec fn spec_sender(&self) -> Address {
        self.sender
    }

    pub open(crate) spec fn spec_recipient(&self) -> Address {
        self.recipient
    }

    pub open(crate) spec fn spec_msg(&self) -> Seq<u8> {
        self.msg@
    }

    /// An envelope carrying a copy of `msg`.
    pub fn new(sender: Address, recipient: Address, msg: &[u8]) -> (r: OpenEnvelope)
        ensures
            r.spec_sender() == sender,
            r.spec_recipient() == recipient,
            r.spec_msg() == msg@,
    {
        OpenEnvelope { sender, recipient, msg: MessageBytes::from_slice(msg) }
    }

    /// Seals the payload under `key` with a fresh random nonce.
    pub fn seal(self, key: &PrecomputedKey) -> (r: SealedEnvelope)
        ensures
            r.spec_sender() == self.spec_sender(),
            r.spec_recipient() == self.spec_recipient(),
            r.spec_msg() == box_seal_of(self.spec_msg(), r.spec_nonce().0@, key.0@),
    {
        let nonce = box_nonce();
        let c = box_seal(self.msg.data(), &nonce, &key.0);
        SealedEnvelope {
            sender: self.sender,
            recipient: self.recipient,
            nonce: Nonce(nonce),
            msg: EncryptedMessageBytes::new(c),
        }
    }

    /// The payload.
    pub fn msg(&self) -> (r: &[u8])
        ensures
            r@ == self.spec_msg(),
    {
        self.msg.data()
    }

    /// The sender's address.
    pub fn sender(&self) -> (r: &Address)
        ensures
            *r == self.spec_sender(),
    {
        &self.sender
    }

    /// The recipient's address.
    pub fn recipient(&self) -> (r: &Address)
        ensures
            *r == self.spec_recipient(),
    {
        &self.recipient
    }

    /// Reads the payload as a message frame. It fails exactly when the payload is no frame,
    /// and `open_envelope` turns the result back into this envelope.
    pub fn encoded_message(self) -> (r: Result<EncodedMessage, MessageError>)
        ensures
            r matches Ok(m) ==> m.spec_sender() == self.spec_sender() && m.spec_recipient()
                == self.spec_recipient() && self.spec_msg() == frame_bytes(
                m.spec_metadata(),
                m.spec_data(),
            ),
            forall|md: Metadata, d: Seq<u8>|
                #![trigger frame_bytes(md, d)]
                self.spec_msg() == frame_bytes(md, d) ==> (r matches Ok(m) && m.spec_metadata()
                    == md && m.spec_data() == d),
            r matches Err(e) ==> e == MessageError::MessageDataDeserializationFailed,
    {
        match decode_frame(self.msg.data()) {
            Some((metadata, data)) => Ok(
                EncodedMessage {
                    sender: self.sender,
                    recipient: self.recipient,
                    msg: Message::new(metadata, MessageBytes::new(data)),
                },
            ),
            None => Err(MessageError::MessageDataDeserializationFailed),
        }
    }
}

impl SealedEnvelope {
    pub open(crate) spec fn spec_sender(&self) -> Address {
        self.sender
    }

    pub open(crate) spec fn spec_recipient(&self) -> Address {
        self.recipient
    }

    pub open(crate) spec fn spec_nonce(&self) -> Nonce {
        self.nonce
    }

    pub open(crate) spec fn spec_msg(&self) -> Seq<u8> {
        self.msg@
    }

    /// The envelope on the wire.
    pub open(crate) spec fn spec_bytes(&self) -> Seq<u8> {
        sealed_envelope_bytes(self.sender.0.0@, self.recipient.0.0@, self.nonce.0@, self.msg@)
    }

    /// An envelope carrying a copy of the ciphertext `msg`.
    pub fn new(sender: Address, recipient: Address, nonce: Nonce, msg: &[u8]) -> (r: SealedEnvelope)
        ensures
            r.spec_sender() == sender,
            r.spec_recipient() == recipient,
            r.spec_nonce() == nonce,
            r.spec_msg() == msg@,
    {
        SealedEnvelope { sender, recipient, nonce, msg: EncryptedMessageBytes::new(bytes_to_vec(msg)) }
    }

    /// Opens the envelope with `key`. It fails with `SealedEnvelopeOpenFailed` exactly when
    /// authenticated decryption fails; an envelope sealed under `key` opens to the payload
    /// that was sealed.
    pub fn open(self, key: &PrecomputedKey) -> (r: Result<OpenEnvelope, MessageError>)
        ensures
            match box_open_of(self.spec_msg(), self.spec_nonce().0@, key.0@) {
                Some(m) => r matches Ok(e) && e.spec_msg() == m && e.spec_sender()
                    == self.spec_sender() && e.spec_recipient() == self.spec_recipient(),
                None => r == Err::<OpenEnvelope, MessageError>(
                    MessageError::SealedEnvelopeOpenFailed,
                ),
            },
            forall|m: Seq<u8>|
                self.spec_msg() == box_seal_of(m, self.spec_nonce().0@, key.0@) ==> (r matches Ok(
                    e,
                ) && e.spec_msg() == m),
    {
        match box_open(self.msg.data(), &self.nonce.0, &key.0) {
            Some(m) => Ok(
                OpenEnvelope { sender: self.sender, recipient: self.recipient, msg: MessageBytes::new(m) },
            ),
            None => Err(MessageError::SealedEnvelopeOpenFailed),
        }
    }

    /// The ciphertext.
    pub fn msg(&self) -> (r: &[u8])
        ensures
            r@ == self.spec_msg(),
    {
        self.msg.data()
    }

    /// The sender's address.
    pub fn sender(&self) -> (r: &Address)
        ensures
            *r == self.spec_sender(),
    {
        &self.sender
    }

    /// The recipient's address.
    pub fn recipient(&self) -> (r: &Address)
        ensures
            *r == self.spec_recipient(),
    {
        &self.recipient
    }

    /// The nonce that the payload was sealed with.
    pub fn nonce(&self) -> (r: &Nonce)
        ensures
            *r == self.spec_nonce(),
    {
        &self.nonce
    }

    /// The envelope on the wire.
    pub fn encode(&self) -> (r: Vec<u8>)
        ensures
            r@ == self.spec_bytes(),
    {
        proof {
            lemma_pow256_16();
        }
        let mut out: Vec<u8> = Vec::new();
        write_bytes(&mut out, self.sender.0.0.as_slice());
        write_bytes(&mut out, self.recipient.0.0.as_slice());
        write_bytes(&mut out, self.nonce.0.as_slice());
        let len: usize = self.msg.data().len();
        write_le(&mut out, len as u128, 8);
        write_bytes(&mut out, self.msg.data());
        assert(out@ =~= self.spec_bytes());
        out
    }

    /// Reads an envelope from the wire. It succeeds exactly when the length field matches the
    /// rest of the bytes, and then the envelope is the one those bytes denote.
    pub fn decode(b: &[u8]) -> (r: Result<SealedEnvelope, MessageError>)
        ensures
            r is Ok <==> is_sealed_envelope_bytes(b@),
            r matches Ok(s) ==> s.spec_bytes() == b@,
            r matches Err(e) ==> e == MessageError::InvalidSealedEnvelope,
    {
        proof {
            lemma_pow256_16();
        }
        let total: usize = b.len();
        if total < 96 {
            return Err(MessageError::InvalidSealedEnvelope);
        }
        let len = read_le(b, 88, 8);
        if len != (total - 96) as u128 {
            return Err(MessageError::InvalidSealedEnvelope);
        }
        let sender: [u8; 32] = read_array(b, 0);
        let recipient: [u8; 32] = read_array(b, 32);
        let nonce: [u8; 24] = read_array(b, 64);
        let msg = read_bytes(b, 96, len as usize);
        let s = SealedEnvelope {
            sender: Address(PublicKey(sender)),
            recipient: Address(PublicKey(recipient)),
            nonce: Nonce(nonce),
            msg: EncryptedMessageBytes::new(msg),
        };
        proof {
            let sub = b@.subrange(88, 96);
            lemma_le_value_bytes(sub);
            assert(b@ =~= s.spec_bytes());
        }
        Ok(s)
    }
}

/// Decoding the wire form of an envelope gives the envelope back: the bytes are accepted,
/// and an envelope with the same wire form has the same fields.
pub proof fn lemma_sealed_envelope_round_trip(s: SealedEnvelope, t: SealedEnvelope)
    requires
        s.spec_msg().len() < pow256(8),
        t.spec_bytes() == s.spec_bytes(),
    ensures
        is_sealed_envelope_bytes(s.spec_bytes()),
        t.spec_sender() == s.spec_sender(),
        t.spec_recipient() == s.spec_recipient(),
        t.spec_nonce() == s.spec_nonce(),
        t.spec_msg() == s.spec_msg(),
{
    lemma_le_round_trip(s.spec_msg().len(), 8);
    lemma_le_bytes_len(t.spec_msg().len(), 8);
    let b = s.spec_bytes();
    assert(b.subrange(88, 96) =~= le_bytes(s.spec_msg().len(), 8));
    assert(s.sender.0.0@ =~= b.subrange(0, 32));
    assert(t.sender.0.0@ =~= b.subrange(0, 32));
    assert(s.recipient.0.0@ =~= b.subrange(32, 64));
    assert(t.recipient.0.0@ =~= b.subrange(32, 64));
    assert(s.nonce.0@ =~= b.subrange(64, 88));
    assert(t.nonce.0@ =~= b.subrange(64, 88));
    assert(s.msg@ =~= b.subrange(96, b.len() as int));
    assert(t.msg@ =~= b.subrange(96, b.len() as int));
    assert(s.sender.0.0 == t.sender.0.0);
    assert(s.recipient.0.0 == t.recipient.0.0);
    assert(s.sender.0 == t.sender.0);
    assert(s.recipient.0 == t.recipient.0);
    assert(s.nonce.0 == t.nonce.0);
    assert(s.nonce == t.nonce);
}

/// A sender and a recipient.
#[derive(Debug, Clone, Copy)]
pub struct Addresses {
    pub sender: Address,
    pub recipient: Address,
}

impl Addresses {
    /// The pair of addresses.
    pub fn new(sender: Address, recipient: Address) -> (r: Addresses)
        ensures
            r.sender == sender,
            r.recipient == recipient,
    {
        Addresses { sender, recipient }
    }

    /// The sender's address.
    pub fn sender(&self) -> (r: &Address)
        ensures
            *r == self.sender,
    {
        &self.sender
    }

    /// The recipient's address.
    pub fn recipient(&self) -> (r: &Address)
        ensures
            *r == self.recipient,
    {
        &self.recipient
    }
}

/// A message with an encoded payload, between a sender and a recipient.
#[derive(Debug, Clone)]
pub struct EncodedMessage {
    pub(crate) sender: Address,
    pub(crate) recipient: Address,
    pub(crate) msg: Message<MessageBytes>,
}

impl EncodedMessage {
    pub open(crate) spec fn spec_sender(&self) -> Address {
        self.sender
    }

    pub open(crate) spec fn spec_recipient(&self) -> Address {
        self.recipient
    }

    pub open(crate) spec fn spec_metadata(&self) -> Metadata {
        self.msg.metadata
    }

    pub open(crate) spec fn spec_data(&self) -> Seq<u8> {
        self.msg.data@
    }

    /// An encoded message from a message whose payload is already encoded.
    pub fn new(addresses: Addresses, msg: Message<MessageBytes>) -> (r: EncodedMessage)
        ensures
            r.spec_sender() == addresses.sender,
            r.spec_recipient() == addresses.recipient,
            r.spec_metadata() == msg.spec_metadata(),
            r.spec_data() == msg.spec_data()@,
    {
        EncodedMessage { sender: addresses.sender, recipient: addresses.recipient, msg }
    }

    /// The message metadata.
    pub fn metadata(&self) -> (r: Metadata)
        ensures
            r == self.spec_metadata(),
    {
        self.msg.metadata()
    }

    /// The encoded payload.
    pub fn data(&self) -> (r: &MessageBytes)
        ensures
            r@ == self.spec_data(),
    {
        self.msg.data()
    }

    /// The sender's address.
    pub fn sender(&self) -> (r: &Address)
        ensures
            *r == self.spec_sender(),
    {
        &self.sender
    }

    /// The recipient's address.
    pub fn recipient(&self) -> (r: &Address)
        ensures
            *r == self.spec_recipient(),
    {
        &self.recipient
    }

    /// The envelope that carries this message's frame.
    pub fn open_envelope(self) -> (r: OpenEnvelope)
        ensures
            r.spec_sender() == self.spec_sender(),
            r.spec_recipient() == self.spec_recipient(),
            r.spec_msg() == frame_bytes(self.spec_metadata(), self.spec_data()),
    {
        let frame = encode_frame(&self.msg.metadata, self.msg.data.data());
        OpenEnvelope { sender: self.sender, recipient: self.recipient, msg: MessageBytes::new(frame) }
    }
}

/// What verifying a signed digest against the digest `expected` gives, from what the
/// signature check recovered (`None` when the signature did not verify).
pub open spec fn signature_outcome(opened: Option<Seq<u8>>, expected: Seq<u8>) -> Result<
    (),
    MessageError,
> {
    match opened {
        None => Err(MessageError::InvalidSignature),
        Some(d) => if d.len() != 64 {
            Err(MessageError::InvalidDigestLength { len: d.len() as usize })
        } else if d == expected {
            Ok(())
        } else {
            Err(MessageError::ChecksumFailed)
        },
    }
}

/// What decrypting and verifying an encrypted signed hash gives, from what decryption
/// recovered and what the signature check on it recovered.
pub open spec fn encrypted_signature_outcome(
    decrypted: Option<Seq<u8>>,
    opened: Option<Seq<u8>>,
) -> Result<Seq<u8>, MessageError> {
    match decrypted {
        None => Err(MessageError::DecryptionFailed),
        Some(_) => digest_outcome(opened),
    }
}

fn bytes_equal(a: &[u8], b: &[u8]) -> (r: bool)
    ensures
        r == (a@ == b@),
{
    if a.len() != b.len() {
        return false;
    }
    let mut i: usize = 0;
    while i < a.len()
        invariant
            a@.len() == b@.len(),
            i <= a@.len(),
            forall|j: int| 0 <= j < i ==> a@[j] == b@[j],
        decreases a@.len() - i,
    {
        if a[i] != b[i] {
            return false;
        }
        i = i + 1;
    }
    assert(a@ =~= b@);
    true
}

/// Decides a signature check from what `sign::verify` recovered and the digest of the
/// message: the signature must have verified, recovered a 64-byte digest, and that digest
/// must be the message's.
pub fn check_signed_digest(opened: Option<Vec<u8>>, expected: &Digest) -> (r: Result<(), MessageError>)
    ensures
        r == signature_outcome(
            match opened {
                None => None,
                Some(v) => Some(v@),
            },
            expected.0@,
        ),
{
    match opened {
        None => Err(MessageError::InvalidSignature),
        Some(d) => {
            if d.len() != 64 {
                Err(MessageError::InvalidDigestLength { len: d.len() })
            } else if bytes_equal(d.as_slice(), expected.0.as_slice()) {
                Ok(())
            } else {
                Err(MessageError::ChecksumFailed)
            }
        },
    }
}

/// What a signature check on a signed digest gives, from what `sign::verify` recovered: the
/// signature must have verified and recovered a 64-byte digest.
pub open spec fn digest_outcome(opened: Option<Seq<u8>>) -> Result<Seq<u8>, MessageError> {
    match opened {
        None => Err(MessageError::InvalidSignature),
        Some(d) => if d.len() != 64 {
            Err(MessageError::InvalidDigestLength { len: d.len() as usize })
        } else {
            Ok(d)
        },
    }
}

/// Decides a signature check from what `sign::verify` recovered; see `digest_outcome`.
pub fn digest_from_signed(opened: Option<Vec<u8>>) -> (r: Result<Digest, MessageError>)
    ensures
        match r {
            Ok(d) => digest_outcome(
                match opened {
                    None => None,
                    Some(v) => Some(v@),
                },
            ) == Ok::<Seq<u8>, MessageError>(d.0@),
            Err(e) => digest_outcome(
                match opened {
                    None => None,
                    Some(v) => Some(v@),
                },
            ) == Err::<Seq<u8>, MessageError>(e),
        },
{
    match opened {
        None => Err(MessageError::InvalidSignature),
        Some(d) => {
            if d.len() != 64 {
                Err(MessageError::InvalidDigestLength { len: d.len() })
            } else {
                let digest: [u8; 64] = read_array(d.as_slice(), 0);
                assert(d@.subrange(0, 64) =~= d@);
                Ok(Digest(digest))
            }
        },
    }
}

/// A signed digest: the signature followed by the digest.
#[derive(Debug, Clone, PartialEq, Eq, Hash)]
pub struct SignedHash(pub(crate) Vec<u8>);

impl View for SignedHash {
    type V = Seq<u8>;

    open(crate) spec fn view(&self) -> Seq<u8> {
        self.0@
    }
}

impl SignedHash {
    /// Signed content given as bytes.
    pub fn from_bytes(bytes: Vec<u8>) -> (r: SignedHash)
        ensures
            r@ == bytes@,
    {
        SignedHash(bytes)
    }

    /// The signed content.
    pub fn bytes(&self) -> (r: &[u8])
        ensures
            r@ == self@,
    {
        self.0.as_slice()
    }

    /// Signs `digest` with `key`.
    pub fn sign(digest: &Digest, key: &SigningSecretKey) -> (r: SignedHash)
        ensures
            r@ == signed_of(digest.0@, key.0@),
    {
        SignedHash(sign_message(digest.0.as_slice(), &key.0))
    }

    /// Verifies the signature under `key`, then that the signed digest is the digest of `msg`.
    /// A digest of `msg` signed with the secret key of `key` verifies.
    pub fn verify(&self, msg: &[u8], key: &SigningPublicKey) -> (r: Result<(), MessageError>)
        ensures
            r == signature_outcome(sign_open_of(self@, key.0@), sha512_of(msg@)),
            (exists|sk: Seq<u8>|
                self@ == signed_of(sha512_of(msg@), sk) && is_signing_keypair(key.0@, sk))
                ==> r is Ok,
    {
        let opened = sign_open(self.0.as_slice(), &key.0);
        let expected = Digest(sha512(msg));
        check_signed_digest(opened, &expected)
    }

    /// Encrypts the signed hash under `key` with a fresh random nonce.
    pub fn encrypt(&self, key: &SessionKey) -> (r: EncryptedSignedHash)
        ensures
            r.spec_ciphertext() == secretbox_seal_of(self@, r.spec_nonce().0@, key.0@),
    {
        let nonce = secretbox_nonce();
        EncryptedSignedHash(secretbox_seal(self.0.as_slice(), &nonce, &key.0), Nonce(nonce))
    }
}

/// A signed hash encrypted under a session key, with its nonce.
#[derive(Debug, Clone, PartialEq, Eq)]
pub struct EncryptedSignedHash(pub(crate) Vec<u8>, pub(crate) Nonce);

impl EncryptedSignedHash {
    pub open(crate) spec fn spec_ciphertext(&self) -> Seq<u8> {
        self.0@
    }

    pub open(crate) spec fn spec_nonce(&self) -> Nonce {
        self.1
    }

    /// Decrypts with `key`, verifies the signature under `public_key`, and returns the signed
    /// digest. What was encrypted from a signed hash decrypts back to it.
    pub fn verify(&self, key: &SessionKey, public_key: &SigningPublicKey) -> (r: Result<
        Digest,
        MessageError,
    >)
        ensures
            ({
                let decrypted = secretbox_open_of(self.spec_ciphertext(), self.spec_nonce().0@, key.0@);
                let outcome = encrypted_signature_outcome(
                    decrypted,
                    match decrypted {
                        None => None,
                        Some(sh) => sign_open_of(sh, public_key.0@),
                    },
                );
                match r {
                    Ok(d) => outcome == Ok::<Seq<u8>, MessageError>(d.0@),
                    Err(e) => outcome == Err::<Seq<u8>, MessageError>(e),
                }
            }),
            forall|sh: Seq<u8>|
                self.spec_ciphertext() == secretbox_seal_of(sh, self.spec_nonce().0@, key.0@)
                    ==> secretbox_open_of(self.spec_ciphertext(), self.spec_nonce().0@, key.0@)
                    == Some(sh),
            (exists|d: Seq<u8>, sk: Seq<u8>|
                d.len() == 64 && is_signing_keypair(public_key.0@, sk) && self.spec_ciphertext()
                    == secretbox_seal_of(signed_of(d, sk), self.spec_nonce().0@, key.0@)) ==> (r matches Ok(
                dg,
            ) && (exists|d: Seq<u8>, sk: Seq<u8>|
                d.len() == 64 && is_signing_keypair(public_key.0@, sk) && self.spec_ciphertext()
                    == secretbox_seal_of(signed_of(d, sk), self.spec_nonce().0@, key.0@) && dg.0@
                    == d)),
    {
        match secretbox_open(self.0.as_slice(), &self.1.0, &key.0) {
            None => Err(MessageError::DecryptionFailed),
            Some(signed) => digest_from_signed(sign_open(signed.as_slice(), &public_key.0)),
        }
    }

    /// The nonce that the signed hash was encrypted with.
    pub fn nonce(&self) -> (r: &Nonce)
        ensures
            *r == self.spec_nonce(),
    {
        &self.1
    }
}

impl MessageBytes {
    /// The SHA-512 digest of the payload.
    pub fn hash(&self) -> (r: Digest)
        ensures
            r.0@ == sha512_of(self@),
    {
        Digest(sha512(self.data()))
    }
}

} // verus!
