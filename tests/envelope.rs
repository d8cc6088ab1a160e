use oysterpack_message::codec::Encoding;
use oysterpack_message::crypto::{
    gen_box_keypair, gen_signing_keypair, Digest, PublicKey, SecretKey, SessionKey,
    SigningPublicKey, SigningSecretKey,
};
use oysterpack_message::envelope::{
    check_signed_digest, digest_from_signed, Address, Addresses, EncodedMessage, MessageError, OpenEnvelope,
    SealedEnvelope, SignedHash, SEALED_ENVELOPE_MIN_SIZE,
};
use oysterpack_message::message::{Message, MessageBytes};
use oysterpack_message::metadata::{Deadline, MessageTypeId, Metadata};
use sodiumoxide::crypto::{box_, hash, sign};

fn box_keys() -> (PublicKey, SecretKey) {
    gen_box_keypair()
}

fn sign_keys() -> (SigningPublicKey, SigningSecretKey) {
    gen_signing_keypair()
}

#[test]
fn library_key_pairs_match_libsodium() {
    let (pk, sk) = box_keys();
    assert_eq!(box_::SecretKey(sk.0).public_key().0, pk.0);
    let (pk, sk) = sign_keys();
    assert_eq!(sign::SecretKey(sk.0).public_key().0, pk.0);
    let (other_pk, other_sk) = sign::gen_keypair();
    let sk2 = SigningSecretKey(other_sk.0);
    assert_eq!(sk2.public_key(), SigningPublicKey(other_pk.0));
}

#[test]
fn signing_with_a_malformed_secret_key_does_not_verify() {
    let (_, sk) = sign_keys();
    let mut bytes = sk.0;
    for b in bytes[32..].iter_mut() {
        *b = 0;
    }
    let bad = SigningSecretKey(bytes);
    let payload = b"payload";
    let signed = SignedHash::sign(&Digest::of(payload), &bad);
    assert_eq!(signed.verify(payload, &bad.public_key()), Err(MessageError::InvalidSignature));
}

#[test]
fn seal_open_envelope() {
    let (client_pub_key, client_priv_key) = box_keys();
    let (server_pub_key, server_priv_key) = box_keys();
    let (client_addr, server_addr) = (Address::new(client_pub_key), Address::new(server_pub_key));
    let opening_key = client_addr.precompute_opening_key(&server_priv_key);
    let sealing_key = server_addr.precompute_sealing_key(&client_priv_key);
    assert_eq!(opening_key, sealing_key);
    let msg = b"data";

    let open_envelope = OpenEnvelope::new(client_addr, server_addr, msg);
    let sealed_envelope = open_envelope.seal(&sealing_key);
    assert_ne!(sealed_envelope.msg(), &msg[..]);
    let open_envelope_2 = sealed_envelope.open(&opening_key).unwrap();
    assert_eq!(*open_envelope_2.msg(), *msg);
    assert_eq!(*open_envelope_2.sender(), client_addr);
    assert_eq!(*open_envelope_2.recipient(), server_addr);

    let msg = &[0 as u8; 1000 * 256];
    let open_envelope = OpenEnvelope::new(client_addr, server_addr, msg);
    let sealed_envelope = open_envelope.seal(&sealing_key);
    let opened = sealed_envelope.open(&opening_key).unwrap();
    assert_eq!(opened.msg(), &msg[..]);
}

#[test]
fn open_with_wrong_key_fails() {
    let (client_pub_key, client_priv_key) = box_keys();
    let (server_pub_key, _) = box_keys();
    let (_, other_priv_key) = box_keys();
    let sealing_key = Address::new(server_pub_key).precompute_sealing_key(&client_priv_key);
    let wrong_key = Address::new(client_pub_key).precompute_opening_key(&other_priv_key);
    let sealed = OpenEnvelope::new(Address::new(client_pub_key), Address::new(server_pub_key), b"secret")
        .seal(&sealing_key);
    match sealed.open(&wrong_key) {
        Err(e) => assert_eq!(e, MessageError::SealedEnvelopeOpenFailed),
        Ok(_) => panic!("opened with the wrong key"),
    }
}

#[test]
fn sealed_envelope_encoding_decoding() {
    let (client_pub_key, client_priv_key) = box_keys();
    let (server_pub_key, _) = box_keys();
    let sealing_key = Address::new(server_pub_key).precompute_sealing_key(&client_priv_key);

    let open_envelope = OpenEnvelope::new(Address::new(client_pub_key), Address::new(server_pub_key), b"");
    let sealed_envelope = open_envelope.seal(&sealing_key);
    let buf = sealed_envelope.encode();
    assert!(buf.len() >= SEALED_ENVELOPE_MIN_SIZE);
    assert_eq!(buf.len(), 32 + 32 + 24 + 8 + 16);

    let decoded = SealedEnvelope::decode(&buf).unwrap();
    assert_eq!(sealed_envelope.sender(), decoded.sender());
    assert_eq!(sealed_envelope.recipient(), decoded.recipient());
    assert_eq!(sealed_envelope.nonce(), decoded.nonce());
    assert_eq!(sealed_envelope.msg(), decoded.msg());

    let sealed_envelope = SealedEnvelope::new(
        *sealed_envelope.sender(),
        *sealed_envelope.recipient(),
        *sealed_envelope.nonce(),
        &[1],
    );
    let buf = sealed_envelope.encode();
    assert_eq!(buf.len(), 32 + 32 + 24 + 8 + 1);
    assert_eq!(&buf[88..96], &1u64.to_le_bytes()[..]);
    assert_eq!(SealedEnvelope::decode(&buf).unwrap().msg(), &[1u8][..]);
}

#[test]
fn sealed_envelope_decoding_rejects_bad_lengths() {
    assert_eq!(SealedEnvelope::decode(&[0u8; 95]).unwrap_err(), MessageError::InvalidSealedEnvelope);
    let mut buf = vec![0u8; 100];
    buf[88] = 3;
    assert_eq!(SealedEnvelope::decode(&buf).unwrap_err(), MessageError::InvalidSealedEnvelope);
    buf[88] = 4;
    assert!(SealedEnvelope::decode(&buf).is_ok());
}

#[test]
fn encrypted_signed_hash() {
    let (client_pub_key, client_priv_key) = sign_keys();
    let cipher = SessionKey::generate();

    let data = b"some data";
    let data_hash = Digest::of(data);
    assert_eq!(data_hash.0, hash::hash(data).0);
    let signed_hash_1 = SignedHash::sign(&data_hash, &client_priv_key);
    let encrypted_signed_hash_1 = signed_hash_1.encrypt(&cipher);
    let encrypted_signed_hash_2 = signed_hash_1.encrypt(&cipher);
    assert_ne!(
        encrypted_signed_hash_1.nonce(),
        encrypted_signed_hash_2.nonce(),
        "A new nonce should be used each time the signed session id is encrypted"
    );
    let digest_1 = encrypted_signed_hash_1.verify(&cipher, &client_pub_key).unwrap();
    let digest_2 = encrypted_signed_hash_2.verify(&cipher, &client_pub_key).unwrap();
    assert_eq!(digest_1, digest_2);
    assert_eq!(digest_1, data_hash);
}

#[test]
fn signed_sealed_encrypted_scenario() {
    let (sign_pk, sign_sk) = sign_keys();
    assert_eq!(sign_sk.public_key(), sign_pk);
    let payload = b"payload of the request".to_vec();
    let signed = SignedHash::sign(&Digest::of(&payload), &sign_sk);
    assert_eq!(signed.verify(&payload, &sign_pk), Ok(()));

    let session = SessionKey::generate();
    let encrypted = signed.encrypt(&session);
    let digest = encrypted.verify(&session, &sign_pk).unwrap();
    assert_eq!(digest, Digest::of(&payload));

    for i in 0..payload.len() {
        let mut flipped = payload.clone();
        flipped[i] ^= 1;
        assert_eq!(signed.verify(&flipped, &sign_pk), Err(MessageError::ChecksumFailed));
    }
    for i in 0..signed.bytes().len() {
        let mut bytes = signed.bytes().to_vec();
        bytes[i] ^= 1;
        let tampered = SignedHash::from_bytes(bytes);
        assert_eq!(tampered.verify(&payload, &sign_pk), Err(MessageError::InvalidSignature));
    }
    let other = SessionKey::generate();
    assert_eq!(encrypted.verify(&other, &sign_pk), Err(MessageError::DecryptionFailed));
    let (other_pk, _) = sign_keys();
    assert_eq!(encrypted.verify(&session, &other_pk), Err(MessageError::InvalidSignature));
}

#[test]
fn signed_content_that_is_no_digest() {
    let (pk, sk) = sign_keys();
    let sm = sign::sign(b"short", &sign::SecretKey(sk.0));
    let signed = SignedHash::from_bytes(sm.clone());
    assert_eq!(signed.verify(b"short", &pk), Err(MessageError::InvalidDigestLength { len: 5 }));
}

#[test]
fn digest_from_signed_decisions() {
    assert_eq!(digest_from_signed(None), Err(MessageError::InvalidSignature));
    assert_eq!(digest_from_signed(Some(vec![1u8; 63])), Err(MessageError::InvalidDigestLength { len: 63 }));
    assert_eq!(digest_from_signed(Some(vec![1u8; 64])), Ok(Digest([1u8; 64])));
}

#[test]
fn check_signed_digest_decisions() {
    let d = Digest([3u8; 64]);
    assert_eq!(check_signed_digest(None, &d), Err(MessageError::InvalidSignature));
    assert_eq!(check_signed_digest(Some(vec![3u8; 10]), &d), Err(MessageError::InvalidDigestLength { len: 10 }));
    assert_eq!(check_signed_digest(Some(vec![3u8; 64]), &d), Ok(()));
    assert_eq!(check_signed_digest(Some(vec![4u8; 64]), &d), Err(MessageError::ChecksumFailed));
}

#[test]
fn encoded_message() {
    let (client_pub_key, _) = box_keys();
    let (server_pub_key, _) = box_keys();
    let (client, server) = (Address::new(client_pub_key), Address::new(server_pub_key));
    let metadata = Metadata::new(
        MessageTypeId(1867384532653698871582487715619812439).message_type(),
        Encoding::Bincode(None),
        Some(Deadline::ProcessingTimeoutMillis(100)),
    );
    let payload = bincode::serialize(&"FOO".to_string()).unwrap();
    let msg = Message::new(metadata, MessageBytes::new(payload.clone()));
    let frame = msg.to_bytes().unwrap();

    let open_envelope = OpenEnvelope::new(client, server, &frame);
    let encoded_message = open_envelope.clone().encoded_message().unwrap();
    assert_eq!(*encoded_message.sender(), client);
    assert_eq!(*encoded_message.recipient(), server);
    assert_eq!(encoded_message.metadata(), metadata);
    assert_eq!(encoded_message.data().data(), &payload[..]);
    let foo: String = bincode::deserialize(encoded_message.data().data()).unwrap();
    assert_eq!(foo, "FOO");

    let open_envelope_2 = encoded_message.open_envelope();
    assert_eq!(open_envelope.sender(), open_envelope_2.sender());
    assert_eq!(open_envelope.recipient(), open_envelope_2.recipient());
    assert_eq!(open_envelope.msg(), open_envelope_2.msg());

    let rebuilt = EncodedMessage::new(Addresses::new(client, server), msg);
    assert_eq!(rebuilt.open_envelope().msg(), &frame[..]);

    let not_a_frame = OpenEnvelope::new(client, server, b"xyz");
    assert_eq!(not_a_frame.encoded_message().unwrap_err(), MessageError::MessageDataDeserializationFailed);
}

#[test]
fn bincode_encoded_message() {
    let (client_pub_key, _) = box_keys();
    let (server_pub_key, _) = box_keys();
    let (client, server) = (Address::new(client_pub_key), Address::new(server_pub_key));
    let metadata = Metadata::new(
        MessageTypeId(1867384532653698871582487715619812439).message_type(),
        Encoding::Bincode(None),
        None,
    );
    let payload = bincode::serialize(&"FOO".to_string()).unwrap();
    let msg = Message::new(metadata, MessageBytes::new(payload.clone()));
    let frame = msg.to_bytes().unwrap();
    Message::from_bytes(metadata.encoding(), &frame).unwrap();

    let open_envelope = OpenEnvelope::new(client, server, &frame);
    let encoded_message = open_envelope.clone().encoded_message().unwrap();
    let open_envelope_2 = encoded_message.clone().open_envelope();
    assert_eq!(open_envelope.sender(), open_envelope_2.sender());
    assert_eq!(open_envelope.recipient(), open_envelope_2.recipient());
    assert_eq!(open_envelope.msg(), open_envelope_2.msg());

    let rebuilt = EncodedMessage::new(
        Addresses::new(*encoded_message.sender(), *encoded_message.recipient()),
        Message::new(encoded_message.metadata(), encoded_message.data().clone()),
    );
    assert_eq!(encoded_message.sender(), rebuilt.sender());
    assert_eq!(encoded_message.recipient(), rebuilt.recipient());
    assert_eq!(encoded_message.metadata(), rebuilt.metadata());
    assert_eq!(encoded_message.data(), rebuilt.data());
    assert_eq!(encoded_message.metadata().deadline(), None);
}

#[test]
fn message_bytes_hash() {
    let m = MessageBytes::from_slice(b"abc");
    assert_eq!(m.hash().0, hash::hash(b"abc").0);
}
