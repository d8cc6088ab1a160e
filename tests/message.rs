use oysterpack_message::codec::{CodecError, Compression, Encoding};
use oysterpack_message::message::{IsMessage, Message, MessageBytes};
use oysterpack_message::metadata::{
    Deadline, InstanceId, MessageTypeId, Metadata, Sequence, SessionId,
};
use oysterpack_message::ids::ULID;

const MESSAGE_TYPE: MessageTypeId = MessageTypeId(1867384532653698871582487715619812439);

fn now_millis() -> i64 {
    std::time::SystemTime::now()
        .duration_since(std::time::UNIX_EPOCH)
        .unwrap()
        .as_millis() as i64
}

fn serialize(encoding: Encoding, value: &String) -> Vec<u8> {
    match encoding {
        Encoding::Bincode(_) => bincode::serialize(value).unwrap(),
        Encoding::CBOR(_) => serde_cbor::to_vec(value).unwrap(),
        Encoding::JSON(_) => serde_json::to_vec(value).unwrap(),
    }
}

fn deserialize(encoding: Encoding, bytes: &[u8]) -> String {
    match encoding {
        Encoding::Bincode(_) => bincode::deserialize(bytes).unwrap(),
        Encoding::CBOR(_) => serde_cbor::from_slice(bytes).unwrap(),
        Encoding::JSON(_) => serde_json::from_slice(bytes).unwrap(),
    }
}

fn new_msg(deadline: Option<Deadline>) -> Message<MessageBytes> {
    let metadata = Metadata::new(MESSAGE_TYPE.message_type(), Encoding::Bincode(None), deadline);
    let serialized = serialize(metadata.encoding(), &"FOO".to_string());
    let data = MessageBytes::new(metadata.encoding().encode_serialized(&serialized).unwrap());
    Message::new(metadata, data)
}

#[test]
fn test_message_bytes_deserialization() {
    let msg = new_msg(Some(Deadline::ProcessingTimeoutMillis(100)));
    let encoding = msg.metadata().encoding();

    // the message can be written and read back
    let msg_bytes = msg.to_bytes().unwrap();
    if let Err(err) = Message::from_bytes(encoding, &msg_bytes) {
        panic!("Failed to deserialize Message: {:?}", err);
    }
}

#[test]
fn message_frame_round_trip_keeps_every_field() {
    let md = Metadata::new(
        MESSAGE_TYPE.message_type(),
        Encoding::JSON(Some(Compression::Gzip)),
        Some(Deadline::MessageTimeoutMillis(200)),
    )
    .correlate(InstanceId(ULID(42)))
    .set_sequence(Sequence::Loose(7))
    .set_session_id(SessionId(ULID(9)));
    let msg = Message::new(md, MessageBytes::new(vec![1, 2, 3]));
    let bytes = msg.to_bytes().unwrap();
    let back = Message::from_bytes(md.encoding(), &bytes).unwrap();
    assert_eq!(back.metadata(), md);
    assert_eq!(back.data().data(), &[1u8, 2, 3][..]);
}

#[test]
fn message_frame_rejects_garbage() {
    let r = Message::from_bytes(Encoding::Bincode(None), &[1, 2, 3]);
    match r {
        Err(CodecError::DecodingError { encoding, .. }) => assert_eq!(encoding, Encoding::Bincode(None)),
        _ => panic!("expected a decoding error"),
    }
    let r = Message::from_bytes(Encoding::Bincode(Some(Compression::Zlib)), &[1, 2, 3]);
    assert!(matches!(r, Err(CodecError::DecodingError { .. })));
}

#[test]
fn metadata_builders_return_modified_copies() {
    let md = Metadata::new(MESSAGE_TYPE.message_type(), Encoding::CBOR(None), None);
    assert_eq!(md.message_type(), MESSAGE_TYPE.message_type());
    assert_eq!(md.message_type().ulid(), ULID(MESSAGE_TYPE.0));
    assert_eq!(md.correlation_id(), None);
    assert_eq!(md.sequence(), None);
    assert_eq!(md.deadline(), None);
    let md2 = md.set_sequence(Sequence::Strict(1));
    assert_eq!(md2.sequence(), Some(Sequence::Strict(1)));
    assert_eq!(md.sequence(), None);
    assert_eq!(md2.instance_id(), md.instance_id());
    let md3 = md2.correlate(md.instance_id());
    assert_eq!(md3.correlation_id(), Some(md.instance_id()));
    let session = SessionId::generate();
    let md4 = md3.set_session_id(session);
    assert_eq!(md4.session_id(), session);
    assert_eq!(md4.session_id().ulid(), session.0);
    assert_ne!(md.instance_id(), Metadata::new(MESSAGE_TYPE.message_type(), Encoding::CBOR(None), None).instance_id());
}

#[test]
fn instance_id_timestamp_is_creation_time() {
    let before = now_millis() as u64 % (1u64 << 48);
    let md = Metadata::new(MESSAGE_TYPE.message_type(), Encoding::CBOR(None), None);
    let after = now_millis() as u64 % (1u64 << 48);
    let ts = md.timestamp_millis();
    assert!(before <= ts && ts <= after);
    let id = md.instance_id();
    assert_eq!(id.domain_ulid().ulid, id.ulid());
    assert_eq!(id.domain_ulid().domain.0, "MessageInstanceId");
    assert_eq!(MESSAGE_TYPE.message_type().domain_ulid().domain.0, "MessageType");
}

#[test]
fn ulid_parts() {
    let u = ULID::from_parts(5, 7);
    assert_eq!(u.0, 5u128 * (1u128 << 80) + 7);
    assert_eq!(u.timestamp_millis(), 5);
    let u = ULID::from_parts(u64::MAX, 0);
    assert_eq!(u.timestamp_millis(), u64::MAX % (1u64 << 48));
}

#[test]
fn sequence_inc() {
    assert_eq!(Sequence::Strict(1).inc(), Sequence::Strict(2));
    assert_eq!(Sequence::Loose(41).inc(), Sequence::Loose(42));
    assert_eq!(Sequence::Strict(0).inc(), Sequence::Strict(1));
}

#[test]
fn deadline() {
    let start = now_millis();

    let deadline = Deadline::ProcessingTimeoutMillis(100);
    assert_eq!(deadline.duration(start), 100);

    let deadline = Deadline::MessageTimeoutMillis(100);
    assert!(deadline.duration(start) <= 100);

    let deadline = Deadline::MessageTimeoutMillis(100);
    let start = start - 200;
    assert_eq!(deadline.duration(start), 0);
}

#[test]
fn deadline_at_fixed_times() {
    let d = Deadline::MessageTimeoutMillis(100);
    assert_eq!(d.duration_at(1000, 1040), 60);
    assert_eq!(d.duration_at(1000, 1100), 0);
    assert_eq!(d.duration_at(1000, 1000), 0);
    assert_eq!(d.duration_at(2000, 1000), 0);
    assert_eq!(Deadline::MessageTimeoutMillis(u64::MAX).duration_at(i64::MAX - 1, i64::MAX), 0);
    assert_eq!(Deadline::ProcessingTimeoutMillis(7).duration_at(0, 1_000_000), 7);
}

fn compressed_round_trips(make: fn(Option<Compression>) -> Encoding) {
    let foo = "hello 1867384532653698871582487715619812439 1867384532653698871582487715619812439 1867384532653698871582487715619812439".to_string();
    let compressions = [
        None,
        Some(Compression::Deflate),
        Some(Compression::Gzip),
        Some(Compression::Zlib),
        Some(Compression::Snappy),
        Some(Compression::Lz4),
    ];
    for c in compressions.iter() {
        let encoding = make(*c);
        let metadata = Metadata::new(MESSAGE_TYPE.message_type(), encoding, None);
        let serialized = serialize(metadata.encoding(), &foo);
        let encoded = metadata.encoding().encode_serialized(&serialized).unwrap();
        if c.is_some() {
            assert_ne!(encoded, serialized);
        }
        let msg = Message::new(metadata, MessageBytes::new(encoded));
        let decoded = msg.metadata().encoding().decode_serialized(msg.data().data()).unwrap();
        assert_eq!(decoded, serialized);
        assert_eq!(deserialize(encoding, &decoded), foo);
    }
}

#[test]
fn bincode_compressed_encodings() {
    compressed_round_trips(Encoding::Bincode);
}

#[test]
fn json_compressed_encodings() {
    compressed_round_trips(Encoding::JSON);
}

#[test]
fn cbor_compressed_encodings() {
    compressed_round_trips(Encoding::CBOR);
}

#[test]
fn corrupt_compressed_payload_is_a_decoding_error() {
    let encoding = Encoding::Bincode(Some(Compression::Zlib));
    let r = encoding.decode_serialized(&[0xde, 0xad, 0xbe, 0xef]);
    assert!(matches!(r, Err(CodecError::DecodingError { encoding: e, .. }) if e == encoding));
    let r = Compression::Snappy.decompress(&[0xff, 0xff, 0xff, 0xff, 0xff]);
    assert!(r.is_err());
}

#[test]
fn compression_of_empty_input_succeeds() {
    for c in [Compression::Deflate, Compression::Zlib, Compression::Gzip, Compression::Snappy, Compression::Lz4].iter() {
        let z = c.compress(&[]).unwrap();
        assert_eq!(c.decompress(&z).unwrap(), Vec::<u8>::new());
    }
}

#[test]
fn compression_changes_bytes() {
    let data = vec![7u8; 1000];
    for c in [Compression::Deflate, Compression::Zlib, Compression::Gzip, Compression::Snappy, Compression::Lz4].iter() {
        let z = c.compress(&data).unwrap();
        assert_ne!(z, data);
        assert_eq!(c.decompress(&z).unwrap(), data);
    }
}

struct Foo;

impl IsMessage for Foo {
    const MESSAGE_TYPE_ID: MessageTypeId = MessageTypeId(1867384532653698871582487715619812439);
}

#[test]
fn message_type_from_payload_type() {
    let md = Metadata::new(Foo::MESSAGE_TYPE_ID.message_type(), Encoding::Bincode(None), None);
    assert_eq!(md.message_type(), MESSAGE_TYPE.message_type());
    assert_eq!(Foo::MESSAGE_TYPE_ID.ulid(), ULID(1867384532653698871582487715619812439));
}
