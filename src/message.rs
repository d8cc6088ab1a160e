//! Messages: metadata plus a payload, and the byte strings that carry payloads.

use crate::codec::{CodecError, Encoding};
use crate::frame::{decode_frame, encode_frame, frame_bytes};
use crate::metadata::{MessageTypeId, Metadata};
use crate::wire::bytes_to_vec;
use vstd::prelude::*;

verus! {

/// Payload bytes.
#[derive(Debug, Clone, PartialEq, Eq)]
pub struct MessageBytes(pub(crate) Vec<u8>);

impl View for MessageBytes {
    type V = Seq<u8>;

    open(crate) spec fn view(&self) -> Seq<u8> {
        self.0@
    }
}

impl MessageBytes {
    /// Wraps payload bytes.
    pub fn new(bytes: Vec<u8>) -> (r: MessageBytes)
        ensures
            r@ == bytes@,
    {
        MessageBytes(bytes)
    }

    /// Copies payload bytes.
    pub fn from_slice(bytes: &[u8]) -> (r: MessageBytes)
        ensures
            r@ == bytes@,
    {
        MessageBytes(bytes_to_vec(bytes))
    }

    /// The payload bytes.
    pub fn data(&self) -> (r: &[u8])
        ensures
            r@ == self@,
    {
        self.0.as_slice()
    }
}

/// Encrypted payload bytes.
#[derive(Debug, Clone, PartialEq, Eq)]
pub struct EncryptedMessageBytes(pub(crate) Vec<u8>);

impl View for EncryptedMessageBytes {
    type V = Seq<u8>;

    open(crate) spec fn view(&self) -> Seq<u8> {
        self.0@
    }
}

impl EncryptedMessageBytes {
    /// Wraps ciphertext bytes.
    pub fn new(bytes: Vec<u8>) -> (r: EncryptedMessageBytes)
        ensures
            r@ == bytes@,
    {
        EncryptedMessageBytes(bytes)
    }

    /// The ciphertext bytes.
    pub fn data(&self) -> (r: &[u8])
        ensures
            r@ == self@,
    {
        self.0.as_slice()
    }
}

/// Ties a message type to the Rust type of its payload.
pub trait IsMessage {
    /// The message type of the payload type.
    const MESSAGE_TYPE_ID: MessageTypeId;
}

/// A message: metadata and a payload.
#[derive(Debug, Clone)]
pub struct Message<T> {
    pub(crate) metadata: Metadata,
    pub(crate) data: T,
}

impl<T> Message<T> {
    pub open(crate) spec fn spec_metadata(&self) -> Metadata {
        self.metadata
    }

    pub open(crate) spec fn spec_data(&self) -> T {
        self.data
    }

    /// A message with the given metadata and payload.
    pub fn new(metadata: Metadata, data: T) -> (r: Message<T>)
        ensures
            r.spec_metadata() == metadata,
            r.spec_data() == data,
    {
        Message { metadata, data }
    }

    /// The message metadata.
    pub fn metadata(&self) -> (r: Metadata)
        ensures
            r == self.spec_metadata(),
    {
        self.metadata
    }

    /// The message payload.
    pub fn data(&self) -> (r: &T)
        ensures
            *r == self.spec_data(),
    {
        &self.data
    }
}

impl Message<MessageBytes> {
    /// The message on the wire: its frame, followed by its encoding's compression. The
    /// metadata is always written in the binary layout of `frame`, whatever the encoding; the
    /// encoding governs the payload, which is already encoded, and the compression of the
    /// whole frame. The call succeeds whenever the compression accepts the frame's length.
    pub fn to_bytes(&self) -> (r: Result<Vec<u8>, CodecError>)
        ensures
            r is Ok ==> r->Ok_0@ == self.spec_metadata().spec_encoding().spec_encoded(
                frame_bytes(self.spec_metadata(), self.spec_data()@),
            ),
            self.spec_metadata().spec_encoding().spec_accepts(
                frame_bytes(self.spec_metadata(), self.spec_data()@).len(),
            ) ==> r is Ok,
    {
        let frame = encode_frame(&self.metadata, self.data.data());
        self.metadata.encoding().encode_serialized(frame.as_slice())
    }

    /// Reads a message that `to_bytes` wrote under `encoding`. Whatever `to_bytes` produced
    /// for a message whose metadata carries `encoding` is read back as that message; any
    /// other outcome is a decoding error.
    pub fn from_bytes(encoding: Encoding, bytes: &[u8]) -> (r: Result<Message<MessageBytes>, CodecError>)
        ensures
            forall|md: Metadata, d: Seq<u8>|
                #![trigger frame_bytes(md, d)]
                bytes@ == encoding.spec_encoded(frame_bytes(md, d)) ==> (r matches Ok(m)
                    && m.spec_metadata() == md && m.spec_data()@ == d),
            r matches Ok(m) ==> (encoding.spec_compression() is None ==> bytes@ == frame_bytes(
                m.spec_metadata(),
                m.spec_data()@,
            )),
            r matches Err(e) ==> e matches CodecError::DecodingError { encoding: e2, .. } && e2
                == encoding,
    {
        match encoding.decode_serialized(bytes) {
            Err(e) => Err(e),
            Ok(frame) => match decode_frame(frame.as_slice()) {
                Some((metadata, data)) => Ok(Message { metadata, data: MessageBytes(data) }),
                None => Err(
                    CodecError::DecodingError {
                        encoding,
                        cause: String::from_str("invalid message frame"),
                    },
                ),
            },
        }
    }
}

} // verus!
