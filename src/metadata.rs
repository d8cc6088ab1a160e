//! Message metadata: type and instance identifiers, sessions, sequences and deadlines.

use crate::codec::Encoding;
use crate::ids::{now_millis, Domain, DomainULID, ULID};
use vstd::prelude::*;

verus! {

/// Largest payload, in bytes, that a message may carry.
pub const MAX_MSG_SIZE: usize = 256000;

/// Domain of message type identifiers.
pub const MESSAGE_TYPE_DOMAIN: &'static str = "MessageType";

/// Domain of message instance identifiers.
pub const MESSAGE_INSTANCE_ID_DOMAIN: &'static str = "MessageInstanceId";

/// Identifies a message type; it can be written as a constant.
#[derive(Debug, Clone, Copy, PartialEq, Eq, Hash, PartialOrd, Ord, Structural)]
pub struct MessageTypeId(pub u128);

impl MessageTypeId {
    /// The ULID of the identifier.
    pub fn ulid(&self) -> (r: ULID)
        ensures
            r == ULID(self.0),
    {
        ULID(self.0)
    }

    /// The message type that the identifier names.
    pub fn message_type(&self) -> (r: MessageType)
        ensures
            r == MessageType(ULID(self.0)),
    {
        MessageType(ULID(self.0))
    }
}

/// Names the schema of a message's payload.
#[derive(Debug, Clone, Copy, PartialEq, Eq, Hash, PartialOrd, Ord, Structural)]
pub struct MessageType(pub ULID);

impl MessageType {
    /// The ULID of the message type.
    pub fn ulid(&self) -> (r: ULID)
        ensures
            r == self.0,
    {
        self.0
    }

    /// The message type as a ULID of the message type domain.
    pub fn domain_ulid(&self) -> (r: DomainULID)
        ensures
            r.domain == Domain(MESSAGE_TYPE_DOMAIN),
            r.ulid == self.0,
    {
        DomainULID::from_ulid(Domain(MESSAGE_TYPE_DOMAIN), self.0)
    }
}

/// Unique identifier of one message; its timestamp is the message's creation time.
#[derive(Debug, Clone, Copy, PartialEq, Eq, Hash, PartialOrd, Ord, Structural)]
pub struct InstanceId(pub ULID);

impl InstanceId {
    /// A fresh identifier stamped with the current time.
    pub fn generate() -> (r: InstanceId) {
        InstanceId(ULID::generate())
    }

    /// The ULID of the identifier.
    pub fn ulid(&self) -> (r: ULID)
        ensures
            r == self.0,
    {
        self.0
    }

    /// The identifier as a ULID of the message instance domain.
    pub fn domain_ulid(&self) -> (r: DomainULID)
        ensures
            r.domain == Domain(MESSAGE_INSTANCE_ID_DOMAIN),
            r.ulid == self.0,
    {
        DomainULID::from_ulid(Domain(MESSAGE_INSTANCE_ID_DOMAIN), self.0)
    }
}

/// Identifies a session; every message of a connection carries it.
#[derive(Debug, Clone, Copy, PartialEq, Eq, Hash, PartialOrd, Ord, Structural)]
pub struct SessionId(pub ULID);

impl SessionId {
    /// A fresh session identifier.
    pub fn generate() -> (r: SessionId) {
        SessionId(ULID::generate())
    }

    /// The ULID of the session.
    pub fn ulid(&self) -> (r: ULID)
        ensures
            r == self.0,
    {
        self.0
    }
}

/// How long a message may take.
#[derive(Debug, Clone, Copy, PartialEq, Eq, Hash, PartialOrd, Ord, Structural)]
pub enum Deadline {
    /// Time the processor may spend, counted from when processing starts.
    ProcessingTimeoutMillis(u64),
    /// Time from the message's timestamp until it expires.
    MessageTimeoutMillis(u64),
}

impl Deadline {
    /// Milliseconds left at `now` for a message whose clock started at `start` (both in
    /// milliseconds since the Unix epoch).
    pub open(crate) spec fn spec_remaining(self, start: int, now: int) -> int {
        match self {
            Deadline::ProcessingTimeoutMillis(d) => d as int,
            Deadline::MessageTimeoutMillis(d) => {
                if start >= now || start + d > i64::MAX || now >= start + d {
                    0
                } else {
                    start + d - now
                }
            },
        }
    }

    /// Milliseconds left at `now`: the timeout itself for a processing timeout; for a message
    /// timeout, what is left of it since `starting_time`, or zero when `starting_time` is not
    /// before `now`, when the end would overflow, or when it has passed.
    pub fn duration_at(&self, starting_time: i64, now: i64) -> (r: u64)
        ensures
            r == self.spec_remaining(starting_time as int, now as int),
    {
        match *self {
            Deadline::ProcessingTimeoutMillis(d) => d,
            Deadline::MessageTimeoutMillis(d) => {
                if starting_time >= now {
                    return 0;
                }
                let end: i128 = starting_time as i128 + d as i128;
                if end > i64::MAX as i128 || now as i128 >= end {
                    0
                } else {
                    (end - now as i128) as u64
                }
            },
        }
    }

    /// Milliseconds left now, for a message whose clock started at `starting_time`
    /// (milliseconds since the Unix epoch).
    pub fn duration(&self, starting_time: i64) -> (r: u64)
        ensures
            exists|now: i64| r == self.spec_remaining(starting_time as int, now as int),
            match *self {
                Deadline::ProcessingTimeoutMillis(d) => r == d,
                Deadline::MessageTimeoutMillis(d) => r <= d,
            },
    {
        let now = now_millis();
        self.duration_at(starting_time, now)
    }
}

/// A message timeout whose clock started longer ago than the timeout leaves no time.
pub proof fn lemma_expired_message_timeout(d: u64, start: int, now: int)
    requires
        now - start > d,
    ensures
        Deadline::MessageTimeoutMillis(d).spec_remaining(start, now) == 0,
{
}

/// Message metadata. A value: the `set_*` builders return modified copies.
#[derive(Debug, Clone, Copy, PartialEq, Eq, Hash, Structural)]
pub struct Metadata {
    pub(crate) msg_type: MessageType,
    pub(crate) instance_id: InstanceId,
    pub(crate) encoding: Encoding,
    pub(crate) deadline: Option<Deadline>,
    pub(crate) correlation_id: Option<InstanceId>,
    pub(crate) session_id: SessionId,
    pub(crate) sequence: Option<Sequence>,
}

impl Metadata {
    pub open(crate) spec fn spec_message_type(self) -> MessageType {
        self.msg_type
    }

    pub open(crate) spec fn spec_instance_id(self) -> InstanceId {
        self.instance_id
    }

    pub open(crate) spec fn spec_encoding(self) -> Encoding {
        self.encoding
    }

    pub open(crate) spec fn spec_deadline(self) -> Option<Deadline> {
        self.deadline
    }

    pub open(crate) spec fn spec_correlation_id(self) -> Option<InstanceId> {
        self.correlation_id
    }

    pub open(crate) spec fn spec_session_id(self) -> SessionId {
        self.session_id
    }

    pub open(crate) spec fn spec_sequence(self) -> Option<Sequence> {
        self.sequence
    }

    /// Metadata with every field given.
    pub fn from_parts(
        msg_type: MessageType,
        instance_id: InstanceId,
        encoding: Encoding,
        deadline: Option<Deadline>,
        correlation_id: Option<InstanceId>,
        session_id: SessionId,
        sequence: Option<Sequence>,
    ) -> (r: Metadata)
        ensures
            r.spec_message_type() == msg_type,
            r.spec_instance_id() == instance_id,
            r.spec_encoding() == encoding,
            r.spec_deadline() == deadline,
            r.spec_correlation_id() == correlation_id,
            r.spec_session_id() == session_id,
            r.spec_sequence() == sequence,
    {
        Metadata { msg_type, instance_id, encoding, deadline, correlation_id, session_id, sequence }
    }

    /// New metadata with a fresh instance id and session id, no correlation and no sequence.
    pub fn new(msg_type: MessageType, encoding: Encoding, deadline: Option<Deadline>) -> (r:
        Metadata)
        ensures
            r.spec_message_type() == msg_type,
            r.spec_encoding() == encoding,
            r.spec_deadline() == deadline,
            r.spec_correlation_id() is None,
            r.spec_sequence() is None,
    {
        Metadata {
            msg_type,
            instance_id: InstanceId::generate(),
            encoding,
            deadline,
            correlation_id: None,
            session_id: SessionId::generate(),
            sequence: None,
        }
    }

    /// A copy with the session id replaced.
    pub fn set_session_id(self, session_id: SessionId) -> (r: Metadata)
        ensures
            r.spec_session_id() == session_id,
            r.spec_message_type() == self.spec_message_type(),
            r.spec_instance_id() == self.spec_instance_id(),
            r.spec_encoding() == self.spec_encoding(),
            r.spec_deadline() == self.spec_deadline(),
            r.spec_correlation_id() == self.spec_correlation_id(),
            r.spec_sequence() == self.spec_sequence(),
    {
        let mut md = self;
        md.session_id = session_id;
        md
    }

    /// A copy with the sequence set.
    pub fn set_sequence(self, sequence: Sequence) -> (r: Metadata)
        ensures
            r.spec_sequence() == Some(sequence),
            r.spec_message_type() == self.spec_message_type(),
            r.spec_instance_id() == self.spec_instance_id(),
            r.spec_encoding() == self.spec_encoding(),
            r.spec_deadline() == self.spec_deadline(),
            r.spec_correlation_id() == self.spec_correlation_id(),
            r.spec_session_id() == self.spec_session_id(),
    {
        let mut md = self;
        md.sequence = Some(sequence);
        md
    }

    /// A copy correlated with another message instance, e.g. a reply with its request.
    pub fn correlate(self, instance_id: InstanceId) -> (r: Metadata)
        ensures
            r.spec_correlation_id() == Some(instance_id),
            r.spec_message_type() == self.spec_message_type(),
            r.spec_instance_id() == self.spec_instance_id(),
            r.spec_encoding() == self.spec_encoding(),
            r.spec_deadline() == self.spec_deadline(),
            r.spec_session_id() == self.spec_session_id(),
            r.spec_sequence() == self.spec_sequence(),
    {
        let mut md = self;
        md.correlation_id = Some(instance_id);
        md
    }

    /// The message instance that this message is correlated with, if any.
    pub fn correlation_id(&self) -> (r: Option<InstanceId>)
        ensures
            r == self.spec_correlation_id(),
    {
        self.correlation_id
    }

    /// The message type.
    pub fn message_type(&self) -> (r: MessageType)
        ensures
            r == self.spec_message_type(),
    {
        self.msg_type
    }

    /// The unique identifier of this message instance.
    pub fn instance_id(&self) -> (r: InstanceId)
        ensures
            r == self.spec_instance_id(),
    {
        self.instance_id
    }

    /// When the message was created, in milliseconds since the Unix epoch (modulo `2^48`), as
    /// its instance id records it.
    pub fn timestamp_millis(&self) -> (r: u64)
        ensures
            r == self.spec_instance_id().0.spec_timestamp(),
    {
        self.instance_id.0.timestamp_millis()
    }

    /// The deadline, if any.
    pub fn deadline(&self) -> (r: Option<Deadline>)
        ensures
            r == self.spec_deadline(),
    {
        self.deadline
    }

    /// The payload encoding.
    pub fn encoding(&self) -> (r: Encoding)
        ensures
            r == self.spec_encoding(),
    {
        self.encoding
    }

    /// The sequence within the session, if any.
    pub fn sequence(&self) -> (r: Option<Sequence>)
        ensures
            r == self.spec_sequence(),
    {
        self.sequence
    }

    /// The session that the message belongs to.
    pub fn session_id(&self) -> (r: SessionId)
        ensures
            r == self.spec_session_id(),
    {
        self.session_id
    }
}

/// Message sequence, relative to the message's session.
#[derive(Debug, Clone, Copy, PartialEq, Eq, Hash, PartialOrd, Ord, Structural)]
pub enum Sequence {
    /// Messages are processed strictly in order within the session.
    Strict(u64),
    /// Stale messages are rejected, but gaps are allowed.
    Loose(u64),
}

impl Sequence {
    /// The sequence number.
    pub open spec fn value(self) -> u64 {
        match self {
            Sequence::Strict(n) => n,
            Sequence::Loose(n) => n,
        }
    }

    /// Increments the sequence value, keeping its kind.
    pub fn inc(self) -> (r: Sequence)
        requires
            self.value() < u64::MAX,
        ensures
            r == (match self {
                Sequence::Strict(n) => Sequence::Strict((n + 1) as u64),
                Sequence::Loose(n) => Sequence::Loose((n + 1) as u64),
            }),
    {
        match self {
            Sequence::Strict(n) => Sequence::Strict(n + 1),
            Sequence::Loose(n) => Sequence::Loose(n + 1),
        }
    }
}

} // verus!
