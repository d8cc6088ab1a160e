//! The binary layout of message metadata and of a message frame.
//!
//! Integers are little-endian; enum variants are written as their `u32` index; an optional
//! field is a presence byte (`0` or `1`) followed by the value when present. A frame is the
//! metadata, the payload length as a `u64`, then the payload bytes.

use crate::codec::{Compression, Encoding};
use crate::ids::ULID;
use crate::metadata::{Deadline, InstanceId, MessageType, Metadata, Sequence, SessionId};
use crate::wire::{
    le_bytes, lemma_le_bytes_len, lemma_le_round_trip, lemma_le_value_bound, lemma_le_value_bytes,
    lemma_pow256_16, pow256, read_bytes, read_le, write_bytes, write_le,
};
use vstd::prelude::*;

verus! {

/// `x` stands in `b` at `pos`.
pub open spec fn is_prefix_at(b: Seq<u8>, pos: int, x: Seq<u8>) -> bool {
    0 <= pos && pos + x.len() <= b.len() && b.subrange(pos, pos + x.len()) == x
}

proof fn lemma_prefix_split(b: Seq<u8>, pos: int, x: Seq<u8>, y: Seq<u8>)
    requires
        is_prefix_at(b, pos, x + y),
    ensures
        is_prefix_at(b, pos, x),
        is_prefix_at(b, pos + x.len(), y),
{
    let whole = b.subrange(pos, pos + x.len() + y.len());
    assert(whole == x + y);
    assert(b.subrange(pos, pos + x.len()) =~= whole.subrange(0, x.len() as int));
    assert(whole.subrange(0, x.len() as int) =~= x);
    assert(b.subrange(pos + x.len(), pos + x.len() + y.len()) =~= whole.subrange(
        x.len() as int,
        (x.len() + y.len()) as int,
    ));
    assert(whole.subrange(x.len() as int, (x.len() + y.len()) as int) =~= y);
}

proof fn lemma_join(b: Seq<u8>, p0: int, p1: int, p2: int, x: Seq<u8>, y: Seq<u8>)
    requires
        0 <= p0 <= p1 <= p2 <= b.len(),
        b.subrange(p0, p1) == x,
        b.subrange(p1, p2) == y,
    ensures
        b.subrange(p0, p2) == x + y,
{
    assert(b.subrange(p0, p2) =~= x + y);
}

/// A ULID on the wire.
pub open spec fn ulid_bytes(u: ULID) -> Seq<u8> {
    le_bytes(u.0 as nat, 16)
}

pub open spec fn compression_index(c: Compression) -> nat {
    match c {
        Compression::Deflate => 0,
        Compression::Zlib => 1,
        Compression::Gzip => 2,
        Compression::Snappy => 3,
        Compression::Lz4 => 4,
    }
}

pub open spec fn encoding_index(e: Encoding) -> nat {
    match e {
        Encoding::Bincode(_) => 0,
        Encoding::CBOR(_) => 1,
        Encoding::JSON(_) => 2,
    }
}

pub open spec fn option_compression_bytes(c: Option<Compression>) -> Seq<u8> {
    match c {
        None => seq![0u8],
        Some(c) => seq![1u8] + le_bytes(compression_index(c), 4),
    }
}

/// An encoding on the wire.
pub open spec fn encoding_bytes(e: Encoding) -> Seq<u8> {
    le_bytes(encoding_index(e), 4) + option_compression_bytes(e.spec_compression())
}

/// A variant index and a `u64` on the wire: the shape of a deadline and of a sequence.
pub open spec fn tagged_bytes(tag: nat, v: u64) -> Seq<u8> {
    le_bytes(tag, 4) + le_bytes(v as nat, 8)
}

pub open spec fn deadline_parts(d: Deadline) -> (nat, u64) {
    match d {
        Deadline::ProcessingTimeoutMillis(v) => (0, v),
        Deadline::MessageTimeoutMillis(v) => (1, v),
    }
}

pub open spec fn sequence_parts(s: Sequence) -> (nat, u64) {
    match s {
        Sequence::Strict(v) => (0, v),
        Sequence::Loose(v) => (1, v),
    }
}

pub open spec fn option_tagged_bytes(o: Option<(nat, u64)>) -> Seq<u8> {
    match o {
        None => seq![0u8],
        Some((t, v)) => seq![1u8] + tagged_bytes(t, v),
    }
}

pub open spec fn option_deadline_parts(d: Option<Deadline>) -> Option<(nat, u64)> {
    match d {
        None => None,
        Some(d) => Some(deadline_parts(d)),
    }
}

pub open spec fn option_sequence_parts(s: Option<Sequence>) -> Option<(nat, u64)> {
    match s {
        None => None,
        Some(s) => Some(sequence_parts(s)),
    }
}

pub open spec fn option_parts_nat(o: Option<(u128, u64)>) -> Option<(nat, u64)> {
    match o {
        None => None,
        Some((t, v)) => Some((t as nat, v)),
    }
}

pub open spec fn option_deadline_bytes(d: Option<Deadline>) -> Seq<u8> {
    option_tagged_bytes(option_deadline_parts(d))
}

pub open spec fn option_sequence_bytes(s: Option<Sequence>) -> Seq<u8> {
    option_tagged_bytes(option_sequence_parts(s))
}

proof fn lemma_join7(
    b: Seq<u8>,
    p: Seq<int>,
    a1: Seq<u8>,
    a2: Seq<u8>,
    a3: Seq<u8>,
    a4: Seq<u8>,
    a5: Seq<u8>,
    a6: Seq<u8>,
    a7: Seq<u8>,
)
    requires
        p.len() == 8,
        0 <= p[0] <= p[1] <= p[2] <= p[3] <= p[4] <= p[5] <= p[6] <= p[7] <= b.len(),
        b.subrange(p[0], p[1]) == a1,
        b.subrange(p[1], p[2]) == a2,
        b.subrange(p[2], p[3]) == a3,
        b.subrange(p[3], p[4]) == a4,
        b.subrange(p[4], p[5]) == a5,
        b.subrange(p[5], p[6]) == a6,
        b.subrange(p[6], p[7]) == a7,
    ensures
        b.subrange(p[0], p[7]) == a1 + a2 + a3 + a4 + a5 + a6 + a7,
{
    lemma_join(b, p[0], p[1], p[2], a1, a2);
    lemma_join(b, p[0], p[2], p[3], a1 + a2, a3);
    lemma_join(b, p[0], p[3], p[4], a1 + a2 + a3, a4);
    lemma_join(b, p[0], p[4], p[5], a1 + a2 + a3 + a4, a5);
    lemma_join(b, p[0], p[5], p[6], a1 + a2 + a3 + a4 + a5, a6);
    lemma_join(b, p[0], p[6], p[7], a1 + a2 + a3 + a4 + a5 + a6, a7);
}

proof fn lemma_split7(
    b: Seq<u8>,
    p: int,
    a1: Seq<u8>,
    a2: Seq<u8>,
    a3: Seq<u8>,
    a4: Seq<u8>,
    a5: Seq<u8>,
    a6: Seq<u8>,
    a7: Seq<u8>,
)
    requires
        is_prefix_at(b, p, a1 + a2 + a3 + a4 + a5 + a6 + a7),
    ensures
        is_prefix_at(b, p, a1),
        is_prefix_at(b, p + a1.len(), a2),
        is_prefix_at(b, p + a1.len() + a2.len(), a3),
        is_prefix_at(b, p + a1.len() + a2.len() + a3.len(), a4),
        is_prefix_at(b, p + a1.len() + a2.len() + a3.len() + a4.len(), a5),
        is_prefix_at(b, p + a1.len() + a2.len() + a3.len() + a4.len() + a5.len(), a6),
        is_prefix_at(b, p + a1.len() + a2.len() + a3.len() + a4.len() + a5.len() + a6.len(), a7),
{
    lemma_prefix_split(b, p, a1 + a2 + a3 + a4 + a5 + a6, a7);
    lemma_prefix_split(b, p, a1 + a2 + a3 + a4 + a5, a6);
    lemma_prefix_split(b, p, a1 + a2 + a3 + a4, a5);
    lemma_prefix_split(b, p, a1 + a2 + a3, a4);
    lemma_prefix_split(b, p, a1 + a2, a3);
    lemma_prefix_split(b, p, a1, a2);
}

fn deadline_from_parts(o: Option<(u128, u64)>) -> (r: Option<Deadline>)
    requires
        o matches Some((t, _)) ==> t < 2,
    ensures
        option_deadline_parts(r) == option_parts_nat(o),
        forall|d: Option<Deadline>| option_deadline_parts(d) == option_parts_nat(o) ==> r == d,
{
    match o {
        None => None,
        Some((t, v)) => if t == 0 {
            Some(Deadline::ProcessingTimeoutMillis(v))
        } else {
            Some(Deadline::MessageTimeoutMillis(v))
        },
    }
}

fn sequence_from_parts(o: Option<(u128, u64)>) -> (r: Option<Sequence>)
    requires
        o matches Some((t, _)) ==> t < 2,
    ensures
        option_sequence_parts(r) == option_parts_nat(o),
        forall|s: Option<Sequence>| option_sequence_parts(s) == option_parts_nat(o) ==> r == s,
{
    match o {
        None => None,
        Some((t, v)) => if t == 0 {
            Some(Sequence::Strict(v))
        } else {
            Some(Sequence::Loose(v))
        },
    }
}

pub open spec fn option_ulid_bytes(o: Option<ULID>) -> Seq<u8> {
    match o {
        None => seq![0u8],
        Some(u) => seq![1u8] + ulid_bytes(u),
    }
}

/// Metadata on the wire, its fields in declaration order.
pub open spec fn metadata_bytes(md: Metadata) -> Seq<u8> {
    ulid_bytes(md.spec_message_type().0) + ulid_bytes(md.spec_instance_id().0) + encoding_bytes(
        md.spec_encoding(),
    ) + option_deadline_bytes(md.spec_deadline()) + option_ulid_bytes(
        match md.spec_correlation_id() {
            None => None,
            Some(i) => Some(i.0),
        },
    ) + ulid_bytes(md.spec_session_id().0) + option_sequence_bytes(md.spec_sequence())
}

/// A message frame: metadata, payload length, payload.
pub open spec fn frame_bytes(md: Metadata, data: Seq<u8>) -> Seq<u8> {
    metadata_bytes(md) + le_bytes(data.len(), 8) + data
}

/// Reads an `n`-byte little-endian integer at `pos`.
fn read_uint(b: &[u8], pos: usize, n: usize) -> (r: Option<(u128, usize)>)
    requires
        n <= 16,
        pos <= b@.len(),
    ensures
        r matches Some((v, end)) ==> end == pos + n && end <= b@.len() && v < pow256(n as nat) && b@.subrange(
            pos as int,
            end as int,
        ) == le_bytes(v as nat, n as nat),
        forall|x: nat|
            x < pow256(n as nat) && #[trigger] is_prefix_at(b@, pos as int, le_bytes(x, n as nat))
                ==> r == Some((x as u128, (pos + n) as usize)),
{
    if n > b.len() - pos {
        proof {
            assert forall|x: nat|
                x < pow256(n as nat) && #[trigger] is_prefix_at(
                    b@,
                    pos as int,
                    le_bytes(x, n as nat),
                ) implies false by {
                lemma_le_bytes_len(x, n as nat);
            }
        }
        return None;
    }
    let v = read_le(b, pos, n);
    proof {
        let sub = b@.subrange(pos as int, pos + n);
        lemma_le_value_bytes(sub);
        lemma_le_value_bound(sub);
        assert forall|x: nat|
            x < pow256(n as nat) && #[trigger] is_prefix_at(
                b@,
                pos as int,
                le_bytes(x, n as nat),
            ) implies v == x by {
            lemma_le_round_trip(x, n as nat);
        }
    }
    Some((v, pos + n))
}

fn read_tag(b: &[u8], pos: usize) -> (r: Option<(u8, usize)>)
    requires
        pos <= b@.len(),
    ensures
        r matches Some((t, end)) ==> end == pos + 1 && end <= b@.len() && b@.subrange(pos as int, end as int) == seq![
            t,
        ],
        forall|t: u8| #[trigger] is_prefix_at(b@, pos as int, seq![t]) ==> r == Some((t, (pos + 1) as usize)),
{
    if pos >= b.len() {
        return None;
    }
    let t = b[pos];
    assert(b@.subrange(pos as int, pos + 1) =~= seq![t]);
    proof {
        assert forall|u: u8| #[trigger] is_prefix_at(b@, pos as int, seq![u]) implies u == t by {
            assert(b@.subrange(pos as int, pos + 1)[0] == u);
        }
    }
    Some((t, pos + 1))
}

fn compression_from_index(i: u128) -> (r: Option<Compression>)
    ensures
        r matches Some(c) ==> compression_index(c) == i,
        forall|c: Compression| compression_index(c) == i ==> r == Some(c),
{
    if i == 0 {
        Some(Compression::Deflate)
    } else if i == 1 {
        Some(Compression::Zlib)
    } else if i == 2 {
        Some(Compression::Gzip)
    } else if i == 3 {
        Some(Compression::Snappy)
    } else if i == 4 {
        Some(Compression::Lz4)
    } else {
        None
    }
}

fn read_option_compression(b: &[u8], pos: usize) -> (r: Option<(Option<Compression>, usize)>)
    requires
        pos <= b@.len(),
    ensures
        r matches Some((c, end)) ==> pos <= end <= b@.len() && b@.subrange(pos as int, end as int)
            == option_compression_bytes(c),
        forall|c: Option<Compression>| #[trigger]
            is_prefix_at(b@, pos as int, option_compression_bytes(c)) ==> r == Some(
                (c, (pos + option_compression_bytes(c).len()) as usize),
            ),
{
    proof {
        lemma_pow256_16();
    }
    let r = match read_tag(b, pos) {
        None => None,
        Some((t, p1)) => {
            if t == 0 {
                Some((None, p1))
            } else if t == 1 {
                match read_uint(b, p1, 4) {
                    None => None,
                    Some((i, p2)) => match compression_from_index(i) {
                        None => None,
                        Some(c) => {
                            proof {
                                lemma_join(b@, pos as int, p1 as int, p2 as int, seq![1u8], le_bytes(i as nat, 4));
                            }
                            Some((Some(c), p2))
                        },
                    },
                }
            } else {
                None
            }
        },
    };
    proof {
        assert forall|c: Option<Compression>| #[trigger]
            is_prefix_at(b@, pos as int, option_compression_bytes(c)) implies r == Some(
                (c, (pos + option_compression_bytes(c).len()) as usize),
            ) by {
            match c {
                None => {
                    assert(is_prefix_at(b@, pos as int, seq![0u8]));
                },
                Some(cc) => {
                    lemma_prefix_split(b@, pos as int, seq![1u8], le_bytes(compression_index(cc), 4));
                    lemma_le_bytes_len(compression_index(cc), 4);
                    assert(is_prefix_at(b@, pos as int, seq![1u8]));
                    assert(is_prefix_at(b@, pos + 1, le_bytes(compression_index(cc), 4)));
                },
            }
        }
    }
    r
}

fn read_encoding(b: &[u8], pos: usize) -> (r: Option<(Encoding, usize)>)
    requires
        pos <= b@.len(),
    ensures
        r matches Some((e, end)) ==> pos <= end <= b@.len() && b@.subrange(pos as int, end as int)
            == encoding_bytes(e),
        forall|e: Encoding| #[trigger]
            is_prefix_at(b@, pos as int, encoding_bytes(e)) ==> r == Some(
                (e, (pos + encoding_bytes(e).len()) as usize),
            ),
{
    proof {
        lemma_pow256_16();
    }
    let r = match read_uint(b, pos, 4) {
        None => None,
        Some((i, p1)) => match read_option_compression(b, p1) {
            None => None,
            Some((c, p2)) => {
                let e = if i == 0 {
                    Some(Encoding::Bincode(c))
                } else if i == 1 {
                    Some(Encoding::CBOR(c))
                } else if i == 2 {
                    Some(Encoding::JSON(c))
                } else {
                    None
                };
                match e {
                    None => None,
                    Some(e) => {
                        proof {
                            lemma_join(b@, pos as int, p1 as int, p2 as int, le_bytes(i as nat, 4), option_compression_bytes(c));
                        }
                        Some((e, p2))
                    },
                }
            },
        },
    };
    proof {
        assert forall|e: Encoding| #[trigger]
            is_prefix_at(b@, pos as int, encoding_bytes(e)) implies r == Some(
                (e, (pos + encoding_bytes(e).len()) as usize),
            ) by {
            lemma_prefix_split(b@, pos as int, le_bytes(encoding_index(e), 4), option_compression_bytes(e.spec_compression()));
            lemma_le_bytes_len(encoding_index(e), 4);
        }
    }
    r
}

fn read_option_tagged(b: &[u8], pos: usize) -> (r: Option<(Option<(u128, u64)>, usize)>)
    requires
        pos <= b@.len(),
    ensures
        r matches Some((o, end)) ==> pos <= end <= b@.len() && (o matches Some((t, _)) ==> t < 2)
            && b@.subrange(pos as int, end as int) == option_tagged_bytes(option_parts_nat(o)),
        forall|o: Option<(nat, u64)>|
            (o matches Some((t, _)) ==> t < 2) && #[trigger] is_prefix_at(
                b@,
                pos as int,
                option_tagged_bytes(o),
            ) ==> r == Some(
                (
                    match o {
                        None => None,
                        Some((t, v)) => Some((t as u128, v)),
                    },
                    (pos + option_tagged_bytes(o).len()) as usize,
                ),
            ),
{
    proof {
        lemma_pow256_16();
    }
    let r = match read_tag(b, pos) {
        None => None,
        Some((flag, p1)) => {
            if flag == 0 {
                Some((None, p1))
            } else if flag == 1 {
                match read_uint(b, p1, 4) {
                    None => None,
                    Some((t, p2)) => match read_uint(b, p2, 8) {
                        None => None,
                        Some((v, p3)) => {
                            if t < 2 {
                                proof {
                                    lemma_join(b@, p1 as int, p2 as int, p3 as int, le_bytes(t as nat, 4), le_bytes(v as nat, 8));
                                    lemma_join(b@, pos as int, p1 as int, p3 as int, seq![1u8], tagged_bytes(t as nat, v as u64));
                                }
                                Some((Some((t, v as u64)), p3))
                            } else {
                                None
                            }
                        },
                    },
                }
            } else {
                None
            }
        },
    };
    proof {
        assert forall|o: Option<(nat, u64)>|
            (o matches Some((t, _)) ==> t < 2) && #[trigger] is_prefix_at(
                b@,
                pos as int,
                option_tagged_bytes(o),
            ) implies r == Some(
                (
                    match o {
                        None => None,
                        Some((t, v)) => Some((t as u128, v)),
                    },
                    (pos + option_tagged_bytes(o).len()) as usize,
                ),
            ) by {
            match o {
                None => {
                    assert(is_prefix_at(b@, pos as int, seq![0u8]));
                },
                Some((t, v)) => {
                    lemma_prefix_split(b@, pos as int, seq![1u8], tagged_bytes(t, v));
                    lemma_prefix_split(b@, pos + 1, le_bytes(t, 4), le_bytes(v as nat, 8));
                    lemma_le_bytes_len(t, 4);
                    lemma_le_bytes_len(v as nat, 8);
                    assert(is_prefix_at(b@, pos as int, seq![1u8]));
                },
            }
        }
    }
    r
}

fn read_option_ulid(b: &[u8], pos: usize) -> (r: Option<(Option<ULID>, usize)>)
    requires
        pos <= b@.len(),
    ensures
        r matches Some((o, end)) ==> pos <= end <= b@.len() && b@.subrange(pos as int, end as int)
            == option_ulid_bytes(o),
        forall|o: Option<ULID>| #[trigger]
            is_prefix_at(b@, pos as int, option_ulid_bytes(o)) ==> r == Some(
                (o, (pos + option_ulid_bytes(o).len()) as usize),
            ),
{
    proof {
        lemma_pow256_16();
    }
    let r = match read_tag(b, pos) {
        None => None,
        Some((flag, p1)) => {
            if flag == 0 {
                Some((None, p1))
            } else if flag == 1 {
                match read_uint(b, p1, 16) {
                    None => None,
                    Some((v, p2)) => {
                        proof {
                            lemma_join(b@, pos as int, p1 as int, p2 as int, seq![1u8], le_bytes(v as nat, 16));
                        }
                        Some((Some(ULID(v)), p2))
                    },
                }
            } else {
                None
            }
        },
    };
    proof {
        assert forall|o: Option<ULID>| #[trigger]
            is_prefix_at(b@, pos as int, option_ulid_bytes(o)) implies r == Some(
                (o, (pos + option_ulid_bytes(o).len()) as usize),
            ) by {
            match o {
                None => {
                    assert(is_prefix_at(b@, pos as int, seq![0u8]));
                },
                Some(u) => {
                    lemma_prefix_split(b@, pos as int, seq![1u8], ulid_bytes(u));
                    lemma_le_bytes_len(u.0 as nat, 16);
                    assert(is_prefix_at(b@, pos as int, seq![1u8]));
                },
            }
        }
    }
    r
}

fn read_ulid(b: &[u8], pos: usize) -> (r: Option<(ULID, usize)>)
    requires
        pos <= b@.len(),
    ensures
        r matches Some((u, end)) ==> pos <= end <= b@.len() && b@.subrange(pos as int, end as int)
            == ulid_bytes(u),
        forall|u: ULID| #[trigger]
            is_prefix_at(b@, pos as int, ulid_bytes(u)) ==> r == Some((u, (pos + 16) as usize)),
{
    proof {
        lemma_pow256_16();
    }
    match read_uint(b, pos, 16) {
        None => None,
        Some((v, p)) => Some((ULID(v), p)),
    }
}

#[verifier::rlimit(40)]
fn read_metadata(b: &[u8], pos: usize) -> (r: Option<(Metadata, usize)>)
    requires
        pos <= b@.len(),
    ensures
        r matches Some((md, end)) ==> pos <= end <= b@.len() && b@.subrange(pos as int, end as int)
            == metadata_bytes(md),
        forall|md: Metadata| #[trigger]
            is_prefix_at(b@, pos as int, metadata_bytes(md)) ==> r == Some(
                (md, (pos + metadata_bytes(md).len()) as usize),
            ),
{
    let r = match read_ulid(b, pos) {
        None => None,
        Some((t, p1)) => match read_ulid(b, p1) {
            None => None,
            Some((i, p2)) => match read_encoding(b, p2) {
                None => None,
                Some((e, p3)) => match read_option_tagged(b, p3) {
                    None => None,
                    Some((d, p4)) => match read_option_ulid(b, p4) {
                        None => None,
                        Some((c, p5)) => match read_ulid(b, p5) {
                            None => None,
                            Some((s, p6)) => match read_option_tagged(b, p6) {
                                None => None,
                                Some((q, p7)) => {
                                    let deadline = deadline_from_parts(d);
                                    let correlation_id = match c {
                                        None => None,
                                        Some(u) => Some(InstanceId(u)),
                                    };
                                    let sequence = sequence_from_parts(q);
                                    let md = Metadata {
                                        msg_type: MessageType(t),
                                        instance_id: InstanceId(i),
                                        encoding: e,
                                        deadline,
                                        correlation_id,
                                        session_id: SessionId(s),
                                        sequence,
                                    };
                                    proof {
                                        lemma_join7(
                                            b@,
                                            seq![pos as int, p1 as int, p2 as int, p3 as int, p4 as int, p5 as int, p6 as int, p7 as int],
                                            ulid_bytes(t),
                                            ulid_bytes(i),
                                            encoding_bytes(e),
                                            option_deadline_bytes(deadline),
                                            option_ulid_bytes(c),
                                            ulid_bytes(s),
                                            option_sequence_bytes(sequence),
                                        );
                                    }
                                    Some((md, p7))
                                },
                            },
                        },
                    },
                },
            },
        },
    };
    proof {
        assert forall|md: Metadata| #[trigger]
            is_prefix_at(b@, pos as int, metadata_bytes(md)) implies r == Some(
                (md, (pos + metadata_bytes(md).len()) as usize),
            ) by {
            let corr = match md.correlation_id {
                None => None,
                Some(i) => Some(i.0),
            };
            lemma_split7(
                b@,
                pos as int,
                ulid_bytes(md.msg_type.0),
                ulid_bytes(md.instance_id.0),
                encoding_bytes(md.encoding),
                option_tagged_bytes(option_deadline_parts(md.deadline)),
                option_ulid_bytes(corr),
                ulid_bytes(md.session_id.0),
                option_tagged_bytes(option_sequence_parts(md.sequence)),
            );
            lemma_le_bytes_len(md.msg_type.0.0 as nat, 16);
            lemma_le_bytes_len(md.instance_id.0.0 as nat, 16);
            lemma_le_bytes_len(md.session_id.0.0 as nat, 16);
        }
    }
    r
}

fn write_ulid(out: &mut Vec<u8>, u: ULID)
    ensures
        final(out)@ == old(out)@ + ulid_bytes(u),
{
    proof {
        lemma_pow256_16();
    }
    write_le(out, u.0, 16);
}

fn write_option_tagged(out: &mut Vec<u8>, o: Option<(u32, u64)>)
    ensures
        final(out)@ == old(out)@ + option_tagged_bytes(
            match o {
                None => None,
                Some((t, v)) => Some((t as nat, v)),
            },
        ),
{
    proof {
        lemma_pow256_16();
    }
    match o {
        None => {
            out.push(0u8);
        },
        Some((t, v)) => {
            let ghost before = out@;
            out.push(1u8);
            write_le(out, t as u128, 4);
            write_le(out, v as u128, 8);
            assert(out@ =~= before + (seq![1u8] + tagged_bytes(t as nat, v)));
        },
    }
}

fn write_encoding(out: &mut Vec<u8>, e: Encoding)
    ensures
        final(out)@ == old(out)@ + encoding_bytes(e),
{
    proof {
        lemma_pow256_16();
    }
    let ghost before = out@;
    let (ei, c): (u32, Option<Compression>) = match e {
        Encoding::Bincode(c) => (0, c),
        Encoding::CBOR(c) => (1, c),
        Encoding::JSON(c) => (2, c),
    };
    write_le(out, ei as u128, 4);
    match c {
        None => {
            out.push(0u8);
        },
        Some(c) => {
            let ci: u32 = match c {
                Compression::Deflate => 0,
                Compression::Zlib => 1,
                Compression::Gzip => 2,
                Compression::Snappy => 3,
                Compression::Lz4 => 4,
            };
            out.push(1u8);
            write_le(out, ci as u128, 4);
        },
    }
    assert(out@ =~= before + encoding_bytes(e));
}

fn write_option_deadline(out: &mut Vec<u8>, d: Option<Deadline>)
    ensures
        final(out)@ == old(out)@ + option_deadline_bytes(d),
{
    write_option_tagged(
        out,
        match d {
            None => None,
            Some(Deadline::ProcessingTimeoutMillis(v)) => Some((0u32, v)),
            Some(Deadline::MessageTimeoutMillis(v)) => Some((1u32, v)),
        },
    );
}

fn write_option_sequence(out: &mut Vec<u8>, s: Option<Sequence>)
    ensures
        final(out)@ == old(out)@ + option_sequence_bytes(s),
{
    write_option_tagged(
        out,
        match s {
            None => None,
            Some(Sequence::Strict(v)) => Some((0u32, v)),
            Some(Sequence::Loose(v)) => Some((1u32, v)),
        },
    );
}

fn write_option_ulid(out: &mut Vec<u8>, o: Option<ULID>)
    ensures
        final(out)@ == old(out)@ + option_ulid_bytes(o),
{
    let ghost before = out@;
    match o {
        None => {
            out.push(0u8);
        },
        Some(u) => {
            out.push(1u8);
            write_ulid(out, u);
        },
    }
    assert(out@ =~= before + option_ulid_bytes(o));
}

fn write_metadata(out: &mut Vec<u8>, md: &Metadata)
    ensures
        final(out)@ == old(out)@ + metadata_bytes(*md),
{
    let ghost before = out@;
    write_ulid(out, md.msg_type.0);
    write_ulid(out, md.instance_id.0);
    write_encoding(out, md.encoding);
    write_option_deadline(out, md.deadline);
    let corr = match md.correlation_id {
        None => None,
        Some(i) => Some(i.0),
    };
    write_option_ulid(out, corr);
    write_ulid(out, md.session_id.0);
    write_option_sequence(out, md.sequence);
    assert(out@ =~= before + metadata_bytes(*md));
}

/// The frame of a message: its metadata, the payload length and the payload.
pub fn encode_frame(md: &Metadata, data: &[u8]) -> (r: Vec<u8>)
    ensures
        r@ == frame_bytes(*md, data@),
{
    proof {
        lemma_pow256_16();
    }
    let mut out: Vec<u8> = Vec::new();
    write_metadata(&mut out, md);
    let len: usize = data.len();
    write_le(&mut out, len as u128, 8);
    write_bytes(&mut out, data);
    assert(out@ =~= frame_bytes(*md, data@));
    out
}

/// Reads a frame: `Some` exactly when `b` is the frame of some metadata and payload, and then
/// it gives them back.
pub fn decode_frame(b: &[u8]) -> (r: Option<(Metadata, Vec<u8>)>)
    ensures
        r matches Some((md, d)) ==> b@ == frame_bytes(md, d@),
        forall|md: Metadata, d: Seq<u8>|
            #![trigger frame_bytes(md, d)]
            b@ == frame_bytes(md, d) ==> (r matches Some((m2, d2)) && m2 == md && d2@ == d),
{
    proof {
        lemma_pow256_16();
    }
    let total: usize = b.len();
    let r = match read_metadata(b, 0) {
        None => None,
        Some((md, p1)) => match read_uint(b, p1, 8) {
            None => None,
            Some((len, p2)) => {
                if len == (total - p2) as u128 {
                    let data = read_bytes(b, p2, len as usize);
                    proof {
                        lemma_join(b@, 0, p1 as int, p2 as int, metadata_bytes(md), le_bytes(len as nat, 8));
                        lemma_join(b@, 0, p2 as int, total as int, metadata_bytes(md) + le_bytes(len as nat, 8), data@);
                        assert(b@.subrange(0, total as int) =~= b@);
                    }
                    Some((md, data))
                } else {
                    None
                }
            },
        },
    };
    proof {
        assert forall|md: Metadata, d: Seq<u8>|
            #![trigger frame_bytes(md, d)]
            b@ == frame_bytes(md, d) implies (r matches Some((m2, d2)) && m2 == md && d2@ == d) by {
            let a = metadata_bytes(md);
            let l = le_bytes(d.len(), 8);
            assert(is_prefix_at(b@, 0, a + l + d)) by {
                assert(b@.subrange(0, b@.len() as int) =~= b@);
            }
            lemma_prefix_split(b@, 0, a + l, d);
            lemma_prefix_split(b@, 0, a, l);
            lemma_le_bytes_len(d.len(), 8);
            assert(d.len() < pow256(8));
        }
    }
    r
}

} // verus!
