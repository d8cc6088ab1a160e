//! Payload encodings and their compression stage.
//!
//! A payload is serialized in the format that its `Encoding` names, then compressed with the
//! encoding's `Compression`, if it has one. This module holds the compression stage; decoding
//! undoes it before the payload is deserialized.

use crate::wire::bytes_to_vec;
use vstd::prelude::*;

verus! {

/// Compression applied after serialization.
#[derive(Debug, Clone, Copy, PartialEq, Eq, Hash, Structural)]
pub enum Compression {
    Deflate,
    Zlib,
    Gzip,
    Snappy,
    Lz4,
}

/// Payload serialization format, with an optional compression.
#[derive(Debug, Clone, Copy, PartialEq, Eq, Hash, Structural)]
pub enum Encoding {
    Bincode(Option<Compression>),
    CBOR(Option<Compression>),
    JSON(Option<Compression>),
}

/// A codec failure, with the encoding in use and the cause that the codec reported.
#[derive(Debug, Clone, PartialEq, Eq)]
pub enum CodecError {
    /// The serializer or the compressor rejected the input.
    EncodingError { encoding: Encoding, cause: String },
    /// The decompressor or the deserializer rejected the input.
    DecodingError { encoding: Encoding, cause: String },
}

/// What `flate2`'s raw deflate encoder (fast level) writes for `data`.
pub uninterp spec fn deflate_of(data: Seq<u8>) -> Seq<u8>;

/// What `flate2`'s zlib encoder (fast level) writes for `data`.
pub uninterp spec fn zlib_of(data: Seq<u8>) -> Seq<u8>;

/// What `flate2`'s gzip encoder (fast level, default header) writes for `data`.
pub uninterp spec fn gzip_of(data: Seq<u8>) -> Seq<u8>;

/// Inputs of this length fit a Snappy block: its worst-case size is at most `2^32 - 1`.
pub open spec fn snappy_fits(len: nat) -> bool {
    32 + len + len / 6 <= u32::MAX
}

/// What `snap`'s raw Snappy encoder writes for `data`.
pub uninterp spec fn snappy_of(data: Seq<u8>) -> Seq<u8>;

/// What `lz4`'s frame encoder (default settings) writes for `data`.
pub uninterp spec fn lz4_of(data: Seq<u8>) -> Seq<u8>;

/// Relies on `flate2::bufread::DeflateEncoder`: the compressed stream of `data`.
#[verifier::external_body]
fn deflate_compress(data: &[u8]) -> (r: Result<Vec<u8>, String>)
    ensures
        r is Ok,
        r is Ok ==> r->Ok_0@ == deflate_of(data@),
{
    let mut buffer = Vec::new();
    let mut encoder = flate2::bufread::DeflateEncoder::new(data, flate2::Compression::fast());
    std::io::Read::read_to_end(&mut encoder, &mut buffer).map_err(|e| e.to_string())?;
    Ok(buffer)
}

/// Relies on `flate2::bufread::DeflateDecoder`: inflating a deflate stream gives back what
/// was compressed.
#[verifier::external_body]
fn deflate_decompress(data: &[u8]) -> (r: Result<Vec<u8>, String>)
    ensures
        forall|m: Seq<u8>| data@ == deflate_of(m) ==> (r is Ok && r->Ok_0@ == m),
{
    let mut buffer = Vec::new();
    let mut decoder = flate2::bufread::DeflateDecoder::new(data);
    std::io::Read::read_to_end(&mut decoder, &mut buffer).map_err(|e| e.to_string())?;
    Ok(buffer)
}

/// Relies on `flate2::bufread::ZlibEncoder`: the compressed stream of `data`.
#[verifier::external_body]
fn zlib_compress(data: &[u8]) -> (r: Result<Vec<u8>, String>)
    ensures
        r is Ok,
        r is Ok ==> r->Ok_0@ == zlib_of(data@),
{
    let mut buffer = Vec::new();
    let mut encoder = flate2::bufread::ZlibEncoder::new(data, flate2::Compression::fast());
    std::io::Read::read_to_end(&mut encoder, &mut buffer).map_err(|e| e.to_string())?;
    Ok(buffer)
}

/// Relies on `flate2::bufread::ZlibDecoder`: decoding a zlib stream gives back what was
/// compressed.
#[verifier::external_body]
fn zlib_decompress(data: &[u8]) -> (r: Result<Vec<u8>, String>)
    ensures
        forall|m: Seq<u8>| data@ == zlib_of(m) ==> (r is Ok && r->Ok_0@ == m),
{
    let mut buffer = Vec::new();
    let mut decoder = flate2::bufread::ZlibDecoder::new(data);
    std::io::Read::read_to_end(&mut decoder, &mut buffer).map_err(|e| e.to_string())?;
    Ok(buffer)
}

/// Relies on `flate2::bufread::GzEncoder`: the compressed stream of `data`.
#[verifier::external_body]
fn gzip_compress(data: &[u8]) -> (r: Result<Vec<u8>, String>)
    ensures
        r is Ok,
        r is Ok ==> r->Ok_0@ == gzip_of(data@),
{
    let mut buffer = Vec::new();
    let mut encoder = flate2::bufread::GzEncoder::new(data, flate2::Compression::fast());
    std::io::Read::read_to_end(&mut encoder, &mut buffer).map_err(|e| e.to_string())?;
    Ok(buffer)
}

/// Relies on `flate2::bufread::GzDecoder`: decoding a gzip stream gives back what was
/// compressed.
#[verifier::external_body]
fn gzip_decompress(data: &[u8]) -> (r: Result<Vec<u8>, String>)
    ensures
        forall|m: Seq<u8>| data@ == gzip_of(m) ==> (r is Ok && r->Ok_0@ == m),
{
    let mut buffer = Vec::new();
    let mut decoder = flate2::bufread::GzDecoder::new(data);
    std::io::Read::read_to_end(&mut decoder, &mut buffer).map_err(|e| e.to_string())?;
    Ok(buffer)
}

/// Relies on `snap::raw::Encoder::compress_vec`: the Snappy block of `data`; it fails only
/// when the worst-case output size exceeds `2^32 - 1` (`max_compress_len`).
#[verifier::external_body]
fn snappy_compress(data: &[u8]) -> (r: Result<Vec<u8>, String>)
    ensures
        snappy_fits(data@.len()) ==> r is Ok,
        r is Ok ==> r->Ok_0@ == snappy_of(data@),
{
    snap::raw::Encoder::new().compress_vec(data).map_err(|e| e.to_string())
}

/// Relies on `snap::raw::Decoder::decompress_vec`: decoding a Snappy block gives back what
/// was compressed.
#[verifier::external_body]
fn snappy_decompress(data: &[u8]) -> (r: Result<Vec<u8>, String>)
    ensures
        forall|m: Seq<u8>| data@ == snappy_of(m) ==> (r is Ok && r->Ok_0@ == m),
{
    snap::raw::Decoder::new().decompress_vec(data).map_err(|e| e.to_string())
}

/// Relies on `lz4::EncoderBuilder` and `lz4::Encoder`: the LZ4 frame of `data`.
#[verifier::external_body]
fn lz4_compress(data: &[u8]) -> (r: Result<Vec<u8>, String>)
    ensures
        r is Ok,
        r is Ok ==> r->Ok_0@ == lz4_of(data@),
{
    let mut buffer = Vec::new();
    let mut encoder = lz4::EncoderBuilder::new().build(&mut buffer).map_err(|e| e.to_string())?;
    std::io::Write::write_all(&mut encoder, data).map_err(|e| e.to_string())?;
    let (_, result) = encoder.finish();
    result.map_err(|e| e.to_string())?;
    Ok(buffer)
}

/// Relies on `lz4::Decoder`: decoding an LZ4 frame gives back what was compressed.
#[verifier::external_body]
fn lz4_decompress(data: &[u8]) -> (r: Result<Vec<u8>, String>)
    ensures
        forall|m: Seq<u8>| data@ == lz4_of(m) ==> (r is Ok && r->Ok_0@ == m),
{
    let mut buffer = Vec::new();
    let mut decoder = lz4::Decoder::new(data).map_err(|e| e.to_string())?;
    std::io::copy(&mut decoder, &mut buffer).map_err(|e| e.to_string())?;
    Ok(buffer)
}

impl Compression {
    /// The bytes that compressing `data` with this compression gives.
    pub open spec fn spec_compressed(self, data: Seq<u8>) -> Seq<u8> {
        match self {
            Compression::Deflate => deflate_of(data),
            Compression::Zlib => zlib_of(data),
            Compression::Gzip => gzip_of(data),
            Compression::Snappy => snappy_of(data),
            Compression::Lz4 => lz4_of(data),
        }
    }

    /// Whether compressing `len` bytes succeeds: always, but for Snappy beyond its block size.
    pub open spec fn spec_accepts(self, len: nat) -> bool {
        self is Snappy ==> snappy_fits(len)
    }

    /// Compresses `data`; it succeeds exactly on the lengths the compression accepts, with
    /// the compressed form of `data`.
    pub fn compress(self, data: &[u8]) -> (r: Result<Vec<u8>, String>)
        ensures
            self.spec_accepts(data@.len()) ==> r is Ok,
            r is Ok ==> r->Ok_0@ == self.spec_compressed(data@),
    {
        match self {
            Compression::Deflate => deflate_compress(data),
            Compression::Zlib => zlib_compress(data),
            Compression::Gzip => gzip_compress(data),
            Compression::Snappy => snappy_compress(data),
            Compression::Lz4 => lz4_compress(data),
        }
    }

    /// Decompresses `data`; the compressed form of `m` gives back `m`.
    pub fn decompress(self, data: &[u8]) -> (r: Result<Vec<u8>, String>)
        ensures
            forall|m: Seq<u8>| data@ == self.spec_compressed(m) ==> (r is Ok && r->Ok_0@ == m),
    {
        match self {
            Compression::Deflate => deflate_decompress(data),
            Compression::Zlib => zlib_decompress(data),
            Compression::Gzip => gzip_decompress(data),
            Compression::Snappy => snappy_decompress(data),
            Compression::Lz4 => lz4_decompress(data),
        }
    }
}

impl Encoding {
    /// The compression that follows serialization, if any.
    pub open spec fn spec_compression(self) -> Option<Compression> {
        match self {
            Encoding::Bincode(c) => c,
            Encoding::CBOR(c) => c,
            Encoding::JSON(c) => c,
        }
    }

    /// Whether the compression stage accepts `len` bytes.
    pub open spec fn spec_accepts(self, len: nat) -> bool {
        match self.spec_compression() {
            Some(c) => c.spec_accepts(len),
            None => true,
        }
    }

    /// The bytes on the wire for a serialized payload `serialized`.
    pub open spec fn spec_encoded(self, serialized: Seq<u8>) -> Seq<u8> {
        match self.spec_compression() {
            Some(c) => c.spec_compressed(serialized),
            None => serialized,
        }
    }

    /// The compression that follows serialization, if any.
    pub fn compression(self) -> (r: Option<Compression>)
        ensures
            r == self.spec_compression(),
    {
        match self {
            Encoding::Bincode(c) => c,
            Encoding::CBOR(c) => c,
            Encoding::JSON(c) => c,
        }
    }

    /// Applies the encoding's compression stage to a serialized payload; it succeeds
    /// whenever the compression accepts the payload's length (always, without compression).
    pub fn encode_serialized(self, serialized: &[u8]) -> (r: Result<Vec<u8>, CodecError>)
        ensures
            r is Ok ==> r->Ok_0@ == self.spec_encoded(serialized@),
            self.spec_accepts(serialized@.len()) ==> r is Ok,
            r matches Err(e) ==> e matches CodecError::EncodingError { encoding, .. } && encoding
                == self,
    {
        match self.compression() {
            None => Ok(bytes_to_vec(serialized)),
            Some(c) => match c.compress(serialized) {
                Ok(v) => Ok(v),
                Err(cause) => Err(CodecError::EncodingError { encoding: self, cause }),
            },
        }
    }

    /// Undoes the compression stage, giving the serialized payload back. Without compression
    /// the bytes are returned as they are; what `encode_serialized` produced for `m` decodes
    /// to `m`.
    pub fn decode_serialized(self, data: &[u8]) -> (r: Result<Vec<u8>, CodecError>)
        ensures
            self.spec_compression() is None ==> (r is Ok && r->Ok_0@ == data@),
            forall|m: Seq<u8>| data@ == self.spec_encoded(m) ==> (r is Ok && r->Ok_0@ == m),
            r matches Err(e) ==> e matches CodecError::DecodingError { encoding, .. } && encoding
                == self,
    {
        match self.compression() {
            None => Ok(bytes_to_vec(data)),
            Some(c) => match c.decompress(data) {
                Ok(v) => Ok(v),
                Err(cause) => Err(CodecError::DecodingError { encoding: self, cause }),
            },
        }
    }
}

} // verus!
