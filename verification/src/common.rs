//! The control value that crosses the network link, and its wire codec.
//!
//! `ControlData` travels from the tracker to the car as its raw fixed-size
//! byte representation: one little-endian 64-bit signed integer, no length
//! prefix, no framing. Sender and receiver agree on this layout out of band,
//! so the encoding is written out explicitly, byte by byte, and proved to
//! round-trip.

use vstd::prelude::*;

verus! {

/// Size in bytes of the wire encoding of `ControlData`.
pub const CONTROL_DATA_SIZE: usize = 8;

/// A byte buffer handed to the decoder had the wrong length. Receiving a
/// buffer of unexpected length is a contract violation and fails loudly
/// rather than being silently truncated or padded.
#[derive(Clone, Copy, Debug, PartialEq, Eq, Structural)]
pub enum FrameError {
    UnexpectedLength,
}

/// The wire/control value: a directional bias.
///
/// `offset` is the signed difference, in nanoseconds, between channel A's and
/// channel B's last transition times. Positive means A fired after B,
/// negative the opposite, zero means centered.
#[derive(Clone, Copy, Debug, PartialEq, Eq, Structural)]
pub struct ControlData {
    pub offset: i64,
}

/// Little-endian byte image of a 64-bit value.
pub open spec fn le_bytes_of(v: u64) -> Seq<u8> {
    seq![
        (v & 0xff) as u8,
        ((v >> 8) & 0xff) as u8,
        ((v >> 16) & 0xff) as u8,
        ((v >> 24) & 0xff) as u8,
        ((v >> 32) & 0xff) as u8,
        ((v >> 40) & 0xff) as u8,
        ((v >> 48) & 0xff) as u8,
        ((v >> 56) & 0xff) as u8,
    ]
}

/// The 64-bit value read back from a little-endian byte image.
pub open spec fn le_value_of(b: Seq<u8>) -> u64
    recommends
        b.len() == CONTROL_DATA_SIZE,
{
    (b[0] as u64) | ((b[1] as u64) << 8) | ((b[2] as u64) << 16) | ((b[3] as u64) << 24)
        | ((b[4] as u64) << 32) | ((b[5] as u64) << 40) | ((b[6] as u64) << 48)
        | ((b[7] as u64) << 56)
}

/// Wire encoding of a `ControlData` value.
pub open spec fn encoding_of(d: ControlData) -> Seq<u8> {
    le_bytes_of(d.offset as u64)
}

/// `ControlData` value read back from a wire encoding.
pub open spec fn decoding_of(b: Seq<u8>) -> ControlData
    recommends
        b.len() == CONTROL_DATA_SIZE,
{
    ControlData { offset: le_value_of(b) as i64 }
}

/// Law: decoding an encoding yields the original value, for every
/// `ControlData`. The wire format loses nothing.
pub proof fn lemma_codec_round_trip(d: ControlData)
    ensures
        decoding_of(encoding_of(d)) == d,
{
    let v = d.offset as u64;
    let b0 = (v & 0xff) as u8;
    let b1 = ((v >> 8) & 0xff) as u8;
    let b2 = ((v >> 16) & 0xff) as u8;
    let b3 = ((v >> 24) & 0xff) as u8;
    let b4 = ((v >> 32) & 0xff) as u8;
    let b5 = ((v >> 40) & 0xff) as u8;
    let b6 = ((v >> 48) & 0xff) as u8;
    let b7 = ((v >> 56) & 0xff) as u8;
    assert((b0 as u64) | ((b1 as u64) << 8) | ((b2 as u64) << 16) | ((b3 as u64) << 24)
        | ((b4 as u64) << 32) | ((b5 as u64) << 40) | ((b6 as u64) << 48) | ((b7 as u64) << 56)
        == v) by (bit_vector)
        requires
            b0 == (v & 0xff) as u8,
            b1 == ((v >> 8) & 0xff) as u8,
            b2 == ((v >> 16) & 0xff) as u8,
            b3 == ((v >> 24) & 0xff) as u8,
            b4 == ((v >> 32) & 0xff) as u8,
            b5 == ((v >> 40) & 0xff) as u8,
            b6 == ((v >> 48) & 0xff) as u8,
            b7 == ((v >> 56) & 0xff) as u8,
    ;
    assert(le_value_of(le_bytes_of(v)) == v);
    let o = d.offset;
    assert((o as u64) as i64 == o) by (bit_vector);
}

/// Little-endian byte image of a 64-bit value, as executable code.
fn le_bytes(v: u64) -> (r: Vec<u8>)
    ensures
        r@ == le_bytes_of(v),
{
    let mut r: Vec<u8> = Vec::new();
    r.push((v & 0xff) as u8);
    r.push(((v >> 8) & 0xff) as u8);
    r.push(((v >> 16) & 0xff) as u8);
    r.push(((v >> 24) & 0xff) as u8);
    r.push(((v >> 32) & 0xff) as u8);
    r.push(((v >> 40) & 0xff) as u8);
    r.push(((v >> 48) & 0xff) as u8);
    r.push(((v >> 56) & 0xff) as u8);
    proof {
        assert(r@ =~= le_bytes_of(v));
    }
    r
}

/// Raw byte representation of a `ControlData`, fit to be sent on the wire.
pub fn raw_byte_repr(data: &ControlData) -> (r: Vec<u8>)
    ensures
        r@ == encoding_of(*data),
        r@.len() == CONTROL_DATA_SIZE,
{
    le_bytes(#[verifier::truncate] (data.offset as u64))
}

/// Rebuilds a `ControlData` from its raw byte representation. The caller
/// must already hold a buffer of the exact wire size; `try_from_slice` is
/// the checked entry for buffers of unknown length.
pub fn struct_repr(bytes: &[u8]) -> (r: ControlData)
    requires
        bytes@.len() == CONTROL_DATA_SIZE,
    ensures
        r == decoding_of(bytes@),
{
    let v: u64 = (bytes[0] as u64) | ((bytes[1] as u64) << 8) | ((bytes[2] as u64) << 16)
        | ((bytes[3] as u64) << 24) | ((bytes[4] as u64) << 32) | ((bytes[5] as u64) << 40)
        | ((bytes[6] as u64) << 48) | ((bytes[7] as u64) << 56);
    ControlData { offset: #[verifier::truncate] (v as i64) }
}

impl ControlData {
    /// The neutral value: no directional correction.
    pub fn empty() -> (r: Self)
        ensures
            r.offset == 0,
    {
        Self { offset: 0 }
    }

    /// The fixed wire size of this type.
    pub fn size() -> (r: usize)
        ensures
            r == CONTROL_DATA_SIZE,
    {
        CONTROL_DATA_SIZE
    }

    /// Encodes this value for the wire.
    pub fn to_slice(&self) -> (r: Vec<u8>)
        ensures
            r@ == encoding_of(*self),
            r@.len() == CONTROL_DATA_SIZE,
    {
        raw_byte_repr(self)
    }

    /// Decodes a value from an exact-size buffer.
    pub fn from_slice(bytes: &[u8]) -> (r: Self)
        requires
            bytes@.len() == CONTROL_DATA_SIZE,
        ensures
            r == decoding_of(bytes@),
    {
        struct_repr(bytes)
    }

    /// Decodes a value from a buffer of unknown length, rejecting any buffer
    /// that is not exactly the wire size.
    pub fn try_from_slice(bytes: &[u8]) -> (r: Result<Self, FrameError>)
        ensures
            bytes@.len() == CONTROL_DATA_SIZE <==> r is Ok,
            r is Ok ==> r->Ok_0 == decoding_of(bytes@),
            r is Err ==> r->Err_0 == FrameError::UnexpectedLength,
    {
        if bytes.len() == CONTROL_DATA_SIZE {
            Ok(struct_repr(bytes))
        } else {
            Err(FrameError::UnexpectedLength)
        }
    }
}

} // verus!
