//! The remote-I/O wire format: the fixed request header with its payload, and
//! the reply envelope (status, protocol tag, opcode-specific extra bytes).
//!
//! Request header layout, all integers little-endian:
//! txid u32 @0, op u32 @4, datalen u32 @8, arg i32 @12, arg2 (8-byte union,
//! `mode` in its low four bytes) @16, reserved i32 @24, hcount u32 @28,
//! handle slots 4 x u32 @32, payload @48.
use vstd::prelude::*;

verus! {

/// Size of the fixed request header, in bytes.
pub const ZXRIO_HDR_SZ: usize = 48;

/// Largest message, header included, that a connection accepts.
pub const FDIO_CHUNK_SIZE: usize = 8192;

/// Size of the receive buffer of a connection.
pub const ZXRIO_MSG_SZ: usize = 8240;

/// Largest number of handles carried by one message.
pub const FDIO_MAX_HANDLES: usize = 3;

/// Largest number of extra bytes in a reply envelope.
pub const ZXRIO_OBJECT_EXTRA: usize = 32;

/// Size of a reply envelope without extra bytes: status and protocol tag.
pub const ZXRIO_OBJECT_MINSIZE: usize = 8;

/// Longest path, in bytes, that an open may carry.
pub const MAX_PATH_BYTES: u32 = 4096;

/// Opcode bit announcing that one handle comes with the message.
pub const ZXRIO_ONE_HANDLE: u32 = 0x100;

/// Open a path; the message carries the channel of the new connection.
pub const ZXRIO_OPEN: u32 = 0x103;

/// Read the attributes of the object served on the channel.
pub const ZXRIO_STAT: u32 = 0x8;

/// Open flag: the client does not wait for a reply to the open.
pub const O_PIPELINE: i32 = -2147483648;

/// Protocol tag of an object served over this remote-I/O protocol.
pub const FDIO_PROTOCOL_REMOTE: u32 = 2;

/// Status: success.
pub const NO_ERROR: i32 = 0;

/// Status: a failure with no more specific status.
pub const ERR_INTERNAL: i32 = -1;

/// Status: the operation is not implemented.
pub const ERR_NOT_SUPPORTED: i32 = -2;

/// Status: an argument is invalid.
pub const ERR_INVALID_ARGS: i32 = -10;

/// Why a message could not be decoded or a reply could not be framed.
#[derive(Copy, Clone, Debug, PartialEq, Eq, Structural)]
pub enum ProtocolError {
    /// Shorter than the fixed header.
    Truncated,
    /// Longer than a chunk, or the header's `datalen` disagrees with the length.
    Malformed,
    /// Too many handles, or not as many as the opcode requires.
    HandleMismatch,
    /// More extra bytes than a reply envelope holds.
    ExtraTooLarge,
    /// More handles than a message carries.
    TooManyHandles,
}

/// A decoded request message.
#[derive(Clone, Debug)]
pub struct Message {
    pub txid: u32,
    /// Opcode in the low bits, handle count in bits 8 and 9.
    pub op: u32,
    pub datalen: u32,
    /// Opcode-specific; the flags of an open.
    pub arg: i32,
    /// Opcode-specific; the mode of an open.
    pub arg2: u32,
    /// The payload; the path of an open.
    pub data: Vec<u8>,
}

/// The little-endian unsigned integer in the four bytes of `s` at `at`.
pub open spec fn le_u32(s: Seq<u8>, at: int) -> int {
    s[at] + s[at + 1] * 256 + s[at + 2] * 65536 + s[at + 3] * 16777216
}

/// The four little-endian bytes of `v`.
pub open spec fn u32_le(v: u32) -> Seq<u8> {
    seq![(v % 256) as u8, (v / 256 % 256) as u8, (v / 65536 % 256) as u8, (v / 16777216) as u8]
}

/// The opcode of an `op` field, handle count bits included.
pub open spec fn opcode(op: u32) -> u32 {
    op & 0x3FFF
}

/// The number of handles that a message with this `op` field must carry.
pub open spec fn handles_required(op: u32) -> u32 {
    (op >> 8) & 3
}

/// Why a received message with these bytes and this many handles is refused,
/// if it is.
pub open spec fn decode_error(b: Seq<u8>, n_handles: nat) -> Option<ProtocolError> {
    if b.len() < ZXRIO_HDR_SZ {
        Some(ProtocolError::Truncated)
    } else if b.len() > FDIO_CHUNK_SIZE || b.len() != ZXRIO_HDR_SZ + le_u32(b, 8) {
        Some(ProtocolError::Malformed)
    } else if n_handles > FDIO_MAX_HANDLES || n_handles != handles_required(le_u32(b, 4) as u32) {
        Some(ProtocolError::HandleMismatch)
    } else {
        None
    }
}

/// The bytes of a reply envelope.
pub open spec fn reply_bytes(status: i32, proto: u32, extra: Seq<u8>) -> Seq<u8> {
    u32_le(status as u32) + u32_le(proto) + extra
}

/// Why a reply envelope with this many extra bytes and handles cannot be sent,
/// if it cannot.
pub open spec fn reply_error(extra_len: nat, n_handles: nat) -> Option<ProtocolError> {
    if extra_len > ZXRIO_OBJECT_EXTRA {
        Some(ProtocolError::ExtraTooLarge)
    } else if n_handles > FDIO_MAX_HANDLES {
        Some(ProtocolError::TooManyHandles)
    } else {
        None
    }
}

/// The status, protocol tag and extra bytes that a received reply envelope
/// holds, if it is one.
pub open spec fn reply_fields(b: Seq<u8>) -> Option<(i32, u32, Seq<u8>)> {
    if b.len() < ZXRIO_OBJECT_MINSIZE || b.len() > ZXRIO_OBJECT_MINSIZE + ZXRIO_OBJECT_EXTRA {
        None
    } else {
        Some((le_u32(b, 0) as u32 as i32, le_u32(b, 4) as u32, b.subrange(8, b.len() as int)))
    }
}

proof fn lemma_u32_le(v: u32)
    ensures
        le_u32(u32_le(v), 0) == v,
{
    let s = u32_le(v);
    assert(v == v % 256 + (v / 256 % 256) * 256 + (v / 65536 % 256) * 65536 + (v / 16777216)
        * 16777216) by (nonlinear_arith);
}

proof fn lemma_i32_bits(s: i32)
    ensures
        s as u32 as i32 == s,
{
    assert(s as u32 as i32 == s) by (bit_vector);
}

/// Reads the little-endian `u32` at `at`.
fn read_u32(b: &[u8], at: usize) -> (r: u32)
    requires
        at + 4 <= b@.len(),
    ensures
        r == le_u32(b@, at as int),
{
    (b[at] as u32) + (b[at + 1] as u32) * 256 + (b[at + 2] as u32) * 65536 + (b[at + 3] as u32)
        * 16777216
}

/// Appends the four little-endian bytes of `v`.
fn push_u32(out: &mut Vec<u8>, v: u32)
    ensures
        final(out)@ == old(out)@ + u32_le(v),
{
    out.push((v % 256) as u8);
    out.push((v / 256 % 256) as u8);
    out.push((v / 65536 % 256) as u8);
    out.push((v / 16777216) as u8);
    assert(out@ =~= old(out)@ + u32_le(v));
}

/// Copies `b[from..to]` into a new vector.
fn copy_range(b: &[u8], from: usize, to: usize) -> (r: Vec<u8>)
    requires
        from <= to <= b@.len(),
    ensures
        r@ == b@.subrange(from as int, to as int),
{
    let mut r: Vec<u8> = Vec::with_capacity(to - from);
    let mut i: usize = from;
    while i < to
        invariant
            from <= i <= to <= b@.len(),
            r@ == b@.subrange(from as int, i as int),
        decreases to - i,
    {
        r.push(b[i]);
        i = i + 1;
        assert(r@ =~= b@.subrange(from as int, i as int));
    }
    r
}

/// Validates a received message of `b` bytes that came with `n_handles`
/// handles, and decodes it.
pub fn decode(b: &[u8], n_handles: usize) -> (r: Result<Message, ProtocolError>)
    ensures
        r is Ok <==> decode_error(b@, n_handles as nat) is None,
        r is Err ==> decode_error(b@, n_handles as nat) == Some(r->Err_0),
        b@.len() >= ZXRIO_HDR_SZ && b@.len() != ZXRIO_HDR_SZ + le_u32(b@, 8) ==> r == Err::<
            Message,
            ProtocolError,
        >(ProtocolError::Malformed),
        r matches Ok(m) ==> {
            &&& m.txid == le_u32(b@, 0)
            &&& m.op == le_u32(b@, 4)
            &&& m.datalen == le_u32(b@, 8)
            &&& m.arg == le_u32(b@, 12) as u32 as i32
            &&& m.arg2 == le_u32(b@, 16)
            &&& m.data@ == b@.subrange(ZXRIO_HDR_SZ as int, b@.len() as int)
            &&& m.datalen == m.data@.len()
        },
{
    if b.len() < ZXRIO_HDR_SZ {
        return Err(ProtocolError::Truncated);
    }
    let datalen = read_u32(b, 8);
    if b.len() > FDIO_CHUNK_SIZE || b.len() - ZXRIO_HDR_SZ != datalen as usize {
        return Err(ProtocolError::Malformed);
    }
    let op = read_u32(b, 4);
    let required: u32 = (op >> 8) & 3;
    if n_handles > FDIO_MAX_HANDLES || n_handles != required as usize {
        return Err(ProtocolError::HandleMismatch);
    }
    let txid = read_u32(b, 0);
    let arg = read_u32(b, 12) as i32;
    let arg2 = read_u32(b, 16);
    let data = copy_range(b, ZXRIO_HDR_SZ, b.len());
    Ok(Message { txid, op, datalen, arg, arg2, data })
}

/// Frames a reply envelope: the status and the protocol tag as little-endian
/// integers, then `extra` verbatim. `n_handles` handles go with it.
pub fn encode_reply(status: i32, proto: u32, extra: &[u8], n_handles: usize) -> (r: Result<
    Vec<u8>,
    ProtocolError,
>)
    ensures
        r is Ok <==> reply_error(extra@.len(), n_handles as nat) is None,
        r is Err ==> reply_error(extra@.len(), n_handles as nat) == Some(r->Err_0),
        r matches Ok(v) ==> v@ == reply_bytes(status, proto, extra@),
{
    if extra.len() > ZXRIO_OBJECT_EXTRA {
        return Err(ProtocolError::ExtraTooLarge);
    }
    if n_handles > FDIO_MAX_HANDLES {
        return Err(ProtocolError::TooManyHandles);
    }
    let mut out: Vec<u8> = Vec::with_capacity(ZXRIO_OBJECT_MINSIZE + extra.len());
    push_u32(&mut out, status as u32);
    push_u32(&mut out, proto);
    let mut i: usize = 0;
    while i < extra.len()
        invariant
            i <= extra@.len(),
            out@ == u32_le(status as u32) + u32_le(proto) + extra@.subrange(0, i as int),
        decreases extra@.len() - i,
    {
        out.push(extra[i]);
        i = i + 1;
        assert(out@ =~= u32_le(status as u32) + u32_le(proto) + extra@.subrange(0, i as int));
    }
    assert(extra@.subrange(0, extra@.len() as int) =~= extra@);
    Ok(out)
}

/// Frames a reply envelope that carries only a status: protocol tag 0, no
/// extra bytes, no handles.
pub fn status_reply(status: i32) -> (r: Vec<u8>)
    ensures
        r@ == reply_bytes(status, 0, Seq::empty()),
{
    let mut out: Vec<u8> = Vec::with_capacity(ZXRIO_OBJECT_MINSIZE);
    push_u32(&mut out, status as u32);
    push_u32(&mut out, 0);
    assert(out@ =~= reply_bytes(status, 0, Seq::empty()));
    out
}

/// Reads the status, protocol tag and extra bytes of a received reply
/// envelope; `None` where the length is not that of an envelope.
pub fn decode_reply(b: &[u8]) -> (r: Option<(i32, u32, Vec<u8>)>)
    ensures
        r is None <==> reply_fields(b@) is None,
        r matches Some(t) ==> reply_fields(b@) == Some((t.0, t.1, t.2@)),
{
    if b.len() < ZXRIO_OBJECT_MINSIZE || b.len() > ZXRIO_OBJECT_MINSIZE + ZXRIO_OBJECT_EXTRA {
        return None;
    }
    let status = read_u32(b, 0) as i32;
    let proto = read_u32(b, 4);
    let extra = copy_range(b, ZXRIO_OBJECT_MINSIZE, b.len());
    Some((status, proto, extra))
}

/// Decoding the fixed fields of a framed reply envelope gives back the status,
/// protocol tag and extra bytes it was framed from, for extra bytes within the
/// envelope's bound.
pub proof fn lemma_reply_round_trip(status: i32, proto: u32, extra: Seq<u8>)
    requires
        extra.len() <= ZXRIO_OBJECT_EXTRA,
    ensures
        reply_fields(reply_bytes(status, proto, extra)) == Some((status, proto, extra)),
{
    let b = reply_bytes(status, proto, extra);
    lemma_u32_le(status as u32);
    lemma_u32_le(proto);
    lemma_i32_bits(status);
    assert(b.subrange(0, 4) =~= u32_le(status as u32));
    assert(b.subrange(4, 8) =~= u32_le(proto));
    assert(le_u32(b, 0) == le_u32(u32_le(status as u32), 0));
    assert(le_u32(b, 4) == le_u32(u32_le(proto), 0));
    assert(b.subrange(8, b.len() as int) =~= extra);
}

} // verus!
