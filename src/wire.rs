//! The framed message format: a 14-byte header (the literal prefix, the
//! payload length and the payload type) followed by the payload.
use vstd::prelude::*;

use crate::error::IpcError;

verus! {

/// Length of the fixed header: prefix, length field, type field.
pub const HEADER_LENGTH: usize = 14;

/// Length of the literal prefix that opens every header.
pub const PREFIX_LENGTH: usize = 6;

/// The order in which the bytes of a 32-bit field are laid out. The protocol
/// uses the machine's own order, which the caller supplies.
#[derive(PartialEq, Eq, Structural, Clone, Copy, Debug)]
pub enum ByteOrder {
    Little,
    Big,
}

/// The prefix `i3-ipc` as bytes.
pub open spec fn prefix() -> Seq<u8> {
    seq![105u8, 51u8, 45u8, 105u8, 112u8, 99u8]
}

/// The four bytes of `v`, least significant first.
pub open spec fn u32_le_bytes(v: u32) -> Seq<u8> {
    seq![
        (v & 0xff) as u8,
        ((v >> 8u32) & 0xff) as u8,
        ((v >> 16u32) & 0xff) as u8,
        ((v >> 24u32) & 0xff) as u8,
    ]
}

/// The four bytes of `v` in the given order.
pub open spec fn u32_bytes(v: u32, order: ByteOrder) -> Seq<u8> {
    let le = u32_le_bytes(v);
    match order {
        ByteOrder::Little => le,
        ByteOrder::Big => seq![le[3], le[2], le[1], le[0]],
    }
}

/// The integer whose bytes, least significant first, are `a, b, c, d`.
pub open spec fn u32_of_le(a: u8, b: u8, c: u8, d: u8) -> u32 {
    (a as u32) | ((b as u32) << 8u32) | ((c as u32) << 16u32) | ((d as u32) << 24u32)
}

/// The integer that four bytes `s` stand for in the given order.
pub open spec fn u32_of_bytes(s: Seq<u8>, order: ByteOrder) -> u32
    recommends
        s.len() == 4,
{
    match order {
        ByteOrder::Little => u32_of_le(s[0], s[1], s[2], s[3]),
        ByteOrder::Big => u32_of_le(s[3], s[2], s[1], s[0]),
    }
}

/// The bytes of a whole frame.
pub open spec fn frame(payload_type: u32, payload: Seq<u8>, order: ByteOrder) -> Seq<u8> {
    prefix() + u32_bytes(payload.len() as u32, order) + u32_bytes(payload_type, order) + payload
}

/// The length field of a header.
pub open spec fn header_length_field(h: Seq<u8>, order: ByteOrder) -> u32 {
    u32_of_bytes(h.subrange(6, 10), order)
}

/// The type field of a header.
pub open spec fn header_type_field(h: Seq<u8>, order: ByteOrder) -> u32 {
    u32_of_bytes(h.subrange(10, 14), order)
}

/// What a response header answers to a request of type `request_type`: the
/// payload length that follows it, or why the exchange is invalid.
pub open spec fn response_header(h: Seq<u8>, request_type: u32, order: ByteOrder) -> Result<
    u32,
    IpcError,
> {
    if h.len() < HEADER_LENGTH {
        Err(IpcError::Io)
    } else if h.subrange(0, 6) != prefix() {
        Err(IpcError::InvalidHeader)
    } else if header_type_field(h, order) != request_type {
        Err(IpcError::InvalidHeader)
    } else {
        Ok(header_length_field(h, order))
    }
}

/// What a whole frame decodes to: its type and payload, or why it is not one.
pub open spec fn decode(bytes: Seq<u8>, order: ByteOrder) -> Result<(u32, Seq<u8>), IpcError> {
    if bytes.len() < HEADER_LENGTH {
        Err(IpcError::Io)
    } else if bytes.subrange(0, 6) != prefix() {
        Err(IpcError::InvalidHeader)
    } else if bytes.len() != HEADER_LENGTH + header_length_field(bytes, order) {
        Err(IpcError::Io)
    } else {
        Ok((header_type_field(bytes, order), bytes.subrange(HEADER_LENGTH as int, bytes.len() as int)))
    }
}

proof fn lemma_u32_le_round_trip(v: u32)
    ensures
        u32_of_le(
            (v & 0xff) as u8,
            ((v >> 8u32) & 0xff) as u8,
            ((v >> 16u32) & 0xff) as u8,
            ((v >> 24u32) & 0xff) as u8,
        ) == v,
{
    assert((((v & 0xff) as u8) as u32) | ((((v >> 8u32) & 0xff) as u8) as u32) << 8u32 | ((((v
        >> 16u32) & 0xff) as u8) as u32) << 16u32 | ((((v >> 24u32) & 0xff) as u8) as u32)
        << 24u32 == v) by (bit_vector);
}

/// Reading four bytes back in the order they were written gives the integer.
pub proof fn lemma_u32_bytes_round_trip(v: u32, order: ByteOrder)
    ensures
        u32_bytes(v, order).len() == 4,
        u32_of_bytes(u32_bytes(v, order), order) == v,
{
    lemma_u32_le_round_trip(v);
}

fn push_u32(out: &mut Vec<u8>, v: u32, order: ByteOrder)
    ensures
        final(out)@ == old(out)@ + u32_bytes(v, order),
{
    let b0 = (v & 0xff) as u8;
    let b1 = ((v >> 8u32) & 0xff) as u8;
    let b2 = ((v >> 16u32) & 0xff) as u8;
    let b3 = ((v >> 24u32) & 0xff) as u8;
    match order {
        ByteOrder::Little => {
            out.push(b0);
            out.push(b1);
            out.push(b2);
            out.push(b3);
        },
        ByteOrder::Big => {
            out.push(b3);
            out.push(b2);
            out.push(b1);
            out.push(b0);
        },
    }
    assert(final(out)@ =~= old(out)@ + u32_bytes(v, order));
}

fn read_u32(s: &[u8], at: usize, order: ByteOrder) -> (r: u32)
    requires
        at + 4 <= s@.len(),
    ensures
        r == u32_of_bytes(s@.subrange(at as int, at + 4), order),
{
    let a = s[at];
    let b = s[at + 1];
    let c = s[at + 2];
    let d = s[at + 3];
    match order {
        ByteOrder::Little => (a as u32) | ((b as u32) << 8u32) | ((c as u32) << 16u32) | ((d as u32)
            << 24u32),
        ByteOrder::Big => (d as u32) | ((c as u32) << 8u32) | ((b as u32) << 16u32) | ((a as u32)
            << 24u32),
    }
}

fn has_prefix(s: &[u8]) -> (r: bool)
    requires
        s@.len() >= PREFIX_LENGTH,
    ensures
        r == (s@.subrange(0, 6) == prefix()),
{
    let r = s[0] == 105u8 && s[1] == 51u8 && s[2] == 45u8 && s[3] == 105u8 && s[4] == 112u8 && s[5]
        == 99u8;
    assert(r ==> s@.subrange(0, 6) =~= prefix());
    assert(s@.subrange(0, 6) == prefix() ==> s@.subrange(0, 6)[0] == 105u8);
    r
}

/// Builds the request frame for a payload of the given type. A payload whose
/// length does not fit the 32-bit length field is refused.
pub fn encode_frame(payload_type: u32, payload: &[u8], order: ByteOrder) -> (r: Result<
    Vec<u8>,
    IpcError,
>)
    ensures
        payload@.len() > u32::MAX ==> r == Err::<Vec<u8>, IpcError>(IpcError::PayloadTooLarge),
        payload@.len() <= u32::MAX ==> (r matches Ok(f) && f@ == frame(payload_type, payload@, order)),
{
    if payload.len() > u32::MAX as usize {
        return Err(IpcError::PayloadTooLarge);
    }
    let mut out: Vec<u8> = Vec::new();
    out.push(105u8);
    out.push(51u8);
    out.push(45u8);
    out.push(105u8);
    out.push(112u8);
    out.push(99u8);
    assert(out@ =~= prefix());
    push_u32(&mut out, payload.len() as u32, order);
    push_u32(&mut out, payload_type, order);
    let ghost before = out@;
    let mut i: usize = 0;
    while i < payload.len()
        invariant
            0 <= i <= payload@.len(),
            out@ == before + payload@.subrange(0, i as int),
        decreases payload@.len() - i,
    {
        out.push(payload[i]);
        i = i + 1;
        assert(out@ =~= before + payload@.subrange(0, i as int));
    }
    assert(payload@.subrange(0, payload@.len() as int) =~= payload@);
    Ok(out)
}

/// Checks a response header against the type of the request it answers, and
/// gives the length of the payload that follows it.
pub fn parse_response_header(header: &[u8], request_type: u32, order: ByteOrder) -> (r: Result<
    u32,
    IpcError,
>)
    ensures
        r == response_header(header@, request_type, order),
{
    if header.len() < HEADER_LENGTH {
        return Err(IpcError::Io);
    }
    if !has_prefix(header) {
        return Err(IpcError::InvalidHeader);
    }
    let payload_type = read_u32(header, 10, order);
    if payload_type != request_type {
        return Err(IpcError::InvalidHeader);
    }
    Ok(read_u32(header, 6, order))
}

/// A decoded frame: its type and its payload.
pub struct Frame {
    pub payload_type: u32,
    pub payload: Vec<u8>,
}

/// Decodes a whole frame held in memory.
pub fn decode_frame(bytes: &[u8], order: ByteOrder) -> (r: Result<Frame, IpcError>)
    ensures
        match r {
            Ok(f) => decode(bytes@, order) == Ok::<(u32, Seq<u8>), IpcError>(
                (f.payload_type, f.payload@),
            ),
            Err(e) => decode(bytes@, order) == Err::<(u32, Seq<u8>), IpcError>(e),
        },
{
    if bytes.len() < HEADER_LENGTH {
        return Err(IpcError::Io);
    }
    if !has_prefix(bytes) {
        return Err(IpcError::InvalidHeader);
    }
    let length = read_u32(bytes, 6, order);
    if bytes.len() - HEADER_LENGTH != length as usize {
        return Err(IpcError::Io);
    }
    let payload_type = read_u32(bytes, 10, order);
    let mut payload: Vec<u8> = Vec::new();
    let mut i: usize = HEADER_LENGTH;
    while i < bytes.len()
        invariant
            HEADER_LENGTH <= i <= bytes@.len(),
            payload@ == bytes@.subrange(HEADER_LENGTH as int, i as int),
        decreases bytes@.len() - i,
    {
        payload.push(bytes[i]);
        i = i + 1;
        assert(payload@ =~= bytes@.subrange(HEADER_LENGTH as int, i as int));
    }
    Ok(Frame { payload_type, payload })
}

/// Decoding an encoded frame gives back its type and payload.
pub proof fn lemma_frame_round_trip(payload_type: u32, payload: Seq<u8>, order: ByteOrder)
    requires
        payload.len() <= u32::MAX,
    ensures
        decode(frame(payload_type, payload, order), order) == Ok::<(u32, Seq<u8>), IpcError>(
            (payload_type, payload),
        ),
{
    let f = frame(payload_type, payload, order);
    let len_bytes = u32_bytes(payload.len() as u32, order);
    let type_bytes = u32_bytes(payload_type, order);
    lemma_u32_bytes_round_trip(payload.len() as u32, order);
    lemma_u32_bytes_round_trip(payload_type, order);
    assert(f.subrange(0, 6) =~= prefix());
    assert(f.subrange(6, 10) =~= len_bytes);
    assert(f.subrange(10, 14) =~= type_bytes);
    assert(f.subrange(HEADER_LENGTH as int, f.len() as int) =~= payload);
}

/// A header whose first six bytes are not the prefix is refused, whatever
/// its length and type fields hold.
pub proof fn lemma_bad_prefix_refused(h: Seq<u8>, request_type: u32, order: ByteOrder)
    requires
        h.len() >= HEADER_LENGTH,
        h.subrange(0, 6) != prefix(),
    ensures
        response_header(h, request_type, order) == Err::<u32, IpcError>(IpcError::InvalidHeader),
        decode(h, order) == Err::<(u32, Seq<u8>), IpcError>(IpcError::InvalidHeader),
{
}

/// A well-formed frame of another type than the request's is refused as an
/// answer to it, whatever its payload.
pub proof fn lemma_wrong_type_refused(
    payload_type: u32,
    payload: Seq<u8>,
    request_type: u32,
    order: ByteOrder,
)
    requires
        payload.len() <= u32::MAX,
        payload_type != request_type,
    ensures
        response_header(frame(payload_type, payload, order), request_type, order) == Err::<
            u32,
            IpcError,
        >(IpcError::InvalidHeader),
{
    let f = frame(payload_type, payload, order);
    lemma_u32_bytes_round_trip(payload_type, order);
    assert(f.subrange(0, 6) =~= prefix());
    assert(f.subrange(10, 14) =~= u32_bytes(payload_type, order));
}

} // verus!
