//! The wire format: each frame is a two-byte big-endian length followed by
//! that many bytes of payload. Reading is incremental: a reader that finds
//! too few bytes consumes nothing and is asked again when more have arrived.

use crate::error::CodecError;
use vstd::prelude::*;

verus! {

/// Width of the length prefix in bytes.
pub const HEADER_LEN: usize = 2;

/// The longest payload that one frame can carry.
pub const MAX_FRAME_SIZE: usize = 65535;

/// The length prefix of a payload of `length` bytes.
pub open spec fn header_bytes(length: nat) -> Seq<u8> {
    seq![(length / 256) as u8, (length % 256) as u8]
}

/// The payload length that the first two bytes of `stream` declare.
pub open spec fn declared_len(stream: Seq<u8>) -> nat
    recommends
        stream.len() >= 2,
{
    (stream[0] as nat) * 256 + (stream[1] as nat)
}

/// One frame on the wire.
pub open spec fn frame_bytes(payload: Seq<u8>) -> Seq<u8> {
    header_bytes(payload.len()) + payload
}

/// Whether `stream` starts with a complete frame.
pub open spec fn frame_ready(stream: Seq<u8>) -> bool {
    stream.len() >= 2 && stream.len() >= 2 + declared_len(stream)
}

/// The payload of the frame that `stream` starts with.
pub open spec fn first_payload(stream: Seq<u8>) -> Seq<u8>
    recommends
        frame_ready(stream),
{
    stream.subrange(2, 2 + declared_len(stream) as int)
}

/// What follows the frame that `stream` starts with.
pub open spec fn after_first(stream: Seq<u8>) -> Seq<u8>
    recommends
        frame_ready(stream),
{
    stream.skip(2 + declared_len(stream) as int)
}

/// The bytes of the stream that a two-step reader has not yet delivered: a
/// header already taken off the buffer still counts, followed by the buffer.
pub open spec fn unread(pending: Option<u16>, buf: Seq<u8>) -> Seq<u8> {
    match pending {
        Some(n) => header_bytes(n as nat) + buf,
        None => buf,
    }
}

/// A header decodes to the length it was made from.
pub proof fn lemma_header_round_trip(length: nat, rest: Seq<u8>)
    requires
        length <= MAX_FRAME_SIZE,
    ensures
        declared_len(header_bytes(length) + rest) == length,
        (header_bytes(length) + rest).len() == 2 + rest.len(),
        (header_bytes(length) + rest).skip(2) == rest,
{
    let s = header_bytes(length) + rest;
    assert(s[0] == (length / 256) as u8);
    assert(s[1] == (length % 256) as u8);
    assert(s.skip(2) =~= rest);
}

/// Two bytes are the header of the length they declare.
pub proof fn lemma_header_of_declared(stream: Seq<u8>)
    requires
        stream.len() >= 2,
    ensures
        declared_len(stream) <= MAX_FRAME_SIZE,
        header_bytes(declared_len(stream)) + stream.skip(2) == stream,
{
    let n = declared_len(stream);
    assert(n / 256 == stream[0] as nat);
    assert(n % 256 == stream[1] as nat);
    assert(header_bytes(n) + stream.skip(2) =~= stream);
}

/// Appends the length prefix for a payload of `length` bytes to `out`, or
/// refuses a length that two bytes cannot hold and leaves `out` as it was.
pub fn write_header(length: usize, out: &mut Vec<u8>) -> (res: Result<(), CodecError>)
    ensures
        res is Ok <==> length <= MAX_FRAME_SIZE,
        res is Ok ==> final(out)@ == old(out)@ + header_bytes(length as nat),
        res is Err ==> res == Err::<(), CodecError>(CodecError::Oversize) && final(out)@ == old(
            out,
        )@,
{
    if length > MAX_FRAME_SIZE {
        return Err(CodecError::Oversize);
    }
    let hi: u8 = (length / 256) as u8;
    let lo: u8 = (length % 256) as u8;
    out.push(hi);
    out.push(lo);
    assert(out@ =~= old(out)@ + header_bytes(length as nat));
    Ok(())
}

/// Appends the frame of `payload` to `out`, or refuses a payload that no
/// frame can carry and leaves `out` as it was.
pub fn write_frame(payload: &Vec<u8>, out: &mut Vec<u8>) -> (res: Result<(), CodecError>)
    ensures
        res is Ok <==> payload@.len() <= MAX_FRAME_SIZE,
        res is Ok ==> final(out)@ == old(out)@ + frame_bytes(payload@),
        res is Err ==> res == Err::<(), CodecError>(CodecError::Oversize) && final(out)@ == old(
            out,
        )@,
{
    match write_header(payload.len(), out) {
        Ok(()) => {},
        Err(e) => {
            return Err(e);
        },
    }
    let mut i: usize = 0;
    while i < payload.len()
        invariant
            i <= payload@.len(),
            out@ == old(out)@ + header_bytes(payload@.len()) + payload@.take(
                i as int,
            ),
        decreases payload@.len() - i,
    {
        out.push(payload[i]);
        assert(payload@.take(i as int + 1) =~= payload@.take(i as int).push(payload@[i as int]));
        i = i + 1;
    }
    assert(payload@.take(i as int) =~= payload@);
    assert(out@ =~= old(out)@ + frame_bytes(payload@));
    Ok(())
}

/// Takes the length prefix off the front of `buf` and returns the payload
/// length it declares; with fewer than two bytes buffered, takes nothing.
pub fn try_read_header(buf: &mut Vec<u8>) -> (res: Option<usize>)
    ensures
        res is None <==> old(buf)@.len() < HEADER_LEN,
        res is None ==> final(buf)@ == old(buf)@,
        res is Some ==> res.unwrap() == declared_len(old(buf)@) && res.unwrap() <= MAX_FRAME_SIZE
            && final(buf)@ == old(buf)@.skip(2),
{
    if buf.len() < HEADER_LEN {
        return None;
    }
    let hi: usize = buf[0] as usize;
    let lo: usize = buf[1] as usize;
    let mut rest = buf.split_off(HEADER_LEN);
    std::mem::swap(buf, &mut rest);
    assert(buf@ =~= old(buf)@.skip(2));
    Some(hi * 256 + lo)
}

/// Takes `length` bytes off the front of `buf`; with fewer buffered, takes
/// nothing.
pub fn try_read_payload(buf: &mut Vec<u8>, length: usize) -> (res: Option<Vec<u8>>)
    ensures
        res is None <==> old(buf)@.len() < length,
        res is None ==> final(buf)@ == old(buf)@,
        res is Some ==> res.unwrap()@ == old(buf)@.subrange(0, length as int) && final(buf)@
            == old(buf)@.skip(length as int),
{
    if buf.len() < length {
        return None;
    }
    let mut rest = buf.split_off(length);
    std::mem::swap(buf, &mut rest);
    assert(buf@ =~= old(buf)@.skip(length as int));
    Some(rest)
}

/// Reads one frame in two steps, remembering in `pending` a header that was
/// read before its payload had arrived. The unread stream loses exactly its
/// first frame when one is complete, and is untouched otherwise.
pub fn read_frame(pending: &mut Option<u16>, buf: &mut Vec<u8>) -> (res: Option<Vec<u8>>)
    ensures
        res is Some <==> frame_ready(unread(*old(pending), old(buf)@)),
        res is Some ==> res.unwrap()@ == first_payload(unread(*old(pending), old(buf)@))
            && unread(*final(pending), final(buf)@) == after_first(
            unread(*old(pending), old(buf)@),
        ) && *final(pending) is None,
        res is None ==> unread(*final(pending), final(buf)@) == unread(*old(pending), old(buf)@),
{
    let ghost before = unread(*pending, buf@);
    let length: usize = match *pending {
        Some(n) => {
            proof {
                lemma_header_round_trip(n as nat, buf@);
            }
            n as usize
        },
        None => {
            match try_read_header(buf) {
                Some(n) => {
                    proof {
                        lemma_header_of_declared(before);
                    }
                    *pending = Some(n as u16);
                    n
                },
                None => {
                    return None;
                },
            }
        },
    };
    assert(unread(*pending, buf@) == before);
    assert(length == declared_len(before));
    assert(buf@ == before.skip(2));
    match try_read_payload(buf, length) {
        Some(payload) => {
            *pending = None;
            assert(payload@ =~= first_payload(before));
            assert(buf@ =~= after_first(before));
            Some(payload)
        },
        None => None,
    }
}

/// A frame followed by anything parses to its payload and leaves what
/// followed it.
pub proof fn lemma_frame_parses(payload: Seq<u8>, tail: Seq<u8>)
    requires
        payload.len() <= MAX_FRAME_SIZE,
    ensures
        frame_ready(frame_bytes(payload) + tail),
        first_payload(frame_bytes(payload) + tail) == payload,
        after_first(frame_bytes(payload) + tail) == tail,
{
    let s = frame_bytes(payload) + tail;
    assert(s =~= header_bytes(payload.len()) + (payload + tail));
    lemma_header_round_trip(payload.len(), payload + tail);
    assert(first_payload(s) =~= payload);
    assert(after_first(s) =~= tail);
}

/// However the bytes of one frame are cut into chunks, a frame is complete
/// exactly when the last byte has arrived; it is then the frame that was
/// written, and nothing is left from which a second one could be read.
pub proof fn lemma_exactly_one_frame(payload: Seq<u8>, arrived: int)
    requires
        payload.len() <= MAX_FRAME_SIZE,
        0 <= arrived <= frame_bytes(payload).len(),
    ensures
        frame_ready(frame_bytes(payload).take(arrived)) <==> arrived == frame_bytes(payload).len(),
        first_payload(frame_bytes(payload)) == payload,
        after_first(frame_bytes(payload)) == Seq::<u8>::empty(),
        !frame_ready(after_first(frame_bytes(payload))),
{
    let s = frame_bytes(payload);
    let p = s.take(arrived);
    lemma_header_round_trip(payload.len(), payload);
    lemma_frame_parses(payload, Seq::<u8>::empty());
    assert(s + Seq::<u8>::empty() =~= s);
    if arrived >= 2 {
        assert(p[0] == s[0]);
        assert(p[1] == s[1]);
        assert(declared_len(p) == payload.len());
    }
    if arrived == s.len() {
        assert(p =~= s);
    }
}

/// Bytes that arrive are appended to the unread stream, whether or not a
/// header is pending.
pub proof fn lemma_arrival_appends(pending: Option<u16>, buf: Seq<u8>, chunk: Seq<u8>)
    ensures
        unread(pending, buf + chunk) == unread(pending, buf) + chunk,
{
    assert(unread(pending, buf + chunk) =~= unread(pending, buf) + chunk);
}

} // verus!
