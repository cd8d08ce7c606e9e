use bytes::{Buf, BytesMut};
use vstd::prelude::*;
use vstd::string::StringSliceAdditionalSpecFns;

use crate::message::{ClientMessage, ServerMessage};

verus! {

/// The growable byte buffer of the `bytes` crate that frames are written to
/// and read from.
#[verifier::external_type_specification]
#[verifier::external_body]
pub struct ExBytesMut(BytesMut);

/// The bytes that a `BytesMut` holds, in order.
pub uninterp spec fn buffer_contents(b: BytesMut) -> Seq<u8>;

/// `BytesMut::len`: the number of bytes the buffer holds.
#[verifier::external_body]
fn buffer_len(b: &BytesMut) -> (n: usize)
    ensures
        n == buffer_contents(*b).len(),
{
    b.len()
}

/// `BytesMut::reserve`: makes room for `additional` more bytes and leaves
/// the contents as they are. The crate allocates at most `isize::MAX`
/// bytes and panics past that, so the contents and the addition together
/// stay within it. Left unsaid: a failed allocation, and the panic when
/// the space that earlier `advance` calls freed at the front, added to the
/// new capacity, overflows `usize`; that space is not a function of the
/// contents.
#[verifier::external_body]
fn buffer_reserve(b: &mut BytesMut, additional: usize)
    requires
        buffer_contents(*old(b)).len() + additional <= isize::MAX,
    ensures
        buffer_contents(*final(b)) == buffer_contents(*old(b)),
{
    b.reserve(additional)
}

/// `BytesMut::extend_from_slice`: appends `bytes` to the contents. It
/// reserves room first, so the bound and what is left unsaid are those of
/// `reserve`.
#[verifier::external_body]
fn buffer_extend(b: &mut BytesMut, bytes: &[u8])
    requires
        buffer_contents(*old(b)).len() + bytes@.len() <= isize::MAX,
    ensures
        buffer_contents(*final(b)) == buffer_contents(*old(b)) + bytes@,
{
    b.extend_from_slice(bytes)
}

/// `Buf::advance` on a `BytesMut`: drops the first `count` bytes; it panics
/// when `count` exceeds the length.
#[verifier::external_body]
fn buffer_advance(b: &mut BytesMut, count: usize)
    requires
        count <= buffer_contents(*old(b)).len(),
    ensures
        buffer_contents(*final(b)) == buffer_contents(*old(b)).skip(count as int),
{
    b.advance(count)
}

/// The longest frame, in bytes, that either side sends or accepts.
pub const MAX_FRAME_LEN: usize = 8 * 1024 * 1024;

/// Why a frame was not written.
#[derive(Clone, Copy, Debug, PartialEq, Eq, Structural)]
pub enum CodecError {
    /// The encoded message is longer than `MAX_FRAME_LEN` bytes.
    FrameTooLarge { len: usize },
}

/// What scanning the front of a buffer for one encoded value found.
#[derive(Debug)]
pub enum ScanOutcome<T, E> {
    /// A complete value that ends `offset` bytes into the buffer.
    Value { item: T, offset: usize },
    /// The bytes so far are the start of a value that has not ended yet.
    Incomplete,
    /// The bytes are no valid encoding; `E` says why.
    Invalid(E),
    /// Nothing but whitespace is there.
    Exhausted,
}

/// The frame bound holds for the encoded bytes, or the buffer has room for
/// them.
pub open spec fn encode_fits(json: Seq<u8>, dst: Seq<u8>) -> bool {
    json.len() <= MAX_FRAME_LEN ==> dst.len() + json.len() <= isize::MAX
}

/// Whether a buffer of `buffer_len` bytes can take an encoding of
/// `json_len` bytes: either the encoding exceeds the frame bound, and is
/// refused, or the two together stay within what the buffer can hold.
pub fn buffer_fits(json_len: usize, buffer_len: usize) -> (r: bool)
    ensures
        r == (json_len <= MAX_FRAME_LEN ==> buffer_len + json_len <= isize::MAX),
{
    json_len > MAX_FRAME_LEN || buffer_len <= (isize::MAX as usize) - json_len
}

/// Appends the encoding `json` of one message to `dst`, unless it is longer
/// than `MAX_FRAME_LEN` bytes; then `dst` is left as it was.
pub fn encode_frame(json: &str, dst: &mut BytesMut) -> (r: Result<(), CodecError>)
    requires
        encode_fits(json.spec_bytes(), buffer_contents(*old(dst))),
    ensures
        json.spec_bytes().len() > MAX_FRAME_LEN ==> r == Err::<(), CodecError>(
            CodecError::FrameTooLarge { len: json.spec_bytes().len() as usize },
        ) && buffer_contents(*final(dst)) == buffer_contents(*old(dst)),
        json.spec_bytes().len() <= MAX_FRAME_LEN ==> r is Ok && buffer_contents(*final(dst))
            == buffer_contents(*old(dst)) + json.spec_bytes(),
{
    let bytes = json.as_bytes();
    let len = bytes.len();
    if len > MAX_FRAME_LEN {
        return Err(CodecError::FrameTooLarge { len });
    }
    buffer_reserve(dst, len);
    buffer_extend(dst, bytes);
    Ok(())
}

/// The scan outcome may stand for the buffer: a value ends within it.
pub open spec fn scan_fits<T, E>(scan: ScanOutcome<T, E>, src: Seq<u8>) -> bool {
    src.len() > 0 ==> (scan matches ScanOutcome::Value { offset, .. } ==> offset <= src.len())
}

/// What decoding a buffer gives, and what the buffer holds afterwards.
pub open spec fn decode_effect<T, E>(scan: ScanOutcome<T, E>, src: Seq<u8>) -> (
    Result<Option<T>, E>,
    Seq<u8>,
) {
    if src.len() == 0 {
        (Ok(None), src)
    } else {
        match scan {
            ScanOutcome::Value { item, offset } => (Ok(Some(item)), src.skip(offset as int)),
            ScanOutcome::Incomplete => (Ok(None), src),
            ScanOutcome::Invalid(e) => (Err(e), src),
            ScanOutcome::Exhausted => (Ok(None), src),
        }
    }
}

/// Takes one message off the front of `src`, given what scanning the
/// buffer found. An empty buffer, a value that has not fully arrived and a
/// buffer of whitespace give no message and leave the buffer alone; a
/// complete value is removed from the buffer and returned; an invalid
/// encoding is an error and leaves the buffer alone.
pub fn decode_frame<T, E>(src: &mut BytesMut, scan: ScanOutcome<T, E>) -> (r: Result<Option<T>, E>)
    requires
        scan_fits(scan, buffer_contents(*old(src))),
    ensures
        (r, buffer_contents(*final(src))) == decode_effect(scan, buffer_contents(*old(src))),
{
    if buffer_len(src) == 0 {
        return Ok(None);
    }
    match scan {
        ScanOutcome::Value { item, offset } => {
            buffer_advance(src, offset);
            Ok(Some(item))
        },
        ScanOutcome::Incomplete => Ok(None),
        ScanOutcome::Invalid(e) => Err(e),
        ScanOutcome::Exhausted => Ok(None),
    }
}

/// The client's side of the wire: writes client messages, reads server
/// messages.
pub struct ClientCodec;

impl ClientCodec {
    /// Writes the encoding of a client message as one frame.
    pub fn encode(&mut self, json: &str, dst: &mut BytesMut) -> (r: Result<(), CodecError>)
        requires
            encode_fits(json.spec_bytes(), buffer_contents(*old(dst))),
        ensures
            json.spec_bytes().len() > MAX_FRAME_LEN ==> r == Err::<(), CodecError>(
                CodecError::FrameTooLarge { len: json.spec_bytes().len() as usize },
            ) && buffer_contents(*final(dst)) == buffer_contents(*old(dst)),
            json.spec_bytes().len() <= MAX_FRAME_LEN ==> r is Ok && buffer_contents(*final(dst))
                == buffer_contents(*old(dst)) + json.spec_bytes(),
    {
        encode_frame(json, dst)
    }

    /// Reads one server message off the front of `src`.
    pub fn decode<E>(&mut self, src: &mut BytesMut, scan: ScanOutcome<ServerMessage, E>) -> (r:
        Result<Option<ServerMessage>, E>)
        requires
            scan_fits(scan, buffer_contents(*old(src))),
        ensures
            (r, buffer_contents(*final(src))) == decode_effect(scan, buffer_contents(*old(src))),
    {
        decode_frame(src, scan)
    }
}

/// The server's side of the wire: reads client messages, writes server
/// messages.
pub struct ServerCodec;

impl ServerCodec {
    /// Reads one client message off the front of `src`.
    pub fn decode<E>(&mut self, src: &mut BytesMut, scan: ScanOutcome<ClientMessage, E>) -> (r:
        Result<Option<ClientMessage>, E>)
        requires
            scan_fits(scan, buffer_contents(*old(src))),
        ensures
            (r, buffer_contents(*final(src))) == decode_effect(scan, buffer_contents(*old(src))),
    {
        decode_frame(src, scan)
    }

    /// Writes the encoding of a server message as one frame.
    pub fn encode(&mut self, json: &str, dst: &mut BytesMut) -> (r: Result<(), CodecError>)
        requires
            encode_fits(json.spec_bytes(), buffer_contents(*old(dst))),
        ensures
            json.spec_bytes().len() > MAX_FRAME_LEN ==> r == Err::<(), CodecError>(
                CodecError::FrameTooLarge { len: json.spec_bytes().len() as usize },
            ) && buffer_contents(*final(dst)) == buffer_contents(*old(dst)),
            json.spec_bytes().len() <= MAX_FRAME_LEN ==> r is Ok && buffer_contents(*final(dst))
                == buffer_contents(*old(dst)) + json.spec_bytes(),
    {
        encode_frame(json, dst)
    }
}

/// Writing a frame and then reading it back from an otherwise empty buffer
/// gives the scanned value and leaves the buffer empty, when the scan finds
/// a value that spans the whole frame.
pub proof fn law_encode_then_decode<T, E>(json: Seq<u8>, item: T)
    requires
        0 < json.len() <= MAX_FRAME_LEN,
    ensures
        decode_effect(
            ScanOutcome::<T, E>::Value { item, offset: json.len() as usize },
            Seq::<u8>::empty() + json,
        ) == (Ok::<Option<T>, E>(Some(item)), Seq::<u8>::empty()),
{
    assert((Seq::<u8>::empty() + json).skip(json.len() as int) =~= Seq::<u8>::empty());
}

/// Frames written one after another come out in order: after the first is
/// taken off, the buffer starts with the second.
pub proof fn law_frames_in_order<T, E>(first: Seq<u8>, second: Seq<u8>, item: T)
    requires
        0 < first.len() <= usize::MAX,
    ensures
        decode_effect(
            ScanOutcome::<T, E>::Value { item, offset: first.len() as usize },
            first + second,
        ).1 == second,
{
    assert((first + second).skip(first.len() as int) =~= second);
}

/// Decoding only ever consumes a complete value, and exactly its bytes: an
/// empty buffer gives nothing; otherwise a value is returned and its
/// `offset` bytes dropped, an invalid encoding is the error, and anything
/// else gives nothing; only a returned value changes the buffer.
pub proof fn law_decode_consumes_only_values<T, E>(scan: ScanOutcome<T, E>, src: Seq<u8>)
    ensures
        src.len() == 0 ==> decode_effect(scan, src) == (Ok::<Option<T>, E>(None), src),
        src.len() > 0 ==> match scan {
            ScanOutcome::Value { item, offset } => decode_effect(scan, src) == (
                Ok::<Option<T>, E>(Some(item)),
                src.skip(offset as int),
            ),
            ScanOutcome::Invalid(e) => decode_effect(scan, src) == (Err::<Option<T>, E>(e), src),
            _ => decode_effect(scan, src) == (Ok::<Option<T>, E>(None), src),
        },
        decode_effect(scan, src).1 != src ==> src.len() > 0 && scan is Value,
{
}

/// A frame is written exactly when it is at most `MAX_FRAME_LEN` bytes, and
/// the buffer can take every such frame while it holds less than
/// `isize::MAX - MAX_FRAME_LEN` bytes.
pub proof fn law_frame_bound(json: Seq<u8>, dst: Seq<u8>)
    ensures
        json.len() > MAX_FRAME_LEN ==> encode_fits(json, dst),
        dst.len() + MAX_FRAME_LEN <= isize::MAX ==> encode_fits(json, dst),
        MAX_FRAME_LEN == 8 * 1024 * 1024,
{
}

} // verus!
