//! The native-messaging frame: a 4-byte little-endian length, then exactly
//! that many bytes of UTF-8 text.
use vstd::prelude::*;
use vstd::utf8::{decode_utf8, encode_utf8, valid_utf8};

verus! {

/// Why a frame could not be read.
#[derive(Debug, Clone, Copy, PartialEq, Eq, Structural)]
pub enum FrameError {
    /// The stream ended inside the 4-byte length header.
    TruncatedHeader,
    /// The stream ended before the announced number of body bytes.
    TruncatedBody,
    /// The body is not valid UTF-8.
    InvalidUtf8,
}

/// The four little-endian bytes of `n` (taken modulo 2^32).
pub open spec fn le32(n: nat) -> Seq<u8> {
    seq![
        (n % 256) as u8,
        ((n / 256) % 256) as u8,
        ((n / 65536) % 256) as u8,
        ((n / 16777216) % 256) as u8,
    ]
}

/// The length announced by a 4-byte header.
pub open spec fn header_value(h: Seq<u8>) -> nat {
    h[0] as nat + h[1] as nat * 256 + h[2] as nat * 65536 + h[3] as nat * 16777216
}

/// The frame that carries `body`.
pub open spec fn frame_bytes(body: Seq<u8>) -> Seq<u8> {
    le32(body.len()) + body
}

/// What reading one frame from the start of a closed stream yields: nothing
/// when the stream is empty, else the text and the number of bytes consumed.
pub open spec fn read_spec(input: Seq<u8>) -> Result<Option<(Seq<char>, nat)>, FrameError> {
    if input.len() == 0 {
        Ok(None)
    } else if input.len() < 4 {
        Err(FrameError::TruncatedHeader)
    } else {
        let n = header_value(input.take(4));
        if input.len() < 4 + n {
            Err(FrameError::TruncatedBody)
        } else {
            let body = input.subrange(4, 4 + n as int);
            if valid_utf8(body) {
                Ok(Some((decode_utf8(body), 4 + n)))
            } else {
                Err(FrameError::InvalidUtf8)
            }
        }
    }
}

/// The spec-level value of what `read_frame` returns.
pub open spec fn read_view(r: Result<Option<(String, usize)>, FrameError>) -> Result<Option<(Seq<char>, nat)>, FrameError> {
    match r {
        Ok(Some((s, k))) => Ok(Some((s@, k as nat))),
        Ok(None) => Ok(None),
        Err(e) => Err(e),
    }
}

proof fn lemma_header_of_le32(n: nat)
    requires
        n <= u32::MAX,
    ensures
        header_value(le32(n)) == n,
{
    let b0 = n % 256;
    let b1 = (n / 256) % 256;
    let b2 = (n / 65536) % 256;
    let b3 = (n / 16777216) % 256;
    assert(b0 + b1 * 256 + b2 * 65536 + b3 * 16777216 == n) by (nonlinear_arith)
        requires
            n <= 0xffff_ffff,
            b0 == n % 256,
            b1 == (n / 256) % 256,
            b2 == (n / 65536) % 256,
            b3 == (n / 16777216) % 256,
    ;
}

/// Relies on `String::from_utf8`: it succeeds exactly on valid UTF-8 and the
/// string then holds those bytes.
#[verifier::external_body]
fn utf8_string(bytes: Vec<u8>) -> (r: Option<String>)
    ensures
        r.is_some() == valid_utf8(bytes@),
        r matches Some(s) ==> s@ == decode_utf8(bytes@),
{
    String::from_utf8(bytes).ok()
}

/// Encodes `msg` as one frame.
pub fn encode_frame(msg: &str) -> (r: Vec<u8>)
    requires
        encode_utf8(msg@).len() <= u32::MAX,
    ensures
        r@ == frame_bytes(encode_utf8(msg@)),
{
    let bytes = msg.as_bytes();
    let n: u32 = bytes.len() as u32;
    let mut out: Vec<u8> = Vec::new();
    out.push((n % 256) as u8);
    out.push(((n / 256) % 256) as u8);
    out.push(((n / 65536) % 256) as u8);
    out.push(((n / 16777216) % 256) as u8);
    assert(out@ =~= le32(bytes@.len()));
    let mut i: usize = 0;
    while i < bytes.len()
        invariant
            i <= bytes@.len(),
            out@ =~= le32(bytes@.len()) + bytes@.take(i as int),
        decreases bytes@.len() - i,
    {
        out.push(bytes[i]);
        i = i + 1;
        assert(out@ =~= le32(bytes@.len()) + bytes@.take(i as int));
    }
    assert(bytes@.take(bytes@.len() as int) =~= bytes@);
    out
}

/// Reads the length header from the bytes that arrived before the stream
/// ended (at most four): none at all is a clean end.
pub fn decode_length(header: &[u8]) -> (r: Result<Option<u32>, FrameError>)
    requires
        header@.len() <= 4,
    ensures
        header@.len() == 0 ==> r == Ok::<Option<u32>, FrameError>(None),
        0 < header@.len() < 4 ==> r == Err::<Option<u32>, FrameError>(FrameError::TruncatedHeader),
        header@.len() == 4 ==> (r matches Ok(Some(n)) && n as nat == header_value(header@)),
{
    if header.len() == 0 {
        Ok(None)
    } else if header.len() < 4 {
        Err(FrameError::TruncatedHeader)
    } else {
        let n: u32 = header[0] as u32 + header[1] as u32 * 256 + header[2] as u32 * 65536
            + header[3] as u32 * 16777216;
        Ok(Some(n))
    }
}

/// Turns a frame body into text; `expected` is the length its header
/// announced, and a shorter body means the stream ended mid-frame.
pub fn decode_body(body: Vec<u8>, expected: u32) -> (r: Result<String, FrameError>)
    ensures
        body@.len() < expected ==> r == Err::<String, FrameError>(FrameError::TruncatedBody),
        body@.len() >= expected && !valid_utf8(body@) ==> r == Err::<String, FrameError>(
            FrameError::InvalidUtf8,
        ),
        body@.len() >= expected && valid_utf8(body@) ==> (r matches Ok(s) && s@ == decode_utf8(body@)),
{
    if body.len() < expected as usize {
        return Err(FrameError::TruncatedBody);
    }
    match utf8_string(body) {
        Some(s) => Ok(s),
        None => Err(FrameError::InvalidUtf8),
    }
}


/// Reads one frame from the start of `input`, all the bytes that arrived
/// before the stream closed. On success it also gives how many bytes the
/// frame took.
pub fn read_frame(input: &[u8]) -> (r: Result<Option<(String, usize)>, FrameError>)
    ensures
        read_view(r) == read_spec(input@),
{
    let total: usize = input.len();
    let head_len: usize = if total < 4 { total } else { 4 };
    let mut header: Vec<u8> = Vec::new();
    let mut i: usize = 0;
    while i < head_len
        invariant
            head_len <= 4,
            head_len <= total == input@.len(),
            i <= head_len,
            header@ =~= input@.take(i as int),
        decreases head_len - i,
    {
        header.push(input[i]);
        i = i + 1;
    }
    let n: u32 = match decode_length(header.as_slice()) {
        Err(e) => return Err(e),
        Ok(None) => return Ok(None),
        Ok(Some(n)) => n,
    };
    assert(header@ =~= input@.take(4));
    if ((total - 4) as u64) < n as u64 {
        return Err(FrameError::TruncatedBody);
    }
    let end: usize = 4 + n as usize;
    let mut body: Vec<u8> = Vec::new();
    let mut j: usize = 4;
    while j < end
        invariant
            4 <= j <= end <= total == input@.len(),
            body@ =~= input@.subrange(4, j as int),
        decreases end - j,
    {
        body.push(input[j]);
        j = j + 1;
    }
    match decode_body(body, n) {
        Ok(s) => Ok(Some((s, end))),
        Err(e) => Err(e),
    }
}

/// Encoding a text as a frame and reading it back, whatever follows it on the
/// stream, gives the same text and consumes exactly the frame.
pub proof fn frame_round_trip(text: Seq<char>, rest: Seq<u8>)
    requires
        encode_utf8(text).len() <= u32::MAX,
    ensures
        read_spec(frame_bytes(encode_utf8(text)) + rest) == Ok::<Option<(Seq<char>, nat)>, FrameError>(
            Some((text, 4 + encode_utf8(text).len())),
        ),
{
    let body = encode_utf8(text);
    let input = frame_bytes(body) + rest;
    lemma_header_of_le32(body.len());
    assert(input.take(4) =~= le32(body.len()));
    assert(input.subrange(4, 4 + body.len() as int) =~= body);
    vstd::utf8::encode_utf8_valid_utf8(text);
    vstd::utf8::encode_utf8_decode_utf8(text);
}

/// A stream that closes right after a complete frame reads as a clean end,
/// while one that closes inside a length header is a framing error.
pub proof fn frame_stream_end(text: Seq<char>, partial: Seq<u8>)
    requires
        encode_utf8(text).len() <= u32::MAX,
        0 < partial.len() < 4,
    ensures
        ({
            let whole = frame_bytes(encode_utf8(text));
            read_spec(whole) matches Ok(Some((_, k))) && read_spec(whole.skip(k as int))
                == Ok::<Option<(Seq<char>, nat)>, FrameError>(None)
        }),
        read_spec(partial) == Err::<Option<(Seq<char>, nat)>, FrameError>(FrameError::TruncatedHeader),
{
    let whole = frame_bytes(encode_utf8(text));
    frame_round_trip(text, Seq::empty());
    assert(whole + Seq::<u8>::empty() =~= whole);
    assert(whole.skip(whole.len() as int) =~= Seq::<u8>::empty());
}

} // verus!
