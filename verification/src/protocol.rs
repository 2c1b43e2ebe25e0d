//! The wire codec for the file-exchange protocol: one length-prefixed
//! message per exchange direction, at most [`MAX_MESSAGE_LEN`] payload
//! bytes, UTF-8 text payloads, under a fixed versioned protocol name.

use vstd::prelude::*;
use vstd::string::StrSliceExecFns;
use vstd::utf8::{decode_utf8, encode_utf8, valid_utf8};

verus! {

/// Upper bound on the payload of a single wire message, so that a
/// malicious peer cannot make the reader allocate unbounded memory.
pub const MAX_MESSAGE_LEN: usize = 1000000;

/// Identifies the file-exchange protocol during protocol negotiation;
/// changing the wire format requires bumping this string.
#[derive(Debug, Clone)]
pub struct FileExchangeProtocol();

/// Encodes and decodes the two wire messages of one exchange.
#[derive(Clone)]
pub struct FileExchangeCodec();

/// The wire message opening an exchange: the name of the wanted file.
#[derive(Debug, Clone, PartialEq, Eq)]
pub struct FileRequest(pub String);

/// The wire message closing an exchange: the content of the file.
#[derive(Debug, Clone, PartialEq, Eq)]
pub struct FileResponse(pub String);

impl View for FileRequest {
    type V = Seq<char>;

    open spec fn view(&self) -> Seq<char> {
        self.0@
    }
}

impl View for FileResponse {
    type V = Seq<char>;

    open spec fn view(&self) -> Seq<char> {
        self.0@
    }
}

impl FileExchangeProtocol {
    /// The fixed, versioned protocol identifier.
    pub fn protocol_name(&self) -> (name: &'static str)
        ensures
            name@ == "/file-exchange/1"@,
    {
        "/file-exchange/1"
    }
}

/// Why a wire message could not be decoded; fatal for that one
/// exchange only.
#[derive(Debug, Clone, Copy, PartialEq, Eq, Structural)]
pub enum CodecError {
    /// The frame announced an empty payload: the peer ended the
    /// stream without sending a message.
    UnexpectedEof,
    /// The frame announced more than [`MAX_MESSAGE_LEN`] payload bytes.
    FrameTooLarge,
    /// The buffer ends before the announced payload does.
    Incomplete,
    /// The payload bytes are not valid UTF-8 text.
    InvalidUtf8,
}

/// The four-byte big-endian length prefix announcing `n` payload bytes.
pub open spec fn length_prefix(n: int) -> Seq<u8>
    recommends
        0 <= n < 0x100000000,
{
    seq![
        ((n / 0x1000000) % 0x100) as u8,
        ((n / 0x10000) % 0x100) as u8,
        ((n / 0x100) % 0x100) as u8,
        (n % 0x100) as u8,
    ]
}

/// The payload length announced by the first four bytes of `b`.
pub open spec fn prefix_value(b: Seq<u8>) -> int
    recommends
        b.len() >= 4,
{
    0x1000000 * (b[0] as int) + 0x10000 * (b[1] as int) + 0x100 * (b[2] as int) + (b[3] as int)
}

/// The complete frame carrying `payload`: its length prefix, then its bytes.
pub open spec fn frame_of(payload: Seq<u8>) -> Seq<u8>
    recommends
        payload.len() <= MAX_MESSAGE_LEN,
{
    length_prefix(payload.len() as int) + payload
}

/// What decoding makes of a byte buffer: the payload of its leading
/// frame, or the reason it has none.
pub open spec fn parse_frame(b: Seq<u8>) -> Result<Seq<u8>, CodecError> {
    if b.len() < 4 {
        Err(CodecError::Incomplete)
    } else {
        let n = prefix_value(b);
        if n > MAX_MESSAGE_LEN {
            Err(CodecError::FrameTooLarge)
        } else if n == 0 {
            Err(CodecError::UnexpectedEof)
        } else if b.len() < 4 + n {
            Err(CodecError::Incomplete)
        } else {
            Ok(b.subrange(4, 4 + n))
        }
    }
}

/// Reading the length back out of a prefix returns the length that
/// built it.
pub proof fn lemma_prefix_round_trip(n: int)
    requires
        0 <= n < 0x100000000,
    ensures
        length_prefix(n).len() == 4,
        prefix_value(length_prefix(n)) == n,
{
    let q1 = n / 0x100;
    let q2 = n / 0x10000;
    let q3 = n / 0x1000000;
    assert(q2 == q1 / 0x100 && q3 == q2 / 0x100) by (nonlinear_arith)
        requires
            0 <= n,
            q1 == n / 0x100,
            q2 == n / 0x10000,
            q3 == n / 0x1000000,
    ;
    assert(n == 0x100 * q1 + n % 0x100) by (nonlinear_arith)
        requires
            0 <= n,
            q1 == n / 0x100,
    ;
    assert(q1 == 0x100 * q2 + q1 % 0x100) by (nonlinear_arith)
        requires
            0 <= q1,
            q2 == q1 / 0x100,
    ;
    assert(q2 == 0x100 * q3 + q2 % 0x100) by (nonlinear_arith)
        requires
            0 <= q2,
            q3 == q2 / 0x100,
    ;
    assert(0 <= q3 < 0x100) by (nonlinear_arith)
        requires
            0 <= n < 0x100000000,
            q3 == n / 0x1000000,
    ;
    assert(q3 % 0x100 == q3);
    assert(prefix_value(length_prefix(n)) == 0x1000000 * (q3 % 0x100) + 0x10000 * (q2 % 0x100)
        + 0x100 * (q1 % 0x100) + n % 0x100);
}

/// A frame built from any payload within the cap parses back to
/// exactly that payload.
pub proof fn lemma_frame_round_trip(payload: Seq<u8>)
    requires
        1 <= payload.len() <= MAX_MESSAGE_LEN,
    ensures
        parse_frame(frame_of(payload)) == Ok::<Seq<u8>, CodecError>(payload),
{
    let n = payload.len() as int;
    lemma_prefix_round_trip(n);
    let b = frame_of(payload);
    assert(b.len() == 4 + n);
    assert forall|i: int| 0 <= i < 4 implies b[i] == length_prefix(n)[i] by {}
    assert(prefix_value(b) == prefix_value(length_prefix(n)));
    assert(b.subrange(4, 4 + n) =~= payload);
}

/// Round-trip law: any text whose UTF-8 encoding is nonempty and
/// within the cap is framed, parsed and decoded back to identical
/// text.
pub proof fn lemma_message_round_trip(s: Seq<char>)
    requires
        1 <= encode_utf8(s).len() <= MAX_MESSAGE_LEN,
    ensures
        parse_frame(frame_of(encode_utf8(s))) == Ok::<Seq<u8>, CodecError>(encode_utf8(s)),
        valid_utf8(encode_utf8(s)),
        decode_utf8(encode_utf8(s)) == s,
{
    lemma_frame_round_trip(encode_utf8(s));
    vstd::utf8::encode_utf8_valid_utf8(s);
    vstd::utf8::encode_utf8_decode_utf8(s);
}

/// The four prefix bytes announcing `n` payload bytes.
fn encode_prefix(n: u32) -> (r: Vec<u8>)
    ensures
        r@ == length_prefix(n as int),
{
    let mut v: Vec<u8> = Vec::new();
    v.push(((n / 0x1000000) % 0x100) as u8);
    v.push(((n / 0x10000) % 0x100) as u8);
    v.push(((n / 0x100) % 0x100) as u8);
    v.push((n % 0x100) as u8);
    proof {
        assert(v@ =~= length_prefix(n as int));
    }
    v
}

/// Reads the length prefix of `buf` and checks it against the cap,
/// before anything is allocated for the payload; a reader that
/// streams can thus refuse an oversized frame from its first four
/// bytes alone.
pub fn decode_prefix(buf: &Vec<u8>) -> (r: Result<usize, CodecError>)
    ensures
        buf@.len() < 4 ==> r == Err::<usize, CodecError>(CodecError::Incomplete),
        buf@.len() >= 4 ==> {
            let n = prefix_value(buf@);
            &&& n > MAX_MESSAGE_LEN ==> r == Err::<usize, CodecError>(CodecError::FrameTooLarge)
            &&& n == 0 ==> r == Err::<usize, CodecError>(CodecError::UnexpectedEof)
            &&& 0 < n <= MAX_MESSAGE_LEN ==> r == Ok::<usize, CodecError>(n as usize)
        },
{
    if buf.len() < 4 {
        return Err(CodecError::Incomplete);
    }
    let n: u64 = 0x1000000u64 * (buf[0] as u64) + 0x10000u64 * (buf[1] as u64) + 0x100u64 * (
    buf[2] as u64) + (buf[3] as u64);
    if n > (MAX_MESSAGE_LEN as u64) {
        Err(CodecError::FrameTooLarge)
    } else if n == 0 {
        Err(CodecError::UnexpectedEof)
    } else {
        Ok(n as usize)
    }
}

/// Frames `payload` under its length prefix; refused when the payload
/// would exceed what any reader accepts.
pub fn encode_frame(payload: &Vec<u8>) -> (r: Result<Vec<u8>, CodecError>)
    ensures
        payload@.len() <= MAX_MESSAGE_LEN ==> (r matches Ok(f) && f@ == frame_of(payload@)),
        payload@.len() > MAX_MESSAGE_LEN ==> r == Err::<Vec<u8>, CodecError>(
            CodecError::FrameTooLarge,
        ),
{
    if payload.len() > MAX_MESSAGE_LEN {
        return Err(CodecError::FrameTooLarge);
    }
    let mut out = encode_prefix(payload.len() as u32);
    let mut i: usize = 0;
    while i < payload.len()
        invariant
            i <= payload@.len(),
            payload@.len() <= MAX_MESSAGE_LEN,
            out@ == length_prefix(payload@.len() as int) + payload@.subrange(0, i as int),
        decreases payload@.len() - i,
    {
        out.push(payload[i]);
        i = i + 1;
        proof {
            assert(out@ =~= length_prefix(payload@.len() as int) + payload@.subrange(
                0,
                i as int,
            ));
        }
    }
    proof {
        assert(payload@.subrange(0, payload@.len() as int) =~= payload@);
    }
    Ok(out)
}

/// Extracts the payload of the frame at the head of `buf`, or says
/// why there is none; an oversized announcement is refused before the
/// payload is copied.
pub fn decode_frame(buf: &Vec<u8>) -> (r: Result<Vec<u8>, CodecError>)
    ensures
        match (r, parse_frame(buf@)) {
            (Ok(p), Ok(s)) => p@ == s,
            (Err(e1), Err(e2)) => e1 == e2,
            _ => false,
        },
{
    let n = match decode_prefix(buf) {
        Ok(n) => n,
        Err(e) => {
            return Err(e);
        },
    };
    if buf.len() < 4 + n {
        return Err(CodecError::Incomplete);
    }
    let mut payload: Vec<u8> = Vec::new();
    let mut i: usize = 4;
    while i < 4 + n
        invariant
            n <= MAX_MESSAGE_LEN,
            4 <= i <= 4 + n,
            4 + n <= buf@.len(),
            payload@ == buf@.subrange(4, i as int),
        decreases 4 + n - i,
    {
        payload.push(buf[i]);
        i = i + 1;
        proof {
            assert(payload@ =~= buf@.subrange(4, i as int));
        }
    }
    Ok(payload)
}

/// Relies on `String::from_utf8`: it returns the string that the
/// given bytes encode exactly when they are valid UTF-8, and reports
/// an error otherwise.
#[verifier::external_body]
fn utf8_to_string(bytes: Vec<u8>) -> (r: Option<String>)
    ensures
        r is Some <==> valid_utf8(bytes@),
        r matches Some(s) ==> s@ == decode_utf8(bytes@),
{
    String::from_utf8(bytes).ok()
}

impl FileExchangeCodec {
    /// Decodes one framed request: the bytes of the frame at the head
    /// of `buf` read as UTF-8 text.
    pub fn read_request(&mut self, buf: &Vec<u8>) -> (r: Result<FileRequest, CodecError>)
        ensures
            parse_frame(buf@) matches Err(e) ==> r == Err::<FileRequest, CodecError>(e),
            parse_frame(buf@) matches Ok(p) ==> {
                &&& valid_utf8(p) ==> (r matches Ok(req) && req@ == decode_utf8(p))
                &&& !valid_utf8(p) ==> r == Err::<FileRequest, CodecError>(CodecError::InvalidUtf8)
            },
    {
        let payload = match decode_frame(buf) {
            Ok(p) => p,
            Err(e) => {
                return Err(e);
            },
        };
        match utf8_to_string(payload) {
            Some(s) => Ok(FileRequest(s)),
            None => Err(CodecError::InvalidUtf8),
        }
    }

    /// Decodes one framed response, the same way as a request.
    pub fn read_response(&mut self, buf: &Vec<u8>) -> (r: Result<FileResponse, CodecError>)
        ensures
            parse_frame(buf@) matches Err(e) ==> r == Err::<FileResponse, CodecError>(e),
            parse_frame(buf@) matches Ok(p) ==> {
                &&& valid_utf8(p) ==> (r matches Ok(resp) && resp@ == decode_utf8(p))
                &&& !valid_utf8(p) ==> r == Err::<FileResponse, CodecError>(CodecError::InvalidUtf8)
            },
    {
        let payload = match decode_frame(buf) {
            Ok(p) => p,
            Err(e) => {
                return Err(e);
            },
        };
        match utf8_to_string(payload) {
            Some(s) => Ok(FileResponse(s)),
            None => Err(CodecError::InvalidUtf8),
        }
    }

    /// Encodes one request as a frame; the writer then half-closes
    /// its side of the stream, which still has to carry the response
    /// back.
    pub fn write_request(&mut self, request: &FileRequest) -> (r: Result<Vec<u8>, CodecError>)
        ensures
            encode_utf8(request@).len() <= MAX_MESSAGE_LEN ==> (r matches Ok(f) && f@ == frame_of(
                encode_utf8(request@),
            )),
            encode_utf8(request@).len() > MAX_MESSAGE_LEN ==> r == Err::<Vec<u8>, CodecError>(
                CodecError::FrameTooLarge,
            ),
    {
        let bytes = request.0.as_str().as_bytes_vec();
        encode_frame(&bytes)
    }

    /// Encodes one response as a frame, the same way as a request.
    pub fn write_response(&mut self, response: &FileResponse) -> (r: Result<Vec<u8>, CodecError>)
        ensures
            encode_utf8(response@).len() <= MAX_MESSAGE_LEN ==> (r matches Ok(f) && f@ == frame_of(
                encode_utf8(response@),
            )),
            encode_utf8(response@).len() > MAX_MESSAGE_LEN ==> r == Err::<Vec<u8>, CodecError>(
                CodecError::FrameTooLarge,
            ),
    {
        let bytes = response.0.as_str().as_bytes_vec();
        encode_frame(&bytes)
    }
}

} // verus!
