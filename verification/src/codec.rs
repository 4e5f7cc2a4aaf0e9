//! Length-prefixed framing: every message on the wire is a four-byte
//! big-endian length followed by that many payload bytes, and the length
//! must lie between 1 and [`MAX_FRAME_SIZE`].
use crate::protocol::MAX_FRAME_SIZE;
use crate::text::{decimal, push_decimal};
use vstd::prelude::*;

verus! {

/// Why a frame or a CBOR document was refused.
#[derive(Clone, Copy, Debug, PartialEq, Eq, Structural)]
pub enum CodecError {
    InvalidLength(u32),
    FrameTooLarge(u32),
    InvalidCbor,
    EncodeFailed,
    TrailingBytes,
}

/// The text of a codec error, as it is shown to users.
pub open spec fn codec_error_text(e: CodecError) -> Seq<char> {
    match e {
        CodecError::InvalidLength(n) => "invalid frame length: "@ + decimal(n as nat),
        CodecError::FrameTooLarge(n) => "frame exceeds max size: "@ + decimal(n as nat),
        CodecError::InvalidCbor => "cbor decode failed"@,
        CodecError::EncodeFailed => "cbor encode failed"@,
        CodecError::TrailingBytes => "trailing bytes after cbor document"@,
    }
}

impl CodecError {
    /// The error's text, as it is shown to users.
    pub fn message(&self) -> (text: String)
        ensures
            text@ == codec_error_text(*self),
    {
        match self {
            CodecError::InvalidLength(n) => {
                let mut text = "invalid frame length: ".to_owned();
                push_decimal(&mut text, *n);
                text
            },
            CodecError::FrameTooLarge(n) => {
                let mut text = "frame exceeds max size: ".to_owned();
                push_decimal(&mut text, *n);
                text
            },
            CodecError::InvalidCbor => "cbor decode failed".to_owned(),
            CodecError::EncodeFailed => "cbor encode failed".to_owned(),
            CodecError::TrailingBytes => "trailing bytes after cbor document".to_owned(),
        }
    }
}

/// The error that a length breaks, if any: zero is invalid, and so is
/// anything above [`MAX_FRAME_SIZE`].
pub open spec fn length_violation(length: u32) -> Option<CodecError> {
    if length == 0 {
        Some(CodecError::InvalidLength(length))
    } else if length > MAX_FRAME_SIZE {
        Some(CodecError::FrameTooLarge(length))
    } else {
        None
    }
}

/// The error that a buffer of `len` bytes breaks as a frame payload, if
/// any: it must hold between 1 and [`MAX_FRAME_SIZE`] bytes. A length too
/// large for a `u32` is reported as `u32::MAX`.
pub open spec fn size_violation(len: nat) -> Option<CodecError> {
    if len == 0 {
        Some(CodecError::InvalidLength(0))
    } else if len > MAX_FRAME_SIZE {
        Some(CodecError::FrameTooLarge(if len > u32::MAX { u32::MAX } else { len as u32 }))
    } else {
        None
    }
}

/// Checks that a buffer of `len` bytes may be carried by one frame.
pub fn validate_size(len: usize) -> (res: Result<(), CodecError>)
    ensures
        res == match size_violation(len as nat) {
            Some(e) => Err::<(), CodecError>(e),
            None => Ok(()),
        },
{
    if len == 0 {
        return Err(CodecError::InvalidLength(0));
    }
    if len > MAX_FRAME_SIZE as usize {
        if len > u32::MAX as usize {
            return Err(CodecError::FrameTooLarge(u32::MAX));
        }
        return Err(CodecError::FrameTooLarge(len as u32));
    }
    Ok(())
}

/// The four bytes that encode `n`, most significant first.
pub open spec fn be_bytes(n: u32) -> Seq<u8> {
    seq![
        (n / 0x100_0000) as u8,
        ((n / 0x1_0000) % 0x100) as u8,
        ((n / 0x100) % 0x100) as u8,
        (n % 0x100) as u8,
    ]
}

/// The number that four bytes encode, most significant first.
pub open spec fn be_value(b: Seq<u8>) -> u32
    recommends
        b.len() == 4,
{
    (b[0] * 0x100_0000 + b[1] * 0x1_0000 + b[2] * 0x100 + b[3]) as u32
}

/// The frame that carries `payload`: its length as a header, then the bytes.
pub open spec fn frame_of(payload: Seq<u8>) -> Seq<u8> {
    be_bytes(payload.len() as u32) + payload
}

/// What [`encode_frame`] gives for a payload: its frame, when its length
/// is allowed.
pub open spec fn frame_encoding(payload: Seq<u8>) -> Result<Seq<u8>, CodecError> {
    match size_violation(payload.len()) {
        Some(e) => Err(e),
        None => Ok(frame_of(payload)),
    }
}

/// What [`decode_frame`] gives for a frame: its payload, when the header is
/// present, declares a valid length, and matches the bytes that follow.
pub open spec fn frame_decoding(frame: Seq<u8>) -> Result<Seq<u8>, CodecError> {
    if frame.len() < 4 {
        Err(CodecError::InvalidLength(frame.len() as u32))
    } else {
        let declared = be_value(frame.take(4));
        match length_violation(declared) {
            Some(e) => Err(e),
            None => if frame.len() != declared + 4 {
                Err(CodecError::InvalidLength(declared))
            } else {
                Ok(frame.skip(4))
            },
        }
    }
}

proof fn lemma_be_roundtrip(n: u32)
    ensures
        be_bytes(n).len() == 4,
        be_value(be_bytes(n)) == n,
{
    let b = be_bytes(n);
    assert(b[0] == n / 0x100_0000);
    assert(b[1] == (n / 0x1_0000) % 0x100);
    assert(b[2] == (n / 0x100) % 0x100);
    assert(b[3] == n % 0x100);
    assert(n / 0x100_0000 * 0x100_0000 + (n / 0x1_0000) % 0x100 * 0x1_0000 + (n / 0x100) % 0x100
        * 0x100 + n % 0x100 == n) by (nonlinear_arith);
}

/// Checks that a frame length is allowed.
pub fn validate_length(length: u32) -> (res: Result<(), CodecError>)
    ensures
        res == match length_violation(length) {
            Some(e) => Err::<(), CodecError>(e),
            None => Ok(()),
        },
{
    if length == 0 {
        return Err(CodecError::InvalidLength(length));
    }
    if length > MAX_FRAME_SIZE {
        return Err(CodecError::FrameTooLarge(length));
    }
    Ok(())
}

fn be_u32(b0: u8, b1: u8, b2: u8, b3: u8) -> (n: u32)
    ensures
        n == be_value(seq![b0, b1, b2, b3]),
{
    assert(b0 * 0x100_0000 + b1 * 0x1_0000 + b2 * 0x100 + b3 <= u32::MAX) by (nonlinear_arith)
        requires
            b0 <= 255 && b1 <= 255 && b2 <= 255 && b3 <= 255,
    ;
    (b0 as u32) * 0x100_0000 + (b1 as u32) * 0x1_0000 + (b2 as u32) * 0x100 + (b3 as u32)
}

/// Frames a payload: its length as four big-endian bytes, then the payload.
pub fn encode_frame(payload: &[u8]) -> (res: Result<Vec<u8>, CodecError>)
    ensures
        match res {
            Ok(frame) => frame_encoding(payload@) == Ok::<Seq<u8>, CodecError>(frame@),
            Err(e) => frame_encoding(payload@) == Err::<Seq<u8>, CodecError>(e),
        },
{
    validate_size(payload.len())?;
    let len = payload.len() as u32;
    let mut frame: Vec<u8> = Vec::new();
    frame.push((len / 0x100_0000) as u8);
    frame.push(((len / 0x1_0000) % 0x100) as u8);
    frame.push(((len / 0x100) % 0x100) as u8);
    frame.push((len % 0x100) as u8);
    frame.extend_from_slice(payload);
    assert(frame@ =~= frame_of(payload@));
    Ok(frame)
}

/// Takes the payload out of a frame, checking its header.
pub fn decode_frame(frame: &[u8]) -> (res: Result<&[u8], CodecError>)
    ensures
        match res {
            Ok(payload) => frame_decoding(frame@) == Ok::<Seq<u8>, CodecError>(payload@),
            Err(e) => frame_decoding(frame@) == Err::<Seq<u8>, CodecError>(e),
        },
{
    if frame.len() < 4 {
        return Err(CodecError::InvalidLength(frame.len() as u32));
    }
    let declared = be_u32(frame[0], frame[1], frame[2], frame[3]);
    assert(seq![frame@[0], frame@[1], frame@[2], frame@[3]] =~= frame@.take(4));
    validate_length(declared)?;
    if frame.len() != declared as usize + 4 {
        return Err(CodecError::InvalidLength(declared));
    }
    let payload = vstd::slice::slice_subrange(frame, 4, frame.len());
    assert(payload@ =~= frame@.skip(4));
    Ok(payload)
}

/// The length that a frame header declares, once checked.
pub fn frame_header_length(header: [u8; 4]) -> (res: Result<u32, CodecError>)
    ensures
        match length_violation(be_value(header@)) {
            Some(e) => res == Err::<u32, CodecError>(e),
            None => res == Ok::<u32, CodecError>(be_value(header@)),
        },
{
    let declared = be_u32(header[0], header[1], header[2], header[3]);
    assert(seq![header@[0], header@[1], header@[2], header@[3]] =~= header@);
    validate_length(declared)?;
    Ok(declared)
}

/// What checking the size of a CBOR document of `len` bytes gives: the
/// document has to fit in one frame.
pub open spec fn document_length_check(len: usize) -> Result<(), CodecError> {
    match size_violation(len as nat) {
        Some(e) => Err(e),
        None => Ok(()),
    }
}

/// Checks that a CBOR document of `len` bytes fits in one frame.
pub fn check_document_length(len: usize) -> (res: Result<(), CodecError>)
    ensures
        res == document_length_check(len),
{
    validate_size(len)
}

/// What reading one CBOR value out of a `len`-byte document comes to, given
/// whether the reader produced a value and the offset at which it stopped:
/// the document must fit in a frame, hold a valid value, and end with it.
pub open spec fn cbor_read_check(len: usize, decoded: bool, position: u64) -> Result<(), CodecError> {
    match document_length_check(len) {
        Err(e) => Err(e),
        Ok(()) => if !decoded {
            Err(CodecError::InvalidCbor)
        } else if position != len as u64 {
            Err(CodecError::TrailingBytes)
        } else {
            Ok(())
        },
    }
}

/// Judges the outcome of reading one CBOR value out of a `len`-byte document.
pub fn check_cbor_read(len: usize, decoded: bool, position: u64) -> (res: Result<(), CodecError>)
    ensures
        res == cbor_read_check(len, decoded, position),
{
    check_document_length(len)?;
    if !decoded {
        return Err(CodecError::InvalidCbor);
    }
    if position != len as u64 {
        return Err(CodecError::TrailingBytes);
    }
    Ok(())
}

/// What writing a value as CBOR comes to, given whether the writer succeeded
/// and the length of what it wrote: the document must fit in a frame.
pub open spec fn cbor_write_check(encoded: bool, len: usize) -> Result<(), CodecError> {
    if !encoded {
        Err(CodecError::EncodeFailed)
    } else {
        document_length_check(len)
    }
}

/// Judges the outcome of writing a value as CBOR.
pub fn check_cbor_write(encoded: bool, len: usize) -> (res: Result<(), CodecError>)
    ensures
        res == cbor_write_check(encoded, len),
{
    if !encoded {
        return Err(CodecError::EncodeFailed);
    }
    check_document_length(len)
}

/// Law: decoding the frame of a payload gives the payload back, for every
/// payload that [`encode_frame`] accepts.
pub proof fn lemma_decode_inverts_encode(payload: Seq<u8>)
    requires
        frame_encoding(payload) is Ok,
    ensures
        frame_decoding(frame_encoding(payload)->Ok_0) == Ok::<Seq<u8>, CodecError>(payload),
{
    let frame = frame_of(payload);
    lemma_be_roundtrip(payload.len() as u32);
    assert(frame.take(4) =~= be_bytes(payload.len() as u32));
    assert(frame.skip(4) =~= payload);
}

/// Law: a frame that decodes is exactly the frame of what it decodes to, so
/// every accepted frame has one payload and every payload one frame.
pub proof fn lemma_encode_inverts_decode(frame: Seq<u8>)
    requires
        frame_decoding(frame) is Ok,
    ensures
        frame_encoding(frame_decoding(frame)->Ok_0) == Ok::<Seq<u8>, CodecError>(frame),
{
    let payload = frame.skip(4);
    let declared = be_value(frame.take(4));
    let b = frame.take(4);
    assert(be_bytes(declared) =~= b) by {
        assert(b[0] * 0x100_0000 + b[1] * 0x1_0000 + b[2] * 0x100 + b[3] == declared);
        assert(declared / 0x100_0000 == b[0] && (declared / 0x1_0000) % 0x100 == b[1]
            && (declared / 0x100) % 0x100 == b[2] && declared % 0x100 == b[3]) by (nonlinear_arith)
            requires
                b[0] * 0x100_0000 + b[1] * 0x1_0000 + b[2] * 0x100 + b[3] == declared,
                b[0] <= 255 && b[1] <= 255 && b[2] <= 255 && b[3] <= 255,
        ;
    }
    assert(be_bytes(declared) + payload =~= frame);
}

} // verus!
