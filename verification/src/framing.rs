//! Length-prefixed frames on a byte stream.
//!
//! A frame is a four-byte big-endian payload length followed by the payload. Both
//! sides cap the length, so that a peer cannot make the other allocate without
//! bound.
use vstd::prelude::*;
use vstd::string::*;
use crate::io::IoErrorKind;
use crate::text::{append_digits, digits};

verus! {

/// Bytes of a frame header.
pub const FRAME_HEADER_LEN: usize = 4;

/// Largest payload of a frame.
pub const MAX_FRAME_SIZE: usize = 65536;

/// A frame longer than [`MAX_FRAME_SIZE`].
#[derive(Clone, Copy, Debug, PartialEq, Eq, Structural)]
pub enum FrameError {
    /// The payload to send has this length.
    Local(usize),
    /// A received header announces this length.
    Peer(usize),
}

/// The number that `header` holds, most significant byte first.
pub open spec fn big_endian(header: Seq<u8>) -> int {
    header[0] * 0x100_0000 + header[1] * 0x1_0000 + header[2] * 0x100 + header[3]
}

/// The payload length that `header` announces, if it is within the limit.
pub open spec fn announced(header: Seq<u8>) -> Result<usize, FrameError> {
    if big_endian(header) <= MAX_FRAME_SIZE {
        Ok(big_endian(header) as usize)
    } else {
        Err(FrameError::Peer(big_endian(header) as usize))
    }
}

/// The text of a refused length.
pub open spec fn limit_text(subject: Seq<char>, len: usize) -> Seq<char> {
    subject + digits(len as nat) + " exceeds the 65536-byte limit"@
}

impl FrameError {
    /// The text of [`FrameError::describe`].
    pub open spec fn text(self) -> Seq<char> {
        match self {
            FrameError::Local(len) => limit_text("frame length "@, len),
            FrameError::Peer(len) => limit_text("peer frame length "@, len),
        }
    }

    /// Returns the class of I/O failure that this error belongs to.
    pub fn kind(&self) -> (kind: IoErrorKind)
        ensures
            kind == (match *self {
                FrameError::Local(_) => IoErrorKind::InvalidInput,
                FrameError::Peer(_) => IoErrorKind::InvalidData,
            }),
    {
        match self {
            FrameError::Local(_) => IoErrorKind::InvalidInput,
            FrameError::Peer(_) => IoErrorKind::InvalidData,
        }
    }

    /// Describes the refused length.
    pub fn describe(&self) -> (text: String)
        ensures
            text@ == self.text(),
    {
        let (subject, len) = match self {
            FrameError::Local(len) => ("frame length ", *len),
            FrameError::Peer(len) => ("peer frame length ", *len),
        };
        let mut text = String::from_str(subject);
        append_digits(&mut text, len as u64);
        text.append(" exceeds the 65536-byte limit");
        text
    }
}

/// Builds the header of a payload, unless the payload is too long.
pub fn encode_frame_len(payload_len: usize) -> (header: Result<[u8; 4], FrameError>)
    ensures
        payload_len <= MAX_FRAME_SIZE ==> header is Ok && big_endian(header->Ok_0@) == payload_len,
        payload_len > MAX_FRAME_SIZE ==> header == Err::<[u8; 4], _>(
            FrameError::Local(payload_len),
        ),
{
    if payload_len > MAX_FRAME_SIZE {
        return Err(FrameError::Local(payload_len));
    }
    let first: u8 = (payload_len / 0x100_0000) as u8;
    let second: u8 = ((payload_len / 0x1_0000) % 0x100) as u8;
    let third: u8 = ((payload_len / 0x100) % 0x100) as u8;
    let fourth: u8 = (payload_len % 0x100) as u8;
    Ok([first, second, third, fourth])
}

/// Reads the payload length from a header, unless it is too large.
pub fn decode_frame_len(header: [u8; 4]) -> (payload_len: Result<usize, FrameError>)
    ensures
        payload_len == announced(header@),
{
    let payload_len: usize = header[0] as usize * 0x100_0000 + header[1] as usize * 0x1_0000
        + header[2] as usize * 0x100 + header[3] as usize;
    if payload_len > MAX_FRAME_SIZE {
        return Err(FrameError::Peer(payload_len));
    }
    Ok(payload_len)
}

/// The upper-case form of an ASCII letter; other bytes stand for themselves.
pub open spec fn upper(byte: u8) -> u8 {
    if 97 <= byte <= 122 {
        (byte - 32) as u8
    } else {
        byte
    }
}

/// The bytes of `payload` in upper case.
pub open spec fn upper_bytes(payload: Seq<u8>) -> Seq<u8> {
    payload.map_values(|byte: u8| upper(byte))
}

/// Turns a request into its reply, in place.
pub fn make_reply(payload: &mut Vec<u8>)
    ensures
        final(payload)@ == upper_bytes(old(payload)@),
{
    let mut i: usize = 0;
    while i < payload.len()
        invariant
            payload.len() == old(payload).len(),
            i <= payload.len(),
            forall|j: int| 0 <= j < i ==> payload@[j] == upper(old(payload)@[j]),
            forall|j: int| i <= j < payload.len() ==> payload@[j] == old(payload)@[j],
        decreases payload.len() - i,
    {
        let byte: u8 = payload[i];
        if 97 <= byte && byte <= 122 {
            payload.set(i, byte - 32);
        }
        i += 1;
    }
    assert(payload@ =~= upper_bytes(old(payload)@));
}

/// Reports whether `response` is the reply to `request`.
pub fn is_reply(request: &[u8], response: &[u8]) -> (matched: bool)
    ensures
        matched == (response@ == upper_bytes(request@)),
{
    if request.len() != response.len() {
        return false;
    }
    let mut i: usize = 0;
    while i < request.len()
        invariant
            request.len() == response.len(),
            i <= request.len(),
            forall|j: int| 0 <= j < i ==> response@[j] == upper(request@[j]),
        decreases request.len() - i,
    {
        let byte: u8 = request[i];
        let wanted: u8 = if 97 <= byte && byte <= 122 {
            byte - 32
        } else {
            byte
        };
        if response[i] != wanted {
            assert(response@[i as int] != upper_bytes(request@)[i as int]);
            return false;
        }
        i += 1;
    }
    assert(response@ =~= upper_bytes(request@));
    true
}

/// A header read back gives the length it was built from.
///
/// An accepted length has exactly one header, which announces that length.
pub proof fn lemma_frame_length_round_trip(payload_len: usize, header: Seq<u8>)
    requires
        payload_len <= MAX_FRAME_SIZE,
        header.len() == FRAME_HEADER_LEN,
        big_endian(header) == payload_len,
    ensures
        announced(header) == Ok::<usize, FrameError>(payload_len),
        forall|other: Seq<u8>|
            other.len() == FRAME_HEADER_LEN && #[trigger] announced(other) == Ok::<
                usize,
                FrameError,
            >(payload_len) ==> other == header,
{
    assert forall|other: Seq<u8>|
        other.len() == FRAME_HEADER_LEN && #[trigger] announced(other) == Ok::<usize, FrameError>(
            payload_len,
        ) implies other == header by {
        assert(big_endian(other) == payload_len);
        assert(other[0] == header[0] && other[1] == header[1] && other[2] == header[2] && other[3]
            == header[3]);
        assert(other =~= header);
    }
}

} // verus!
