//! Frames, replies and numbers in texts.
use vstd::prelude::*;
use crate::error::{NativeError, StatusCodes};
use crate::framing::{decode_frame_len, encode_frame_len, is_reply, make_reply, FrameError};
use crate::io::{IoError, IoErrorKind};
use crate::text::{decimal, digits};

verus! {

/// A header that was made for a payload announces its length, and no other header
/// does; the header of a payload that is too long is never made.
pub proof fn lemma_header_announces_the_payload(
    payload_len: usize,
    header: Result<[u8; 4], FrameError>,
    announced: Result<usize, FrameError>,
    other: [u8; 4],
    elsewhere: Result<usize, FrameError>,
)
    requires
        call_ensures(encode_frame_len, (payload_len,), header),
        header is Ok ==> call_ensures(decode_frame_len, (header->Ok_0,), announced),
        call_ensures(decode_frame_len, (other,), elsewhere),
    ensures
        header is Ok <==> payload_len <= 65536,
        header is Ok ==> announced == Ok::<usize, FrameError>(payload_len),
        header is Ok && elsewhere == announced ==> other@ == header->Ok_0@,
        header matches Err(error) ==> error == FrameError::Local(payload_len),
{
    if header is Ok && elsewhere == announced {
        crate::framing::lemma_frame_length_round_trip(payload_len, header->Ok_0@);
    }
}

/// A header holds the length with its most significant byte first, and a length
/// beyond the limit is the peer's fault.
pub proof fn lemma_header_is_read_in_network_order(
    header: [u8; 4],
    announced: Result<usize, FrameError>,
)
    requires
        call_ensures(decode_frame_len, (header,), announced),
    ensures
        ({
            let len = ((header@[0] * 256 + header@[1]) * 256 + header@[2]) * 256 + header@[3];
            &&& announced is Ok <==> len <= 65536
            &&& announced matches Ok(found) ==> found == len
            &&& announced matches Err(error) ==> error is Peer && error->Peer_0 == len
        }),
{
}

/// A frame that is too long is invalid input where it is sent and invalid data where
/// it is received, and its text gives the length.
pub proof fn lemma_long_frames_are_told_apart(
    error: FrameError,
    kind: IoErrorKind,
    text: String,
)
    requires
        call_ensures(FrameError::kind, (&error,), kind),
        call_ensures(FrameError::describe, (&error,), text),
    ensures
        error is Local <==> kind == IoErrorKind::InvalidInput,
        error is Peer <==> kind == IoErrorKind::InvalidData,
        error matches FrameError::Local(len) ==> text@ == "frame length "@ + digits(len as nat)
            + " exceeds the 65536-byte limit"@,
        error matches FrameError::Peer(len) ==> text@ == "peer frame length "@ + digits(len as nat)
            + " exceeds the 65536-byte limit"@,
{
}

/// A reply is the request with its lower-case letters made upper-case: nothing else
/// changes, and a reply answers itself.
pub proof fn lemma_reply_is_the_request_in_upper_case(
    payload: &mut Vec<u8>,
    again: &mut Vec<u8>,
    at: int,
)
    requires
        call_ensures(make_reply, (payload,), ()),
        old(again)@ == final(payload)@,
        call_ensures(make_reply, (again,), ()),
    ensures
        final(payload)@.len() == old(payload)@.len(),
        0 <= at < old(payload)@.len() ==> ({
            let byte = old(payload)@[at];
            let answer = final(payload)@[at];
            &&& 97 <= byte <= 122 ==> answer == byte - 32
            &&& !(97 <= byte <= 122) ==> answer == byte
        }),
        final(again)@ == final(payload)@,
{
}

/// Exactly the reply to a request is accepted for it.
pub proof fn lemma_reply_is_recognised(
    payload: &mut Vec<u8>,
    request: &[u8],
    response: &[u8],
    matched: bool,
)
    requires
        request@ == old(payload)@,
        call_ensures(make_reply, (payload,), ()),
        call_ensures(is_reply, (request, response), matched),
    ensures
        matched <==> response@ == final(payload)@,
{
}

/// The number that decimal digits stand for.
pub open spec fn number(text: Seq<char>) -> int
    decreases text.len(),
{
    if text.len() == 0 {
        0
    } else {
        number(text.drop_last()) * 10 + (text.last() as int - 48)
    }
}

/// The digits of a number stand for that number; they are decimal, and the first is
/// zero for zero alone.
pub proof fn lemma_digits_stand_for_the_number(n: nat)
    ensures
        digits(n).len() > 0,
        number(digits(n)) == n,
        forall|i: int| 0 <= i < digits(n).len() ==> '0' <= #[trigger] digits(n)[i] <= '9',
        digits(n)[0] == '0' ==> digits(n).len() == 1,
    decreases n,
{
    if n < 10 {
        reveal_with_fuel(number, 2);
        assert(digits(n).drop_last() =~= Seq::empty());
    } else {
        lemma_digits_stand_for_the_number(n / 10);
        assert(digits(n).drop_last() =~= digits(n / 10));
        if digits(n)[0] == '0' {
            assert(digits(n / 10).len() == 1);
            reveal_with_fuel(number, 2);
            assert(digits(n / 10).drop_last() =~= Seq::empty());
        }
    }
}

/// A negative number is a minus sign and the digits of its magnitude.
pub proof fn lemma_numbers_in_texts(
    error: NativeError,
    codes: StatusCodes,
    code: i32,
    summary: &'static str,
    text: String,
    io_text: String,
)
    requires
        call_ensures(NativeError::code, (error, &codes), code),
        call_ensures(NativeError::summary, (&error,), summary),
        call_ensures(NativeError::describe, (&error, &codes), text),
        call_ensures(IoError::describe, (&IoError::Os(code),), io_text),
    ensures
        text@ == summary@ + " (code "@ + decimal(code as int) + ")"@,
        io_text@ == "os error "@ + decimal(code as int),
        code >= 0 ==> decimal(code as int) == digits(code as nat),
        code < 0 ==> decimal(code as int) == seq!['-'] + digits((0 - code) as nat),
{
}

} // verus!
