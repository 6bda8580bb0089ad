//! The request/response client: it frames a request under a fresh
//! correlation identifier and classifies what came back.
use vstd::prelude::*;
use vstd::utf8::{encode_utf8, valid_utf8};
use crate::codec::{
    encode_request, json_plain, lemma_text_round_trip, payload_text, request_frame, text_payload,
    DecodeError,
};
use crate::envelope::Response;
use crate::receive::{next_state, LoopEvent, LoopState};

verus! {

/// Is `c` a lower-case hexadecimal digit?
pub open spec fn is_lower_hex(c: char) -> bool {
    ('0' <= c && c <= '9') || ('a' <= c && c <= 'f')
}

/// `s` is a random (version 4, RFC 4122 variant) UUID in its hyphenated,
/// lower-case text form, such as `67e55044-10b1-426f-9247-bb680e5fe0c8`.
pub open spec fn is_v4_id(s: Seq<char>) -> bool {
    &&& s.len() == 36
    &&& forall|i: int|
        0 <= i < 36 ==> if i == 8 || i == 13 || i == 18 || i == 23 {
            s[i] == '-'
        } else {
            is_lower_hex(#[trigger] s[i])
        }
    &&& s[14] == '4'
    &&& (s[19] == '8' || s[19] == '9' || s[19] == 'a' || s[19] == 'b')
}

/// Relies on uuid::Uuid::new_v4 and its hyphenated text form: 128 random
/// bits with the version nibble set to 4 and the variant bits to RFC 4122,
/// written as lower-case hex in groups of 8-4-4-4-12. The bits themselves
/// are random: nothing more is known of them.
#[verifier::external_body]
fn mint_correlation_id() -> (r: String)
    ensures
        is_v4_id(r@),
{
    uuid::Uuid::new_v4().to_hyphenated().to_string()
}

/// Why a request/response exchange failed.
#[derive(Debug, Clone, Copy, PartialEq, Eq, Structural)]
pub enum RequestError {
    /// Sending the request or waiting for its reply failed.
    Transport,
    /// The reply payload is not UTF-8 text.
    InvalidText,
    /// The reply text is not a response of the expected shape.
    InvalidShape,
}

/// A request ready to go out: the subject to send it to, the correlation
/// identifier it carries and the payload bytes.
pub struct OutgoingCall {
    pub subject: String,
    pub id: String,
    pub payload: Vec<u8>,
}

/// How the transport-level exchange ended.
pub enum ReplyOutcome {
    /// A reply arrived with this payload.
    Delivered(Vec<u8>),
    /// The send failed or no reply came in time.
    TransportFailed,
}

/// The subject of an encoded pattern: the encoding itself.
pub open spec fn subject_for(pattern: Seq<char>) -> Seq<char> {
    pattern
}

/// The subject of a pattern: its encoding, verbatim.
pub fn subject_of(pattern: &str) -> (r: String)
    ensures
        r@ == subject_for(pattern@),
{
    pattern.to_owned()
}

/// Builds the request for the encoded `pattern` and `data` under a freshly
/// minted correlation identifier. It goes to the pattern's subject.
pub fn prepare_request(pattern: &str, data: &str) -> (r: OutgoingCall)
    ensures
        r.subject@ == subject_for(pattern@),
        is_v4_id(r.id@),
        r.payload@ == encode_utf8(
            request_frame(pattern@, seq!['"'] + r.id@ + seq!['"'], data@),
        ),
{
    let id = mint_correlation_id();
    assert(json_plain(id@)) by {
        assert forall|i: int| 0 <= i < id@.len() implies id@[i] != '"' && id@[i] != '\\' && (
        id@[i] as u32) >= 0x20 by {
            assert(i == 8 || i == 13 || i == 18 || i == 23 || is_lower_hex(id@[i]));
        }
    }
    let text = encode_request(pattern, id.as_str(), data);
    let payload = text_payload(text.as_str());
    OutgoingCall { subject: subject_of(pattern), id, payload }
}

/// The text of the reply, or why there is none.
pub fn reply_text(reply: ReplyOutcome) -> (r: Result<String, RequestError>)
    ensures
        match reply {
            ReplyOutcome::TransportFailed => r == Err::<String, RequestError>(
                RequestError::Transport,
            ),
            ReplyOutcome::Delivered(p) => {
                &&& r is Ok <==> valid_utf8(p@)
                &&& r matches Ok(s) ==> encode_utf8(s@) == p@
                &&& !valid_utf8(p@) ==> r == Err::<String, RequestError>(
                    RequestError::InvalidText,
                )
            },
        },
{
    match reply {
        ReplyOutcome::TransportFailed => Err(RequestError::Transport),
        ReplyOutcome::Delivered(p) => match payload_text(p.as_slice()) {
            Ok(s) => Ok(s),
            Err(_) => Err(RequestError::InvalidText),
        },
    }
}

/// The outcome of the exchange once the reply text has been decoded: the
/// response as it came, or the decode failure as a request error.
pub fn finish_request<Pattern, Data>(decoded: Result<Response<Pattern, Data>, DecodeError>) -> (r:
    Result<Response<Pattern, Data>, RequestError>)
    ensures
        match decoded {
            Ok(resp) => r == Ok::<Response<Pattern, Data>, RequestError>(resp),
            Err(DecodeError::InvalidText) => r == Err::<Response<Pattern, Data>, RequestError>(
                RequestError::InvalidText,
            ),
            Err(DecodeError::InvalidShape) => r == Err::<Response<Pattern, Data>, RequestError>(
                RequestError::InvalidShape,
            ),
        },
{
    match decoded {
        Ok(resp) => Ok(resp),
        Err(DecodeError::InvalidText) => Err(RequestError::InvalidText),
        Err(DecodeError::InvalidShape) => Err(RequestError::InvalidShape),
    }
}

/// Equal pattern encodings give equal subjects, and distinct encodings give
/// distinct subjects.
pub proof fn lemma_subject_determinism(p1: Seq<char>, p2: Seq<char>)
    ensures
        (subject_for(p1) == subject_for(p2)) <==> (p1 == p2),
{
}

/// A prepared request, delivered to a waiting listener, is taken up for
/// decoding, and the text handed to the decoder is the frame that was sent.
pub proof fn lemma_request_reaches_decoder<T>(frame: Seq<char>, payload: Vec<u8>, text: Seq<char>)
    requires
        payload@ == encode_utf8(frame),
        encode_utf8(text) == payload@,
    ensures
        next_state(LoopState::Waiting, LoopEvent::<T>::Delivered(payload)) == LoopState::Decoding,
        text == frame,
{
    lemma_text_round_trip(frame, text);
}

} // verus!
