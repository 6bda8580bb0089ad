//! Text layer of the wire codec: payload bytes to text and back, and the
//! framing of the request and response envelopes.
use vstd::prelude::*;
use vstd::string::StringExecFns;
use vstd::utf8::{encode_utf8, valid_utf8};

verus! {

/// Why an inbound payload could not be turned into a record.
#[derive(Debug, Clone, Copy, PartialEq, Eq, Structural)]
pub enum DecodeError {
    /// The payload bytes are not UTF-8 text.
    InvalidText,
    /// The text is not a structured encoding of the expected shape.
    InvalidShape,
}

/// The JSON string literal that encodes `s` (quoted and escaped).
pub uninterp spec fn json_string_of(s: Seq<char>) -> Seq<char>;

/// No character of `s` is escaped inside a JSON string literal.
pub open spec fn json_plain(s: Seq<char>) -> bool {
    forall|i: int|
        0 <= i < s.len() ==> s[i] != '"' && s[i] != '\\' && (s[i] as u32) >= 0x20
}

/// Relies on serde_json::to_string for a `str`: it writes the JSON string
/// literal of the text, escaping only `"`, `\` and the control characters
/// below 0x20. Writing into a `Vec` cannot fail, so the result is always `Ok`.
#[verifier::external_body]
fn json_quote(s: &str) -> (r: String)
    ensures
        r@ == json_string_of(s@),
        json_plain(s@) ==> r@ == seq!['"'] + s@ + seq!['"'],
{
    serde_json::to_string(s).unwrap()
}

/// Relies on std::str::from_utf8: `Ok` exactly for valid UTF-8, and then the
/// text is made of those very bytes.
#[verifier::external_body]
fn utf8_text(bytes: &[u8]) -> (r: Option<String>)
    ensures
        r is Some <==> valid_utf8(bytes@),
        r matches Some(s) ==> encode_utf8(s@) == bytes@,
{
    match std::str::from_utf8(bytes) {
        Ok(s) => Some(s.to_string()),
        Err(_) => None,
    }
}

/// Interprets a payload as UTF-8 text.
pub fn payload_text(payload: &[u8]) -> (r: Result<String, DecodeError>)
    ensures
        r is Ok <==> valid_utf8(payload@),
        r matches Ok(s) ==> encode_utf8(s@) == payload@,
        r matches Err(e) ==> e == DecodeError::InvalidText,
{
    match utf8_text(payload) {
        Some(s) => Ok(s),
        None => Err(DecodeError::InvalidText),
    }
}

/// The payload bytes that carry `text`.
pub fn text_payload(text: &str) -> (r: Vec<u8>)
    ensures
        r@ == encode_utf8(text@),
{
    let bytes = text.as_bytes();
    let mut out: Vec<u8> = Vec::new();
    let mut i: usize = 0;
    while i < bytes.len()
        invariant
            bytes@ == encode_utf8(text@),
            i <= bytes@.len(),
            out@ == bytes@.subrange(0, i as int),
        decreases bytes@.len() - i,
    {
        out.push(bytes[i]);
        i = i + 1;
    }
    assert(out@ == bytes@);
    out
}

/// Text carried as a payload reads back as the same text.
pub proof fn lemma_text_round_trip(text: Seq<char>, read: Seq<char>)
    requires
        encode_utf8(read) == encode_utf8(text),
    ensures
        valid_utf8(encode_utf8(text)),
        read == text,
{
    vstd::utf8::encode_utf8_valid_utf8(text);
    vstd::utf8::encode_utf8_decode_utf8(text);
    vstd::utf8::encode_utf8_decode_utf8(read);
}

/// The request envelope `{"pattern":P,"id":I,"data":D}` over the encoded
/// pattern, the encoded identifier and the encoded data.
pub open spec fn request_frame(pattern: Seq<char>, id: Seq<char>, data: Seq<char>) -> Seq<char> {
    "{\"pattern\":"@ + pattern + ",\"id\":"@ + id + ",\"data\":"@ + data + "}"@
}

/// The encoding of a flag.
pub open spec fn flag_text(b: bool) -> Seq<char> {
    if b {
        "true"@
    } else {
        "false"@
    }
}

/// The response envelope `{"pattern":P,"id":I,"data":D,"disposed":B}`.
pub open spec fn response_frame(
    pattern: Seq<char>,
    id: Seq<char>,
    data: Seq<char>,
    disposed: bool,
) -> Seq<char> {
    "{\"pattern\":"@ + pattern + ",\"id\":"@ + id + ",\"data\":"@ + data + ",\"disposed\":"@
        + flag_text(disposed) + "}"@
}

/// Frames a request: `pattern` and `data` are already encoded, `id` is the
/// correlation identifier as plain text.
pub fn encode_request(pattern: &str, id: &str, data: &str) -> (r: String)
    ensures
        r@ == request_frame(pattern@, json_string_of(id@), data@),
        json_plain(id@) ==> r@ == request_frame(pattern@, seq!['"'] + id@ + seq!['"'], data@),
{
    let quoted = json_quote(id);
    let mut out = String::from_str("{\"pattern\":");
    out.append(pattern);
    out.append(",\"id\":");
    out.append(quoted.as_str());
    out.append(",\"data\":");
    out.append(data);
    out.append("}");
    out
}

/// Frames a response, in the same way as a request, with the `disposed` flag.
pub fn encode_response(pattern: &str, id: &str, data: &str, disposed: bool) -> (r: String)
    ensures
        r@ == response_frame(pattern@, json_string_of(id@), data@, disposed),
        json_plain(id@) ==> r@ == response_frame(
            pattern@,
            seq!['"'] + id@ + seq!['"'],
            data@,
            disposed,
        ),
{
    let quoted = json_quote(id);
    let mut out = String::from_str("{\"pattern\":");
    out.append(pattern);
    out.append(",\"id\":");
    out.append(quoted.as_str());
    out.append(",\"data\":");
    out.append(data);
    out.append(",\"disposed\":");
    if disposed {
        out.append("true");
    } else {
        out.append("false");
    }
    out.append("}");
    out
}

} // verus!
