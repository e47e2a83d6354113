use crate::error::Error;
use crate::words::replace_dots_spec;
use vstd::prelude::*;
use vstd::utf8::{decode_utf8, valid_utf8};

verus! {

/// What one HTTP GET attempt came back with, as plain values.
pub enum FetchOutcome {
    /// The URL was rejected before any connection was made.
    BadUrl,
    /// The transfer itself failed: DNS, connection refused, timeout.
    TransportFailure,
    /// The transfer ran but the status code could not be read.
    NoStatus,
    /// A response arrived: its status code and its raw body bytes.
    Response { status: u32, body: Vec<u8> },
}

/// The text of the `words` member of `text` parsed as a JSON document —
/// the member itself for a string value, `null` when the member is absent —
/// or nothing when `text` is not well-formed JSON. A function of the text
/// alone; no short statement of JSON's grammar pins it further.
pub uninterp spec fn json_words_of(text: Seq<char>) -> Option<Seq<char>>;

/// Relies on json::parse, which fails exactly on text that is not well-formed
/// JSON, on indexing a JsonValue by "words", which yields that member or null,
/// and on JsonValue's Display, which prints a string value verbatim. All three
/// are functions of the text alone.
#[verifier::external_body]
fn extract_words(text: &str) -> (r: Option<String>)
    ensures
        r is Some <==> json_words_of(text@) is Some,
        r is Some ==> r->0@ == json_words_of(text@)->0,
{
    match json::parse(text) {
        Ok(doc) => Some(doc["words"].to_string()),
        Err(_) => None,
    }
}

/// Relies on String::from_utf8: succeeds exactly on valid UTF-8, and then
/// returns the characters those bytes encode.
#[verifier::external_body]
pub(crate) fn bytes_to_string(body: Vec<u8>) -> (r: Option<String>)
    ensures
        r is Some <==> valid_utf8(body@),
        r is Some ==> r->0@ == decode_utf8(body@),
{
    String::from_utf8(body).ok()
}

/// What the HTTP layer's outcome means: a typed error for a failed transfer,
/// a bad URL, an unreadable status or a 401, the decoded body text otherwise;
/// a body that is not valid UTF-8 is a parse failure, not a crash.
pub open spec fn transport_result_spec(o: FetchOutcome) -> Result<Seq<char>, Error> {
    match o {
        FetchOutcome::BadUrl => Err(Error::BadUrl),
        FetchOutcome::TransportFailure => Err(Error::NoInternet),
        FetchOutcome::NoStatus => Err(Error::BadResponseCode),
        FetchOutcome::Response { status, body } => if status == 401 {
            Err(Error::InvalidApiKey)
        } else if valid_utf8(body@) {
            Ok(decode_utf8(body@))
        } else {
            Err(Error::ParseFailure)
        },
    }
}

/// Turns one HTTP outcome into the response body text or a typed error, as
/// `transport_result_spec` says: a 401 is an invalid API key before anything
/// looks at the body.
pub fn interpret_transport(o: FetchOutcome) -> (r: Result<String, Error>)
    ensures
        r is Ok <==> transport_result_spec(o) is Ok,
        r is Ok ==> r->Ok_0@ == transport_result_spec(o)->Ok_0,
        r is Err ==> r->Err_0 == transport_result_spec(o)->Err_0,
{
    match o {
        FetchOutcome::BadUrl => Err(Error::BadUrl),
        FetchOutcome::TransportFailure => Err(Error::NoInternet),
        FetchOutcome::NoStatus => Err(Error::BadResponseCode),
        FetchOutcome::Response { status, body } => {
            if status == 401 {
                Err(Error::InvalidApiKey)
            } else {
                match bytes_to_string(body) {
                    Some(text) => Ok(text),
                    None => Err(Error::ParseFailure),
                }
            }
        },
    }
}

/// What the body text means: the three-word member with dots turned to
/// spaces, or a parse failure when the text is not well-formed JSON.
pub open spec fn body_result_spec(text: Seq<char>) -> Result<Seq<char>, Error> {
    match json_words_of(text) {
        Some(words) => Ok(replace_dots_spec(words)),
        None => Err(Error::ParseFailure),
    }
}

/// Parses the body text as JSON and returns the display form of its `words`
/// member, or a parse failure when the text is not well-formed JSON.
pub fn interpret_body(text: &str) -> (r: Result<String, Error>)
    ensures
        r is Ok <==> body_result_spec(text@) is Ok,
        r is Ok ==> r->Ok_0@ == body_result_spec(text@)->Ok_0,
        r is Err ==> r->Err_0 == body_result_spec(text@)->Err_0,
{
    match extract_words(text) {
        Some(words) => Ok(crate::words::replace_dots(words.as_str())),
        None => Err(Error::ParseFailure),
    }
}

} // verus!
