//! The answers of the recognition service: what a status and a body mean,
//! and how the JSON document of an answer is looked into.

use vstd::prelude::*;
use crate::messages::option_text;

verus! {

/// The status by which the service says that it takes no more requests
/// from this address for now.
pub const RATE_LIMITED_STATUS: u32 = 429;

/// `serde_json`'s error, carried from the parser to the place where it is
/// turned into an error of this library.
#[verifier::external_type_specification]
#[verifier::external_body]
pub struct ExJsonError(serde_json::Error);

/// `serde_json`'s value: a JSON document held in memory. What it holds is
/// spoken of through [`json_text`], [`json_string_at`] and
/// [`json_array_len_at`].
#[verifier::external_type_specification]
#[verifier::external_body]
pub struct ExJsonValue(serde_json::Value);

/// Why a recognition gave no track.
#[derive(Clone, Debug)]
pub enum RecognitionError {
    /// The service takes no more requests from this address for now.
    RateLimited,
    /// The service could not be reached, or did not answer in time.
    Unreachable,
    /// The answer is no JSON document; the text says what is wrong with it.
    MalformedResponse(String),
    /// The service answered, and knows no track for the fingerprint.
    NoMatch,
    /// The request could not be made; the text says why.
    RequestFailed(String),
}

/// Mathematical value of a [`RecognitionError`].
pub enum RecognitionErrorView {
    RateLimited,
    Unreachable,
    MalformedResponse(Seq<char>),
    NoMatch,
    RequestFailed(Seq<char>),
}

impl View for RecognitionError {
    type V = RecognitionErrorView;

    open spec fn view(&self) -> RecognitionErrorView {
        match self {
            RecognitionError::RateLimited => RecognitionErrorView::RateLimited,
            RecognitionError::Unreachable => RecognitionErrorView::Unreachable,
            RecognitionError::MalformedResponse(text) => RecognitionErrorView::MalformedResponse(
                text@,
            ),
            RecognitionError::NoMatch => RecognitionErrorView::NoMatch,
            RecognitionError::RequestFailed(text) => RecognitionErrorView::RequestFailed(text@),
        }
    }
}

/// The compact JSON text of the document that `bytes` hold, or `None` where
/// they hold no JSON document.
pub uninterp spec fn json_document(bytes: Seq<u8>) -> Option<Seq<char>>;

/// The compact JSON text of the document `value`.
pub uninterp spec fn json_text(value: serde_json::Value) -> Seq<char>;

/// The string that stands, in the document with the compact text
/// `document`, at the place that the JSON pointer `pointer` names; `None`
/// where nothing stands there, or something that is no string.
pub uninterp spec fn json_string_at(document: Seq<char>, pointer: Seq<char>) -> Option<Seq<char>>;

/// The length of the array that stands, in the document with the compact
/// text `document`, at the place that the JSON pointer `pointer` names;
/// `None` where nothing stands there, or something that is no array.
pub uninterp spec fn json_array_len_at(document: Seq<char>, pointer: Seq<char>) -> Option<nat>;

/// `serde_json::from_slice` into a `serde_json::Value`. Believed of it:
/// whether the bytes parse depends on the bytes alone, and so does the
/// compact text of the value that comes back; the two are named
/// [`json_document`].
#[verifier::external_body]
pub(crate) fn parse_document(body: &[u8]) -> (parsed: Result<serde_json::Value, serde_json::Error>)
    ensures
        parsed is Ok <==> json_document(body@) is Some,
        parsed matches Ok(value) ==> json_document(body@) == Some(json_text(value)),
{
    serde_json::from_slice::<serde_json::Value>(body)
}

/// `to_string` on a `serde_json::Value`, which writes the document as
/// compact JSON. Believed of it: the text depends on the value alone; it is
/// named [`json_text`].
#[verifier::external_body]
pub(crate) fn render_document(value: &serde_json::Value) -> (text: String)
    ensures
        text@ == json_text(*value),
{
    value.to_string()
}

/// What `serde_json` says of its error (`to_string` on the error). Nothing
/// is believed of the text.
#[verifier::external_body]
pub(crate) fn error_text(error: &serde_json::Error) -> (text: String) {
    error.to_string()
}

/// `serde_json`'s `Value::pointer`, with `Value::as_str` on what it finds.
/// Believed of it: the string found depends on the document and the
/// pointer alone; it is named [`json_string_at`].
#[verifier::external_body]
pub(crate) fn string_at(value: &serde_json::Value, pointer: &str) -> (found: Option<String>)
    ensures
        option_text(found) == json_string_at(json_text(*value), pointer@),
{
    match value.pointer(pointer) {
        Some(target) => target.as_str().map(str::to_owned),
        None => None,
    }
}

/// `serde_json`'s `Value::pointer`, with `Value::as_array` on what it finds
/// and the length of that array. Believed of it: the length depends on the
/// document and the pointer alone; it is named [`json_array_len_at`].
#[verifier::external_body]
pub(crate) fn array_len_at(value: &serde_json::Value, pointer: &str) -> (found: Option<usize>)
    ensures
        match found {
            Some(length) => json_array_len_at(json_text(*value), pointer@) == Some(length as nat),
            None => json_array_len_at(json_text(*value), pointer@) is None,
        },
{
    match value.pointer(pointer) {
        Some(target) => target.as_array().map(Vec::len),
        None => None,
    }
}

/// The value of what was read from an answer.
pub open spec fn answer_view(answer: Result<String, RecognitionError>) -> Result<
    Seq<char>,
    RecognitionErrorView,
> {
    match answer {
        Ok(payload) => Ok(payload@),
        Err(error) => Err(error@),
    }
}

/// The value of the document that was read from an answer.
pub open spec fn document_view(answer: Result<serde_json::Value, RecognitionError>) -> Result<
    Seq<char>,
    RecognitionErrorView,
> {
    match answer {
        Ok(document) => Ok(json_text(document)),
        Err(error) => Err(error@),
    }
}

/// `answer` is what an answer of the service with the status `status` and
/// the body `body` means: with the rate-limit status, the rate-limit error
/// and nothing else; with any other status, the JSON document that the body
/// holds, or the error that it holds none.
pub open spec fn is_answer_to(
    answer: Result<Seq<char>, RecognitionErrorView>,
    status: u32,
    body: Seq<u8>,
) -> bool {
    if status == RATE_LIMITED_STATUS {
        answer == Err::<Seq<char>, RecognitionErrorView>(RecognitionErrorView::RateLimited)
    } else {
        match json_document(body) {
            Some(document) => answer == Ok::<Seq<char>, RecognitionErrorView>(document),
            None => answer matches Err(RecognitionErrorView::MalformedResponse(_)),
        }
    }
}

/// What becomes of a parsed answer: the document as it is, or the error
/// that the answer is malformed.
pub fn document_outcome(parsed: Result<serde_json::Value, serde_json::Error>) -> (outcome: Result<
    serde_json::Value,
    RecognitionError,
>)
    ensures
        parsed matches Ok(value) ==> outcome == Ok::<serde_json::Value, RecognitionError>(value),
        parsed is Err ==> outcome matches Err(RecognitionError::MalformedResponse(_)),
{
    match parsed {
        Ok(value) => Ok(value),
        Err(error) => Err(RecognitionError::MalformedResponse(error_text(&error))),
    }
}

/// Reads the service's answer to a recognition request into a document.
///
/// An answer with the status [`RATE_LIMITED_STATUS`] is the rate-limit
/// error, whatever its body holds: the body is not looked at. The body of
/// any other answer must be a JSON document.
pub fn read_answer(status: u32, body: &[u8]) -> (outcome: Result<
    serde_json::Value,
    RecognitionError,
>)
    ensures
        is_answer_to(document_view(outcome), status, body@),
{
    if status == RATE_LIMITED_STATUS {
        Err(RecognitionError::RateLimited)
    } else {
        document_outcome(parse_document(body))
    }
}

/// Reads the service's answer to a recognition request, and hands the
/// document back as compact JSON text. The answer is read as
/// [`read_answer`] reads it.
pub fn interpret_response(status: u32, body: &[u8]) -> (outcome: Result<String, RecognitionError>)
    ensures
        is_answer_to(answer_view(outcome), status, body@),
{
    match read_answer(status, body) {
        Ok(document) => Ok(render_document(&document)),
        Err(error) => Err(error),
    }
}

/// What came back for a request.
#[derive(Clone, Debug)]
pub struct HttpAnswer {
    pub status: u32,
    pub body: Vec<u8>,
}

/// `outcome` is what an exchange with the service comes to: without an
/// answer, the error that the service is unreachable; with one, what the
/// answer means.
pub open spec fn is_outcome_of_exchange(
    outcome: Result<Seq<char>, RecognitionErrorView>,
    exchange: Option<HttpAnswer>,
) -> bool {
    match exchange {
        Some(answer) => is_answer_to(outcome, answer.status, answer.body@),
        None => outcome == Err::<Seq<char>, RecognitionErrorView>(
            RecognitionErrorView::Unreachable,
        ),
    }
}

/// Reads what a recognition request came to: `exchange` is the service's
/// answer, or `None` where the request failed on the way or got no answer
/// in time.
pub fn interpret_exchange(exchange: Option<HttpAnswer>) -> (outcome: Result<
    String,
    RecognitionError,
>)
    ensures
        is_outcome_of_exchange(answer_view(outcome), exchange),
{
    match exchange {
        Some(answer) => interpret_response(answer.status, answer.body.as_slice()),
        None => Err(RecognitionError::Unreachable),
    }
}

/// The cover image that a request for it brought: the body of the answer,
/// and nothing where there was no answer. A cover that cannot be had is no
/// error.
pub fn cover_image(exchange: Option<HttpAnswer>) -> (image: Option<Vec<u8>>)
    ensures
        image == match exchange {
            Some(answer) => Some(answer.body),
            None => None,
        },
{
    match exchange {
        Some(answer) => Some(answer.body),
        None => None,
    }
}

} // verus!
