//! The requests to the recognition service.

use vstd::prelude::*;
use rand::seq::SliceRandom;
use crate::text::{
    append_decimal, decimal_text, is_hex_and_hyphens, is_lower_hex, upper_hex, upper_hex_char,
};

verus! {

/// Where a recognition request is sent, up to the two request identifiers.
pub const SERVICE_ENDPOINT: &'static str =
    "https://amp.shazam.com/discovery/v5/en/US/android/-/tag/";

/// The query that ends the address of a recognition request.
pub const SERVICE_QUERY: &'static str =
    "?sync=true&webv3=true&sampling=true&shazamapiversion=v3&sharehub=true&video=v3";

/// The language named in every request.
pub const CONTENT_LANGUAGE: &'static str = "en_US";

/// The media type of a recognition request's body.
pub const JSON_CONTENT_TYPE: &'static str = "application/json";

/// The time zone named in every recognition request.
pub const REQUEST_TIMEZONE: &'static str = "Europe/Paris";

/// The altitude named in every recognition request.
pub const REQUEST_ALTITUDE: u64 = 300;

/// The latitude named in every recognition request.
pub const REQUEST_LATITUDE: u64 = 45;

/// The longitude named in every recognition request.
pub const REQUEST_LONGITUDE: u64 = 2;

/// Seconds after which a request that got no answer is given up.
pub const REQUEST_TIMEOUT_SECS: u32 = 20;

/// How a request is made.
#[derive(Clone, Copy, Debug, PartialEq, Eq, Structural)]
pub enum HttpMethod {
    Get,
    Post,
}

/// A request, ready to be sent.
#[derive(Clone, Debug)]
pub struct HttpRequest {
    pub method: HttpMethod,
    pub url: String,
    pub user_agent: String,
    pub content_language: String,
    pub content_type: Option<String>,
    pub body: Option<String>,
    pub timeout_secs: u32,
}

/// Mathematical value of an [`HttpRequest`].
pub struct HttpRequestView {
    pub method: HttpMethod,
    pub url: Seq<char>,
    pub user_agent: Seq<char>,
    pub content_language: Seq<char>,
    pub content_type: Option<Seq<char>>,
    pub body: Option<Seq<char>>,
    pub timeout_secs: u32,
}

impl View for HttpRequest {
    type V = HttpRequestView;

    open spec fn view(&self) -> HttpRequestView {
        HttpRequestView {
            method: self.method,
            url: self.url@,
            user_agent: self.user_agent@,
            content_language: self.content_language@,
            content_type: match self.content_type {
                Some(media) => Some(media@),
                None => None,
            },
            body: match self.body {
                Some(text) => Some(text@),
                None => None,
            },
            timeout_secs: self.timeout_secs,
        }
    }
}

/// The part of a timestamp in milliseconds that goes on the wire: its low
/// 32 bits.
pub open spec fn wire_timestamp_of(timestamp_ms: u128) -> u32 {
    (timestamp_ms % 0x1_0000_0000) as u32
}

/// The part of a timestamp in milliseconds that goes on the wire.
pub fn wire_timestamp(timestamp_ms: u128) -> (low: u32)
    ensures
        low == wire_timestamp_of(timestamp_ms),
{
    let low: u128 = timestamp_ms % 0x1_0000_0000;
    low as u32
}

/// Position `i` of a hyphenated identifier holds a hyphen.
pub open spec fn is_hyphen_position(i: int) -> bool {
    i == 8 || i == 13 || i == 18 || i == 23
}

/// `text` is a request identifier in lower case: 36 characters, hyphens
/// after the 8th, 12th, 16th and 20th digit, and lower-case hexadecimal
/// digits everywhere else.
pub open spec fn is_hyphenated_uuid(text: Seq<char>) -> bool {
    &&& text.len() == 36
    &&& forall|i: int|
        0 <= i < 36 ==> if is_hyphen_position(i) {
            #[trigger] text[i] == '-'
        } else {
            is_lower_hex(text[i])
        }
}

/// `text` is a random request identifier in lower case: a hyphenated
/// identifier whose 13th digit is the version, 4, and whose 17th digit is
/// one of `8`, `9`, `a` and `b`, as the variant asks.
pub open spec fn is_random_uuid(text: Seq<char>) -> bool {
    &&& is_hyphenated_uuid(text)
    &&& text[14] == '4'
    &&& (text[19] == '8' || text[19] == '9' || text[19] == 'a' || text[19] == 'b')
}

/// The address of a recognition request with the two identifiers `first`
/// and `second`.
pub open spec fn recognition_url_text(first: Seq<char>, second: Seq<char>) -> Seq<char> {
    SERVICE_ENDPOINT@ + first + seq!['/'] + second + SERVICE_QUERY@
}

/// The lower-case hexadecimal digit of `nibble`.
pub open spec fn lower_hex_digit(nibble: int) -> char {
    seq!['0', '1', '2', '3', '4', '5', '6', '7', '8', '9', 'a', 'b', 'c', 'd', 'e', 'f'][nibble]
}

/// What stands for `c` inside a JSON string. The double quote and the
/// backslash get a backslash before them; backspace, form feed, line feed,
/// carriage return and tab are written as `\b`, `\f`, `\n`, `\r` and
/// `\t`; any other control character below the space is written as `\u00`
/// and its two hexadecimal digits; every other character stands for itself.
pub open spec fn json_escape(c: char) -> Seq<char> {
    if c == '"' {
        seq!['\\', '"']
    } else if c == '\\' {
        seq!['\\', '\\']
    } else if c == '\u{8}' {
        seq!['\\', 'b']
    } else if c == '\u{c}' {
        seq!['\\', 'f']
    } else if c == '\n' {
        seq!['\\', 'n']
    } else if c == '\r' {
        seq!['\\', 'r']
    } else if c == '\t' {
        seq!['\\', 't']
    } else if (c as u32) < 0x20 {
        seq![
            '\\',
            'u',
            '0',
            '0',
            lower_hex_digit((c as u32) as int / 16),
            lower_hex_digit((c as u32) as int % 16),
        ]
    } else {
        seq![c]
    }
}

/// The characters of `text`, each as it stands inside a JSON string.
pub open spec fn json_escaped(text: Seq<char>) -> Seq<char>
    decreases text.len(),
{
    if text.len() == 0 {
        Seq::empty()
    } else {
        json_escaped(text.drop_last()) + json_escape(text.last())
    }
}

/// The text of `text` as a JSON string: its characters, each as it stands
/// inside a JSON string, in double quotes.
pub open spec fn json_string_literal(text: Seq<char>) -> Seq<char> {
    seq!['"'] + json_escaped(text) + seq!['"']
}

/// `c` stands for itself inside a JSON string.
pub open spec fn is_plain_in_json(c: char) -> bool {
    c != '"' && c != '\\' && (c as u32) >= 0x20
}

/// A text whose characters all stand for themselves is written as it is:
/// its JSON string is the text in double quotes.
pub proof fn lemma_plain_text_is_quoted_as_it_is(text: Seq<char>)
    requires
        forall|i: int| 0 <= i < text.len() ==> is_plain_in_json(#[trigger] text[i]),
    ensures
        json_escaped(text) == text,
        json_string_literal(text) == seq!['"'] + text + seq!['"'],
    decreases text.len(),
{
    if text.len() > 0 {
        lemma_plain_text_is_quoted_as_it_is(text.drop_last());
        assert(is_plain_in_json(text[text.len() - 1]));
        assert(json_escape(text.last()) == seq![text.last()]);
        assert(text.drop_last() + seq![text.last()] =~= text);
    }
}

/// The body of a recognition request: a JSON object that holds the
/// placeholder position, the fingerprint `uri` with the length of its audio
/// in milliseconds and the time it was made, the time of the request, and
/// the time zone.
pub open spec fn request_body_text(sample_ms: u32, timestamp: u32, uri: Seq<char>) -> Seq<char> {
    "{\"geolocation\":{\"altitude\":"@ + decimal_text(REQUEST_ALTITUDE as nat)
        + ",\"latitude\":"@ + decimal_text(REQUEST_LATITUDE as nat) + ",\"longitude\":"@
        + decimal_text(REQUEST_LONGITUDE as nat) + "},\"signature\":{\"samplems\":"@
        + decimal_text(sample_ms as nat) + ",\"timestamp\":"@ + decimal_text(timestamp as nat)
        + ",\"uri\":"@ + json_string_literal(uri) + "},\"timestamp\":"@ + decimal_text(
        timestamp as nat,
    ) + ",\"timezone\":"@ + json_string_literal(REQUEST_TIMEZONE@) + "}"@
}

/// The body of a request for a fingerprint whose characters all stand for
/// themselves in JSON, as those of a data URI do, holds the fingerprint and
/// the time zone as they are, in double quotes.
pub proof fn lemma_request_body_of_plain_uri(sample_ms: u32, timestamp: u32, uri: Seq<char>)
    requires
        forall|i: int| 0 <= i < uri.len() ==> is_plain_in_json(#[trigger] uri[i]),
    ensures
        request_body_text(sample_ms, timestamp, uri) == "{\"geolocation\":{\"altitude\":"@
            + decimal_text(REQUEST_ALTITUDE as nat) + ",\"latitude\":"@ + decimal_text(
            REQUEST_LATITUDE as nat,
        ) + ",\"longitude\":"@ + decimal_text(REQUEST_LONGITUDE as nat)
            + "},\"signature\":{\"samplems\":"@ + decimal_text(sample_ms as nat)
            + ",\"timestamp\":"@ + decimal_text(timestamp as nat) + ",\"uri\":"@ + seq!['"'] + uri
            + seq!['"'] + "},\"timestamp\":"@ + decimal_text(timestamp as nat)
            + ",\"timezone\":"@ + seq!['"'] + REQUEST_TIMEZONE@ + seq!['"'] + "}"@,
{
    reveal_strlit("Europe/Paris");
    lemma_plain_text_is_quoted_as_it_is(uri);
    lemma_plain_text_is_quoted_as_it_is(REQUEST_TIMEZONE@);
    assert(request_body_text(sample_ms, timestamp, uri) =~= "{\"geolocation\":{\"altitude\":"@
        + decimal_text(REQUEST_ALTITUDE as nat) + ",\"latitude\":"@ + decimal_text(
        REQUEST_LATITUDE as nat,
    ) + ",\"longitude\":"@ + decimal_text(REQUEST_LONGITUDE as nat)
        + "},\"signature\":{\"samplems\":"@ + decimal_text(sample_ms as nat)
        + ",\"timestamp\":"@ + decimal_text(timestamp as nat) + ",\"uri\":"@ + seq!['"'] + uri
        + seq!['"'] + "},\"timestamp\":"@ + decimal_text(timestamp as nat)
        + ",\"timezone\":"@ + seq!['"'] + REQUEST_TIMEZONE@ + seq!['"'] + "}"@);
}

/// The recognition request for the fingerprint `uri`, whose audio lasts
/// `sample_ms` milliseconds, made `timestamp_ms` milliseconds after the
/// epoch, sent as `user_agent` under the identifiers `first` and `second`.
pub open spec fn recognition_request(
    uri: Seq<char>,
    sample_ms: u32,
    timestamp_ms: u128,
    user_agent: Seq<char>,
    first: Seq<char>,
    second: Seq<char>,
) -> HttpRequestView {
    HttpRequestView {
        method: HttpMethod::Post,
        url: recognition_url_text(first, second),
        user_agent,
        content_language: CONTENT_LANGUAGE@,
        content_type: Some(JSON_CONTENT_TYPE@),
        body: Some(request_body_text(sample_ms, wire_timestamp_of(timestamp_ms), uri)),
        timeout_secs: REQUEST_TIMEOUT_SECS,
    }
}

/// The request for the cover image at `url`, sent as `user_agent`.
pub open spec fn cover_image_request_of(url: Seq<char>, user_agent: Seq<char>) -> HttpRequestView {
    HttpRequestView {
        method: HttpMethod::Get,
        url,
        user_agent,
        content_language: CONTENT_LANGUAGE@,
        content_type: None,
        body: None,
        timeout_secs: REQUEST_TIMEOUT_SECS,
    }
}

/// `rand`'s `SliceRandom::choose` on the pool, with the generator of the
/// current thread (`rand::thread_rng()`). Believed of it: an empty pool
/// gives nothing, any other pool one of its own entries. Which entry is left
/// open.
#[verifier::external_body]
fn choose_entry<'a>(pool: &'a Vec<String>) -> (chosen: Option<&'a String>)
    ensures
        chosen is Some <==> pool.len() > 0,
        chosen matches Some(entry) ==> exists|i: int|
            0 <= i < pool.len() && #[trigger] pool[i]@ == entry@,
{
    pool.choose(&mut rand::thread_rng())
}

/// `uuid`'s `Uuid::new_v4()`, written out by `to_hyphenated().to_string()`.
/// Believed of it: the text is 36 characters long, with hyphens at positions
/// 8, 13, 18 and 23 and lower-case hexadecimal digits elsewhere, of which
/// the one at position 14 tells the version, 4, and the one at position 19
/// the variant. The other digits are left open.
#[verifier::external_body]
fn fresh_uuid() -> (text: String)
    ensures
        is_random_uuid(text@),
{
    uuid::Uuid::new_v4().to_hyphenated().to_string()
}

/// `serde_json`'s rendering of a JSON string (`Value::String`, written by
/// its `to_string`). Believed of it: the text comes back in double quotes,
/// with a backslash before each double quote and backslash, the control
/// characters below the space written as their short escape or as `\u00`
/// and two lower-case hexadecimal digits, and every other character as it
/// is: [`json_string_literal`].
#[verifier::external_body]
fn json_quote(text: &str) -> (quoted: String)
    ensures
        quoted@ == json_string_literal(text@),
{
    serde_json::Value::String(text.to_owned()).to_string()
}

/// One of the user agents in `pool`, picked at random; `None` from an
/// empty pool.
pub fn choose_user_agent(pool: &Vec<String>) -> (agent: Option<String>)
    ensures
        agent is Some <==> pool.len() > 0,
        agent matches Some(name) ==> exists|i: int|
            0 <= i < pool.len() && #[trigger] pool[i]@ == name@,
{
    match choose_entry(pool) {
        Some(entry) => Some(entry.clone()),
        None => None,
    }
}

/// The address of a recognition request with the identifiers `first` and
/// `second`.
pub fn recognition_url(first: &str, second: &str) -> (url: String)
    ensures
        url@ == recognition_url_text(first@, second@),
{
    let mut url = String::new();
    url.append(SERVICE_ENDPOINT);
    url.append(first);
    proof {
        reveal_strlit("/");
    }
    url.append("/");
    url.append(second);
    url.append(SERVICE_QUERY);
    assert(url@ =~= recognition_url_text(first@, second@));
    url
}

/// The body of a recognition request for the fingerprint `uri`.
pub fn request_body(sample_ms: u32, timestamp: u32, uri: &str) -> (body: String)
    ensures
        body@ == request_body_text(sample_ms, timestamp, uri@),
{
    let mut body = String::new();
    body.append("{\"geolocation\":{\"altitude\":");
    append_decimal(&mut body, REQUEST_ALTITUDE);
    body.append(",\"latitude\":");
    append_decimal(&mut body, REQUEST_LATITUDE);
    body.append(",\"longitude\":");
    append_decimal(&mut body, REQUEST_LONGITUDE);
    body.append("},\"signature\":{\"samplems\":");
    append_decimal(&mut body, sample_ms as u64);
    body.append(",\"timestamp\":");
    append_decimal(&mut body, timestamp as u64);
    body.append(",\"uri\":");
    let quoted_uri = json_quote(uri);
    body.append(quoted_uri.as_str());
    body.append("},\"timestamp\":");
    append_decimal(&mut body, timestamp as u64);
    body.append(",\"timezone\":");
    let quoted_zone = json_quote(REQUEST_TIMEZONE);
    body.append(quoted_zone.as_str());
    body.append("}");
    assert(body@ =~= request_body_text(sample_ms, timestamp, uri@));
    body
}

/// The recognition request for the fingerprint `uri`, whose audio lasts
/// `sample_ms` milliseconds, made `timestamp_ms` milliseconds after the
/// epoch, sent as `user_agent` under the identifiers `first` and `second`.
pub fn build_recognition_request(
    uri: &str,
    sample_ms: u32,
    timestamp_ms: u128,
    user_agent: String,
    first: &str,
    second: &str,
) -> (request: HttpRequest)
    ensures
        request@ == recognition_request(
            uri@,
            sample_ms,
            timestamp_ms,
            user_agent@,
            first@,
            second@,
        ),
{
    HttpRequest {
        method: HttpMethod::Post,
        url: recognition_url(first, second),
        user_agent,
        content_language: CONTENT_LANGUAGE.to_owned(),
        content_type: Some(JSON_CONTENT_TYPE.to_owned()),
        body: Some(request_body(sample_ms, wire_timestamp(timestamp_ms), uri)),
        timeout_secs: REQUEST_TIMEOUT_SECS,
    }
}

/// The request for the cover image at `url`, sent as `user_agent`.
pub fn cover_image_request(url: String, user_agent: String) -> (request: HttpRequest)
    ensures
        request@ == cover_image_request_of(url@, user_agent@),
{
    HttpRequest {
        method: HttpMethod::Get,
        url,
        user_agent,
        content_language: CONTENT_LANGUAGE.to_owned(),
        content_type: None,
        body: None,
        timeout_secs: REQUEST_TIMEOUT_SECS,
    }
}

/// `c` is a decimal digit or one of the letters `A` to `F`.
pub open spec fn is_upper_hex(c: char) -> bool {
    c == '0' || c == '1' || c == '2' || c == '3' || c == '4' || c == '5' || c == '6' || c == '7'
        || c == '8' || c == '9' || c == 'A' || c == 'B' || c == 'C' || c == 'D' || c == 'E' || c
        == 'F'
}

/// `text` is a request identifier in upper case: as in lower case, with
/// capitals for the letters.
pub open spec fn is_hyphenated_uuid_upper(text: Seq<char>) -> bool {
    &&& text.len() == 36
    &&& forall|i: int|
        0 <= i < 36 ==> if is_hyphen_position(i) {
            #[trigger] text[i] == '-'
        } else {
            is_upper_hex(text[i])
        }
}

/// `text` is a random request identifier in upper case.
pub open spec fn is_random_uuid_upper(text: Seq<char>) -> bool {
    &&& is_hyphenated_uuid_upper(text)
    &&& text[14] == '4'
    &&& (text[19] == '8' || text[19] == '9' || text[19] == 'A' || text[19] == 'B')
}

/// The two identifiers of one recognition request.
#[derive(Clone, Debug)]
pub struct RequestIdentifiers {
    /// The first identifier, in upper case.
    pub first: String,
    /// The second identifier, in lower case.
    pub second: String,
}

/// Two fresh request identifiers, the first in upper case and the second
/// in lower case.
pub fn request_identifiers() -> (identifiers: RequestIdentifiers)
    ensures
        is_random_uuid_upper(identifiers.first@),
        is_random_uuid(identifiers.second@),
{
    let first = fresh_uuid();
    let second = fresh_uuid();
    assert(is_hex_and_hyphens(first@)) by {
        assert forall|i: int| 0 <= i < first@.len() implies is_lower_hex(#[trigger] first@[i])
            || first@[i] == '-' by {
            if is_hyphen_position(i) {
            }
        }
    }
    match upper_hex(first.as_str()) {
        Some(capitals) => {
            assert(is_hyphenated_uuid_upper(capitals@)) by {
                assert forall|i: int| 0 <= i < 36 implies if is_hyphen_position(i) {
                    #[trigger] capitals@[i] == '-'
                } else {
                    is_upper_hex(capitals@[i])
                } by {
                    assert(capitals@[i] == upper_hex_char(first@[i]));
                    if is_hyphen_position(i) {
                    }
                }
            }
            assert(capitals@[14] == upper_hex_char(first@[14]));
            assert(capitals@[19] == upper_hex_char(first@[19]));
            RequestIdentifiers { first: capitals, second }
        },
        None => {
            assert(false);
            RequestIdentifiers { first, second }
        },
    }
}

/// `request` is a recognition request for the fingerprint `uri`: sent as
/// one of the user agents in `pool`, under two random identifiers, the
/// first in upper case and the second in lower case.
pub open spec fn is_recognition_request_for(
    request: HttpRequestView,
    uri: Seq<char>,
    sample_ms: u32,
    timestamp_ms: u128,
    pool: Seq<String>,
) -> bool {
    exists|agent: int, first: Seq<char>, second: Seq<char>|
        0 <= agent < pool.len() && is_random_uuid_upper(first) && is_random_uuid(second)
            && request == #[trigger] recognition_request(
            uri,
            sample_ms,
            timestamp_ms,
            pool[agent]@,
            first,
            second,
        )
}

/// `request` asks for the cover image at `url` as one of the user agents in
/// `pool`.
pub open spec fn is_cover_image_request_for(
    request: HttpRequestView,
    url: Seq<char>,
    pool: Seq<String>,
) -> bool {
    exists|agent: int|
        0 <= agent < pool.len() && request == #[trigger] cover_image_request_of(
            url,
            pool[agent]@,
        )
}

/// Makes the request that asks the service to recognize the fingerprint
/// `uri`, whose audio lasts `sample_ms` milliseconds, at the time
/// `timestamp_ms` (milliseconds since the epoch).
///
/// The user agent is picked from `pool` and the two identifiers are drawn
/// afresh, so two calls with the same arguments give different requests. An
/// empty pool gives no request.
pub fn prepare_recognition_request(
    pool: &Vec<String>,
    uri: &str,
    sample_ms: u32,
    timestamp_ms: u128,
) -> (request: Option<HttpRequest>)
    ensures
        request is Some <==> pool.len() > 0,
        request matches Some(made) ==> is_recognition_request_for(
            made@,
            uri@,
            sample_ms,
            timestamp_ms,
            pool@,
        ),
{
    match choose_user_agent(pool) {
        Some(user_agent) => {
            let identifiers = request_identifiers();
            let made = build_recognition_request(
                uri,
                sample_ms,
                timestamp_ms,
                user_agent,
                identifiers.first.as_str(),
                identifiers.second.as_str(),
            );
            proof {
                let agent = choose|i: int| 0 <= i < pool.len() && #[trigger] pool[i]@ == user_agent@;
                assert(made@ == recognition_request(
                    uri@,
                    sample_ms,
                    timestamp_ms,
                    pool@[agent]@,
                    identifiers.first@,
                    identifiers.second@,
                ));
            }
            Some(made)
        },
        None => None,
    }
}

/// Makes the request that fetches the cover image at `url`, as a user agent
/// picked from `pool`. An empty pool gives no request.
pub fn prepare_cover_image_request(pool: &Vec<String>, url: String) -> (request: Option<
    HttpRequest,
>)
    ensures
        request is Some <==> pool.len() > 0,
        request matches Some(made) ==> is_cover_image_request_for(made@, url@, pool@),
{
    match choose_user_agent(pool) {
        Some(user_agent) => {
            let made = cover_image_request(url, user_agent);
            proof {
                let agent = choose|i: int| 0 <= i < pool.len() && #[trigger] pool[i]@ == user_agent@;
                assert(made@ == cover_image_request_of(url@, pool@[agent]@));
            }
            Some(made)
        },
        None => None,
    }
}

} // verus!
