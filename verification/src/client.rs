//! Client side of the API apart from the transport: the server's base URL
//! and the URLs of its endpoints, and how an answer outside 2xx becomes an
//! error.

use crate::error::{spec_is_transient, CoreError};
use crate::proto::ApiErrorBody;
use crate::routes;
use crate::text::{decimal, decimal_string, has_prefix};
use vstd::prelude::*;
use vstd::string::*;

verus! {

#[verifier::external_type_specification]
#[verifier::external_body]
pub struct ExParseError(url::ParseError);

// URLs are held as their serialization (`Url::as_str`), which the URL
// library produces and parses back to the same URL.

/// The serialization of the absolute URL that `url::Url::parse` makes of
/// the text, `None` where it refuses it. The WHATWG URL standard takes pages
/// to state.
pub uninterp spec fn url_parse(input: Seq<char>) -> Option<Seq<char>>;

/// The serialization of `path` resolved against the URL `base`
/// (`url::Url::join`), `None` where that fails.
pub uninterp spec fn url_join(base: Seq<char>, path: Seq<char>) -> Option<Seq<char>>;

/// The serialization of the URL `url` with `key=value`, form-encoded,
/// appended to its query (`Url::query_pairs_mut` and
/// `Serializer::append_pair`), `None` where `url` is no URL.
pub uninterp spec fn url_with_query_pair(url: Seq<char>, key: Seq<char>, value: Seq<char>) -> Option<
    Seq<char>,
>;

/// Parses an absolute URL (`url::Url::parse`) and gives its serialization.
#[verifier::external_body]
fn parse_url(input: &str) -> (r: Result<String, url::ParseError>)
    ensures
        r is Ok <==> url_parse(input@) is Some,
        r matches Ok(u) ==> u@ == url_parse(input@)->0,
{
    match url::Url::parse(input) {
        Ok(u) => Ok(String::from(u)),
        Err(e) => Err(e),
    }
}

/// Resolves `path` against the URL `base` (`url::Url::join`), the base
/// taken from its text.
#[verifier::external_body]
fn join_url(base: &str, path: &str) -> (r: Result<String, url::ParseError>)
    ensures
        r is Ok <==> url_join(base@, path@) is Some,
        r matches Ok(u) ==> u@ == url_join(base@, path@)->0,
{
    match url::Url::parse(base) {
        Ok(b) => match b.join(path) {
            Ok(u) => Ok(String::from(u)),
            Err(e) => Err(e),
        },
        Err(e) => Err(e),
    }
}

/// Appends `key=value`, form-encoded, to the query of the URL `url`
/// (`Url::query_pairs_mut` and `Serializer::append_pair`), the URL taken
/// from its text.
#[verifier::external_body]
fn append_query_pair(url: &str, key: &str, value: &str) -> (r: Result<String, url::ParseError>)
    ensures
        r is Ok <==> url_with_query_pair(url@, key@, value@) is Some,
        r matches Ok(u) ==> u@ == url_with_query_pair(url@, key@, value@)->0,
{
    match url::Url::parse(url) {
        Ok(mut u) => {
            u.query_pairs_mut().append_pair(key, value);
            Ok(String::from(u))
        },
        Err(e) => Err(e),
    }
}

/// `m` is the text (`Display`) of a URL parse error.
pub open spec fn is_url_error_text(m: String) -> bool {
    exists|pe: url::ParseError| to_string_from_display_ensures::<url::ParseError>(&pe, m)
}

/// `m` is the text, then `": "`, then the text of a URL parse error.
pub open spec fn is_base_url_error(m: Seq<char>, text: Seq<char>) -> bool {
    exists|pe: url::ParseError, t: String|
        to_string_from_display_ensures::<url::ParseError>(&pe, t) && m == text + ": "@ + t@
}

/// The server's base URL, parsed, as its serialization. A text that does not
/// parse is refused with a message that begins with the text itself.
pub fn parse_base_url(base_url: &str) -> (r: Result<String, CoreError>)
    ensures
        r is Ok <==> url_parse(base_url@) is Some,
        r matches Ok(u) ==> u@ == url_parse(base_url@)->0,
        r matches Err(e) ==> (e matches CoreError::InvalidBaseUrl(m) && is_base_url_error(
            m@,
            base_url@,
        ) && has_prefix(m@, base_url@ + ": "@)),
{
    match parse_url(base_url) {
        Ok(u) => Ok(u),
        Err(e) => {
            let detail = e.to_string();
            let mut m = String::from_str(base_url);
            m.append(": ");
            let ghost head = m@;
            m.append(detail.as_str());
            assert(m@.subrange(0, head.len() as int) =~= head);
            assert(to_string_from_display_ensures::<url::ParseError>(&e, detail));
            assert(m@ == base_url@ + ": "@ + detail@);
            Err(CoreError::InvalidBaseUrl(m))
        },
    }
}

/// The URL of an endpoint of the server: `path` resolved against the base
/// URL. Where that fails, the error carries the text of the URL library's
/// parse error.
pub fn endpoint(base: &str, path: &str) -> (r: Result<String, CoreError>)
    ensures
        r is Ok <==> url_join(base@, path@) is Some,
        r matches Ok(u) ==> u@ == url_join(base@, path@)->0,
        r matches Err(e) ==> (e matches CoreError::InvalidBaseUrl(m) && is_url_error_text(m)),
{
    match join_url(base, path) {
        Ok(u) => Ok(u),
        Err(e) => {
            let m = e.to_string();
            assert(to_string_from_display_ensures::<url::ParseError>(&e, m));
            Err(CoreError::InvalidBaseUrl(m))
        },
    }
}

/// The URL of a viewer's wallpaper: the wallpaper path resolved against the
/// base, with `w={width}` and then `h={height}` appended to its query.
pub open spec fn spec_wallpaper_url(base: Seq<char>, view_token: Seq<char>, width: u32, height: u32) -> Option<
    Seq<char>,
> {
    match url_join(base, routes::spec_wallpaper(view_token)) {
        Some(path) => match url_with_query_pair(path, "w"@, decimal(width as nat)) {
            Some(with_w) => url_with_query_pair(with_w, "h"@, decimal(height as nat)),
            None => None,
        },
        None => None,
    }
}

/// The wallpaper URL carries the screen's width as `w` and its height as
/// `h`, as given: it is the wallpaper path of the token resolved against the
/// base, then `w` = the width in decimal appended to the query, then `h` =
/// the height in decimal; and it exists exactly when each of these steps
/// succeeds.
pub proof fn lemma_wallpaper_url_carries_size(
    base: Seq<char>,
    view_token: Seq<char>,
    width: u32,
    height: u32,
)
    ensures
        spec_wallpaper_url(base, view_token, width, height) is Some <==> (url_join(
            base,
            "/cam/"@ + view_token + "/wallpaper.jpg"@,
        ) is Some && url_with_query_pair(
            url_join(base, "/cam/"@ + view_token + "/wallpaper.jpg"@)->0,
            "w"@,
            decimal(width as nat),
        ) is Some && url_with_query_pair(
            url_with_query_pair(
                url_join(base, "/cam/"@ + view_token + "/wallpaper.jpg"@)->0,
                "w"@,
                decimal(width as nat),
            )->0,
            "h"@,
            decimal(height as nat),
        ) is Some),
        spec_wallpaper_url(base, view_token, width, height) is Some ==> spec_wallpaper_url(
            base,
            view_token,
            width,
            height,
        )->0 == url_with_query_pair(
            url_with_query_pair(
                url_join(base, "/cam/"@ + view_token + "/wallpaper.jpg"@)->0,
                "w"@,
                decimal(width as nat),
            )->0,
            "h"@,
            decimal(height as nat),
        )->0,
{
}

/// The URL of a viewer's wallpaper for a `width`×`height` screen: the
/// wallpaper path with the query `w={width}&h={height}`. Where it cannot be
/// made, the error carries the text of the URL library's parse error.
pub fn wallpaper_url(base: &str, view_token: &str, width: u32, height: u32) -> (r: Result<
    String,
    CoreError,
>)
    ensures
        r is Ok <==> spec_wallpaper_url(base@, view_token@, width, height) is Some,
        r matches Ok(u) ==> u@ == spec_wallpaper_url(base@, view_token@, width, height)->0,
        r matches Err(e) ==> (e matches CoreError::InvalidBaseUrl(m) && is_url_error_text(m)),
{
    let path = routes::wallpaper(view_token);
    let url = endpoint(base, path.as_str())?;
    let w = decimal_string(width as u64);
    let with_w = match append_query_pair(url.as_str(), "w", w.as_str()) {
        Ok(u) => u,
        Err(e) => {
            let m = e.to_string();
            assert(to_string_from_display_ensures::<url::ParseError>(&e, m));
            return Err(CoreError::InvalidBaseUrl(m));
        },
    };
    let h = decimal_string(height as u64);
    match append_query_pair(with_w.as_str(), "h", h.as_str()) {
        Ok(u) => Ok(u),
        Err(e) => {
            let m = e.to_string();
            assert(to_string_from_display_ensures::<url::ParseError>(&e, m));
            Err(CoreError::InvalidBaseUrl(m))
        },
    }
}

/// Whether an HTTP status is a success (`200..=299`).
pub open spec fn spec_is_success(status: u16) -> bool {
    200 <= status < 300
}

/// Whether an HTTP status is a success.
pub fn is_success(status: u16) -> (b: bool)
    ensures
        b == spec_is_success(status),
{
    200 <= status && status < 300
}

/// The canonical reason phrase of an HTTP status, where it has one
/// ("Not Found" for 404). The table is the IANA registry.
pub uninterp spec fn canonical_reason_of(status: u16) -> Option<Seq<char>>;

/// The canonical reason phrase of a status (`StatusCode::from_u16`, then
/// `StatusCode::canonical_reason`; a number that is no status has none).
#[verifier::external_body]
fn canonical_reason(status: u16) -> (r: Option<&'static str>)
    ensures
        r is Some <==> canonical_reason_of(status) is Some,
        r matches Some(t) ==> t@ == canonical_reason_of(status)->0,
{
    match reqwest::StatusCode::from_u16(status) {
        Ok(code) => code.canonical_reason(),
        Err(_) => None,
    }
}

/// The message of an error answer: the message of the server's error body
/// where one came and parsed, else the status's reason phrase, else a
/// generic text.
pub open spec fn spec_error_message(body: Option<ApiErrorBody>, reason: Option<Seq<char>>) -> Seq<char> {
    match body {
        Some(b) => b.message@,
        None => match reason {
            Some(t) => t,
            None => "неизвестная ошибка"@,
        },
    }
}

/// The message of an error answer, given the error body if it parsed and
/// the status's reason phrase if it has one.
pub fn error_message(body: Option<ApiErrorBody>, reason: Option<&str>) -> (m: String)
    ensures
        m@ == spec_error_message(
            body,
            match reason {
                Some(t) => Some(t@),
                None => None,
            },
        ),
{
    match body {
        Some(b) => b.message,
        None => match reason {
            Some(t) => String::from_str(t),
            None => String::from_str("неизвестная ошибка"),
        },
    }
}

/// The error for an answer outside 2xx with this status, and with the
/// server's error body where it parsed.
pub fn response_error(status: u16, body: Option<ApiErrorBody>) -> (e: CoreError)
    ensures
        e matches CoreError::Api { status: s, message: m } && s == status && m@
            == spec_error_message(body, canonical_reason_of(status)),
{
    let reason = canonical_reason(status);
    CoreError::Api { status, message: error_message(body, reason) }
}

/// Which failed answers get retried: the error for a 5xx answer is
/// transient, the error for any other answer is not.
pub proof fn lemma_only_server_errors_retried(status: u16, message: String)
    ensures
        spec_is_transient(&CoreError::Api { status, message }) <==> status >= 500,
{
}

} // verus!
