//! The calls into the `url` and `reqwest` crates that the library makes, each
//! behind a small trusted item whose contract states what the crate does.

use reqwest::header::{HeaderValue, InvalidHeaderValue};
use url::{ParseError, Url};
use vstd::prelude::*;

verus! {

/// `url::ParseError`, the error of a failed parse.
#[verifier::external_type_specification]
#[verifier::external_body]
pub struct ExParseError(ParseError);

/// `reqwest::header::HeaderValue` (the `http` crate's header value).
#[verifier::external_type_specification]
#[verifier::external_body]
pub struct ExHeaderValue(HeaderValue);

/// `reqwest::header::InvalidHeaderValue`, the error of a refused header text.
#[verifier::external_type_specification]
#[verifier::external_body]
pub struct ExInvalidHeaderValue(InvalidHeaderValue);

/// The serialization of the URL that `Url::parse(input)` gives, or `None`
/// where it fails.
pub uninterp spec fn parsed_url(input: Seq<char>) -> Option<Seq<char>>;

/// The serialization of the URL that `Url::join(&base_url, input)` gives, where
/// `base_url` is what `Url::parse(base)` gives, or `None` where either fails.
pub uninterp spec fn joined_url(base: Seq<char>, input: Seq<char>) -> Option<Seq<char>>;

/// Calls `url::Url::parse` and hands back the serialization of the URL.
/// Claimed: the result is `Ok` exactly when `parsed_url(input)` is `Some`, and
/// then its text is that serialization. Which `ParseError` variant an `Err`
/// carries is left unsaid: the error type is opaque here.
#[verifier::external_body]
pub(crate) fn url_parse(input: &str) -> (r: Result<String, ParseError>)
    ensures
        r is Ok <==> parsed_url(input@) is Some,
        r matches Ok(s) ==> parsed_url(input@) == Some(s@),
{
    Url::parse(input).map(String::from)
}

/// Calls `url::Url::join`. The base URL is handed over by its serialization,
/// which `url::Url::parse` turns back into a `Url`; the joined URL is handed
/// back by its serialization.
/// Claimed: the result is `Ok` exactly when `joined_url(base, input)` is
/// `Some`, and then its text is that serialization. Which `ParseError` variant
/// an `Err` carries is left unsaid: the error type is opaque here.
#[verifier::external_body]
pub(crate) fn url_join(base: &str, input: &str) -> (r: Result<String, ParseError>)
    ensures
        r is Ok <==> joined_url(base@, input@) is Some,
        r matches Ok(s) ==> joined_url(base@, input@) == Some(s@),
{
    Url::parse(base).and_then(|b| b.join(input)).map(String::from)
}

/// The texts that `HeaderValue::from_str` accepts: every byte of the UTF-8
/// encoding is a tab, or at least 32 and not 127 (DEL). Bytes of a non-ASCII
/// character are all at least 128, so this is a condition on the ASCII
/// characters alone.
pub open spec fn valid_header_text(text: Seq<char>) -> bool {
    forall|i: int|
        0 <= i < text.len() ==> {
            let c = #[trigger] text[i];
            c == '\t' || (c as u32 >= 32 && c as u32 != 127)
        }
}

/// The two headers that a client sends with each request, where set.
#[derive(Debug, Clone, Copy, PartialEq, Eq)]
pub enum HeaderKind {
    /// `User-Agent`.
    UserAgent,
    /// `Authorization`.
    Authorization,
}

/// A header that a client sends with each request: its name, its text, and the
/// header value made from that text. Its fields are private to this module, and
/// only [`default_header`] makes one, from a single text that goes both into
/// `text` and into `value`: every header holds the value made from its text.
#[derive(Debug)]
pub struct DefaultHeader {
    kind: HeaderKind,
    text: String,
    value: HeaderValue,
}

impl View for DefaultHeader {
    /// The header's name and text.
    type V = (HeaderKind, Seq<char>);

    closed spec fn view(&self) -> (HeaderKind, Seq<char>) {
        (self.kind, self.text@)
    }
}

impl DefaultHeader {
    /// The header's name.
    pub fn kind(&self) -> (k: HeaderKind)
        ensures
            k == self@.0,
    {
        self.kind
    }

    /// The header's text.
    pub fn text(&self) -> (t: &str)
        ensures
            t@ == self@.1,
    {
        self.text.as_str()
    }

    /// The header value, made from the header's text.
    pub fn value(&self) -> &HeaderValue {
        &self.value
    }
}

/// Calls `reqwest::header::HeaderValue::from_str` (the `http` crate's) on the
/// text, and holds the text and the value made from it in one header.
/// Claimed: it succeeds exactly when the text is a valid header text, as the
/// crate's `is_valid` byte test reads; the header made has the given name and
/// text, and its value is made from that same text (the value itself is opaque
/// here).
#[verifier::external_body]
pub(crate) fn default_header(kind: HeaderKind, text: String) -> (r: Result<
    DefaultHeader,
    InvalidHeaderValue,
>)
    ensures
        r is Ok <==> valid_header_text(text@),
        r matches Ok(h) ==> h@ == (kind, text@),
{
    match HeaderValue::from_str(&text) {
        Ok(value) => Ok(DefaultHeader { kind, text, value }),
        Err(e) => Err(e),
    }
}

/// ASCII letters 'A' to 'Z' mapped to 'a' to 'z'; every other character is
/// kept.
pub open spec fn ascii_lowercase_char(c: char) -> char {
    if 'A' <= c <= 'Z' {
        ((c as u32) + 32) as char
    } else {
        c
    }
}

/// The text with each character mapped to its ASCII lower case.
pub open spec fn ascii_lowercase(text: Seq<char>) -> Seq<char> {
    text.map_values(|c: char| ascii_lowercase_char(c))
}

/// Calls `str::to_ascii_lowercase` of std. Claimed, as its documentation
/// says: a copy of the text where each character is mapped to its ASCII lower
/// case equivalent: 'A' to 'Z' become 'a' to 'z', all else is unchanged.
#[verifier::external_body]
pub(crate) fn to_ascii_lowercase(text: &str) -> (r: String)
    ensures
        r@ == ascii_lowercase(text@),
{
    text.to_ascii_lowercase()
}

} // verus!
