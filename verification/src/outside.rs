//! The calls that leave this library: pattern matching, URL parsing and
//! joining, and percent-encoding. Nothing here is proved; each contract says
//! what the callers rely on.

use vstd::prelude::*;
use vstd::string::StringSliceAdditionalSpecFns;

verus! {

/// The capture groups of the leftmost match of the regular expression
/// `pattern` in `haystack`: group 0 is the whole match, and a group that took
/// no part in the match is `None`. `None` where nothing matches or where
/// `pattern` is no regular expression.
pub uninterp spec fn regex_captures(pattern: Seq<char>, haystack: Seq<char>) -> Option<
    Seq<Option<Seq<char>>>,
>;

/// `regex::Regex::captures`, on the expression that `regex::Regex::new`
/// compiles from `pattern`. The result depends on the two texts alone; the
/// contract gives it its name and claims nothing more of it.
#[verifier::external_body]
pub(crate) fn captures(pattern: &str, haystack: &str) -> (r: Option<Vec<Option<String>>>)
    ensures
        r.deep_view() == regex_captures(pattern@, haystack@),
{
    let re = regex::Regex::new(pattern).ok()?;
    let caps = re.captures(haystack)?;
    Some(caps.iter().map(|m| m.map(|m| m.as_str().to_string())).collect())
}

/// The host, if it has one, and the path of the URL that `input` writes;
/// `None` where `input` is no absolute URL.
pub uninterp spec fn url_host_and_path(input: Seq<char>) -> Option<(Option<Seq<char>>, Seq<char>)>;

/// `url::Url::parse`, read through `host_str` and `path`. The result depends
/// on `input` alone; the contract gives it its name and claims nothing more.
#[verifier::external_body]
pub(crate) fn parse_host_and_path(input: &str) -> (r: Option<(Option<String>, String)>)
    ensures
        r.deep_view() == url_host_and_path(input@),
{
    let url = url::Url::parse(input).ok()?;
    Some((url.host_str().map(|h| h.to_string()), url.path().to_string()))
}

/// The URL that the reference `reference` names when it is read against the
/// absolute URL `base`; `None` where `base` is no absolute URL or the
/// reference cannot be resolved against it.
pub uninterp spec fn url_joined(base: Seq<char>, reference: Seq<char>) -> Option<Seq<char>>;

/// `url::Url::join`, on the URL that `url::Url::parse` reads from `base`. The
/// result depends on the two texts alone; the contract gives it its name and
/// claims nothing more of it.
#[verifier::external_body]
pub(crate) fn join_url(base: &str, reference: &str) -> (r: Option<String>)
    ensures
        r.deep_view() == url_joined(base@, reference@),
{
    let base = url::Url::parse(base).ok()?;
    base.join(reference).ok().map(|u| u.to_string())
}

/// The bytes that stand for themselves in a percent-encoded text: the ASCII
/// letters and digits, and `-`, `.`, `_`, `~`.
pub open spec fn is_unreserved(b: u8) -> bool {
    ||| 0x30 <= b <= 0x39
    ||| 0x41 <= b <= 0x5a
    ||| 0x61 <= b <= 0x7a
    ||| b == 0x2d
    ||| b == 0x2e
    ||| b == 0x5f
    ||| b == 0x7e
}

/// The upper-case hexadecimal digit for `n`.
pub open spec fn hex_digit(n: u8) -> char {
    if n < 10 {
        (0x30 + n) as u8 as char
    } else {
        (0x41 + n - 10) as u8 as char
    }
}

/// What one byte becomes: itself, or `%` and its two hexadecimal digits.
pub open spec fn percent_encoded_byte(b: u8) -> Seq<char> {
    if is_unreserved(b) {
        seq![b as char]
    } else {
        seq!['%', hex_digit(b / 16), hex_digit(b % 16)]
    }
}

/// The percent-encoding of `bytes`, byte by byte.
pub open spec fn percent_encoded(bytes: Seq<u8>) -> Seq<char>
    decreases bytes.len(),
{
    if bytes.len() == 0 {
        Seq::empty()
    } else {
        percent_encoded(bytes.drop_last()) + percent_encoded_byte(bytes.last())
    }
}

/// `urlencoding::encode`: every byte of the UTF-8 form of `text` is kept
/// where it is unreserved and replaced by `%XX` where it is not.
#[verifier::external_body]
pub(crate) fn percent_encode(text: &str) -> (r: String)
    ensures
        r@ == percent_encoded(text.spec_bytes()),
{
    urlencoding::encode(text).into_owned()
}

} // verus!
