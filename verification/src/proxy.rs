//! The local relay for playlists: its port, the addresses that lead through
//! it, and the rewriting of a playlist so that everything it refers to is
//! fetched through the relay too.

use crate::outside::{join_url, percent_encode, percent_encoded, url_joined};
use crate::text::{
    append_chars, append_decimal, append_str, chars_of, contains, decimal, find, find_from,
    find_in, find_in_from, has_prefix, has_substring, join, joined, last_index_of, last_position,
    lines, lines_of, rows, slice_of, starts_with, string_of, trim, trimmed,
};
use vstd::prelude::*;
use vstd::string::StrSliceExecFns;
use vstd::utf8::encode_utf8;

verus! {

/// The first port that the relay tries.
pub const BASE_PROXY_PORT: u16 = 9878;

/// How many ports the relay tries, one after the other.
pub const MAX_PORT_ATTEMPTS: u16 = 10;

/// The status of a reply that hands on what was fetched.
pub const STATUS_OK: u16 = 200;

/// The status of a reply to a fetch that failed.
pub const STATUS_BAD_GATEWAY: u16 = 502;

/// The port of the relay: unset until the relay has found one, and the same
/// ever after.
#[derive(Debug, Clone, Copy, PartialEq, Eq)]
pub struct ProxyPort {
    port: u16,
}

impl ProxyPort {
    /// The port, once it is set.
    pub closed spec fn value(&self) -> Option<u16> {
        if self.port == 0 {
            None
        } else {
            Some(self.port)
        }
    }

    /// The number that addresses are written with: the port, or 0 while it
    /// is unset.
    pub open spec fn number(&self) -> u16 {
        match self.value() {
            Some(p) => p,
            None => 0,
        }
    }

    /// A port that is not set yet.
    pub fn unset() -> (p: Self)
        ensures
            p.value() is None,
    {
        ProxyPort { port: 0 }
    }

    /// The port, once it is set.
    pub fn get(&self) -> (r: Option<u16>)
        ensures
            r == self.value(),
    {
        if self.port == 0 {
            None
        } else {
            Some(self.port)
        }
    }

    /// The number that addresses are written with.
    pub fn as_number(&self) -> (r: u16)
        ensures
            r == self.number(),
    {
        self.port
    }

    /// Sets the port where it is unset and `port` is a port; a port that is
    /// set stays as it is. Tells whether it set the port.
    pub fn assign(&mut self, port: u16) -> (set: bool)
        ensures
            set == (old(self).value() is None && port != 0),
            set ==> final(self).value() == Some(port),
            !set ==> final(self).value() == old(self).value(),
    {
        if self.port == 0 && port != 0 {
            self.port = port;
            true
        } else {
            false
        }
    }
}

/// Whether `port` is one of the ports that the relay tries.
pub open spec fn is_candidate(port: int) -> bool {
    BASE_PROXY_PORT <= port < BASE_PROXY_PORT + MAX_PORT_ATTEMPTS
}

/// Finds the port of the relay: the first of the candidates, in rising
/// order, that `can_bind` accepts. A port that is set already is kept and
/// nothing is tried. Where no candidate is accepted the port stays unset.
pub fn init_proxy_port<F: Fn(u16) -> bool>(port: &mut ProxyPort, can_bind: F) -> (r: Option<u16>)
    requires
        forall|p: u16| is_candidate(p as int) ==> call_requires(can_bind, (p,)),
    ensures
        r == final(port).value(),
        old(port).value() is Some ==> final(port).value() == old(port).value(),
        old(port).value() is None ==> match r {
            Some(p) => is_candidate(p as int) && call_ensures(can_bind, (p,), true) && forall|
                q: u16,
            |
                BASE_PROXY_PORT <= q < p ==> call_ensures(can_bind, (q,), false),
            None => forall|q: u16| is_candidate(q as int) ==> call_ensures(can_bind, (q,), false),
        },
{
    if port.get().is_some() {
        return port.get();
    }
    let mut offset: u16 = 0;
    while offset < MAX_PORT_ATTEMPTS
        invariant
            offset <= MAX_PORT_ATTEMPTS,
            port.value() is None,
            *port == *old(port),
            forall|p: u16| is_candidate(p as int) ==> call_requires(can_bind, (p,)),
            forall|q: u16|
                BASE_PROXY_PORT <= q < BASE_PROXY_PORT + offset ==> call_ensures(
                    can_bind,
                    (q,),
                    false,
                ),
        decreases MAX_PORT_ATTEMPTS - offset,
    {
        let candidate: u16 = BASE_PROXY_PORT + offset;
        assert(is_candidate(candidate as int));
        if can_bind(candidate) {
            port.assign(candidate);
            return Some(candidate);
        }
        offset += 1;
    }
    None
}

/// The address that fetches `target` through the relay on `port`.
pub open spec fn proxied_url(port: u16, target: Seq<char>) -> Seq<char> {
    "http://localhost:"@ + decimal(port as nat) + "/proxy?url="@ + percent_encoded(
        encode_utf8(target),
    )
}

/// Whether a reference is an address of its own.
pub open spec fn is_absolute(reference: Seq<char>) -> bool {
    starts_with(reference, "http://"@) || starts_with(reference, "https://"@)
}

/// What stands before the last `/` of `base`; `base` itself where it has
/// none.
pub open spec fn parent_of(base: Seq<char>) -> Seq<char> {
    match last_index_of(base, '/') {
        Some(i) => base.take(i),
        None => base,
    }
}

/// The address that `reference` names in a document fetched from `base`,
/// given what joining the two as URLs gave: an address of its own stays as
/// it is, another is joined to the base, and where that fails it is put
/// behind what stands before the last `/` of the base.
pub open spec fn resolved_with(
    base: Seq<char>,
    reference: Seq<char>,
    joined: Option<Seq<char>>,
) -> Seq<char> {
    if is_absolute(reference) {
        reference
    } else {
        match joined {
            Some(url) => url,
            None => parent_of(base) + "/"@ + reference,
        }
    }
}

/// The address that `reference` names in a document fetched from `base`.
pub open spec fn resolved(base: Seq<char>, reference: Seq<char>) -> Seq<char> {
    resolved_with(base, reference, url_joined(base, reference))
}

/// Where the value of an attribute stands that opens with `opening` and
/// closes with `quote`: the position of the opening and that of the closing
/// quote.
pub open spec fn attribute_with(line: Seq<char>, opening: Seq<char>, quote: char) -> Option<
    (int, int),
> {
    match find(line, opening) {
        Some(start) => match find_from(line, seq![quote], start + opening.len()) {
            Some(end) => Some((start, end)),
            None => None,
        },
        None => None,
    }
}

/// Where the value of the first `URI` attribute of a line stands, in double
/// quotes or, failing that, in single quotes.
pub open spec fn uri_attribute(line: Seq<char>) -> Option<(int, int)> {
    match attribute_with(line, "URI=\""@, '"') {
        Some(place) => Some(place),
        None => attribute_with(line, "URI='"@, '\''),
    }
}

/// A tag line with the value of its `URI` attribute led through the relay;
/// the line itself where it has no such attribute.
pub open spec fn rewritten_attribute(base: Seq<char>, line: Seq<char>, port: u16) -> Seq<char> {
    match uri_attribute(line) {
        Some((start, end)) => line.take(start) + "URI=\""@ + proxied_url(
            port,
            resolved(base, line.subrange(start + 5, end)),
        ) + "\""@ + line.skip(end + 1),
        None => line,
    }
}

/// One line of a playlist, rewritten: blank lines and tags without a `URI`
/// attribute stay as they are, tags with one have its value led through
/// the relay, and every other line is a reference that is replaced by its
/// address through the relay.
pub open spec fn rewritten_line(base: Seq<char>, line: Seq<char>, port: u16) -> Seq<char> {
    let t = trimmed(line);
    if t.len() == 0 {
        line
    } else if starts_with(t, "#EXT"@) && contains(t, "URI="@) {
        rewritten_attribute(base, line, port)
    } else if starts_with(t, "#"@) {
        line
    } else {
        proxied_url(port, resolved(base, t))
    }
}

/// A playlist fetched from `base`, rewritten line by line; the lines are
/// joined by line feeds.
pub open spec fn rewritten_manifest(base: Seq<char>, text: Seq<char>, port: u16) -> Seq<char> {
    joined(
        Seq::new(lines(text).len(), |i: int| rewritten_line(base, lines(text)[i], port)),
        "\n"@,
    )
}

/// Whether what was fetched is a playlist, by its content type or by its
/// address.
pub open spec fn is_manifest(content_type: Seq<char>, url: Seq<char>) -> bool {
    contains(content_type, "mpegurl"@) || contains(content_type, "x-mpegurl"@) || contains(
        url,
        ".m3u8"@,
    )
}

/// Blank lines, and tag and comment lines that carry no `URI` attribute,
/// pass through the rewriting unchanged.
pub proof fn law_plain_lines_pass_through(base: Seq<char>, line: Seq<char>, port: u16)
    requires
        trimmed(line).len() == 0 || (starts_with(trimmed(line), "#"@) && !contains(
            trimmed(line),
            "URI="@,
        )),
    ensures
        rewritten_line(base, line, port) == line,
{
}

/// Every line that is neither blank nor a tag or comment is replaced by an
/// address that leads through the relay.
pub proof fn law_references_lead_through_relay(base: Seq<char>, line: Seq<char>, port: u16)
    requires
        trimmed(line).len() > 0,
        !starts_with(trimmed(line), "#"@),
    ensures
        rewritten_line(base, line, port) == proxied_url(port, resolved(base, trimmed(line))),
        starts_with(rewritten_line(base, line, port), "http://localhost:"@),
{
    let t = trimmed(line);
    reveal_strlit("#");
    reveal_strlit("#EXT");
    if starts_with(t, "#EXT"@) {
        assert(t.subrange(0, 4) == "#EXT"@);
        assert(t.subrange(0, 1) =~= t.subrange(0, 4).subrange(0, 1));
        assert(t.subrange(0, 1) =~= "#"@);
    }
    let url = proxied_url(port, resolved(base, t));
    assert(url.subrange(0, "http://localhost:"@.len() as int) =~= "http://localhost:"@);
}

/// The address that fetches `target` through the relay on `port`.
pub fn proxy_url(port: u16, target: &Vec<char>) -> (r: Vec<char>)
    ensures
        r@ == proxied_url(port, target@),
{
    let mut v = chars_of("http://localhost:");
    append_decimal(&mut v, port as u64);
    append_str(&mut v, "/proxy?url=");
    let text = string_of(target);
    let encoded = percent_encode(text.as_str());
    append_str(&mut v, encoded.as_str());
    v
}

/// The address that fetches `original_url` through the relay.
pub fn get_proxy_url(port: &ProxyPort, original_url: &str) -> (r: String)
    ensures
        r@ == proxied_url(port.number(), original_url@),
{
    string_of(&proxy_url(port.as_number(), &chars_of(original_url)))
}

/// The address that `reference` names in a document fetched from
/// `base_url`, given what joining the two as URLs gave.
pub fn resolve_with(base_url: &Vec<char>, reference: &Vec<char>, joined: &Option<String>) -> (r:
    Vec<char>)
    ensures
        r@ == resolved_with(base_url@, reference@, joined.deep_view()),
{
    if has_prefix(reference, &chars_of("http://")) || has_prefix(reference, &chars_of("https://")) {
        return slice_of(reference, 0, reference.len());
    }
    match joined {
        Some(url) => chars_of(url.as_str()),
        None => {
            let mut v = match last_position(base_url, '/') {
                Some(i) => slice_of(base_url, 0, i),
                None => slice_of(base_url, 0, base_url.len()),
            };
            append_str(&mut v, "/");
            append_chars(&mut v, reference);
            v
        },
    }
}

/// The address that `reference` names in a document fetched from
/// `base_url`.
pub fn resolve_chars(base_url: &Vec<char>, reference: &Vec<char>) -> (r: Vec<char>)
    ensures
        r@ == resolved(base_url@, reference@),
{
    let joined = join_url(string_of(base_url).as_str(), string_of(reference).as_str());
    resolve_with(base_url, reference, &joined)
}

/// The address that `relative` names in a document fetched from `base_url`.
pub fn resolve_url(base_url: &str, relative: &str) -> (r: String)
    ensures
        r@ == resolved(base_url@, relative@),
{
    string_of(&resolve_chars(&chars_of(base_url), &chars_of(relative)))
}

/// Where the value of an attribute stands that opens with `opening` and
/// closes with `quote`.
fn locate_attribute(line: &Vec<char>, opening: &Vec<char>, quote: char) -> (r: Option<
    (usize, usize),
>)
    ensures
        match r {
            Some((start, end)) => attribute_with(line@, opening@, quote) == Some(
                (start as int, end as int),
            ) && start + opening.len() <= end < line.len(),
            None => attribute_with(line@, opening@, quote) is None,
        },
{
    let start = match find_in(line, opening) {
        Some(start) => start,
        None => { return None; },
    };
    proof {
        crate::text::lemma_find_from(line@, opening@, 0);
        assert(crate::text::occurs_at(line@, opening@, start as int));
    }
    let length = line.len();
    assert(start + opening.len() <= length);
    let mut closing: Vec<char> = Vec::new();
    closing.push(quote);
    assert(closing@ =~= seq![quote]);
    match find_in_from(line, &closing, start + opening.len()) {
        Some(end) => {
            proof {
                crate::text::lemma_find_from(line@, closing@, start + opening.len());
            }
            Some((start, end))
        },
        None => None,
    }
}

/// A tag line with the value of its `URI` attribute led through the relay.
pub fn rewrite_attribute(base_url: &Vec<char>, line: &Vec<char>, port: u16) -> (r: Vec<char>)
    ensures
        r@ == rewritten_attribute(base_url@, line@, port),
{
    let double = chars_of("URI=\"");
    let single = chars_of("URI='");
    proof {
        reveal_strlit("URI=\"");
        reveal_strlit("URI='");
    }
    let place = match locate_attribute(line, &double, '"') {
        Some(place) => Some(place),
        None => locate_attribute(line, &single, '\''),
    };
    match place {
        Some((start, end)) => {
            let uri = slice_of(line, start + 5, end);
            let target = resolve_chars(base_url, &uri);
            let mut v = slice_of(line, 0, start);
            append_str(&mut v, "URI=\"");
            append_chars(&mut v, &proxy_url(port, &target));
            append_str(&mut v, "\"");
            append_chars(&mut v, &slice_of(line, end + 1, line.len()));
            v
        },
        None => slice_of(line, 0, line.len()),
    }
}

/// A tag line with the value of its `URI` attribute led through the relay
/// on `port`.
pub fn rewrite_uri_attribute(base_url: &str, line: &str, port: u16) -> (r: String)
    ensures
        r@ == rewritten_attribute(base_url@, line@, port),
{
    string_of(&rewrite_attribute(&chars_of(base_url), &chars_of(line), port))
}

/// One line of a playlist, rewritten.
pub fn rewrite_line(base_url: &Vec<char>, line: &Vec<char>, port: u16) -> (r: Vec<char>)
    ensures
        r@ == rewritten_line(base_url@, line@, port),
{
    let t = trim(line);
    if t.len() == 0 {
        slice_of(line, 0, line.len())
    } else if has_prefix(&t, &chars_of("#EXT")) && has_substring(&t, &chars_of("URI=")) {
        rewrite_attribute(base_url, line, port)
    } else if has_prefix(&t, &chars_of("#")) {
        slice_of(line, 0, line.len())
    } else {
        proxy_url(port, &resolve_chars(base_url, &t))
    }
}

/// A playlist fetched from `base_url`, rewritten so that every address in
/// it leads through the relay on `port`.
pub fn rewrite_manifest(base_url: &str, text: &str, port: u16) -> (r: String)
    ensures
        r@ == rewritten_manifest(base_url@, text@, port),
{
    let base = chars_of(base_url);
    let source = lines_of(&chars_of(text));
    let mut out: Vec<Vec<char>> = Vec::new();
    let mut i: usize = 0;
    while i < source.len()
        invariant
            i <= source.len(),
            base@ == base_url@,
            rows(source@) == lines(text@),
            rows(out@) == Seq::new(
                i as nat,
                |k: int| rewritten_line(base_url@, lines(text@)[k], port),
            ),
        decreases source.len() - i,
    {
        assert(rows(source@)[i as int] == source@[i as int]@);
        let line = rewrite_line(&base, &source[i], port);
        let ghost before = rows(out@);
        out.push(line);
        assert(rows(out@) =~= before.push(line@));
        i += 1;
        assert(rows(out@) =~= Seq::new(
            i as nat,
            |k: int| rewritten_line(base_url@, lines(text@)[k], port),
        ));
    }
    assert(rows(source@).len() == source.len());
    string_of(&join(&out, &chars_of("\n")))
}

/// Whether what was fetched is a playlist.
pub fn looks_like_manifest(content_type: &str, url: &str) -> (b: bool)
    ensures
        b == is_manifest(content_type@, url@),
{
    let ct = chars_of(content_type);
    has_substring(&ct, &chars_of("mpegurl")) || has_substring(&ct, &chars_of("x-mpegurl"))
        || has_substring(&chars_of(url), &chars_of(".m3u8"))
}

/// The identity that the relay presents upstream: that of a browser.
pub const USER_AGENT: &'static str =
    "Mozilla/5.0 (Windows NT 10.0; Win64; x64) AppleWebKit/537.36";

/// The content type of a playlist.
pub const MANIFEST_CONTENT_TYPE: &'static str = "application/vnd.apple.mpegurl";

/// The content type of what names none.
pub const DEFAULT_CONTENT_TYPE: &'static str = "application/octet-stream";

/// The text that `bytes` hold as UTF-8, with the replacement character in
/// place of what is no UTF-8, as `String::from_utf8_lossy` of std reads it.
pub uninterp spec fn utf8_lossy(bytes: Seq<u8>) -> Seq<char>;

/// `String::from_utf8_lossy` of std.
#[verifier::external_body]
fn lossy_text(bytes: &Vec<u8>) -> (r: String)
    ensures
        r@ == utf8_lossy(bytes@),
{
    String::from_utf8_lossy(bytes).into_owned()
}

/// How the fetch of an address upstream ended.
#[derive(Debug, Clone, PartialEq, Eq)]
pub enum FetchOutcome {
    /// The request failed; the text says how.
    RequestFailed(String),
    /// The body could not be read; the text says why.
    BodyFailed(String),
    /// The body, and the content type where the answer named one.
    Fetched { content_type: Option<String>, body: Vec<u8> },
}

/// What the relay answers.
#[derive(Debug, Clone, PartialEq, Eq)]
pub struct ProxyReply {
    pub status: u16,
    pub content_type: Option<String>,
    pub body: Vec<u8>,
}

/// The content type of an answer: the one it names, or the default.
pub open spec fn content_type_of(named: Option<String>) -> Seq<char> {
    match named {
        Some(t) => t@,
        None => DEFAULT_CONTENT_TYPE@,
    }
}

/// What the relay on `port` answers to a request for `url` whose fetch
/// ended in `outcome`.
///
/// A failed fetch is answered with a gateway error that carries the text of
/// the failure. A playlist is answered rewritten, as a playlist; anything
/// else is handed on byte for byte with its own content type.
pub open spec fn reply_is(port: u16, url: Seq<char>, outcome: FetchOutcome, reply: ProxyReply)
    -> bool {
    match outcome {
        FetchOutcome::RequestFailed(e) => {
            &&& reply.status == STATUS_BAD_GATEWAY
            &&& reply.content_type is None
            &&& reply.body@ == encode_utf8("Request failed: "@ + e@)
        },
        FetchOutcome::BodyFailed(e) => {
            &&& reply.status == STATUS_BAD_GATEWAY
            &&& reply.content_type is None
            &&& reply.body@ == encode_utf8("Failed to read body: "@ + e@)
        },
        FetchOutcome::Fetched { content_type, body } => {
            &&& reply.status == STATUS_OK
            &&& if is_manifest(content_type_of(content_type), url) {
                &&& reply.content_type.deep_view() == Some(MANIFEST_CONTENT_TYPE@)
                &&& reply.body@ == encode_utf8(rewritten_manifest(url, utf8_lossy(body@), port))
            } else {
                &&& reply.content_type.deep_view() == Some(content_type_of(content_type))
                &&& reply.body@ == body@
            }
        },
    }
}

/// Answers a request for `url` from how its fetch upstream ended.
pub fn proxy_handler(port: u16, url: &str, outcome: FetchOutcome) -> (reply: ProxyReply)
    ensures
        reply_is(port, url@, outcome, reply),
{
    match outcome {
        FetchOutcome::RequestFailed(e) => {
            let message = crate::text::conjoin("Request failed: ", e.as_str());
            ProxyReply {
                status: STATUS_BAD_GATEWAY,
                content_type: None,
                body: message.as_str().as_bytes_vec(),
            }
        },
        FetchOutcome::BodyFailed(e) => {
            let message = crate::text::conjoin("Failed to read body: ", e.as_str());
            ProxyReply {
                status: STATUS_BAD_GATEWAY,
                content_type: None,
                body: message.as_str().as_bytes_vec(),
            }
        },
        FetchOutcome::Fetched { content_type, body } => {
            let named = match content_type {
                Some(t) => t,
                None => DEFAULT_CONTENT_TYPE.to_owned(),
            };
            if looks_like_manifest(named.as_str(), url) {
                let text = lossy_text(&body);
                let rewritten = rewrite_manifest(url, text.as_str(), port);
                ProxyReply {
                    status: STATUS_OK,
                    content_type: Some(MANIFEST_CONTENT_TYPE.to_owned()),
                    body: rewritten.as_str().as_bytes_vec(),
                }
            } else {
                ProxyReply { status: STATUS_OK, content_type: Some(named), body }
            }
        },
    }
}

} // verus!
