//! Resolution of a VOD address to a stream that can be fetched.

use crate::error::{PlatformError, PlatformErrorView};
use crate::outside::url_host_and_path;
use crate::platform::twitch::{
    is_highlight, metadata_query, playlist_url, quality_names, seek_place, vod_id_of, VodMetadata,
};
use crate::text::{chars_of, ends_with, has_suffix, push_text};
use vstd::pervasive::unreached;
use vstd::prelude::*;

pub mod twitch;
pub mod youtube;

pub use twitch::TwitchResolver;
pub use youtube::YoutubeResolver;

verus! {

/// A resolved VOD: where its stream is, and whether that is a playlist of
/// segments rather than one file.
#[derive(Debug, Clone, PartialEq, Eq)]
pub struct ResolvedVod {
    /// The address of the stream.
    pub url: String,
    /// Whether the stream is an HLS playlist.
    pub is_hls: bool,
}

/// A resolved VOD as a mathematical value.
pub struct ResolvedVodView {
    pub url: Seq<char>,
    pub is_hls: bool,
}

impl View for ResolvedVod {
    type V = ResolvedVodView;

    open spec fn view(&self) -> ResolvedVodView {
        ResolvedVodView { url: self.url@, is_hls: self.is_hls }
    }
}

/// A resolver of the addresses of one platform.
pub trait VodResolver {
    /// The addresses that the resolver takes for its own.
    spec fn claims(&self, url: Seq<char>) -> bool;

    /// Whether the resolver takes `url` for its own.
    fn can_handle(&self, url: &str) -> (b: bool)
        ensures
            b == self.claims(url@),
    ;
}

/// One of the resolvers that the library has.
#[derive(Debug, Clone, Copy, PartialEq, Eq)]
pub enum Resolver {
    Twitch(TwitchResolver),
    Youtube(YoutubeResolver),
}

impl VodResolver for Resolver {
    open spec fn claims(&self, url: Seq<char>) -> bool {
        match self {
            Resolver::Twitch(r) => r.claims(url),
            Resolver::Youtube(r) => r.claims(url),
        }
    }

    fn can_handle(&self, url: &str) -> (b: bool) {
        match self {
            Resolver::Twitch(r) => r.can_handle(url),
            Resolver::Youtube(r) => r.can_handle(url),
        }
    }
}

/// The resolvers in the order in which they are asked.
pub struct VodResolverChain {
    pub resolvers: Vec<Resolver>,
}

/// What the platform answered to the request for the metadata of a VOD.
#[derive(Debug, Clone, PartialEq, Eq)]
pub enum MetadataReply {
    /// The request failed; the text says how.
    RequestFailed(String),
    /// The answer could not be read; the text says why.
    Unreadable(String),
    /// The platform has no such VOD.
    NoSuchVideo,
    /// The metadata of the VOD.
    Found(VodMetadata),
}

/// An answer of the platform as a mathematical value.
pub enum MetadataReplyView {
    RequestFailed(Seq<char>),
    Unreadable(Seq<char>),
    NoSuchVideo,
    Found { broadcast_type: Seq<char>, seek_previews_url: Option<Seq<char>> },
}

impl View for MetadataReply {
    type V = MetadataReplyView;

    open spec fn view(&self) -> MetadataReplyView {
        match self {
            MetadataReply::RequestFailed(m) => MetadataReplyView::RequestFailed(m@),
            MetadataReply::Unreadable(m) => MetadataReplyView::Unreadable(m@),
            MetadataReply::NoSuchVideo => MetadataReplyView::NoSuchVideo,
            MetadataReply::Found(meta) => MetadataReplyView::Found {
                broadcast_type: meta.broadcast_type@,
                seek_previews_url: meta.seek_previews_url.deep_view(),
            },
        }
    }
}

/// What a resolution waits for.
#[derive(Debug, PartialEq, Eq)]
pub enum Resolution {
    /// The metadata of the VOD with this identifier.
    AwaitingMetadata { vod_id: String },
    /// The answer to the probe of `candidates[next]`.
    Probing { candidates: Vec<String>, next: usize },
    /// Nothing: the resolution has ended.
    Done,
}

/// The state of a resolution as a mathematical value.
pub enum ResolutionView {
    AwaitingMetadata { vod_id: Seq<char> },
    Probing { candidates: Seq<Seq<char>>, next: nat },
    Done,
}

impl View for Resolution {
    type V = ResolutionView;

    open spec fn view(&self) -> ResolutionView {
        match self {
            Resolution::AwaitingMetadata { vod_id } => ResolutionView::AwaitingMetadata {
                vod_id: vod_id@,
            },
            Resolution::Probing { candidates, next } => ResolutionView::Probing {
                candidates: candidates.deep_view(),
                next: *next as nat,
            },
            Resolution::Done => ResolutionView::Done,
        }
    }
}

/// What the caller does next.
#[derive(Debug, PartialEq, Eq)]
pub enum ResolveAction {
    /// Send `query` to the metadata endpoint and hand the answer to
    /// `on_metadata`.
    FetchMetadata { query: String },
    /// Ask whether `url` exists and hand the answer to `on_probe`.
    Probe { url: String },
    /// Stop: the resolution has ended with this result.
    Finish(Result<ResolvedVod, PlatformError>),
}

/// An action as a mathematical value.
pub enum ResolveActionView {
    FetchMetadata { query: Seq<char> },
    Probe { url: Seq<char> },
    Finish(Result<ResolvedVodView, PlatformErrorView>),
}

impl View for ResolveAction {
    type V = ResolveActionView;

    open spec fn view(&self) -> ResolveActionView {
        match self {
            ResolveAction::FetchMetadata { query } => ResolveActionView::FetchMetadata {
                query: query@,
            },
            ResolveAction::Probe { url } => ResolveActionView::Probe { url: url@ },
            ResolveAction::Finish(Ok(vod)) => ResolveActionView::Finish(Ok(vod@)),
            ResolveAction::Finish(Err(e)) => ResolveActionView::Finish(Err(e@)),
        }
    }
}

/// The first resolver at or after `from` that claims `url`.
pub open spec fn first_claiming(resolvers: Seq<Resolver>, url: Seq<char>, from: int) -> Option<
    Resolver,
>
    decreases resolvers.len() - from,
{
    if from < 0 || from >= resolvers.len() {
        None
    } else if resolvers[from].claims(url) {
        Some(resolvers[from])
    } else {
        first_claiming(resolvers, url, from + 1)
    }
}

/// The playlists of the quality variants of a VOD, best first.
pub open spec fn candidate_urls(
    domain: Seq<char>,
    vod_special_id: Seq<char>,
    vod_id: Seq<char>,
    highlight: bool,
) -> Seq<Seq<char>> {
    Seq::new(
        quality_names().len(),
        |i: int| playlist_url(domain, vod_special_id, vod_id, quality_names()[i], highlight),
    )
}

/// The state and the first action of the resolution of `url`.
///
/// The first resolver that claims the address decides. The restricted
/// platform needs the identifier in the address, and asks for the metadata
/// first; the long-tail platform hands the address on, not as a playlist.
/// An address that no resolver claims is taken as direct, and as a playlist
/// only where it ends in `.m3u8`.
pub open spec fn begin(resolvers: Seq<Resolver>, url: Seq<char>) -> (
    ResolutionView,
    ResolveActionView,
) {
    match first_claiming(resolvers, url, 0) {
        Some(Resolver::Twitch(_)) => match vod_id_of(url) {
            Some(vod_id) => (
                ResolutionView::AwaitingMetadata { vod_id },
                ResolveActionView::FetchMetadata { query: metadata_query(vod_id) },
            ),
            None => (
                ResolutionView::Done,
                ResolveActionView::Finish(Err(PlatformErrorView::InvalidUrl(url))),
            ),
        },
        Some(Resolver::Youtube(_)) => (
            ResolutionView::Done,
            ResolveActionView::Finish(Ok(ResolvedVodView { url, is_hls: false })),
        ),
        None => (
            ResolutionView::Done,
            ResolveActionView::Finish(
                Ok(ResolvedVodView { url, is_hls: ends_with(url, ".m3u8"@) }),
            ),
        ),
    }
}

/// The state and the action after the platform has answered the request
/// for the metadata of the VOD `vod_id`.
///
/// A failed request, an unreadable answer and a missing VOD end the
/// resolution, each with its error; so do metadata without a seek-preview
/// address and an address that gives no place. Otherwise the best quality
/// variant is probed.
pub open spec fn after_metadata(vod_id: Seq<char>, reply: MetadataReplyView) -> (
    ResolutionView,
    ResolveActionView,
) {
    match reply {
        MetadataReplyView::RequestFailed(m) => (
            ResolutionView::Done,
            ResolveActionView::Finish(Err(PlatformErrorView::ApiError(m))),
        ),
        MetadataReplyView::Unreadable(m) => (
            ResolutionView::Done,
            ResolveActionView::Finish(Err(PlatformErrorView::ParseError(m))),
        ),
        MetadataReplyView::NoSuchVideo => (
            ResolutionView::Done,
            ResolveActionView::Finish(Err(PlatformErrorView::VodNotFound(vod_id))),
        ),
        MetadataReplyView::Found { broadcast_type, seek_previews_url } => match seek_previews_url {
            None => (
                ResolutionView::Done,
                ResolveActionView::Finish(
                    Err(PlatformErrorView::VodNotFound("No seek previews URL"@)),
                ),
            ),
            Some(seek_url) => match seek_place(url_host_and_path(seek_url)) {
                Err(m) => (
                    ResolutionView::Done,
                    ResolveActionView::Finish(Err(PlatformErrorView::ParseError(m))),
                ),
                Ok(place) => {
                    let candidates = candidate_urls(
                        place.domain,
                        place.vod_special_id,
                        vod_id,
                        is_highlight(broadcast_type),
                    );
                    (
                        ResolutionView::Probing { candidates, next: 0 },
                        ResolveActionView::Probe { url: candidates[0] },
                    )
                },
            },
        },
    }
}

/// The state and the action after the probe of `candidates[next]` has been
/// answered: a variant that exists is the result, as a playlist; one that
/// does not is followed by the next, and the last by the failure.
pub open spec fn after_probe(candidates: Seq<Seq<char>>, next: nat, exists: bool) -> (
    ResolutionView,
    ResolveActionView,
) {
    if exists {
        (
            ResolutionView::Done,
            ResolveActionView::Finish(
                Ok(ResolvedVodView { url: candidates[next as int], is_hls: true }),
            ),
        )
    } else if next + 1 < candidates.len() {
        (
            ResolutionView::Probing { candidates, next: next + 1 },
            ResolveActionView::Probe { url: candidates[next as int + 1] },
        )
    } else {
        (ResolutionView::Done, ResolveActionView::Finish(Err(PlatformErrorView::NoValidQuality)))
    }
}

/// The names of the quality variants, best first.
pub fn qualities() -> (names: Vec<String>)
    ensures
        names.deep_view() == quality_names(),
{
    let mut names: Vec<String> = Vec::new();
    assert(names.deep_view() =~= Seq::<Seq<char>>::empty());
    push_text(&mut names, "chunked");
    push_text(&mut names, "1080p60");
    push_text(&mut names, "720p60");
    push_text(&mut names, "480p30");
    push_text(&mut names, "360p30");
    names
}

impl Resolution {
    /// A resolution that probes waits for the answer about one of its
    /// candidates.
    pub open spec fn wf(&self) -> bool {
        match self {
            Resolution::Probing { candidates, next } => *next < candidates.len(),
            _ => true,
        }
    }

    /// Whether the resolution waits for the metadata.
    pub fn awaits_metadata(&self) -> (b: bool)
        ensures
            b == (self is AwaitingMetadata),
    {
        match self {
            Resolution::AwaitingMetadata { .. } => true,
            _ => false,
        }
    }

    /// Whether the resolution waits for the answer to a probe of one of its
    /// candidates.
    pub fn awaits_probe(&self) -> (b: bool)
        ensures
            b == (self is Probing && self.wf()),
    {
        match self {
            Resolution::Probing { candidates, next } => *next < candidates.len(),
            _ => false,
        }
    }

    /// Takes the platform's answer about the metadata.
    pub fn on_metadata(self, reply: MetadataReply) -> (r: (Resolution, ResolveAction))
        requires
            self is AwaitingMetadata,
        ensures
            (r.0@, r.1@) == after_metadata(self->vod_id@, reply@),
            r.0.wf(),
    {
        let vod_id = match self {
            Resolution::AwaitingMetadata { vod_id } => vod_id,
            _ => unreached(),
        };
        let metadata = match reply {
            MetadataReply::RequestFailed(m) => {
                return (Resolution::Done, ResolveAction::Finish(Err(PlatformError::ApiError(m))));
            },
            MetadataReply::Unreadable(m) => {
                return (Resolution::Done, ResolveAction::Finish(Err(PlatformError::ParseError(m))));
            },
            MetadataReply::NoSuchVideo => {
                return (
                    Resolution::Done,
                    ResolveAction::Finish(Err(PlatformError::VodNotFound(vod_id))),
                );
            },
            MetadataReply::Found(metadata) => metadata,
        };
        let seek_url = match &metadata.seek_previews_url {
            None => {
                return (
                    Resolution::Done,
                    ResolveAction::Finish(
                        Err(PlatformError::VodNotFound("No seek previews URL".to_owned())),
                    ),
                );
            },
            Some(seek_url) => seek_url,
        };
        let (domain, vod_special_id) = match TwitchResolver::parse_seek_url(seek_url.as_str()) {
            Err(e) => {
                return (Resolution::Done, ResolveAction::Finish(Err(e)));
            },
            Ok(place) => place,
        };
        let resolver = TwitchResolver::new();
        let names = qualities();
        let mut candidates: Vec<String> = Vec::new();
        let ghost wanted = candidate_urls(
            domain@,
            vod_special_id@,
            vod_id@,
            is_highlight(metadata.broadcast_type@),
        );
        let mut i: usize = 0;
        while i < names.len()
            invariant
                i <= names.len(),
                names.deep_view() == quality_names(),
                wanted == candidate_urls(
                    domain@,
                    vod_special_id@,
                    vod_id@,
                    is_highlight(metadata.broadcast_type@),
                ),
                candidates.deep_view() == wanted.take(i as int),
            decreases names.len() - i,
        {
            assert(names.deep_view()[i as int] == names@[i as int]@);
            let url = resolver.build_playlist_url(
                domain.as_str(),
                vod_special_id.as_str(),
                vod_id.as_str(),
                names[i].as_str(),
                &metadata,
            );
            let ghost before = candidates.deep_view();
            candidates.push(url);
            assert(candidates.deep_view() =~= before.push(url@));
            i += 1;
            assert(candidates.deep_view() =~= wanted.take(i as int));
        }
        assert(wanted.take(names.len() as int) =~= wanted);
        assert(candidates.deep_view()[0] == candidates@[0]@);
        let first = candidates[0].clone();
        (Resolution::Probing { candidates, next: 0 }, ResolveAction::Probe { url: first })
    }

    /// Takes the answer to the probe of the current candidate.
    pub fn on_probe(self, exists: bool) -> (r: (Resolution, ResolveAction))
        requires
            self is Probing,
            self.wf(),
        ensures
            (r.0@, r.1@) == after_probe(
                self->candidates.deep_view(),
                self->next as nat,
                exists,
            ),
            r.0.wf(),
    {
        match self {
            Resolution::Probing { candidates, next } => {
                assert(candidates.deep_view()[next as int] == candidates@[next as int]@);
                if exists {
                    let url = candidates[next].clone();
                    (Resolution::Done, ResolveAction::Finish(Ok(ResolvedVod { url, is_hls: true })))
                } else if next + 1 < candidates.len() {
                    assert(candidates.deep_view()[next + 1] == candidates@[next + 1]@);
                    let url = candidates[next + 1].clone();
                    (
                        Resolution::Probing { candidates, next: next + 1 },
                        ResolveAction::Probe { url },
                    )
                } else {
                    (Resolution::Done, ResolveAction::Finish(Err(PlatformError::NoValidQuality)))
                }
            },
            _ => unreached(),
        }
    }
}

impl VodResolverChain {
    /// The chain of the library: the restricted platform first, then the
    /// long-tail platform.
    pub fn new() -> (chain: Self)
        ensures
            chain.resolvers@ == seq![
                Resolver::Twitch(TwitchResolver {  }),
                Resolver::Youtube(YoutubeResolver {  }),
            ],
    {
        let mut resolvers: Vec<Resolver> = Vec::new();
        resolvers.push(Resolver::Twitch(TwitchResolver::new()));
        resolvers.push(Resolver::Youtube(YoutubeResolver::new()));
        VodResolverChain { resolvers }
    }

    /// Begins the resolution of `url`: the state to keep and the first
    /// action.
    pub fn resolve(&self, url: &str) -> (r: (Resolution, ResolveAction))
        ensures
            (r.0@, r.1@) == begin(self.resolvers@, url@),
            r.0.wf(),
    {
        let mut i: usize = 0;
        while i < self.resolvers.len()
            invariant
                i <= self.resolvers.len(),
                first_claiming(self.resolvers@, url@, 0) == first_claiming(
                    self.resolvers@,
                    url@,
                    i as int,
                ),
            decreases self.resolvers.len() - i,
        {
            if self.resolvers[i].can_handle(url) {
                match &self.resolvers[i] {
                    Resolver::Twitch(_) => {
                        return match TwitchResolver::extract_vod_id(url) {
                            Some(vod_id) => {
                                let query = TwitchResolver::build_query(vod_id.as_str());
                                (
                                    Resolution::AwaitingMetadata { vod_id },
                                    ResolveAction::FetchMetadata { query },
                                )
                            },
                            None => (
                                Resolution::Done,
                                ResolveAction::Finish(
                                    Err(PlatformError::InvalidUrl(url.to_owned())),
                                ),
                            ),
                        };
                    },
                    Resolver::Youtube(youtube) => {
                        return (
                            Resolution::Done,
                            ResolveAction::Finish(Ok(youtube.resolve(url))),
                        );
                    },
                }
            }
            i += 1;
        }
        let is_hls = has_suffix(&chars_of(url), &chars_of(".m3u8"));
        (
            Resolution::Done,
            ResolveAction::Finish(Ok(ResolvedVod { url: url.to_owned(), is_hls })),
        )
    }
}

impl Default for VodResolverChain {
    fn default() -> (chain: Self)
        ensures
            chain.resolvers@ == seq![
                Resolver::Twitch(TwitchResolver {  }),
                Resolver::Youtube(YoutubeResolver {  }),
            ],
    {
        VodResolverChain::new()
    }
}

/// The platform as a resolution meets it: what it answers to each query for
/// metadata, and which addresses exist.
pub struct Upstream {
    pub metadata: spec_fn(Seq<char>) -> MetadataReplyView,
    pub exists: spec_fn(Seq<char>) -> bool,
}

/// The result of a resolution that stands at `state` with `action` to do,
/// when the platform answers as `upstream` says and at most `fuel` answers
/// are taken; `None` where that many do not end it.
pub open spec fn outcome(
    state: ResolutionView,
    action: ResolveActionView,
    upstream: Upstream,
    fuel: nat,
) -> Option<Result<ResolvedVodView, PlatformErrorView>>
    decreases fuel,
{
    match action {
        ResolveActionView::Finish(r) => Some(r),
        ResolveActionView::FetchMetadata { query } => match state {
            ResolutionView::AwaitingMetadata { vod_id } => if fuel > 0 {
                let (s, a) = after_metadata(vod_id, (upstream.metadata)(query));
                outcome(s, a, upstream, (fuel - 1) as nat)
            } else {
                None
            },
            _ => None,
        },
        ResolveActionView::Probe { url } => match state {
            ResolutionView::Probing { candidates, next } => if fuel > 0 {
                let (s, a) = after_probe(candidates, next, (upstream.exists)(url));
                outcome(s, a, upstream, (fuel - 1) as nat)
            } else {
                None
            },
            _ => None,
        },
    }
}

/// The first candidate at or after `from` that exists.
pub open spec fn first_existing(candidates: Seq<Seq<char>>, upstream: Upstream, from: int)
    -> Option<Seq<char>>
    decreases candidates.len() - from,
{
    if from < 0 || from >= candidates.len() {
        None
    } else if (upstream.exists)(candidates[from]) {
        Some(candidates[from])
    } else {
        first_existing(candidates, upstream, from + 1)
    }
}

/// The result of probing the candidates from `from` on: the first that
/// exists, as a playlist, or the failure where none does.
pub open spec fn probed(candidates: Seq<Seq<char>>, upstream: Upstream, from: int) -> Result<
    ResolvedVodView,
    PlatformErrorView,
> {
    match first_existing(candidates, upstream, from) {
        Some(url) => Ok(ResolvedVodView { url, is_hls: true }),
        None => Err(PlatformErrorView::NoValidQuality),
    }
}

/// Probing returns the first quality variant that exists, and fails only
/// where none exists; it takes no more answers than there are candidates
/// left.
pub proof fn law_probing_finds_first(
    candidates: Seq<Seq<char>>,
    next: nat,
    upstream: Upstream,
    fuel: nat,
)
    requires
        next < candidates.len(),
        fuel >= candidates.len() - next,
    ensures
        outcome(
            ResolutionView::Probing { candidates, next },
            ResolveActionView::Probe { url: candidates[next as int] },
            upstream,
            fuel,
        ) == Some(probed(candidates, upstream, next as int)),
    decreases candidates.len() - next,
{
    let exists = (upstream.exists)(candidates[next as int]);
    let (s, a) = after_probe(candidates, next, exists);
    if !exists && next + 1 < candidates.len() {
        law_probing_finds_first(candidates, next + 1, upstream, (fuel - 1) as nat);
    } else if !exists {
        assert(first_existing(candidates, upstream, next as int + 1) is None);
    }
    assert(outcome(s, a, upstream, (fuel - 1) as nat) == Some(
        probed(candidates, upstream, next as int),
    ));
}

/// A resolution ends after at most one answer about the metadata and one
/// about each quality variant.
pub proof fn law_resolution_ends(resolvers: Seq<Resolver>, url: Seq<char>, upstream: Upstream,
    fuel: nat)
    requires
        fuel >= 1 + quality_names().len(),
    ensures
        outcome(begin(resolvers, url).0, begin(resolvers, url).1, upstream, fuel) is Some,
        outcome(begin(resolvers, url).0, begin(resolvers, url).1, upstream, fuel) == outcome(
            begin(resolvers, url).0,
            begin(resolvers, url).1,
            upstream,
            1 + quality_names().len(),
        ),
{
    let (s0, a0) = begin(resolvers, url);
    let least = 1 + quality_names().len();
    match a0 {
        ResolveActionView::FetchMetadata { query } => {
            let vod_id = s0->vod_id;
            let (s1, a1) = after_metadata(vod_id, (upstream.metadata)(query));
            match a1 {
                ResolveActionView::Probe { url: first } => {
                    let candidates = s1->candidates;
                    assert(candidates.len() == quality_names().len());
                    law_probing_finds_first(candidates, 0, upstream, (fuel - 1) as nat);
                    law_probing_finds_first(candidates, 0, upstream, (least - 1) as nat);
                },
                _ => {},
            }
            assert(outcome(s0, a0, upstream, fuel) == outcome(s1, a1, upstream, (fuel - 1) as nat));
            assert(outcome(s0, a0, upstream, least) == outcome(
                s1,
                a1,
                upstream,
                (least - 1) as nat,
            ));
        },
        _ => {},
    }
}

/// Resolving the same address twice against a platform that answers the
/// same gives the same result, whenever each resolution is given the
/// answers that it asks for.
pub proof fn law_resolution_is_repeatable(
    resolvers: Seq<Resolver>,
    url: Seq<char>,
    upstream: Upstream,
    first: nat,
    second: nat,
)
    requires
        first >= 1 + quality_names().len(),
        second >= 1 + quality_names().len(),
    ensures
        outcome(begin(resolvers, url).0, begin(resolvers, url).1, upstream, first) is Some,
        outcome(begin(resolvers, url).0, begin(resolvers, url).1, upstream, first) == outcome(
            begin(resolvers, url).0,
            begin(resolvers, url).1,
            upstream,
            second,
        ),
{
    law_resolution_ends(resolvers, url, upstream, first);
    law_resolution_ends(resolvers, url, upstream, second);
}

/// A VOD of the restricted platform whose metadata give a place resolves to
/// the best quality variant that exists, as a playlist, and fails with
/// `NoValidQuality` exactly where no variant exists.
pub proof fn law_resolves_to_best_existing_quality(
    vod_id: Seq<char>,
    query: Seq<char>,
    upstream: Upstream,
    broadcast_type: Seq<char>,
    seek_url: Seq<char>,
)
    requires
        (upstream.metadata)(query) == (MetadataReplyView::Found {
            broadcast_type,
            seek_previews_url: Some(seek_url),
        }),
        seek_place(url_host_and_path(seek_url)) is Ok,
    ensures
        ({
            let place = seek_place(url_host_and_path(seek_url))->Ok_0;
            let candidates = candidate_urls(
                place.domain,
                place.vod_special_id,
                vod_id,
                is_highlight(broadcast_type),
            );
            outcome(
                ResolutionView::AwaitingMetadata { vod_id },
                ResolveActionView::FetchMetadata { query },
                upstream,
                1 + quality_names().len(),
            ) == Some(probed(candidates, upstream, 0))
        }),
{
    let place = seek_place(url_host_and_path(seek_url))->Ok_0;
    let candidates = candidate_urls(
        place.domain,
        place.vod_special_id,
        vod_id,
        is_highlight(broadcast_type),
    );
    let (s1, a1) = after_metadata(vod_id, (upstream.metadata)(query));
    assert(s1 == ResolutionView::Probing { candidates, next: 0 });
    law_probing_finds_first(candidates, 0, upstream, quality_names().len());
}

/// An address that no resolver claims is handed on as it is, at once.
pub proof fn law_unclaimed_address_is_direct(resolvers: Seq<Resolver>, url: Seq<char>)
    requires
        forall|i: int| 0 <= i < resolvers.len() ==> !(#[trigger] resolvers[i]).claims(url),
    ensures
        begin(resolvers, url).1 == ResolveActionView::Finish(
            Ok(ResolvedVodView { url, is_hls: ends_with(url, ".m3u8"@) }),
        ),
{
    lemma_none_claims(resolvers, url, 0);
}

proof fn lemma_none_claims(resolvers: Seq<Resolver>, url: Seq<char>, from: int)
    requires
        0 <= from,
        forall|i: int| 0 <= i < resolvers.len() ==> !(#[trigger] resolvers[i]).claims(url),
    ensures
        first_claiming(resolvers, url, from) is None,
    decreases resolvers.len() - from,
{
    if from < resolvers.len() {
        lemma_none_claims(resolvers, url, from + 1);
    }
}

} // verus!
