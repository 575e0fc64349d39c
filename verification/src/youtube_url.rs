//! The validated reference to a YouTube watch page.

use crate::error::DomainError;
use crate::parts::{parse_url, parsed_view, query_view, url_parse, UrlParts, UrlPartsView};
use url::ParseError;
use vstd::prelude::*;
use vstd::std_specs::convert::TryFromSpecImpl;

verus! {

/// The only host that is accepted.
pub open spec fn youtube_host() -> Seq<char> {
    "www.youtube.com"@
}

/// The name of the query parameter that carries the video id.
pub open spec fn video_key() -> Seq<char> {
    "v"@
}

/// The text that stands before the video id in a canonical URL.
pub open spec fn watch_prefix() -> Seq<char> {
    "https://www.youtube.com/watch?v="@
}

/// The canonical URL of the video `id`.
pub open spec fn canonical_url(id: Seq<char>) -> Seq<char> {
    watch_prefix() + id
}

/// The value of the last pair of `query` that is named `key`, if there is one.
pub open spec fn last_value(query: Seq<(Seq<char>, Seq<char>)>, key: Seq<char>) -> Option<
    Seq<char>,
>
    decreases query.len(),
{
    if query.len() == 0 {
        None
    } else if query.last().0 == key {
        Some(query.last().1)
    } else {
        last_value(query.drop_last(), key)
    }
}

/// The verdict on a parsed URL: its video id, or the reason for refusing it.
pub open spec fn validate_parts(parts: UrlPartsView) -> Result<Seq<char>, DomainError> {
    if parts.host == Some(youtube_host()) {
        match last_value(parts.query, video_key()) {
            Some(id) => Ok(id),
            None => Err(DomainError::InvalidYoutubeUrlError),
        }
    } else {
        Err(DomainError::InvalidYoutubeUrlError)
    }
}

/// The verdict on the outcome of parsing: a parser's error is passed on, a
/// URL is judged by [`validate_parts`].
pub open spec fn validate(parsed: Result<UrlPartsView, ParseError>) -> Result<
    Seq<char>,
    DomainError,
> {
    match parsed {
        Ok(parts) => validate_parts(parts),
        Err(e) => Err(DomainError::ParseUrlError(e)),
    }
}

/// A reference to a YouTube video. It holds the video id alone.
#[derive(Clone, Debug)]
pub struct YoutubeUrl {
    video_id: String,
}

impl View for YoutubeUrl {
    type V = Seq<char>;

    /// The video id.
    closed spec fn view(&self) -> Seq<char> {
        self.video_id@
    }
}

/// A verdict with the reference replaced by its video id.
pub open spec fn verdict_view(verdict: Result<YoutubeUrl, DomainError>) -> Result<
    Seq<char>,
    DomainError,
> {
    match verdict {
        Ok(url) => Ok(url@),
        Err(e) => Err(e),
    }
}

/// Dropping every pair behind position `n` changes nothing when none of them
/// is named `key`.
proof fn lemma_last_value_skips_tail(query: Seq<(Seq<char>, Seq<char>)>, key: Seq<char>, n: int)
    requires
        0 <= n <= query.len(),
        forall|j: int| n <= j < query.len() ==> query[j].0 != key,
    ensures
        last_value(query, key) == last_value(query.take(n), key),
    decreases query.len() - n,
{
    if n == query.len() {
        assert(query.take(n) == query);
    } else {
        lemma_last_value_skips_tail(query.drop_last(), key, n);
        assert(query.drop_last().take(n) == query.take(n));
    }
}

/// Putting a pair with another name anywhere into `query` does not change
/// what is found under `key`.
pub proof fn lemma_last_value_ignores_other_names(
    query: Seq<(Seq<char>, Seq<char>)>,
    key: Seq<char>,
    at: int,
    pair: (Seq<char>, Seq<char>),
)
    requires
        0 <= at <= query.len(),
        pair.0 != key,
    ensures
        last_value(query.insert(at, pair), key) == last_value(query, key),
    decreases query.len() - at,
{
    let longer = query.insert(at, pair);
    if at == query.len() {
        assert(longer.drop_last() == query);
    } else {
        assert(longer.last() == query.last());
        assert(longer.drop_last() == query.drop_last().insert(at, pair));
        lemma_last_value_ignores_other_names(query.drop_last(), key, at, pair);
    }
}

/// Extraneous query parameters do not matter: a URL with one more pair in its
/// query, at any place and under any name but `v`, gets the verdict that it
/// got without the pair. The verdict reads the host and the query alone, so
/// the scheme, the path and the fragment of the URL do not matter either.
pub proof fn lemma_extraneous_parameters_are_ignored(
    parts: UrlPartsView,
    at: int,
    pair: (Seq<char>, Seq<char>),
)
    requires
        0 <= at <= parts.query.len(),
        pair.0 != video_key(),
    ensures
        validate_parts(UrlPartsView { host: parts.host, query: parts.query.insert(at, pair) })
            == validate_parts(parts),
{
    lemma_last_value_ignores_other_names(parts.query, video_key(), at, pair);
}

/// The parts that the canonical URL of `id` spells out: the host
/// `www.youtube.com` and a query of the one pair `v`, `id`.
pub open spec fn canonical_parts(id: Seq<char>) -> UrlPartsView {
    UrlPartsView { host: Some(youtube_host()), query: seq![(video_key(), id)] }
}

/// A URL with the host and the query that a canonical URL spells out is
/// accepted, and its video id is the one that was spelled out.
pub proof fn lemma_canonical_parts_are_accepted(id: Seq<char>)
    ensures
        validate_parts(canonical_parts(id)) == Ok::<Seq<char>, DomainError>(id),
{
    let query = canonical_parts(id).query;
    assert(query.last() == (video_key(), id));
}

/// Re-parsing a serialisation: wherever the parser reads the canonical URL of
/// `id` as what it spells out, that URL is accepted and gives `id` again.
/// Whether the parser does so is not proved here: it does not where `id`
/// holds a character that ends or splits a query, such as `&` or `#`.
pub proof fn lemma_round_trip_where_read_as_written(id: Seq<char>)
    ensures
        url_parse(canonical_url(id)) == Ok::<UrlPartsView, ParseError>(canonical_parts(id))
            ==> validate(url_parse(canonical_url(id))) == Ok::<Seq<char>, DomainError>(id),
{
    lemma_canonical_parts_are_accepted(id);
}

/// Looks up the value of the last pair of `query` that is named `key`.
pub fn find_last_value(query: &Vec<(String, String)>, key: &str) -> (value: Option<String>)
    ensures
        match value {
            Some(v) => last_value(query_view(query@), key@) == Some(v@),
            None => last_value(query_view(query@), key@) is None,
        },
{
    let wanted = String::from_str(key);
    let mut n: usize = query.len();
    while n > 0
        invariant
            n <= query.len(),
            wanted@ == key@,
            forall|j: int| n <= j < query.len() ==> query_view(query@)[j].0 != key@,
        decreases n,
    {
        n = n - 1;
        if query[n].0 == wanted {
            proof {
                let q = query_view(query@);
                lemma_last_value_skips_tail(q, key@, n + 1);
                assert(q.take(n + 1).last() == q[n as int]);
            }
            return Some(query[n].1.clone());
        }
    }
    proof {
        let q = query_view(query@);
        lemma_last_value_skips_tail(q, key@, 0);
    }
    None
}

impl YoutubeUrl {
    /// The video id.
    pub fn video_id(&self) -> (id: &String)
        ensures
            id@ == self@,
    {
        &self.video_id
    }

    /// Judges a parsed URL: it is accepted when its host is exactly
    /// `www.youtube.com` and its query names `v`; the last `v` gives the id.
    pub fn from_parts(parts: &UrlParts) -> (verdict: Result<YoutubeUrl, DomainError>)
        ensures
            verdict_view(verdict) == validate_parts(parts@),
    {
        let host_ok = match &parts.host {
            Some(host) => *host == String::from_str("www.youtube.com"),
            None => false,
        };
        if host_ok {
            match find_last_value(&parts.query, "v") {
                Some(video_id) => Ok(YoutubeUrl { video_id }),
                None => Err(DomainError::InvalidYoutubeUrlError),
            }
        } else {
            Err(DomainError::InvalidYoutubeUrlError)
        }
    }

    /// Judges the outcome of parsing: the parser's error is passed on
    /// unchanged, a URL is judged by [`YoutubeUrl::from_parts`].
    pub fn from_parsed(parsed: Result<UrlParts, ParseError>) -> (verdict: Result<
        YoutubeUrl,
        DomainError,
    >)
        ensures
            verdict_view(verdict) == validate(parsed_view(parsed)),
    {
        match parsed {
            Ok(parts) => YoutubeUrl::from_parts(&parts),
            Err(e) => Err(DomainError::from(e)),
        }
    }

    /// The canonical URL of the video: always `https`, always the watch path,
    /// and no parameter but `v`.
    pub fn to_string(&self) -> (text: String)
        ensures
            text@ == canonical_url(self@),
    {
        let mut text = String::from_str("https://www.youtube.com/watch?v=");
        text.append(self.video_id.as_str());
        text
    }
}

impl TryFrom<String> for YoutubeUrl {
    type Error = DomainError;

    /// Parses `value` as a URL and judges the outcome.
    fn try_from(value: String) -> (verdict: Result<YoutubeUrl, DomainError>)
        ensures
            verdict_view(verdict) == validate(url_parse(value@)),
    {
        YoutubeUrl::from_parsed(parse_url(value.as_str()))
    }
}

/// `try_from` states its verdict in its own contract, over the view of the
/// reference. The trait's spec function would have to name the reference
/// itself, `String` and all, which a view cannot give; so it is not used.
impl TryFromSpecImpl<String> for YoutubeUrl {
    open spec fn obeys_try_from_spec() -> bool {
        false
    }

    open spec fn try_from_spec(value: String) -> Result<YoutubeUrl, DomainError> {
        arbitrary()
    }
}

} // verus!
