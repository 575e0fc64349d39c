//! What the URL parser makes of a string, held as plain values.

use url::ParseError;
use url::Url;
use vstd::prelude::*;

verus! {

/// The two pieces of a parsed URL that validation reads.
pub struct UrlParts {
    /// The host as the parser serialises it, if the URL has one.
    pub host: Option<String>,
    /// The query as decoded `(name, value)` pairs, in the order in which they
    /// stand in the URL. A URL without a query has no pairs.
    pub query: Vec<(String, String)>,
}

/// The mathematical value of a [`UrlParts`].
pub struct UrlPartsView {
    pub host: Option<Seq<char>>,
    pub query: Seq<(Seq<char>, Seq<char>)>,
}

/// The pairs of a query with each string replaced by its characters.
pub open spec fn query_view(query: Seq<(String, String)>) -> Seq<(Seq<char>, Seq<char>)> {
    Seq::new(query.len(), |i: int| (query[i].0@, query[i].1@))
}

impl View for UrlParts {
    type V = UrlPartsView;

    open spec fn view(&self) -> UrlPartsView {
        UrlPartsView {
            host: match self.host {
                Some(h) => Some(h@),
                None => None,
            },
            query: query_view(self.query@),
        }
    }
}

/// The outcome of parsing, with the parts replaced by their view.
pub open spec fn parsed_view(parsed: Result<UrlParts, ParseError>) -> Result<
    UrlPartsView,
    ParseError,
> {
    match parsed {
        Ok(parts) => Ok(parts@),
        Err(e) => Err(e),
    }
}

/// What `url::Url::parse` makes of the string `raw`: the parser's error, or
/// for the URL it returns the host that `Url::host_str` gives and the pairs
/// that `Url::query_pairs` yields, in order.
pub uninterp spec fn url_parse(raw: Seq<char>) -> Result<UrlPartsView, ParseError>;

/// Runs `url::Url::parse` on `raw` and copies out of the `Url` the host
/// (`Url::host_str`) and the decoded query pairs (`Url::query_pairs`).
///
/// Nothing is proved of the parser. The contract only gives its outcome the
/// name [`url_parse`], which rests on the parser being a function of its input.
#[verifier::external_body]
pub(crate) fn parse_url(raw: &str) -> (parsed: Result<UrlParts, ParseError>)
    ensures
        parsed_view(parsed) == url_parse(raw@),
{
    match Url::parse(raw) {
        Ok(url) => Ok(
            UrlParts {
                host: url.host_str().map(String::from),
                query: url.query_pairs().into_owned().collect(),
            },
        ),
        Err(e) => Err(e),
    }
}

} // verus!
