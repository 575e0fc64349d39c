//! The ways in which a string can fail to be a YouTube watch URL.

use url::ParseError;
use vstd::prelude::*;
use vstd::std_specs::convert::FromSpecImpl;

verus! {

/// `url::ParseError`, the diagnostic of the URL parser. The library only carries
/// it from the parser to the caller and never looks inside.
#[verifier::external_type_specification]
#[verifier::external_body]
pub struct ExParseError(ParseError);

/// Why a string was not accepted as a YouTube watch URL.
#[derive(Debug)]
pub enum DomainError {
    /// The string is not a URL at all; the parser's diagnostic is passed on unchanged.
    ParseUrlError(ParseError),
    /// The string is a URL, but its host is missing or is not `www.youtube.com`,
    /// or its query has no `v` parameter.
    InvalidYoutubeUrlError,
}

impl From<ParseError> for DomainError {
    fn from(e: ParseError) -> (r: DomainError)
        ensures
            r == DomainError::ParseUrlError(e),
    {
        DomainError::ParseUrlError(e)
    }
}

impl FromSpecImpl<ParseError> for DomainError {
    open spec fn obeys_from_spec() -> bool {
        true
    }

    open spec fn from_spec(e: ParseError) -> DomainError {
        DomainError::ParseUrlError(e)
    }
}

} // verus!
