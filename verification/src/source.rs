use vstd::prelude::*;

use crate::error::CloneError;
use crate::path::{join, join_path, lemma_join_path_first, push};

verus! {

/// A parsed source URL: what the clone's place on disk and its upstream
/// remote are derived from.
#[derive(Debug, PartialEq, Eq)]
pub struct SourceUrl {
    /// The scheme, without the colon.
    pub scheme: String,
    /// The host, if the URL has one.
    pub host: Option<String>,
    /// The path segments in order; `None` if the URL's path is not made of
    /// segments.
    pub path_segments: Option<Vec<String>>,
}

/// The mathematical content of a [`SourceUrl`].
pub struct SourceUrlView {
    pub scheme: Seq<char>,
    pub host: Option<Seq<char>>,
    pub path_segments: Option<Seq<Seq<char>>>,
}

impl SourceUrlView {
    /// The path segments in order; none if the path is not made of segments.
    pub open spec fn segments(self) -> Seq<Seq<char>> {
        match self.path_segments {
            Some(segments) => segments,
            None => Seq::empty(),
        }
    }
}

impl View for SourceUrl {
    type V = SourceUrlView;

    open spec fn view(&self) -> SourceUrlView {
        SourceUrlView {
            scheme: self.scheme@,
            host: self.host.deep_view(),
            path_segments: self.path_segments.deep_view(),
        }
    }
}

/// `url::ParseError`, the error of `url::Url::parse`. It is handed on
/// unread: nothing is known of a value of it.
#[verifier::external_type_specification]
#[verifier::external_body]
pub struct ExParseError(url::ParseError);

/// What `url::Url::parse` makes of `input`: `None` where it reports an
/// error, else the scheme, host and path segments of the URL it returns.
pub uninterp spec fn url_parse(input: Seq<char>) -> Option<SourceUrlView>;

/// Parses `input` with `url::Url::parse` and copies out of the result its
/// `scheme()`, its `host_str()` and the items of its `path_segments()`.
///
/// Trusted: that the outcome is a function of `input` alone, named by
/// [`url_parse`]. Nothing is claimed about which inputs parse or what their
/// parts are.
#[verifier::external_body]
fn parse_components(input: &str) -> (r: Result<SourceUrl, url::ParseError>)
    ensures
        r is Ok <==> url_parse(input@) is Some,
        r matches Ok(u) ==> url_parse(input@) == Some(u@),
{
    let url = url::Url::parse(input)?;
    Ok(
        SourceUrl {
            scheme: url.scheme().to_string(),
            host: url.host_str().map(|h| h.to_string()),
            path_segments: url.path_segments().map(|s| s.map(|p| p.to_string()).collect()),
        },
    )
}

/// The components that a URL contributes to the clone's place on disk: the
/// host and then the path segments in their order, or nothing at all where
/// the URL has no host.
pub open spec fn destination_components(url: SourceUrlView) -> Seq<Seq<char>> {
    match url.host {
        Some(host) => seq![host] + url.segments(),
        None => Seq::empty(),
    }
}

/// Where the clone of `url` goes below the base directory `base`.
pub open spec fn destination_path(base: Seq<char>, url: SourceUrlView) -> Seq<char> {
    join_path(base, destination_components(url))
}

impl SourceUrl {
    /// Parses a source URL.
    pub fn parse(input: &str) -> (r: Result<SourceUrl, CloneError>)
        ensures
            match url_parse(input@) {
                Some(parts) => r matches Ok(u) && u@ == parts,
                None => r == Err::<SourceUrl, CloneError>(CloneError::InvalidUrl),
            },
    {
        match parse_components(input) {
            Ok(url) => Ok(url),
            Err(_) => Err(CloneError::InvalidUrl),
        }
    }

    /// Where the clone of this URL goes below the base directory `base`: the
    /// base directory, then the host, then the path segments in order. A URL
    /// without a host is cloned into the base directory itself.
    pub fn destination(&self, base: &str) -> (r: String)
        ensures
            r@ == destination_path(base@, self@),
    {
        match &self.host {
            Some(host) => {
                let mut root: String = base.to_string();
                push(&mut root, host.as_str());
                proof {
                    lemma_join_path_first(base@, host@, self@.segments());
                }
                match &self.path_segments {
                    Some(segments) => join(root.as_str(), segments),
                    None => root,
                }
            },
            None => base.to_string(),
        }
    }
}

} // verus!
