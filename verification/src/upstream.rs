use vstd::prelude::*;

use crate::error::CloneError;
use crate::source::{SourceUrl, SourceUrlView};

verus! {

/// How the upstream remote of a clone is specified. The two ways of giving
/// one exclude each other, so a value holds at most one.
#[derive(Debug, PartialEq, Eq)]
pub enum UpstreamSpec {
    /// No upstream remote is wanted.
    Absent,
    /// The user or organisation that owns the upstream repository; the rest
    /// of the upstream URL is that of the source.
    ShortForm(String),
    /// The upstream URL in full.
    FullUrl(String),
}

/// The mathematical content of an [`UpstreamSpec`].
pub enum UpstreamSpecView {
    Absent,
    ShortForm(Seq<char>),
    FullUrl(Seq<char>),
}

impl View for UpstreamSpec {
    type V = UpstreamSpecView;

    open spec fn view(&self) -> UpstreamSpecView {
        match self {
            UpstreamSpec::Absent => UpstreamSpecView::Absent,
            UpstreamSpec::ShortForm(name) => UpstreamSpecView::ShortForm(name@),
            UpstreamSpec::FullUrl(url) => UpstreamSpecView::FullUrl(url@),
        }
    }
}

/// The upstream specification that two optional settings amount to, or the
/// error where both are given.
pub open spec fn upstream_of(short: Option<Seq<char>>, full: Option<Seq<char>>) -> Result<
    UpstreamSpecView,
    CloneError,
> {
    match (short, full) {
        (Some(_), Some(_)) => Err(CloneError::ConflictingUpstream),
        (Some(name), None) => Ok(UpstreamSpecView::ShortForm(name)),
        (None, Some(url)) => Ok(UpstreamSpecView::FullUrl(url)),
        (None, None) => Ok(UpstreamSpecView::Absent),
    }
}

/// `url` with its first path segment replaced by `name`.
pub open spec fn with_first_segment(url: SourceUrlView, name: Seq<char>) -> SourceUrlView {
    SourceUrlView {
        scheme: url.scheme,
        host: url.host,
        path_segments: Some(url.segments().update(0, name)),
    }
}

/// The most characters that the source URL and the new path segments may
/// hold together, with one more counted for each segment, when the path of a
/// URL is replaced.
pub const REWRITE_LIMIT: usize = 0x10_0000;

/// The number of characters in all of `parts` together.
pub open spec fn total_len(parts: Seq<Seq<char>>) -> nat
    decreases parts.len(),
{
    if parts.len() == 0 {
        0
    } else {
        total_len(parts.drop_last()) + parts.last().len()
    }
}

/// Whether rewriting `source` to the path `segments` stays within
/// [`REWRITE_LIMIT`].
pub open spec fn rewrite_fits(source: Seq<char>, segments: Seq<Seq<char>>) -> bool {
    source.len() + segments.len() + total_len(segments) <= REWRITE_LIMIT
}

/// The text of the URL that `url::Url::parse` makes of `source`, after its
/// path was replaced by `segments`; `None` where `source` does not parse or
/// parses to a URL whose path the crate does not let one replace.
pub uninterp spec fn url_with_path(source: Seq<char>, segments: Seq<Seq<char>>) -> Option<
    Seq<char>,
>;

/// Parses `source` with `url::Url::parse`, empties the path of the result
/// through `path_segments_mut()` and `clear()`, appends `segments` with
/// `extend()` and returns the URL's text. There is no result where the
/// crate reports an error on the way.
///
/// Trusted: that the outcome is a function of the two arguments alone, named
/// by [`url_with_path`]. The crate keeps positions in a URL's text as `u32`
/// and panics where rewriting moves one past that; the bound on the
/// arguments stays a thousandfold below.
#[verifier::external_body]
fn rewrite_path(source: &str, segments: &Vec<String>) -> (r: Option<String>)
    requires
        rewrite_fits(source@, segments.deep_view()),
    ensures
        r.deep_view() == url_with_path(source@, segments.deep_view()),
{
    let mut url = url::Url::parse(source).ok()?;
    url.path_segments_mut().ok()?.clear().extend(segments);
    Some(url.into())
}

/// The text of the URL `source` with its path replaced by `segments`, or the
/// reason why there is none: the two are more than [`REWRITE_LIMIT`] allows,
/// or `source` is no URL whose path can be replaced.
pub open spec fn rewritten(source: Seq<char>, segments: Seq<Seq<char>>) -> Result<
    Seq<char>,
    CloneError,
> {
    if !rewrite_fits(source, segments) {
        Err(CloneError::UpstreamUrlTooLong)
    } else {
        match url_with_path(source, segments) {
            Some(text) => Ok(text),
            None => Err(CloneError::InvalidUrl),
        }
    }
}

/// The URL of the upstream remote, if one is wanted, for a clone of the URL
/// that reads `text` and parses to `source`.
pub open spec fn upstream_url(
    upstream: UpstreamSpecView,
    text: Seq<char>,
    source: SourceUrlView,
) -> Result<Option<Seq<char>>, CloneError> {
    match upstream {
        UpstreamSpecView::Absent => Ok(None),
        UpstreamSpecView::FullUrl(url) => Ok(Some(url)),
        UpstreamSpecView::ShortForm(name) => {
            if source.segments().len() == 0 {
                Err(CloneError::UrlHasNoPathSegments)
            } else {
                match rewritten(text, with_first_segment(source, name).segments()) {
                    Ok(url) => Ok(Some(url)),
                    Err(e) => Err(e),
                }
            }
        },
    }
}

/// A prefix of `parts` holds no more characters than all of them.
proof fn lemma_total_len_prefix(parts: Seq<Seq<char>>, n: int)
    requires
        0 <= n <= parts.len(),
    ensures
        total_len(parts.take(n)) <= total_len(parts),
    decreases parts.len(),
{
    if n == parts.len() {
        assert(parts.take(n) =~= parts);
    } else {
        lemma_total_len_prefix(parts.drop_last(), n);
        assert(parts.drop_last().take(n) =~= parts.take(n));
    }
}

/// Whether rewriting `source` to the path `segments` stays within
/// [`REWRITE_LIMIT`].
pub fn fits_rewrite(source: &str, segments: &Vec<String>) -> (b: bool)
    ensures
        b == rewrite_fits(source@, segments.deep_view()),
{
    let ghost all = segments.deep_view();
    let n: usize = source.unicode_len();
    let count: usize = segments.len();
    if n > REWRITE_LIMIT || count > REWRITE_LIMIT - n {
        return false;
    }
    let mut used: usize = n + count;
    for i in 0..count
        invariant
            all == segments.deep_view(),
            count == segments.len(),
            n == source@.len(),
            used == n + count + total_len(all.take(i as int)),
            used <= REWRITE_LIMIT,
    {
        let len: usize = segments[i].as_str().unicode_len();
        proof {
            let upto = all.take(i + 1);
            assert(upto.drop_last() =~= all.take(i as int));
            assert(upto.last() == segments[i as int]@);
            lemma_total_len_prefix(all, i + 1);
        }
        if len > REWRITE_LIMIT - used {
            return false;
        }
        used = used + len;
    }
    proof {
        assert(all.take(count as int) =~= all);
    }
    true
}

/// The text of the URL `source` with its path replaced by `segments`.
pub fn rewrite(source: &str, segments: &Vec<String>) -> (r: Result<String, CloneError>)
    ensures
        match rewritten(source@, segments.deep_view()) {
            Ok(text) => r matches Ok(s) && s@ == text,
            Err(e) => r == Err::<String, CloneError>(e),
        },
{
    if !fits_rewrite(source, segments) {
        return Err(CloneError::UpstreamUrlTooLong);
    }
    match rewrite_path(source, segments) {
        Some(text) => Ok(text),
        None => Err(CloneError::InvalidUrl),
    }
}

impl SourceUrl {
    /// A copy of this URL with its first path segment replaced by `name`:
    /// scheme and host are those of this URL, and so are the path segments
    /// after the first, in their order. There is none for a URL without
    /// path segments.
    pub fn with_first_segment(&self, name: &str) -> (r: Result<SourceUrl, CloneError>)
        ensures
            self@.segments().len() == 0 ==> r == Err::<SourceUrl, CloneError>(
                CloneError::UrlHasNoPathSegments,
            ),
            self@.segments().len() > 0 ==> (r matches Ok(u) && u@ == with_first_segment(
                self@,
                name@,
            )),
    {
        let old_segments: &Vec<String> = match &self.path_segments {
            Some(segments) => segments,
            None => {
                return Err(CloneError::UrlHasNoPathSegments);
            },
        };
        let count: usize = old_segments.len();
        if count == 0 {
            return Err(CloneError::UrlHasNoPathSegments);
        }
        let mut segments: Vec<String> = Vec::new();
        segments.push(name.to_string());
        let ghost replaced = old_segments.deep_view().update(0, name@);
        for i in 1..count
            invariant
                replaced == old_segments.deep_view().update(0, name@),
                count == old_segments.len(),
                segments.len() == i,
                segments.deep_view() =~= replaced.take(i as int),
        {
            segments.push(old_segments[i].clone());
        }
        let host: Option<String> = match &self.host {
            Some(h) => Some(h.clone()),
            None => None,
        };
        proof {
            assert(replaced.take(count as int) =~= replaced);
        }
        Ok(SourceUrl { scheme: self.scheme.clone(), host, path_segments: Some(segments) })
    }
}

impl UpstreamSpec {
    /// The upstream specification that the two optional settings amount to.
    /// Giving both is an error.
    pub fn from_options(short: Option<String>, full: Option<String>) -> (r: Result<
        UpstreamSpec,
        CloneError,
    >)
        ensures
            match upstream_of(short.deep_view(), full.deep_view()) {
                Ok(spec) => r matches Ok(s) && s@ == spec,
                Err(e) => r == Err::<UpstreamSpec, CloneError>(e),
            },
    {
        match (short, full) {
            (Some(_), Some(_)) => Err(CloneError::ConflictingUpstream),
            (Some(name), None) => Ok(UpstreamSpec::ShortForm(name)),
            (None, Some(url)) => Ok(UpstreamSpec::FullUrl(url)),
            (None, None) => Ok(UpstreamSpec::Absent),
        }
    }

    /// The URL of the upstream remote, if one is wanted, for a clone of the
    /// URL that reads `text` and parses to `source`. The full form is taken
    /// as it stands. The short form names the first path segment of the
    /// upstream URL, which is otherwise the source URL.
    pub fn remote_url(&self, text: &str, source: &SourceUrl) -> (r: Result<
        Option<String>,
        CloneError,
    >)
        ensures
            match upstream_url(self@, text@, source@) {
                Ok(url) => r matches Ok(u) && u.deep_view() == url,
                Err(e) => r == Err::<Option<String>, CloneError>(e),
            },
    {
        match self {
            UpstreamSpec::Absent => Ok(None),
            UpstreamSpec::FullUrl(url) => Ok(Some(url.clone())),
            UpstreamSpec::ShortForm(name) => {
                let upstream = source.with_first_segment(name.as_str())?;
                let segments = upstream.path_segments.unwrap();
                Ok(Some(rewrite(text, &segments)?))
            },
        }
    }
}

} // verus!
