use repman::error::CloneError;
use repman::source::SourceUrl;
use repman::upstream::{fits_rewrite, rewrite, UpstreamSpec, REWRITE_LIMIT};

fn owned(items: &[&str]) -> Vec<String> {
    items.iter().map(|s| s.to_string()).collect()
}

fn parts(scheme: &str, host: Option<&str>, segments: &[&str]) -> SourceUrl {
    SourceUrl {
        scheme: scheme.to_string(),
        host: host.map(|h| h.to_string()),
        path_segments: Some(owned(segments)),
    }
}

fn without_segments(scheme: &str, host: Option<&str>) -> SourceUrl {
    SourceUrl { scheme: scheme.to_string(), host: host.map(|h| h.to_string()), path_segments: None }
}

#[test]
fn parse_gives_scheme_host_and_segments() {
    assert_eq!(
        SourceUrl::parse("https://example.com/org/repo"),
        Ok(parts("https", Some("example.com"), &["org", "repo"]))
    );
    assert_eq!(
        SourceUrl::parse("ssh://git@github.com:22/rust-lang/rust.git"),
        Ok(parts("ssh", Some("github.com"), &["rust-lang", "rust.git"]))
    );
}

#[test]
fn parse_normalises_as_the_url_standard_says() {
    assert_eq!(
        SourceUrl::parse("HTTP://EXAMPLE.com/a/./b/../c d"),
        Ok(parts("http", Some("example.com"), &["a", "c%20d"]))
    );
}

#[test]
fn parse_of_a_url_with_an_empty_path_has_one_empty_segment() {
    assert_eq!(
        SourceUrl::parse("https://example.com"),
        Ok(parts("https", Some("example.com"), &[""]))
    );
    assert_eq!(
        SourceUrl::parse("https://example.com/org/"),
        Ok(parts("https", Some("example.com"), &["org", ""]))
    );
}

#[test]
fn parse_of_a_url_that_cannot_be_a_base_has_no_segments() {
    assert_eq!(
        SourceUrl::parse("mailto:someone@example.com"),
        Ok(without_segments("mailto", None))
    );
    assert_eq!(SourceUrl::parse("data:text/plain,hello"), Ok(without_segments("data", None)));
}

#[test]
fn parse_of_a_url_with_host_and_no_path_at_all_has_no_segments() {
    assert_eq!(
        SourceUrl::parse("foo://example.com"),
        Ok(without_segments("foo", Some("example.com")))
    );
}

#[test]
fn parse_of_a_url_without_host_may_have_segments() {
    assert_eq!(
        SourceUrl::parse("unix:/run/foo.socket"),
        Ok(parts("unix", None, &["run", "foo.socket"]))
    );
}

#[test]
fn parse_rejects_what_is_no_absolute_url() {
    assert_eq!(SourceUrl::parse(""), Err(CloneError::InvalidUrl));
    assert_eq!(SourceUrl::parse("example.com/org/repo"), Err(CloneError::InvalidUrl));
    assert_eq!(SourceUrl::parse("/org/repo"), Err(CloneError::InvalidUrl));
    assert_eq!(SourceUrl::parse("https://"), Err(CloneError::InvalidUrl));
    assert_eq!(SourceUrl::parse("https://exa mple.com/"), Err(CloneError::InvalidUrl));
    assert_eq!(SourceUrl::parse("https://example.com:99999/"), Err(CloneError::InvalidUrl));
}

#[test]
fn destination_is_base_then_host_then_segments() {
    let url = parts("https", Some("example.com"), &["org", "repo"]);
    assert_eq!(url.destination("/home/u/src"), "/home/u/src/example.com/org/repo");
    assert_eq!(url.destination("/home/u/src/"), "/home/u/src/example.com/org/repo");
    assert_eq!(url.destination("/"), "/example.com/org/repo");
}

#[test]
fn destination_with_many_segments_keeps_their_order() {
    let url = parts("https", Some("h"), &["a", "b", "c", "d", "e"]);
    assert_eq!(url.destination("/x"), "/x/h/a/b/c/d/e");
}

#[test]
fn destination_with_host_and_no_segments_is_base_then_host() {
    let url = without_segments("foo", Some("example.com"));
    assert_eq!(url.destination("/home/u/src"), "/home/u/src/example.com");
    let url = parts("foo", Some("example.com"), &[]);
    assert_eq!(url.destination("/home/u/src"), "/home/u/src/example.com");
}

#[test]
fn destination_without_host_is_the_base_directory() {
    let url = parts("unix", None, &["run", "foo.socket"]);
    assert_eq!(url.destination("/home/u/src"), "/home/u/src");
    let url = without_segments("mailto", None);
    assert_eq!(url.destination("/home/u/src/"), "/home/u/src/");
}

#[test]
fn destination_of_a_url_with_an_empty_last_segment_ends_in_a_separator() {
    let url = parts("https", Some("example.com"), &["org", ""]);
    assert_eq!(url.destination("/srv"), "/srv/example.com/org/");
    let url = parts("https", Some("example.com"), &[""]);
    assert_eq!(url.destination("/srv"), "/srv/example.com/");
}

#[test]
fn with_first_segment_replaces_the_first_segment_only() {
    let url = parts("https", Some("example.com"), &["org", "group", "repo"]);
    assert_eq!(
        url.with_first_segment("other"),
        Ok(parts("https", Some("example.com"), &["other", "group", "repo"]))
    );
    let url = parts("unix", None, &["only"]);
    assert_eq!(url.with_first_segment("x"), Ok(parts("unix", None, &["x"])));
}

#[test]
fn with_first_segment_needs_a_segment() {
    let url = without_segments("mailto", None);
    assert_eq!(url.with_first_segment("other"), Err(CloneError::UrlHasNoPathSegments));
    let url = without_segments("foo", Some("example.com"));
    assert_eq!(url.with_first_segment(""), Err(CloneError::UrlHasNoPathSegments));
    let url = parts("foo", Some("example.com"), &[]);
    assert_eq!(url.with_first_segment("x"), Err(CloneError::UrlHasNoPathSegments));
}

#[test]
fn rewrite_replaces_the_path_and_keeps_the_rest() {
    assert_eq!(
        rewrite("https://example.com/org/repo", &owned(&["other-org", "repo"])),
        Ok("https://example.com/other-org/repo".to_string())
    );
    assert_eq!(
        rewrite("https://u:p@example.com:444/a/b/c?q=1#f", &owned(&["x"])),
        Ok("https://u:p@example.com:444/x?q=1#f".to_string())
    );
    assert_eq!(
        rewrite("https://example.com/org/repo", &owned(&[])),
        Ok("https://example.com/".to_string())
    );
}

#[test]
fn rewrite_encodes_what_a_segment_cannot_hold() {
    assert_eq!(
        rewrite("https://example.com/org/repo", &owned(&["a b", "c/d", "50%"])),
        Ok("https://example.com/a%20b/c%2Fd/50%25".to_string())
    );
}

#[test]
fn rewrite_leaves_out_dot_segments() {
    assert_eq!(
        rewrite("https://example.com/org/repo", &owned(&["..", "repo", "."])),
        Ok("https://example.com/repo".to_string())
    );
}

#[test]
fn rewrite_of_what_has_no_path_of_segments_is_invalid() {
    assert_eq!(rewrite("mailto:someone@example.com", &owned(&["x"])), Err(CloneError::InvalidUrl));
    assert_eq!(rewrite("no url at all", &owned(&["x"])), Err(CloneError::InvalidUrl));
}

#[test]
fn rewrite_counts_source_segments_and_one_for_each_segment() {
    let source = "https://example.com/org/repo";
    let room = REWRITE_LIMIT - source.chars().count() - 2;
    let fitting = vec!["a".repeat(room - 4), "repo".to_string()];
    assert!(fits_rewrite(source, &fitting));
    assert!(rewrite(source, &fitting).is_ok());
    let too_long = vec!["a".repeat(room - 3), "repo".to_string()];
    assert!(!fits_rewrite(source, &too_long));
    assert_eq!(rewrite(source, &too_long), Err(CloneError::UpstreamUrlTooLong));
}

#[test]
fn rewrite_limit_counts_characters() {
    assert_eq!(REWRITE_LIMIT, 1_048_576);
    let source = "https://example.com/org/repo";
    let room = REWRITE_LIMIT - source.chars().count() - 1;
    assert!(fits_rewrite(source, &vec!["\u{00e9}".repeat(room)]));
    assert!(!fits_rewrite(source, &vec!["\u{00e9}".repeat(room + 1)]));
    assert!(!fits_rewrite(&"x".repeat(REWRITE_LIMIT + 1), &Vec::new()));
    assert!(fits_rewrite(&"x".repeat(REWRITE_LIMIT), &Vec::new()));
    assert!(!fits_rewrite(&"x".repeat(REWRITE_LIMIT), &vec![String::new()]));
}

#[test]
fn upstream_of_two_options() {
    assert_eq!(UpstreamSpec::from_options(None, None), Ok(UpstreamSpec::Absent));
    assert_eq!(
        UpstreamSpec::from_options(Some("org".to_string()), None),
        Ok(UpstreamSpec::ShortForm("org".to_string()))
    );
    assert_eq!(
        UpstreamSpec::from_options(None, Some("https://x/y".to_string())),
        Ok(UpstreamSpec::FullUrl("https://x/y".to_string()))
    );
    assert_eq!(
        UpstreamSpec::from_options(Some("org".to_string()), Some("https://x/y".to_string())),
        Err(CloneError::ConflictingUpstream)
    );
    assert_eq!(
        UpstreamSpec::from_options(Some(String::new()), Some(String::new())),
        Err(CloneError::ConflictingUpstream)
    );
}

#[test]
fn remote_url_of_each_form() {
    let text = "https://example.com/org/repo";
    let source = SourceUrl::parse(text).unwrap();
    assert_eq!(UpstreamSpec::Absent.remote_url(text, &source), Ok(None));
    assert_eq!(
        UpstreamSpec::FullUrl("git@internal:org/repo.git".to_string()).remote_url(text, &source),
        Ok(Some("git@internal:org/repo.git".to_string()))
    );
    assert_eq!(
        UpstreamSpec::FullUrl("not checked at all".to_string()).remote_url(text, &source),
        Ok(Some("not checked at all".to_string()))
    );
    assert_eq!(
        UpstreamSpec::ShortForm("other-org".to_string()).remote_url(text, &source),
        Ok(Some("https://example.com/other-org/repo".to_string()))
    );
}

#[test]
fn remote_url_of_short_form_without_segments() {
    let text = "mailto:someone@example.com";
    let source = SourceUrl::parse(text).unwrap();
    assert_eq!(
        UpstreamSpec::ShortForm("other-org".to_string()).remote_url(text, &source),
        Err(CloneError::UrlHasNoPathSegments)
    );
    assert_eq!(UpstreamSpec::Absent.remote_url(text, &source), Ok(None));
}
