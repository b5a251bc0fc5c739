use webmention::wm_url::{absolute_url, parse_url};
use webmention::{Url, WebmentionError};

#[test]
fn test_absolute_url() {
    let index_html_url = Url::parse("https://marinintim.com/projects/index.html").unwrap();
    let pretty_url = Url::parse("https://marinintim.com/projects").unwrap();
    let relative_path = "api/webmention";

    assert_eq!(
        absolute_url(relative_path, &index_html_url).unwrap().as_str(),
        "https://marinintim.com/projects/api/webmention"
    );
    assert_eq!(
        absolute_url(relative_path, &pretty_url).unwrap().as_str(),
        "https://marinintim.com/projects/api/webmention"
    );
}

// The last segment `22` holds no `.`, so the reference resolves under it.
#[test]
fn test_absolute_url2() {
    let base_url = Url::parse("https://webmention.rocks/test/22").unwrap();
    let relative_path = "22/webmention";
    assert_eq!(
        absolute_url(relative_path, &base_url).unwrap().as_str(),
        "https://webmention.rocks/test/22/22/webmention"
    );
}

// The last segment holds no `.`, so the reference resolves under it.
#[test]
fn test_absolute_url3() {
    let base_url = Url::parse("https://webmention.rocks/test/23/page/wiKQ8pZzlN0q3hsIZADg").unwrap();
    let relative_path = "webmention-endpoint/xXNLydslCJo3niJSfoXk";
    assert_eq!(
        absolute_url(relative_path, &base_url).unwrap().as_str(),
        "https://webmention.rocks/test/23/page/wiKQ8pZzlN0q3hsIZADg/webmention-endpoint/xXNLydslCJo3niJSfoXk"
    );
}

#[test]
fn absolute_candidate_is_returned_unchanged() {
    let base = Url::parse("https://x.com/projects").unwrap();
    for candidate in ["https://y.org/a/b?c=d#e", "http://example.com/", "mailto:me@x.com"] {
        let direct = Url::parse(candidate).unwrap();
        assert_eq!(absolute_url(candidate, &base).unwrap(), direct);
        assert_eq!(absolute_url(candidate, &base).unwrap().as_str(), candidate);
    }
}

#[test]
fn parse_normalizes_the_url() {
    let u = Url::parse("HTTPS://Example.COM").unwrap();
    assert_eq!(u.as_str(), "https://example.com/");
}

#[test]
fn parse_rejects_relative_and_malformed() {
    assert!(matches!(Url::parse("api/webmention"), Err(WebmentionError::UnparseableUrl { input }) if input == "api/webmention"));
    assert!(Url::parse("").is_err());
    assert!(Url::parse("http://").is_err());
}

#[test]
fn relative_against_directory_like_base() {
    let base = Url::parse("https://x.com/projects").unwrap();
    assert_eq!(
        absolute_url("api/webmention", &base).unwrap().as_str(),
        "https://x.com/projects/api/webmention"
    );
    let file = Url::parse("https://x.com/projects/index.html").unwrap();
    assert_eq!(
        absolute_url("api/webmention", &file).unwrap().as_str(),
        "https://x.com/projects/api/webmention"
    );
}

#[test]
fn relative_against_trailing_slash_base() {
    let base = Url::parse("https://x.com/notes/").unwrap();
    assert_eq!(absolute_url("a", &base).unwrap().as_str(), "https://x.com/notes/a");
}

#[test]
fn base_query_is_kept_until_the_join() {
    let base = Url::parse("https://x.com/p?q=1").unwrap();
    assert_eq!(absolute_url("e", &base).unwrap().as_str(), "https://x.com/p/e");
    assert_eq!(absolute_url("/root", &base).unwrap().as_str(), "https://x.com/root");
}

#[test]
fn empty_candidate_gives_the_base() {
    let base = Url::parse("https://x.com/projects").unwrap();
    assert_eq!(absolute_url("", &base).unwrap(), base);
}

#[test]
fn unresolvable_reference_fails() {
    let base = Url::parse("mailto:me@x.com").unwrap();
    assert!(matches!(absolute_url("relative", &base), Err(WebmentionError::UnparseableUrl { input }) if input == "relative"));
}

#[test]
fn typed_url_gets_a_scheme() {
    assert_eq!(parse_url("example.com/post").unwrap().as_str(), "http://example.com/post");
    assert_eq!(parse_url("https://example.com/post").unwrap().as_str(), "https://example.com/post");
    assert!(matches!(parse_url("exa mple"), Err(WebmentionError::UnparseableUrl { input }) if input == "exa mple"));
}
