use webmention::http_client::{Redirects, Response, MAX_REDIRECTS};
use webmention::{Url, WebmentionError};

#[test]
fn twenty_one_redirects_fail() {
    let first = Url::parse("https://x.com/start").unwrap();
    let mut chain = Redirects::start(&first);
    for k in 1..=20 {
        let location = format!("https://x.com/hop/{}", k);
        assert_eq!(chain.on_response(301, Some(location.as_str())).unwrap(), true);
        assert_eq!(chain.current().as_str(), location);
    }
    assert_eq!(chain.followed(), MAX_REDIRECTS);
    match chain.on_response(302, Some("https://x.com/hop/21")) {
        Err(WebmentionError::TooManyRedirects { url }) => assert_eq!(url, first),
        other => panic!("unexpected {:?}", other),
    }
}

#[test]
fn nineteen_redirects_then_success() {
    let first = Url::parse("https://x.com/start").unwrap();
    let mut chain = Redirects::start(&first);
    for k in 1..=19 {
        let location = format!("/hop/{}", k);
        assert_eq!(chain.on_response(307, Some(location.as_str())).unwrap(), true);
    }
    assert_eq!(chain.on_response(200, None).unwrap(), false);
    assert_eq!(chain.current().as_str(), "https://x.com/hop/19");
    assert_eq!(chain.followed(), 19);
}

#[test]
fn relative_location_resolves_against_current_url() {
    let first = Url::parse("https://x.com/a/b").unwrap();
    let mut chain = Redirects::start(&first);
    assert!(chain.on_response(308, Some("c")).unwrap());
    assert_eq!(chain.current().as_str(), "https://x.com/a/b/c");
    assert!(chain.on_response(303, Some("https://y.org/")).unwrap());
    assert_eq!(chain.current().as_str(), "https://y.org/");
}

#[test]
fn non_redirect_or_missing_location_is_final() {
    let first = Url::parse("https://x.com/a").unwrap();
    let mut chain = Redirects::start(&first);
    assert_eq!(chain.on_response(404, Some("https://x.com/b")).unwrap(), false);
    assert_eq!(chain.on_response(301, None).unwrap(), false);
    assert_eq!(chain.current().as_str(), "https://x.com/a");
    assert_eq!(chain.followed(), 0);
}

#[test]
fn unresolvable_location_fails() {
    let first = Url::parse("mailto:me@x.com").unwrap();
    let mut chain = Redirects::start(&first);
    assert!(matches!(chain.on_response(302, Some("elsewhere")), Err(WebmentionError::UnparseableUrl { .. })));
}

#[test]
fn response_parses_body_and_headers() {
    let url = Url::parse("https://x.com/page").unwrap();
    let response = Response::new(
        url.clone(),
        "<html><body><a href=\"https://t.org/\">t</a></body></html>".to_string(),
        &vec!["<https://x.com/e>; rel=webmention".to_string()],
    );
    assert_eq!(response.url, url);
    assert!(response.html.contains(&Url::parse("https://t.org/").unwrap()).is_ok());
    assert!(response.html.contains(&Url::parse("https://t.org/x").unwrap()).is_err());
    assert_eq!(response.rels.get("webmention"), Some(vec!["https://x.com/e".to_string()]));
    assert!(response.html.doc().iter().any(|n| n.name.as_deref() == Some("a")));
}
