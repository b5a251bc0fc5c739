use webmention::endpoint_discovery::{endpoint_of, find_target_endpoint};
use webmention::http_client::Response;
use webmention::{Url, WebmentionError};

fn page(url: &str, body: &str, links: &[&str]) -> Response {
    let headers: Vec<String> = links.iter().map(|s| s.to_string()).collect();
    Response::new(Url::parse(url).unwrap(), body.to_string(), &headers)
}

fn discover(url: &str, body: &str, links: &[&str]) -> Option<String> {
    let target = Url::parse(url).unwrap();
    let result = find_target_endpoint(&target, Ok(page(url, body, links)));
    assert!(result.is_ok());
    result.unwrap().map(|u| u.as_str().to_string())
}

#[test]
fn find_target_endpoint_test() {
    let body = "<!doctype html><html><head><title>RSVP</title>\
        <link rel=\"webmention\" href=\"https://webmention.io/marinintim.com/webmention\">\
        </head><body><p>Going.</p></body></html>";
    let result = discover("https://marinintim.com/notes/2021/hwc-rsvp/", body, &[]);
    assert!(result.is_some());
    assert_eq!(result.unwrap(), "https://webmention.io/marinintim.com/webmention");
}

#[test]
fn webmention_rocks_discovery_endpoint_test1() {
    let body = "<html><head><title>Test 1</title></head><body></body></html>";
    let result = discover("https://webmention.rocks/test/1", body, &["</test/1/webmention>; rel=webmention"]);
    assert!(result.is_some());
    assert_eq!(result.unwrap(), "https://webmention.rocks/test/1/webmention");
}

#[test]
fn webmention_rocks_discovery_endpoint_test2() {
    let body = "<html><head><title>Test 2</title></head><body></body></html>";
    let result = discover(
        "https://webmention.rocks/test/2",
        body,
        &["<https://webmention.rocks/test/2/webmention>; rel=webmention"],
    );
    assert!(result.is_some());
    assert_eq!(result.unwrap(), "https://webmention.rocks/test/2/webmention");
}

#[test]
fn webmention_rocks_discovery_endpoint_test3() {
    let body = "<html><head><link rel=\"webmention\" href=\"/test/3/webmention\"></head><body></body></html>";
    let result = discover("https://webmention.rocks/test/3", body, &[]);
    assert!(result.is_some());
    assert_eq!(result.unwrap(), "https://webmention.rocks/test/3/webmention");
}

#[test]
fn webmention_rocks_discovery_endpoint_test4() {
    let body = "<html><head><link rel=\"webmention\" href=\"https://webmention.rocks/test/4/webmention\"></head></html>";
    let result = discover("https://webmention.rocks/test/4", body, &[]);
    assert!(result.is_some());
    assert_eq!(result.unwrap(), "https://webmention.rocks/test/4/webmention");
}

#[test]
fn webmention_rocks_discovery_endpoint_test10() {
    let body = "<html><head><link rel=\"webmention somethingelse\" href=\"webmention\"></head></html>";
    let result = discover("https://webmention.rocks/test/10", body, &[]);
    assert!(result.is_some());
    assert_eq!(result.unwrap(), "https://webmention.rocks/test/10/webmention");
}

#[test]
fn header_wins_over_earlier_anchor() {
    let body = "<html><body><a rel=\"webmention\" href=\"https://x.com/a-endpoint\">e</a></body></html>";
    let result = discover("https://x.com/post", body, &["<https://x.com/header-endpoint>; rel=\"webmention\""]);
    assert_eq!(result.unwrap(), "https://x.com/header-endpoint");
}

#[test]
fn earlier_anchor_wins_over_later_link() {
    let body = "<html><body><a rel=\"webmention\" href=\"https://x.com/from-a\">e</a>\
        <link rel=\"webmention\" href=\"https://x.com/from-link\"></body></html>";
    assert_eq!(discover("https://x.com/post", body, &[]).unwrap(), "https://x.com/from-a");
}

#[test]
fn earlier_link_wins_over_later_anchor() {
    let body = "<html><head><link rel=\"webmention\" href=\"https://x.com/from-link\"></head>\
        <body><a rel=\"webmention\" href=\"https://x.com/from-a\">e</a></body></html>";
    assert_eq!(discover("https://x.com/post", body, &[]).unwrap(), "https://x.com/from-link");
}

#[test]
fn only_first_element_of_each_kind_counts() {
    // The first <a rel=webmention> has no href: the second one is not looked at.
    let body = "<html><body><a rel=\"webmention\">no href</a>\
        <a rel=\"webmention\" href=\"https://x.com/second-a\">e</a>\
        <link rel=\"webmention\" href=\"https://x.com/from-link\"></body></html>";
    assert_eq!(discover("https://x.com/post", body, &[]).unwrap(), "https://x.com/from-link");
}

#[test]
fn no_candidate_gives_none() {
    let body = "<html><body><a href=\"https://x.com/other\">x</a><link rel=\"stylesheet\" href=\"s.css\"></body></html>";
    assert_eq!(discover("https://x.com/post", body, &["<https://x.com/p>; rel=pingback"]), None);
}

#[test]
fn relative_header_endpoint_resolves_under_directory_page() {
    assert_eq!(
        discover("https://x.com/projects", "<html></html>", &["<api/webmention>; rel=webmention"]).unwrap(),
        "https://x.com/projects/api/webmention"
    );
}

#[test]
fn failed_fetch_is_discovery_failure() {
    let target = Url::parse("https://x.com/post").unwrap();
    let err = WebmentionError::TooManyRedirects { url: target.clone() };
    match find_target_endpoint(&target, Err(err)) {
        Err(WebmentionError::DiscoveryRequestFailed { url, source }) => {
            assert_eq!(url, target);
            assert!(matches!(*source, WebmentionError::TooManyRedirects { .. }));
        }
        other => panic!("unexpected {:?}", other),
    }
}

#[test]
fn endpoint_of_response_uses_final_url() {
    let response = page("https://x.com/final", "<link rel=webmention href=\"e\">", &[]);
    assert_eq!(endpoint_of(&response).unwrap().as_str(), "https://x.com/final/e");
}
