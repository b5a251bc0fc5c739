use webmention::http_client::Response;
use webmention::http_client::post_outcome;
use webmention::sending::{batch_mentions, fetch_links, send_webmention, StrictStep};
use webmention::webmention::{SendEvent, SendStep, WebmentionAcceptance};
use webmention::{Url, Webmention, WebmentionError};

fn page(url: &str, body: &str) -> Response {
    Response::new(Url::parse(url).unwrap(), body.to_string(), &Vec::new())
}

#[test]
fn find_links_test() {
    let body = "<html><body><article class=\"h-entry\">\
        <a class=\"u-url\" href=\"https://marinintim.com/notes/2021/hwc-rsvp/\">permalink</a>\
        <p>RSVP to <a href=\"https://evgenykuznetsov.org/events/2021/hwc-online/\">HWC</a>, see \
        <a href=\"https://events.indieweb.org/2021/03/-hwc-09ReXTMBeU3M\">event</a></p></article>\
        <footer><a href=\"https://marinintim.com/\">home</a></footer></body></html>";
    let response = page("https://marinintim.com/notes/2021/hwc-rsvp/", body);
    let links = response.html.find_links();
    let links_str: Vec<&str> = links.iter().map(|s| s.as_str()).collect();
    assert_eq!(
        links_str,
        vec![
            "https://evgenykuznetsov.org/events/2021/hwc-online/",
            "https://events.indieweb.org/2021/03/-hwc-09ReXTMBeU3M"
        ]
    );
}

#[test]
fn find_links_without_entry_searches_whole_document() {
    let body = "<html><body><a href=\"https://a.org/\">a</a><a class=\"u-url x\" href=\"https://self/\">s</a>\
        <a href=\"rel/path\">r</a><a name=\"nohref\">n</a></body></html>";
    let response = page("https://x.com/dir", body);
    let links: Vec<String> = response.html.find_links().iter().map(|u| u.as_str().to_string()).collect();
    assert_eq!(links, vec!["https://a.org/".to_string(), "https://x.com/dir/rel/path".to_string()]);
}

#[test]
fn fetch_links_removes_duplicates() {
    let body = "<html><body><a href=\"https://a.org/\">1</a><a href=\"https://b.org/\">2</a>\
        <a href=\"https://a.org/\">3</a></body></html>";
    let links = fetch_links(&page("https://x.com/post", body));
    let mut got: Vec<String> = links.iter().map(|u| u.as_str().to_string()).collect();
    got.sort();
    assert_eq!(got, vec!["https://a.org/".to_string(), "https://b.org/".to_string()]);
}

#[test]
fn batch_makes_one_checked_mention_per_distinct_link() {
    let body = "<html><body><a href=\"https://a.org/\">1</a><a href=\"https://b.org/\">2</a>\
        <a href=\"https://a.org/\">3</a><a href=\"https://c.org/\">4</a></body></html>";
    let source = Url::parse("https://x.com/post").unwrap();
    let mentions = batch_mentions(&source, &page("https://x.com/post", body));
    assert_eq!(mentions.len(), 3);
    for m in mentions.iter() {
        assert_eq!(m.source, source);
        assert_eq!(m.checked(), Some(true));
        assert!(!m.sent());
    }
    let mut targets: Vec<String> = mentions.iter().map(|m| m.target.as_str().to_string()).collect();
    targets.sort();
    assert_eq!(targets, vec!["https://a.org/", "https://b.org/", "https://c.org/"]);
}

#[test]
fn batch_attempts_are_independent() {
    let body = "<html><body><a href=\"https://a.org/\">1</a><a href=\"https://b.org/\">2</a></body></html>";
    let source = Url::parse("https://x.com/post").unwrap();
    let mut mentions = batch_mentions(&source, &page("https://x.com/post", body));
    let mut outcomes = Vec::new();
    for (k, m) in mentions.iter_mut().enumerate() {
        let target = match m.send(SendEvent::Begin) {
            SendStep::FetchTarget(u) => u,
            other => panic!("unexpected {:?}", other),
        };
        let fetched = if k == 0 {
            Err(WebmentionError::RequestFailed { url: target.clone(), reason: "down".to_string() })
        } else {
            Ok(page(target.as_str(), "<html><body>no endpoint</body></html>"))
        };
        outcomes.push(match m.send(SendEvent::Fetched(fetched)) {
            SendStep::Finished(r) => r,
            other => panic!("unexpected {:?}", other),
        });
    }
    assert!(matches!(outcomes[0], Err(WebmentionError::DiscoveryRequestFailed { .. })));
    assert!(matches!(outcomes[1], Ok(WebmentionAcceptance::NoTargetEndpoint)));
}

#[test]
fn empty_page_gives_no_mentions() {
    let source = Url::parse("https://x.com/post").unwrap();
    assert!(batch_mentions(&source, &page("https://x.com/post", "")).is_empty());
}

#[test]
fn send_webmention_test() {
    let source = Url::parse("https://marinintim.com/projects/webmention/").unwrap();
    let target = Url::parse("https://webmention.rocks/test/4").unwrap();
    let mut mention = Webmention::from((source, target));

    let source_page = page(
        "https://marinintim.com/projects/webmention/",
        "<html><body><a href=\"https://webmention.rocks/test/4\">test 4</a></body></html>",
    );
    let target_page = page(
        "https://webmention.rocks/test/4",
        "<html><head><link rel=\"webmention\" href=\"https://webmention.rocks/test/4/webmention\"></head></html>",
    );
    assert!(matches!(send_webmention(&mut mention, SendEvent::Begin), StrictStep::Fetch(u) if u.as_str() == "https://marinintim.com/projects/webmention/"));
    assert!(matches!(send_webmention(&mut mention, SendEvent::Fetched(Ok(source_page))), StrictStep::Fetch(u) if u.as_str() == "https://webmention.rocks/test/4"));
    let endpoint = match send_webmention(&mut mention, SendEvent::Fetched(Ok(target_page))) {
        StrictStep::Post { endpoint, .. } => endpoint,
        other => panic!("unexpected {:?}", other),
    };
    assert_eq!(endpoint.as_str(), "https://webmention.rocks/test/4/webmention");
    let result = match send_webmention(&mut mention, SendEvent::Posted(post_outcome(&endpoint, 201))) {
        StrictStep::Finished(r) => r,
        other => panic!("unexpected {:?}", other),
    };
    assert!(result.is_ok());
    let result = result.unwrap();
    assert_eq!(result, true);
}

#[test]
fn strict_send_fails_without_endpoint() {
    let mut mention = Webmention::new("https://x.com/post", "https://t.org/").unwrap();
    mention.set_checked(true);
    let bare = page("https://t.org/", "<html><body>nothing</body></html>");
    match send_webmention(&mut mention, SendEvent::Fetched(Ok(bare))) {
        StrictStep::Finished(Err(WebmentionError::NoEndpointDiscovered(u))) => assert_eq!(u.as_str(), "https://t.org/"),
        other => panic!("unexpected {:?}", other),
    }
}

#[test]
fn strict_send_hands_back_source_failure_and_missing_link() {
    let mut mention = Webmention::new("https://x.com/post", "https://t.org/").unwrap();
    let err = WebmentionError::RequestFailed { url: Url::parse("https://x.com/post").unwrap(), reason: "down".to_string() };
    assert!(matches!(
        send_webmention(&mut mention, SendEvent::Fetched(Err(err))),
        StrictStep::Finished(Err(WebmentionError::RequestFailed { .. }))
    ));
    assert_eq!(mention.checked(), None);
    let unrelated = page("https://x.com/post", "<a href=\"https://other.org/\">o</a>");
    assert!(matches!(
        send_webmention(&mut mention, SendEvent::Fetched(Ok(unrelated))),
        StrictStep::Finished(Ok(false))
    ));
}
