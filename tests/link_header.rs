use webmention::link_header::{all_rels, link, link_header, list_of_options, option, uri_reference};
use webmention::WebmentionError;

#[test]
fn test_uri_reference() {
    let input = "<https://marinintim.com>";
    let (remaining, uri) = uri_reference(input).unwrap();
    assert_eq!(uri, "https://marinintim.com");
    assert_eq!(remaining, "");

    let input = "<https://marinintim.com";
    assert!(uri_reference(input).is_err());
}

#[test]
fn test_option() {
    let input = "key=value";
    let (remaining, (key, value)) = option(input).unwrap();
    assert_eq!(key, "key");
    assert_eq!(value, "value");
    assert_eq!(remaining, "");

    let input = "weird-key=Still_value not-part-of-the-value";
    let (remaining, (key, value)) = option(input).unwrap();
    assert_eq!(key, "weird-key");
    assert_eq!(value, "Still_value");
    assert_eq!(remaining, " not-part-of-the-value");

    let input = "key=\"Quoted value with Spaces\" not relevant";
    let (remaining, (key, value)) = option(input).unwrap();
    assert_eq!(key, "key");
    assert_eq!(value, "Quoted value with Spaces");
    assert_eq!(remaining, " not relevant");
}

#[test]
fn test_list_of_options() {
    let input = "; option1=value1; option2=\"value2\"";
    let (_, options) = list_of_options(input);
    let options: Vec<(&str, &str)> = options.iter().map(|(k, v)| (k.as_str(), v.as_str())).collect();
    assert_eq!(options, vec![("option1", "value1"), ("option2", "value2")]);
}

#[test]
fn test_link() {
    let input = "<https://marinintim.com>; rel=webmention; awesome=true";
    let (_, value) = link(input).unwrap();
    assert_eq!(value.uri_reference, "https://marinintim.com");
    assert_eq!(value.rels[0], "webmention");
}

#[test]
fn test_link_header() {
    let input = "<https://marinintim.com/pingback>; rel=\"pingback\"; awesome=true, <https://marinintim.com>; rel=\"webmention\"";
    let value = link_header(input).unwrap();
    println!("{:?}", value);
    assert_eq!(value.values[1].rels[0], "webmention");
}

#[test]
fn link_keeps_only_rel_options() {
    let (_, value) = link("<https://x.com>; rel=webmention; awesome=true").unwrap();
    assert_eq!(value.uri_reference, "https://x.com");
    assert_eq!(value.rels, vec!["webmention".to_string()]);
}

#[test]
fn link_header_single_link_has_one_value() {
    let header = link_header("<https://x.com>; rel=webmention; awesome=true").unwrap();
    assert_eq!(header.values.len(), 1);
    assert_eq!(header.values[0].rels, vec!["webmention".to_string()]);
}

#[test]
fn quoted_rel_splits_on_white_space() {
    let (_, value) = link("<https://x.com/e>; rel=\"webmention  other\tthird\"").unwrap();
    assert_eq!(
        value.rels,
        vec!["webmention".to_string(), "other".to_string(), "third".to_string()]
    );
}

#[test]
fn option_without_equals_fails() {
    assert!(matches!(option("novalue"), Err(WebmentionError::InvalidLinkHeader(s)) if s == "novalue"));
    assert!(option("=value").is_err());
    assert!(option("key=").is_err());
}

#[test]
fn option_with_unclosed_quote_takes_bare_value() {
    let (remaining, (key, value)) = option("k=\"abc def").unwrap();
    assert_eq!(key, "k");
    assert_eq!(value, "\"abc");
    assert_eq!(remaining, " def");
}

#[test]
fn options_stop_at_missing_space() {
    let (remaining, options) = list_of_options("; a=1;b=2");
    assert_eq!(options.len(), 1);
    assert_eq!(remaining, ";b=2");
}

#[test]
fn empty_list_of_options() {
    let (remaining, options) = list_of_options("");
    assert!(options.is_empty());
    assert_eq!(remaining, "");
}

#[test]
fn empty_uri_reference_fails() {
    assert!(uri_reference("<>").is_err());
    assert!(link("no link").is_err());
}

#[test]
fn malformed_header_is_invalid() {
    let raw = "<https://x.com>; rel=webmention garbage";
    match link_header(raw) {
        Err(WebmentionError::InvalidLinkHeader(s)) => assert_eq!(s, raw),
        other => panic!("unexpected {:?}", other),
    }
    assert!(link_header("<https://a>,<https://b>").is_err());
}

#[test]
fn empty_header_is_invalid() {
    assert!(matches!(link_header(""), Err(WebmentionError::InvalidLinkHeader(s)) if s.is_empty()));
    assert!(matches!(link_header("<https://x.com"), Err(WebmentionError::InvalidLinkHeader(s)) if s == "<https://x.com"));
}

#[test]
fn merged_headers_map_each_relation() {
    let headers = vec![
        "<https://x.com/pingback>; rel=\"pingback\", <https://x.com>; rel=\"webmention\"".to_string(),
    ];
    let rels = all_rels(&headers);
    assert_eq!(rels.get("webmention"), Some(vec!["https://x.com".to_string()]));
    assert_eq!(rels.get("pingback"), Some(vec!["https://x.com/pingback".to_string()]));
    assert_eq!(rels.get("stylesheet"), None);
}

#[test]
fn merging_skips_malformed_header_instances() {
    let headers = vec![
        "<https://a.com/1>; rel=webmention".to_string(),
        "this is not a link header".to_string(),
        "<https://a.com/2>; rel=\"webmention other\"".to_string(),
    ];
    let rels = all_rels(&headers);
    assert_eq!(
        rels.get("webmention"),
        Some(vec!["https://a.com/1".to_string(), "https://a.com/2".to_string()])
    );
    assert_eq!(rels.get("other"), Some(vec!["https://a.com/2".to_string()]));
}
