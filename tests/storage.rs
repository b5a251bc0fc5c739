use webmention::http_client::Response;
use webmention::storage::{InMemoryWebmentionStorage, WebmentionStorage};
use webmention::{receive_webmention, Url, Webmention, WebmentionError};

fn mention(source: &str, target: &str) -> Webmention {
    Webmention::new(source, target).unwrap()
}

struct FailingStorage;

// A backend that always fails; its view of what is kept is only used by proofs.
impl WebmentionStorage for FailingStorage {
    fn kept(&self) -> vstd::seq::Seq<Webmention> {
        unreachable!()
    }

    fn store(&mut self, _webmention: Webmention) -> Result<(), WebmentionError> {
        Err(WebmentionError::NoDocumentLinks)
    }

    fn lookup_by_target(&self, _target: &Url) -> Result<Vec<Webmention>, WebmentionError> {
        Ok(Vec::new())
    }
}

fn source_page(body: &str) -> Response {
    Response::new(Url::parse("https://src.org/post").unwrap(), body.to_string(), &Vec::new())
}

#[test]
fn store_then_lookup_by_target() {
    let mut storage = InMemoryWebmentionStorage::new();
    storage.store(mention("https://a.org/1", "https://t.org/x")).unwrap();
    storage.store(mention("https://a.org/2", "https://t.org/y")).unwrap();
    storage.store(mention("https://a.org/3", "https://t.org/x")).unwrap();
    let found = storage.lookup_by_target(&Url::parse("https://t.org/x").unwrap()).unwrap();
    let sources: Vec<&str> = found.iter().map(|m| m.source.as_str()).collect();
    assert_eq!(sources, vec!["https://a.org/1", "https://a.org/3"]);
    let none = storage.lookup_by_target(&Url::parse("https://t.org/z").unwrap()).unwrap();
    assert!(none.is_empty());
}

#[test]
fn new_storage_is_empty() {
    let storage = InMemoryWebmentionStorage::new();
    assert!(storage.lookup_by_target(&Url::parse("https://t.org/x").unwrap()).unwrap().is_empty());
}

#[test]
fn receive_stores_confirmed_mentions() {
    let mut storage = InMemoryWebmentionStorage::new();
    let source = Url::parse("https://src.org/post").unwrap();
    let target = Url::parse("https://t.org/x").unwrap();
    let page = source_page("<p><a href=\"https://t.org/x\">t</a></p>");
    assert_eq!(receive_webmention(&mut storage, &source, &target, Ok(page)).unwrap(), true);
    let kept = storage.lookup_by_target(&target).unwrap();
    assert_eq!(kept.len(), 1);
    assert_eq!(kept[0].source, source);
}

#[test]
fn receive_refuses_unconfirmed_mentions() {
    let mut storage = InMemoryWebmentionStorage::new();
    let source = Url::parse("https://src.org/post").unwrap();
    let target = Url::parse("https://t.org/x").unwrap();
    let page = source_page("<p><a href=\"https://t.org/other\">t</a></p>");
    assert_eq!(receive_webmention(&mut storage, &source, &target, Ok(page)).unwrap(), false);
    assert!(storage.lookup_by_target(&target).unwrap().is_empty());
}

#[test]
fn receive_reports_storage_failure() {
    let mut storage = FailingStorage;
    let source = Url::parse("https://src.org/post").unwrap();
    let target = Url::parse("https://t.org/x").unwrap();
    let page = source_page("<p><a href=\"https://t.org/x\">t</a></p>");
    assert!(matches!(
        receive_webmention(&mut storage, &source, &target, Ok(page)),
        Err(WebmentionError::StorageError { .. })
    ));
}

#[test]
fn receive_hands_back_fetch_failure() {
    let mut storage = InMemoryWebmentionStorage::new();
    let source = Url::parse("https://src.org/post").unwrap();
    let target = Url::parse("https://t.org/x").unwrap();
    let err = WebmentionError::RequestFailedRecv { url: source.clone(), reason: "cut".to_string() };
    assert!(matches!(
        receive_webmention(&mut storage, &source, &target, Err(err)),
        Err(WebmentionError::RequestFailedRecv { .. })
    ));
}

#[test]
fn receive_keeps_a_fresh_mention() {
    let mut storage = InMemoryWebmentionStorage::new();
    storage.store(mention("https://a.org/1", "https://t.org/x")).unwrap();
    let source = Url::parse("https://src.org/post").unwrap();
    let target = Url::parse("https://t.org/x").unwrap();
    let page = source_page("<p><a href=\"https://t.org/x\">t</a></p>");
    assert!(receive_webmention(&mut storage, &source, &target, Ok(page)).unwrap());
    let kept = storage.lookup_by_target(&target).unwrap();
    assert_eq!(kept.len(), 2);
    assert_eq!(kept[1].source, source);
    assert_eq!(kept[1].target, target);
    assert_eq!(kept[1].checked(), None);
    assert!(!kept[1].sent());
}
