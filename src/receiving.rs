use vstd::prelude::*;

use crate::error::WebmentionError;
use crate::http_client::Response;
use crate::storage::WebmentionStorage;
use crate::webmention::{page_links_to, Webmention};
use crate::wm_url::Url;

verus! {

/// Takes in a webmention from `source` to `target`, given the source page fetched
/// for it: where the page links to exactly `target`, a new, unchecked and unsent
/// webmention from `source` to `target` is handed to the storage, and the result
/// is `true` once it is kept; where it does not, nothing is stored and the result
/// is `false`. A failed fetch is handed back; a storage failure comes back as
/// `StorageError`, with the storage left as it was.
pub fn receive_webmention<S: WebmentionStorage>(
    storage: &mut S,
    source: &Url,
    target: &Url,
    fetched: Result<Response, WebmentionError>,
) -> (r: Result<bool, WebmentionError>)
    ensures
        match fetched {
            Ok(page) => if page_links_to(&page, target@) {
                match r {
                    Ok(kept) => {
                        &&& kept
                        &&& final(storage).kept().len() == old(storage).kept().len() + 1
                        &&& final(storage).kept().drop_last() == old(storage).kept()
                        &&& final(storage).kept().last().source_view() == source@
                        &&& final(storage).kept().last().target_view() == target@
                        &&& final(storage).kept().last().checked_view() is None
                        &&& !final(storage).kept().last().sent_view()
                    },
                    Err(e) => (e matches WebmentionError::StorageError { .. }) && final(storage).kept()
                        == old(storage).kept(),
                }
            } else {
                r == Ok::<bool, WebmentionError>(false) && *final(storage) == *old(storage)
            },
            Err(e) => r == Err::<bool, WebmentionError>(e) && *final(storage) == *old(storage),
        },
{
    let mention = Webmention::from_urls(source.clone(), target.clone());
    match fetched {
        Ok(page) => {
            if page.html.contains(target).is_ok() {
                match storage.store(mention) {
                    Ok(()) => Ok(true),
                    Err(e) => Err(WebmentionError::StorageError { source: Box::new(e) }),
                }
            } else {
                Ok(false)
            }
        },
        Err(e) => Err(e),
    }
}

} // verus!
