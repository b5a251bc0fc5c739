use vstd::prelude::*;

use crate::error::WebmentionError;
use crate::http_client::Response;
use crate::webmention::{page_links_to, Webmention};

verus! {

/// Whether the source page fetched for `mention` links to exactly its target; a
/// failed fetch is handed back.
pub fn check_webmention(mention: &Webmention, fetched: Result<Response, WebmentionError>) -> (r:
    Result<bool, WebmentionError>)
    ensures
        match fetched {
            Ok(page) => r == Ok::<bool, WebmentionError>(
                page_links_to(&page, mention.target_view()),
            ),
            Err(e) => r == Err::<bool, WebmentionError>(e),
        },
{
    match fetched {
        Ok(page) => Ok(page.html.contains(mention.target()).is_ok()),
        Err(e) => Err(e),
    }
}

} // verus!
