use vstd::prelude::*;

use crate::endpoint_discovery::{endpoint_of, response_endpoint};
use crate::error::WebmentionError;
use crate::html::content_links;
use crate::http_client::Response;
use crate::link_header::text_pairs;
use crate::webmention::{form_of, page_links_to, SendEvent, Webmention};
use crate::wm_url::Url;

verus! {

/// The URLs that `v` holds.
pub open spec fn url_texts(v: Seq<Url>) -> Seq<Seq<char>> {
    v.map_values(|u: Url| u@)
}

/// The content links of a fetched page.
pub open spec fn page_links(page: &Response) -> Seq<Seq<char>> {
    content_links(page.html.nodes_view(), page.html.source_view())
}

/// Whether `v` holds the URL `u`.
fn holds_url(v: &Vec<Url>, u: &Url) -> (r: bool)
    ensures
        r == url_texts(v@).contains(u@),
{
    let mut i: usize = 0;
    while i < v.len()
        invariant
            i <= v.len(),
            forall|j: int| 0 <= j < i ==> url_texts(v@)[j] != u@,
        decreases v.len() - i,
    {
        if v[i].same_as(u) {
            assert(url_texts(v@)[i as int] == u@);
            return true;
        }
        i = i + 1;
    }
    false
}

/// The distinct content links of the fetched source page, each once.
pub fn fetch_links(page: &Response) -> (r: Vec<Url>)
    ensures
        url_texts(r@).no_duplicates(),
        url_texts(r@).to_set() == page_links(page).to_set(),
{
    let links = page.html.find_links();
    let ghost all = url_texts(links@);
    let mut distinct: Vec<Url> = Vec::new();
    let mut i: usize = 0;
    while i < links.len()
        invariant
            i <= links.len(),
            all == url_texts(links@),
            all == page_links(page),
            url_texts(distinct@).no_duplicates(),
            url_texts(distinct@).to_set() == all.take(i as int).to_set(),
        decreases links.len() - i,
    {
        let ghost before = url_texts(distinct@);
        assert(all.take(i + 1) =~= all.take(i as int).push(all[i as int]));
        if !holds_url(&distinct, &links[i]) {
            distinct.push(links[i].clone());
            assert(url_texts(distinct@) =~= before.push(all[i as int]));
            proof {
                before.lemma_push_to_set_commute(all[i as int]);
            }
        } else {
            assert(before.to_set().contains(all[i as int]));
            assert(before.to_set() =~= before.to_set().insert(all[i as int]));
        }
        proof {
            all.take(i as int).lemma_push_to_set_commute(all[i as int]);
        }
        i = i + 1;
    }
    assert(all.take(i as int) =~= all);
    distinct
}

/// One webmention from `source` to each distinct content link of the fetched source
/// page, each marked as checked: the page is the source's own. Every one of them
/// is sent on its own, by a task of its own.
pub fn batch_mentions(source: &Url, page: &Response) -> (r: Vec<Webmention>)
    ensures
        r.len() == page_links(page).to_set().len(),
        r@.map_values(|m: Webmention| m.target_view()).no_duplicates(),
        r@.map_values(|m: Webmention| m.target_view()).to_set() == page_links(page).to_set(),
        forall|i: int|
            0 <= i < r.len() ==> (#[trigger] r@[i]).source_view() == source@ && r@[i].checked_view()
                == Some(true) && !r@[i].sent_view(),
{
    let links = fetch_links(page);
    let mut mentions: Vec<Webmention> = Vec::new();
    let mut i: usize = 0;
    while i < links.len()
        invariant
            i <= links.len(),
            mentions.len() == i,
            mentions@.map_values(|m: Webmention| m.target_view()) == url_texts(links@).take(
                i as int,
            ),
            forall|k: int|
                0 <= k < i ==> (#[trigger] mentions@[k]).source_view() == source@
                    && mentions@[k].checked_view() == Some(true) && !mentions@[k].sent_view(),
        decreases links.len() - i,
    {
        let mut mention = Webmention::from_urls(source.clone(), links[i].clone());
        mention.set_checked(true);
        let ghost before = mentions@.map_values(|m: Webmention| m.target_view());
        mentions.push(mention);
        assert(mentions@.map_values(|m: Webmention| m.target_view()) =~= before.push(
            url_texts(links@)[i as int],
        ));
        assert(url_texts(links@).take(i + 1) =~= url_texts(links@).take(i as int).push(
            url_texts(links@)[i as int],
        ));
        i = i + 1;
    }
    assert(url_texts(links@).take(i as int) =~= url_texts(links@));
    proof {
        url_texts(links@).unique_seq_to_set();
    }
    mentions
}

/// What a strict send attempt asks for next.
#[derive(Debug)]
pub enum StrictStep {
    /// Fetch this page: the source first, to check it, then the target.
    Fetch(Url),
    /// POST the form to the endpoint.
    Post { endpoint: Url, form: Vec<(String, String)> },
    /// The attempt is over: whether the endpoint accepted the webmention, or the
    /// error that ended it.
    Finished(Result<bool, WebmentionError>),
}

/// Advances a strict send attempt of `mention` by one event: like
/// `Webmention::send`, but a failed fetch of the source is handed back, a source
/// that does not link to the target gives `false`, a target without endpoint
/// fails with `NoEndpointDiscovered`, and any failure of the POST is handed back.
pub fn send_webmention(mention: &mut Webmention, event: SendEvent) -> (r: StrictStep)
    ensures
        final(mention).source_view() == old(mention).source_view(),
        final(mention).target_view() == old(mention).target_view(),
        match event {
            SendEvent::Begin => final(mention).checked_view() == old(mention).checked_view()
                && final(mention).sent_view() == old(mention).sent_view() && match old(mention).checked_view() {
                None => r matches StrictStep::Fetch(u) && u@ == old(mention).source_view(),
                Some(true) => r matches StrictStep::Fetch(u) && u@ == old(mention).target_view(),
                Some(false) => r matches StrictStep::Finished(Ok(false)),
            },
            SendEvent::Fetched(fetched) => final(mention).sent_view() == old(mention).sent_view()
                && match old(mention).checked_view() {
                None => match fetched {
                    Ok(page) => final(mention).checked_view() == Some(
                        page_links_to(&page, old(mention).target_view()),
                    ) && if page_links_to(&page, old(mention).target_view()) {
                        r matches StrictStep::Fetch(u) && u@ == old(mention).target_view()
                    } else {
                        r matches StrictStep::Finished(Ok(false))
                    },
                    Err(err) => final(mention).checked_view() is None && (r matches StrictStep::Finished(
                        Err(e),
                    ) && e == err),
                },
                Some(false) => final(mention).checked_view() == Some(false) && r matches StrictStep::Finished(
                    Ok(false),
                ),
                Some(true) => final(mention).checked_view() == Some(true) && match fetched {
                    Ok(page) => match response_endpoint(&page) {
                        Some(e) => r matches StrictStep::Post { endpoint, form } && endpoint@ == e
                            && text_pairs(form@) == form_of(
                            old(mention).source_view(),
                            old(mention).target_view(),
                        ),
                        None => r matches StrictStep::Finished(
                            Err(WebmentionError::NoEndpointDiscovered(u)),
                        ) && u@ == old(mention).target_view(),
                    },
                    Err(err) => r matches StrictStep::Finished(
                        Err(WebmentionError::DiscoveryRequestFailed { url, source }),
                    ) && url@ == old(mention).target_view() && *source == err,
                },
            },
            SendEvent::Posted(posted) => final(mention).sent_view() && final(mention).checked_view()
                == old(mention).checked_view() && (r matches StrictStep::Finished(p) && p
                == posted),
        },
{
    match event {
        SendEvent::Begin => match mention.checked() {
            None => StrictStep::Fetch(mention.source().clone()),
            Some(true) => StrictStep::Fetch(mention.target().clone()),
            Some(false) => StrictStep::Finished(Ok(false)),
        },
        SendEvent::Fetched(fetched) => match mention.checked() {
            None => match fetched {
                Ok(page) => {
                    let valid = page.html.contains(mention.target()).is_ok();
                    mention.set_checked(valid);
                    if valid {
                        StrictStep::Fetch(mention.target().clone())
                    } else {
                        StrictStep::Finished(Ok(false))
                    }
                },
                Err(err) => StrictStep::Finished(Err(err)),
            },
            Some(false) => StrictStep::Finished(Ok(false)),
            Some(true) => match fetched {
                Ok(page) => match endpoint_of(&page) {
                    Some(endpoint) => StrictStep::Post { endpoint, form: mention.form() },
                    None => StrictStep::Finished(
                        Err(WebmentionError::NoEndpointDiscovered(mention.target().clone())),
                    ),
                },
                Err(err) => StrictStep::Finished(
                    Err(
                        WebmentionError::DiscoveryRequestFailed {
                            url: mention.target().clone(),
                            source: Box::new(err),
                        },
                    ),
                ),
            },
        },
        SendEvent::Posted(posted) => {
            mention.mark_sent();
            StrictStep::Finished(posted)
        },
    }
}

} // verus!
