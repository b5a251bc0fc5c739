use vstd::prelude::*;

use crate::endpoint_discovery::{endpoint_of, response_endpoint};
use crate::error::WebmentionError;
use crate::html::links_to;
use crate::http_client::Response;
use crate::wm_url::{url_parse, Url};

verus! {

/// A notification that `source` links to `target`, with whether the source was
/// checked to hold that link and whether the notification was posted.
#[derive(Debug)]
pub struct Webmention {
    pub source: Url,
    pub target: Url,
    checked: Option<bool>,
    sent: bool,
}

/// The outcome of an attempt to send a webmention that met no hard error.
#[derive(Debug, Clone, Copy, PartialEq, Eq, Structural)]
pub enum WebmentionAcceptance {
    /// The target advertises no endpoint.
    NoTargetEndpoint,
    /// The source does not link to the target.
    NotValid,
    /// The endpoint did not accept the webmention.
    NotAccepted,
    /// The endpoint accepted the webmention.
    Accepted,
}

/// What a send attempt hands back to the one who runs it.
#[derive(Debug)]
pub enum SendEvent {
    /// The attempt starts.
    Begin,
    /// The page asked for by the last step was fetched, or its fetch failed.
    Fetched(Result<Response, WebmentionError>),
    /// The POST asked for by the last step was answered (see `post_outcome`), or
    /// could not be sent.
    Posted(Result<bool, WebmentionError>),
}

/// What a send attempt asks for next.
#[derive(Debug)]
pub enum SendStep {
    /// Fetch the source page, to check that it links to the target.
    FetchSource(Url),
    /// Fetch the target page, to discover its endpoint.
    FetchTarget(Url),
    /// POST the form to the endpoint.
    Post { endpoint: Url, form: Vec<(String, String)> },
    /// The attempt is over.
    Finished(Result<WebmentionAcceptance, WebmentionError>),
}

/// Whether the fetched page links to exactly `target`.
pub open spec fn page_links_to(page: &Response, target: Seq<char>) -> bool {
    links_to(page.html.nodes_view(), target)
}

/// The form fields of a webmention from `source` to `target`.
pub open spec fn form_of(source: Seq<char>, target: Seq<char>) -> Seq<(Seq<char>, Seq<char>)> {
    seq![
        (seq!['s', 'o', 'u', 'r', 'c', 'e'], source),
        (seq!['t', 'a', 'r', 'g', 'e', 't'], target),
    ]
}

impl Clone for Webmention {
    fn clone(&self) -> (r: Self)
        ensures
            r == *self,
    {
        Webmention {
            source: self.source.clone(),
            target: self.target.clone(),
            checked: self.checked,
            sent: self.sent,
        }
    }
}

impl From<(Url, Url)> for Webmention {
    /// A webmention from the first URL to the second, neither checked nor sent.
    fn from(pair: (Url, Url)) -> (r: Webmention) {
        Webmention { source: pair.0, target: pair.1, checked: None, sent: false }
    }
}

impl vstd::std_specs::convert::FromSpecImpl<(Url, Url)> for Webmention {
    open spec fn obeys_from_spec() -> bool {
        true
    }

    closed spec fn from_spec(pair: (Url, Url)) -> Webmention {
        Webmention { source: pair.0, target: pair.1, checked: None, sent: false }
    }
}

impl<'a> From<(&'a Url, &'a Url)> for Webmention {
    /// A webmention from the first URL to the second, neither checked nor sent.
    fn from(pair: (&'a Url, &'a Url)) -> (r: Webmention) {
        Webmention { source: pair.0.clone(), target: pair.1.clone(), checked: None, sent: false }
    }
}

impl<'a> vstd::std_specs::convert::FromSpecImpl<(&'a Url, &'a Url)> for Webmention {
    open spec fn obeys_from_spec() -> bool {
        true
    }

    closed spec fn from_spec(pair: (&'a Url, &'a Url)) -> Webmention {
        Webmention { source: *pair.0, target: *pair.1, checked: None, sent: false }
    }
}

impl Webmention {
    /// The source URL.
    pub closed spec fn source_view(&self) -> Seq<char> {
        self.source@
    }

    /// The target URL.
    pub closed spec fn target_view(&self) -> Seq<char> {
        self.target@
    }

    /// Whether the source was checked to link to the target, if it was checked.
    pub closed spec fn checked_view(&self) -> Option<bool> {
        self.checked
    }

    /// Whether the webmention was posted.
    pub closed spec fn sent_view(&self) -> bool {
        self.sent
    }

    /// A webmention from `source` to `target`, neither checked nor sent.
    pub fn from_urls(source: Url, target: Url) -> (r: Webmention)
        ensures
            r.source_view() == source@,
            r.target_view() == target@,
            r.checked_view() is None,
            !r.sent_view(),
    {
        Webmention { source, target, checked: None, sent: false }
    }

    /// A webmention from the URL `source` to the URL `target`, neither checked nor
    /// sent; fails with `UnparseableUrl` for the first of the two that does not
    /// parse.
    pub fn new(source: &str, target: &str) -> (r: Result<Webmention, WebmentionError>)
        ensures
            match (url_parse(source@), url_parse(target@)) {
                (Some(s), Some(t)) => r matches Ok(w) && w.source_view() == s && w.target_view() == t
                    && w.checked_view() is None && !w.sent_view(),
                (None, _) => r matches Err(WebmentionError::UnparseableUrl { input }) && input@
                    == source@,
                (Some(_), None) => r matches Err(WebmentionError::UnparseableUrl { input })
                    && input@ == target@,
            },
    {
        let source_url = match Url::parse(source) {
            Ok(u) => u,
            Err(e) => {
                return Err(e);
            },
        };
        let target_url = match Url::parse(target) {
            Ok(u) => u,
            Err(e) => {
                return Err(e);
            },
        };
        Ok(Webmention::from_urls(source_url, target_url))
    }

    /// The source URL.
    pub fn source(&self) -> (r: &Url)
        ensures
            r@ == self.source_view(),
    {
        &self.source
    }

    /// The target URL.
    pub fn target(&self) -> (r: &Url)
        ensures
            r@ == self.target_view(),
    {
        &self.target
    }

    /// Whether the source was checked to link to the target, if it was checked.
    pub fn checked(&self) -> (r: Option<bool>)
        ensures
            r == self.checked_view(),
    {
        self.checked
    }

    /// Whether the webmention was posted.
    pub fn sent(&self) -> (r: bool)
        ensures
            r == self.sent_view(),
    {
        self.sent
    }

    /// Records the outcome of the link check without running it: `true` skips the
    /// check, for a source already known to link to the target.
    pub fn set_checked(&mut self, checked: bool)
        ensures
            final(self).checked_view() == Some(checked),
            final(self).source_view() == old(self).source_view(),
            final(self).target_view() == old(self).target_view(),
            final(self).sent_view() == old(self).sent_view(),
    {
        self.checked = Some(checked);
    }

    /// Records that the webmention was posted.
    pub fn mark_sent(&mut self)
        ensures
            final(self).sent_view(),
            final(self).source_view() == old(self).source_view(),
            final(self).target_view() == old(self).target_view(),
            final(self).checked_view() == old(self).checked_view(),
    {
        self.sent = true;
    }

    /// The form fields that a webmention POST carries: `source` and `target`.
    pub fn form(&self) -> (r: Vec<(String, String)>)
        ensures
            crate::link_header::text_pairs(r@) == form_of(self.source_view(), self.target_view()),
    {
        let source_key = crate::text::string_of(vec!['s', 'o', 'u', 'r', 'c', 'e'].as_slice());
        let target_key = crate::text::string_of(vec!['t', 'a', 'r', 'g', 'e', 't'].as_slice());
        let r = vec![
            (source_key, self.source.as_str().to_string()),
            (target_key, self.target.as_str().to_string()),
        ];
        assert(crate::link_header::text_pairs(r@) =~= form_of(self.source_view(), self.target_view()));
        r
    }

    /// Checks, on the source page fetched for it, that the source links to exactly
    /// the target, and records the outcome. A failed fetch counts as no link and
    /// is handed back.
    pub fn check(&mut self, fetched: Result<Response, WebmentionError>) -> (r: Result<
        (),
        WebmentionError,
    >)
        ensures
            final(self).source_view() == old(self).source_view(),
            final(self).target_view() == old(self).target_view(),
            final(self).sent_view() == old(self).sent_view(),
            match fetched {
                Ok(page) => if page_links_to(&page, old(self).target_view()) {
                    r is Ok && final(self).checked_view() == Some(true)
                } else {
                    r matches Err(WebmentionError::NoDocumentLinks) && final(self).checked_view()
                        == Some(false)
                },
                Err(e) => r == Err::<(), WebmentionError>(e) && final(self).checked_view() == Some(
                    false,
                ),
            },
    {
        match fetched {
            Ok(page) => {
                let found = page.html.contains(&self.target);
                self.checked = Some(found.is_ok());
                found
            },
            Err(e) => {
                self.checked = Some(false);
                Err(e)
            },
        }
    }

    /// Advances a send attempt by one event and says what to do next.
    ///
    /// The attempt checks the source unless the outcome of that check is already
    /// recorded, then discovers the target's endpoint, then posts the form to it:
    /// `Begin` asks for the source page, or for the target page where the source
    /// is known to link to the target. A source that does not link to the target
    /// ends the attempt with `NotValid` before the target is fetched. A target
    /// without endpoint ends it with `NoTargetEndpoint`; a failed fetch of the
    /// target with `DiscoveryRequestFailed`. The answer to the POST ends it with
    /// `Accepted` or `NotAccepted`, and marks the webmention as sent.
    pub fn send(&mut self, event: SendEvent) -> (r: SendStep)
        ensures
            final(self).source_view() == old(self).source_view(),
            final(self).target_view() == old(self).target_view(),
            match event {
                SendEvent::Begin => final(self).checked_view() == old(self).checked_view()
                    && final(self).sent_view() == old(self).sent_view() && match old(self).checked_view() {
                    None => r matches SendStep::FetchSource(u) && u@ == old(self).source_view(),
                    Some(true) => r matches SendStep::FetchTarget(u) && u@ == old(self).target_view(),
                    Some(false) => r matches SendStep::Finished(
                        Ok(WebmentionAcceptance::NotValid),
                    ),
                },
                SendEvent::Fetched(fetched) => final(self).sent_view() == old(self).sent_view()
                    && match old(self).checked_view() {
                    None => {
                        let valid = fetched matches Ok(page) && page_links_to(
                            &page,
                            old(self).target_view(),
                        );
                        &&& final(self).checked_view() == Some(valid)
                        &&& valid ==> (r matches SendStep::FetchTarget(u) && u@ == old(self).target_view())
                        &&& !valid ==> r matches SendStep::Finished(
                            Ok(WebmentionAcceptance::NotValid),
                        )
                    },
                    Some(false) => final(self).checked_view() == Some(false) && r matches SendStep::Finished(
                        Ok(WebmentionAcceptance::NotValid),
                    ),
                    Some(true) => final(self).checked_view() == Some(true) && match fetched {
                        Ok(page) => match response_endpoint(&page) {
                            Some(e) => r matches SendStep::Post { endpoint, form }
                                && endpoint@ == e && crate::link_header::text_pairs(form@)
                                == form_of(old(self).source_view(), old(self).target_view()),
                            None => r matches SendStep::Finished(
                                Ok(WebmentionAcceptance::NoTargetEndpoint),
                            ),
                        },
                        Err(err) => r matches SendStep::Finished(
                            Err(WebmentionError::DiscoveryRequestFailed { url, source }),
                        ) && url@ == old(self).target_view() && *source == err,
                    },
                },
                SendEvent::Posted(posted) => final(self).sent_view() && final(self).checked_view()
                    == old(self).checked_view() && match posted {
                    Ok(true) => r matches SendStep::Finished(Ok(WebmentionAcceptance::Accepted)),
                    Ok(false) => r matches SendStep::Finished(
                        Ok(WebmentionAcceptance::NotAccepted),
                    ),
                    Err(WebmentionError::NotAccepted { .. }) => r matches SendStep::Finished(
                        Ok(WebmentionAcceptance::NotAccepted),
                    ),
                    Err(err) => r matches SendStep::Finished(Err(e)) && e == err,
                },
            },
    {
        match event {
            SendEvent::Begin => match self.checked {
                None => SendStep::FetchSource(self.source.clone()),
                Some(true) => SendStep::FetchTarget(self.target.clone()),
                Some(false) => SendStep::Finished(Ok(WebmentionAcceptance::NotValid)),
            },
            SendEvent::Fetched(fetched) => match self.checked {
                None => {
                    let _ = self.check(fetched);
                    if self.checked == Some(true) {
                        SendStep::FetchTarget(self.target.clone())
                    } else {
                        SendStep::Finished(Ok(WebmentionAcceptance::NotValid))
                    }
                },
                Some(false) => SendStep::Finished(Ok(WebmentionAcceptance::NotValid)),
                Some(true) => match fetched {
                    Ok(page) => match endpoint_of(&page) {
                        Some(endpoint) => SendStep::Post { endpoint, form: self.form() },
                        None => SendStep::Finished(Ok(WebmentionAcceptance::NoTargetEndpoint)),
                    },
                    Err(err) => SendStep::Finished(
                        Err(
                            WebmentionError::DiscoveryRequestFailed {
                                url: self.target.clone(),
                                source: Box::new(err),
                            },
                        ),
                    ),
                },
            },
            SendEvent::Posted(posted) => {
                self.sent = true;
                match posted {
                    Ok(true) => SendStep::Finished(Ok(WebmentionAcceptance::Accepted)),
                    Ok(false) => SendStep::Finished(Ok(WebmentionAcceptance::NotAccepted)),
                    Err(WebmentionError::NotAccepted { .. }) => SendStep::Finished(
                        Ok(WebmentionAcceptance::NotAccepted),
                    ),
                    Err(err) => SendStep::Finished(Err(err)),
                }
            },
        }
    }
}

} // verus!
