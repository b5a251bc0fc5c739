use vstd::prelude::*;

use crate::error::WebmentionError;
use crate::html::{html_nodes, HTML};
use crate::link_header::{all_rels, header_pairs, RelMap};
use crate::text::texts;
use crate::wm_url::{absolute_url, resolved, Url};

verus! {

/// The most redirects that one GET follows.
pub const MAX_REDIRECTS: usize = 20;

/// A fetched page: the URL it was finally fetched from, its document, and the
/// relations that its `Link` headers advertise.
#[derive(Debug)]
pub struct Response {
    pub url: Url,
    pub html: HTML,
    pub rels: RelMap,
}

impl Response {
    /// Whether the document is the parse of its text, fetched from the response's
    /// URL.
    pub open spec fn wf(&self) -> bool {
        self.html.wf() && self.html.source_view() == self.url@
    }

    /// The response fetched from `url` with the body `body` and the `Link` header
    /// values `link_headers`.
    pub fn new(url: Url, body: String, link_headers: &Vec<String>) -> (r: Response)
        ensures
            r.wf(),
            r.url@ == url@,
            r.html.source_view() == url@,
            r.html.nodes_view() == html_nodes(body@),
            r.rels@ == header_pairs(texts(link_headers@)),
    {
        let rels = all_rels(link_headers);
        let html = HTML::new(url.clone(), body);
        Response { url, html, rels }
    }
}

/// Whether `status` is a redirect that the transport follows.
pub open spec fn is_redirect(status: u16) -> bool {
    status == 301 || status == 302 || status == 303 || status == 307 || status == 308
}

/// Whether `status` is one by which an endpoint accepts a webmention.
pub open spec fn is_acceptance(status: u16) -> bool {
    status == 200 || status == 201 || status == 202
}

/// What one response does to a GET: its status and its `Location` header, if any,
/// seen from the URL it answers and the number of redirects followed so far.
pub enum Hop {
    /// A redirect to this URL is followed.
    Follow(Seq<char>),
    /// The response is the final one.
    Final,
    /// A redirect beyond the cap.
    TooMany,
    /// A redirect whose location does not resolve.
    Unresolvable,
}

/// The rule of one response: a redirect status with a location is followed, to the
/// location resolved against the current URL, while fewer than `MAX_REDIRECTS`
/// redirects were followed; any other response is final.
pub open spec fn hop(current: Seq<char>, followed: nat, status: u16, location: Option<Seq<char>>) -> Hop {
    if is_redirect(status) && location is Some {
        if followed >= MAX_REDIRECTS {
            Hop::TooMany
        } else {
            match resolved(location->Some_0, current) {
                Some(u) => Hop::Follow(u),
                None => Hop::Unresolvable,
            }
        }
    } else {
        Hop::Final
    }
}

/// Where a GET stands after a sequence of responses.
pub enum ChainEnd {
    /// Every response was a followed redirect; this URL is to be fetched next.
    Pending(Seq<char>),
    /// The final response came from this URL.
    Final(Seq<char>),
    /// A redirect beyond the cap.
    TooMany,
    /// A redirect whose location does not resolve.
    Unresolvable,
}

/// Where a GET that stands at `current`, after `followed` redirects, stands after
/// the responses `rs` (status and location), taken one by one by the rule of
/// `hop`. Responses after the end of the GET are not read.
pub open spec fn run(current: Seq<char>, followed: nat, rs: Seq<(u16, Option<Seq<char>>)>) -> ChainEnd
    decreases rs.len(),
{
    if rs.len() == 0 {
        ChainEnd::Pending(current)
    } else {
        match hop(current, followed, rs[0].0, rs[0].1) {
            Hop::Follow(u) => run(u, followed + 1, rs.drop_first()),
            Hop::Final => ChainEnd::Final(current),
            Hop::TooMany => ChainEnd::TooMany,
            Hop::Unresolvable => ChainEnd::Unresolvable,
        }
    }
}

proof fn lemma_run_append(
    current: Seq<char>,
    followed: nat,
    a: Seq<(u16, Option<Seq<char>>)>,
    b: Seq<(u16, Option<Seq<char>>)>,
)
    ensures
        run(current, followed, a) matches ChainEnd::Pending(c) ==> run(current, followed, a + b)
            == run(c, followed + a.len(), b),
    decreases a.len(),
{
    if a.len() > 0 {
        assert((a + b)[0] == a[0]);
        assert((a + b).drop_first() =~= a.drop_first() + b);
        if let Hop::Follow(u) = hop(current, followed, a[0].0, a[0].1) {
            lemma_run_append(u, followed + 1, a.drop_first(), b);
        }
    } else {
        assert(a + b =~= b);
    }
}

/// A GET whose first twenty responses are followed redirects fails with
/// `TooManyRedirects` at a twenty-first redirect.
pub proof fn lemma_twenty_first_redirect_fails(start: Seq<char>, rs: Seq<(u16, Option<Seq<char>>)>)
    requires
        rs.len() == MAX_REDIRECTS + 1,
        run(start, 0, rs.take(MAX_REDIRECTS as int)) is Pending,
        is_redirect(rs[MAX_REDIRECTS as int].0),
        rs[MAX_REDIRECTS as int].1 is Some,
    ensures
        run(start, 0, rs) == ChainEnd::TooMany,
{
    let n = MAX_REDIRECTS as int;
    assert(rs =~= rs.take(n) + seq![rs[n]]);
    lemma_run_append(start, 0, rs.take(n), seq![rs[n]]);
    let c = run(start, 0, rs.take(n))->Pending_0;
    assert(seq![rs[n]].drop_first().len() == 0);
    assert(run(c, 0 + n as nat, seq![rs[n]]) == ChainEnd::TooMany);
}

/// A GET whose first responses are followed redirects, fewer than the cap, ends at
/// the first response that is no redirect, with the URL that the last redirect led
/// to as its final URL.
pub proof fn lemma_redirects_then_final(start: Seq<char>, rs: Seq<(u16, Option<Seq<char>>)>)
    requires
        rs.len() >= 1,
        run(start, 0, rs.drop_last()) is Pending,
        !is_redirect(rs.last().0),
    ensures
        run(start, 0, rs) == ChainEnd::Final(run(start, 0, rs.drop_last())->Pending_0),
{
    let k = rs.len() - 1;
    assert(rs =~= rs.drop_last() + seq![rs.last()]);
    lemma_run_append(start, 0, rs.drop_last(), seq![rs.last()]);
    let c = run(start, 0, rs.drop_last())->Pending_0;
    assert(seq![rs.last()][0] == rs.last());
    assert(run(c, 0 + k as nat, seq![rs.last()]) == ChainEnd::Final(c));
}

/// The redirects of one GET: the URL first asked for, the URL to ask next, and how
/// many redirects were followed.
#[derive(Debug)]
pub struct Redirects {
    requested: Url,
    current: Url,
    followed: usize,
}

impl Redirects {
    /// The URL first asked for.
    pub closed spec fn requested_view(&self) -> Seq<char> {
        self.requested@
    }

    /// The URL to ask next.
    pub closed spec fn current_view(&self) -> Seq<char> {
        self.current@
    }

    /// How many redirects were followed.
    pub closed spec fn followed_view(&self) -> nat {
        self.followed as nat
    }

    /// Whether the chain holds: no more redirects than the cap were followed.
    pub closed spec fn wf(&self) -> bool {
        self.followed <= MAX_REDIRECTS
    }

    /// A GET of `url` that has not been sent yet.
    pub fn start(url: &Url) -> (r: Redirects)
        ensures
            r.wf(),
            r.requested_view() == url@,
            r.current_view() == url@,
            r.followed_view() == 0,
    {
        Redirects { requested: url.clone(), current: url.clone(), followed: 0 }
    }

    /// The URL to fetch next; after the final response, the URL it came from.
    pub fn current(&self) -> (r: &Url)
        ensures
            r@ == self.current_view(),
    {
        &self.current
    }

    /// How many redirects were followed.
    pub fn followed(&self) -> (r: usize)
        ensures
            r == self.followed_view(),
    {
        self.followed
    }

    /// Takes in the status and the `Location` header of the response to a GET of
    /// `current()`. `Ok(true)`: a redirect was followed and `current()` is to be
    /// fetched. `Ok(false)`: this response is the final one. A redirect beyond
    /// the cap fails with `TooManyRedirects` for the URL first asked for; a
    /// location that does not resolve against the current URL fails with
    /// `UnparseableUrl`.
    pub fn on_response(&mut self, status: u16, location: Option<&str>) -> (r: Result<
        bool,
        WebmentionError,
    >)
        ensures
            old(self).wf() ==> final(self).wf(),
            final(self).requested_view() == old(self).requested_view(),
            match hop(
                old(self).current_view(),
                old(self).followed_view(),
                status,
                match location {
                    Some(l) => Some(l@),
                    None => None,
                },
            ) {
                Hop::Follow(u) => r == Ok::<bool, WebmentionError>(true)
                    && final(self).current_view() == u && final(self).followed_view() == old(
                    self).followed_view() + 1,
                Hop::Final => r == Ok::<bool, WebmentionError>(false) && final(self).current_view()
                    == old(self).current_view() && final(self).followed_view() == old(
                    self).followed_view(),
                Hop::TooMany => r matches Err(WebmentionError::TooManyRedirects { url }) && url@
                    == old(self).requested_view(),
                Hop::Unresolvable => r matches Err(WebmentionError::UnparseableUrl { input })
                    && input@ == location->Some_0@,
            },
    {
        let redirect = status == 301 || status == 302 || status == 303 || status == 307 || status
            == 308;
        match location {
            Some(l) => {
                if !redirect {
                    return Ok(false);
                }
                if self.followed >= MAX_REDIRECTS {
                    return Err(WebmentionError::TooManyRedirects { url: self.requested.clone() });
                }
                match absolute_url(l, &self.current) {
                    Ok(next) => {
                        self.current = next;
                        self.followed = self.followed + 1;
                        Ok(true)
                    },
                    Err(e) => Err(e),
                }
            },
            None => Ok(false),
        }
    }
}

/// What the status of the answer to a webmention POST to `endpoint` means: `true`
/// for 200, 201 and 202, any other status fails with `NotAccepted`.
pub fn post_outcome(endpoint: &Url, status: u16) -> (r: Result<bool, WebmentionError>)
    ensures
        is_acceptance(status) ==> r == Ok::<bool, WebmentionError>(true),
        !is_acceptance(status) ==> (r matches Err(
            WebmentionError::NotAccepted { endpoint: e, status_code },
        ) && e@ == endpoint@ && status_code == status),
{
    if status == 200 || status == 201 || status == 202 {
        Ok(true)
    } else {
        Err(
            WebmentionError::NotAccepted {
                endpoint: endpoint.as_str().to_string(),
                status_code: status,
            },
        )
    }
}

} // verus!
