use vstd::prelude::*;

use crate::error::WebmentionError;
use crate::html::{first_rel, first_rel_from, first_rel_node, has_rel, is_named, webmention_word, NodeView};
use crate::http_client::Response;
use crate::link_header::uris_for;
use crate::text::texts;
use crate::wm_url::{absolute_url, resolved, Url};

verus! {

/// The endpoint that the `Link` headers advertise: the first URI reference with the
/// relation `webmention`, resolved against the page's URL.
pub open spec fn header_candidate(url: Seq<char>, rels: Seq<(Seq<char>, Seq<char>)>) -> Option<
    Seq<char>,
> {
    let uris = uris_for(rels, webmention_word());
    if uris.len() > 0 {
        resolved(uris[0], url)
    } else {
        None
    }
}

/// The endpoint that the first element named `name` with the relation `webmention`
/// advertises, keyed by that element's index: its `href` resolved against the
/// page's URL.
pub open spec fn html_candidate(url: Seq<char>, nodes: Seq<NodeView>, name: Seq<char>) -> Option<
    (int, Seq<char>),
> {
    match first_rel(nodes, name) {
        Some(i) => match nodes[i].href {
            Some(h) => match resolved(h, url) {
                Some(u) => Some((i, u)),
                None => None,
            },
            None => None,
        },
        None => None,
    }
}

/// The sequence holding the value of `o`, if any.
pub open spec fn opt_seq<A>(o: Option<A>) -> Seq<A> {
    match o {
        Some(x) => seq![x],
        None => seq![],
    }
}

/// The candidates in the order they are gathered: the header's under key 0, then
/// the first `<link>`'s and the first `<a>`'s under their node indices.
pub open spec fn candidates(url: Seq<char>, nodes: Seq<NodeView>, rels: Seq<(Seq<char>, Seq<char>)>) -> Seq<
    (int, Seq<char>),
> {
    let header = match header_candidate(url, rels) {
        Some(u) => Some((0int, u)),
        None => None,
    };
    opt_seq(header) + opt_seq(html_candidate(url, nodes, seq!['l', 'i', 'n', 'k'])) + opt_seq(
        html_candidate(url, nodes, seq!['a']),
    )
}

/// The first candidate with the lowest key.
pub open spec fn lowest(c: Seq<(int, Seq<char>)>) -> Option<(int, Seq<char>)>
    decreases c.len(),
{
    if c.len() == 0 {
        None
    } else {
        let x = c.last();
        match lowest(c.drop_last()) {
            Some(y) => if x.0 < y.0 {
                Some(x)
            } else {
                Some(y)
            },
            None => Some(x),
        }
    }
}

/// The endpoint discovered on a page: the URL of the candidate with the lowest key.
pub open spec fn discovered(url: Seq<char>, nodes: Seq<NodeView>, rels: Seq<(Seq<char>, Seq<char>)>) -> Option<
    Seq<char>,
> {
    match lowest(candidates(url, nodes, rels)) {
        Some(c) => Some(c.1),
        None => None,
    }
}

/// The endpoint discovered on the fetched page `response`.
pub open spec fn response_endpoint(response: &Response) -> Option<Seq<char>> {
    discovered(response.url@, response.html.nodes_view(), response.rels@)
}

/// The endpoint that `response` advertises (see `discovered`).
pub fn endpoint_of(response: &Response) -> (r: Option<Url>)
    ensures
        match response_endpoint(response) {
            Some(u) => r matches Some(v) && v@ == u,
            None => r is None,
        },
{
    let ghost url = response.url@;
    let ghost nodes = response.html.nodes_view();
    let mut cands: Vec<(usize, Url)> = Vec::new();
    let mut header: Option<Url> = None;
    proof {
        reveal_strlit("webmention");
    }
    assert("webmention"@ =~= webmention_word());
    if let Some(uris) = response.rels.get("webmention") {
        assert(texts(uris@)[0] == uris@[0]@);
        if let Ok(u) = absolute_url(uris[0].as_str(), &response.url) {
            header = Some(u);
        }
    }
    if let Some(u) = header {
        cands.push((0, u));
    }
    let ghost after_header = cands@.map_values(|c: (usize, Url)| (c.0 as int, c.1@));
    let ghost h = match header_candidate(url, response.rels@) {
        Some(u) => Some((0int, u)),
        None => None,
    };
    assert(after_header =~= opt_seq(h));
    let doc = response.html.doc();
    let link_name: Vec<char> = vec!['l', 'i', 'n', 'k'];
    let a_name: Vec<char> = vec!['a'];
    assert(link_name@ =~= seq!['l', 'i', 'n', 'k']);
    assert(a_name@ =~= seq!['a']);
    let link_c = html_pick(doc, &link_name, &response.url);
    if let Some(c) = link_c {
        cands.push(c);
    }
    assert(cands@.map_values(|c: (usize, Url)| (c.0 as int, c.1@)) =~= opt_seq(h) + opt_seq(
        html_candidate(url, nodes, seq!['l', 'i', 'n', 'k']),
    ));
    let ghost after_link = cands@.map_values(|c: (usize, Url)| (c.0 as int, c.1@));
    let a_c = html_pick(doc, &a_name, &response.url);
    if let Some(c) = a_c {
        cands.push(c);
    }
    let ghost all = cands@.map_values(|c: (usize, Url)| (c.0 as int, c.1@));
    assert(all =~= after_link + opt_seq(html_candidate(url, nodes, seq!['a'])));
    assert(all =~= candidates(url, nodes, response.rels@));
    let mut best: Option<usize> = None;
    let mut i: usize = 0;
    while i < cands.len()
        invariant
            i <= cands.len(),
            all == cands@.map_values(|c: (usize, Url)| (c.0 as int, c.1@)),
            match lowest(all.take(i as int)) {
                Some(y) => best matches Some(b) && b < i && y == all[b as int],
                None => best is None,
            },
        decreases cands.len() - i,
    {
        assert(all.take(i + 1).drop_last() =~= all.take(i as int));
        match best {
            Some(b) => {
                if cands[i].0 < cands[b].0 {
                    best = Some(i);
                }
            },
            None => {
                best = Some(i);
            },
        }
        i = i + 1;
    }
    assert(all.take(i as int) =~= all);
    match best {
        Some(b) => Some(cands[b].1.clone()),
        None => None,
    }
}

/// The candidate that the first element named `name` with the relation `webmention`
/// gives (see `html_candidate`).
fn html_pick(doc: &Vec<crate::html::HtmlNode>, name: &Vec<char>, url: &Url) -> (r: Option<
    (usize, Url),
>)
    ensures
        match html_candidate(url@, doc@.map_values(|n: crate::html::HtmlNode| n@), name@) {
            Some((i, u)) => r matches Some((j, v)) && j == i && v@ == u,
            None => r is None,
        },
{
    match first_rel_node(doc, name) {
        Some(i) => {
            assert(doc@.map_values(|n: crate::html::HtmlNode| n@)[i as int] == doc@[i as int]@);
            match &doc[i].href {
                Some(h) => {
                    match absolute_url(h.as_str(), url) {
                        Ok(u) => Some((i, u)),
                        Err(_) => None,
                    }
                },
                None => None,
            }
        },
        None => None,
    }
}

/// Discovers the webmention endpoint of `url` from the page fetched from it (after
/// redirects): the endpoint its `Link` headers advertise, else the one of
/// whichever of the first `<link rel=webmention>` and the first
/// `<a rel=webmention>` comes first in the document; `None` where there is none.
/// A failed fetch fails with `DiscoveryRequestFailed`.
pub fn find_target_endpoint(url: &Url, fetched: Result<Response, WebmentionError>) -> (r: Result<
    Option<Url>,
    WebmentionError,
>)
    ensures
        match fetched {
            Ok(response) => match response_endpoint(&response) {
                Some(u) => r matches Ok(Some(v)) && v@ == u,
                None => r matches Ok(None),
            },
            Err(e) => r matches Err(WebmentionError::DiscoveryRequestFailed { url: u, source })
                && u@ == url@ && *source == e,
        },
{
    match fetched {
        Ok(response) => Ok(endpoint_of(&response)),
        Err(e) => Err(
            WebmentionError::DiscoveryRequestFailed { url: url.clone(), source: Box::new(e) },
        ),
    }
}

proof fn lemma_first_rel_in_range(nodes: Seq<NodeView>, name: Seq<char>, k: int)
    requires
        0 <= k,
    ensures
        first_rel_from(nodes, name, k) matches Some(i) ==> k <= i < nodes.len(),
    decreases nodes.len() - k,
{
    if 0 <= k < nodes.len() && !(is_named(nodes[k], name) && has_rel(nodes[k], webmention_word())) {
        lemma_first_rel_in_range(nodes, name, k + 1);
    }
}

proof fn lemma_candidate_key(url: Seq<char>, nodes: Seq<NodeView>, name: Seq<char>)
    ensures
        html_candidate(url, nodes, name) matches Some((i, u)) ==> 0 <= i < nodes.len(),
{
    lemma_first_rel_in_range(nodes, name, 0);
}

proof fn lemma_lowest_first(c: Seq<(int, Seq<char>)>)
    requires
        c.len() > 0,
        forall|k: int| 0 <= k < c.len() ==> c[0].0 <= #[trigger] c[k].0,
    ensures
        lowest(c) == Some(c[0]),
    decreases c.len(),
{
    if c.len() > 1 {
        let d = c.drop_last();
        assert forall|k: int| 0 <= k < d.len() implies d[0].0 <= #[trigger] d[k].0 by {
            assert(d[k] == c[k]);
        }
        lemma_lowest_first(d);
        assert(d[0] == c[0]);
        assert(c[0].0 <= c[c.len() - 1].0);
        assert(c.last() == c[c.len() - 1]);
    } else {
        assert(c.drop_last().len() == 0);
        assert(lowest(c.drop_last()) is None);
    }
}

/// An endpoint advertised in the `Link` headers is the one discovered, wherever the
/// document advertises others.
pub proof fn lemma_header_wins(
    url: Seq<char>,
    nodes: Seq<NodeView>,
    rels: Seq<(Seq<char>, Seq<char>)>,
)
    requires
        header_candidate(url, rels) is Some,
    ensures
        discovered(url, nodes, rels) == header_candidate(url, rels),
{
    let c = candidates(url, nodes, rels);
    lemma_candidate_key(url, nodes, seq!['l', 'i', 'n', 'k']);
    lemma_candidate_key(url, nodes, seq!['a']);
    assert(c[0] == (0int, header_candidate(url, rels)->Some_0));
    assert forall|k: int| 0 <= k < c.len() implies c[0].0 <= #[trigger] c[k].0 by {
        if k > 0 {
            assert(c[k].0 >= 0);
        }
    }
    lemma_lowest_first(c);
}

/// Without an endpoint in the `Link` headers, the one of whichever of the first
/// `<link rel=webmention>` and the first `<a rel=webmention>` comes first in the
/// document is the one discovered.
pub proof fn lemma_earlier_element_wins(
    url: Seq<char>,
    nodes: Seq<NodeView>,
    rels: Seq<(Seq<char>, Seq<char>)>,
)
    requires
        header_candidate(url, rels) is None,
    ensures
        match (
            html_candidate(url, nodes, seq!['l', 'i', 'n', 'k']),
            html_candidate(url, nodes, seq!['a']),
        ) {
            (Some((i, u)), Some((j, v))) => discovered(url, nodes, rels) == if i <= j {
                Some(u)
            } else {
                Some(v)
            },
            (Some((i, u)), None) => discovered(url, nodes, rels) == Some(u),
            (None, Some((j, v))) => discovered(url, nodes, rels) == Some(v),
            (None, None) => discovered(url, nodes, rels) is None,
        },
{
    let c = candidates(url, nodes, rels);
    let l = opt_seq(html_candidate(url, nodes, seq!['l', 'i', 'n', 'k']));
    let a = opt_seq(html_candidate(url, nodes, seq!['a']));
    assert(c =~= l + a);
    if c.len() == 1 {
        lemma_lowest_first(c);
    } else if c.len() == 2 {
        if c[0].0 <= c[1].0 {
            lemma_lowest_first(c);
        } else {
            assert(c.drop_last() =~= seq![c[0]]);
            lemma_lowest_first(seq![c[0]]);
        }
    }
}

} // verus!
