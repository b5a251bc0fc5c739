use vstd::prelude::*;

use crate::error::WebmentionError;
use crate::text::{chars_of, has_token, tokens};
use crate::wm_url::{absolute_url, resolved, Url};

verus! {

/// One node of a parsed HTML document, with what the discovery and link rules read
/// of it: its parent's index, its element name (`None` for text and comments) and
/// its `rel`, `href` and `class` attributes.
#[derive(Debug)]
pub struct HtmlNode {
    pub parent: Option<usize>,
    pub name: Option<String>,
    pub rel: Option<String>,
    pub href: Option<String>,
    pub class: Option<String>,
}

/// The text of an optional string.
pub open spec fn opt_text(s: Option<String>) -> Option<Seq<char>> {
    match s {
        Some(x) => Some(x@),
        None => None,
    }
}

/// A node as plain values.
pub struct NodeView {
    pub parent: Option<usize>,
    pub name: Option<Seq<char>>,
    pub rel: Option<Seq<char>>,
    pub href: Option<Seq<char>>,
    pub class: Option<Seq<char>>,
}

impl View for HtmlNode {
    type V = NodeView;

    open spec fn view(&self) -> NodeView {
        NodeView {
            parent: self.parent,
            name: opt_text(self.name),
            rel: opt_text(self.rel),
            href: opt_text(self.href),
            class: opt_text(self.class),
        }
    }
}

/// The nodes that the HTML parser makes of `html`, in document order.
pub uninterp spec fn html_nodes(html: Seq<char>) -> Seq<NodeView>;

/// Relies on `select::document::Document::from` (html5ever's parser) and on select's
/// `Node` accessors: the nodes of the document in index order, each with its
/// parent's index, its element name and its `rel`, `href` and `class` attributes.
#[verifier::external_body]
fn parse_nodes(html: &str) -> (r: Vec<HtmlNode>)
    ensures
        r@.map_values(|n: HtmlNode| n@) == html_nodes(html@),
{
    let doc = select::document::Document::from(html);
    let mut nodes = Vec::new();
    for node in doc.find(select::predicate::Any) {
        nodes.push(HtmlNode {
            parent: node.parent().map(|p| p.index()),
            name: node.name().map(String::from),
            rel: node.attr("rel").map(String::from),
            href: node.attr("href").map(String::from),
            class: node.attr("class").map(String::from),
        });
    }
    nodes
}

/// The relation that marks a webmention endpoint.
pub open spec fn webmention_word() -> Seq<char> {
    seq!['w', 'e', 'b', 'm', 'e', 'n', 't', 'i', 'o', 'n']
}

/// The microformat class of an entry.
pub open spec fn entry_class() -> Seq<char> {
    seq!['h', '-', 'e', 'n', 't', 'r', 'y']
}

/// The microformat class of an entry's own URL.
pub open spec fn url_class() -> Seq<char> {
    seq!['u', '-', 'u', 'r', 'l']
}

/// Whether the node is an element named `name`.
pub open spec fn is_named(n: NodeView, name: Seq<char>) -> bool {
    n.name == Some(name)
}

/// Whether the node's `class` attribute lists `class`.
pub open spec fn has_class(n: NodeView, class: Seq<char>) -> bool {
    n.class matches Some(c) && tokens(c).contains(class)
}

/// Whether the node's `rel` attribute lists `rel`.
pub open spec fn has_rel(n: NodeView, rel: Seq<char>) -> bool {
    n.rel matches Some(r) && tokens(r).contains(rel)
}

/// Whether some ancestor of node `i` has the class `class`.
pub open spec fn ancestor_has_class(nodes: Seq<NodeView>, i: int, class: Seq<char>) -> bool
    decreases i,
{
    if 0 <= i < nodes.len() {
        match nodes[i].parent {
            Some(p) => if p < i {
                has_class(nodes[p as int], class) || ancestor_has_class(nodes, p as int, class)
            } else {
                false
            },
            None => false,
        }
    } else {
        false
    }
}

/// Whether some node has the class `class`.
pub open spec fn any_has_class(nodes: Seq<NodeView>, class: Seq<char>) -> bool {
    exists|i: int| 0 <= i < nodes.len() && has_class(#[trigger] nodes[i], class)
}

/// Whether node `i` is a content link: an anchor that is not a permalink (class
/// `u-url`) and, where `scoped`, lies inside an `h-entry`.
pub open spec fn is_content_link(nodes: Seq<NodeView>, i: int, scoped: bool) -> bool {
    &&& is_named(nodes[i], seq!['a'])
    &&& !has_class(nodes[i], url_class())
    &&& scoped ==> ancestor_has_class(nodes, i, entry_class())
}

/// The URLs of the content links among the first `k` nodes, in document order: each
/// `href` resolved against `source`, those that do not resolve left out.
pub open spec fn content_links_upto(
    nodes: Seq<NodeView>,
    k: int,
    scoped: bool,
    source: Seq<char>,
) -> Seq<Seq<char>>
    decreases k,
{
    if k <= 0 || k > nodes.len() {
        seq![]
    } else {
        let prev = content_links_upto(nodes, k - 1, scoped, source);
        let i = k - 1;
        if is_content_link(nodes, i, scoped) && nodes[i].href is Some && resolved(
            nodes[i].href->Some_0,
            source,
        ) is Some {
            prev.push(resolved(nodes[i].href->Some_0, source)->Some_0)
        } else {
            prev
        }
    }
}

/// The URLs of the content links of a document: within `h-entry` elements where the
/// document has any, else anywhere.
pub open spec fn content_links(nodes: Seq<NodeView>, source: Seq<char>) -> Seq<Seq<char>> {
    content_links_upto(nodes, nodes.len() as int, any_has_class(nodes, entry_class()), source)
}

/// The index of the first node from `k` on that is an element named `name` with the
/// relation `webmention`.
pub open spec fn first_rel_from(nodes: Seq<NodeView>, name: Seq<char>, k: int) -> Option<int>
    decreases nodes.len() - k,
{
    if k < 0 || k >= nodes.len() {
        None
    } else if is_named(nodes[k], name) && has_rel(nodes[k], webmention_word()) {
        Some(k)
    } else {
        first_rel_from(nodes, name, k + 1)
    }
}

/// The index of the first element named `name` with the relation `webmention`.
pub open spec fn first_rel(nodes: Seq<NodeView>, name: Seq<char>) -> Option<int> {
    first_rel_from(nodes, name, 0)
}

/// Whether some anchor links to exactly `target`.
pub open spec fn links_to(nodes: Seq<NodeView>, target: Seq<char>) -> bool {
    exists|i: int|
        0 <= i < nodes.len() && is_named(#[trigger] nodes[i], seq!['a']) && nodes[i].href == Some(
            target,
        )
}

/// A fetched HTML document: the URL it was fetched from, its text, and its nodes.
#[derive(Debug)]
pub struct HTML {
    source: Url,
    raw_html: String,
    nodes: Vec<HtmlNode>,
}

impl HTML {
    /// The nodes of the document, as plain values.
    pub closed spec fn nodes_view(&self) -> Seq<NodeView> {
        self.nodes@.map_values(|n: HtmlNode| n@)
    }

    /// The URL the document was fetched from.
    pub closed spec fn source_view(&self) -> Seq<char> {
        self.source@
    }

    /// The text of the document.
    pub closed spec fn raw_view(&self) -> Seq<char> {
        self.raw_html@
    }

    /// Whether the nodes are those that the parser makes of the text.
    pub closed spec fn wf(&self) -> bool {
        self.nodes_view() == html_nodes(self.raw_view())
    }

    /// Parses `raw_html`, fetched from `url`.
    pub fn new(url: Url, raw_html: String) -> (r: HTML)
        ensures
            r.wf(),
            r.nodes_view() == html_nodes(raw_html@),
            r.source_view() == url@,
            r.raw_view() == raw_html@,
    {
        let nodes = parse_nodes(raw_html.as_str());
        HTML { source: url, raw_html, nodes }
    }

    /// The nodes of the document in document order; a node's index is its position.
    pub fn doc(&self) -> (r: &Vec<HtmlNode>)
        ensures
            r@.map_values(|n: HtmlNode| n@) == self.nodes_view(),
    {
        &self.nodes
    }

    /// Whether the document holds an anchor whose `href` is exactly `target`; fails
    /// with `NoDocumentLinks` where it does not.
    pub fn contains(&self, target: &Url) -> (r: Result<(), WebmentionError>)
        ensures
            links_to(self.nodes_view(), target@) ==> r is Ok,
            !links_to(self.nodes_view(), target@) ==> r matches Err(
                WebmentionError::NoDocumentLinks,
            ),
    {
        let want = chars_of(target.as_str());
        let a: Vec<char> = vec!['a'];
        let mut i: usize = 0;
        while i < self.nodes.len()
            invariant
                i <= self.nodes.len(),
                want@ == target@,
                a@ == seq!['a'],
                forall|j: int|
                    0 <= j < i ==> !(is_named(#[trigger] self.nodes_view()[j], seq!['a'])
                        && self.nodes_view()[j].href == Some(target@)),
            decreases self.nodes.len() - i,
        {
            let node = &self.nodes[i];
            if is_element(node, &a) {
                if let Some(h) = &node.href {
                    let hc = chars_of(h.as_str());
                    if crate::text::chars_eq(&hc, &want) {
                        assert(is_named(self.nodes_view()[i as int], seq!['a']));
                        return Ok(());
                    }
                }
            }
            i = i + 1;
        }
        Err(WebmentionError::NoDocumentLinks)
    }

    /// The URLs of the document's content links, in document order (see
    /// `content_links`); duplicates are kept.
    pub fn find_links(&self) -> (r: Vec<Url>)
        ensures
            r@.map_values(|u: Url| u@) == content_links(self.nodes_view(), self.source_view()),
    {
        let entry: Vec<char> = vec!['h', '-', 'e', 'n', 't', 'r', 'y'];
        let permalink: Vec<char> = vec!['u', '-', 'u', 'r', 'l'];
        let a: Vec<char> = vec!['a'];
        let ghost nodes = self.nodes_view();
        let mut scoped = false;
        let mut i: usize = 0;
        while i < self.nodes.len()
            invariant
                i <= self.nodes.len(),
                nodes == self.nodes_view(),
                entry@ == entry_class(),
                scoped ==> any_has_class(nodes, entry_class()),
                !scoped ==> forall|j: int|
                    0 <= j < i ==> !has_class(#[trigger] nodes[j], entry_class()),
            decreases self.nodes.len() - i,
        {
            if node_has_class(&self.nodes[i], &entry) {
                assert(has_class(nodes[i as int], entry_class()));
                scoped = true;
            }
            i = i + 1;
        }
        let mut links: Vec<Url> = Vec::new();
        let mut k: usize = 0;
        while k < self.nodes.len()
            invariant
                k <= self.nodes.len(),
                nodes == self.nodes_view(),
                scoped == any_has_class(nodes, entry_class()),
                entry@ == entry_class(),
                permalink@ == url_class(),
                a@ == seq!['a'],
                links@.map_values(|u: Url| u@) == content_links_upto(
                    nodes,
                    k as int,
                    scoped,
                    self.source_view(),
                ),
            decreases self.nodes.len() - k,
        {
            let node = &self.nodes[k];
            let content = is_element(node, &a) && !node_has_class(node, &permalink) && (!scoped
                || ancestor_has(&self.nodes, k, &entry));
            assert(content == is_content_link(nodes, k as int, scoped));
            if content {
                if let Some(h) = &node.href {
                    match absolute_url(h.as_str(), &self.source) {
                        Ok(u) => {
                            let ghost before = links@.map_values(|u: Url| u@);
                            links.push(u);
                            assert(links@.map_values(|u: Url| u@) =~= before.push(u@));
                        },
                        Err(_) => {},
                    }
                }
            }
            k = k + 1;
        }
        links
    }
}

/// Whether the node is an element named `name`.
pub fn is_element(node: &HtmlNode, name: &Vec<char>) -> (r: bool)
    ensures
        r == is_named(node@, name@),
{
    match &node.name {
        Some(n) => {
            let nc = chars_of(n.as_str());
            crate::text::chars_eq(&nc, name)
        },
        None => false,
    }
}

/// Whether the node's `class` attribute lists `class`.
pub fn node_has_class(node: &HtmlNode, class: &Vec<char>) -> (r: bool)
    ensures
        r == has_class(node@, class@),
{
    match &node.class {
        Some(c) => {
            let cc = chars_of(c.as_str());
            has_token(&cc, class)
        },
        None => false,
    }
}

/// Whether the node's `rel` attribute lists `rel`.
pub fn node_has_rel(node: &HtmlNode, rel: &Vec<char>) -> (r: bool)
    ensures
        r == has_rel(node@, rel@),
{
    match &node.rel {
        Some(c) => {
            let cc = chars_of(c.as_str());
            has_token(&cc, rel)
        },
        None => false,
    }
}

/// Whether some ancestor of node `i` has the class `class`.
pub fn ancestor_has(nodes: &Vec<HtmlNode>, i: usize, class: &Vec<char>) -> (r: bool)
    requires
        i < nodes.len(),
    ensures
        r == ancestor_has_class(nodes@.map_values(|n: HtmlNode| n@), i as int, class@),
{
    let ghost ns = nodes@.map_values(|n: HtmlNode| n@);
    let mut cur = i;
    loop
        invariant
            cur < nodes.len(),
            ns == nodes@.map_values(|n: HtmlNode| n@),
            ancestor_has_class(ns, cur as int, class@) == ancestor_has_class(
                ns,
                i as int,
                class@,
            ),
        decreases cur,
    {
        match nodes[cur].parent {
            Some(p) => {
                if p < cur {
                    if node_has_class(&nodes[p], class) {
                        return true;
                    }
                    cur = p;
                } else {
                    return false;
                }
            },
            None => {
                return false;
            },
        }
    }
}

/// The index of the first element named `name` with the relation `webmention`.
pub fn first_rel_node(nodes: &Vec<HtmlNode>, name: &Vec<char>) -> (r: Option<usize>)
    ensures
        match r {
            Some(i) => first_rel(nodes@.map_values(|n: HtmlNode| n@), name@) == Some(i as int),
            None => first_rel(nodes@.map_values(|n: HtmlNode| n@), name@) is None,
        },
        r matches Some(i) ==> i < nodes.len(),
{
    let ghost ns = nodes@.map_values(|n: HtmlNode| n@);
    let rel: Vec<char> = vec!['w', 'e', 'b', 'm', 'e', 'n', 't', 'i', 'o', 'n'];
    let mut k: usize = 0;
    while k < nodes.len()
        invariant
            k <= nodes.len(),
            ns == nodes@.map_values(|n: HtmlNode| n@),
            rel@ == webmention_word(),
            first_rel_from(ns, name@, k as int) == first_rel(ns, name@),
        decreases nodes.len() - k,
    {
        if is_element(&nodes[k], name) && node_has_rel(&nodes[k], &rel) {
            return Some(k);
        }
        k = k + 1;
    }
    None
}

} // verus!
