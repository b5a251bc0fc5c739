use vstd::prelude::*;

use crate::error::WebmentionError;
use crate::text::{chars_of, split_whitespace, string_of, substring, texts, tokens};

verus! {

/// A class of characters at which a run of the header grammar stops.
#[derive(Clone, Copy, PartialEq, Eq, Structural)]
pub enum Stop {
    /// `>`, the end of a URI reference.
    Gt,
    /// `=`, the end of an option key.
    Eq,
    /// `"`, the end of a quoted value.
    Quote,
    /// A space, `;` or `,`: the end of a bare value.
    BareEnd,
}

impl Stop {
    /// Whether the run stops at `c`.
    pub open spec fn holds(self, c: char) -> bool {
        match self {
            Stop::Gt => c == '>',
            Stop::Eq => c == '=',
            Stop::Quote => c == '"',
            Stop::BareEnd => c == ' ' || c == ';' || c == ',',
        }
    }

    /// Whether the run stops at `c`.
    fn test(&self, c: char) -> (r: bool)
        ensures
            r == self.holds(c),
    {
        match self {
            Stop::Gt => c == '>',
            Stop::Eq => c == '=',
            Stop::Quote => c == '"',
            Stop::BareEnd => c == ' ' || c == ';' || c == ',',
        }
    }
}

/// The end of the run of characters of `s` from `i` on at which `stop` does not hold.
pub open spec fn run_end(s: Seq<char>, i: int, stop: Stop) -> int
    decreases s.len() - i,
{
    if 0 <= i < s.len() && !stop.holds(s[i]) {
        run_end(s, i + 1, stop)
    } else {
        i
    }
}

proof fn lemma_run_end_bounds(s: Seq<char>, i: int, stop: Stop)
    requires
        0 <= i <= s.len(),
    ensures
        i <= run_end(s, i, stop) <= s.len(),
        run_end(s, i, stop) < s.len() ==> stop.holds(s[run_end(s, i, stop)]),
    decreases s.len() - i,
{
    if i < s.len() && !stop.holds(s[i]) {
        lemma_run_end_bounds(s, i + 1, stop);
    }
}

/// Where `s` holds a URI reference at `i` (`<`, one or more characters other than
/// `>`, then `>`), the index of its closing `>`.
pub open spec fn uri_end(s: Seq<char>, i: int) -> Option<int> {
    if 0 <= i < s.len() && s[i] == '<' {
        let e = run_end(s, i + 1, Stop::Gt);
        if i + 1 < e < s.len() {
            Some(e)
        } else {
            None
        }
    } else {
        None
    }
}

/// Where `s` holds an option at `i` (a key of one or more characters other than `=`,
/// then `=`, then a value), the end of its key, the start and the end of its value,
/// and where the option ends. A value is one or more characters other than `"`
/// between quotes, or else one or more characters up to a space, `;` or `,`.
pub open spec fn option_span(s: Seq<char>, i: int) -> Option<(int, int, int, int)> {
    let ke = run_end(s, i, Stop::Eq);
    if 0 <= i && i < ke < s.len() {
        let v = ke + 1;
        let q = run_end(s, v + 1, Stop::Quote);
        if v < s.len() && s[v] == '"' && v + 1 < q < s.len() {
            Some((ke, v + 1, q, q + 1))
        } else {
            let b = run_end(s, v, Stop::BareEnd);
            if b > v {
                Some((ke, v, b, b))
            } else {
                None
            }
        }
    } else {
        None
    }
}

/// Where `s` holds `; ` and then an option at `i`, that option's span.
pub open spec fn next_option(s: Seq<char>, i: int) -> Option<(int, int, int, int)> {
    if 0 <= i && i + 1 < s.len() && s[i] == ';' && s[i + 1] == ' ' {
        option_span(s, i + 2)
    } else {
        None
    }
}

/// The options, each after `; `, that follow one another in `s` from `i` on, as
/// (key, value) pairs.
pub open spec fn options_from(s: Seq<char>, i: int) -> Seq<(Seq<char>, Seq<char>)>
    decreases s.len() - i,
{
    match next_option(s, i) {
        Some((ke, vs, ve, n)) => if i < n <= s.len() {
            seq![(s.subrange(i + 2, ke), s.subrange(vs, ve))] + options_from(s, n)
        } else {
            seq![]
        },
        None => seq![],
    }
}

/// Where the options that follow one another in `s` from `i` on end.
pub open spec fn options_end(s: Seq<char>, i: int) -> int
    decreases s.len() - i,
{
    match next_option(s, i) {
        Some((ke, vs, ve, n)) => if i < n <= s.len() {
            options_end(s, n)
        } else {
            i
        },
        None => i,
    }
}

/// The relation tokens that the `rel` options among `opts` hold, in order.
pub open spec fn rels_of(opts: Seq<(Seq<char>, Seq<char>)>) -> Seq<Seq<char>>
    decreases opts.len(),
{
    if opts.len() == 0 {
        seq![]
    } else {
        let o = opts.last();
        rels_of(opts.drop_last()) + if o.0 == seq!['r', 'e', 'l'] {
            tokens(o.1)
        } else {
            seq![]
        }
    }
}

/// The link that `s` holds at `i`, a URI reference and its options, as its reference
/// and its relation tokens.
pub open spec fn link_value(s: Seq<char>, i: int) -> (Seq<char>, Seq<Seq<char>>) {
    let e = uri_end(s, i)->Some_0;
    (s.subrange(i + 1, e), rels_of(options_from(s, e + 1)))
}

/// Where the link that `s` holds at `i` ends.
pub open spec fn link_end(s: Seq<char>, i: int) -> int {
    options_end(s, uri_end(s, i)->Some_0 + 1)
}

/// The links, each after `, `, that follow one another in `s` from `i` on.
pub open spec fn more_links(s: Seq<char>, i: int) -> Seq<(Seq<char>, Seq<Seq<char>>)>
    decreases s.len() - i,
{
    if 0 <= i && i + 1 < s.len() && s[i] == ',' && s[i + 1] == ' ' && uri_end(s, i + 2) is Some
        && i < link_end(s, i + 2) <= s.len() {
        seq![link_value(s, i + 2)] + more_links(s, link_end(s, i + 2))
    } else {
        seq![]
    }
}

/// Where the links that follow one another in `s` from `i` on end.
pub open spec fn more_links_end(s: Seq<char>, i: int) -> int
    decreases s.len() - i,
{
    if 0 <= i && i + 1 < s.len() && s[i] == ',' && s[i + 1] == ' ' && uri_end(s, i + 2) is Some
        && i < link_end(s, i + 2) <= s.len() {
        more_links_end(s, link_end(s, i + 2))
    } else {
        i
    }
}

/// The links that `s` starts with, separated by `, `.
pub open spec fn header_links(s: Seq<char>) -> Seq<(Seq<char>, Seq<Seq<char>>)> {
    if uri_end(s, 0) is Some {
        seq![link_value(s, 0)] + more_links(s, link_end(s, 0))
    } else {
        seq![]
    }
}

/// Where the links that `s` starts with end.
pub open spec fn header_end(s: Seq<char>) -> int {
    if uri_end(s, 0) is Some {
        more_links_end(s, link_end(s, 0))
    } else {
        0
    }
}

/// The links of the header value `s`, where the whole of `s` follows the grammar:
/// one link or more, separated by `, `.
pub open spec fn parsed_header(s: Seq<char>) -> Option<Seq<(Seq<char>, Seq<Seq<char>>)>> {
    if uri_end(s, 0) is Some && header_end(s) == s.len() {
        Some(header_links(s))
    } else {
        None
    }
}

/// One link of a `Link` header: its URI reference and the tokens of its `rel`
/// options; all other options are dropped.
#[derive(Debug)]
pub struct LinkHeaderValue {
    pub uri_reference: String,
    pub rels: Vec<String>,
}

impl View for LinkHeaderValue {
    type V = (Seq<char>, Seq<Seq<char>>);

    open spec fn view(&self) -> (Seq<char>, Seq<Seq<char>>) {
        (self.uri_reference@, texts(self.rels@))
    }
}

/// The links of one `Link` header value, in order.
#[derive(Debug)]
pub struct LinkHeader {
    pub values: Vec<LinkHeaderValue>,
}

impl View for LinkHeader {
    type V = Seq<(Seq<char>, Seq<Seq<char>>)>;

    open spec fn view(&self) -> Seq<(Seq<char>, Seq<Seq<char>>)> {
        self.values@.map_values(|v: LinkHeaderValue| v@)
    }
}

/// The pairs of strings `v` holds, as text.
pub open spec fn text_pairs(v: Seq<(String, String)>) -> Seq<(Seq<char>, Seq<char>)> {
    v.map_values(|p: (String, String)| (p.0@, p.1@))
}

fn scan(s: &Vec<char>, i: usize, stop: Stop) -> (j: usize)
    requires
        i <= s.len(),
    ensures
        j == run_end(s@, i as int, stop),
        i <= j <= s.len(),
{
    proof {
        lemma_run_end_bounds(s@, i as int, stop);
    }
    let mut j = i;
    while j < s.len() && !stop.test(s[j])
        invariant
            i <= j <= s.len(),
            run_end(s@, j as int, stop) == run_end(s@, i as int, stop),
        decreases s.len() - j,
    {
        j = j + 1;
    }
    j
}

fn uri_at(s: &Vec<char>, i: usize) -> (r: Option<usize>)
    requires
        i <= s.len(),
    ensures
        match r {
            Some(e) => uri_end(s@, i as int) == Some(e as int),
            None => uri_end(s@, i as int) is None,
        },
        r matches Some(e) ==> i < e < s.len(),
{
    if i < s.len() && s[i] == '<' {
        let e = scan(s, i + 1, Stop::Gt);
        proof {
            lemma_run_end_bounds(s@, i + 1, Stop::Gt);
        }
        if i + 1 < e && e < s.len() {
            Some(e)
        } else {
            None
        }
    } else {
        None
    }
}

fn option_at(s: &Vec<char>, i: usize) -> (r: Option<(usize, usize, usize, usize)>)
    requires
        i <= s.len(),
    ensures
        match r {
            Some((a, b, c, d)) => option_span(s@, i as int) == Some(
                (a as int, b as int, c as int, d as int),
            ),
            None => option_span(s@, i as int) is None,
        },
        r matches Some((a, b, c, d)) ==> i < a && a < b <= c && c <= d <= s.len(),
{
    let ke = scan(s, i, Stop::Eq);
    if i < ke && ke < s.len() {
        let v = ke + 1;
        if v < s.len() && s[v] == '"' {
            let q = scan(s, v + 1, Stop::Quote);
            if v + 1 < q && q < s.len() {
                return Some((ke, v + 1, q, q + 1));
            }
        }
        let b = scan(s, v, Stop::BareEnd);
        if b > v {
            Some((ke, v, b, b))
        } else {
            None
        }
    } else {
        None
    }
}

fn options_at(s: &Vec<char>, i: usize) -> (r: (Vec<(String, String)>, usize))
    requires
        i <= s.len(),
    ensures
        text_pairs(r.0@) == options_from(s@, i as int),
        r.1 == options_end(s@, i as int),
        i <= r.1 <= s.len(),
{
    let mut opts: Vec<(String, String)> = Vec::new();
    let mut p = i;
    loop
        invariant
            i <= p <= s.len(),
            text_pairs(opts@) + options_from(s@, p as int) == options_from(s@, i as int),
            options_end(s@, p as int) == options_end(s@, i as int),
        decreases s.len() - p,
    {
        if p < s.len() && s.len() - p > 1 && s[p] == ';' && s[p + 1] == ' ' {
            match option_at(s, p + 2) {
                Some((ke, vs, ve, n)) => {
                    let key = substring(s, p + 2, ke);
                    let value = substring(s, vs, ve);
                    let ghost before = text_pairs(opts@);
                    opts.push((key, value));
                    assert(text_pairs(opts@) =~= before.push(
                        (s@.subrange(p + 2, ke as int), s@.subrange(vs as int, ve as int)),
                    ));
                    assert(text_pairs(opts@) + options_from(s@, n as int) =~= before + (seq![
                        (s@.subrange(p + 2, ke as int), s@.subrange(vs as int, ve as int)),
                    ] + options_from(s@, n as int)));
                    p = n;
                },
                None => {
                    assert(text_pairs(opts@) =~= text_pairs(opts@) + options_from(s@, p as int));
                    return (opts, p);
                },
            }
        } else {
            assert(text_pairs(opts@) =~= text_pairs(opts@) + options_from(s@, p as int));
            return (opts, p);
        }
    }
}

/// The link value made of the URI reference `uri` and the options `options`: the
/// relation tokens of its `rel` options are kept, in order, and the other options
/// are dropped.
pub fn parsed_to_link_header_value(uri: String, options: &Vec<(String, String)>) -> (r:
    LinkHeaderValue)
    ensures
        r@ == (uri@, rels_of(text_pairs(options@))),
{
    let rel: Vec<char> = vec!['r', 'e', 'l'];
    let mut rels: Vec<String> = Vec::new();
    let mut k: usize = 0;
    while k < options.len()
        invariant
            k <= options.len(),
            rel@ == seq!['r', 'e', 'l'],
            texts(rels@) == rels_of(text_pairs(options@).take(k as int)),
        decreases options.len() - k,
    {
        let ghost pre = text_pairs(options@).take(k as int);
        assert(text_pairs(options@).take(k + 1).drop_last() =~= pre);
        let key = chars_of(options[k].0.as_str());
        if crate::text::chars_eq(&key, &rel) {
            let value = chars_of(options[k].1.as_str());
            let toks = split_whitespace(&value);
            let mut t: usize = 0;
            let ghost base = texts(rels@);
            while t < toks.len()
                invariant
                    t <= toks.len(),
                    texts(rels@) == base + toks@.map_values(|x: Vec<char>| x@).take(t as int),
                decreases toks.len() - t,
            {
                let ghost before = texts(rels@);
                rels.push(string_of(toks[t].as_slice()));
                assert(texts(rels@) =~= before.push(toks@[t as int]@));
                assert(toks@.map_values(|x: Vec<char>| x@).take(t + 1) =~= toks@.map_values(
                    |x: Vec<char>| x@,
                ).take(t as int).push(toks@[t as int]@));
                t = t + 1;
            }
            assert(toks@.map_values(|x: Vec<char>| x@).take(t as int) =~= toks@.map_values(
                |x: Vec<char>| x@,
            ));
            assert(texts(rels@) =~= rels_of(text_pairs(options@).take(k + 1)));
        } else {
            assert(texts(rels@) =~= rels_of(text_pairs(options@).take(k + 1)));
        }
        k = k + 1;
    }
    assert(text_pairs(options@).take(k as int) =~= text_pairs(options@));
    LinkHeaderValue { uri_reference: uri, rels }
}

/// The link header made of the link values `parsed`, in order.
pub fn parsed_to_link_header(parsed: Vec<LinkHeaderValue>) -> (r: LinkHeader)
    ensures
        r.values@ == parsed@,
{
    LinkHeader { values: parsed }
}

fn link_at(s: &Vec<char>, i: usize) -> (r: Option<(LinkHeaderValue, usize)>)
    requires
        i <= s.len(),
    ensures
        match uri_end(s@, i as int) {
            Some(e) => r matches Some((v, n)) && v@ == link_value(s@, i as int) && n == link_end(
                s@,
                i as int,
            ),
            None => r is None,
        },
        r matches Some((v, n)) ==> i < n <= s.len(),
{
    match uri_at(s, i) {
        Some(e) => {
            let uri = substring(s, i + 1, e);
            let (opts, n) = options_at(s, e + 1);
            Some((parsed_to_link_header_value(uri, &opts), n))
        },
        None => None,
    }
}

fn links_at(s: &Vec<char>) -> (r: (Vec<LinkHeaderValue>, usize))
    ensures
        r.0@.map_values(|v: LinkHeaderValue| v@) == header_links(s@),
        r.1 == header_end(s@),
        r.1 <= s.len(),
        (r.0.len() > 0) == (uri_end(s@, 0) is Some),
{
    let mut values: Vec<LinkHeaderValue> = Vec::new();
    match link_at(s, 0) {
        None => {
            assert(values@.map_values(|v: LinkHeaderValue| v@) =~= header_links(s@));
            (values, 0)
        },
        Some((first, n)) => {
            values.push(first);
            let mut p = n;
            assert(values@.map_values(|v: LinkHeaderValue| v@) =~= seq![link_value(s@, 0)]);
            loop
                invariant
                    0 < p <= s.len(),
                    values.len() > 0,
                    uri_end(s@, 0) is Some,
                    values@.map_values(|v: LinkHeaderValue| v@) + more_links(s@, p as int)
                        == header_links(s@),
                    more_links_end(s@, p as int) == header_end(s@),
                decreases s.len() - p,
            {
                let mut next: Option<(LinkHeaderValue, usize)> = None;
                if p < s.len() && s.len() - p > 1 && s[p] == ',' && s[p + 1] == ' ' {
                    next = link_at(s, p + 2);
                }
                match next {
                    Some((v, n)) => {
                        let ghost before = values@.map_values(|v: LinkHeaderValue| v@);
                        let ghost lv = v@;
                        values.push(v);
                        assert(values@.map_values(|v: LinkHeaderValue| v@) =~= before.push(lv));
                        assert(values@.map_values(|v: LinkHeaderValue| v@) + more_links(
                            s@,
                            n as int,
                        ) =~= before + (seq![lv] + more_links(s@, n as int)));
                        p = n;
                    },
                    None => {
                        assert(values@.map_values(|v: LinkHeaderValue| v@) =~= values@.map_values(
                            |v: LinkHeaderValue| v@,
                        ) + more_links(s@, p as int));
                        return (values, p);
                    },
                }
            }
        },
    }
}

/// Parses the URI reference that `input` starts with: what remains of `input`, and
/// the reference without its angle brackets.
pub fn uri_reference(input: &str) -> (r: Result<(String, String), WebmentionError>)
    ensures
        match uri_end(input@, 0) {
            Some(e) => r matches Ok((rest, uri)) && uri@ == input@.subrange(1, e) && rest@
                == input@.subrange(e + 1, input@.len() as int),
            None => r matches Err(WebmentionError::InvalidLinkHeader(x)) && x@ == input@,
        },
{
    let s = chars_of(input);
    match uri_at(&s, 0) {
        Some(e) => Ok((substring(&s, e + 1, s.len()), substring(&s, 1, e))),
        None => Err(WebmentionError::InvalidLinkHeader(input.to_string())),
    }
}

/// Parses the option that `input` starts with: what remains of `input`, and the
/// option's key and value (a quoted value without its quotes).
pub fn option(input: &str) -> (r: Result<(String, (String, String)), WebmentionError>)
    ensures
        match option_span(input@, 0) {
            Some((ke, vs, ve, n)) => r matches Ok((rest, (key, value))) && key@
                == input@.subrange(0, ke) && value@ == input@.subrange(vs, ve) && rest@
                == input@.subrange(n, input@.len() as int),
            None => r matches Err(WebmentionError::InvalidLinkHeader(x)) && x@ == input@,
        },
{
    let s = chars_of(input);
    match option_at(&s, 0) {
        Some((ke, vs, ve, n)) => Ok(
            (substring(&s, n, s.len()), (substring(&s, 0, ke), substring(&s, vs, ve))),
        ),
        None => Err(WebmentionError::InvalidLinkHeader(input.to_string())),
    }
}

/// Parses the options, each after `; `, that `input` starts with: what remains of
/// `input`, and the (key, value) pairs in order. No option at all is an empty list.
pub fn list_of_options(input: &str) -> (r: (String, Vec<(String, String)>))
    ensures
        text_pairs(r.1@) == options_from(input@, 0),
        r.0@ == input@.subrange(options_end(input@, 0), input@.len() as int),
{
    let s = chars_of(input);
    let (opts, n) = options_at(&s, 0);
    (substring(&s, n, s.len()), opts)
}

/// Parses the link, a URI reference and its options, that `input` starts with: what
/// remains of `input`, and the link.
pub fn link(input: &str) -> (r: Result<(String, LinkHeaderValue), WebmentionError>)
    ensures
        match uri_end(input@, 0) {
            Some(e) => r matches Ok((rest, value)) && value@ == link_value(input@, 0) && rest@
                == input@.subrange(link_end(input@, 0), input@.len() as int),
            None => r matches Err(WebmentionError::InvalidLinkHeader(x)) && x@ == input@,
        },
{
    let s = chars_of(input);
    match link_at(&s, 0) {
        Some((value, n)) => Ok((substring(&s, n, s.len()), value)),
        None => Err(WebmentionError::InvalidLinkHeader(input.to_string())),
    }
}

/// Parses a whole `Link` header value: links separated by `, `. Fails with
/// `InvalidLinkHeader` where some part of `input` does not follow the grammar.
pub fn link_header(input: &str) -> (r: Result<LinkHeader, WebmentionError>)
    ensures
        match parsed_header(input@) {
            Some(links) => r matches Ok(h) && h@ == links,
            None => r matches Err(WebmentionError::InvalidLinkHeader(x)) && x@ == input@,
        },
{
    let s = chars_of(input);
    let (values, n) = links_at(&s);
    if values.len() > 0 && n == s.len() {
        Ok(parsed_to_link_header(values))
    } else {
        Err(WebmentionError::InvalidLinkHeader(input.to_string()))
    }
}

/// The (relation, URI reference) pairs of `links`, link by link and, within a link,
/// in the order of its relation tokens.
pub open spec fn link_pairs(links: Seq<(Seq<char>, Seq<Seq<char>>)>) -> Seq<
    (Seq<char>, Seq<char>),
>
    decreases links.len(),
{
    if links.len() == 0 {
        seq![]
    } else {
        let l = links.last();
        link_pairs(links.drop_last()) + l.1.map_values(|rel: Seq<char>| (rel, l.0))
    }
}

/// The (relation, URI reference) pairs of a sequence of `Link` header values, header
/// by header; a value that does not follow the grammar adds none.
pub open spec fn header_pairs(headers: Seq<Seq<char>>) -> Seq<(Seq<char>, Seq<char>)>
    decreases headers.len(),
{
    if headers.len() == 0 {
        seq![]
    } else {
        header_pairs(headers.drop_last()) + match parsed_header(headers.last()) {
            Some(links) => link_pairs(links),
            None => seq![],
        }
    }
}

/// The URI references that `pairs` gives the relation `rel`, in order.
pub open spec fn uris_for(pairs: Seq<(Seq<char>, Seq<char>)>, rel: Seq<char>) -> Seq<Seq<char>>
    decreases pairs.len(),
{
    if pairs.len() == 0 {
        seq![]
    } else {
        let p = pairs.last();
        let prev = uris_for(pairs.drop_last(), rel);
        if p.0 == rel {
            prev.push(p.1)
        } else {
            prev
        }
    }
}

/// The relations that the `Link` headers of a response advertise: for each relation,
/// the URI references that carry it, in header order.
#[derive(Debug)]
pub struct RelMap {
    pairs: Vec<(String, String)>,
}

impl View for RelMap {
    type V = Seq<(Seq<char>, Seq<char>)>;

    closed spec fn view(&self) -> Seq<(Seq<char>, Seq<char>)> {
        text_pairs(self.pairs@)
    }
}

impl RelMap {
    /// The map without any relation.
    pub fn new() -> (r: RelMap)
        ensures
            r@ == Seq::<(Seq<char>, Seq<char>)>::empty(),
    {
        let r = RelMap { pairs: Vec::new() };
        assert(r@ =~= Seq::<(Seq<char>, Seq<char>)>::empty());
        r
    }

    /// The URI references that carry the relation `rel`, in order; `None` where none
    /// does.
    pub fn get(&self, rel: &str) -> (r: Option<Vec<String>>)
        ensures
            uris_for(self@, rel@).len() == 0 ==> r is None,
            uris_for(self@, rel@).len() > 0 ==> (r matches Some(v) && texts(v@) == uris_for(
                self@,
                rel@,
            )),
    {
        let want = chars_of(rel);
        let mut found: Vec<String> = Vec::new();
        let mut i: usize = 0;
        while i < self.pairs.len()
            invariant
                i <= self.pairs.len(),
                want@ == rel@,
                texts(found@) == uris_for(self@.take(i as int), rel@),
            decreases self.pairs.len() - i,
        {
            assert(self@.take(i + 1).drop_last() =~= self@.take(i as int));
            let key = chars_of(self.pairs[i].0.as_str());
            if crate::text::chars_eq(&key, &want) {
                let ghost before = texts(found@);
                found.push(self.pairs[i].1.clone());
                assert(texts(found@) =~= before.push(self@[i as int].1));
            }
            i = i + 1;
        }
        assert(self@.take(i as int) =~= self@);
        if found.len() == 0 {
            None
        } else {
            Some(found)
        }
    }

    /// Adds the pairs of the links of `header` to the map.
    fn add_header(&mut self, header: &LinkHeader)
        ensures
            final(self)@ == old(self)@ + link_pairs(header@),
    {
        let mut k: usize = 0;
        while k < header.values.len()
            invariant
                k <= header.values.len(),
                self@ == old(self)@ + link_pairs(header@.take(k as int)),
            decreases header.values.len() - k,
        {
            let value = &header.values[k];
            assert(header@.take(k + 1).drop_last() =~= header@.take(k as int));
            assert(header@.take(k + 1).last() == value@);
            let ghost base = self@;
            let mut t: usize = 0;
            while t < value.rels.len()
                invariant
                    t <= value.rels.len(),
                    value == &header.values[k as int],
                    self@ == base + value@.1.take(t as int).map_values(
                        |rel: Seq<char>| (rel, value@.0),
                    ),
                decreases value.rels.len() - t,
            {
                let ghost before = self@;
                self.pairs.push((value.rels[t].clone(), value.uri_reference.clone()));
                assert(self@ =~= before.push((value@.1[t as int], value@.0)));
                assert(value@.1.take(t + 1).map_values(|rel: Seq<char>| (rel, value@.0))
                    =~= value@.1.take(t as int).map_values(|rel: Seq<char>| (rel, value@.0)).push(
                    (value@.1[t as int], value@.0),
                ));
                t = t + 1;
            }
            assert(value@.1.take(t as int) =~= value@.1);
            assert(self@ =~= old(self)@ + link_pairs(header@.take(k + 1)));
            k = k + 1;
        }
        assert(header@.take(k as int) =~= header@);
    }
}

/// Merges the relations of every `Link` header value of a response, in order; a
/// value that does not follow the grammar is skipped.
pub fn all_rels(headers: &Vec<String>) -> (r: RelMap)
    ensures
        r@ == header_pairs(texts(headers@)),
{
    let mut merged = RelMap::new();
    let mut h: usize = 0;
    while h < headers.len()
        invariant
            h <= headers.len(),
            merged@ == header_pairs(texts(headers@).take(h as int)),
        decreases headers.len() - h,
    {
        assert(texts(headers@).take(h + 1).drop_last() =~= texts(headers@).take(h as int));
        assert(texts(headers@).take(h + 1).last() == headers@[h as int]@);
        match link_header(headers[h].as_str()) {
            Ok(parsed) => {
                merged.add_header(&parsed);
            },
            Err(_) => {
                assert(merged@ =~= header_pairs(texts(headers@).take(h + 1)));
            },
        }
        h = h + 1;
    }
    assert(texts(headers@).take(h as int) =~= texts(headers@));
    merged
}

} // verus!
