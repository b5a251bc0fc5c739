use vstd::prelude::*;

use crate::error::WebmentionError;
use crate::text::{chars_of, string_of};

verus! {

/// The serialization of the URL that `s` parses to, if it parses as an absolute URL.
pub uninterp spec fn url_parse(s: Seq<char>) -> Option<Seq<char>>;

/// The serialization of the URL that the reference `rel` gives against `base`.
pub uninterp spec fn url_join(base: Seq<char>, rel: Seq<char>) -> Option<Seq<char>>;

/// The percent-encoded path of the URL serialized as `href`.
pub uninterp spec fn url_path(href: Seq<char>) -> Seq<char>;

/// The serialization of the URL `href` with its path replaced by `path`.
pub uninterp spec fn url_with_path(href: Seq<char>, path: Seq<char>) -> Seq<char>;

/// Relies on `url::Url::parse`, read back through `Url::as_str`: the serialization
/// of the URL that `s` parses to, or `None` where it does not parse.
#[verifier::external_body]
fn parse_href(s: &str) -> (r: Option<String>)
    ensures
        match r {
            Some(h) => url_parse(s@) == Some(h@),
            None => url_parse(s@) is None,
        },
{
    url::Url::parse(s).ok().map(String::from)
}

/// Relies on `url::Url::join`, on the base read back from its serialization with
/// `url::Url::parse`: the reference `rel` resolved against `base`.
#[verifier::external_body]
fn join_href(base: &str, rel: &str) -> (r: Option<String>)
    ensures
        match r {
            Some(h) => url_join(base@, rel@) == Some(h@),
            None => url_join(base@, rel@) is None,
        },
{
    match url::Url::parse(base) {
        Ok(b) => b.join(rel).ok().map(String::from),
        Err(_) => None,
    }
}

/// Relies on `url::Url::path`, on the URL read back from its serialization with
/// `url::Url::parse`.
#[verifier::external_body]
fn path_of(href: &str) -> (r: String)
    ensures
        r@ == url_path(href@),
{
    match url::Url::parse(href) {
        Ok(u) => u.path().to_string(),
        Err(_) => String::new(),
    }
}

/// Relies on `url::Url::set_path`, on the URL read back from its serialization with
/// `url::Url::parse`.
#[verifier::external_body]
fn with_path(href: &str, path: &str) -> (r: String)
    ensures
        r@ == url_with_path(href@, path@),
{
    match url::Url::parse(href) {
        Ok(mut u) => {
            u.set_path(path);
            u.into()
        },
        Err(_) => href.to_string(),
    }
}

/// An absolute URL, held as its serialization.
///
/// A value is only made by parsing or by resolving a reference, so it is always
/// the serialization of a URL that the `url` crate produced.
#[derive(Debug)]
pub struct Url {
    href: String,
}

impl View for Url {
    type V = Seq<char>;

    closed spec fn view(&self) -> Seq<char> {
        self.href@
    }
}

impl Url {
    /// The serialization is one that the `url` crate produced, by parsing a string
    /// or by resolving a reference against a base.
    #[verifier::type_invariant]
    pub closed spec fn is_url(&self) -> bool {
        is_url_text(self.href@)
    }
}

/// Whether `s` is the serialization of a URL that the `url` crate produced.
pub open spec fn is_url_text(s: Seq<char>) -> bool {
    (exists|t: Seq<char>| url_parse(t) == Some(s)) || (exists|b: Seq<char>, r: Seq<char>|
        url_join(b, r) == Some(s))
}

impl Clone for Url {
    fn clone(&self) -> (r: Self)
        ensures
            r == *self,
    {
        proof {
            use_type_invariant(self);
        }
        Url { href: self.href.clone() }
    }
}

impl PartialEq for Url {
    fn eq(&self, other: &Url) -> (r: bool) {
        self.href == other.href
    }
}

impl vstd::std_specs::cmp::PartialEqSpecImpl for Url {
    open spec fn obeys_eq_spec() -> bool {
        true
    }

    open spec fn eq_spec(&self, other: &Url) -> bool {
        self@ == other@
    }
}

impl Eq for Url {

}

impl Url {
    /// Parses `s` as an absolute URL.
    pub fn parse(s: &str) -> (r: Result<Url, WebmentionError>)
        ensures
            match url_parse(s@) {
                Some(h) => r matches Ok(u) && u@ == h,
                None => r matches Err(WebmentionError::UnparseableUrl { input }) && input@ == s@,
            },
    {
        match parse_href(s) {
            Some(href) => Ok(Url { href }),
            None => Err(WebmentionError::UnparseableUrl { input: s.to_string() }),
        }
    }

    /// The serialization of the URL.
    pub fn as_str(&self) -> (r: &str)
        ensures
            r@ == self@,
    {
        self.href.as_str()
    }

    /// Whether two URLs are the same.
    pub fn same_as(&self, other: &Url) -> (r: bool)
        ensures
            r == (self@ == other@),
    {
        self.href == other.href
    }
}

/// The characters after the last `/` of `path`.
pub open spec fn last_segment(path: Seq<char>) -> Seq<char>
    decreases path.len(),
{
    if path.len() == 0 || path.last() == '/' {
        seq![]
    } else {
        last_segment(path.drop_last()).push(path.last())
    }
}

/// Whether the last segment of `path` names a directory rather than a file: it is
/// not empty and holds no `.`.
pub open spec fn names_directory(path: Seq<char>) -> bool {
    let seg = last_segment(path);
    seg.len() > 0 && !seg.contains('.')
}

/// The base that references are resolved against: where the last segment of
/// `base`'s path names a directory, `base` with an empty segment appended to its
/// path, so that references resolve under that directory.
pub open spec fn directory_base(base: Seq<char>) -> Seq<char> {
    if names_directory(url_path(base)) {
        url_with_path(base, url_path(base).push('/'))
    } else {
        base
    }
}

/// What `candidate` names, seen from the page `base`: itself where it is an absolute
/// URL, `base` where it is empty, else the reference resolved against
/// `directory_base(base)`.
pub open spec fn resolved(candidate: Seq<char>, base: Seq<char>) -> Option<Seq<char>> {
    match url_parse(candidate) {
        Some(u) => Some(u),
        None => if candidate.len() == 0 {
            Some(base)
        } else {
            url_join(directory_base(base), candidate)
        },
    }
}

/// Whether the last segment of `path` names a directory.
fn path_names_directory(path: &Vec<char>) -> (r: bool)
    ensures
        r == names_directory(path@),
{
    let mut i: usize = path.len();
    let mut seen_dot = false;
    assert(path@.take(i as int) =~= path@);
    assert(last_segment(path@) + path@.subrange(i as int, path.len() as int) =~= last_segment(
        path@,
    ));
    while i > 0 && path[i - 1] != '/'
        invariant
            i <= path.len(),
            last_segment(path@) == last_segment(path@.take(i as int)) + path@.subrange(
                i as int,
                path.len() as int,
            ),
            seen_dot == path@.subrange(i as int, path.len() as int).contains('.'),
        decreases i,
    {
        let ghost t = path@.take(i as int);
        assert(t.drop_last() =~= path@.take(i - 1));
        assert(path@.subrange(i - 1, path.len() as int) =~= seq![path@[i - 1]] + path@.subrange(
            i as int,
            path.len() as int,
        ));
        assert(last_segment(t) == last_segment(path@.take(i - 1)).push(path@[i - 1]));
        assert(last_segment(path@.take(i - 1)).push(path@[i - 1]) + path@.subrange(
            i as int,
            path.len() as int,
        ) =~= last_segment(path@.take(i - 1)) + path@.subrange(i - 1, path.len() as int));
        if path[i - 1] == '.' {
            seen_dot = true;
            assert(path@.subrange(i - 1, path.len() as int)[0] == '.');
            assert(path@.subrange(i - 1, path.len() as int).contains('.'));
        } else {
            proof {
                let tail = path@.subrange(i - 1, path.len() as int);
                if tail.contains('.') {
                    let k = choose|k: int| 0 <= k < tail.len() && tail[k] == '.';
                    assert(path@.subrange(i as int, path.len() as int)[k - 1] == '.');
                }
                let tail2 = path@.subrange(i as int, path.len() as int);
                if tail2.contains('.') {
                    let k = choose|k: int| 0 <= k < tail2.len() && tail2[k] == '.';
                    assert(tail[k + 1] == '.');
                }
            }
        }
        i = i - 1;
    }
    assert(last_segment(path@.take(i as int)) =~= seq![]);
    assert(last_segment(path@) =~= path@.subrange(i as int, path.len() as int));
    i < path.len() && !seen_dot
}

/// Resolves `candidate` against the page `base` (see `resolved`).
pub fn absolute_url(candidate: &str, base: &Url) -> (r: Result<Url, WebmentionError>)
    ensures
        match resolved(candidate@, base@) {
            Some(u) => r matches Ok(v) && v@ == u,
            None => r matches Err(WebmentionError::UnparseableUrl { input }) && input@
                == candidate@,
        },
{
    if let Some(href) = parse_href(candidate) {
        return Ok(Url { href });
    }
    if candidate.is_empty() {
        return Ok(base.clone());
    }
    let path = path_of(base.as_str());
    let path_chars = chars_of(path.as_str());
    let dir_base = if path_names_directory(&path_chars) {
        let mut dir_path = path_chars.clone();
        dir_path.push('/');
        let dir_path = string_of(dir_path.as_slice());
        with_path(base.as_str(), dir_path.as_str())
    } else {
        base.href.clone()
    };
    match join_href(dir_base.as_str(), candidate) {
        Some(href) => Ok(Url { href }),
        None => Err(WebmentionError::UnparseableUrl { input: candidate.to_string() }),
    }
}

/// An absolute URL resolves to itself, whatever the base.
pub proof fn lemma_absolute_unchanged(candidate: Seq<char>, base: Seq<char>)
    requires
        url_parse(candidate) is Some,
    ensures
        resolved(candidate, base) == url_parse(candidate),
{
}

/// A relative reference against a base whose last path segment names a directory
/// resolves as against that base with `/` appended to its path.
pub proof fn lemma_relative_under_directory(candidate: Seq<char>, base: Seq<char>)
    requires
        url_parse(candidate) is None,
        candidate.len() > 0,
        names_directory(url_path(base)),
    ensures
        resolved(candidate, base) == url_join(
            url_with_path(base, url_path(base).push('/')),
            candidate,
        ),
{
}

/// The URL that a user typed: `s` itself where it parses as an absolute URL, else
/// `s` with `http://` put in front.
pub open spec fn typed_url(s: Seq<char>) -> Option<Seq<char>> {
    match url_parse(s) {
        Some(u) => Some(u),
        None => url_parse(seq!['h', 't', 't', 'p', ':', '/', '/'] + s),
    }
}

/// Parses a URL as a user typed it, so that `example.com/post` names
/// `http://example.com/post`; fails with `UnparseableUrl` for `s` where neither
/// form parses.
pub fn parse_url(s: &str) -> (r: Result<Url, WebmentionError>)
    ensures
        match typed_url(s@) {
            Some(u) => r matches Ok(v) && v@ == u,
            None => r matches Err(WebmentionError::UnparseableUrl { input }) && input@ == s@,
        },
{
    if let Some(href) = parse_href(s) {
        return Ok(Url { href });
    }
    let mut with_scheme: Vec<char> = vec!['h', 't', 't', 'p', ':', '/', '/'];
    let rest = chars_of(s);
    let mut i: usize = 0;
    while i < rest.len()
        invariant
            i <= rest.len(),
            rest@ == s@,
            with_scheme@ == seq!['h', 't', 't', 'p', ':', '/', '/'] + rest@.take(i as int),
        decreases rest.len() - i,
    {
        with_scheme.push(rest[i]);
        assert(rest@.take(i + 1) =~= rest@.take(i as int).push(rest@[i as int]));
        i = i + 1;
    }
    assert(rest@.take(i as int) =~= rest@);
    let candidate = string_of(with_scheme.as_slice());
    match parse_href(candidate.as_str()) {
        Some(href) => Ok(Url { href }),
        None => Err(WebmentionError::UnparseableUrl { input: s.to_string() }),
    }
}

} // verus!
