use vstd::prelude::*;

use crate::error::WebmentionError;
use crate::webmention::Webmention;
use crate::wm_url::Url;

verus! {

/// Where accepted webmentions are kept. A backend may fail either operation with
/// an error of its own; a failed `store` keeps nothing.
pub trait WebmentionStorage {
    /// The webmentions kept, in the order they came.
    spec fn kept(&self) -> Seq<Webmention>;

    /// Keeps `webmention` after those already kept.
    fn store(&mut self, webmention: Webmention) -> (r: Result<(), WebmentionError>)
        ensures
            r is Ok ==> final(self).kept() == old(self).kept().push(webmention),
            r is Err ==> final(self).kept() == old(self).kept(),
    ;

    /// The webmentions kept for `target`, in the order they came.
    fn lookup_by_target(&self, target: &Url) -> (r: Result<Vec<Webmention>, WebmentionError>)
        ensures
            r matches Ok(v) ==> v@ == mentions_for(self.kept(), target@),
    ;
}

/// The webmentions among `s` whose target is `target`, in order.
pub open spec fn mentions_for(s: Seq<Webmention>, target: Seq<char>) -> Seq<Webmention>
    decreases s.len(),
{
    if s.len() == 0 {
        seq![]
    } else {
        let prev = mentions_for(s.drop_last(), target);
        if s.last().target_view() == target {
            prev.push(s.last())
        } else {
            prev
        }
    }
}

/// A storage that keeps webmentions in memory, in the order they came.
#[derive(Debug)]
pub struct InMemoryWebmentionStorage {
    mentions: Vec<Webmention>,
}

impl InMemoryWebmentionStorage {
    /// The webmentions kept, in the order they came.
    pub closed spec fn stored(&self) -> Seq<Webmention> {
        self.mentions@
    }

    /// An empty storage.
    pub fn new() -> (r: InMemoryWebmentionStorage)
        ensures
            r.stored() == Seq::<Webmention>::empty(),
    {
        InMemoryWebmentionStorage { mentions: Vec::new() }
    }

    /// Keeps `webmention` after those already kept; never fails.
    pub fn store(&mut self, webmention: Webmention) -> (r: Result<(), WebmentionError>)
        ensures
            r is Ok,
            final(self).stored() == old(self).stored().push(webmention),
    {
        self.mentions.push(webmention);
        Ok(())
    }

    /// The webmentions kept for `target`, in the order they came; never fails.
    pub fn lookup_by_target(&self, target: &Url) -> (r: Result<Vec<Webmention>, WebmentionError>)
        ensures
            r matches Ok(v) && v@ == mentions_for(self.stored(), target@),
    {
        let mut view: Vec<Webmention> = Vec::new();
        let mut i: usize = 0;
        while i < self.mentions.len()
            invariant
                i <= self.mentions.len(),
                view@ == mentions_for(self.mentions@.take(i as int), target@),
            decreases self.mentions.len() - i,
        {
            assert(self.mentions@.take(i + 1).drop_last() =~= self.mentions@.take(i as int));
            let mention = &self.mentions[i];
            if mention.target().same_as(target) {
                view.push(mention.clone());
            }
            i = i + 1;
        }
        assert(self.mentions@.take(i as int) =~= self.mentions@);
        Ok(view)
    }
}

impl WebmentionStorage for InMemoryWebmentionStorage {
    closed spec fn kept(&self) -> Seq<Webmention> {
        self.mentions@
    }

    fn store(&mut self, webmention: Webmention) -> (r: Result<(), WebmentionError>) {
        InMemoryWebmentionStorage::store(self, webmention)
    }

    fn lookup_by_target(&self, target: &Url) -> (r: Result<Vec<Webmention>, WebmentionError>) {
        InMemoryWebmentionStorage::lookup_by_target(self, target)
    }
}

} // verus!
