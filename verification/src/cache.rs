//! The processed-URL cache: the normalized URLs that this engine regards
//! as handled. It only spares work; what a page's stored status says
//! comes first.

use vstd::prelude::*;
use crate::text::{str_eq, views};

verus! {

/// A set of URLs.
pub struct ProcessedUrls {
    urls: Vec<String>,
}

impl View for ProcessedUrls {
    type V = Set<Seq<char>>;

    closed spec fn view(&self) -> Set<Seq<char>> {
        views(self.urls@).to_set()
    }
}

impl ProcessedUrls {
    /// The empty cache.
    pub fn new() -> (r: ProcessedUrls)
        ensures
            r@ == Set::<Seq<char>>::empty(),
    {
        let r = ProcessedUrls { urls: Vec::new() };
        assert(r@ =~= Set::<Seq<char>>::empty());
        r
    }

    /// Whether the URL is in the cache.
    pub fn contains(&self, url: &str) -> (r: bool)
        ensures
            r == self@.contains(url@),
    {
        let mut i: usize = 0;
        while i < self.urls.len()
            invariant
                i <= self.urls@.len(),
                forall|j: int| 0 <= j < i ==> (#[trigger] views(self.urls@)[j]) != url@,
            decreases self.urls@.len() - i,
        {
            if str_eq(self.urls[i].as_str(), url) {
                assert(views(self.urls@)[i as int] == url@);
                return true;
            }
            i += 1;
        }
        false
    }

    /// Puts the URL into the cache.
    pub fn insert(&mut self, url: &str)
        ensures
            final(self)@ == old(self)@.insert(url@),
    {
        if !self.contains(url) {
            self.urls.push(url.to_owned());
            assert(views(self.urls@) =~= views(old(self).urls@).push(url@));
            assert(final(self)@ =~= old(self)@.insert(url@)) by {
                let before = views(old(self).urls@);
                let after = views(self.urls@);
                assert forall|s: Seq<char>| after.contains(s) <==> (before.contains(s) || s
                    == url@) by {
                    if before.contains(s) {
                        let j = choose|j: int| 0 <= j < before.len() && before[j] == s;
                        assert(after[j] == s);
                    }
                    if s == url@ {
                        assert(after[after.len() - 1] == s);
                    }
                }
            }
        } else {
            assert(final(self)@ =~= old(self)@.insert(url@));
        }
    }

    /// Takes the URL out of the cache.
    pub fn remove(&mut self, url: &str)
        ensures
            final(self)@ == old(self)@.remove(url@),
    {
        let mut kept: Vec<String> = Vec::new();
        let mut i: usize = 0;
        while i < self.urls.len()
            invariant
                i <= self.urls@.len(),
                forall|s: Seq<char>|
                    views(kept@).contains(s) <==> (s != url@ && views(self.urls@).take(
                        i as int,
                    ).contains(s)),
            decreases self.urls@.len() - i,
        {
            let ghost kept_before = views(kept@);
            let ghost seen = views(self.urls@).take(i as int);
            let ghost next = views(self.urls@).take(i as int + 1);
            let ghost item = self.urls@[i as int]@;
            proof {
                assert(next =~= seen.push(item));
                assert forall|s: Seq<char>| next.contains(s) <==> (seen.contains(s) || s
                    == item) by {
                    if seen.contains(s) {
                        let j = choose|j: int| 0 <= j < seen.len() && seen[j] == s;
                        assert(next[j] == s);
                    }
                    if s == item {
                        assert(next[next.len() - 1] == s);
                    }
                }
            }
            if !str_eq(self.urls[i].as_str(), url) {
                kept.push(self.urls[i].clone());
                proof {
                    let kept_after = views(kept@);
                    assert(kept_after =~= kept_before.push(item));
                    assert forall|s: Seq<char>| kept_after.contains(s) <==> (kept_before.contains(
                        s,
                    ) || s == item) by {
                        if kept_before.contains(s) {
                            let j = choose|j: int| 0 <= j < kept_before.len() && kept_before[j]
                                == s;
                            assert(kept_after[j] == s);
                        }
                        if s == item {
                            assert(kept_after[kept_after.len() - 1] == s);
                        }
                    }
                }
            }
            i += 1;
        }
        assert(views(self.urls@).take(self.urls@.len() as int) =~= views(self.urls@));
        self.urls = kept;
        assert(final(self)@ =~= old(self)@.remove(url@));
    }
}

} // verus!
