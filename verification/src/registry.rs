//! The crawl registry: which pairs of technology and version have a crawl
//! running.

use vstd::prelude::*;

verus! {

/// One entry of the registry.
#[derive(Debug, Clone, Copy, PartialEq, Eq, Structural)]
pub struct CrawlEntry {
    pub technology_id: u128,
    pub version_id: u128,
    pub active: bool,
}

/// The registry as a map from technology and version to the active flag.
pub open spec fn as_map(entries: Seq<CrawlEntry>) -> Map<(u128, u128), bool>
    decreases entries.len(),
{
    if entries.len() == 0 {
        Map::empty()
    } else {
        as_map(entries.drop_last()).insert(
            (entries.last().technology_id, entries.last().version_id),
            entries.last().active,
        )
    }
}

/// No two entries are for the same technology and version.
pub open spec fn distinct_keys(entries: Seq<CrawlEntry>) -> bool {
    forall|i: int, j: int|
        0 <= i < j < entries.len() ==> !((#[trigger] entries[i]).technology_id == (
        #[trigger] entries[j]).technology_id && entries[i].version_id == entries[j].version_id)
}

/// The registry of crawls.
pub struct CrawlRegistry {
    entries: Vec<CrawlEntry>,
}

impl View for CrawlRegistry {
    type V = Map<(u128, u128), bool>;

    closed spec fn view(&self) -> Map<(u128, u128), bool> {
        as_map(self.entries@)
    }
}

proof fn lemma_as_map(entries: Seq<CrawlEntry>)
    ensures
        forall|i: int|
            0 <= i < entries.len() ==> as_map(entries).dom().contains(
                ((#[trigger] entries[i]).technology_id, entries[i].version_id),
            ),
        forall|k: (u128, u128)|
            as_map(entries).dom().contains(k) ==> exists|i: int|
                0 <= i < entries.len() && (#[trigger] entries[i]).technology_id == k.0
                    && entries[i].version_id == k.1,
        distinct_keys(entries) ==> forall|i: int|
            0 <= i < entries.len() ==> as_map(entries)[((
            #[trigger] entries[i]).technology_id, entries[i].version_id)] == entries[i].active,
    decreases entries.len(),
{
    if entries.len() > 0 {
        let init = entries.drop_last();
        lemma_as_map(init);
        assert forall|i: int| 0 <= i < init.len() implies init[i] == entries[i] by {}
        assert forall|i: int| 0 <= i < entries.len() implies as_map(entries).dom().contains(
            ((#[trigger] entries[i]).technology_id, entries[i].version_id),
        ) by {
            if i < init.len() {
                assert(init[i] == entries[i]);
            }
        }
        assert forall|k: (u128, u128)| as_map(entries).dom().contains(k) implies exists|i: int|
            0 <= i < entries.len() && (#[trigger] entries[i]).technology_id == k.0
                && entries[i].version_id == k.1 by {
            if as_map(init).dom().contains(k) {
                let i = choose|i: int|
                    0 <= i < init.len() && (#[trigger] init[i]).technology_id == k.0
                        && init[i].version_id == k.1;
                assert(entries[i].technology_id == k.0);
            } else {
                assert(entries[entries.len() - 1].technology_id == k.0);
            }
        }
        if distinct_keys(entries) {
            assert(distinct_keys(init)) by {
                assert forall|i: int, j: int| 0 <= i < j < init.len() implies !((
                #[trigger] init[i]).technology_id == (#[trigger] init[j]).technology_id
                    && init[i].version_id == init[j].version_id) by {
                    assert(init[i] == entries[i]);
                    assert(init[j] == entries[j]);
                }
            }
            assert forall|i: int| 0 <= i < entries.len() implies as_map(entries)[((
            #[trigger] entries[i]).technology_id, entries[i].version_id)]
                == entries[i].active by {
                if i < init.len() {
                    assert(init[i] == entries[i]);
                    assert(entries[i].technology_id != entries.last().technology_id
                        || entries[i].version_id != entries.last().version_id);
                }
            }
        }
    }
}

impl CrawlRegistry {
    /// The registry's invariant: one entry for each technology and
    /// version.
    pub closed spec fn wf(&self) -> bool {
        distinct_keys(self.entries@)
    }

    /// The number of pairs that the registry knows.
    pub closed spec fn count(&self) -> nat {
        self.entries@.len()
    }

    /// The registry without entries.
    pub fn new() -> (r: CrawlRegistry)
        ensures
            r.wf(),
            r@ == Map::<(u128, u128), bool>::empty(),
            r.count() == 0,
    {
        CrawlRegistry { entries: Vec::new() }
    }

    fn find(&self, technology_id: u128, version_id: u128) -> (r: Option<usize>)
        ensures
            match r {
                Some(i) => i < self.entries@.len() && self.entries@[i as int].technology_id
                    == technology_id && self.entries@[i as int].version_id == version_id,
                None => !self@.dom().contains((technology_id, version_id)),
            },
    {
        let mut i: usize = 0;
        while i < self.entries.len()
            invariant
                i <= self.entries@.len(),
                forall|j: int|
                    0 <= j < i ==> !((#[trigger] self.entries@[j]).technology_id == technology_id
                        && self.entries@[j].version_id == version_id),
            decreases self.entries@.len() - i,
        {
            if self.entries[i].technology_id == technology_id && self.entries[i].version_id
                == version_id {
                return Some(i);
            }
            i += 1;
        }
        proof {
            lemma_as_map(self.entries@);
        }
        None
    }

    /// Whether a crawl of this technology and version is registered as
    /// running.
    pub fn is_active(&self, technology_id: u128, version_id: u128) -> (r: bool)
        requires
            self.wf(),
        ensures
            r == (self@.dom().contains((technology_id, version_id)) && self@[(
                technology_id,
                version_id,
            )]),
    {
        proof {
            lemma_as_map(self.entries@);
        }
        match self.find(technology_id, version_id) {
            Some(i) => self.entries[i].active,
            None => false,
        }
    }

    /// Registers a crawl of this technology and version as running.
    pub fn start(&mut self, technology_id: u128, version_id: u128)
        requires
            old(self).wf(),
        ensures
            final(self).wf(),
            final(self)@ == old(self)@.insert((technology_id, version_id), true),
    {
        let entry = CrawlEntry { technology_id, version_id, active: true };
        proof {
            lemma_as_map(self.entries@);
        }
        match self.find(technology_id, version_id) {
            Some(i) => {
                self.entries.set(i, entry);
                proof {
                    lemma_as_map(self.entries@);
                    lemma_same_keys(old(self).entries@, self.entries@);
                    assert forall|k: (u128, u128)| self@.dom().contains(k) implies #[trigger] self@[k]
                        == old(self)@.insert((technology_id, version_id), true)[k] by {
                        let j = choose|j: int|
                            0 <= j < self.entries@.len() && (
                            #[trigger] self.entries@[j]).technology_id == k.0
                                && self.entries@[j].version_id == k.1;
                        if j != i {
                            assert(self.entries@[j] == old(self).entries@[j]);
                        }
                    }
                    assert(final(self)@ =~= old(self)@.insert((technology_id, version_id), true));
                }
            },
            None => {
                self.entries.push(entry);
                proof {
                    assert(self.entries@.drop_last() =~= old(self).entries@);
                }
            },
        }
    }

    /// Marks every registered crawl as stopped and returns how many pairs
    /// the registry knows.
    pub fn stop_all(&mut self) -> (r: usize)
        requires
            old(self).wf(),
        ensures
            final(self).wf(),
            final(self)@.dom() == old(self)@.dom(),
            forall|k: (u128, u128)| final(self)@.dom().contains(k) ==> !(#[trigger] final(self)@[k]),
            r == old(self).count(),
            final(self).count() == old(self).count(),
    {
        let mut i: usize = 0;
        while i < self.entries.len()
            invariant
                i <= self.entries@.len(),
                self.entries@.len() == old(self).entries@.len(),
                forall|j: int|
                    0 <= j < self.entries@.len() ==> (#[trigger] self.entries@[j]).technology_id
                        == old(self).entries@[j].technology_id && self.entries@[j].version_id
                        == old(self).entries@[j].version_id,
                forall|j: int| 0 <= j < i ==> !(#[trigger] self.entries@[j]).active,
            decreases self.entries@.len() - i,
        {
            let entry = CrawlEntry {
                technology_id: self.entries[i].technology_id,
                version_id: self.entries[i].version_id,
                active: false,
            };
            self.entries.set(i, entry);
            i += 1;
        }
        proof {
            lemma_as_map(self.entries@);
            lemma_same_keys(old(self).entries@, self.entries@);
            assert forall|k: (u128, u128)| final(self)@.dom().contains(k) implies !(
            #[trigger] final(self)@[k]) by {
                let j = choose|j: int|
                    0 <= j < self.entries@.len() && (#[trigger] self.entries@[j]).technology_id
                        == k.0 && self.entries@[j].version_id == k.1;
                assert(!self.entries@[j].active);
            }
        }
        self.entries.len()
    }

    /// Marks the crawl of this technology and version as stopped. Returns
    /// whether the registry knows the pair.
    pub fn stop(&mut self, technology_id: u128, version_id: u128) -> (r: bool)
        requires
            old(self).wf(),
        ensures
            final(self).wf(),
            r == old(self)@.dom().contains((technology_id, version_id)),
            final(self)@ == if r {
                old(self)@.insert((technology_id, version_id), false)
            } else {
                old(self)@
            },
    {
        proof {
            lemma_as_map(self.entries@);
        }
        match self.find(technology_id, version_id) {
            Some(i) => {
                let entry = CrawlEntry { technology_id, version_id, active: false };
                self.entries.set(i, entry);
                proof {
                    lemma_as_map(self.entries@);
                    lemma_same_keys(old(self).entries@, self.entries@);
                    assert forall|k: (u128, u128)| self@.dom().contains(k) implies #[trigger] self@[k]
                        == old(self)@.insert((technology_id, version_id), false)[k] by {
                        let j = choose|j: int|
                            0 <= j < self.entries@.len() && (
                            #[trigger] self.entries@[j]).technology_id == k.0
                                && self.entries@[j].version_id == k.1;
                        if j != i {
                            assert(self.entries@[j] == old(self).entries@[j]);
                        }
                    }
                    assert(final(self)@ =~= old(self)@.insert((technology_id, version_id), false));
                }
                true
            },
            None => false,
        }
    }
}

/// Two lists with the same keys at the same places have the same key set,
/// and the one has distinct keys if the other has.
proof fn lemma_same_keys(a: Seq<CrawlEntry>, b: Seq<CrawlEntry>)
    requires
        a.len() == b.len(),
        forall|j: int|
            0 <= j < a.len() ==> (#[trigger] a[j]).technology_id == b[j].technology_id
                && a[j].version_id == b[j].version_id,
    ensures
        as_map(a).dom() == as_map(b).dom(),
        distinct_keys(a) ==> distinct_keys(b),
{
    lemma_as_map(a);
    lemma_as_map(b);
    assert forall|k: (u128, u128)| as_map(a).dom().contains(k) <==> as_map(b).dom().contains(
        k,
    ) by {
        if as_map(a).dom().contains(k) {
            let i = choose|i: int|
                0 <= i < a.len() && (#[trigger] a[i]).technology_id == k.0 && a[i].version_id
                    == k.1;
            assert(b[i].technology_id == k.0);
        }
        if as_map(b).dom().contains(k) {
            let i = choose|i: int|
                0 <= i < b.len() && (#[trigger] b[i]).technology_id == k.0 && b[i].version_id
                    == k.1;
            assert(a[i].technology_id == k.0);
        }
    }
    assert(as_map(a).dom() =~= as_map(b).dom());
    if distinct_keys(a) {
        assert forall|i: int, j: int| 0 <= i < j < b.len() implies !((
        #[trigger] b[i]).technology_id == (#[trigger] b[j]).technology_id && b[i].version_id
            == b[j].version_id) by {
            assert(a[i].technology_id == b[i].technology_id);
            assert(a[j].technology_id == b[j].technology_id);
        }
    }
}

} // verus!
