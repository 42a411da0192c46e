use vstd::prelude::*;

use std::collections::HashMap;

verus! {

broadcast use vstd::std_specs::hash::group_hash_axioms;

/// A shared GPU display and the number of engines holding it.
#[derive(Clone, Copy, Debug, PartialEq, Eq, Structural)]
pub struct CacheEntry {
    pub display: u64,
    pub holders: u64,
}

/// The GPU displays shared by the engines of a process, keyed by render node
/// (a device number) or the software device. An entry lives while at least
/// one engine holds it.
pub struct DisplayCache {
    pub hardware: HashMap<u64, CacheEntry>,
    pub software: Option<CacheEntry>,
}

impl DisplayCache {
    /// The entry for `node`: `Some(n)` names a render node, `None` the software
    /// device.
    pub open spec fn entry(&self, node: Option<u64>) -> Option<CacheEntry> {
        match node {
            Some(n) => if self.hardware@.contains_key(n) {
                Some(self.hardware@[n])
            } else {
                None
            },
            None => self.software,
        }
    }

    /// Every entry is held by someone.
    pub open spec fn wf(&self) -> bool {
        forall|k: Option<u64>| #[trigger] self.entry(k) matches Some(e) ==> e.holders > 0
    }

    pub fn new() -> (r: DisplayCache)
        ensures
            r.wf(),
            forall|k: Option<u64>| #[trigger] r.entry(k) is None,
    {
        DisplayCache { hardware: HashMap::new(), software: None }
    }

    fn lookup(&self, node: Option<u64>) -> (r: Option<CacheEntry>)
        ensures
            r == self.entry(node),
    {
        match node {
            None => self.software,
            Some(n) => match self.hardware.get(&n) {
                Some(e) => Some(*e),
                None => None,
            },
        }
    }

    fn store(&mut self, node: Option<u64>, e: Option<CacheEntry>)
        ensures
            final(self).entry(node) == e,
            forall|k: Option<u64>| k != node ==> #[trigger] final(self).entry(k) == old(self).entry(k),
    {
        match node {
            None => {
                self.software = e;
            },
            Some(n) => match e {
                Some(v) => {
                    self.hardware.insert(n, v);
                },
                None => {
                    self.hardware.remove(&n);
                },
            },
        }
    }

    /// An engine wants the display for `node`: the one in the cache, now held
    /// once more, or, where there is none, `fresh`, entered with one holder.
    /// Returns the display and whether it is new.
    pub fn acquire(&mut self, node: Option<u64>, fresh: u64) -> (r: (u64, bool))
        requires
            old(self).wf(),
            old(self).entry(node) matches Some(e) ==> e.holders < u64::MAX,
        ensures
            final(self).wf(),
            forall|k: Option<u64>| k != node ==> #[trigger] final(self).entry(k) == old(self).entry(k),
            match old(self).entry(node) {
                Some(e) => r == (e.display, false) && final(self).entry(node) == Some(
                    CacheEntry { display: e.display, holders: (e.holders + 1) as u64 },
                ),
                None => r == (fresh, true) && final(self).entry(node) == Some(
                    CacheEntry { display: fresh, holders: 1 },
                ),
            },
    {
        match self.lookup(node) {
            Some(e) => {
                let e2 = CacheEntry { display: e.display, holders: e.holders + 1 };
                self.store(node, Some(e2));
                (e.display, false)
            },
            None => {
                self.store(node, Some(CacheEntry { display: fresh, holders: 1 }));
                (fresh, true)
            },
        }
    }

    /// An engine lets go of the display for `node`; the entry is evicted when
    /// its last holder lets go. Returns whether it was evicted.
    pub fn release(&mut self, node: Option<u64>) -> (evicted: bool)
        requires
            old(self).wf(),
        ensures
            final(self).wf(),
            forall|k: Option<u64>| k != node ==> #[trigger] final(self).entry(k) == old(self).entry(k),
            match old(self).entry(node) {
                None => !evicted && final(self).entry(node) is None,
                Some(e) => if e.holders == 1 {
                    evicted && final(self).entry(node) is None
                } else {
                    !evicted && final(self).entry(node) == Some(
                        CacheEntry { display: e.display, holders: (e.holders - 1) as u64 },
                    )
                },
            },
    {
        match self.lookup(node) {
            None => false,
            Some(e) => {
                if e.holders <= 1 {
                    self.store(node, None);
                    true
                } else {
                    self.store(node, Some(CacheEntry { display: e.display, holders: e.holders - 1 }));
                    false
                }
            },
        }
    }
}

} // verus!
