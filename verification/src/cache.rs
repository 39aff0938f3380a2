//! The parse cache: memoizes the front-end's parse result per document,
//! keyed by a fingerprint of the content. The cache is advisory:
//! staleness is resolved by recomputation, and invalidation on change is
//! the document store's change handler's duty, not this module's.

use vstd::prelude::*;
use crate::ast::Program;
use crate::table::Table;
use crate::text::{fingerprint, spec_fingerprint};

verus! {

/// The number of entries above which the whole cache is cleared before
/// the next insert: a deliberate trade of recompute cost for simplicity
/// over precise least-recently-used eviction.
pub const CACHE_CAPACITY: usize = 50;

struct CachedParse {
    fingerprint: u64,
    program: Program,
}

/// The memoized parses: document identity to (fingerprint, program).
pub struct ParseCache {
    entries: Table<CachedParse>,
}

/// What a cache lookup yields on a state `m`: the program stored for
/// `id`, provided its stored fingerprint is the fingerprint of `text`.
pub open spec fn spec_lookup(
    m: Map<Seq<char>, (u64, Program)>,
    id: Seq<char>,
    text: Seq<char>,
) -> Option<Program> {
    if m.contains_key(id) && m[id].0 == spec_fingerprint(text) {
        Some(m[id].1)
    } else {
        None
    }
}

impl ParseCache {
    /// What the cache holds: identity to (fingerprint, program).
    pub closed spec fn view(&self) -> Map<Seq<char>, (u64, Program)> {
        Map::new(
            |k: Seq<char>| self.entries@.contains_key(k),
            |k: Seq<char>| (self.entries@[k].fingerprint, self.entries@[k].program),
        )
    }

    /// Keys unique, and never more than one entry over capacity.
    pub closed spec fn wf(&self) -> bool {
        self.entries.wf() && self.entries.spec_len() <= CACHE_CAPACITY + 1
    }

    /// The number of entries held.
    pub closed spec fn spec_len(&self) -> nat {
        self.entries.spec_len()
    }

    /// An empty cache.
    pub fn new() -> (r: ParseCache)
        ensures
            r.wf(),
            r@ == Map::<Seq<char>, (u64, Program)>::empty(),
            r.spec_len() == 0,
    {
        let r = ParseCache { entries: Table::new() };
        proof {
            assert(r@ =~= Map::<Seq<char>, (u64, Program)>::empty());
        }
        r
    }

    /// The number of entries held.
    pub fn len(&self) -> (r: usize)
        ensures
            r == self.spec_len(),
    {
        self.entries.len()
    }

    /// The cached program for `id`, provided its stored fingerprint
    /// matches the fingerprint of `text`: a hit returns the program
    /// without any front-end involvement.
    pub fn lookup(&self, id: &String, text: &str) -> (r: Option<&Program>)
        ensures
            match r {
                Some(p) => spec_lookup(self@, id@, text@) == Some(*p),
                None => spec_lookup(self@, id@, text@) is None,
            },
    {
        match self.entries.get(id) {
            Some(c) => {
                let fp = fingerprint(text);
                if c.fingerprint == fp {
                    Some(&c.program)
                } else {
                    None
                }
            },
            None => None,
        }
    }

    /// Memoizes a fresh parse of `text` for `id`. When the cache is over
    /// capacity, the whole cache is cleared before the insert.
    pub fn store(&mut self, id: &String, text: &str, program: Program)
        requires
            old(self).wf(),
        ensures
            final(self).wf(),
            final(self)@ == if old(self).spec_len() > CACHE_CAPACITY {
                Map::<Seq<char>, (u64, Program)>::empty().insert(
                    id@,
                    (spec_fingerprint(text@), program),
                )
            } else {
                old(self)@.insert(id@, (spec_fingerprint(text@), program))
            },
    {
        let ghost p = program;
        if self.entries.len() > CACHE_CAPACITY {
            self.entries.clear();
        }
        let fp = fingerprint(text);
        self.entries.upsert(id, CachedParse { fingerprint: fp, program });
        proof {
            if old(self).spec_len() > CACHE_CAPACITY {
                assert(self@ =~= Map::<Seq<char>, (u64, Program)>::empty().insert(
                    id@,
                    (spec_fingerprint(text@), p),
                ));
            } else {
                assert(self@ =~= old(self)@.insert(id@, (spec_fingerprint(text@), p)));
            }
        }
    }

    /// Drops the entry for `id`, if any: eager invalidation on change.
    pub fn invalidate(&mut self, id: &String)
        requires
            old(self).wf(),
        ensures
            final(self).wf(),
            final(self)@ == old(self)@.remove(id@),
    {
        self.entries.remove_key(id);
        proof {
            assert(self@ =~= old(self)@.remove(id@));
        }
    }

    /// Drops every entry; used at shutdown.
    pub fn clear(&mut self)
        ensures
            final(self).wf(),
            final(self)@ == Map::<Seq<char>, (u64, Program)>::empty(),
            final(self).spec_len() == 0,
    {
        self.entries.clear();
        proof {
            assert(self@ =~= Map::<Seq<char>, (u64, Program)>::empty());
        }
    }
}

} // verus!
