//! The backend: the state one language-service instance owns — the
//! document store, the parse cache and the built-in catalog — and the
//! handlers for document lifecycle notifications.

use vstd::prelude::*;
use crate::ast::Program;
use crate::cache::ParseCache;
use crate::frontend::BuiltinFn;
use crate::store::{DocumentStore, spec_byte_len, DEFAULT_MAX_DOCUMENT_SIZE};

verus! {

/// One language-service instance: document texts, memoized parses, and
/// the front-end's built-in catalog, fixed at construction.
pub struct Backend {
    pub documents: DocumentStore,
    pub parsed_cache: ParseCache,
    pub builtins: Vec<BuiltinFn>,
}

impl Backend {
    pub open spec fn wf(&self) -> bool {
        self.documents.wf() && self.parsed_cache.wf()
    }

    /// A fresh backend with no documents, an empty cache, the default
    /// document size ceiling, and the given built-in catalog.
    pub fn new(builtins: Vec<BuiltinFn>) -> (r: Backend)
        ensures
            r.wf(),
            r.documents@ == Map::<Seq<char>, Seq<char>>::empty(),
            r.parsed_cache@ == Map::<Seq<char>, (u64, Program)>::empty(),
            r.documents.spec_max_size() == DEFAULT_MAX_DOCUMENT_SIZE,
            r.builtins == builtins,
    {
        let r = Backend {
            documents: DocumentStore::new(DEFAULT_MAX_DOCUMENT_SIZE),
            parsed_cache: ParseCache::new(),
            builtins,
        };
        r
    }

    /// Handles an open notification: stores the text (unless oversized,
    /// in which case nothing changes and the prior content stays
    /// authoritative) and invalidates the document's cache entry.
    pub fn did_open(&mut self, id: &String, text: String) -> (accepted: bool)
        requires
            old(self).wf(),
        ensures
            final(self).wf(),
            final(self).builtins == old(self).builtins,
            final(self).documents.spec_max_size() == old(self).documents.spec_max_size(),
            accepted == (spec_byte_len(text@) <= old(self).documents.spec_max_size()),
            accepted ==> final(self).documents@ == old(self).documents@.insert(id@, text@)
                && final(self).parsed_cache@ == old(self).parsed_cache@.remove(id@),
            !accepted ==> final(self).documents@ == old(self).documents@
                && final(self).parsed_cache@ == old(self).parsed_cache@,
    {
        let accepted = self.documents.open(id, text);
        if accepted {
            self.parsed_cache.invalidate(id);
        }
        accepted
    }

    /// Handles a change notification: a full replace with the same
    /// guarded update and cache invalidation as `did_open`.
    pub fn did_change(&mut self, id: &String, text: String) -> (accepted: bool)
        requires
            old(self).wf(),
        ensures
            final(self).wf(),
            final(self).builtins == old(self).builtins,
            final(self).documents.spec_max_size() == old(self).documents.spec_max_size(),
            accepted == (spec_byte_len(text@) <= old(self).documents.spec_max_size()),
            accepted ==> final(self).documents@ == old(self).documents@.insert(id@, text@)
                && final(self).parsed_cache@ == old(self).parsed_cache@.remove(id@),
            !accepted ==> final(self).documents@ == old(self).documents@
                && final(self).parsed_cache@ == old(self).parsed_cache@,
    {
        self.did_open(id, text)
    }

    /// Clears documents and cache: used at shutdown to free memory.
    pub fn shutdown(&mut self)
        ensures
            final(self).wf(),
            final(self).builtins == old(self).builtins,
            final(self).documents@ == Map::<Seq<char>, Seq<char>>::empty(),
            final(self).parsed_cache@ == Map::<Seq<char>, (u64, Program)>::empty(),
    {
        self.documents.clear();
        self.parsed_cache.clear();
    }
}

} // verus!
