//! The document store: the authoritative map from document identity to
//! current full text. A document is replaced wholesale on every change;
//! an oversized text is rejected wholesale and the prior content, if
//! any, stays authoritative.

use vstd::prelude::*;
use vstd::string::*;
use crate::table::Table;

verus! {

/// The default document size ceiling, in bytes.
pub const DEFAULT_MAX_DOCUMENT_SIZE: usize = 10485760;

/// The byte length of a text, as the size ceiling measures it.
pub open spec fn spec_byte_len(text: Seq<char>) -> nat {
    vstd::utf8::encode_utf8(text).len()
}

/// The authoritative map from document identity to current full text.
pub struct DocumentStore {
    entries: Table<String>,
    max_size: usize,
}

impl DocumentStore {
    /// The stored documents: identity to text.
    pub closed spec fn view(&self) -> Map<Seq<char>, Seq<char>> {
        Map::new(
            |k: Seq<char>| self.entries@.contains_key(k),
            |k: Seq<char>| self.entries@[k]@,
        )
    }

    pub closed spec fn wf(&self) -> bool {
        self.entries.wf()
    }

    /// The size ceiling above which an update is rejected.
    pub closed spec fn spec_max_size(&self) -> usize {
        self.max_size
    }

    /// An empty store with the given size ceiling.
    pub fn new(max_size: usize) -> (r: DocumentStore)
        ensures
            r.wf(),
            r@ == Map::<Seq<char>, Seq<char>>::empty(),
            r.spec_max_size() == max_size,
    {
        let r = DocumentStore { entries: Table::new(), max_size };
        proof {
            assert(r@ =~= Map::<Seq<char>, Seq<char>>::empty());
        }
        r
    }

    /// Stores `text` under `id`, replacing any prior text — unless the
    /// text is over the size ceiling, in which case nothing changes and
    /// the call reports the rejection.
    pub fn open(&mut self, id: &String, text: String) -> (accepted: bool)
        requires
            old(self).wf(),
        ensures
            final(self).wf(),
            final(self).spec_max_size() == old(self).spec_max_size(),
            accepted == (spec_byte_len(text@) <= old(self).spec_max_size()),
            final(self)@ == if spec_byte_len(text@) <= old(self).spec_max_size() {
                old(self)@.insert(id@, text@)
            } else {
                old(self)@
            },
    {
        if text.as_str().as_bytes().len() > self.max_size {
            return false;
        }
        let ghost t = text@;
        self.entries.upsert(id, text);
        proof {
            assert(self@ =~= old(self)@.insert(id@, t));
        }
        true
    }

    /// A change is a full replace: the same guarded update as `open`.
    pub fn change(&mut self, id: &String, text: String) -> (accepted: bool)
        requires
            old(self).wf(),
        ensures
            final(self).wf(),
            final(self).spec_max_size() == old(self).spec_max_size(),
            accepted == (spec_byte_len(text@) <= old(self).spec_max_size()),
            final(self)@ == if spec_byte_len(text@) <= old(self).spec_max_size() {
                old(self)@.insert(id@, text@)
            } else {
                old(self)@
            },
    {
        self.open(id, text)
    }

    /// A point-in-time snapshot of the text stored under `id`.
    pub fn read(&self, id: &String) -> (r: Option<&String>)
        ensures
            match r {
                Some(t) => self@.contains_key(id@) && self@[id@] == t@,
                None => !self@.contains_key(id@),
            },
    {
        self.entries.get(id)
    }

    /// Drops every document; used at shutdown.
    pub fn clear(&mut self)
        ensures
            final(self).wf(),
            final(self)@ == Map::<Seq<char>, Seq<char>>::empty(),
            final(self).spec_max_size() == old(self).spec_max_size(),
    {
        self.entries.clear();
        proof {
            assert(self@ =~= Map::<Seq<char>, Seq<char>>::empty());
        }
    }
}

} // verus!
