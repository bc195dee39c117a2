//! The virtual-file overlay: file contents held in memory that shadow the
//! disk for the identities they are set for.

use crate::keyed::{
    as_map, distinct, key_at, lemma_absent, lemma_empty, lemma_push, lemma_remove, lemma_update,
    lemma_value_at, position,
};
use crate::outside::same_file;
use typst::syntax::FileId;
use vstd::prelude::*;

verus! {

/// The content set for one file identity.
pub struct OverlayEntry {
    pub id: FileId,
    pub content: Vec<u8>,
}

/// The identities of the entries, in their order.
pub open spec fn entry_ids(entries: Seq<OverlayEntry>) -> Seq<FileId> {
    entries.map_values(|entry: OverlayEntry| entry.id)
}

/// The contents of the entries, in their order.
pub open spec fn entry_contents(entries: Seq<OverlayEntry>) -> Seq<Seq<u8>> {
    entries.map_values(|entry: OverlayEntry| entry.content@)
}

/// The entries as a map from identity to content.
pub open spec fn contents(entries: Seq<OverlayEntry>) -> Map<FileId, Seq<u8>> {
    as_map(entry_ids(entries), entry_contents(entries))
}

/// File contents in memory, keyed by file identity.
pub struct VirtualFileOverlay {
    entries: Vec<OverlayEntry>,
}

impl View for VirtualFileOverlay {
    type V = Map<FileId, Seq<u8>>;

    closed spec fn view(&self) -> Map<FileId, Seq<u8>> {
        contents(self.entries@)
    }
}

impl VirtualFileOverlay {
    /// No identity has two entries.
    pub closed spec fn wf(&self) -> bool {
        distinct(entry_ids(self.entries@))
    }

    /// An overlay without entries.
    pub fn new() -> (overlay: Self)
        ensures
            overlay.wf(),
            overlay@ == Map::<FileId, Seq<u8>>::empty(),
    {
        let overlay = VirtualFileOverlay { entries: Vec::new() };
        proof {
            lemma_empty(entry_ids(overlay.entries@), entry_contents(overlay.entries@));
        }
        overlay
    }

    /// The index of the entry for `id`.
    fn position(&self, id: FileId) -> (at: Option<usize>)
        ensures
            match at {
                Some(i) => key_at(entry_ids(self.entries@), id, i as int),
                None => forall|i: int| !key_at(entry_ids(self.entries@), id, i),
            },
    {
        let is_it = |entry: &OverlayEntry| -> (same: bool)
            ensures
                same == (entry.id == id),
            { same_file(entry.id, id) };
        position(&self.entries, is_it)
    }

    /// The content set for `id`, if there is any.
    pub fn get(&self, id: FileId) -> (content: Option<&Vec<u8>>)
        requires
            self.wf(),
        ensures
            match content {
                Some(bytes) => self@.contains_key(id) && self@[id] == bytes@,
                None => !self@.contains_key(id),
            },
    {
        let ghost ids = entry_ids(self.entries@);
        let ghost held = entry_contents(self.entries@);
        match self.position(id) {
            Some(i) => {
                proof {
                    lemma_value_at(ids, held, i as int);
                }
                Some(&self.entries[i].content)
            },
            None => {
                proof {
                    lemma_absent(ids, held, id);
                }
                None
            },
        }
    }

    /// Sets the content for `id`, replacing what was set before.
    pub fn set(&mut self, id: FileId, content: Vec<u8>)
        requires
            old(self).wf(),
        ensures
            final(self).wf(),
            final(self)@ == old(self)@.insert(id, content@),
    {
        let ghost ids = entry_ids(self.entries@);
        let ghost held = entry_contents(self.entries@);
        match self.position(id) {
            Some(i) => {
                self.entries[i].content = content;
                proof {
                    lemma_update(ids, held, i as int, content@);
                    assert(entry_ids(self.entries@) =~= ids);
                    assert(entry_contents(self.entries@) =~= held.update(i as int, content@));
                }
            },
            None => {
                self.entries.push(OverlayEntry { id, content });
                proof {
                    lemma_push(ids, held, id, content@);
                    assert(entry_ids(self.entries@) =~= ids.push(id));
                    assert(entry_contents(self.entries@) =~= held.push(content@));
                }
            },
        }
    }

    /// Appends to the content for `id`; where nothing was set, the chunk
    /// becomes the content.
    pub fn append(&mut self, id: FileId, chunk: Vec<u8>)
        requires
            old(self).wf(),
        ensures
            final(self).wf(),
            final(self)@ == old(self)@.insert(
                id,
                if old(self)@.contains_key(id) {
                    old(self)@[id] + chunk@
                } else {
                    chunk@
                },
            ),
    {
        let ghost ids = entry_ids(self.entries@);
        let ghost held = entry_contents(self.entries@);
        let ghost added = chunk@;
        let mut chunk = chunk;
        match self.position(id) {
            Some(i) => {
                self.entries[i].content.append(&mut chunk);
                proof {
                    lemma_value_at(ids, held, i as int);
                    lemma_update(ids, held, i as int, held[i as int] + added);
                    assert(entry_ids(self.entries@) =~= ids);
                    assert(entry_contents(self.entries@) =~= held.update(
                        i as int,
                        held[i as int] + added,
                    ));
                }
            },
            None => {
                self.entries.push(OverlayEntry { id, content: chunk });
                proof {
                    lemma_absent(ids, held, id);
                    lemma_push(ids, held, id, added);
                    assert(entry_ids(self.entries@) =~= ids.push(id));
                    assert(entry_contents(self.entries@) =~= held.push(added));
                }
            },
        }
    }

    /// Removes the content for `id`, if there is any.
    pub fn clear(&mut self, id: FileId)
        requires
            old(self).wf(),
        ensures
            final(self).wf(),
            final(self)@ == old(self)@.remove(id),
    {
        let ghost ids = entry_ids(self.entries@);
        let ghost held = entry_contents(self.entries@);
        match self.position(id) {
            Some(i) => {
                self.entries.remove(i);
                proof {
                    lemma_remove(ids, held, i as int);
                    assert(entry_ids(self.entries@) =~= ids.remove(i as int));
                    assert(entry_contents(self.entries@) =~= held.remove(i as int));
                }
            },
            None => {
                proof {
                    lemma_absent(ids, held, id);
                    assert(self@ =~= old(self)@.remove(id));
                }
            },
        }
    }
}

} // verus!
