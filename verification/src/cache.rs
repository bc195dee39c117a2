//! The file cache: one slot for each file that was asked for, with a cell
//! for its parsed source and a cell for its raw bytes.

use crate::cell::{revalidated, CellState, SlotCell};
use crate::error::FileError;
use crate::keyed::{
    as_map, distinct, key_at, lemma_absent, lemma_empty, lemma_map_values, lemma_push,
    lemma_update, lemma_value_at, position,
};
use crate::outside::{bytes_new, fingerprint_of, loaded_view, same_file, source_file};
use crate::parsing::{parse_source, parsed, wrapped};
use typst::foundations::Bytes;
use typst::syntax::{FileId, Source};
use vstd::prelude::*;

verus! {

/// How a cell of a file slot changes when it is read and the file is
/// loaded, and what it hands out. `processed` relates the loaded bytes to
/// their processed form.
pub open spec fn refreshed<T>(
    pre: CellState<T>,
    loaded: Result<Vec<u8>, FileError>,
    processed: spec_fn(Seq<u8>, Result<T, FileError>) -> bool,
    post: CellState<T>,
    result: Result<T, FileError>,
) -> bool {
    let fingerprint = fingerprint_of(loaded_view(loaded));
    &&& post.accessed
    &&& post.fingerprint == fingerprint
    &&& post.data == Some(result)
    &&& if pre.fingerprint == fingerprint && pre.data is Some {
        pre.data == Some(result)
    } else {
        match loaded {
            Ok(bytes) => processed(bytes@, result),
            Err(error) => result == Err::<T, FileError>(error),
        }
    }
}

/// How the source cell of a slot changes when it is read and the file is
/// loaded.
pub open spec fn source_refreshed(
    id: FileId,
    pre: CellState<Source>,
    loaded: Result<Vec<u8>, FileError>,
    post: CellState<Source>,
    result: Result<Source, FileError>,
) -> bool {
    refreshed(
        pre,
        loaded,
        |bytes: Seq<u8>, outcome: Result<Source, FileError>| parsed(id, bytes, outcome),
        post,
        result,
    )
}

/// How the raw-bytes cell of a slot changes when it is read and the file is
/// loaded.
pub open spec fn file_refreshed(
    pre: CellState<Bytes>,
    loaded: Result<Vec<u8>, FileError>,
    post: CellState<Bytes>,
    result: Result<Bytes, FileError>,
) -> bool {
    refreshed(
        pre,
        loaded,
        |bytes: Seq<u8>, outcome: Result<Bytes, FileError>| wrapped(bytes, outcome),
        post,
        result,
    )
}

/// What a file slot holds, as contracts see it.
pub struct SlotState {
    pub id: FileId,
    pub source: CellState<Source>,
    pub file: CellState<Bytes>,
}

impl SlotState {
    /// A source that the slot holds is a source for the file of the slot.
    pub open spec fn wf(self) -> bool {
        self.source.data matches Some(Ok(source)) ==> source_file(source) == self.id
    }
}

/// Holds the processed data for a file identity. Both cells can be
/// populated if the file is both imported and read as raw data.
pub struct FileSlot {
    /// The slot's file identity.
    id: FileId,
    /// The lazily loaded and incrementally updated source file.
    source: SlotCell<Source>,
    /// The lazily loaded raw byte buffer.
    file: SlotCell<Bytes>,
}

impl View for FileSlot {
    type V = SlotState;

    closed spec fn view(&self) -> SlotState {
        SlotState { id: self.id, source: self.source@, file: self.file@ }
    }
}

impl FileSlot {
    /// Creates a new file slot, with nothing cached.
    pub fn new(id: FileId) -> (slot: Self)
        ensures
            slot@.wf(),
            slot@.id == id,
            slot@.source == (CellState::<Source> { data: None, fingerprint: 0, accessed: false }),
            slot@.file == (CellState::<Bytes> { data: None, fingerprint: 0, accessed: false }),
    {
        Self { id, file: SlotCell::new(), source: SlotCell::new() }
    }

    /// The identity of the file that the slot is for.
    pub fn id(&self) -> (id: FileId)
        ensures
            id == self@.id,
    {
        self.id
    }

    /// Whether the file was accessed in the ongoing compilation.
    pub fn accessed(&self) -> (accessed: bool)
        ensures
            accessed == (self@.source.accessed || self@.file.accessed),
    {
        self.source.accessed() || self.file.accessed()
    }

    /// Marks the file as not yet accessed in preparation of the next
    /// compilation.
    pub fn reset(&mut self)
        ensures
            old(self)@.wf() ==> final(self)@.wf(),
            final(self)@ == (SlotState {
                id: old(self)@.id,
                source: CellState { accessed: false, ..old(self)@.source },
                file: CellState { accessed: false, ..old(self)@.file },
            }),
    {
        self.source.reset();
        self.file.reset();
    }

    /// The source that the slot holds from this or an earlier compilation,
    /// if its last load and parse succeeded.
    pub fn cached_source(&self) -> (source: Option<Source>)
        ensures
            source == self@.source.previous(),
    {
        self.source.previous()
    }

    /// Retrieves the source for this file; `load` reads its bytes.
    pub fn source<L>(&mut self, load: L) -> (result: Result<Source, FileError>) where
        L: FnOnce() -> Result<Vec<u8>, FileError>,

        requires
            old(self)@.wf(),
            call_requires(load, ()),
        ensures
            final(self)@.wf(),
            final(self)@.id == old(self)@.id,
            final(self)@.file == old(self)@.file,
            final(self)@.source.wf(),
            old(self)@.source.accessed && old(self)@.source.data is Some ==> {
                &&& final(self)@ == old(self)@
                &&& old(self)@.source.data == Some(result)
            },
            !(old(self)@.source.accessed && old(self)@.source.data is Some) ==> exists|
                loaded: Result<Vec<u8>, FileError>,
            |
                {
                    &&& call_ensures(load, (), loaded)
                    &&& #[trigger] source_refreshed(
                        old(self)@.id,
                        old(self)@.source,
                        loaded,
                        final(self)@.source,
                        result,
                    )
                },
    {
        let id = self.id;
        let parse = |data: Vec<u8>, prev: Option<Source>| -> (outcome: Result<Source, FileError>)
            requires
                prev matches Some(previous) ==> source_file(previous) == id,
            ensures
                parsed(id, data@, outcome),
            { parse_source(id, data, prev) };
        let result = self.source.get_or_init(load, parse);
        proof {
            if !(old(self)@.source.accessed && old(self)@.source.data is Some) {
                let loaded = choose|loaded: Result<Vec<u8>, FileError>|
                    {
                        &&& call_ensures(load, (), loaded)
                        &&& #[trigger] revalidated(
                            old(self)@.source,
                            loaded,
                            fingerprint_of(loaded_view(loaded)),
                            parse,
                            self@.source,
                            result,
                        )
                    };
                assert(source_refreshed(
                    old(self)@.id,
                    old(self)@.source,
                    loaded,
                    self@.source,
                    result,
                ));
            }
        }
        result
    }

    /// Retrieves the file's bytes; `load` reads them.
    pub fn file<L>(&mut self, load: L) -> (result: Result<Bytes, FileError>) where
        L: FnOnce() -> Result<Vec<u8>, FileError>,

        requires
            call_requires(load, ()),
        ensures
            old(self)@.wf() ==> final(self)@.wf(),
            final(self)@.id == old(self)@.id,
            final(self)@.source == old(self)@.source,
            final(self)@.file.wf(),
            old(self)@.file.accessed && old(self)@.file.data is Some ==> {
                &&& final(self)@ == old(self)@
                &&& old(self)@.file.data == Some(result)
            },
            !(old(self)@.file.accessed && old(self)@.file.data is Some) ==> exists|
                loaded: Result<Vec<u8>, FileError>,
            |
                {
                    &&& call_ensures(load, (), loaded)
                    &&& #[trigger] file_refreshed(
                        old(self)@.file,
                        loaded,
                        final(self)@.file,
                        result,
                    )
                },
    {
        let wrap = |data: Vec<u8>, prev: Option<Bytes>| -> (outcome: Result<Bytes, FileError>)
            ensures
                wrapped(data@, outcome),
            { Ok(bytes_new(data)) };
        let result = self.file.get_or_init(load, wrap);
        proof {
            if !(old(self)@.file.accessed && old(self)@.file.data is Some) {
                let loaded = choose|loaded: Result<Vec<u8>, FileError>|
                    {
                        &&& call_ensures(load, (), loaded)
                        &&& #[trigger] revalidated(
                            old(self)@.file,
                            loaded,
                            fingerprint_of(loaded_view(loaded)),
                            wrap,
                            self@.file,
                            result,
                        )
                    };
                assert(file_refreshed(old(self)@.file, loaded, self@.file, result));
            }
        }
        result
    }
}

/// A slot that nothing was read through yet.
pub open spec fn fresh_slot(id: FileId) -> SlotState {
    SlotState {
        id,
        source: CellState { data: None, fingerprint: 0, accessed: false },
        file: CellState { data: None, fingerprint: 0, accessed: false },
    }
}

/// A slot marked as not accessed; what it holds stays.
pub open spec fn reset_slot(slot: SlotState) -> SlotState {
    SlotState {
        id: slot.id,
        source: CellState { accessed: false, ..slot.source },
        file: CellState { accessed: false, ..slot.file },
    }
}

/// Whether a slot was read in the ongoing compilation.
pub open spec fn slot_accessed(slot: SlotState) -> bool {
    slot.source.accessed || slot.file.accessed
}

/// The identities of the slots, in their order.
pub open spec fn slot_ids(slots: Seq<FileSlot>) -> Seq<FileId> {
    slots.map_values(|slot: FileSlot| slot@.id)
}

/// What the slots hold, in their order.
pub open spec fn slot_states(slots: Seq<FileSlot>) -> Seq<SlotState> {
    slots.map_values(|slot: FileSlot| slot@)
}

/// The slots as a map from identity to slot.
pub open spec fn states(slots: Seq<FileSlot>) -> Map<FileId, SlotState> {
    as_map(slot_ids(slots), slot_states(slots))
}

/// The slot that a read of `id` starts from: its slot, or a fresh one.
pub open spec fn slot_before(cache: Map<FileId, SlotState>, id: FileId) -> SlotState {
    if cache.contains_key(id) {
        cache[id]
    } else {
        fresh_slot(id)
    }
}

/// How a cache changes when the source of `id` is fetched through it, and
/// what comes back.
///
/// Only the slot of `id` changes, and of it only the source cell. A cell
/// that was already read in this compilation hands out what it holds and
/// `load` is not called. Otherwise the cell is revalidated against what
/// `load` returns.
pub open spec fn source_fetched<L: FnOnce() -> Result<Vec<u8>, FileError>>(
    pre: Map<FileId, SlotState>,
    id: FileId,
    load: L,
    post: Map<FileId, SlotState>,
    result: Result<Source, FileError>,
) -> bool {
    let cell = slot_before(pre, id).source;
    &&& post.contains_key(id)
    &&& post == pre.insert(id, post[id])
    &&& post[id].id == id
    &&& post[id].file == slot_before(pre, id).file
    &&& post[id].source.wf()
    &&& if cell.accessed && cell.data is Some {
        &&& post[id].source == cell
        &&& cell.data == Some(result)
    } else {
        exists|loaded: Result<Vec<u8>, FileError>|
            {
                &&& call_ensures(load, (), loaded)
                &&& #[trigger] source_refreshed(id, cell, loaded, post[id].source, result)
            }
    }
}

/// How a cache changes when the bytes of `id` are fetched through it, and
/// what comes back. As for a source, with the raw-bytes cell in place of
/// the source cell.
pub open spec fn file_fetched<L: FnOnce() -> Result<Vec<u8>, FileError>>(
    pre: Map<FileId, SlotState>,
    id: FileId,
    load: L,
    post: Map<FileId, SlotState>,
    result: Result<Bytes, FileError>,
) -> bool {
    let cell = slot_before(pre, id).file;
    &&& post.contains_key(id)
    &&& post == pre.insert(id, post[id])
    &&& post[id].id == id
    &&& post[id].source == slot_before(pre, id).source
    &&& post[id].file.wf()
    &&& if cell.accessed && cell.data is Some {
        &&& post[id].file == cell
        &&& cell.data == Some(result)
    } else {
        exists|loaded: Result<Vec<u8>, FileError>|
            {
                &&& call_ensures(load, (), loaded)
                &&& #[trigger] file_refreshed(cell, loaded, post[id].file, result)
            }
    }
}

/// The file cache of a world: one slot for each file identity that was
/// asked for. Slots are created on first reference and stay for good.
pub struct FileCache {
    slots: Vec<FileSlot>,
}

impl View for FileCache {
    type V = Map<FileId, SlotState>;

    closed spec fn view(&self) -> Map<FileId, SlotState> {
        states(self.slots@)
    }
}

impl FileCache {
    /// No identity has two slots, and every slot is well formed.
    pub closed spec fn wf(&self) -> bool {
        &&& distinct(slot_ids(self.slots@))
        &&& forall|i: int| 0 <= i < self.slots@.len() ==> (#[trigger] self.slots@[i])@.wf()
    }

    /// A cache without slots.
    pub fn new() -> (cache: Self)
        ensures
            cache.wf(),
            cache@ == Map::<FileId, SlotState>::empty(),
    {
        let cache = FileCache { slots: Vec::new() };
        proof {
            lemma_empty(slot_ids(cache.slots@), slot_states(cache.slots@));
        }
        cache
    }

    /// The index of the slot of `id`.
    fn position(&self, id: FileId) -> (at: Option<usize>)
        ensures
            match at {
                Some(i) => key_at(slot_ids(self.slots@), id, i as int),
                None => forall|i: int| !key_at(slot_ids(self.slots@), id, i),
            },
    {
        let is_it = |slot: &FileSlot| -> (same: bool)
            ensures
                same == (slot@.id == id),
            { same_file(slot.id(), id) };
        position(&self.slots, is_it)
    }

    /// The index of the slot of `id`, which is created if there is none.
    fn slot_index(&mut self, id: FileId) -> (at: usize)
        requires
            old(self).wf(),
        ensures
            final(self).wf(),
            key_at(slot_ids(final(self).slots@), id, at as int),
            final(self).slots@[at as int]@ == slot_before(old(self)@, id),
            final(self)@ == old(self)@.insert(id, slot_before(old(self)@, id)),
    {
        let ghost ids = slot_ids(self.slots@);
        let ghost held = slot_states(self.slots@);
        match self.position(id) {
            Some(i) => {
                proof {
                    lemma_value_at(ids, held, i as int);
                    assert(self@ =~= old(self)@.insert(id, slot_before(old(self)@, id)));
                }
                i
            },
            None => {
                self.slots.push(FileSlot::new(id));
                proof {
                    lemma_absent(ids, held, id);
                    lemma_push(ids, held, id, fresh_slot(id));
                    assert(slot_ids(self.slots@) =~= ids.push(id));
                    assert(slot_states(self.slots@) =~= held.push(fresh_slot(id)));
                }
                self.slots.len() - 1
            },
        }
    }

    /// The source that the cache holds for `id` from this or an earlier
    /// compilation, if its last load and parse succeeded. Nothing is loaded.
    pub fn cached_source(&self, id: FileId) -> (source: Option<Source>)
        requires
            self.wf(),
        ensures
            source == if self@.contains_key(id) {
                self@[id].source.previous()
            } else {
                None
            },
            source matches Some(cached) ==> source_file(cached) == id,
    {
        match self.position(id) {
            Some(i) => {
                proof {
                    lemma_value_at(slot_ids(self.slots@), slot_states(self.slots@), i as int);
                }
                self.slots[i].cached_source()
            },
            None => {
                proof {
                    lemma_absent(slot_ids(self.slots@), slot_states(self.slots@), id);
                }
                None
            },
        }
    }

    /// Retrieves the source of `id` through its slot; `load` reads the
    /// bytes of the file.
    pub fn source<L>(&mut self, id: FileId, load: L) -> (result: Result<Source, FileError>) where
        L: FnOnce() -> Result<Vec<u8>, FileError>,

        requires
            old(self).wf(),
            call_requires(load, ()),
        ensures
            final(self).wf(),
            source_fetched(old(self)@, id, load, final(self)@, result),
    {
        let at = self.slot_index(id);
        let ghost ids = slot_ids(self.slots@);
        let ghost held = slot_states(self.slots@);
        let result = self.slots[at].source(load);
        proof {
            lemma_update(ids, held, at as int, self.slots@[at as int]@);
            assert(slot_ids(self.slots@) =~= ids);
            assert(slot_states(self.slots@) =~= held.update(at as int, self.slots@[at as int]@));
            assert(self@ =~= old(self)@.insert(id, self@[id]));
        }
        result
    }

    /// Retrieves the bytes of `id` through its slot; `load` reads the bytes
    /// of the file.
    pub fn file<L>(&mut self, id: FileId, load: L) -> (result: Result<Bytes, FileError>) where
        L: FnOnce() -> Result<Vec<u8>, FileError>,

        requires
            old(self).wf(),
            call_requires(load, ()),
        ensures
            final(self).wf(),
            file_fetched(old(self)@, id, load, final(self)@, result),
    {
        let at = self.slot_index(id);
        let ghost ids = slot_ids(self.slots@);
        let ghost held = slot_states(self.slots@);
        let result = self.slots[at].file(load);
        proof {
            lemma_update(ids, held, at as int, self.slots@[at as int]@);
            assert(slot_ids(self.slots@) =~= ids);
            assert(slot_states(self.slots@) =~= held.update(at as int, self.slots@[at as int]@));
            assert(self@ =~= old(self)@.insert(id, self@[id]));
        }
        result
    }

    /// Marks every slot as not yet accessed, in preparation of the next
    /// compilation. No slot is dropped and what the slots hold stays.
    pub fn reset(&mut self)
        requires
            old(self).wf(),
        ensures
            final(self).wf(),
            final(self)@ == old(self)@.map_values(|slot: SlotState| reset_slot(slot)),
    {
        let ghost before = self.slots@;
        let mut i: usize = 0;
        while i < self.slots.len()
            invariant
                i <= self.slots.len(),
                self.slots@.len() == before.len(),
                forall|k: int| 0 <= k < i ==> self.slots@[k]@ == reset_slot(before[k]@),
                forall|k: int| i <= k < before.len() ==> self.slots@[k] == before[k],
            decreases self.slots.len() - i,
        {
            self.slots[i].reset();
            i += 1;
        }
        proof {
            let reset = |slot: SlotState| reset_slot(slot);
            lemma_map_values(slot_ids(before), slot_states(before), reset);
            assert(slot_ids(self.slots@) =~= slot_ids(before));
            assert(slot_states(self.slots@) =~= slot_states(before).map_values(reset));
            assert(self@ =~= old(self)@.map_values(|slot: SlotState| reset_slot(slot)));
        }
    }

    /// The identities of the files that were read in the ongoing
    /// compilation, each once.
    pub fn accessed(&self) -> (ids: Vec<FileId>)
        requires
            self.wf(),
        ensures
            ids@.no_duplicates(),
            forall|id: FileId|
                ids@.contains(id) <==> self@.contains_key(id) && slot_accessed(self@[id]),
    {
        let ghost keys = slot_ids(self.slots@);
        let ghost held = slot_states(self.slots@);
        let mut ids: Vec<FileId> = Vec::new();
        let mut i: usize = 0;
        while i < self.slots.len()
            invariant
                i <= self.slots.len(),
                keys == slot_ids(self.slots@),
                held == slot_states(self.slots@),
                distinct(keys),
                ids@.no_duplicates(),
                forall|id: FileId|
                    ids@.contains(id) <==> exists|k: int|
                        0 <= k < i && #[trigger] key_at(keys, id, k) && slot_accessed(held[k]),
            decreases self.slots.len() - i,
        {
            if self.slots[i].accessed() {
                let id = self.slots[i].id();
                proof {
                    assert(key_at(keys, id, i as int));
                    if ids@.contains(id) {
                        let k = choose|k: int|
                            0 <= k < i && #[trigger] key_at(keys, id, k) && slot_accessed(held[k]);
                        assert(false);
                    }
                }
                let ghost earlier = ids@;
                ids.push(id);
                proof {
                    assert forall|other: FileId|
                        ids@.contains(other) <==> exists|k: int|
                            0 <= k < i + 1 && #[trigger] key_at(keys, other, k) && slot_accessed(
                                held[k],
                            ) by {
                        if ids@.contains(other) {
                            let at = choose|at: int| 0 <= at < ids@.len() && ids@[at] == other;
                            if at < earlier.len() {
                                assert(earlier[at] == other);
                                assert(earlier.contains(other));
                            }
                        }
                        if exists|k: int|
                            0 <= k < i + 1 && #[trigger] key_at(keys, other, k) && slot_accessed(
                                held[k],
                            ) {
                            let k = choose|k: int|
                                0 <= k < i + 1 && #[trigger] key_at(keys, other, k)
                                    && slot_accessed(held[k]);
                            if k < i {
                                assert(earlier.contains(other));
                                let at = choose|at: int|
                                    0 <= at < earlier.len() && earlier[at] == other;
                                assert(ids@[at] == other);
                            } else {
                                assert(ids@[earlier.len() as int] == other);
                            }
                        }
                    }
                }
            }
            i += 1;
        }
        proof {
            assert forall|id: FileId|
                ids@.contains(id) <==> self@.contains_key(id) && slot_accessed(self@[id]) by {
                if exists|k: int| key_at(keys, id, k) {
                    let k = choose|k: int| key_at(keys, id, k);
                    lemma_value_at(keys, held, k);
                }
            }
        }
        ids
    }
}

} // verus!
