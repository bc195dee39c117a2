//! Cache cells: each keeps the processed form of one file, and is
//! revalidated at most once per compilation by a fingerprint of what was
//! loaded.

use crate::error::FileError;
use crate::outside::{fingerprint, fingerprint_of, loaded_view};
use vstd::pervasive::cloned;
use vstd::prelude::*;

verus! {

/// What a cell holds, as contracts see it.
pub struct CellState<T> {
    /// The outcome of the last load and transform, if there was one.
    pub data: Option<Result<T, FileError>>,
    /// The fingerprint of what was last loaded.
    pub fingerprint: u128,
    /// Whether the cell was read in the current compilation.
    pub accessed: bool,
}

impl<T> CellState<T> {
    /// The last value that was processed successfully, if the cell holds one.
    pub open spec fn previous(self) -> Option<T> {
        match self.data {
            Some(Ok(value)) => Some(value),
            _ => None,
        }
    }

    /// A cell that has been read holds an outcome.
    pub open spec fn wf(self) -> bool {
        self.accessed ==> self.data is Some
    }
}

/// Lazily processes data for a file.
pub struct SlotCell<T> {
    /// The processed data.
    data: Option<Result<T, FileError>>,
    /// A hash of the raw file contents or of the access error.
    fingerprint: u128,
    /// Whether the cell has been accessed in the current compilation.
    accessed: bool,
}

impl<T> View for SlotCell<T> {
    type V = CellState<T>;

    closed spec fn view(&self) -> CellState<T> {
        CellState { data: self.data, fingerprint: self.fingerprint, accessed: self.accessed }
    }
}

/// `b` may be handed out in place of `a`: both fail with the same error, or
/// both succeed and `b` is a clone of `a`.
pub open spec fn same_outcome<T: Clone>(a: Result<T, FileError>, b: Result<T, FileError>) -> bool {
    match (a, b) {
        (Ok(x), Ok(y)) => cloned(x, y),
        (Err(e), Err(g)) => e == g,
        _ => false,
    }
}

/// How a cell changes when it is revalidated against freshly loaded data
/// with the given fingerprint, and what it hands out.
///
/// With an unchanged fingerprint the stored outcome is reused and `f` plays
/// no part. Otherwise a loaded error becomes the outcome, and loaded bytes
/// go through `f` together with the last successfully processed value.
pub open spec fn revalidated<T: Clone, F: FnOnce(Vec<u8>, Option<T>) -> Result<T, FileError>>(
    pre: CellState<T>,
    loaded: Result<Vec<u8>, FileError>,
    fingerprint: u128,
    f: F,
    post: CellState<T>,
    result: Result<T, FileError>,
) -> bool {
    &&& post.accessed
    &&& post.fingerprint == fingerprint
    &&& if pre.fingerprint == fingerprint && pre.data is Some {
        &&& post.data == pre.data
        &&& same_outcome(pre.data->0, result)
    } else {
        &&& post.data is Some
        &&& same_outcome(result, post.data->0)
        &&& match loaded {
            Ok(bytes) => call_ensures(f, (bytes, pre.previous()), result),
            Err(error) => result == Err::<T, FileError>(error),
        }
    }
}

/// A copy of an outcome.
fn clone_outcome<T: Clone>(outcome: &Result<T, FileError>) -> (copy: Result<T, FileError>)
    ensures
        same_outcome(*outcome, copy),
{
    match outcome {
        Ok(value) => Ok(value.clone()),
        Err(error) => Err(error.clone()),
    }
}

impl<T: Clone> SlotCell<T> {
    /// Creates a new, empty cell.
    pub fn new() -> (cell: Self)
        ensures
            cell@ == (CellState::<T> { data: None, fingerprint: 0, accessed: false }),
    {
        Self { data: None, fingerprint: 0, accessed: false }
    }

    /// Whether the cell was accessed in the ongoing compilation.
    pub fn accessed(&self) -> (accessed: bool)
        ensures
            accessed == self@.accessed,
    {
        self.accessed
    }

    /// Marks the cell as not yet accessed in preparation of the next
    /// compilation. What it holds stays.
    pub fn reset(&mut self)
        ensures
            final(self)@ == (CellState { accessed: false, ..old(self)@ }),
    {
        self.accessed = false;
    }

    /// A copy of the last value that was processed successfully, if the cell
    /// holds one.
    pub fn previous(&self) -> (value: Option<T>)
        ensures
            match value {
                Some(copy) => self@.previous() matches Some(held) && cloned(held, copy),
                None => self@.previous() is None,
            },
    {
        match &self.data {
            Some(Ok(value)) => Some(value.clone()),
            _ => None,
        }
    }

    /// Revalidates the cell against data that was just loaded and has the
    /// given fingerprint, and returns the outcome for it.
    pub fn revalidate<F>(
        &mut self,
        loaded: Result<Vec<u8>, FileError>,
        fingerprint: u128,
        f: F,
    ) -> (result: Result<T, FileError>) where F: FnOnce(Vec<u8>, Option<T>) -> Result<T, FileError>
        requires
            loaded matches Ok(bytes) ==> call_requires(f, (bytes, old(self)@.previous())),
        ensures
            revalidated(old(self)@, loaded, fingerprint, f, final(self)@, result),
    {
        self.accessed = true;
        let unchanged = self.fingerprint == fingerprint;
        self.fingerprint = fingerprint;
        if unchanged {
            if let Some(data) = &self.data {
                return clone_outcome(data);
            }
        }
        let prev: Option<T> = match self.data.take() {
            Some(Ok(value)) => Some(value),
            _ => None,
        };
        let value = match loaded {
            Ok(bytes) => f(bytes, prev),
            Err(error) => Err(error),
        };
        self.data = Some(clone_outcome(&value));
        value
    }

    /// Gets the contents of the cell or initializes them.
    ///
    /// A cell that was already read in this compilation hands out what it
    /// holds, and `load` is not called. Otherwise the file is loaded and
    /// fingerprinted, and the cell is revalidated against it.
    pub fn get_or_init<L, F>(&mut self, load: L, f: F) -> (result: Result<T, FileError>) where
        L: FnOnce() -> Result<Vec<u8>, FileError>,
        F: FnOnce(Vec<u8>, Option<T>) -> Result<T, FileError>,

        requires
            call_requires(load, ()),
            forall|bytes: Vec<u8>|
                call_ensures(load, (), Ok::<Vec<u8>, FileError>(bytes)) ==> #[trigger] call_requires(
                    f,
                    (bytes, old(self)@.previous()),
                ),
        ensures
            final(self)@.wf(),
            old(self)@.accessed && old(self)@.data is Some ==> {
                &&& final(self)@ == old(self)@
                &&& same_outcome(old(self)@.data->0, result)
            },
            !(old(self)@.accessed && old(self)@.data is Some) ==> exists|
                loaded: Result<Vec<u8>, FileError>,
            |
                {
                    &&& call_ensures(load, (), loaded)
                    &&& #[trigger] revalidated(
                        old(self)@,
                        loaded,
                        fingerprint_of(loaded_view(loaded)),
                        f,
                        final(self)@,
                        result,
                    )
                },
    {
        if self.accessed {
            if let Some(data) = &self.data {
                return clone_outcome(data);
            }
        }
        let loaded = load();
        let hash = fingerprint(&loaded);
        let ghost shown = loaded;
        let result = self.revalidate(loaded, hash, f);
        proof {
            assert(revalidated(
                old(self)@,
                shown,
                fingerprint_of(loaded_view(shown)),
                f,
                self@,
                result,
            ));
        }
        result
    }
}

} // verus!
