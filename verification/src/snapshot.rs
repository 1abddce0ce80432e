//! Directory snapshots: the listing of one directory, fixed once loaded,
//! with a selection cursor that moves over it.

use vstd::prelude::*;
use crate::entry::{entries_model, Entry, EntryModel};
use crate::listing::{is_sorted, sort_entries, sorted_by_name};
use crate::path::{DirectoryPath, PathModel};

verus! {

/// Why a directory could not be read.
#[derive(Clone, Copy, Debug, PartialEq, Eq, Structural)]
pub enum LoadError {
    NotADirectory,
    AccessDenied,
    NotFound,
}

/// What a read of a directory gives: its entries, in any order, or the
/// reason for the failure.
pub type Listing = Result<Vec<Entry>, LoadError>;

/// What a read of a directory gives, as a mathematical value.
pub type ListingModel = Result<Seq<EntryModel>, LoadError>;

/// The index nearest to `target` among those of a sequence of `len` items;
/// 0 where there is none.
pub open spec fn clamp_index(target: int, len: nat) -> int {
    if len == 0 || target < 0 {
        0
    } else if target >= len {
        len - 1
    } else {
        target
    }
}

/// What a read of a directory gave: its entries in any order, or the reason
/// for the failure.
pub open spec fn listing_model(listing: Listing) -> ListingModel {
    match listing {
        Ok(entries) => Ok(entries_model(entries@)),
        Err(error) => Err(error),
    }
}

/// A directory snapshot as a mathematical value.
pub struct SnapshotModel {
    /// The directory, as the names that lead to it from the root.
    pub location: PathModel,
    pub entries: Seq<EntryModel>,
    pub selection: int,
}

impl SnapshotModel {
    /// The entries are in listing order, and the selection is the index of
    /// one of them, or 0 where there is none.
    pub open spec fn wf(self) -> bool {
        &&& is_sorted(self.entries)
        &&& self.selection == clamp_index(self.selection, self.entries.len())
    }

    /// The snapshot of `location` made from what a read of it gave: the
    /// entries in listing order, the first one selected.
    pub open spec fn of_listing(location: PathModel, entries: Seq<EntryModel>) -> SnapshotModel {
        SnapshotModel { location, entries: sorted_by_name(entries), selection: 0 }
    }

    /// What a pane shows after a read of `location`: the snapshot, or
    /// nothing if the read failed.
    pub open spec fn loaded(location: PathModel, listing: ListingModel) -> Option<SnapshotModel> {
        match listing {
            Ok(entries) => Some(SnapshotModel::of_listing(location, entries)),
            Err(_) => None,
        }
    }

    /// The entry under the selection, if the directory has any.
    pub open spec fn selected(self) -> Option<EntryModel> {
        if 0 <= self.selection < self.entries.len() {
            Some(self.entries[self.selection])
        } else {
            None
        }
    }

    /// The snapshot with the selection moved by `delta` rows, as far as the
    /// listing goes.
    pub open spec fn move_selection(self, delta: int) -> SnapshotModel {
        SnapshotModel {
            selection: clamp_index(self.selection + delta, self.entries.len()),
            ..self
        }
    }

    /// The path of the directory that the selected entry names.
    pub open spec fn selected_path(self) -> PathModel {
        self.location.push(self.entries[self.selection].name)
    }
}

/// The listing of one directory and the selection in it.
#[derive(Debug)]
pub struct DirectorySnapshot {
    location: DirectoryPath,
    entries: Vec<Entry>,
    selection: usize,
}

impl View for DirectorySnapshot {
    type V = SnapshotModel;

    closed spec fn view(&self) -> SnapshotModel {
        SnapshotModel {
            location: self.location@,
            entries: entries_model(self.entries@),
            selection: self.selection as int,
        }
    }
}

/// What a pane holds, as a mathematical value: the model of its snapshot,
/// if it has one.
pub open spec fn contents_model(contents: Option<DirectorySnapshot>) -> Option<SnapshotModel> {
    match contents {
        Some(snapshot) => Some(snapshot@),
        None => None,
    }
}

impl DirectorySnapshot {
    /// The invariant of a snapshot, stated on its model.
    pub open spec fn wf(&self) -> bool {
        self@.wf()
    }

    /// The snapshot of the directory `location`, made from the entries that
    /// a read of it gave. They are put in listing order, and the first of
    /// them is selected.
    pub fn from_entries(location: DirectoryPath, listing: Vec<Entry>) -> (snapshot:
        DirectorySnapshot)
        ensures
            snapshot.wf(),
            snapshot@ == SnapshotModel::of_listing(location@, entries_model(listing@)),
    {
        let entries = sort_entries(listing);
        DirectorySnapshot { location, entries, selection: 0 }
    }

    /// The snapshot of the directory `location` after a read of it. A read
    /// that failed fails the load with the same error.
    pub fn load(location: DirectoryPath, listing: Listing) -> (result: Result<
        DirectorySnapshot,
        LoadError,
    >)
        ensures
            match listing {
                Ok(entries) => result is Ok && result->Ok_0.wf() && result->Ok_0@
                    == SnapshotModel::of_listing(location@, entries_model(entries@)),
                Err(error) => result is Err && result->Err_0 == error,
            },
            contents_model(result.ok()) == SnapshotModel::loaded(location@, listing_model(listing)),
    {
        match listing {
            Ok(entries) => Ok(DirectorySnapshot::from_entries(location, entries)),
            Err(error) => Err(error),
        }
    }

    /// Moves the selection by `delta` rows and returns the new index. The
    /// selection stops at the first and at the last entry; in an empty
    /// directory nothing moves and the index is 0.
    pub fn move_selection(&mut self, delta: isize) -> (index: usize)
        requires
            old(self).wf(),
        ensures
            final(self).wf(),
            final(self)@ == old(self)@.move_selection(delta as int),
            index == final(self)@.selection,
            old(self)@.entries.len() > 0 ==> index < old(self)@.entries.len(),
            old(self)@.selection == 0 && delta < 0 ==> final(self)@ == old(self)@,
            old(self)@.selection + 1 == old(self)@.entries.len() && delta > 0 ==> final(self)@
                == old(self)@,
    {
        let len = self.entries.len();
        if len == 0 {
            return self.selection;
        }
        let last: usize = len - 1;
        if delta >= 0 {
            let forward: usize = delta as usize;
            if forward >= last - self.selection {
                self.selection = last;
            } else {
                self.selection = self.selection + forward;
            }
        } else {
            // -(delta + 1) is the distance less one, and it fits.
            let back_less_one: usize = (-(delta + 1)) as usize;
            if back_less_one >= self.selection {
                self.selection = 0;
            } else {
                self.selection = self.selection - back_less_one - 1;
            }
        }
        self.selection
    }

    /// The entry under the selection, or `None` in an empty directory.
    pub fn selected_entry(&self) -> (entry: Option<&Entry>)
        requires
            self.wf(),
        ensures
            match entry {
                Some(e) => self@.selected() == Some(e@),
                None => self@.selected() is None,
            },
            entry is None <==> self@.entries.len() == 0,
    {
        if self.selection < self.entries.len() {
            Some(&self.entries[self.selection])
        } else {
            None
        }
    }

    /// The directory that this snapshot lists.
    pub fn location(&self) -> (location: &DirectoryPath)
        ensures
            location@ == self@.location,
    {
        &self.location
    }

    /// The entries, in listing order.
    pub fn entries(&self) -> (entries: &Vec<Entry>)
        ensures
            entries_model(entries@) == self@.entries,
    {
        &self.entries
    }

    /// The index of the selected entry; 0 in an empty directory.
    pub fn selection(&self) -> (index: usize)
        ensures
            index == self@.selection,
    {
        self.selection
    }

    /// The number of entries.
    pub fn len(&self) -> (n: usize)
        ensures
            n == self@.entries.len(),
    {
        self.entries.len()
    }

    /// Tells whether the directory has no entries.
    pub fn is_empty(&self) -> (b: bool)
        ensures
            b == (self@.entries.len() == 0),
    {
        self.entries.len() == 0
    }
}

} // verus!
