//! The navigation engine: traversal of the directory tree over the pane
//! ring. Reading a directory is the work of the front end, so every
//! traversal is a step that may ask for one directory to be read, and a
//! further step once the listing has come back.

use vstd::prelude::*;
use crate::path::{path_model, DirectoryPath, PathModel};
use crate::ring::{PaneRing, RingModel};
use crate::snapshot::{listing_model, Listing, ListingModel, LoadError, SnapshotModel};

verus! {

/// The listing that the engine is waiting for, and what for.
#[derive(Debug)]
pub enum Pending {
    /// Nothing is awaited.
    Idle,
    /// The directory to open, for the center pane.
    Opening(DirectoryPath),
    /// The parent of the directory just opened, for the left pane.
    Parent,
    /// The directory being entered, for the pane that becomes center.
    Entering,
    /// The parent of the directory being left for, for the pane that
    /// becomes left.
    Leaving,
    /// The directory that the selected entry names, for the right pane.
    Preview,
}

/// What the engine is waiting for, as a mathematical value.
pub enum PendingModel {
    Idle,
    Opening(PathModel),
    Parent,
    Entering,
    Leaving,
    Preview,
}

impl View for Pending {
    type V = PendingModel;

    open spec fn view(&self) -> PendingModel {
        match self {
            Pending::Idle => PendingModel::Idle,
            Pending::Opening(location) => PendingModel::Opening(location@),
            Pending::Parent => PendingModel::Parent,
            Pending::Entering => PendingModel::Entering,
            Pending::Leaving => PendingModel::Leaving,
            Pending::Preview => PendingModel::Preview,
        }
    }
}

/// A filesystem as a mathematical value: what a read of each directory
/// gives.
pub type FilesystemModel = spec_fn(PathModel) -> ListingModel;

/// The engine as a mathematical value.
pub struct NavModel {
    pub ring: RingModel,
    pub pending: PendingModel,
}

impl NavModel {
    /// The engine over empty panes for a screen of the given size.
    pub open spec fn initial(width: u16, height: u16) -> NavModel {
        NavModel { ring: RingModel::initial(width, height), pending: PendingModel::Idle }
    }

    /// The ring is well formed, and so is the directory awaited.
    pub open spec fn wf(self) -> bool {
        &&& self.ring.wf()
        &&& match self.pending {
            PendingModel::Idle => true,
            PendingModel::Opening(_) => true,
            PendingModel::Parent => self.ring.parent_target() is Some,
            PendingModel::Entering => self.ring.enter_target() is Some,
            PendingModel::Leaving => self.ring.leave_target() is Some,
            PendingModel::Preview => self.ring.enter_target() is Some,
        }
    }

    /// Whether no listing is awaited.
    pub open spec fn idle(self) -> bool {
        self.pending is Idle
    }

    /// The directory whose listing is awaited, if one is.
    pub open spec fn awaited(self) -> Option<PathModel> {
        match self.pending {
            PendingModel::Idle => None,
            PendingModel::Opening(location) => Some(location),
            PendingModel::Parent => self.ring.parent_target(),
            PendingModel::Entering => self.ring.enter_target(),
            PendingModel::Leaving => self.ring.leave_target(),
            PendingModel::Preview => self.ring.enter_target(),
        }
    }

    /// The engine as it starts to bring the preview up to date with the
    /// selection: the right pane is emptied, and where the selected entry
    /// is a directory or a symbolic link its listing is awaited.
    pub open spec fn refreshed(ring: RingModel) -> NavModel {
        let cleared = ring.clear_preview();
        NavModel {
            ring: cleared,
            pending: if cleared.enter_target() is Some {
                PendingModel::Preview
            } else {
                PendingModel::Idle
            },
        }
    }

    /// The engine as it starts to open `location`.
    pub open spec fn open(self, location: PathModel) -> NavModel {
        NavModel { ring: self.ring, pending: PendingModel::Opening(location) }
    }

    /// The engine after a request to bring the preview up to date. While a
    /// listing is awaited the request changes nothing.
    pub open spec fn refresh_preview(self) -> NavModel {
        if self.idle() {
            NavModel::refreshed(self.ring)
        } else {
            self
        }
    }

    /// The engine after a request to move the selection by `delta` rows:
    /// the selection moves as far as the listing goes, and the preview
    /// starts to follow. While a listing is awaited the request changes
    /// nothing.
    pub open spec fn move_cursor(self, delta: int) -> NavModel {
        if self.idle() {
            NavModel::refreshed(self.ring.move_selection(delta))
        } else {
            self
        }
    }

    /// Whether a request to descend does anything: no listing is awaited,
    /// and the selected entry of the center pane is a directory or a
    /// symbolic link.
    pub open spec fn can_descend(self) -> bool {
        self.idle() && self.ring.enter_target() is Some
    }

    /// The engine after a request to descend: the listing of the selected
    /// directory is awaited. Where there is nothing to enter the request
    /// changes nothing.
    pub open spec fn descend(self) -> NavModel {
        if self.can_descend() {
            NavModel { ring: self.ring, pending: PendingModel::Entering }
        } else {
            self
        }
    }

    /// Whether a request to ascend does anything: no listing is awaited,
    /// and the left pane shows a directory.
    pub open spec fn can_ascend(self) -> bool {
        self.idle() && self.ring.can_leave()
    }

    /// The engine after a request to ascend. Where the directory to leave
    /// for has a parent, the listing of that parent is awaited. Where it is
    /// the root, the ring rotates at once and the preview starts to follow.
    /// Where the left pane shows nothing the request changes nothing.
    pub open spec fn ascend(self) -> NavModel {
        if self.can_ascend() {
            if self.ring.leave_target() is Some {
                NavModel { ring: self.ring, pending: PendingModel::Leaving }
            } else {
                NavModel::refreshed(self.ring.leave_directory(Err(LoadError::NotFound)))
            }
        } else {
            self
        }
    }

    /// The engine once the awaited listing has come back. A listing that
    /// was not awaited changes nothing.
    pub open spec fn loaded(self, listing: ListingModel) -> NavModel {
        match self.pending {
            PendingModel::Idle => self,
            PendingModel::Opening(location) => {
                let ring = self.ring.open(location, listing);
                if listing is Err {
                    NavModel { ring, pending: PendingModel::Idle }
                } else if ring.parent_target() is Some {
                    NavModel { ring, pending: PendingModel::Parent }
                } else {
                    NavModel::refreshed(ring)
                }
            },
            PendingModel::Parent => NavModel::refreshed(self.ring.set_parent(listing)),
            PendingModel::Entering => NavModel::refreshed(self.ring.enter_directory(listing)),
            PendingModel::Leaving => NavModel::refreshed(self.ring.leave_directory(listing)),
            PendingModel::Preview => NavModel {
                ring: self.ring.set_preview(listing),
                pending: PendingModel::Idle,
            },
        }
    }

    /// The engine once a front end has read the directory awaited, if one
    /// is, from the filesystem `fs` and handed the listing back.
    pub open spec fn answered(self, fs: FilesystemModel) -> NavModel {
        match self.awaited() {
            Some(location) => self.loaded(fs(location)),
            None => self,
        }
    }

    /// The engine once a front end has answered every request that a
    /// traversal makes. A traversal asks for three directories at most: the
    /// directory itself, its parent, and the preview.
    pub open spec fn settled(self, fs: FilesystemModel) -> NavModel {
        self.answered(fs).answered(fs).answered(fs)
    }

    /// Once the preview has started to follow the selection, one answer
    /// settles the engine, and the left and center panes are as they were.
    pub proof fn lemma_preview_settles(ring: RingModel, fs: FilesystemModel)
        requires
            ring.wf(),
        ensures
            NavModel::refreshed(ring).answered(fs).idle(),
            NavModel::refreshed(ring).answered(fs).wf(),
            NavModel::refreshed(ring).answered(fs).ring.left() == ring.left(),
            NavModel::refreshed(ring).answered(fs).ring.center() == ring.center(),
    {
        let cleared = ring.clear_preview();
        ring.lemma_preview_leaves_the_rest(Err(LoadError::NotFound));
        if let Some(target) = cleared.enter_target() {
            cleared.lemma_preview_leaves_the_rest(fs(target));
            cleared.lemma_set_preview_wf(fs(target));
        }
    }

    /// A descent that goes down settles with the directory that was current
    /// in the left pane, as it was shown, and the directory entered, if it
    /// could be read, in the center pane.
    pub proof fn lemma_descent_settles(self, fs: FilesystemModel)
        requires
            self.wf(),
            self.can_descend(),
        ensures
            self.descend().settled(fs).idle(),
            self.descend().settled(fs).wf(),
            self.descend().settled(fs).ring.left().contents == self.ring.center().contents,
            self.descend().settled(fs).ring.center().contents == SnapshotModel::loaded(
                self.ring.enter_target()->0,
                fs(self.ring.enter_target()->0),
            ),
    {
        let target = self.ring.enter_target()->0;
        let entered = self.ring.enter_directory(fs(target));
        self.ring.lemma_enter_directory_wf(fs(target));
        self.ring.lemma_enter_directory_roles(fs(target));
        NavModel::lemma_preview_settles(entered, fs);
        assert(self.descend().answered(fs) == NavModel::refreshed(entered));
    }

    /// An ascent that goes up settles with the directory that was shown on
    /// the left in the center pane, as it was shown.
    pub proof fn lemma_ascent_settles(self, fs: FilesystemModel)
        requires
            self.wf(),
            self.can_ascend(),
        ensures
            self.ascend().settled(fs).idle(),
            self.ascend().settled(fs).wf(),
            self.ascend().settled(fs).ring.center().contents == self.ring.left().contents,
    {
        match self.ring.leave_target() {
            Some(target) => {
                let left = self.ring.leave_directory(fs(target));
                self.ring.lemma_leave_directory_wf(fs(target));
                self.ring.lemma_leave_directory_roles(fs(target));
                NavModel::lemma_preview_settles(left, fs);
                assert(self.ascend().answered(fs) == NavModel::refreshed(left));
            },
            None => {
                let left = self.ring.leave_directory(Err(LoadError::NotFound));
                self.ring.lemma_leave_directory_wf(Err(LoadError::NotFound));
                self.ring.lemma_leave_directory_roles(Err(LoadError::NotFound));
                NavModel::lemma_preview_settles(left, fs);
                assert(self.ascend() == NavModel::refreshed(left));
            },
        }
    }

    /// Taking a listing keeps the engine well formed.
    pub proof fn lemma_loaded_wf(self, listing: ListingModel)
        requires
            self.wf(),
        ensures
            self.loaded(listing).wf(),
    {
        match self.pending {
            PendingModel::Idle => {},
            PendingModel::Opening(location) => {
                self.ring.lemma_open_wf(location, listing);
            },
            PendingModel::Parent => {
                self.ring.lemma_set_parent_wf(listing);
            },
            PendingModel::Entering => {
                self.ring.lemma_enter_directory_wf(listing);
            },
            PendingModel::Leaving => {
                self.ring.lemma_leave_directory_wf(listing);
            },
            PendingModel::Preview => {
                self.ring.lemma_set_preview_wf(listing);
            },
        }
    }
}

/// The pane ring together with the listing it is waiting for.
#[derive(Debug)]
pub struct NavigationEngine {
    ring: PaneRing,
    pending: Pending,
}

impl View for NavigationEngine {
    type V = NavModel;

    closed spec fn view(&self) -> NavModel {
        NavModel { ring: self.ring@, pending: self.pending@ }
    }
}

impl NavigationEngine {
    /// The invariant of the engine, stated on its model.
    pub open spec fn wf(&self) -> bool {
        self@.wf()
    }

    /// An engine over empty panes for a screen of the given size.
    pub fn new(width: u16, height: u16) -> (engine: NavigationEngine)
        ensures
            engine.wf(),
            engine@ == NavModel::initial(width, height),
    {
        NavigationEngine { ring: PaneRing::new(width, height), pending: Pending::Idle }
    }

    /// The pane ring.
    pub fn ring(&self) -> (ring: &PaneRing)
        ensures
            ring@ == self@.ring,
    {
        &self.ring
    }

    /// Tells whether no listing is awaited.
    pub fn is_idle(&self) -> (b: bool)
        ensures
            b == self@.idle(),
    {
        match self.pending {
            Pending::Idle => true,
            _ => false,
        }
    }

    /// Tells whether the directory to start in is awaited.
    pub fn is_opening(&self) -> (b: bool)
        ensures
            b == self@.pending is Opening,
    {
        match self.pending {
            Pending::Opening(_) => true,
            _ => false,
        }
    }

    /// The directory whose listing is awaited, if one is. The front end is
    /// to read it and hand the listing to `loaded`.
    pub fn awaited(&self) -> (request: Option<DirectoryPath>)
        requires
            self.wf(),
        ensures
            path_model(request) == self@.awaited(),
    {
        match &self.pending {
            Pending::Idle => None,
            Pending::Opening(location) => Some(location.clone()),
            Pending::Parent => self.ring.parent_target(),
            Pending::Entering => self.ring.enter_target(),
            Pending::Leaving => self.ring.leave_target(),
            Pending::Preview => self.ring.enter_target(),
        }
    }

    /// Empties the right pane and awaits the listing for it, where the
    /// selected entry names a directory.
    fn start_preview(&mut self)
        requires
            old(self).ring.wf(),
        ensures
            final(self)@ == NavModel::refreshed(old(self)@.ring),
            final(self).wf(),
    {
        self.ring.clear_preview();
        self.pending = if self.ring.enter_target().is_some() {
            Pending::Preview
        } else {
            Pending::Idle
        };
    }

    /// Starts to open `location` as the current directory, and returns the
    /// directory to read: `location` itself.
    pub fn open(&mut self, location: DirectoryPath) -> (request: DirectoryPath)
        requires
            old(self).wf(),
        ensures
            final(self).wf(),
            final(self)@ == old(self)@.open(location@),
            request@ == location@,
    {
        let request = location.clone();
        self.pending = Pending::Opening(location);
        request
    }

    /// Brings the preview up to date with the selection. The right pane is
    /// emptied; where the selected entry of the center pane is a directory
    /// or a symbolic link, that directory is returned to be read, and the
    /// right pane shows it once the listing has come back, or stays empty
    /// if the read failed. While a listing is awaited nothing changes.
    pub fn refresh_preview(&mut self) -> (request: Option<DirectoryPath>)
        requires
            old(self).wf(),
        ensures
            final(self).wf(),
            final(self)@ == old(self)@.refresh_preview(),
            path_model(request) == final(self)@.awaited(),
    {
        if self.is_idle() {
            self.start_preview();
        }
        self.awaited()
    }

    /// Moves the selection of the center pane by `delta` rows, as far as
    /// the listing goes, and starts to bring the preview up to date.
    /// Returns the directory to read for the preview, if any. While a
    /// listing is awaited nothing changes.
    pub fn move_cursor(&mut self, delta: isize) -> (request: Option<DirectoryPath>)
        requires
            old(self).wf(),
        ensures
            final(self).wf(),
            final(self)@ == old(self)@.move_cursor(delta as int),
            path_model(request) == final(self)@.awaited(),
    {
        if self.is_idle() {
            self.ring.move_selection(delta);
            self.start_preview();
        }
        self.awaited()
    }

    /// Starts to enter the directory that the selected entry of the center
    /// pane names, and returns that directory, to be read. The ring rotates
    /// once the listing has come back. Where the center pane has no
    /// selected entry, or the entry is neither a directory nor a symbolic
    /// link, or a listing is awaited, nothing changes and `None` is
    /// returned.
    pub fn descend(&mut self) -> (request: Option<DirectoryPath>)
        requires
            old(self).wf(),
        ensures
            final(self).wf(),
            final(self)@ == old(self)@.descend(),
            request is Some <==> old(self)@.can_descend(),
            request is Some ==> path_model(request) == final(self)@.awaited(),
            !old(self)@.can_descend() ==> final(self)@ == old(self)@,
    {
        if !self.is_idle() {
            return None;
        }
        let target = self.ring.enter_target();
        if target.is_some() {
            self.pending = Pending::Entering;
        }
        target
    }

    /// Starts to leave for the directory that the left pane shows, and
    /// tells whether anything changed. Where that directory has a parent,
    /// the parent is to be read and the ring rotates once the listing has
    /// come back; where it is the root, the ring rotates at once and the
    /// preview starts to follow. Where the left pane shows nothing, as at
    /// the root, or a listing is awaited, nothing changes.
    pub fn ascend(&mut self) -> (moved: bool)
        requires
            old(self).wf(),
        ensures
            final(self).wf(),
            final(self)@ == old(self)@.ascend(),
            moved == old(self)@.can_ascend(),
            !moved ==> final(self)@ == old(self)@,
    {
        if !self.is_idle() || !self.ring.can_leave() {
            return false;
        }
        if self.ring.leave_target().is_some() {
            self.pending = Pending::Leaving;
        } else {
            self.ring.leave_directory(Err(LoadError::NotFound));
            self.start_preview();
        }
        true
    }

    /// Takes the listing that was awaited and goes on with the traversal it
    /// belongs to: the directory opened, entered or left for is shown, or
    /// its pane emptied if the read failed, and the preview starts to
    /// follow. A listing that was not awaited changes nothing.
    pub fn loaded(&mut self, listing: Listing)
        requires
            old(self).wf(),
        ensures
            final(self).wf(),
            final(self)@ == old(self)@.loaded(listing_model(listing)),
    {
        let failed = listing.is_err();
        let mut pending = Pending::Idle;
        std::mem::swap(&mut self.pending, &mut pending);
        match pending {
            Pending::Idle => {},
            Pending::Opening(location) => {
                self.ring.open(location, listing);
                if failed {
                    self.pending = Pending::Idle;
                } else if self.ring.parent_target().is_some() {
                    self.pending = Pending::Parent;
                } else {
                    self.start_preview();
                }
            },
            Pending::Parent => {
                self.ring.set_parent(listing);
                self.start_preview();
            },
            Pending::Entering => {
                self.ring.enter_directory(listing);
                self.start_preview();
            },
            Pending::Leaving => {
                self.ring.leave_directory(listing);
                self.start_preview();
            },
            Pending::Preview => {
                self.ring.set_preview(listing);
                self.pending = Pending::Idle;
            },
        }
    }
}

} // verus!
