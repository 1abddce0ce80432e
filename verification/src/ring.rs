//! The ring of three panes. Each pane plays one of the roles left (parent
//! directory), center (current directory) and right (preview); entering and
//! leaving a directory rotate the roles over the panes.

use vstd::prelude::*;
use crate::draw::{ops_model, DrawOp, DrawOpModel};
use crate::listing::lemma_sorted_by_name;
use crate::pane::{Pane, PaneModel};
use crate::path::{path_model, DirectoryPath, PathModel};
use crate::snapshot::{
    contents_model, listing_model, DirectorySnapshot, Listing, ListingModel, SnapshotModel,
};

verus! {

/// The slot that plays left when `slot` plays center.
pub open spec fn left_of(slot: int) -> int {
    (slot + 2) % 3
}

/// The slot that plays right when `slot` plays center.
pub open spec fn right_of(slot: int) -> int {
    (slot + 1) % 3
}

/// The column of the pane in `slot` when `center` plays center and panes
/// are `stride` columns apart: 0 for left, one stride for center, two for
/// right.
pub open spec fn column_of(slot: int, center: int, stride: u16) -> int {
    if slot == center {
        stride as int
    } else if slot == left_of(center) {
        0
    } else {
        2 * stride
    }
}

/// The ring as a mathematical value.
pub struct RingModel {
    /// The three panes, by slot.
    pub slots: Seq<PaneModel>,
    /// The slot that plays center.
    pub center_slot: int,
    /// The distance in columns from one pane to the next.
    pub stride: u16,
}

impl RingModel {
    /// The ring of empty panes for a screen of the given size: each pane a
    /// third of the screen wide and as high as the screen, side by side,
    /// the middle slot playing center.
    pub open spec fn initial(width: u16, height: u16) -> RingModel {
        let stride = width / 3;
        RingModel {
            slots: Seq::new(
                3,
                |i: int|
                    PaneModel {
                        column: column_of(i, 1, stride) as u16,
                        row: 0,
                        width: stride,
                        height,
                        contents: None,
                    },
            ),
            center_slot: 1,
            stride,
        }
    }

    /// The pane that shows the parent directory.
    pub open spec fn left(self) -> PaneModel {
        self.slots[left_of(self.center_slot)]
    }

    /// The pane that shows the current directory.
    pub open spec fn center(self) -> PaneModel {
        self.slots[self.center_slot]
    }

    /// The pane that shows the preview.
    pub open spec fn right(self) -> PaneModel {
        self.slots[right_of(self.center_slot)]
    }

    /// There are three panes, one in each role, each at the column of its
    /// role; the left pane shows nothing but the parent of the current
    /// directory, and the right pane nothing but the directory that the
    /// selected entry names.
    pub open spec fn wf(self) -> bool {
        &&& self.slots.len() == 3
        &&& 0 <= self.center_slot < 3
        &&& 2 * self.stride <= u16::MAX
        &&& forall|i: int| 0 <= i < 3 ==> (#[trigger] self.slots[i]).wf()
        &&& forall|i: int|
            0 <= i < 3 ==> (#[trigger] self.slots[i]).column == column_of(
                i,
                self.center_slot,
                self.stride,
            )
        &&& self.left().contents matches Some(parent) ==> (self.center().contents matches Some(
            current,
        ) ==> current.location.len() > 0 && parent.location == current.location.drop_last())
        &&& self.right().contents matches Some(preview) ==> self.enter_target() == Some(
            preview.location,
        )
    }

    /// The directory that entering would go to: the one that the selected
    /// entry of the center pane names, if there is such an entry and it is a
    /// directory or a symbolic link.
    pub open spec fn enter_target(self) -> Option<PathModel> {
        match self.center().contents {
            Some(current) => match current.selected() {
                Some(entry) => if entry.kind.traversable() {
                    Some(current.location.push(entry.name))
                } else {
                    None
                },
                None => None,
            },
            None => None,
        }
    }

    /// Whether leaving would go anywhere: the left pane shows a directory.
    pub open spec fn can_leave(self) -> bool {
        self.left().contents is Some
    }

    /// The directory that the left pane is to show once the ring has left
    /// for the directory that it shows now: the parent of that directory,
    /// if it has one.
    pub open spec fn leave_target(self) -> Option<PathModel> {
        match self.left().contents {
            Some(parent) => if parent.location.len() > 0 {
                Some(parent.location.drop_last())
            } else {
                None
            },
            None => None,
        }
    }

    /// The directory that the left pane is to show beside the current one:
    /// the parent of the current directory, if it has one.
    pub open spec fn parent_target(self) -> Option<PathModel> {
        match self.center().contents {
            Some(current) => if current.location.len() > 0 {
                Some(current.location.drop_last())
            } else {
                None
            },
            None => None,
        }
    }

    /// The ring with the contents of one slot replaced.
    pub open spec fn with_contents(self, slot: int, contents: Option<SnapshotModel>) -> RingModel {
        RingModel { slots: self.slots.update(slot, self.slots[slot].bind(contents)), ..self }
    }

    /// The ring with `center` playing center, and every pane at the column
    /// of its new role.
    pub open spec fn rotated(self, center: int) -> RingModel {
        RingModel {
            slots: Seq::new(
                3,
                |i: int| self.slots[i].set_column(column_of(i, center, self.stride) as u16),
            ),
            center_slot: center,
            ..self
        }
    }

    /// The ring once a read of `location` has come back: the center pane
    /// shows it, the other two show nothing.
    pub open spec fn open(self, location: PathModel, listing: ListingModel) -> RingModel {
        self.with_contents(
            self.center_slot,
            SnapshotModel::loaded(location, listing),
        ).with_contents(left_of(self.center_slot), None).with_contents(
            right_of(self.center_slot),
            None,
        )
    }

    /// The ring once a read of the parent of the current directory has come
    /// back: the left pane shows it. Where the current directory has no
    /// parent, or the center pane shows nothing, the left pane shows nothing.
    pub open spec fn set_parent(self, listing: ListingModel) -> RingModel {
        match self.parent_target() {
            Some(parent) => self.with_contents(
                left_of(self.center_slot),
                SnapshotModel::loaded(parent, listing),
            ),
            None => self.with_contents(left_of(self.center_slot), None),
        }
    }

    /// The ring with an empty right pane.
    pub open spec fn clear_preview(self) -> RingModel {
        self.with_contents(right_of(self.center_slot), None)
    }

    /// The ring once a read of the directory that the selected entry names
    /// has come back: the right pane shows it. Where there is no such
    /// directory the right pane shows nothing.
    pub open spec fn set_preview(self, listing: ListingModel) -> RingModel {
        match self.enter_target() {
            Some(target) => self.with_contents(
                right_of(self.center_slot),
                SnapshotModel::loaded(target, listing),
            ),
            None => self.clear_preview(),
        }
    }

    /// The ring with the selection of the center pane moved by `delta` rows.
    /// The right pane shows nothing: what it showed belonged to the old
    /// selection.
    pub open spec fn move_selection(self, delta: int) -> RingModel {
        match self.center().contents {
            Some(current) => self.with_contents(
                self.center_slot,
                Some(current.move_selection(delta)),
            ).clear_preview(),
            None => self.clear_preview(),
        }
    }

    /// The ring after entering the selected directory, given what the read
    /// of that directory gave. The roles rotate forward: the center pane
    /// becomes left, the right pane becomes center and shows the directory
    /// entered, or nothing if the read failed, and the left pane becomes
    /// right and shows nothing. Where there is nothing to enter the ring
    /// stays as it is.
    pub open spec fn enter_directory(self, listing: ListingModel) -> RingModel {
        match self.enter_target() {
            Some(target) => {
                let center = right_of(self.center_slot);
                self.rotated(center).with_contents(
                    center,
                    SnapshotModel::loaded(target, listing),
                ).with_contents(right_of(center), None)
            },
            None => self,
        }
    }

    /// The ring after leaving for the parent directory, given what the read
    /// of the parent of that directory gave. The roles rotate backward: the
    /// left pane becomes center, the center pane becomes right and shows
    /// nothing, and the right pane becomes left and shows the directory
    /// read, or nothing if the read failed or the new current directory is
    /// the root. Where the left pane shows nothing the ring stays as it is.
    pub open spec fn leave_directory(self, listing: ListingModel) -> RingModel {
        if self.can_leave() {
            let center = left_of(self.center_slot);
            let above = match self.leave_target() {
                Some(target) => SnapshotModel::loaded(target, listing),
                None => None,
            };
            self.rotated(center).with_contents(left_of(center), above).with_contents(
                right_of(center),
                None,
            )
        } else {
            self
        }
    }

    /// The index of the selected entry of the center pane; 0 where it shows
    /// nothing.
    pub open spec fn cursor_index(self) -> int {
        match self.center().contents {
            Some(current) => current.selection,
            None => 0,
        }
    }

    /// The operations that draw the three panes, slot by slot.
    pub open spec fn render(self) -> Seq<DrawOpModel> {
        self.slots[0].render() + self.slots[1].render() + self.slots[2].render()
    }

    /// What a read of a directory gives a pane is well formed.
    pub proof fn lemma_loaded_wf(location: PathModel, listing: ListingModel)
        ensures
            SnapshotModel::loaded(location, listing) matches Some(snapshot) ==> snapshot.wf()
                && snapshot.location == location,
    {
        if let Ok(entries) = listing {
            lemma_sorted_by_name(entries);
        }
    }

    /// Opening a directory keeps the ring well formed.
    pub proof fn lemma_open_wf(self, location: PathModel, listing: ListingModel)
        requires
            self.wf(),
        ensures
            self.open(location, listing).wf(),
    {
        Self::lemma_loaded_wf(location, listing);
    }

    /// Showing the parent directory keeps the ring well formed.
    pub proof fn lemma_set_parent_wf(self, listing: ListingModel)
        requires
            self.wf(),
        ensures
            self.set_parent(listing).wf(),
    {
        if let Some(target) = self.parent_target() {
            Self::lemma_loaded_wf(target, listing);
        }
    }

    /// Showing the preview keeps the ring well formed.
    pub proof fn lemma_set_preview_wf(self, listing: ListingModel)
        requires
            self.wf(),
        ensures
            self.set_preview(listing).wf(),
    {
        if let Some(target) = self.enter_target() {
            Self::lemma_loaded_wf(target, listing);
        }
    }

    /// Entering a directory keeps the ring well formed.
    pub proof fn lemma_enter_directory_wf(self, listing: ListingModel)
        requires
            self.wf(),
        ensures
            self.enter_directory(listing).wf(),
    {
        if let Some(target) = self.enter_target() {
            Self::lemma_loaded_wf(target, listing);
            let current = self.center().contents->0;
            assert(target.drop_last() =~= current.location);
        }
    }

    /// Emptying or filling the right pane leaves the other two as they are.
    pub proof fn lemma_preview_leaves_the_rest(self, listing: ListingModel)
        requires
            self.wf(),
        ensures
            self.clear_preview().left() == self.left(),
            self.clear_preview().center() == self.center(),
            self.clear_preview().right().contents is None,
            self.set_preview(listing).left() == self.left(),
            self.set_preview(listing).center() == self.center(),
    {
    }

    /// Where there is a directory to enter, entering it makes the pane that
    /// played center play left, with the same contents, shows the directory
    /// entered in the center, and nothing on the right.
    pub proof fn lemma_enter_directory_roles(self, listing: ListingModel)
        requires
            self.wf(),
            self.enter_target() is Some,
        ensures
            self.enter_directory(listing).center_slot == right_of(self.center_slot),
            self.enter_directory(listing).left().contents == self.center().contents,
            self.enter_directory(listing).center().contents == SnapshotModel::loaded(
                self.enter_target()->0,
                listing,
            ),
            self.enter_directory(listing).right().contents is None,
    {
    }

    /// Where the left pane shows a directory, leaving for it makes the pane
    /// that played left play center, with the same contents, and shows
    /// nothing on the right.
    pub proof fn lemma_leave_directory_roles(self, listing: ListingModel)
        requires
            self.wf(),
            self.can_leave(),
        ensures
            self.leave_directory(listing).center_slot == left_of(self.center_slot),
            self.leave_directory(listing).center().contents == self.left().contents,
            self.leave_directory(listing).left().contents == match self.leave_target() {
                Some(target) => SnapshotModel::loaded(target, listing),
                None => None,
            },
            self.leave_directory(listing).right().contents is None,
    {
    }

    /// Leaving for the parent directory keeps the ring well formed.
    pub proof fn lemma_leave_directory_wf(self, listing: ListingModel)
        requires
            self.wf(),
        ensures
            self.leave_directory(listing).wf(),
    {
        if let Some(target) = self.leave_target() {
            Self::lemma_loaded_wf(target, listing);
        }
    }
}

/// Three panes and the slot that plays center.
#[derive(Debug)]
pub struct PaneRing {
    panes: [Pane; 3],
    center_slot: usize,
    stride: u16,
}

impl View for PaneRing {
    type V = RingModel;

    closed spec fn view(&self) -> RingModel {
        RingModel {
            slots: Seq::new(3, |i: int| self.panes@[i]@),
            center_slot: self.center_slot as int,
            stride: self.stride,
        }
    }
}

impl PaneRing {
    /// The invariant of the ring, stated on its model.
    pub open spec fn wf(&self) -> bool {
        self@.wf()
    }

    /// A ring of empty panes for a screen of the given size. Each pane is a
    /// third of the screen wide and as high as the screen; the middle slot
    /// plays center.
    pub fn new(width: u16, height: u16) -> (ring: PaneRing)
        ensures
            ring.wf(),
            ring@ == RingModel::initial(width, height),
    {
        let stride: u16 = width / 3;
        let ring = PaneRing {
            panes: [
                Pane::at(0, 0, stride, height),
                Pane::at(stride, 0, stride, height),
                Pane::at(2 * stride, 0, stride, height),
            ],
            center_slot: 1,
            stride,
        };
        assert(ring@.slots =~= RingModel::initial(width, height).slots);
        ring
    }

    /// The slot that plays center.
    pub fn center_slot(&self) -> (slot: usize)
        requires
            self.wf(),
        ensures
            slot == self@.center_slot,
            slot < 3,
    {
        self.center_slot
    }

    /// The slot that plays left.
    pub fn left_slot(&self) -> (slot: usize)
        requires
            self.wf(),
        ensures
            slot == left_of(self@.center_slot),
            slot < 3,
    {
        (self.center_slot + 2) % 3
    }

    /// The slot that plays right.
    pub fn right_slot(&self) -> (slot: usize)
        requires
            self.wf(),
        ensures
            slot == right_of(self@.center_slot),
            slot < 3,
    {
        (self.center_slot + 1) % 3
    }

    /// The distance in columns from one pane to the next.
    pub fn stride(&self) -> (stride: u16)
        ensures
            stride == self@.stride,
    {
        self.stride
    }

    /// The pane in the given slot; there are slots 0, 1 and 2.
    pub fn pane(&self, slot: usize) -> (pane: Option<&Pane>)
        ensures
            slot < 3 ==> pane is Some && pane->0@ == self@.slots[slot as int],
            slot >= 3 ==> pane is None,
    {
        if slot < 3 {
            Some(&self.panes[slot])
        } else {
            None
        }
    }

    /// The pane that shows the current directory.
    pub fn center(&self) -> (pane: &Pane)
        requires
            self.wf(),
        ensures
            pane@ == self@.center(),
            pane.wf(),
    {
        &self.panes[self.center_slot]
    }

    /// The pane that shows the parent directory.
    pub fn left(&self) -> (pane: &Pane)
        requires
            self.wf(),
        ensures
            pane@ == self@.left(),
            pane.wf(),
    {
        &self.panes[self.left_slot()]
    }

    /// The pane that shows the preview.
    pub fn right(&self) -> (pane: &Pane)
        requires
            self.wf(),
        ensures
            pane@ == self@.right(),
            pane.wf(),
    {
        &self.panes[self.right_slot()]
    }

    /// The directory that entering would go to, if there is one: the
    /// selected entry of the center pane must be a directory or a symbolic
    /// link.
    pub fn enter_target(&self) -> (target: Option<DirectoryPath>)
        requires
            self.wf(),
        ensures
            path_model(target) == self@.enter_target(),
    {
        match self.center().contents() {
            Some(current) => match current.selected_entry() {
                Some(entry) => {
                    if entry.kind.is_traversable() {
                        Some(current.location().child(entry.name.as_str()))
                    } else {
                        None
                    }
                },
                None => None,
            },
            None => None,
        }
    }

    /// Tells whether leaving would go anywhere: the left pane shows a
    /// directory.
    pub fn can_leave(&self) -> (b: bool)
        requires
            self.wf(),
        ensures
            b == self@.can_leave(),
    {
        self.left().contents().is_some()
    }

    /// The directory that the left pane is to show after leaving: the
    /// parent of the directory that it shows now, if that has one.
    pub fn leave_target(&self) -> (target: Option<DirectoryPath>)
        requires
            self.wf(),
        ensures
            path_model(target) == self@.leave_target(),
    {
        match self.left().contents() {
            Some(parent) => parent.location().parent(),
            None => None,
        }
    }

    /// The parent of the current directory, if it has one.
    pub fn parent_target(&self) -> (target: Option<DirectoryPath>)
        requires
            self.wf(),
        ensures
            path_model(target) == self@.parent_target(),
    {
        match self.center().contents() {
            Some(current) => current.location().parent(),
            None => None,
        }
    }

    /// Replaces the contents of one slot.
    fn bind_slot(&mut self, slot: usize, snapshot: Option<DirectorySnapshot>)
        requires
            slot < 3,
            snapshot matches Some(s) ==> s.wf(),
        ensures
            final(self)@ == old(self)@.with_contents(slot as int, contents_model(snapshot)),
    {
        self.panes[slot].bind(snapshot);
        assert(final(self)@.slots =~= old(self)@.with_contents(
            slot as int,
            contents_model(snapshot),
        ).slots);
    }

    /// Gives the center role to `center` and moves every pane to the column
    /// of its new role.
    fn rotate_to(&mut self, center: usize)
        requires
            center < 3,
            2 * old(self)@.stride <= u16::MAX,
        ensures
            final(self)@ == old(self)@.rotated(center as int),
    {
        let left = (center + 2) % 3;
        let right = (center + 1) % 3;
        self.center_slot = center;
        self.panes[left].set_column(0);
        self.panes[center].set_column(self.stride);
        self.panes[right].set_column(2 * self.stride);
        assert(final(self)@.slots =~= old(self)@.rotated(center as int).slots);
    }

    /// Shows a directory in the center pane, given what a read of it gave,
    /// and empties the other two panes. After a failed read the center pane
    /// shows nothing.
    pub fn open(&mut self, location: DirectoryPath, listing: Listing)
        requires
            old(self).wf(),
        ensures
            final(self).wf(),
            final(self)@ == old(self)@.open(location@, listing_model(listing)),
    {
        let center = self.center_slot();
        let left = self.left_slot();
        let right = self.right_slot();
        self.bind_slot(center, DirectorySnapshot::load(location, listing).ok());
        self.bind_slot(left, None);
        self.bind_slot(right, None);
    }

    /// Shows the parent of the current directory in the left pane, given
    /// what a read of it gave. The left pane shows nothing after a failed
    /// read, or where the current directory is the root or unknown.
    pub fn set_parent(&mut self, listing: Listing)
        requires
            old(self).wf(),
        ensures
            final(self).wf(),
            final(self)@ == old(self)@.set_parent(listing_model(listing)),
    {
        let left = self.left_slot();
        match self.parent_target() {
            Some(parent) => {
                self.bind_slot(left, DirectorySnapshot::load(parent, listing).ok());
            },
            None => {
                self.bind_slot(left, None);
            },
        }
    }

    /// Empties the right pane.
    pub fn clear_preview(&mut self)
        requires
            old(self).wf(),
        ensures
            final(self).wf(),
            final(self)@ == old(self)@.clear_preview(),
    {
        let right = self.right_slot();
        self.bind_slot(right, None);
    }

    /// Shows the directory that the selected entry names in the right pane,
    /// given what a read of it gave. The right pane shows nothing after a
    /// failed read, or where the selected entry names no directory.
    pub fn set_preview(&mut self, listing: Listing)
        requires
            old(self).wf(),
        ensures
            final(self).wf(),
            final(self)@ == old(self)@.set_preview(listing_model(listing)),
    {
        let right = self.right_slot();
        match self.enter_target() {
            Some(target) => {
                self.bind_slot(right, DirectorySnapshot::load(target, listing).ok());
            },
            None => {
                self.bind_slot(right, None);
            },
        }
    }

    /// Moves the selection of the center pane by `delta` rows, as far as
    /// the listing goes, and returns the new index. The right pane is
    /// emptied, since what it showed belonged to the old selection.
    pub fn move_selection(&mut self, delta: isize) -> (index: usize)
        requires
            old(self).wf(),
        ensures
            final(self).wf(),
            final(self)@ == old(self)@.move_selection(delta as int),
            index == final(self)@.cursor_index(),
    {
        let center = self.center_slot();
        let right = self.right_slot();
        let index = self.panes[center].move_selection(delta);
        assert(self@.slots =~= match old(self)@.center().contents {
            Some(current) => old(self)@.with_contents(
                center as int,
                Some(current.move_selection(delta as int)),
            ).slots,
            None => old(self)@.slots,
        });
        self.bind_slot(right, None);
        index
    }

    /// Enters the directory that the selected entry of the center pane
    /// names, given what a read of that directory gave, and tells whether
    /// it did. The roles rotate forward: center becomes left, right becomes
    /// center and shows the directory, or nothing after a failed read, and
    /// left becomes right and is emptied. Where the center pane has no
    /// selected entry, or the entry is neither a directory nor a symbolic
    /// link, the ring stays as it is.
    pub fn enter_directory(&mut self, listing: Listing) -> (entered: bool)
        requires
            old(self).wf(),
        ensures
            final(self).wf(),
            final(self)@ == old(self)@.enter_directory(listing_model(listing)),
            entered == old(self)@.enter_target() is Some,
            !entered ==> final(self)@ == old(self)@,
    {
        proof {
            old(self)@.lemma_enter_directory_wf(listing_model(listing));
        }
        match self.enter_target() {
            Some(target) => {
                let center = self.right_slot();
                self.rotate_to(center);
                self.bind_slot(center, DirectorySnapshot::load(target, listing).ok());
                self.bind_slot((center + 1) % 3, None);
                true
            },
            None => false,
        }
    }

    /// Leaves for the directory that the left pane shows, given what a read
    /// of the parent of that directory gave, and tells whether it did. The
    /// roles rotate backward: left becomes center, center becomes right and
    /// is emptied, and right becomes left and shows the directory read, or
    /// nothing after a failed read or where the new current directory is
    /// the root. Where the left pane shows nothing the ring stays as it is.
    pub fn leave_directory(&mut self, listing: Listing) -> (left: bool)
        requires
            old(self).wf(),
        ensures
            final(self).wf(),
            final(self)@ == old(self)@.leave_directory(listing_model(listing)),
            left == old(self)@.can_leave(),
            !left ==> final(self)@ == old(self)@,
    {
        if !self.can_leave() {
            return false;
        }
        let above = match self.leave_target() {
            Some(target) => DirectorySnapshot::load(target, listing).ok(),
            None => None,
        };
        let center = self.left_slot();
        self.rotate_to(center);
        self.bind_slot((center + 2) % 3, above);
        self.bind_slot((center + 1) % 3, None);
        true
    }

    /// The index of the selected entry of the center pane; 0 where it shows
    /// nothing.
    pub fn cursor_index(&self) -> (index: usize)
        requires
            self.wf(),
        ensures
            index == self@.cursor_index(),
    {
        match self.center().contents() {
            Some(current) => current.selection(),
            None => 0,
        }
    }

    /// The operations that draw the three panes, slot by slot.
    pub fn render(&self) -> (ops: Vec<DrawOp>)
        ensures
            ops_model(ops@) == self@.render(),
    {
        let mut ops = self.panes[0].render();
        let mut second = self.panes[1].render();
        let mut third = self.panes[2].render();
        ops.append(&mut second);
        ops.append(&mut third);
        ops
    }
}

} // verus!
