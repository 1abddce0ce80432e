//! Panes: a region of the screen that shows at most one directory snapshot.

use vstd::prelude::*;
use crate::draw::{lemma_ops_model_push, ops_model, DrawOp, DrawOpModel};
use crate::entry::{entries_model, Entry, EntryModel};
use crate::snapshot::{contents_model, DirectorySnapshot, SnapshotModel};

verus! {

/// A pane as a mathematical value.
pub struct PaneModel {
    /// The column of the left edge.
    pub column: u16,
    /// The row of the top edge.
    pub row: u16,
    pub width: u16,
    pub height: u16,
    /// The snapshot shown, if any.
    pub contents: Option<SnapshotModel>,
}

/// The operations that write the lines of a listing, each started at
/// `column`: for every entry a move to the column, then its line.
pub open spec fn listing_ops(column: u16, entries: Seq<EntryModel>) -> Seq<DrawOpModel> {
    Seq::new(
        2 * entries.len(),
        |i: int|
            if i % 2 == 0 {
                DrawOpModel::MoveToColumn(column)
            } else {
                DrawOpModel::Line(entries[i / 2].line())
            },
    )
}

impl PaneModel {
    /// The snapshot shown, if any, is well formed.
    pub open spec fn wf(self) -> bool {
        self.contents matches Some(snapshot) ==> snapshot.wf()
    }

    /// A pane of no extent at the origin, showing nothing.
    pub open spec fn blank() -> PaneModel {
        PaneModel { column: 0, row: 0, width: 0, height: 0, contents: None }
    }

    /// The pane with its contents replaced.
    pub open spec fn bind(self, contents: Option<SnapshotModel>) -> PaneModel {
        PaneModel { contents, ..self }
    }

    /// The pane moved to another column.
    pub open spec fn set_column(self, column: u16) -> PaneModel {
        PaneModel { column, ..self }
    }

    /// The entry under the selection of the snapshot shown.
    pub open spec fn selected(self) -> Option<EntryModel> {
        match self.contents {
            Some(snapshot) => snapshot.selected(),
            None => None,
        }
    }

    /// The move of the cursor to the top left corner of the pane.
    pub open spec fn home(self) -> DrawOpModel {
        DrawOpModel::MoveTo { column: self.column, row: self.row }
    }

    /// The operations that draw the pane: the cursor goes to the corner of
    /// the pane, the entries are written one per row, each started at the
    /// column of the pane, and the cursor goes back to the corner. A pane
    /// without contents only moves the cursor.
    pub open spec fn render(self) -> Seq<DrawOpModel> {
        match self.contents {
            Some(snapshot) => seq![self.home()] + listing_ops(self.column, snapshot.entries)
                + seq![self.home()],
            None => seq![self.home(), self.home()],
        }
    }
}

/// A region of the screen and the snapshot it shows.
#[derive(Debug)]
pub struct Pane {
    column: u16,
    row: u16,
    width: u16,
    height: u16,
    contents: Option<DirectorySnapshot>,
}

impl View for Pane {
    type V = PaneModel;

    closed spec fn view(&self) -> PaneModel {
        PaneModel {
            column: self.column,
            row: self.row,
            width: self.width,
            height: self.height,
            contents: contents_model(self.contents),
        }
    }
}

impl Pane {
    /// The invariant of a pane, stated on its model.
    pub open spec fn wf(&self) -> bool {
        self@.wf()
    }

    /// A pane of no extent at the origin, showing nothing.
    pub fn new() -> (pane: Pane)
        ensures
            pane@ == PaneModel::blank(),
            pane.wf(),
    {
        Pane { contents: None, column: 0, row: 0, width: 0, height: 0 }
    }

    /// An empty pane with the given corner and extent.
    pub fn at(column: u16, row: u16, width: u16, height: u16) -> (pane: Pane)
        ensures
            pane@ == (PaneModel { column, row, width, height, contents: None }),
            pane.wf(),
    {
        Pane { contents: None, column, row, width, height }
    }

    /// Replaces the contents of the pane wholesale.
    pub fn bind(&mut self, snapshot: Option<DirectorySnapshot>)
        requires
            snapshot matches Some(s) ==> s.wf(),
        ensures
            final(self)@ == old(self)@.bind(contents_model(snapshot)),
            final(self).wf(),
    {
        self.contents = snapshot;
    }

    /// Moves the pane to another column. Its contents stay.
    pub fn set_column(&mut self, column: u16)
        ensures
            final(self)@ == old(self)@.set_column(column),
    {
        self.column = column;
    }

    /// Moves the selection of the snapshot shown by `delta` rows and returns
    /// the new index; 0, and no change, where the pane shows nothing.
    pub fn move_selection(&mut self, delta: isize) -> (index: usize)
        requires
            old(self).wf(),
        ensures
            final(self).wf(),
            match old(self)@.contents {
                Some(snapshot) => final(self)@ == old(self)@.bind(
                    Some(snapshot.move_selection(delta as int)),
                ) && index == snapshot.move_selection(delta as int).selection,
                None => final(self)@ == old(self)@ && index == 0,
            },
    {
        match &mut self.contents {
            Some(snapshot) => snapshot.move_selection(delta),
            None => 0,
        }
    }

    /// The snapshot shown, if any.
    pub fn contents(&self) -> (contents: Option<&DirectorySnapshot>)
        ensures
            match contents {
                Some(snapshot) => self@.contents == Some(snapshot@),
                None => self@.contents is None,
            },
    {
        match &self.contents {
            Some(snapshot) => Some(snapshot),
            None => None,
        }
    }

    /// The entry under the selection of the snapshot shown; `None` where the
    /// pane shows nothing or an empty directory.
    pub fn selected_entry(&self) -> (entry: Option<&Entry>)
        requires
            self.wf(),
        ensures
            match entry {
                Some(e) => self@.selected() == Some(e@),
                None => self@.selected() is None,
            },
    {
        match &self.contents {
            Some(snapshot) => snapshot.selected_entry(),
            None => None,
        }
    }

    /// The column of the left edge.
    pub fn column(&self) -> (column: u16)
        ensures
            column == self@.column,
    {
        self.column
    }

    /// The row of the top edge.
    pub fn row(&self) -> (row: u16)
        ensures
            row == self@.row,
    {
        self.row
    }

    /// The width in columns.
    pub fn width(&self) -> (width: u16)
        ensures
            width == self@.width,
    {
        self.width
    }

    /// The height in rows.
    pub fn height(&self) -> (height: u16)
        ensures
            height == self@.height,
    {
        self.height
    }

    /// The operations that draw the pane. The cursor goes to the corner of
    /// the pane before and after; in between each entry is written on a row
    /// of its own, started at the column of the pane: its name, then `/` for
    /// a directory or `@` for a symbolic link. Names are not cut to the
    /// width of the pane.
    pub fn render(&self) -> (ops: Vec<DrawOp>)
        ensures
            ops_model(ops@) == self@.render(),
    {
        let mut ops: Vec<DrawOp> = Vec::new();
        ops.push(DrawOp::MoveTo { column: self.column, row: self.row });
        match &self.contents {
            Some(snapshot) => {
                let entries = snapshot.entries();
                let ghost shown = snapshot@.entries;
                let ghost home = self@.home();
                let mut i: usize = 0;
                while i < entries.len()
                    invariant
                        i <= entries.len(),
                        shown == entries_model(entries@),
                        ops_model(ops@) == seq![home] + listing_ops(
                            self.column,
                            shown.take(i as int),
                        ),
                    decreases entries.len() - i,
                {
                    let ghost before = ops@;
                    ops.push(DrawOp::MoveToColumn(self.column));
                    let ghost between = ops@;
                    ops.push(DrawOp::Line(entries[i].line()));
                    proof {
                        lemma_ops_model_push(before, between.last());
                        lemma_ops_model_push(between, ops@.last());
                        // One more entry is one more move and one more line.
                        assert(listing_ops(self.column, shown.take(i + 1)) =~= listing_ops(
                            self.column,
                            shown.take(i as int),
                        ).push(DrawOpModel::MoveToColumn(self.column)).push(
                            DrawOpModel::Line(shown[i as int].line()),
                        ));
                    }
                    i += 1;
                }
                let ghost before = ops@;
                ops.push(DrawOp::MoveTo { column: self.column, row: self.row });
                proof {
                    lemma_ops_model_push(before, ops@.last());
                }
            },
            None => {
                ops.push(DrawOp::MoveTo { column: self.column, row: self.row });
            },
        }
        ops
    }
}

} // verus!
