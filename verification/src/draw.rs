//! Drawing operations. The browser computes them; the terminal front end
//! carries them out, in order.

use vstd::prelude::*;

verus! {

/// The shape of the text cursor.
#[derive(Clone, Copy, Debug, PartialEq, Eq, Structural)]
pub enum CursorStyle {
    /// A steady block: browse mode.
    SteadyBlock,
    /// A blinking block: command mode.
    BlinkingBlock,
}

/// One operation on the terminal surface.
#[derive(Debug, PartialEq, Eq)]
pub enum DrawOp {
    /// Clear the whole screen.
    ClearAll,
    /// Clear the line that the cursor is on.
    ClearLine,
    /// Move the cursor to a column and a row.
    MoveTo { column: u16, row: u16 },
    /// Move the cursor to a column of its row.
    MoveToColumn(u16),
    /// Move the cursor to a row, keeping its column.
    MoveToRow(u16),
    /// Change the shape of the cursor.
    SetCursorStyle(CursorStyle),
    /// Write the text at the cursor, then go down one row.
    Line(String),
    /// Write the characters at the cursor.
    Text(Vec<char>),
}

/// A drawing operation as a mathematical value.
pub enum DrawOpModel {
    ClearAll,
    ClearLine,
    MoveTo { column: u16, row: u16 },
    MoveToColumn(u16),
    MoveToRow(u16),
    SetCursorStyle(CursorStyle),
    Line(Seq<char>),
    Text(Seq<char>),
}

impl View for DrawOp {
    type V = DrawOpModel;

    open spec fn view(&self) -> DrawOpModel {
        match self {
            DrawOp::ClearAll => DrawOpModel::ClearAll,
            DrawOp::ClearLine => DrawOpModel::ClearLine,
            DrawOp::MoveTo { column, row } => DrawOpModel::MoveTo { column: *column, row: *row },
            DrawOp::MoveToColumn(column) => DrawOpModel::MoveToColumn(*column),
            DrawOp::MoveToRow(row) => DrawOpModel::MoveToRow(*row),
            DrawOp::SetCursorStyle(style) => DrawOpModel::SetCursorStyle(*style),
            DrawOp::Line(text) => DrawOpModel::Line(text@),
            DrawOp::Text(text) => DrawOpModel::Text(text@),
        }
    }
}

/// The models of a sequence of drawing operations, in the same order.
pub open spec fn ops_model(ops: Seq<DrawOp>) -> Seq<DrawOpModel> {
    Seq::new(ops.len(), |i: int| ops[i]@)
}

/// Appending one operation appends its model.
pub proof fn lemma_ops_model_push(ops: Seq<DrawOp>, op: DrawOp)
    ensures
        ops_model(ops.push(op)) == ops_model(ops).push(op@),
{
}

} // verus!
