//! Per-cell and cursor decisions of the shaped prepare pass: which cells
//! are drawn, how many columns a cell's background spans, where its
//! foreground glyphs come from, and which edges of the cell the cursor
//! covers.

use vstd::prelude::*;

use super::colors::{CursorShape, RenderCursor};
use super::shaped_frame::ShapedFrame;
use crate::gpu::builtin_glyphs::{is_builtin, spec_is_builtin};

verus! {

/// Where a drawn cell's foreground comes from.
#[derive(Debug, Clone, Copy, PartialEq, Eq, Structural)]
pub enum CellForeground {
    /// The built-in glyph of the cell's character, from the atlas.
    Builtin,
    /// The shaped glyphs of the cell's row, from this index in the row's
    /// glyph slice.
    Shaped { start: usize },
    /// No foreground: the column has no glyph, or lies outside the shaped
    /// frame.
    Nothing,
}

/// What the prepare pass draws for one cell.
#[derive(Debug, Clone, Copy, PartialEq, Eq, Structural)]
pub struct CellPlan {
    /// Columns the background (and decorations) span: 2 for a wide
    /// character, 1 otherwise.
    pub bg_columns: u32,
    /// Where the foreground comes from.
    pub foreground: CellForeground,
}

/// The foreground source of a drawn cell at `row`, `col`: a built-in
/// character's own glyph; else the shaped glyphs the column maps to, for a
/// cell inside the shaped frame; else nothing.
pub open spec fn spec_cell_foreground<G: Copy>(ch: char, row: usize, col: usize, shaped: ShapedFrame<G>) -> CellForeground {
    if spec_is_builtin(ch as u32) {
        CellForeground::Builtin
    } else if row < shaped.shaped_rows().len() && col < shaped.spec_cols() {
        match shaped.col_maps_v()[row as int][col as int] {
            Some(i) => CellForeground::Shaped { start: i },
            None => CellForeground::Nothing,
        }
    } else {
        CellForeground::Nothing
    }
}

/// The plan of a cell: spacer cells (the trailing half of a wide character,
/// or the padding before one wrapped to the next line) are not drawn; any
/// other cell gets a background of one column, two for a wide character,
/// and its foreground source.
pub open spec fn spec_plan_cell<G: Copy>(
    spacer: bool,
    wide: bool,
    ch: char,
    row: usize,
    col: usize,
    shaped: ShapedFrame<G>,
) -> Option<CellPlan> {
    if spacer {
        None
    } else {
        Some(
            CellPlan {
                bg_columns: if wide { 2 } else { 1 },
                foreground: spec_cell_foreground(ch, row, col, shaped),
            },
        )
    }
}

/// Plan the drawing of the cell at `row`, `col` holding `ch`.
pub fn plan_cell<G: Copy>(
    spacer: bool,
    wide: bool,
    ch: char,
    row: usize,
    col: usize,
    shaped: &ShapedFrame<G>,
) -> (p: Option<CellPlan>)
    requires
        shaped.wf(),
    ensures
        p == spec_plan_cell(spacer, wide, ch, row, col, *shaped),
{
    if spacer {
        return None;
    }
    let bg_columns: u32 = if wide { 2 } else { 1 };
    let foreground = if is_builtin(ch) {
        CellForeground::Builtin
    } else if row < shaped.rows() && col < shaped.cols() {
        match shaped.col_map(row, col) {
            Some(i) => CellForeground::Shaped { start: i },
            None => CellForeground::Nothing,
        }
    } else {
        CellForeground::Nothing
    };
    Some(CellPlan { bg_columns, foreground })
}

/// A rectangle of the cursor, relative to its cell.
#[derive(Debug, Clone, Copy, PartialEq, Eq, Structural)]
pub enum CursorEdge {
    /// The whole cell.
    Full,
    /// A stroke along the top of the cell.
    Top,
    /// A stroke along the bottom of the cell.
    Bottom,
    /// A stroke down the left side of the cell.
    Left,
    /// A stroke down the right side of the cell.
    Right,
}

/// The rectangles a cursor of `shape` draws: the full cell for a block, the
/// left edge for a bar, the bottom edge for an underline, the four edges
/// (top, bottom, left, right) for a hollow block, and none when hidden.
pub open spec fn spec_cursor_edges(shape: CursorShape) -> Seq<CursorEdge> {
    match shape {
        CursorShape::Block => seq![CursorEdge::Full],
        CursorShape::Bar => seq![CursorEdge::Left],
        CursorShape::Underline => seq![CursorEdge::Bottom],
        CursorShape::HollowBlock => seq![CursorEdge::Top, CursorEdge::Bottom, CursorEdge::Left, CursorEdge::Right],
        CursorShape::Hidden => seq![],
    }
}

/// The cursor rectangles drawn this frame: those of its shape when the
/// terminal shows the cursor and the blink phase is on, none otherwise.
pub fn cursor_edges(cursor: &RenderCursor, blink_visible: bool) -> (v: Vec<CursorEdge>)
    ensures
        v@ == (if cursor.visible && blink_visible {
            spec_cursor_edges(cursor.shape)
        } else {
            seq![]
        }),
{
    let mut v: Vec<CursorEdge> = Vec::new();
    if !(cursor.visible && blink_visible) {
        return v;
    }
    match cursor.shape {
        CursorShape::Block => {
            v.push(CursorEdge::Full);
        },
        CursorShape::Bar => {
            v.push(CursorEdge::Left);
        },
        CursorShape::Underline => {
            v.push(CursorEdge::Bottom);
        },
        CursorShape::HollowBlock => {
            v.push(CursorEdge::Top);
            v.push(CursorEdge::Bottom);
            v.push(CursorEdge::Left);
            v.push(CursorEdge::Right);
        },
        CursorShape::Hidden => {},
    }
    proof {
        assert(v@ =~= spec_cursor_edges(cursor.shape));
    }
    v
}

} // verus!
