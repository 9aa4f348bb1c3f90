//! Per-cell decisions of the prepare phase: the effective cursor, the
//! foreground and background a cell is drawn with once selection, search
//! highlighting and the block cursor are taken into account, and which
//! shaped glyphs belong to a cell.

use vstd::prelude::*;

use crate::gpu::frame_input::{spec_match_type, FrameSearch, MatchType};

verus! {

/// An RGB color.
#[derive(Debug, Clone, Copy, PartialEq, Eq, Structural)]
pub struct Rgb {
    pub r: u8,
    pub g: u8,
    pub b: u8,
}

/// Match highlight background: yellow-tinted for visibility.
pub open spec fn spec_search_match_bg() -> Rgb {
    Rgb { r: 100, g: 100, b: 30 }
}

/// Focused match highlight background: brighter yellow.
pub open spec fn spec_search_focused_bg() -> Rgb {
    Rgb { r: 200, g: 170, b: 40 }
}

/// Focused match foreground: dark for contrast.
pub open spec fn spec_search_focused_fg() -> Rgb {
    Rgb { r: 0, g: 0, b: 0 }
}

/// Match highlight background: yellow-tinted for visibility.
pub fn search_match_bg() -> (c: Rgb)
    ensures
        c == spec_search_match_bg(),
{
    Rgb { r: 100, g: 100, b: 30 }
}

/// Focused match highlight background: brighter yellow.
pub fn search_focused_bg() -> (c: Rgb)
    ensures
        c == spec_search_focused_bg(),
{
    Rgb { r: 200, g: 170, b: 40 }
}

/// Focused match foreground: dark for contrast.
pub fn search_focused_fg() -> (c: Rgb)
    ensures
        c == spec_search_focused_fg(),
{
    Rgb { r: 0, g: 0, b: 0 }
}

/// Cursor shapes.
#[derive(Debug, Clone, Copy, PartialEq, Eq, Structural)]
pub enum CursorShape {
    Block,
    Underline,
    Bar,
    HollowBlock,
    Hidden,
}

/// The cursor as rendered: grid position, shape and visibility.
#[derive(Debug, Clone, Copy, PartialEq, Eq, Structural)]
pub struct RenderCursor {
    pub line: usize,
    pub column: usize,
    pub shape: CursorShape,
    pub visible: bool,
}

/// Mark-mode cursor override: replaces the terminal cursor's position and
/// shape while mark mode is active.
#[derive(Debug, Clone, Copy, PartialEq, Eq, Structural)]
pub struct MarkCursorOverride {
    pub line: usize,
    pub column: usize,
    pub shape: CursorShape,
}

/// The effective cursor: the override (always visible) in mark mode, the
/// terminal cursor otherwise.
pub open spec fn spec_resolve_cursor(content: RenderCursor, mark: Option<MarkCursorOverride>) -> RenderCursor {
    match mark {
        Some(mc) => RenderCursor { line: mc.line, column: mc.column, shape: mc.shape, visible: true },
        None => content,
    }
}

/// Resolve the effective cursor for rendering.
///
/// When mark mode is active (`mark` is `Some`), the override replaces the
/// terminal cursor's position and shape. Otherwise the extracted terminal
/// cursor is used as-is.
pub fn resolve_cursor(content_cursor: &RenderCursor, mark: Option<&MarkCursorOverride>) -> (c: RenderCursor)
    ensures
        c == spec_resolve_cursor(*content_cursor, match mark {
            Some(m) => Some(*m),
            None => None,
        }),
{
    match mark {
        Some(mc) => RenderCursor { line: mc.line, column: mc.column, shape: mc.shape, visible: true },
        None => *content_cursor,
    }
}

/// What color resolution reads of a cell.
#[derive(Debug, Clone, Copy, PartialEq, Eq, Structural)]
pub struct CellColorInput {
    /// Viewport line.
    pub line: usize,
    /// Grid column.
    pub column: usize,
    /// Foreground color.
    pub fg: Rgb,
    /// Background color.
    pub bg: Rgb,
    /// The cell holds a wide character spanning two columns.
    pub wide: bool,
    /// SGR 7 (inverse) is set.
    pub inverse: bool,
    /// SGR 8 (hidden) is set.
    pub hidden: bool,
}

/// Whether the selection covers a cell and the column to its right.
#[derive(Debug, Clone, Copy, PartialEq, Eq, Structural)]
pub struct CellSelection {
    /// The cell itself is selected.
    pub here: bool,
    /// The column to its right is selected.
    pub next: bool,
}

/// The frame's semantic colors used when resolving cell colors.
#[derive(Debug, Clone, Copy, PartialEq, Eq, Structural)]
pub struct FramePalette {
    pub background: Rgb,
    pub foreground: Rgb,
    pub cursor_color: Rgb,
    /// Explicit selection foreground, if configured.
    pub selection_fg: Option<Rgb>,
    /// Explicit selection background, if configured.
    pub selection_bg: Option<Rgb>,
}

/// Whether the cell sits under a visible block cursor.
pub open spec fn under_block_cursor(cell: CellColorInput, cursor: RenderCursor, blink_visible: bool) -> bool {
    blink_visible && cursor.visible && cursor.shape == CursorShape::Block && cursor.line == cell.line
        && cursor.column == cell.column
}

/// The `(fg, bg)` a cell is drawn with.
///
/// Selection takes priority over search highlighting; neither applies under
/// a visible block cursor. A selected cell uses the configured selection
/// colors when both are set; otherwise it swaps fg and bg, except that an
/// inverse cell, or a swap that would make text invisible (fg == bg) on a
/// cell that is not hidden, falls back to the palette's background on
/// foreground. A search match keeps the cell's fg on the match background;
/// the focused match uses its own pair.
pub open spec fn spec_cell_colors(
    cell: CellColorInput,
    sel: Option<CellSelection>,
    search_type: MatchType,
    cursor: RenderCursor,
    blink_visible: bool,
    palette: FramePalette,
) -> (Rgb, Rgb) {
    let block = under_block_cursor(cell, cursor, blink_visible);
    let selected = !block && match sel {
        Some(s) => s.here || (cell.wide && s.next),
        None => false,
    };
    if selected {
        if palette.selection_fg is Some && palette.selection_bg is Some {
            (palette.selection_fg->0, palette.selection_bg->0)
        } else if cell.inverse {
            (palette.background, palette.foreground)
        } else if cell.bg == cell.fg && !cell.hidden {
            (palette.background, palette.foreground)
        } else {
            (cell.bg, cell.fg)
        }
    } else if !block && search_type == MatchType::FocusedMatch {
        (spec_search_focused_fg(), spec_search_focused_bg())
    } else if !block && search_type == MatchType::Match {
        (cell.fg, spec_search_match_bg())
    } else {
        (cell.fg, cell.bg)
    }
}

/// How the search classifies a cell, `NoMatch` without a search.
pub open spec fn search_class(search: Option<FrameSearch>, line: usize, column: usize) -> MatchType {
    match search {
        Some(s) => spec_match_type(s.spec_matches(), s.spec_focused(), (s.spec_base() + line) as u64, column),
        None => MatchType::NoMatch,
    }
}

/// Resolve per-cell colors with selection and search highlighting applied.
///
/// `sel` tells whether the selection (if any) covers the cell and the
/// column to its right; the right neighbour counts for wide characters.
pub fn resolve_cell_colors(
    cell: &CellColorInput,
    sel: Option<CellSelection>,
    search: Option<&FrameSearch>,
    cursor: &RenderCursor,
    cursor_blink_visible: bool,
    palette: &FramePalette,
) -> (c: (Rgb, Rgb))
    requires
        search matches Some(s) ==> s.wf() && s.spec_base() + cell.line <= u64::MAX,
    ensures
        c == spec_cell_colors(
            *cell,
            sel,
            search_class(
                match search {
                    Some(s) => Some(*s),
                    None => None,
                },
                cell.line,
                cell.column,
            ),
            *cursor,
            cursor_blink_visible,
            *palette,
        ),
{
    let is_block_cursor_cell = cursor_blink_visible && cursor.visible && matches!(cursor.shape, CursorShape::Block)
        && cursor.line == cell.line && cursor.column == cell.column;

    let selected = !is_block_cursor_cell && match sel {
        Some(s) => s.here || (cell.wide && s.next),
        None => false,
    };

    if selected {
        if let (Some(sfg), Some(sbg)) = (palette.selection_fg, palette.selection_bg) {
            return (sfg, sbg);
        }
        if cell.inverse {
            return (palette.background, palette.foreground);
        }
        let (sel_fg, sel_bg) = (cell.bg, cell.fg);
        if sel_fg == sel_bg && !cell.hidden {
            return (palette.background, palette.foreground);
        }
        return (sel_fg, sel_bg);
    }

    if !is_block_cursor_cell {
        if let Some(search) = search {
            match search.cell_match_type(cell.line, cell.column) {
                MatchType::FocusedMatch => {
                    return (search_focused_fg(), search_focused_bg());
                },
                MatchType::Match => {
                    return (cell.fg, search_match_bg());
                },
                MatchType::NoMatch => {},
            }
        }
    }

    (cell.fg, cell.bg)
}

/// End of the run of shaped glyphs drawn for the cell at `col`: the first
/// glyph is the cell's base glyph, and the run goes on while glyphs start in
/// the same column (combining marks follow their base glyph).
pub open spec fn spec_run_end(col_starts: Seq<usize>, start: int, col: usize) -> int
    decreases col_starts.len() - start,
{
    if start >= col_starts.len() {
        col_starts.len() as int
    } else if col_starts[start] != col {
        start
    } else {
        spec_run_end(col_starts, start + 1, col)
    }
}

/// Index one past the last shaped glyph drawn for the cell at `col`,
/// starting at its base glyph `start_idx`.
pub fn glyph_run_end(col_starts: &[usize], start_idx: usize, col: usize) -> (end: usize)
    requires
        start_idx < col_starts@.len(),
    ensures
        end == spec_run_end(col_starts@, start_idx + 1, col),
        start_idx < end <= col_starts@.len(),
        forall|j: int| start_idx < j < end ==> col_starts@[j] == col,
{
    let n = col_starts.len();
    let mut j: usize = start_idx + 1;
    while j < n && col_starts[j] == col
        invariant
            start_idx < j <= col_starts@.len(),
            n == col_starts@.len(),
            spec_run_end(col_starts@, start_idx + 1, col) == spec_run_end(col_starts@, j as int, col),
            forall|k: int| start_idx < k < j ==> col_starts@[k] == col,
        decreases col_starts@.len() - j,
    {
        j = j + 1;
    }
    j
}

/// The cell under a visible block cursor keeps its own colors: the cursor
/// overlay draws it, not selection or search highlighting.
pub proof fn law_block_cursor_cell_unchanged(
    cell: CellColorInput,
    sel: Option<CellSelection>,
    search_type: MatchType,
    cursor: RenderCursor,
    palette: FramePalette,
)
    requires
        under_block_cursor(cell, cursor, true),
    ensures
        spec_cell_colors(cell, sel, search_type, cursor, true, palette) == (cell.fg, cell.bg),
{
}

/// Selection takes priority over search highlighting.
pub proof fn law_selection_over_search(
    cell: CellColorInput,
    s: CellSelection,
    t1: MatchType,
    t2: MatchType,
    cursor: RenderCursor,
    blink_visible: bool,
    palette: FramePalette,
)
    requires
        s.here,
    ensures
        spec_cell_colors(cell, Some(s), t1, cursor, blink_visible, palette) == spec_cell_colors(
            cell,
            Some(s),
            t2,
            cursor,
            blink_visible,
            palette,
        ),
{
}

/// Selected text stays visible: without configured selection colors, a
/// selected cell that is not hidden is drawn with differing foreground and
/// background whenever the palette's foreground and background differ.
pub proof fn law_selected_text_visible(
    cell: CellColorInput,
    s: CellSelection,
    t: MatchType,
    cursor: RenderCursor,
    blink_visible: bool,
    palette: FramePalette,
)
    requires
        s.here,
        !under_block_cursor(cell, cursor, blink_visible),
        palette.selection_fg is None || palette.selection_bg is None,
        !cell.hidden,
        palette.background != palette.foreground,
    ensures
        spec_cell_colors(cell, Some(s), t, cursor, blink_visible, palette).0 != spec_cell_colors(
            cell,
            Some(s),
            t,
            cursor,
            blink_visible,
            palette,
        ).1,
{
}

/// Search highlighting of an unselected cell not under a visible block
/// cursor: a match keeps its foreground over the yellow-tinted background
/// (100, 100, 30); the focused match is drawn dark (0, 0, 0) on a brighter
/// yellow (200, 170, 40); a cell outside every match keeps its colors.
pub proof fn law_search_highlight_colors(
    cell: CellColorInput,
    t: MatchType,
    cursor: RenderCursor,
    blink_visible: bool,
    palette: FramePalette,
)
    requires
        !under_block_cursor(cell, cursor, blink_visible),
    ensures
        t == MatchType::Match ==> spec_cell_colors(cell, None, t, cursor, blink_visible, palette) == (
            cell.fg,
            Rgb { r: 100, g: 100, b: 30 },
        ),
        t == MatchType::FocusedMatch ==> spec_cell_colors(cell, None, t, cursor, blink_visible, palette) == (
            Rgb { r: 0, g: 0, b: 0 },
            Rgb { r: 200, g: 170, b: 40 },
        ),
        t == MatchType::NoMatch ==> spec_cell_colors(cell, None, t, cursor, blink_visible, palette) == (cell.fg, cell.bg),
{
}

} // verus!
