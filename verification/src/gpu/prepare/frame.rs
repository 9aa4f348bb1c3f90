//! The prepare pass over a whole frame, in cell units.
//!
//! Turns a frame's cells into what is drawn for each of them, in drawing
//! order: the background (one or two columns wide), the decorations, and
//! the foreground (a built-in glyph, a run of shaped glyphs, or a
//! character looked up by style); then the overlay layer: hovered URL
//! underlines and the cursor's rectangles. Scaling to pixels, atlas lookups
//! and subpixel positioning are left to the caller, which walks the plan in
//! order and fills its instance buffers.

use vstd::prelude::*;

use super::cells::{spec_cursor_edges, CursorEdge};
use super::colors::{
    resolve_cell_colors, resolve_cursor, search_class, spec_cell_colors, spec_resolve_cursor, spec_run_end,
    CellColorInput, CellSelection, FramePalette, MarkCursorOverride, RenderCursor, Rgb,
};
use super::decorations::{spec_underline_style, underline_style, DecorationFlags, UnderlineStyle};
use super::shaped_frame::ShapedFrame;
use crate::gpu::builtin_glyphs::{is_builtin, spec_is_builtin};
use crate::gpu::frame_input::FrameSearch;

verus! {

/// What the prepare pass reads of one cell.
#[derive(Debug, Clone, Copy, PartialEq, Eq, Structural)]
pub struct PrepareCell {
    /// Viewport line.
    pub line: usize,
    /// Grid column.
    pub column: usize,
    /// The cell's character.
    pub ch: char,
    /// Foreground color.
    pub fg: Rgb,
    /// Background color.
    pub bg: Rgb,
    /// The cell holds a wide character spanning two columns.
    pub wide: bool,
    /// The cell is a wide-character spacer (the trailing half of a wide
    /// character, or the padding before one wrapped to the next line).
    pub spacer: bool,
    /// SGR 7 (inverse) is set.
    pub inverse: bool,
    /// SGR 8 (hidden) is set.
    pub hidden: bool,
    /// Bold.
    pub bold: bool,
    /// Italic.
    pub italic: bool,
    /// Underline and strikethrough flags.
    pub decorations: DecorationFlags,
    /// Underline color (SGR 58), if set.
    pub underline_color: Option<Rgb>,
    /// The cell is part of a hyperlink.
    pub has_hyperlink: bool,
    /// Whether the selection covers the cell and the column to its right
    /// (`None` without a selection).
    pub selection: Option<CellSelection>,
}

/// Font style a character is looked up in.
#[derive(Debug, Clone, Copy, PartialEq, Eq, Structural)]
pub enum GlyphStyle {
    Regular,
    Bold,
    Italic,
    BoldItalic,
}

/// The style of a cell's bold and italic flags.
pub open spec fn spec_glyph_style(bold: bool, italic: bool) -> GlyphStyle {
    if bold && italic {
        GlyphStyle::BoldItalic
    } else if bold {
        GlyphStyle::Bold
    } else if italic {
        GlyphStyle::Italic
    } else {
        GlyphStyle::Regular
    }
}

/// The glyph style for a cell's bold and italic flags.
pub fn glyph_style(bold: bool, italic: bool) -> (s: GlyphStyle)
    ensures
        s == spec_glyph_style(bold, italic),
{
    if bold && italic {
        GlyphStyle::BoldItalic
    } else if bold {
        GlyphStyle::Bold
    } else if italic {
        GlyphStyle::Italic
    } else {
        GlyphStyle::Regular
    }
}

/// An underline: its style and color.
#[derive(Debug, Clone, Copy, PartialEq, Eq, Structural)]
pub struct Underline {
    pub style: UnderlineStyle,
    pub color: Rgb,
}

/// The decorations drawn over a cell's background.
#[derive(Debug, Clone, Copy, PartialEq, Eq, Structural)]
pub struct DecorationPlan {
    /// Underline style and color, if underlined.
    pub underline: Option<Underline>,
    /// Strikethrough color, if struck through.
    pub strikethrough: Option<Rgb>,
}

/// Where a drawn cell's foreground comes from.
#[derive(Debug, Clone, Copy, PartialEq, Eq, Structural)]
pub enum FrameGlyph {
    /// The built-in glyph of this character.
    Builtin { ch: char },
    /// The shaped glyphs `start..end` of the cell's row.
    ShapedRun { start: usize, end: usize },
    /// This character, looked up in this style.
    Char { ch: char, style: GlyphStyle },
    /// No foreground.
    Nothing,
}

/// What is drawn for one cell, in order: background, decorations,
/// foreground.
#[derive(Debug, Clone, Copy, PartialEq, Eq, Structural)]
pub struct CellDraw {
    pub line: usize,
    pub column: usize,
    /// Columns the background and decorations span.
    pub columns: u32,
    /// Resolved foreground color.
    pub fg: Rgb,
    /// Resolved background color.
    pub bg: Rgb,
    pub decoration: DecorationPlan,
    pub glyph: FrameGlyph,
}

/// An item of the overlay (cursor) layer, drawn over the cells.
#[derive(Debug, Clone, Copy, PartialEq, Eq, Structural)]
pub enum OverlayItem {
    /// Underline of a hovered URL on `line`, from `start_col` through
    /// `end_col`.
    UrlUnderline { line: usize, start_col: usize, end_col: usize, color: Rgb },
    /// One rectangle of the cursor in its cell.
    Cursor { line: usize, column: usize, edge: CursorEdge, color: Rgb },
}

/// A frame's drawing plan: cell draws, then the overlay layer.
pub struct FramePlan {
    pub cells: Vec<CellDraw>,
    pub overlays: Vec<OverlayItem>,
}

impl FramePlan {
    /// An empty plan.
    pub fn new() -> (p: FramePlan)
        ensures
            p.cells@ == Seq::<CellDraw>::empty(),
            p.overlays@ == Seq::<OverlayItem>::empty(),
    {
        FramePlan { cells: Vec::new(), overlays: Vec::new() }
    }
}

/// The color-resolution view of a cell.
pub open spec fn color_input(c: PrepareCell) -> CellColorInput {
    CellColorInput {
        line: c.line,
        column: c.column,
        fg: c.fg,
        bg: c.bg,
        wide: c.wide,
        inverse: c.inverse,
        hidden: c.hidden,
    }
}

/// A cell's decorations: its underline flags' style in its underline color
/// (the foreground when unset); without underline flags, a hyperlink gets a
/// solid underline while hovered and a dotted one otherwise, in the
/// foreground color; strikethrough in the foreground color.
pub open spec fn spec_decoration(c: PrepareCell, fg: Rgb, hovered: bool) -> DecorationPlan {
    let underline = match spec_underline_style(c.decorations) {
        Some(s) => Some(
            Underline {
                style: s,
                color: match c.underline_color {
                    Some(u) => u,
                    None => fg,
                },
            },
        ),
        None => if c.has_hyperlink {
            if hovered {
                Some(Underline { style: UnderlineStyle::Single, color: fg })
            } else {
                Some(Underline { style: UnderlineStyle::Dotted, color: fg })
            }
        } else {
            None
        },
    };
    DecorationPlan { underline, strikethrough: if c.decorations.strikethrough { Some(fg) } else { None } }
}

/// Whether `hovered` is the cell's position.
pub open spec fn is_hovered(c: PrepareCell, hovered: Option<(usize, usize)>) -> bool {
    hovered == Some((c.line, c.column))
}

/// The shaped foreground of a cell: a built-in character's own glyph; for
/// a cell inside the shaped frame whose column maps to glyph `start`, the
/// run from `start` through the glyphs that follow in the same column (the
/// base glyph and its combining marks); nothing otherwise. `starts` holds
/// the column each shaped glyph starts in.
pub open spec fn spec_shaped_glyph(c: PrepareCell, starts: ShapedFrame<usize>) -> FrameGlyph {
    if spec_is_builtin(c.ch as u32) {
        FrameGlyph::Builtin { ch: c.ch }
    } else if c.line < starts.shaped_rows().len() && c.column < starts.spec_cols() {
        match starts.col_maps_v()[c.line as int][c.column as int] {
            Some(start) => {
                let row = starts.shaped_rows()[c.line as int];
                FrameGlyph::ShapedRun {
                    start,
                    end: if start < row.len() {
                        spec_run_end(row, start + 1, c.column) as usize
                    } else {
                        start
                    },
                }
            },
            None => FrameGlyph::Nothing,
        }
    } else {
        FrameGlyph::Nothing
    }
}

/// The unshaped foreground of a cell: its character in its style, except
/// for a space.
pub open spec fn spec_char_glyph(c: PrepareCell) -> FrameGlyph {
    if c.ch != ' ' {
        FrameGlyph::Char { ch: c.ch, style: spec_glyph_style(c.bold, c.italic) }
    } else {
        FrameGlyph::Nothing
    }
}

/// The frame-wide inputs of the prepare pass.
pub struct FrameContext<'a> {
    /// The search snapshot, if a search is active.
    pub search: Option<&'a FrameSearch>,
    /// The terminal cursor.
    pub cursor: RenderCursor,
    /// The mark-mode cursor override, if mark mode is active.
    pub mark: Option<MarkCursorOverride>,
    /// Whether the blink phase shows the cursor.
    pub cursor_blink_visible: bool,
    /// The palette.
    pub palette: FramePalette,
    /// The hovered cell `(line, column)`, if any.
    pub hovered: Option<(usize, usize)>,
}

/// The search snapshot of a context, as a value.
pub open spec fn ctx_search(ctx: FrameContext) -> Option<FrameSearch> {
    match ctx.search {
        Some(s) => Some(*s),
        None => None,
    }
}

/// The effective cursor of a context.
pub open spec fn ctx_cursor(ctx: FrameContext) -> RenderCursor {
    spec_resolve_cursor(ctx.cursor, ctx.mark)
}

/// What is drawn for a cell, given its foreground: nothing for a spacer;
/// otherwise its resolved colors, a background one column wide (two for a
/// wide character), its decorations and that foreground.
pub open spec fn spec_cell_draw(c: PrepareCell, ctx: FrameContext, glyph: FrameGlyph) -> Option<CellDraw> {
    if c.spacer {
        None
    } else {
        let colors = spec_cell_colors(
            color_input(c),
            c.selection,
            search_class(ctx_search(ctx), c.line, c.column),
            ctx_cursor(ctx),
            ctx.cursor_blink_visible,
            ctx.palette,
        );
        Some(
            CellDraw {
                line: c.line,
                column: c.column,
                columns: if c.wide { 2 } else { 1 },
                fg: colors.0,
                bg: colors.1,
                decoration: spec_decoration(c, colors.0, is_hovered(c, ctx.hovered)),
                glyph,
            },
        )
    }
}

/// The cell draws of the shaped pass, in cell order.
pub open spec fn spec_shaped_draws(cells: Seq<PrepareCell>, starts: ShapedFrame<usize>, ctx: FrameContext) -> Seq<CellDraw>
    decreases cells.len(),
{
    if cells.len() == 0 {
        Seq::empty()
    } else {
        let c = cells.last();
        spec_shaped_draws(cells.drop_last(), starts, ctx) + match spec_cell_draw(c, ctx, spec_shaped_glyph(c, starts)) {
            Some(d) => seq![d],
            None => Seq::empty(),
        }
    }
}

/// The cell draws of the unshaped pass, in cell order.
pub open spec fn spec_unshaped_draws(cells: Seq<PrepareCell>, ctx: FrameContext) -> Seq<CellDraw>
    decreases cells.len(),
{
    if cells.len() == 0 {
        Seq::empty()
    } else {
        let c = cells.last();
        spec_unshaped_draws(cells.drop_last(), ctx) + match spec_cell_draw(c, ctx, spec_char_glyph(c)) {
            Some(d) => seq![d],
            None => Seq::empty(),
        }
    }
}

/// The overlay layer: an underline per hovered URL segment in the palette
/// foreground, then the cursor's rectangles in the cursor color when the
/// terminal shows the cursor and the blink phase is on.
pub open spec fn spec_overlays(url_segments: Seq<(usize, usize, usize)>, ctx: FrameContext) -> Seq<OverlayItem> {
    let cur = ctx_cursor(ctx);
    url_segments.map_values(
        |s: (usize, usize, usize)|
            OverlayItem::UrlUnderline { line: s.0, start_col: s.1, end_col: s.2, color: ctx.palette.foreground },
    ) + if cur.visible && ctx.cursor_blink_visible {
        spec_cursor_edges(cur.shape).map_values(
            |e: CursorEdge| OverlayItem::Cursor { line: cur.line, column: cur.column, edge: e, color: ctx.palette.cursor_color },
        )
    } else {
        Seq::empty()
    }
}

/// Whether two cell draws agree in everything but their foreground.
pub open spec fn same_but_glyph(a: CellDraw, b: CellDraw) -> bool {
    &&& a.line == b.line
    &&& a.column == b.column
    &&& a.columns == b.columns
    &&& a.fg == b.fg
    &&& a.bg == b.bg
    &&& a.decoration == b.decoration
}

/// The shaped and unshaped passes draw the same cells, in the same order,
/// with the same backgrounds, colors and decorations: they differ only in
/// where each foreground comes from.
pub proof fn law_shaped_and_unshaped_differ_only_in_glyphs(
    cells: Seq<PrepareCell>,
    starts: ShapedFrame<usize>,
    ctx: FrameContext,
)
    ensures
        spec_shaped_draws(cells, starts, ctx).len() == spec_unshaped_draws(cells, ctx).len(),
        forall|i: int|
            0 <= i < spec_unshaped_draws(cells, ctx).len() ==> same_but_glyph(
                #[trigger] spec_shaped_draws(cells, starts, ctx)[i],
                spec_unshaped_draws(cells, ctx)[i],
            ),
    decreases cells.len(),
{
    if cells.len() > 0 {
        law_shaped_and_unshaped_differ_only_in_glyphs(cells.drop_last(), starts, ctx);
    }
}

/// Whether the search of a context can classify every cell.
pub open spec fn search_ok(cells: Seq<PrepareCell>, ctx: FrameContext) -> bool {
    match ctx.search {
        Some(s) => s.wf() && forall|i: int| 0 <= i < cells.len() ==> s.spec_base() + (#[trigger] cells[i]).line <= u64::MAX,
        None => true,
    }
}

/// The decorations of a cell with resolved foreground `fg`.
fn decoration(c: &PrepareCell, fg: Rgb, hovered: bool) -> (d: DecorationPlan)
    ensures
        d == spec_decoration(*c, fg, hovered),
{
    let underline = match underline_style(&c.decorations) {
        Some(s) => Some(
            Underline {
                style: s,
                color: match c.underline_color {
                    Some(u) => u,
                    None => fg,
                },
            },
        ),
        None => if c.has_hyperlink {
            if hovered {
                Some(Underline { style: UnderlineStyle::Single, color: fg })
            } else {
                Some(Underline { style: UnderlineStyle::Dotted, color: fg })
            }
        } else {
            None
        },
    };
    DecorationPlan { underline, strikethrough: if c.decorations.strikethrough { Some(fg) } else { None } }
}

/// The draw of a non-spacer cell with foreground `glyph`.
fn cell_draw(c: &PrepareCell, ctx: &FrameContext, cursor: &RenderCursor, glyph: FrameGlyph) -> (d: CellDraw)
    requires
        !c.spacer,
        *cursor == ctx_cursor(*ctx),
        ctx.search matches Some(s) ==> s.wf() && s.spec_base() + c.line <= u64::MAX,
    ensures
        spec_cell_draw(*c, *ctx, glyph) == Some(d),
{
    let input = CellColorInput {
        line: c.line,
        column: c.column,
        fg: c.fg,
        bg: c.bg,
        wide: c.wide,
        inverse: c.inverse,
        hidden: c.hidden,
    };
    let (fg, bg) = resolve_cell_colors(&input, c.selection, ctx.search, cursor, ctx.cursor_blink_visible, &ctx.palette);
    let hovered = match ctx.hovered {
        Some((l, col)) => l == c.line && col == c.column,
        None => false,
    };
    CellDraw {
        line: c.line,
        column: c.column,
        columns: if c.wide { 2 } else { 1 },
        fg,
        bg,
        decoration: decoration(c, fg, hovered),
        glyph,
    }
}

/// The shaped foreground of a cell.
fn shaped_glyph(c: &PrepareCell, starts: &ShapedFrame<usize>) -> (g: FrameGlyph)
    requires
        starts.wf(),
    ensures
        g == spec_shaped_glyph(*c, *starts),
{
    if is_builtin(c.ch) {
        return FrameGlyph::Builtin { ch: c.ch };
    }
    if c.line < starts.rows() && c.column < starts.cols() {
        match starts.col_map(c.line, c.column) {
            Some(start) => {
                let row = starts.row_glyphs(c.line);
                let end = if start < row.len() {
                    super::colors::glyph_run_end(row, start, c.column)
                } else {
                    start
                };
                FrameGlyph::ShapedRun { start, end }
            },
            None => FrameGlyph::Nothing,
        }
    } else {
        FrameGlyph::Nothing
    }
}

/// Append the overlay layer.
fn push_overlays(url_segments: &[(usize, usize, usize)], ctx: &FrameContext, cursor: &RenderCursor, out: &mut FramePlan)
    requires
        *cursor == ctx_cursor(*ctx),
    ensures
        final(out).cells@ == old(out).cells@,
        final(out).overlays@ == old(out).overlays@ + spec_overlays(url_segments@, *ctx),
{
    let ghost o0 = out.overlays@;
    let color = ctx.palette.foreground;
    let mut i: usize = 0;
    while i < url_segments.len()
        invariant
            i <= url_segments@.len(),
            color == ctx.palette.foreground,
            out.cells@ == old(out).cells@,
            out.overlays@ == o0 + url_segments@.take(i as int).map_values(
                |s: (usize, usize, usize)| OverlayItem::UrlUnderline { line: s.0, start_col: s.1, end_col: s.2, color },
            ),
        decreases url_segments@.len() - i,
    {
        let (line, start_col, end_col) = url_segments[i];
        out.overlays.push(OverlayItem::UrlUnderline { line, start_col, end_col, color });
        i = i + 1;
        proof {
            assert(url_segments@.take(i as int) =~= url_segments@.take(i - 1).push(url_segments@[i - 1]));
            assert(out.overlays@ =~= o0 + url_segments@.take(i as int).map_values(
                |s: (usize, usize, usize)| OverlayItem::UrlUnderline { line: s.0, start_col: s.1, end_col: s.2, color },
            ));
        }
    }
    proof {
        assert(url_segments@.take(i as int) =~= url_segments@);
    }
    let ghost o1 = out.overlays@;
    let edges = super::cells::cursor_edges(cursor, ctx.cursor_blink_visible);
    let ccolor = ctx.palette.cursor_color;
    let mut j: usize = 0;
    while j < edges.len()
        invariant
            j <= edges@.len(),
            out.cells@ == old(out).cells@,
            out.overlays@ == o1 + edges@.take(j as int).map_values(
                |e: CursorEdge| OverlayItem::Cursor { line: cursor.line, column: cursor.column, edge: e, color: ccolor },
            ),
        decreases edges@.len() - j,
    {
        out.overlays.push(OverlayItem::Cursor { line: cursor.line, column: cursor.column, edge: edges[j], color: ccolor });
        j = j + 1;
        proof {
            assert(edges@.take(j as int) =~= edges@.take(j - 1).push(edges@[j - 1]));
            assert(out.overlays@ =~= o1 + edges@.take(j as int).map_values(
                |e: CursorEdge| OverlayItem::Cursor { line: cursor.line, column: cursor.column, edge: e, color: ccolor },
            ));
        }
    }
    proof {
        assert(edges@.take(j as int) =~= edges@);
        assert(out.overlays@ =~= old(out).overlays@ + spec_overlays(url_segments@, *ctx));
    }
}

/// The shaped prepare pass: append the draws of `cells`, their foregrounds
/// driven by the shaped frame's column map (`starts` holds the column each
/// shaped glyph starts in), then the overlay layer.
pub fn plan_frame_shaped(
    cells: &[PrepareCell],
    starts: &ShapedFrame<usize>,
    url_segments: &[(usize, usize, usize)],
    ctx: &FrameContext,
    out: &mut FramePlan,
)
    requires
        starts.wf(),
        search_ok(cells@, *ctx),
    ensures
        final(out).cells@ == old(out).cells@ + spec_shaped_draws(cells@, *starts, *ctx),
        final(out).overlays@ == old(out).overlays@ + spec_overlays(url_segments@, *ctx),
{
    let cursor = resolve_cursor(&ctx.cursor, match &ctx.mark {
        Some(m) => Some(m),
        None => None,
    });
    let ghost c0 = out.cells@;
    let mut i: usize = 0;
    while i < cells.len()
        invariant
            i <= cells@.len(),
            starts.wf(),
            search_ok(cells@, *ctx),
            cursor == ctx_cursor(*ctx),
            out.overlays@ == old(out).overlays@,
            out.cells@ == c0 + spec_shaped_draws(cells@.take(i as int), *starts, *ctx),
        decreases cells@.len() - i,
    {
        let c = &cells[i];
        proof {
            assert(cells@.take(i + 1).drop_last() =~= cells@.take(i as int));
            assert(cells@.take(i + 1).last() == *c);
        }
        if !c.spacer {
            let g = shaped_glyph(c, starts);
            let d = cell_draw(c, ctx, &cursor, g);
            out.cells.push(d);
            proof {
                assert(out.cells@ =~= c0 + spec_shaped_draws(cells@.take(i + 1), *starts, *ctx));
            }
        } else {
            proof {
                assert(out.cells@ =~= c0 + spec_shaped_draws(cells@.take(i + 1), *starts, *ctx));
            }
        }
        i = i + 1;
    }
    proof {
        assert(cells@.take(i as int) =~= cells@);
    }
    push_overlays(url_segments, ctx, &cursor, out);
}

/// The unshaped prepare pass: append the draws of `cells`, each foreground
/// being the cell's character in its style (none for a space), then the
/// overlay layer.
pub fn plan_frame(cells: &[PrepareCell], url_segments: &[(usize, usize, usize)], ctx: &FrameContext, out: &mut FramePlan)
    requires
        search_ok(cells@, *ctx),
    ensures
        final(out).cells@ == old(out).cells@ + spec_unshaped_draws(cells@, *ctx),
        final(out).overlays@ == old(out).overlays@ + spec_overlays(url_segments@, *ctx),
{
    let cursor = resolve_cursor(&ctx.cursor, match &ctx.mark {
        Some(m) => Some(m),
        None => None,
    });
    let ghost c0 = out.cells@;
    let mut i: usize = 0;
    while i < cells.len()
        invariant
            i <= cells@.len(),
            search_ok(cells@, *ctx),
            cursor == ctx_cursor(*ctx),
            out.overlays@ == old(out).overlays@,
            out.cells@ == c0 + spec_unshaped_draws(cells@.take(i as int), *ctx),
        decreases cells@.len() - i,
    {
        let c = &cells[i];
        proof {
            assert(cells@.take(i + 1).drop_last() =~= cells@.take(i as int));
            assert(cells@.take(i + 1).last() == *c);
        }
        if !c.spacer {
            let g = if c.ch != ' ' {
                FrameGlyph::Char { ch: c.ch, style: glyph_style(c.bold, c.italic) }
            } else {
                FrameGlyph::Nothing
            };
            let d = cell_draw(c, ctx, &cursor, g);
            out.cells.push(d);
            proof {
                assert(out.cells@ =~= c0 + spec_unshaped_draws(cells@.take(i + 1), *ctx));
            }
        } else {
            proof {
                assert(out.cells@ =~= c0 + spec_unshaped_draws(cells@.take(i + 1), *ctx));
            }
        }
        i = i + 1;
    }
    proof {
        assert(cells@.take(i as int) =~= cells@);
    }
    push_overlays(url_segments, ctx, &cursor, out);
}

} // verus!
