use oriterm::gpu::frame_input::{FrameSearch, SearchMatch};
use oriterm::gpu::prepare::cells::CursorEdge;
use oriterm::gpu::prepare::colors::{CellSelection, CursorShape, FramePalette, MarkCursorOverride, RenderCursor, Rgb};
use oriterm::gpu::prepare::decorations::{DecorationFlags, UnderlineStyle};
use oriterm::gpu::prepare::frame::{
    glyph_style, plan_frame, plan_frame_shaped, FrameContext, FrameGlyph, FramePlan, GlyphStyle, OverlayItem, PrepareCell,
    Underline,
};
use oriterm::gpu::prepare::shaped_frame::ShapedFrame;

const FG: Rgb = Rgb { r: 211, g: 215, b: 207 };
const BG: Rgb = Rgb { r: 0, g: 0, b: 0 };
const CURSOR: Rgb = Rgb { r: 255, g: 255, b: 255 };

fn palette() -> FramePalette {
    FramePalette { background: BG, foreground: FG, cursor_color: CURSOR, selection_fg: None, selection_bg: None }
}

fn no_flags() -> DecorationFlags {
    DecorationFlags {
        underline: false,
        double_underline: false,
        curly_underline: false,
        dotted_underline: false,
        dashed_underline: false,
        strikethrough: false,
    }
}

fn cell(line: usize, column: usize, ch: char) -> PrepareCell {
    PrepareCell {
        line,
        column,
        ch,
        fg: FG,
        bg: BG,
        wide: false,
        spacer: false,
        inverse: false,
        hidden: false,
        bold: false,
        italic: false,
        decorations: no_flags(),
        underline_color: None,
        has_hyperlink: false,
        selection: None,
    }
}

fn ctx(cursor: RenderCursor) -> FrameContext<'static> {
    FrameContext { search: None, cursor, mark: None, cursor_blink_visible: true, palette: palette(), hovered: None }
}

fn hidden_cursor() -> RenderCursor {
    RenderCursor { line: 0, column: 0, shape: CursorShape::Block, visible: false }
}

#[test]
fn unshaped_plan_one_draw_per_cell_and_no_glyph_for_space() {
    let cells = [cell(0, 0, 'A'), cell(0, 1, ' ')];
    let mut plan = FramePlan::new();
    plan_frame(&cells, &[], &ctx(hidden_cursor()), &mut plan);
    assert_eq!(plan.cells.len(), 2);
    assert_eq!(plan.cells[0].glyph, FrameGlyph::Char { ch: 'A', style: GlyphStyle::Regular });
    assert_eq!(plan.cells[1].glyph, FrameGlyph::Nothing);
    assert_eq!((plan.cells[0].fg, plan.cells[0].bg), (FG, BG));
    assert!(plan.overlays.is_empty(), "hidden cursor draws nothing");
}

#[test]
fn wide_char_spans_two_columns_and_spacer_is_skipped() {
    let mut wide = cell(0, 0, '\u{4e2d}');
    wide.wide = true;
    let mut spacer = cell(0, 1, ' ');
    spacer.spacer = true;
    let mut plan = FramePlan::new();
    plan_frame(&[wide, spacer], &[], &ctx(hidden_cursor()), &mut plan);
    assert_eq!(plan.cells.len(), 1);
    assert_eq!(plan.cells[0].columns, 2);
}

#[test]
fn bold_italic_styles() {
    assert_eq!(glyph_style(true, false), GlyphStyle::Bold);
    assert_eq!(glyph_style(false, true), GlyphStyle::Italic);
    assert_eq!(glyph_style(true, true), GlyphStyle::BoldItalic);
    let mut c = cell(0, 0, 'B');
    c.bold = true;
    let mut plan = FramePlan::new();
    plan_frame(&[c], &[], &ctx(hidden_cursor()), &mut plan);
    assert_eq!(plan.cells[0].glyph, FrameGlyph::Char { ch: 'B', style: GlyphStyle::Bold });
}

#[test]
fn block_cursor_appended_after_cells_when_visible_and_blink_on() {
    let cur = RenderCursor { line: 0, column: 1, shape: CursorShape::HollowBlock, visible: true };
    let cells = [cell(0, 0, 'a'), cell(0, 1, 'b')];
    let mut plan = FramePlan::new();
    plan_frame(&cells, &[], &ctx(cur), &mut plan);
    let edges: Vec<CursorEdge> = plan
        .overlays
        .iter()
        .map(|o| match o {
            OverlayItem::Cursor { line: 0, column: 1, edge, color } => {
                assert_eq!(*color, CURSOR);
                *edge
            },
            other => panic!("unexpected overlay {other:?}"),
        })
        .collect();
    assert_eq!(edges, vec![CursorEdge::Top, CursorEdge::Bottom, CursorEdge::Left, CursorEdge::Right]);

    let mut off = ctx(cur);
    off.cursor_blink_visible = false;
    let mut plan = FramePlan::new();
    plan_frame(&cells, &[], &off, &mut plan);
    assert!(plan.overlays.is_empty(), "blink phase off hides the cursor");
}

#[test]
fn mark_cursor_overrides_hidden_terminal_cursor() {
    let mut c = ctx(hidden_cursor());
    c.mark = Some(MarkCursorOverride { line: 0, column: 0, shape: CursorShape::Bar });
    let mut plan = FramePlan::new();
    plan_frame(&[cell(0, 0, 'x')], &[], &c, &mut plan);
    assert_eq!(plan.overlays, vec![OverlayItem::Cursor { line: 0, column: 0, edge: CursorEdge::Left, color: CURSOR }]);
}

#[test]
fn url_underlines_come_before_the_cursor() {
    let cur = RenderCursor { line: 2, column: 3, shape: CursorShape::Underline, visible: true };
    let mut plan = FramePlan::new();
    plan_frame(&[], &[(1, 2, 5)], &ctx(cur), &mut plan);
    assert_eq!(
        plan.overlays,
        vec![
            OverlayItem::UrlUnderline { line: 1, start_col: 2, end_col: 5, color: FG },
            OverlayItem::Cursor { line: 2, column: 3, edge: CursorEdge::Bottom, color: CURSOR },
        ]
    );
}

#[test]
fn decorations_underline_strikethrough_and_hyperlinks() {
    let mut u = cell(0, 0, 'u');
    u.decorations.curly_underline = true;
    u.underline_color = Some(Rgb { r: 1, g: 2, b: 3 });
    u.decorations.strikethrough = true;
    let mut link = cell(0, 1, 'l');
    link.has_hyperlink = true;
    let mut hovered = cell(0, 2, 'h');
    hovered.has_hyperlink = true;
    let mut explicit = cell(0, 3, 'e');
    explicit.has_hyperlink = true;
    explicit.decorations.underline = true;
    let mut c = ctx(hidden_cursor());
    c.hovered = Some((0, 2));
    let mut plan = FramePlan::new();
    plan_frame(&[u, link, hovered, explicit, cell(0, 4, 'p')], &[], &c, &mut plan);
    let d = &plan.cells;
    assert_eq!(d[0].decoration.underline, Some(Underline { style: UnderlineStyle::Curly, color: Rgb { r: 1, g: 2, b: 3 } }));
    assert_eq!(d[0].decoration.strikethrough, Some(FG));
    assert_eq!(d[1].decoration.underline, Some(Underline { style: UnderlineStyle::Dotted, color: FG }));
    assert_eq!(d[2].decoration.underline, Some(Underline { style: UnderlineStyle::Single, color: FG }));
    assert_eq!(d[3].decoration.underline, Some(Underline { style: UnderlineStyle::Single, color: FG }));
    assert_eq!(d[4].decoration.underline, None);
    assert_eq!(d[4].decoration.strikethrough, None);
}

#[test]
fn selection_and_search_colors_are_resolved() {
    let mut sel = cell(0, 0, 's');
    sel.selection = Some(CellSelection { here: true, next: false });
    let matches = vec![SearchMatch { start_row: 10, start_col: 1, end_row: 10, end_col: 1 }];
    let search = FrameSearch::new(matches, 0, 10, "m".to_string());
    let c = FrameContext {
        search: Some(&search),
        cursor: hidden_cursor(),
        mark: None,
        cursor_blink_visible: true,
        palette: palette(),
        hovered: None,
    };
    let mut plan = FramePlan::new();
    plan_frame(&[sel, cell(0, 1, 'm')], &[], &c, &mut plan);
    assert_eq!((plan.cells[0].fg, plan.cells[0].bg), (BG, FG), "selection swaps colors");
    assert_eq!(plan.cells[1].bg, Rgb { r: 200, g: 170, b: 40 }, "focused match background");
}

fn starts_frame() -> ShapedFrame<usize> {
    // Row 0 of 4 columns: "fi" ligature at column 0 (spans 0-1), "e" with a
    // combining mark at column 2, column 3 empty.
    let mut f: ShapedFrame<usize> = ShapedFrame::new(4, 896);
    f.push_row(&[0, 2, 2], &[Some(0), None, Some(1), None]);
    f
}

#[test]
fn shaped_plan_runs_follow_column_map() {
    let f = starts_frame();
    let cells = [cell(0, 0, 'f'), cell(0, 1, 'i'), cell(0, 2, 'e'), cell(0, 3, ' ')];
    let mut plan = FramePlan::new();
    plan_frame_shaped(&cells, &f, &[], &ctx(hidden_cursor()), &mut plan);
    assert_eq!(plan.cells.len(), 4, "one background per cell");
    assert_eq!(plan.cells[0].glyph, FrameGlyph::ShapedRun { start: 0, end: 1 });
    assert_eq!(plan.cells[1].glyph, FrameGlyph::Nothing, "ligature continuation");
    assert_eq!(plan.cells[2].glyph, FrameGlyph::ShapedRun { start: 1, end: 3 }, "base glyph and combining mark");
    assert_eq!(plan.cells[3].glyph, FrameGlyph::Nothing);
}

#[test]
fn shaped_plan_builtin_and_out_of_frame_cells() {
    let f = starts_frame();
    let cells = [cell(0, 0, '\u{2500}'), cell(1, 0, 'x'), cell(0, 9, 'y')];
    let mut plan = FramePlan::new();
    plan_frame_shaped(&cells, &f, &[], &ctx(hidden_cursor()), &mut plan);
    assert_eq!(plan.cells[0].glyph, FrameGlyph::Builtin { ch: '\u{2500}' });
    assert_eq!(plan.cells[1].glyph, FrameGlyph::Nothing, "row outside the shaped frame");
    assert_eq!(plan.cells[2].glyph, FrameGlyph::Nothing, "column outside the shaped frame");
}

#[test]
fn plans_accumulate_without_clearing() {
    let f = starts_frame();
    let mut plan = FramePlan::new();
    plan_frame_shaped(&[cell(0, 0, 'f')], &f, &[], &ctx(hidden_cursor()), &mut plan);
    plan_frame_shaped(&[cell(0, 2, 'e')], &f, &[], &ctx(hidden_cursor()), &mut plan);
    assert_eq!(plan.cells.len(), 2);
}
