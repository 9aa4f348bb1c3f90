use oriterm::gpu::prepare::cells::{cursor_edges, plan_cell, CellForeground, CellPlan, CursorEdge};
use oriterm::gpu::prepare::colors::{CursorShape, RenderCursor};
use oriterm::gpu::prepare::shaped_frame::ShapedFrame;

fn frame() -> ShapedFrame<u32> {
    let mut f: ShapedFrame<u32> = ShapedFrame::new(3, 896);
    f.push_row(&[10, 11], &[Some(0), None, Some(1)]);
    f
}

#[test]
fn spacer_cells_are_not_drawn() {
    let f = frame();
    assert_eq!(plan_cell(true, false, ' ', 0, 1, &f), None);
}

#[test]
fn wide_cell_background_spans_two_columns() {
    let f = frame();
    let p = plan_cell(false, true, '\u{4e2d}', 0, 0, &f).unwrap();
    assert_eq!(p.bg_columns, 2);
    assert_eq!(p.foreground, CellForeground::Shaped { start: 0 });
    assert_eq!(plan_cell(false, false, 'a', 0, 0, &f).unwrap().bg_columns, 1);
}

#[test]
fn builtin_cells_use_builtin_glyphs() {
    let f = frame();
    assert_eq!(
        plan_cell(false, false, '\u{2500}', 0, 1, &f),
        Some(CellPlan { bg_columns: 1, foreground: CellForeground::Builtin })
    );
}

#[test]
fn shaped_foreground_follows_column_map() {
    let f = frame();
    assert_eq!(plan_cell(false, false, 'b', 0, 2, &f).unwrap().foreground, CellForeground::Shaped { start: 1 });
    assert_eq!(plan_cell(false, false, 'x', 0, 1, &f).unwrap().foreground, CellForeground::Nothing);
    // Outside the shaped frame: background only.
    assert_eq!(plan_cell(false, false, 'x', 1, 0, &f).unwrap().foreground, CellForeground::Nothing);
    assert_eq!(plan_cell(false, false, 'x', 0, 3, &f).unwrap().foreground, CellForeground::Nothing);
}

fn cursor(shape: CursorShape, visible: bool) -> RenderCursor {
    RenderCursor { line: 0, column: 0, shape, visible }
}

#[test]
fn cursor_shapes_draw_their_edges() {
    assert_eq!(cursor_edges(&cursor(CursorShape::Block, true), true), vec![CursorEdge::Full]);
    assert_eq!(cursor_edges(&cursor(CursorShape::Bar, true), true), vec![CursorEdge::Left]);
    assert_eq!(cursor_edges(&cursor(CursorShape::Underline, true), true), vec![CursorEdge::Bottom]);
    assert_eq!(
        cursor_edges(&cursor(CursorShape::HollowBlock, true), true),
        vec![CursorEdge::Top, CursorEdge::Bottom, CursorEdge::Left, CursorEdge::Right]
    );
    assert!(cursor_edges(&cursor(CursorShape::Hidden, true), true).is_empty());
}

#[test]
fn cursor_hidden_or_blinked_off_draws_nothing() {
    assert!(cursor_edges(&cursor(CursorShape::Block, false), true).is_empty());
    assert!(cursor_edges(&cursor(CursorShape::Block, true), false).is_empty());
}
