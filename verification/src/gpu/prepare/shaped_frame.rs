//! Pre-shaped frame: per-row glyph data for shaped text rendering.
//!
//! [`ShapedFrame`] stores the output of shaping all visible rows into a single
//! flat buffer with per-row span indices and column-to-glyph maps. Built once
//! per frame by the renderer, consumed by the prepare phase to emit glyph
//! instances from shaped data instead of per-cell character lookups.

use vstd::prelude::*;

verus! {

/// Position of column `col` of row `row` in the flat column map.
pub open spec fn map_index(cols: int, row: int, col: int) -> int {
    row * cols + col
}

proof fn lemma_map_index(cols: int, rows: int, row: int, col: int)
    requires
        0 <= row < rows,
        0 <= col < cols,
    ensures
        0 <= map_index(cols, row, col) < rows * cols,
        map_index(cols, row + 1, 0) == map_index(cols, row, 0) + cols,
{
    assert(0 <= row * cols + col < rows * cols) by (nonlinear_arith)
        requires 0 <= row < rows, 0 <= col < cols;
    assert((row + 1) * cols == row * cols + cols) by (nonlinear_arith);
}

/// Pre-shaped glyph data for all visible rows.
///
/// Flat storage with per-row indexing to avoid per-row allocations. The
/// renderer builds this by shaping each row and calling [`push_row`](Self::push_row);
/// the prepare phase reads it via [`row_glyphs`](Self::row_glyphs) and
/// [`col_map`](Self::col_map).
pub struct ShapedFrame<G> {
    /// Flat buffer of all shaped glyphs, rows concatenated.
    glyphs: Vec<G>,
    /// `row_spans[row] = (start, end)` indices into `glyphs`.
    row_spans: Vec<(usize, usize)>,
    /// Flat col-to-glyph map: `col_maps[row * cols + col]`, relative to the
    /// row's span start.
    col_maps: Vec<Option<usize>>,
    /// Number of columns per row.
    cols: usize,
    /// Font size in 26.6 fixed-point for `RasterKey` construction.
    size_q6: u32,
    /// Whether glyphs were rasterized with hinting enabled.
    hinted: bool,
    /// The rows pushed so far, each as its glyph sequence.
    rows_v: Ghost<Seq<Seq<G>>>,
    /// The column maps of the rows pushed so far.
    maps_v: Ghost<Seq<Seq<Option<usize>>>>,
}

/// Concatenation of row glyph sequences.
pub open spec fn flatten<G>(rows: Seq<Seq<G>>) -> Seq<G>
    decreases rows.len(),
{
    if rows.len() == 0 {
        Seq::empty()
    } else {
        flatten(rows.drop_last()) + rows.last()
    }
}


proof fn lemma_flatten_step<G>(rows: Seq<Seq<G>>, k: int)
    requires
        0 <= k < rows.len(),
    ensures
        flatten(rows.take(k + 1)) == flatten(rows.take(k)) + rows[k],
{
    assert(rows.take(k + 1).drop_last() =~= rows.take(k));
}

proof fn lemma_flatten_prefix<G>(rows: Seq<Seq<G>>, k: int)
    requires
        0 <= k <= rows.len(),
    ensures
        flatten(rows.take(k)).len() <= flatten(rows).len(),
        flatten(rows).take(flatten(rows.take(k)).len() as int) == flatten(rows.take(k)),
    decreases rows.len(),
{
    if k == rows.len() {
        assert(rows.take(k) =~= rows);
    } else {
        lemma_flatten_prefix(rows.drop_last(), k);
        assert(rows.drop_last().take(k) =~= rows.take(k));
        let f = flatten(rows.drop_last());
        assert((f + rows.last()).take(flatten(rows.take(k)).len() as int) =~= f.take(flatten(rows.take(k)).len() as int));
    }
}

/// Row `r` sits in the flat buffer right after the rows before it.
proof fn lemma_flatten_row<G>(rows: Seq<Seq<G>>, r: int)
    requires
        0 <= r < rows.len(),
    ensures
        flatten(rows.take(r)).len() + rows[r].len() <= flatten(rows).len(),
        flatten(rows).subrange(
            flatten(rows.take(r)).len() as int,
            (flatten(rows.take(r)).len() + rows[r].len()) as int,
        ) == rows[r],
{
    lemma_flatten_step(rows, r);
    lemma_flatten_prefix(rows, r + 1);
    let a = flatten(rows.take(r));
    let all = flatten(rows);
    assert(all.take((a + rows[r]).len() as int) == a + rows[r]);
    assert(all.subrange(a.len() as int, (a.len() + rows[r].len()) as int) =~= (a + rows[r]).subrange(
        a.len() as int,
        (a.len() + rows[r].len()) as int,
    ));
    assert((a + rows[r]).subrange(a.len() as int, (a.len() + rows[r].len()) as int) =~= rows[r]);
}

impl<G: Copy> ShapedFrame<G> {
    /// The glyphs of each pushed row.
    pub closed spec fn shaped_rows(&self) -> Seq<Seq<G>> {
        self.rows_v@
    }

    /// The column map of each pushed row.
    pub closed spec fn col_maps_v(&self) -> Seq<Seq<Option<usize>>> {
        self.maps_v@
    }

    /// Columns per row.
    pub closed spec fn spec_cols(&self) -> usize {
        self.cols
    }

    /// Font size in 26.6 fixed point.
    pub closed spec fn spec_size_q6(&self) -> u32 {
        self.size_q6
    }

    /// Hinting flag.
    pub closed spec fn spec_hinted(&self) -> bool {
        self.hinted
    }

    /// Flat storage agrees with the per-row view.
    pub closed spec fn wf(&self) -> bool {
        &&& self.row_spans@.len() == self.rows_v@.len()
        &&& self.maps_v@.len() == self.rows_v@.len()
        &&& self.glyphs@ == flatten(self.rows_v@)
        &&& forall|r: int|
            0 <= r < self.rows_v@.len() ==> {
                &&& (#[trigger] self.row_spans@[r]).0 == flatten(self.rows_v@.take(r)).len()
                &&& self.row_spans@[r].1 == self.row_spans@[r].0 + self.rows_v@[r].len()
            }
        &&& forall|r: int| 0 <= r < self.maps_v@.len() ==> (#[trigger] self.maps_v@[r]).len() == self.cols
        &&& self.col_maps@.len() == self.rows_v@.len() * self.cols
        &&& forall|r: int, c: int|
            0 <= r < self.rows_v@.len() && 0 <= c < self.cols ==> self.col_maps@[map_index(
                self.cols as int,
                r,
                c,
            )] == #[trigger] self.maps_v@[r][c]
    }

    /// A well-formed frame has one column map per row, each with one entry
    /// per column.
    pub proof fn lemma_row_maps(&self)
        requires
            self.wf(),
        ensures
            self.col_maps_v().len() == self.shaped_rows().len(),
            forall|r: int| 0 <= r < self.col_maps_v().len() ==> (#[trigger] self.col_maps_v()[r]).len() == self.spec_cols(),
    {
    }

    /// Create an empty frame for the given column count and font size.
    pub fn new(cols: usize, size_q6: u32) -> (f: Self)
        ensures
            f.wf(),
            f.shaped_rows().len() == 0,
            f.col_maps_v().len() == 0,
            f.spec_cols() == cols,
            f.spec_size_q6() == size_q6,
            f.spec_hinted(),
    {
        ShapedFrame {
            glyphs: Vec::new(),
            row_spans: Vec::new(),
            col_maps: Vec::new(),
            cols,
            size_q6,
            hinted: true,
            rows_v: Ghost(Seq::empty()),
            maps_v: Ghost(Seq::empty()),
        }
    }

    /// Append a shaped row's glyphs and column map.
    ///
    /// `col_map` maps the frame's columns to indices within `glyphs` and must
    /// have exactly one entry per column.
    pub fn push_row(&mut self, glyphs: &[G], col_map: &[Option<usize>])
        requires
            old(self).wf(),
            col_map@.len() == old(self).spec_cols(),
        ensures
            final(self).wf(),
            final(self).shaped_rows() == old(self).shaped_rows().push(glyphs@),
            final(self).col_maps_v() == old(self).col_maps_v().push(col_map@),
            final(self).col_maps_v().len() == final(self).shaped_rows().len(),
            forall|r: int|
                0 <= r < final(self).col_maps_v().len() ==> (#[trigger] final(self).col_maps_v()[r]).len()
                    == final(self).spec_cols(),
            final(self).spec_cols() == old(self).spec_cols(),
            final(self).spec_size_q6() == old(self).spec_size_q6(),
            final(self).spec_hinted() == old(self).spec_hinted(),
    {
        let ghost rows0 = self.rows_v@;
        let ghost maps0 = self.maps_v@;
        let ghost cm0 = self.col_maps@;
        let ghost g0 = self.glyphs@;
        let ghost spans0 = self.row_spans@;
        let start = self.glyphs.len();
        let mut i: usize = 0;
        proof {
            assert(g0 + glyphs@.take(0) =~= g0);
        }
        while i < glyphs.len()
            invariant
                i <= glyphs@.len(),
                self.glyphs@ == g0 + glyphs@.take(i as int),
                self.col_maps@ == cm0,
                self.row_spans@ == spans0,
                self.rows_v@ == rows0,
                self.maps_v@ == maps0,
                self.cols == old(self).cols,
                self.size_q6 == old(self).size_q6,
                self.hinted == old(self).hinted,
            decreases glyphs.len() - i,
        {
            self.glyphs.push(glyphs[i]);
            i = i + 1;
            proof {
                assert(self.glyphs@ =~= g0 + glyphs@.take(i as int));
            }
        }
        let end = self.glyphs.len();
        self.row_spans.push((start, end));
        let mut j: usize = 0;
        proof {
            assert(col_map@.take(0) =~= Seq::<Option<usize>>::empty());
            assert(glyphs@.take(glyphs@.len() as int) =~= glyphs@);
            assert(cm0 + col_map@.take(0) =~= cm0);
        }
        let ghost g1 = self.glyphs@;
        let ghost spans1 = self.row_spans@;
        while j < col_map.len()
            invariant
                j <= col_map@.len(),
                self.col_maps@ == cm0 + col_map@.take(j as int),
                self.glyphs@ == g1,
                self.row_spans@ == spans1,
                self.rows_v@ == rows0,
                self.maps_v@ == maps0,
                self.cols == old(self).cols,
                self.size_q6 == old(self).size_q6,
                self.hinted == old(self).hinted,
            decreases col_map.len() - j,
        {
            self.col_maps.push(col_map[j]);
            j = j + 1;
            proof {
                assert(self.col_maps@ =~= cm0 + col_map@.take(j as int));
            }
        }
        self.rows_v = Ghost(rows0.push(glyphs@));
        self.maps_v = Ghost(maps0.push(col_map@));
        proof {
            let rows1 = self.rows_v@;
            let n = rows0.len() as int;
            let cols = self.cols as int;
            assert(glyphs@.take(glyphs@.len() as int) =~= glyphs@);
            assert(col_map@.take(col_map@.len() as int) =~= col_map@);
            assert(rows1.drop_last() =~= rows0);
            assert(self.glyphs@ == flatten(rows1));
            assert forall|r: int| 0 <= r < rows1.len() implies {
                &&& (#[trigger] self.row_spans@[r]).0 == flatten(rows1.take(r)).len()
                &&& self.row_spans@[r].1 == self.row_spans@[r].0 + rows1[r].len()
            } by {
                if r < n {
                    assert(rows1.take(r) =~= rows0.take(r));
                } else {
                    assert(rows1.take(r) =~= rows0);
                }
            }
            assert forall|r: int| 0 <= r < self.maps_v@.len() implies (#[trigger] self.maps_v@[r]).len() == self.cols by {
                if r < n {
                    assert(self.maps_v@[r] == maps0[r]);
                }
            }
            assert((n + 1) * cols == n * cols + cols) by (nonlinear_arith);
            assert forall|r: int, c: int| 0 <= r < rows1.len() && 0 <= c < cols implies self.col_maps@[map_index(
                cols,
                r,
                c,
            )] == #[trigger] self.maps_v@[r][c] by {
                lemma_map_index(cols, rows1.len() as int, r, c);
                if r < n {
                    lemma_map_index(cols, n, r, c);
                    assert(self.maps_v@[r] == maps0[r]);
                } else {
                    assert(map_index(cols, r, c) == n * cols + c);
                }
            }
        }
    }

    /// Glyph slice for a given row.
    pub fn row_glyphs(&self, row: usize) -> (s: &[G])
        requires
            self.wf(),
            row < self.shaped_rows().len(),
        ensures
            s@ == self.shaped_rows()[row as int],
    {
        proof {
            lemma_flatten_row(self.rows_v@, row as int);
        }
        let (start, end) = self.row_spans[row];
        vstd::slice::slice_subrange(self.glyphs.as_slice(), start, end)
    }

    /// Column-to-glyph index for a given row and column.
    ///
    /// Returns `Some(idx)` where `idx` is relative to the row's glyph slice
    /// (i.e. index into `row_glyphs(row)`), or `None` if the column has no
    /// glyph (space, null, or ligature continuation).
    pub fn col_map(&self, row: usize, col: usize) -> (r: Option<usize>)
        requires
            self.wf(),
            row < self.shaped_rows().len(),
            col < self.spec_cols(),
        ensures
            r == self.col_maps_v()[row as int][col as int],
    {
        proof {
            lemma_map_index(self.cols as int, self.rows_v@.len() as int, row as int, col as int);
        }
        let n = self.col_maps.len();
        assert(row * self.cols + col < n);
        self.col_maps[row * self.cols + col]
    }

    /// Number of columns per row.
    pub fn cols(&self) -> (c: usize)
        ensures
            c == self.spec_cols(),
    {
        self.cols
    }

    /// Number of shaped rows.
    pub fn rows(&self) -> (n: usize)
        requires
            self.wf(),
        ensures
            n == self.shaped_rows().len(),
    {
        self.row_spans.len()
    }

    /// All glyphs across all rows (for atlas pre-caching).
    pub fn all_glyphs(&self) -> (s: &[G])
        requires
            self.wf(),
        ensures
            s@ == flatten(self.shaped_rows()),
    {
        self.glyphs.as_slice()
    }

    /// Font size in 26.6 fixed-point.
    pub fn size_q6(&self) -> (q: u32)
        ensures
            q == self.spec_size_q6(),
    {
        self.size_q6
    }

    /// Whether glyphs in this frame were rasterized with hinting.
    pub fn hinted(&self) -> (b: bool)
        ensures
            b == self.spec_hinted(),
    {
        self.hinted
    }

    /// Reset for reuse on the next frame, updating metadata.
    ///
    /// Clears all glyph and mapping data while retaining allocations.
    /// `cols` and `size_q6` are updated to match the new frame's parameters.
    pub fn clear(&mut self, cols: usize, size_q6: u32, hinted: bool)
        ensures
            final(self).wf(),
            final(self).shaped_rows().len() == 0,
            final(self).col_maps_v().len() == 0,
            final(self).spec_cols() == cols,
            final(self).spec_size_q6() == size_q6,
            final(self).spec_hinted() == hinted,
    {
        self.glyphs.clear();
        self.row_spans.clear();
        self.col_maps.clear();
        self.cols = cols;
        self.size_q6 = size_q6;
        self.hinted = hinted;
        self.rows_v = Ghost(Seq::empty());
        self.maps_v = Ghost(Seq::empty());
    }
}

/// Building a frame row by row: starting from an empty frame (as `new` and
/// `clear` leave it) and pushing rows `pushed[0]`, `pushed[1]`, … with
/// column maps `maps[0]`, `maps[1]`, …, the frame has exactly the pushed
/// rows, in order, with their column maps, and its glyphs (`all_glyphs`)
/// are the rows' glyphs (`row_glyphs`) concatenated in row order.
pub proof fn law_rows_concatenate<G: Copy>(
    states: Seq<ShapedFrame<G>>,
    pushed: Seq<Seq<G>>,
    maps: Seq<Seq<Option<usize>>>,
)
    requires
        states.len() == pushed.len() + 1,
        maps.len() == pushed.len(),
        states[0].shaped_rows().len() == 0,
        states[0].col_maps_v().len() == 0,
        forall|i: int|
            0 <= i < pushed.len() ==> {
                &&& (#[trigger] states[i + 1]).shaped_rows() == states[i].shaped_rows().push(pushed[i])
                &&& states[i + 1].col_maps_v() == states[i].col_maps_v().push(maps[i])
            },
    ensures
        states.last().shaped_rows() == pushed,
        states.last().col_maps_v() == maps,
        flatten(states.last().shaped_rows()) == flatten(pushed),
    decreases pushed.len(),
{
    let n = pushed.len() as int;
    if n == 0 {
        assert(states[0].shaped_rows() =~= pushed);
        assert(states[0].col_maps_v() =~= maps);
    } else {
        law_rows_concatenate(states.drop_last(), pushed.drop_last(), maps.drop_last());
        assert(states.drop_last().last() == states[n - 1]);
        assert(states[n].shaped_rows() == states[n - 1].shaped_rows().push(pushed[n - 1]));
        assert(pushed.drop_last().push(pushed[n - 1]) =~= pushed);
        assert(maps.drop_last().push(maps[n - 1]) =~= maps);
    }
}

} // verus!
