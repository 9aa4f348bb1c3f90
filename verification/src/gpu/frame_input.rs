//! Frame input types for the Extract phase of the render pipeline: viewport
//! size and the per-frame search snapshot used to classify cells for match
//! highlighting.

use vstd::prelude::*;

verus! {

/// Pixel dimensions of the viewport.
#[derive(Debug, Clone, Copy, PartialEq, Eq, Structural)]
pub struct ViewportSize {
    /// Width in physical pixels.
    pub width: u32,
    /// Height in physical pixels.
    pub height: u32,
}

impl ViewportSize {
    /// Create a viewport size from pixel dimensions.
    ///
    /// Dimensions are clamped to a minimum of 1 to avoid zero-size surfaces.
    pub fn new(width: u32, height: u32) -> (v: ViewportSize)
        ensures
            v.width == if width == 0 { 1 } else { width },
            v.height == if height == 0 { 1 } else { height },
    {
        ViewportSize { width: if width == 0 { 1 } else { width }, height: if height == 0 { 1 } else { height } }
    }
}

/// A search match span in stable row coordinates, both ends inclusive.
#[derive(Debug, Clone, Copy, PartialEq, Eq, Structural)]
pub struct SearchMatch {
    pub start_row: u64,
    pub start_col: usize,
    pub end_row: u64,
    pub end_col: usize,
}

/// How a cell is highlighted for search.
#[derive(Debug, Clone, Copy, PartialEq, Eq, Structural)]
pub enum MatchType {
    /// Not inside any match.
    NoMatch,
    /// Inside a match that is not focused.
    Match,
    /// Inside the focused match.
    FocusedMatch,
}

/// Whether position `(r1, c1)` comes no later than `(r2, c2)` in reading order.
pub open spec fn pos_le(r1: u64, c1: usize, r2: u64, c2: usize) -> bool {
    r1 < r2 || (r1 == r2 && c1 <= c2)
}

/// Whether `(row, col)` falls within the match span.
pub open spec fn spec_cell_in_match(m: SearchMatch, row: u64, col: usize) -> bool {
    if row < m.start_row || row > m.end_row {
        false
    } else if m.start_row == m.end_row {
        m.start_col <= col <= m.end_col
    } else if row == m.start_row {
        col >= m.start_col
    } else if row == m.end_row {
        col <= m.end_col
    } else {
        true
    }
}

/// Check if `(stable_row, col)` falls within a search match span.
pub fn cell_in_search_match(m: &SearchMatch, stable_row: u64, col: usize) -> (b: bool)
    ensures
        b == spec_cell_in_match(*m, stable_row, col),
{
    if stable_row < m.start_row || stable_row > m.end_row {
        return false;
    }
    if m.start_row == m.end_row {
        return col >= m.start_col && col <= m.end_col;
    }
    if stable_row == m.start_row {
        col >= m.start_col
    } else if stable_row == m.end_row {
        col <= m.end_col
    } else {
        true
    }
}

/// Matches are ordered by start position.
pub open spec fn sorted_by_start(ms: Seq<SearchMatch>) -> bool {
    forall|i: int, j: int|
        0 <= i < j < ms.len() ==> pos_le(#[trigger] ms[i].start_row, ms[i].start_col, #[trigger] ms[j].start_row, ms[j].start_col)
}

/// Number of leading matches that start no later than `(row, col)`.
pub open spec fn spec_partition(ms: Seq<SearchMatch>, row: u64, col: usize) -> int
    decreases ms.len(),
{
    if ms.len() == 0 {
        0
    } else if pos_le(ms[0].start_row, ms[0].start_col, row, col) {
        1 + spec_partition(ms.drop_first(), row, col)
    } else {
        0
    }
}

/// First index in `[lo, hi)` whose match contains the cell.
pub open spec fn first_containing(ms: Seq<SearchMatch>, lo: int, hi: int, row: u64, col: usize) -> Option<int>
    decreases hi - lo,
{
    if lo >= hi {
        None
    } else if spec_cell_in_match(ms[lo], row, col) {
        Some(lo)
    } else {
        first_containing(ms, lo + 1, hi, row, col)
    }
}

/// Classification of the cell at stable `(row, col)`: the window around the
/// partition point (the last match starting at or before the cell and the
/// one after it) is searched for a containing match.
pub open spec fn spec_match_type(ms: Seq<SearchMatch>, focused: usize, row: u64, col: usize) -> MatchType {
    let p = spec_partition(ms, row, col);
    let lo = if p > 0 { p - 1 } else { 0 };
    let hi = if p + 1 < ms.len() { p + 1 } else { ms.len() as int };
    match first_containing(ms, lo, hi, row, col) {
        None => MatchType::NoMatch,
        Some(i) => if i == focused {
            MatchType::FocusedMatch
        } else {
            MatchType::Match
        },
    }
}

proof fn lemma_partition_point(ms: Seq<SearchMatch>, row: u64, col: usize, p: int)
    requires
        0 <= p <= ms.len(),
        forall|i: int| 0 <= i < p ==> pos_le(#[trigger] ms[i].start_row, ms[i].start_col, row, col),
        p < ms.len() ==> !pos_le(ms[p].start_row, ms[p].start_col, row, col),
    ensures
        spec_partition(ms, row, col) == p,
    decreases ms.len(),
{
    if ms.len() > 0 && p > 0 {
        assert forall|i: int| 0 <= i < p - 1 implies pos_le(
            #[trigger] ms.drop_first()[i].start_row,
            ms.drop_first()[i].start_col,
            row,
            col,
        ) by {
            assert(ms.drop_first()[i] == ms[i + 1]);
        }
        lemma_partition_point(ms.drop_first(), row, col, p - 1);
    }
}

/// Position `(r1, c1)` comes strictly before `(r2, c2)`.
pub open spec fn pos_lt(r1: u64, c1: usize, r2: u64, c2: usize) -> bool {
    r1 < r2 || (r1 == r2 && c1 < c2)
}

/// Matches that start no later than they end and that do not overlap: each
/// match ends strictly before every later match starts.
pub open spec fn disjoint_matches(ms: Seq<SearchMatch>) -> bool {
    &&& forall|i: int| 0 <= i < ms.len() ==> pos_le(#[trigger] ms[i].start_row, ms[i].start_col, ms[i].end_row, ms[i].end_col)
    &&& forall|i: int, j: int|
        0 <= i < j < ms.len() ==> pos_lt(#[trigger] ms[i].end_row, ms[i].end_col, #[trigger] ms[j].start_row, ms[j].start_col)
}

proof fn lemma_partition_bounds(ms: Seq<SearchMatch>, row: u64, col: usize)
    ensures
        0 <= spec_partition(ms, row, col) <= ms.len(),
        forall|i: int|
            0 <= i < spec_partition(ms, row, col) ==> pos_le(#[trigger] ms[i].start_row, ms[i].start_col, row, col),
        spec_partition(ms, row, col) < ms.len() ==> !pos_le(
            ms[spec_partition(ms, row, col)].start_row,
            ms[spec_partition(ms, row, col)].start_col,
            row,
            col,
        ),
    decreases ms.len(),
{
    if ms.len() > 0 {
        lemma_partition_bounds(ms.drop_first(), row, col);
        let p = spec_partition(ms, row, col);
        if pos_le(ms[0].start_row, ms[0].start_col, row, col) {
            assert forall|i: int| 0 <= i < p implies pos_le(#[trigger] ms[i].start_row, ms[i].start_col, row, col) by {
                if i > 0 {
                    assert(ms[i] == ms.drop_first()[i - 1]);
                }
            }
            if p < ms.len() {
                assert(ms[p] == ms.drop_first()[p - 1]);
            }
        }
    }
}

proof fn lemma_first_containing(ms: Seq<SearchMatch>, lo: int, hi: int, row: u64, col: usize, k: int)
    requires
        0 <= lo <= k < hi <= ms.len(),
        spec_cell_in_match(ms[k], row, col),
        forall|i: int| lo <= i < hi && i != k ==> !spec_cell_in_match(#[trigger] ms[i], row, col),
    ensures
        first_containing(ms, lo, hi, row, col) == Some(k),
    decreases hi - lo,
{
    if lo < k {
        lemma_first_containing(ms, lo + 1, hi, row, col, k);
    }
}

proof fn lemma_first_containing_none(ms: Seq<SearchMatch>, lo: int, hi: int, row: u64, col: usize)
    requires
        0 <= lo,
        hi <= ms.len(),
        forall|i: int| lo <= i < hi ==> !spec_cell_in_match(#[trigger] ms[i], row, col),
    ensures
        first_containing(ms, lo, hi, row, col) is None,
    decreases hi - lo,
{
    if lo < hi {
        lemma_first_containing_none(ms, lo + 1, hi, row, col);
    }
}

/// The highlight of a cell by the match covering it, if any: focused when
/// the focused match covers it, a plain match when another match does, none
/// otherwise.
pub open spec fn spec_covering_type(ms: Seq<SearchMatch>, focused: usize, row: u64, col: usize) -> MatchType {
    if exists|i: int| 0 <= i < ms.len() && spec_cell_in_match(#[trigger] ms[i], row, col) {
        if focused < ms.len() && spec_cell_in_match(ms[focused as int], row, col) {
            MatchType::FocusedMatch
        } else {
            MatchType::Match
        }
    } else {
        MatchType::NoMatch
    }
}

/// With ordered, non-overlapping matches, the windowed lookup finds the
/// match containing a cell whenever there is one: a cell is highlighted
/// exactly when some match contains it, and as focused exactly when the
/// focused match contains it.
pub proof fn law_match_type_complete(ms: Seq<SearchMatch>, focused: usize, row: u64, col: usize)
    requires
        sorted_by_start(ms),
        disjoint_matches(ms),
    ensures
        spec_match_type(ms, focused, row, col) == spec_covering_type(ms, focused, row, col),
{
    lemma_partition_bounds(ms, row, col);
    let p = spec_partition(ms, row, col);
    let lo = if p > 0 { p - 1 } else { 0 };
    let hi = if p + 1 < ms.len() { p + 1 } else { ms.len() as int };
    // a containing match starts at or before the cell and ends at or after it
    assert forall|i: int| 0 <= i < ms.len() && spec_cell_in_match(#[trigger] ms[i], row, col) implies i == p - 1 by {
        if i >= p {
            if i > p {
                assert(pos_le(ms[p].start_row, ms[p].start_col, ms[i].start_row, ms[i].start_col));
            }
        } else if i < p - 1 {
            assert(pos_le(ms[p - 1].start_row, ms[p - 1].start_col, row, col));
            assert(pos_lt(ms[i].end_row, ms[i].end_col, ms[p - 1].start_row, ms[p - 1].start_col));
        }
    }
    if exists|i: int| 0 <= i < ms.len() && spec_cell_in_match(#[trigger] ms[i], row, col) {
        let k = choose|i: int| 0 <= i < ms.len() && spec_cell_in_match(#[trigger] ms[i], row, col);
        assert(k == p - 1);
        lemma_first_containing(ms, lo, hi, row, col, k);
        if focused < ms.len() && spec_cell_in_match(ms[focused as int], row, col) {
            assert(focused == k);
        }
    } else {
        lemma_first_containing_none(ms, lo, hi, row, col);
    }
}

/// Search rendering snapshot for one frame.
///
/// Contains the match data and viewport mapping needed to classify cells
/// for search highlighting.
#[derive(Debug)]
pub struct FrameSearch {
    /// Matches, ordered by start position.
    matches: Vec<SearchMatch>,
    /// Index of the focused match.
    focused: usize,
    /// Stable row index of viewport line 0.
    base_stable: u64,
    /// Total match count (for search bar "N of M" display).
    match_count: usize,
    /// Query string (for search bar display).
    query: String,
}

impl FrameSearch {
    /// The matches, in order.
    pub closed spec fn spec_matches(&self) -> Seq<SearchMatch> {
        self.matches@
    }

    /// Index of the focused match.
    pub closed spec fn spec_focused(&self) -> usize {
        self.focused
    }

    /// Stable row of viewport line 0.
    pub closed spec fn spec_base(&self) -> u64 {
        self.base_stable
    }

    /// The query text.
    pub closed spec fn spec_query(&self) -> Seq<char> {
        self.query@
    }

    /// Snapshot invariant: matches are ordered by start and counted.
    pub closed spec fn wf(&self) -> bool {
        &&& sorted_by_start(self.matches@)
        &&& self.match_count == self.matches@.len()
    }

    /// Build a snapshot from the search state's matches (ordered by start
    /// position), focused match index, query, and the viewport's stable row base.
    pub fn new(matches: Vec<SearchMatch>, focused: usize, stable_row_base: u64, query: String) -> (s: FrameSearch)
        requires
            sorted_by_start(matches@),
        ensures
            s.wf(),
            s.spec_matches() == matches@,
            s.spec_focused() == focused,
            s.spec_base() == stable_row_base,
            s.spec_query() == query@,
    {
        let n = matches.len();
        FrameSearch { matches, focused, base_stable: stable_row_base, match_count: n, query }
    }

    /// Build a test search snapshot from manually constructed matches, with
    /// the query `"test"`.
    pub fn for_test(matches: Vec<SearchMatch>, focused: usize, stable_row_base: u64) -> (s: FrameSearch)
        requires
            sorted_by_start(matches@),
        ensures
            s.wf(),
            s.spec_matches() == matches@,
            s.spec_focused() == focused,
            s.spec_base() == stable_row_base,
            s.spec_query() == "test"@,
    {
        FrameSearch::new(matches, focused, stable_row_base, crate::text::string_from_str("test"))
    }

    /// Classify a visible cell for search match highlighting.
    pub fn cell_match_type(&self, viewport_line: usize, col: usize) -> (t: MatchType)
        requires
            self.wf(),
            self.spec_base() + viewport_line <= u64::MAX,
        ensures
            t == spec_match_type(self.spec_matches(), self.spec_focused(), (self.spec_base() + viewport_line) as u64, col),
            disjoint_matches(self.spec_matches()) ==> t == spec_covering_type(
                self.spec_matches(),
                self.spec_focused(),
                (self.spec_base() + viewport_line) as u64,
                col,
            ),
    {
        proof {
            if disjoint_matches(self.spec_matches()) {
                law_match_type_complete(
                    self.spec_matches(),
                    self.spec_focused(),
                    (self.spec_base() + viewport_line) as u64,
                    col,
                );
            }
        }
        let ghost ms = self.matches@;
        let n = self.matches.len();
        let stable: u64 = self.base_stable + viewport_line as u64;
        if n == 0 {
            return MatchType::NoMatch;
        }
        // Binary search: find the first match whose start is beyond (row, col).
        let mut lo: usize = 0;
        let mut hi: usize = n;
        while lo < hi
            invariant
                ms == self.matches@,
                n == ms.len(),
                sorted_by_start(ms),
                lo <= hi <= n,
                forall|i: int| 0 <= i < lo ==> pos_le(#[trigger] ms[i].start_row, ms[i].start_col, stable, col),
                forall|i: int| hi <= i < n ==> !pos_le(#[trigger] ms[i].start_row, ms[i].start_col, stable, col),
            decreases hi - lo,
        {
            let mid = lo + (hi - lo) / 2;
            let m = self.matches[mid];
            if m.start_row < stable || (m.start_row == stable && m.start_col <= col) {
                proof {
                    assert forall|i: int| 0 <= i <= mid implies pos_le(#[trigger] ms[i].start_row, ms[i].start_col, stable, col) by {
                        if i < mid {
                            assert(pos_le(ms[i].start_row, ms[i].start_col, ms[mid as int].start_row, ms[mid as int].start_col));
                        }
                    }
                }
                lo = mid + 1;
            } else {
                proof {
                    assert forall|i: int| mid <= i < n implies !pos_le(#[trigger] ms[i].start_row, ms[i].start_col, stable, col) by {
                        if i > mid {
                            assert(pos_le(ms[mid as int].start_row, ms[mid as int].start_col, ms[i].start_row, ms[i].start_col));
                        }
                    }
                }
                hi = mid;
            }
        }
        let idx = lo;
        proof {
            lemma_partition_point(ms, stable, col, idx as int);
        }
        let start = if idx > 0 { idx - 1 } else { 0 };
        let end = if idx < n - 1 { idx + 1 } else { n };
        let mut i = start;
        while i < end
            invariant
                ms == self.matches@,
                n == ms.len(),
                start <= i <= end <= n,
                spec_partition(ms, stable, col) == idx,
                start == (if idx > 0 { idx - 1 } else { 0 }),
                end == (if idx + 1 < n { idx + 1 } else { n as int }),
                stable == self.spec_base() + viewport_line,
                first_containing(ms, start as int, end as int, stable, col) == first_containing(
                    ms,
                    i as int,
                    end as int,
                    stable,
                    col,
                ),
            decreases end - i,
        {
            if cell_in_search_match(&self.matches[i], stable, col) {
                proof {
                    assert(first_containing(ms, i as int, end as int, stable, col) == Some(i as int));
                }
                return if i == self.focused {
                    MatchType::FocusedMatch
                } else {
                    MatchType::Match
                };
            }
            i = i + 1;
        }
        proof {
            assert(first_containing(ms, i as int, end as int, stable, col) is None);
        }
        MatchType::NoMatch
    }

    /// Total number of matches.
    pub fn match_count(&self) -> (n: usize)
        requires
            self.wf(),
        ensures
            n == self.spec_matches().len(),
    {
        self.match_count
    }

    /// 1-based focused match index (for "N of M" display), 0 without matches.
    pub fn focused_display(&self) -> (d: usize)
        requires
            self.wf(),
            self.spec_matches().len() > 0 ==> self.spec_focused() < usize::MAX,
        ensures
            d == if self.spec_matches().len() == 0 { 0 } else { self.spec_focused() + 1 },
    {
        if self.match_count == 0 {
            0
        } else {
            self.focused + 1
        }
    }

    /// The current query string.
    pub fn query(&self) -> (q: &str)
        ensures
            q@ == self.spec_query(),
    {
        self.query.as_str()
    }
}

} // verus!
