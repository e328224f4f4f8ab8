//! The part of a grid that a direct map is drawn from. On a grid that goes round
//! the globe it may reach over the end of the rows.
use crate::gridded::bounds;
use crate::gridded::bounds::marked_box;
use crate::gridded::crop;
use crate::gridded::crop::{append_range, crop_2d_values, GridCrop};
use crate::numbers;
use crate::numbers::{parse_positive, parse_usize};
use crate::derived::presentation;
use vstd::prelude::*;
use vstd::string::*;

verus! {

/// A part of a grid: a rectangle, or the columns from `x_start` to the end of the
/// rows and on from their beginning to `x_end`.
#[derive(Debug, Clone, Copy, PartialEq, Eq, Structural)]
pub enum DirectGridCrop {
    Contiguous(GridCrop),
    Wrapped { x_start: usize, x_end: usize, y_start: usize, y_end: usize },
}

/// A column of a grid that goes round: columns behind the last are counted from
/// the first again.
pub open spec fn wrapped(x: int, nx: int) -> int {
    if x >= nx {
        x - nx
    } else {
        x
    }
}

impl DirectGridCrop {
    /// Whether the part holds a column.
    pub open spec fn holds_column(self, x: int) -> bool {
        match self {
            DirectGridCrop::Contiguous(crop) => crop.x_start <= x < crop.x_end,
            DirectGridCrop::Wrapped { x_start, x_end, .. } => x_start <= x || x < x_end,
        }
    }

    /// The number of columns.
    pub open spec fn spec_width(self, nx: int) -> int {
        match self {
            DirectGridCrop::Contiguous(crop) => crop.spec_width(),
            DirectGridCrop::Wrapped { x_start, x_end, .. } => nx - x_start + x_end,
        }
    }

    /// The number of rows.
    pub open spec fn spec_height(self) -> int {
        match self {
            DirectGridCrop::Contiguous(crop) => crop.spec_height(),
            DirectGridCrop::Wrapped { y_start, y_end, .. } => y_end - y_start,
        }
    }

    /// Whether the part lies on a grid of `nx` columns and `ny` rows, and has no
    /// column twice.
    pub open spec fn within(self, nx: int, ny: int) -> bool {
        match self {
            DirectGridCrop::Contiguous(crop) => crop.within(nx, ny),
            DirectGridCrop::Wrapped { x_start, x_end, y_start, y_end } => {
                &&& x_end <= x_start <= nx
                &&& y_start <= y_end <= ny
            },
        }
    }

    /// Whether the part is the whole grid.
    pub open spec fn whole(self, nx: int, ny: int) -> bool {
        match self {
            DirectGridCrop::Contiguous(crop) => bounds::covers_grid(crop, nx, ny),
            DirectGridCrop::Wrapped { .. } => false,
        }
    }

    /// The number of columns.
    pub fn width(self, source_nx: usize) -> (width: usize)
        requires
            exists|ny: int| self.within(source_nx as int, ny),
        ensures
            width == self.spec_width(source_nx as int),
    {
        match self {
            DirectGridCrop::Contiguous(crop) => crop.width(),
            DirectGridCrop::Wrapped { x_start, x_end, .. } => source_nx - x_start + x_end,
        }
    }

    /// The number of rows.
    pub fn height(self) -> (height: usize)
        requires
            exists|nx: int, ny: int| self.within(nx, ny),
        ensures
            height == self.spec_height(),
    {
        match self {
            DirectGridCrop::Contiguous(crop) => crop.height(),
            DirectGridCrop::Wrapped { y_start, y_end, .. } => y_end - y_start,
        }
    }

    /// Whether the part is the whole grid.
    pub fn is_full(self, source_nx: usize, source_ny: usize) -> (full: bool)
        ensures
            full == self.whole(source_nx as int, source_ny as int),
    {
        match self {
            DirectGridCrop::Contiguous(crop) => crop.x_start == 0 && crop.x_end == source_nx
                && crop.y_start == 0 && crop.y_end == source_ny,
            DirectGridCrop::Wrapped { .. } => false,
        }
    }
}

/// Whether the columns behind a hit, going round, are no hits, and the one after
/// them is.
pub open spec fn is_gap(hits: Seq<bool>, column: int, gap: int) -> bool {
    let nx = hits.len() as int;
    &&& 0 <= gap < nx
    &&& forall|k: int| 1 <= k <= gap ==> !hits[#[trigger] wrapped(column + k, nx)]
    &&& hits[wrapped(column + gap + 1, nx)]
}

/// Whether a gap is the widest, and the first of those that are as wide.
pub open spec fn widest_gap(hits: Seq<bool>, column: int, gap: int) -> bool {
    &&& 0 <= column < hits.len()
    &&& hits[column]
    &&& is_gap(hits, column, gap)
    &&& forall|c: int, g: int|
        0 <= c < hits.len() && hits[c] && #[trigger] is_gap(hits, c, g) ==> g < gap || (g == gap
            && column <= c)
}

/// All columns of some rows.
pub open spec fn full_rows(nx: int, y_start: usize, y_end: usize) -> DirectGridCrop {
    DirectGridCrop::Contiguous(GridCrop { x_start: 0, x_end: nx as usize, y_start, y_end })
}

/// The columns round a gap: from `pad` columns before its end to `pad` columns
/// behind its beginning.
pub open spec fn round_gap(
    nx: int,
    column: int,
    gap: int,
    pad: int,
    y_start: usize,
    y_end: usize,
) -> DirectGridCrop {
    let x_start = wrapped(wrapped(column + gap + 1, nx) + nx - pad, nx);
    let last = wrapped(column + pad, nx);
    if x_start <= last {
        DirectGridCrop::Contiguous(
            GridCrop { x_start: x_start as usize, x_end: (last + 1) as usize, y_start, y_end },
        )
    } else {
        DirectGridCrop::Wrapped {
            x_start: x_start as usize,
            x_end: (last + 1) as usize,
            y_start,
            y_end,
        }
    }
}

/// Whether a part is the one that hits on a grid that goes round call for: all
/// columns if each is hit or if the padding closes the widest gap, and else the
/// columns round that gap.
pub open spec fn is_circular_crop(
    hits: Seq<bool>,
    pad: int,
    y_start: usize,
    y_end: usize,
    crop: DirectGridCrop,
) -> bool {
    let nx = hits.len() as int;
    if forall|x: int| 0 <= x < nx ==> #[trigger] hits[x] {
        crop == full_rows(nx, y_start, y_end)
    } else {
        exists|column: int, gap: int|
            #[trigger] widest_gap(hits, column, gap) && crop == (if gap <= 2 * pad {
                full_rows(nx, y_start, y_end)
            } else {
                round_gap(nx, column, gap, pad, y_start, y_end)
            })
    }
}

proof fn lemma_gap_is_unique(hits: Seq<bool>, column: int, a: int, b: int)
    requires
        is_gap(hits, column, a),
        is_gap(hits, column, b),
    ensures
        a == b,
{
    let nx = hits.len() as int;
    if a < b {
        assert(!hits[wrapped(column + (a + 1), nx)]);
    }
    if b < a {
        assert(!hits[wrapped(column + (b + 1), nx)]);
    }
}

proof fn lemma_no_gap_hits_all(hits: Seq<bool>, column: int, k: int)
    requires
        0 <= column < hits.len(),
        hits[column],
        forall|c: int|
            0 <= c < hits.len() && hits[c] ==> hits[#[trigger] wrapped(c + 1, hits.len() as int)],
        0 <= k < hits.len(),
    ensures
        hits[wrapped(column + k, hits.len() as int)],
    decreases k,
{
    if k > 0 {
        lemma_no_gap_hits_all(hits, column, k - 1);
        let nx = hits.len() as int;
        let c = wrapped(column + k - 1, nx);
        assert(hits[wrapped(c + 1, nx)]);
        assert(wrapped(c + 1, nx) == wrapped(column + k, nx));
    }
}

/// The columns of the hits, in order.
fn hit_list(hits: &[bool]) -> (list: Vec<usize>)
    ensures
        forall|i: int| 0 <= i < list@.len() ==> (#[trigger] list@[i]) < hits@.len() && hits@[list@[i] as int],
        forall|i: int, j: int|
            #![trigger list@[i], list@[j]]
            0 <= i < j < list@.len() ==> list@[i] < list@[j],
        forall|x: int| 0 <= x < hits@.len() && #[trigger] hits@[x] ==> list@.contains(x as usize),
{
    let mut list: Vec<usize> = Vec::new();
    let mut x: usize = 0;
    while x < hits.len()
        invariant
            x <= hits@.len(),
            forall|i: int|
                0 <= i < list@.len() ==> (#[trigger] list@[i]) < x && hits@[list@[i] as int],
            forall|i: int, j: int|
                #![trigger list@[i], list@[j]]
                0 <= i < j < list@.len() ==> list@[i] < list@[j],
            forall|k: int| 0 <= k < x && #[trigger] hits@[k] ==> list@.contains(k as usize),
        decreases hits@.len() - x,
    {
        let ghost before = list@;
        if hits[x] {
            list.push(x);
            proof {
                assert forall|k: int| 0 <= k < x + 1 && #[trigger] hits@[k] implies list@.contains(
                    k as usize,
                ) by {
                    if k < x {
                        let i = choose|i: int| 0 <= i < before.len() && before[i] == k as usize;
                        assert(list@[i] == k as usize);
                    } else {
                        assert(list@[list@.len() - 1] == k as usize);
                    }
                }
            }
        }
        x = x + 1;
    }
    list
}

/// The hit that follows one, going round.
spec fn next_hit(list: Seq<usize>, i: int) -> int {
    if i + 1 < list.len() {
        list[i + 1] as int
    } else {
        list[0] as int
    }
}

/// How many columns lie between a hit and the one that follows.
spec fn gap_behind(list: Seq<usize>, nx: int, i: int) -> int {
    let next = next_hit(list, i);
    if next > list[i] {
        next - list[i] - 1
    } else {
        next + nx - list[i] - 1
    }
}

proof fn lemma_list_gap(hits: Seq<bool>, list: Seq<usize>, i: int)
    requires
        0 <= i < list.len(),
        hits.len() <= usize::MAX,
        forall|k: int| 0 <= k < list.len() ==> (#[trigger] list[k]) < hits.len() && hits[list[k] as int],
        forall|a: int, b: int|
            #![trigger list[a], list[b]]
            0 <= a < b < list.len() ==> list[a] < list[b],
        forall|x: int| 0 <= x < hits.len() && #[trigger] hits[x] ==> list.contains(x as usize),
    ensures
        is_gap(hits, list[i] as int, gap_behind(list, hits.len() as int, i)),
        wrapped(list[i] as int + gap_behind(list, hits.len() as int, i) + 1, hits.len() as int)
            == next_hit(list, i),
{
    let nx = hits.len() as int;
    let current = list[i] as int;
    let next = next_hit(list, i);
    let gap = gap_behind(list, nx, i);
    if i + 1 < list.len() {
        assert(list[i] < list[i + 1]);
        assert(list[i + 1] < nx);
    } else {
        assert(list[0] < nx);
        if i > 0 {
            assert(list[0] < list[i]);
        }
    }
    assert(0 <= gap < nx);
    assert forall|k: int| 1 <= k <= gap implies !hits[#[trigger] wrapped(current + k, nx)] by {
        let x = wrapped(current + k, nx);
        assert(0 <= x < nx);
        if hits[x] {
            assert(list.contains(x as usize));
            let j = choose|j: int| 0 <= j < list.len() && list[j] == x as usize;
            if i + 1 < list.len() {
                if j < i {
                    assert(list[j] < list[i]);
                } else if j > i + 1 {
                    assert(list[i + 1] < list[j]);
                }
            } else {
                if j < i {
                    assert(list[j] < list[i]);
                }
                if j > 0 {
                    assert(list[0] < list[j]);
                }
            }
            assert(false);
        }
    }
}

/// The part of a grid that goes round which holds every hit column, with `pad`
/// more columns on either side. There is none without a hit.
pub fn circular_crop_for_hit_columns(
    hit_columns: &[bool],
    y_start: usize,
    y_end: usize,
    pad_cells: usize,
) -> (crop: Option<DirectGridCrop>)
    ensures
        match crop {
            Some(crop) => hit_columns@.contains(true) && is_circular_crop(
                hit_columns@,
                pad_cells as int,
                y_start,
                y_end,
                crop,
            ),
            None => !hit_columns@.contains(true),
        },
{
    let nx: usize = hit_columns.len();
    let ghost hits = hit_columns@;
    let list = hit_list(hit_columns);
    if list.len() == 0 {
        proof {
            if hits.contains(true) {
                let x = choose|x: int| 0 <= x < hits.len() && hits[x] == true;
                assert(hits[x]);
                assert(list@.contains(x as usize));
            }
        }
        return None;
    }
    proof {
        assert(list@[0] < nx);
        assert(hits[list@[0] as int]);
    }
    let whole = DirectGridCrop::Contiguous(GridCrop { x_start: 0, x_end: nx, y_start, y_end });
    let mut largest: usize = 0;
    let mut before_hit: usize = list[0];
    let mut after_hit: usize = list[list.len() - 1];
    let mut i: usize = 0;
    let ghost mut at: int = 0;
    while i < list.len()
        invariant
            i <= list@.len(),
            nx == hits.len(),
            hits == hit_columns@,
            forall|k: int|
                0 <= k < list@.len() ==> (#[trigger] list@[k]) < hits.len()
                    && hits[list@[k] as int],
            forall|a: int, b: int|
                #![trigger list@[a], list@[b]]
                0 <= a < b < list@.len() ==> list@[a] < list@[b],
            forall|x: int| 0 <= x < hits.len() && #[trigger] hits[x] ==> list@.contains(x as usize),
            forall|k: int| 0 <= k < i ==> #[trigger] gap_behind(list@, nx as int, k) <= largest,
            before_hit < nx,
            after_hit < nx,
            largest > 0 ==> {
                &&& 0 <= at < i
                &&& gap_behind(list@, nx as int, at) == largest
                &&& after_hit == list@[at]
                &&& before_hit == next_hit(list@, at)
                &&& forall|k: int|
                    0 <= k < at ==> #[trigger] gap_behind(list@, nx as int, k) < largest
            },
        decreases list@.len() - i,
    {
        let current: usize = list[i];
        let next: usize = if i + 1 < list.len() {
            list[i + 1]
        } else {
            list[0]
        };
        proof {
            lemma_list_gap(hits, list@, i as int);
            assert(list@[i as int] < nx);
        }
        let gap: usize = if next > current {
            next - current - 1
        } else {
            next + (nx - current - 1)
        };
        if gap > largest {
            largest = gap;
            after_hit = current;
            before_hit = next;
            proof {
                at = i as int;
            }
        }
        i = i + 1;
    }
    proof {
        if largest == 0 {
            assert forall|c: int| 0 <= c < nx && hits[c] implies hits[#[trigger] wrapped(
                c + 1,
                nx as int,
            )] by {
                assert(list@.contains(c as usize));
                let j = choose|j: int| 0 <= j < list@.len() && list@[j] == c as usize;
                lemma_list_gap(hits, list@, j);
                assert(gap_behind(list@, nx as int, j) <= largest);
            }
            assert forall|x: int| 0 <= x < nx implies #[trigger] hits[x] by {
                let c = list@[0] as int;
                let k = if x >= c {
                    x - c
                } else {
                    x - c + nx
                };
                lemma_no_gap_hits_all(hits, c, k);
            }
        } else {
            lemma_list_gap(hits, list@, at);
            assert(!hits[wrapped(after_hit + 1, nx as int)]);
            assert(0 <= wrapped(after_hit + 1, nx as int) < nx);
            assert forall|c: int, g: int|
                0 <= c < hits.len() && hits[c] && #[trigger] is_gap(hits, c, g) implies g < largest
                || (g == largest && after_hit <= c) by {
                assert(list@.contains(c as usize));
                let j = choose|j: int| 0 <= j < list@.len() && list@[j] == c as usize;
                lemma_list_gap(hits, list@, j);
                lemma_gap_is_unique(hits, c, g, gap_behind(list@, nx as int, j));
                assert(gap_behind(list@, nx as int, j) <= largest);
                if j < at {
                    assert(gap_behind(list@, nx as int, j) < largest);
                } else if j > at {
                    assert(list@[at] < list@[j]);
                }
            }
            assert(widest_gap(hits, after_hit as int, largest as int));
        }
    }
    if largest == 0 {
        return Some(whole);
    }
    if pad_cells >= largest || largest - pad_cells <= pad_cells {
        return Some(whole);
    }
    let x_start: usize = if before_hit >= pad_cells {
        before_hit - pad_cells
    } else {
        before_hit + (nx - pad_cells)
    };
    let last: usize = if after_hit >= nx - pad_cells {
        after_hit - (nx - pad_cells)
    } else {
        after_hit + pad_cells
    };
    if x_start <= last {
        Some(DirectGridCrop::Contiguous(GridCrop { x_start, x_end: last + 1, y_start, y_end }))
    } else {
        Some(DirectGridCrop::Wrapped { x_start, x_end: last + 1, y_start, y_end })
    }
}

/// The part of a grid that goes round holds every hit column, and lies on the
/// grid without a column twice.
pub proof fn law_circular_crop_holds_every_hit(
    hits: Seq<bool>,
    pad: int,
    y_start: usize,
    y_end: usize,
    crop: DirectGridCrop,
    x: int,
)
    requires
        hits.len() <= usize::MAX,
        0 <= pad,
        is_circular_crop(hits, pad, y_start, y_end, crop),
        0 <= x < hits.len(),
        hits[x],
    ensures
        crop.holds_column(x),
        y_start <= y_end ==> crop.within(hits.len() as int, y_end as int),
{
    let nx = hits.len() as int;
    if !(forall|k: int| 0 <= k < nx ==> #[trigger] hits[k]) {
        let (column, gap) = choose|column: int, gap: int|
            #[trigger] widest_gap(hits, column, gap) && crop == (if gap <= 2 * pad {
                full_rows(nx, y_start, y_end)
            } else {
                round_gap(nx, column, gap, pad, y_start, y_end)
            });
        if gap > 2 * pad {
            let k = if x > column {
                x - column
            } else {
                x - column + nx
            };
            assert(wrapped(column + k, nx) == x);
            assert(k > gap);
        }
    }
}

/// The cells of some columns that reach over the end of the rows, row after row.
pub open spec fn wrapped_rows<T>(
    values: Seq<T>,
    nx: int,
    x_start: int,
    x_end: int,
    y_start: int,
    y_end: int,
) -> Seq<T>
    decreases y_end - y_start,
{
    if y_end <= y_start {
        Seq::empty()
    } else {
        let row = (y_end - 1) * nx;
        wrapped_rows(values, nx, x_start, x_end, y_start, y_end - 1) + values.subrange(
            row + x_start,
            row + nx,
        ) + values.subrange(row, row + x_end)
    }
}

/// The cells of a part of a field in rows of `nx`.
pub open spec fn direct_cropped<T>(values: Seq<T>, nx: int, crop: DirectGridCrop) -> Seq<T> {
    match crop {
        DirectGridCrop::Contiguous(crop) => crop::cropped(values, nx, crop),
        DirectGridCrop::Wrapped { x_start, x_end, y_start, y_end } => wrapped_rows(
            values,
            nx,
            x_start as int,
            x_end as int,
            y_start as int,
            y_end as int,
        ),
    }
}

/// Cuts a part out of a field in rows of `source_nx`.
pub fn crop_values_for_direct<T: Copy>(
    values: &[T],
    source_nx: usize,
    source_ny: usize,
    crop: DirectGridCrop,
) -> (out: Vec<T>)
    requires
        crop.within(source_nx as int, source_ny as int),
        source_nx * source_ny <= values@.len(),
    ensures
        out@ == direct_cropped(values@, source_nx as int, crop),
{
    let len: usize = values.len();
    match crop {
        DirectGridCrop::Contiguous(crop) => {
            proof {
                lemma_part_fits(source_nx as int, source_ny as int, crop, len as int);
            }
            crop_2d_values(values, source_nx, crop)
        },
        DirectGridCrop::Wrapped { x_start, x_end, y_start, y_end } => {
            let mut out: Vec<T> = Vec::new();
            let mut y: usize = y_start;
            while y < y_end
                invariant
                    y_start <= y <= y_end,
                    y_end <= source_ny,
                    x_end <= x_start <= source_nx,
                    len == values@.len(),
                    source_nx * source_ny <= len,
                    out@ =~= wrapped_rows(
                        values@,
                        source_nx as int,
                        x_start as int,
                        x_end as int,
                        y_start as int,
                        y as int,
                    ),
                decreases y_end - y,
            {
                proof {
                    assert(y * source_nx + source_nx <= source_nx * source_ny) by (nonlinear_arith)
                        requires
                            y < source_ny,
                    ;
                    assert(0 <= y * source_nx) by (nonlinear_arith);
                }
                let row: usize = y * source_nx;
                append_range(&mut out, values, row + x_start, row + source_nx);
                append_range(&mut out, values, row, row + x_end);
                y = y + 1;
            }
            out
        },
    }
}

proof fn lemma_part_fits(nx: int, ny: int, part: GridCrop, len: int)
    requires
        part.within(nx, ny),
        nx * ny <= len <= usize::MAX,
    ensures
        part.fits(nx, len),
{
    let width = part.spec_width();
    let height = part.spec_height();
    assert(width * height <= nx * ny) by (nonlinear_arith)
        requires
            0 <= width <= nx,
            0 <= height <= ny,
    ;
    if part.y_start < part.y_end {
        let rows = part.y_end as int;
        let end = part.x_end as int;
        assert((rows - 1) * nx + end <= nx * ny) by (nonlinear_arith)
            requires
                1 <= rows <= ny,
                0 <= end <= nx,
        ;
    }
}

/// The cell in column `column` of row `row` of a part that reaches over the end of
/// the rows is the cell of the grid in the column that many after `x_start`, going
/// round.
pub proof fn law_wrapped_cells_keep_their_order<T>(
    values: Seq<T>,
    nx: int,
    x_start: int,
    x_end: int,
    y_start: int,
    y_end: int,
    row: int,
    column: int,
)
    requires
        0 <= x_end <= x_start <= nx,
        0 <= y_start <= y_end,
        y_end * nx <= values.len(),
        0 <= row < y_end - y_start,
        0 <= column < nx - x_start + x_end,
    ensures
        wrapped_rows(values, nx, x_start, x_end, y_start, y_end).len() == (y_end - y_start) * (nx
            - x_start + x_end),
        wrapped_rows(values, nx, x_start, x_end, y_start, y_end)[row * (nx - x_start + x_end)
            + column] == values[(y_start + row) * nx + wrapped(x_start + column, nx)],
    decreases y_end - y_start,
{
    let width = nx - x_start + x_end;
    let rows = y_end - y_start;
    let start = (y_end - 1) * nx;
    assert(0 <= start && start + nx == y_end * nx) by (nonlinear_arith)
        requires
            start == (y_end - 1) * nx,
            1 <= y_end,
            0 <= nx,
    ;
    assert((rows - 1) * width + width == rows * width) by (nonlinear_arith);
    lemma_wrapped_len(values, nx, x_start, x_end, y_start, y_end - 1);
    let before = wrapped_rows(values, nx, x_start, x_end, y_start, y_end - 1);
    if row < rows - 1 {
        law_wrapped_cells_keep_their_order(
            values,
            nx,
            x_start,
            x_end,
            y_start,
            y_end - 1,
            row,
            column,
        );
        assert(row * width + column < (rows - 1) * width) by (nonlinear_arith)
            requires
                0 <= row < rows - 1,
                0 <= column < width,
        ;
        assert(0 <= row * width + column) by (nonlinear_arith)
            requires
                0 <= row,
                0 <= column < width,
        ;
    }
}

proof fn lemma_wrapped_len<T>(
    values: Seq<T>,
    nx: int,
    x_start: int,
    x_end: int,
    y_start: int,
    y_end: int,
)
    requires
        0 <= x_end <= x_start <= nx,
        0 <= y_start <= y_end,
        y_end * nx <= values.len(),
    ensures
        wrapped_rows(values, nx, x_start, x_end, y_start, y_end).len() == (y_end - y_start) * (nx
            - x_start + x_end),
    decreases y_end - y_start,
{
    let width = nx - x_start + x_end;
    let rows = y_end - y_start;
    if y_start < y_end {
        let start = (y_end - 1) * nx;
        assert(0 <= start && start + nx == y_end * nx) by (nonlinear_arith)
            requires
                start == (y_end - 1) * nx,
                1 <= y_end,
                0 <= nx,
        ;
        lemma_wrapped_len(values, nx, x_start, x_end, y_start, y_end - 1);
        assert((rows - 1) * width + width == rows * width) by (nonlinear_arith);
    } else {
        assert(rows * width == 0) by (nonlinear_arith)
            requires
                rows == 0,
        ;
    }
}

/// A field cut to a domain, with the coordinates of its cells.
pub struct DirectField<T> {
    pub nx: usize,
    pub ny: usize,
    pub lat_deg: Vec<T>,
    pub lon_deg: Vec<T>,
    pub values: Vec<T>,
}

/// Whether the longitudes of a cut field are moved round the centre of the domain:
/// those of a grid that goes round are, under a domain that does not.
pub fn should_normalize_periodic_direct_crop_longitudes(
    preserve_full_longitude_axis: bool,
    regional: bool,
    periodic_axis: bool,
) -> (yes: bool)
    ensures
        yes == (preserve_full_longitude_axis && regional && periodic_axis),
{
    preserve_full_longitude_axis && regional && periodic_axis
}

/// Whether longitudes are others, moved where that is asked for.
pub open spec fn moved<T, M: Fn(T) -> T>(
    before: Seq<T>,
    normalizes: bool,
    recenter: M,
    after: Seq<T>,
) -> bool {
    if normalizes {
        &&& after.len() == before.len()
        &&& forall|k: int|
            0 <= k < before.len() ==> call_ensures(recenter, (before[k],), #[trigger] after[k])
    } else {
        after == before
    }
}

/// Cuts a part out of a field and its coordinates. `recenter` moves one longitude
/// round the centre of the domain.
pub fn crop_selected_field<T: Copy, M: Fn(T) -> T>(
    lat_deg: &[T],
    lon_deg: &[T],
    values: &[T],
    nx: usize,
    ny: usize,
    crop: DirectGridCrop,
    normalizes: bool,
    recenter: &M,
) -> (field: DirectField<T>)
    requires
        crop.within(nx as int, ny as int),
        nx * ny <= lat_deg@.len(),
        nx * ny <= lon_deg@.len(),
        nx * ny <= values@.len(),
        forall|lon: T| #[trigger] call_requires(*recenter, (lon,)),
    ensures
        field.nx == crop.spec_width(nx as int),
        field.ny == crop.spec_height(),
        field.lat_deg@ == direct_cropped(lat_deg@, nx as int, crop),
        moved(direct_cropped(lon_deg@, nx as int, crop), normalizes, *recenter, field.lon_deg@),
        field.values@ == direct_cropped(values@, nx as int, crop),
{
    let cut = crop_values_for_direct(lon_deg, nx, ny, crop);
    let lon: Vec<T> = if normalizes {
        let mut shifted: Vec<T> = Vec::new();
        let mut i: usize = 0;
        while i < cut.len()
            invariant
                i <= cut@.len(),
                shifted@.len() == i,
                forall|value: T| #[trigger] call_requires(*recenter, (value,)),
                forall|k: int|
                    0 <= k < i ==> call_ensures(*recenter, (cut@[k],), #[trigger] shifted@[k]),
            decreases cut@.len() - i,
        {
            shifted.push(recenter(cut[i]));
            i = i + 1;
        }
        shifted
    } else {
        cut
    };
    DirectField {
        nx: crop.width(nx),
        ny: crop.height(),
        lat_deg: crop_values_for_direct(lat_deg, nx, ny, crop),
        lon_deg: lon,
        values: crop_values_for_direct(values, nx, ny, crop),
    }
}

/// Whether any cell of a column is marked.
pub open spec fn column_hit(mask: Seq<bool>, nx: int, ny: int, x: int) -> bool {
    exists|y: int| 0 <= y < ny && #[trigger] bounds::marked(mask, nx, x, y)
}

/// Which columns have a marked cell.
pub open spec fn column_hits(mask: Seq<bool>, nx: int, ny: int) -> Seq<bool> {
    Seq::new(nx as nat, |x: int| column_hit(mask, nx, ny, x))
}

fn hit_columns(mask: &[bool], nx: usize, ny: usize) -> (hits: Vec<bool>)
    requires
        nx * ny <= mask@.len(),
    ensures
        hits@ == column_hits(mask@, nx as int, ny as int),
{
    let len: usize = mask.len();
    let mut hits: Vec<bool> = Vec::new();
    let mut x: usize = 0;
    while x < nx
        invariant
            x <= nx,
            nx * ny <= len,
            len == mask@.len(),
            hits@ =~= column_hits(mask@, nx as int, ny as int).take(x as int),
        decreases nx - x,
    {
        let mut hit: bool = false;
        let mut y: usize = 0;
        while y < ny && !hit
            invariant
                y <= ny,
                x < nx,
                nx * ny <= len,
                len == mask@.len(),
                hit ==> column_hit(mask@, nx as int, ny as int, x as int),
                !hit ==> forall|q: int|
                    0 <= q < y ==> !#[trigger] bounds::marked(mask@, nx as int, x as int, q),
            decreases ny - y,
        {
            proof {
                bounds::lemma_cell_index(x as int, y as int, nx as int, ny as int);
            }
            if mask[y * nx + x] {
                hit = true;
                proof {
                    assert(bounds::marked(mask@, nx as int, x as int, y as int));
                }
            } else {
                proof {
                    assert(!bounds::marked(mask@, nx as int, x as int, y as int));
                }
            }
            y = y + 1;
        }
        hits.push(hit);
        x = x + 1;
    }
    proof {
        assert(column_hits(mask@, nx as int, ny as int).take(x as int) =~= column_hits(
            mask@,
            nx as int,
            ny as int,
        ));
    }
    hits
}

/// The part of a grid round its marked cells, once it is cut to the grid.
pub open spec fn cut_part(
    mask: Seq<bool>,
    nx: int,
    ny: int,
    pad: int,
    keep_columns: bool,
    goes_round: bool,
    inner: GridCrop,
    part: DirectGridCrop,
) -> bool {
    let y_start = (if inner.y_start <= pad {
        0
    } else {
        inner.y_start - pad
    }) as usize;
    let y_end = (if ny <= inner.y_end + pad {
        ny
    } else {
        inner.y_end + pad
    }) as usize;
    if keep_columns && goes_round {
        is_circular_crop(column_hits(mask, nx, ny), pad, y_start, y_end, part)
    } else if keep_columns {
        part == full_rows(nx, y_start, y_end)
    } else {
        part is Contiguous && bounds::is_padded(inner, pad, nx, ny, part->Contiguous_0)
    }
}

/// Whether a part is the one round the marked cells of a grid.
pub open spec fn is_direct_part(
    mask: Seq<bool>,
    nx: int,
    ny: int,
    pad: int,
    keep_columns: bool,
    goes_round: bool,
    part: DirectGridCrop,
) -> bool {
    exists|inner: GridCrop|
        #[trigger] bounds::is_marked_box(mask, nx, ny, inner) && cut_part(
            mask,
            nx,
            ny,
            pad,
            keep_columns,
            goes_round,
            inner,
            part,
        )
}

/// The part of a grid that a map needs: the marked cells with `pad` more on every
/// side. All columns are kept where that is asked for; on a grid that goes round
/// those that the widest gap leaves. Nothing is cut where no cell is marked or
/// where the part is the whole grid.
pub fn crop_for_direct_grid(
    in_bounds: &[bool],
    nx: usize,
    ny: usize,
    pad_cells: usize,
    preserve_full_longitude_axis: bool,
    goes_round: bool,
) -> (crop: Option<DirectGridCrop>)
    requires
        nx * ny <= in_bounds@.len(),
    ensures
        match crop {
            Some(part) => !part.whole(nx as int, ny as int) && is_direct_part(
                in_bounds@,
                nx as int,
                ny as int,
                pad_cells as int,
                preserve_full_longitude_axis,
                goes_round,
                part,
            ),
            None => bounds::no_cell_marked(in_bounds@, nx as int, ny as int) || exists|
                part: DirectGridCrop,
            |
                #[trigger] is_direct_part(
                    in_bounds@,
                    nx as int,
                    ny as int,
                    pad_cells as int,
                    preserve_full_longitude_axis,
                    goes_round,
                    part,
                ) && part.whole(nx as int, ny as int),
        },
{
    let inner = match marked_box(in_bounds, nx, ny) {
        Some(inner) => inner,
        None => {
            return None;
        },
    };
    let y_start: usize = inner.y_start.saturating_sub(pad_cells);
    let y_end: usize = if ny - inner.y_end <= pad_cells {
        ny
    } else {
        inner.y_end + pad_cells
    };
    let part = if preserve_full_longitude_axis && goes_round {
        let hits = hit_columns(in_bounds, nx, ny);
        match circular_crop_for_hit_columns(hits.as_slice(), y_start, y_end, pad_cells) {
            Some(part) => part,
            None => {
                proof {
                    let y = choose|y: int|
                        0 <= y < ny && #[trigger] bounds::marked(
                            in_bounds@,
                            nx as int,
                            inner.x_start as int,
                            y,
                        );
                    let x = inner.x_start as int;
                    assert(inner.holds(x, y));
                    assert(column_hit(in_bounds@, nx as int, ny as int, x));
                    assert(hits@[x] == true);
                    assert(hits@.contains(true));
                }
                DirectGridCrop::Contiguous(GridCrop { x_start: 0, x_end: nx, y_start, y_end })
            },
        }
    } else if preserve_full_longitude_axis {
        DirectGridCrop::Contiguous(GridCrop { x_start: 0, x_end: nx, y_start, y_end })
    } else {
        DirectGridCrop::Contiguous(
            GridCrop {
                x_start: inner.x_start.saturating_sub(pad_cells),
                x_end: if nx - inner.x_end <= pad_cells {
                    nx
                } else {
                    inner.x_end + pad_cells
                },
                y_start,
                y_end,
            },
        )
    };
    proof {
        assert(cut_part(
            in_bounds@,
            nx as int,
            ny as int,
            pad_cells as int,
            preserve_full_longitude_axis,
            goes_round,
            inner,
            part,
        ));
        assert(is_direct_part(
            in_bounds@,
            nx as int,
            ny as int,
            pad_cells as int,
            preserve_full_longitude_axis,
            goes_round,
            part,
        ));
    }
    if part.is_full(nx, ny) {
        None
    } else {
        Some(part)
    }
}

/// The part of a grid that a map needs holds every marked cell.
pub proof fn law_direct_part_holds_marked_cells(
    mask: Seq<bool>,
    nx: int,
    ny: int,
    pad: int,
    keep_columns: bool,
    goes_round: bool,
    part: DirectGridCrop,
    x: int,
    y: int,
)
    requires
        0 <= nx <= usize::MAX,
        0 <= ny <= usize::MAX,
        0 <= pad,
        is_direct_part(mask, nx, ny, pad, keep_columns, goes_round, part),
        0 <= x < nx,
        0 <= y < ny,
        bounds::marked(mask, nx, x, y),
    ensures
        part.within(nx, ny),
        part.holds_column(x),
        match part {
            DirectGridCrop::Contiguous(crop) => crop.y_start <= y < crop.y_end,
            DirectGridCrop::Wrapped { y_start, y_end, .. } => y_start <= y < y_end,
        },
{
    let inner = choose|inner: GridCrop|
        #[trigger] bounds::is_marked_box(mask, nx, ny, inner) && cut_part(
            mask,
            nx,
            ny,
            pad,
            keep_columns,
            goes_round,
            inner,
            part,
        );
    assert(inner.holds(x, y));
    if keep_columns && goes_round {
        let y_start = (if inner.y_start <= pad {
            0
        } else {
            inner.y_start - pad
        }) as usize;
        let y_end = (if ny <= inner.y_end + pad {
            ny
        } else {
            inner.y_end + pad
        }) as usize;
        let hits = column_hits(mask, nx, ny);
        assert(column_hit(mask, nx, ny, x));
        assert(hits[x]);
        law_circular_crop_holds_every_hit(hits, pad, y_start, y_end, part, x);
    }
}

/// Whether a span is how many columns and rows of a grid the marked cells lie in: those
/// of the whole grid, but at least one of each, where none is marked.
pub open spec fn is_visible_span(mask: Seq<bool>, nx: int, ny: int, span: (usize, usize)) -> bool {
    if bounds::no_cell_marked(mask, nx, ny) {
        span.0 == larger(1, nx) && span.1 == larger(1, ny)
    } else {
        exists|inner: GridCrop|
            #[trigger] bounds::is_marked_box(mask, nx, ny, inner) && span.0 == inner.spec_width()
                && span.1 == inner.spec_height()
    }
}

/// The marked cells of a grid lie in one span.
pub proof fn law_visible_span_is_unique(
    mask: Seq<bool>,
    nx: int,
    ny: int,
    a: (usize, usize),
    b: (usize, usize),
)
    requires
        is_visible_span(mask, nx, ny, a),
        is_visible_span(mask, nx, ny, b),
    ensures
        a == b,
{
    if !bounds::no_cell_marked(mask, nx, ny) {
        let x = choose|inner: GridCrop|
            #[trigger] bounds::is_marked_box(mask, nx, ny, inner) && a.0 == inner.spec_width()
                && a.1 == inner.spec_height();
        let y = choose|inner: GridCrop|
            #[trigger] bounds::is_marked_box(mask, nx, ny, inner) && b.0 == inner.spec_width()
                && b.1 == inner.spec_height();
        bounds::law_marked_box_is_unique(mask, nx, ny, x, y);
    }
}

/// How many columns and rows of a grid the marked cells span; the whole grid, but
/// at least one cell, where none is marked.
pub fn visible_grid_span(in_bounds: &[bool], nx: usize, ny: usize) -> (span: (usize, usize))
    requires
        nx * ny <= in_bounds@.len(),
    ensures
        is_visible_span(in_bounds@, nx as int, ny as int, span),
{
    match marked_box(in_bounds, nx, ny) {
        Some(inner) => {
            proof {
                let y = choose|y: int|
                    0 <= y < ny && #[trigger] bounds::marked(
                        in_bounds@,
                        nx as int,
                        inner.x_start as int,
                        y,
                    );
                assert(inner.holds(inner.x_start as int, y));
            }
            (inner.width(), inner.height())
        },
        None => (
            if nx < 1 {
                1
            } else {
                nx
            },
            if ny < 1 {
                1
            } else {
                ny
            },
        ),
    }
}

/// How many cells a domain is padded by unless a setting says otherwise.
pub const DEFAULT_PAD_CELLS: usize = 6;

/// How many cells a domain is padded by where its map is drawn backwards, unless a
/// setting says otherwise.
pub const DEFAULT_INVERSE_PAD_CELLS: usize = 1000;

/// The larger of two numbers.
pub open spec fn larger(a: int, b: int) -> int {
    if a < b {
        b
    } else {
        a
    }
}

/// How many cells the domain of a field is padded by. `cells` is how many cells of
/// a geographic grid the padding in degrees spans, if the grid has a spacing.
pub open spec fn field_pad(
    setting: Option<Seq<char>>,
    geographic: bool,
    wide_projection: bool,
    cells: Option<usize>,
) -> int {
    let base = match setting {
        Some(value) => match numbers::parsed(value, usize::MAX as nat) {
            Some(number) => number as int,
            None => DEFAULT_PAD_CELLS as int,
        },
        None => DEFAULT_PAD_CELLS as int,
    };
    if !geographic {
        larger(base, 128)
    } else {
        match cells {
            None => larger(base, 24),
            Some(cells) => {
                let most = if wide_projection {
                    128int
                } else {
                    96
                };
                larger(
                    base,
                    if cells < 12 {
                        12
                    } else if cells > most {
                        most
                    } else {
                        cells as int
                    },
                )
            },
        }
    }
}

/// How many cells the domain of a field is padded by.
pub fn direct_domain_crop_pad_cells_for_field(
    setting: Option<&str>,
    geographic: bool,
    wide_projection: bool,
    cells: Option<usize>,
) -> (pad: usize)
    ensures
        pad == field_pad(presentation::optional(setting), geographic, wide_projection, cells),
{
    let base: usize = match setting {
        Some(value) => match parse_usize(value) {
            Some(number) => number,
            None => DEFAULT_PAD_CELLS,
        },
        None => DEFAULT_PAD_CELLS,
    };
    let least: usize = if !geographic {
        128
    } else {
        match cells {
            None => 24,
            Some(cells) => {
                let most: usize = if wide_projection {
                    128
                } else {
                    96
                };
                if cells < 12 {
                    12
                } else if cells > most {
                    most
                } else {
                    cells
                }
            },
        }
    };
    if base < least {
        least
    } else {
        base
    }
}

/// How many cells a domain is padded by where its map is drawn backwards.
pub fn inverse_raster_crop_pad_cells(setting: Option<&str>) -> (pad: usize)
    ensures
        pad == numbers::positive_setting(
            presentation::optional(setting),
            DEFAULT_INVERSE_PAD_CELLS as int,
        ),
{
    match parse_positive(setting) {
        Some(pad) => pad,
        None => DEFAULT_INVERSE_PAD_CELLS,
    }
}

/// How one field of a batch is cut to the domain.
#[derive(Debug, Clone, Copy, PartialEq, Eq, Structural)]
pub struct FieldCut {
    pub pad_cells: usize,
    pub preserve_full_longitude_axis: bool,
}

/// How a field is cut to the domain. A field whose map is drawn backwards is
/// padded more, and keeps all columns if its grid goes round.
pub fn field_cut(
    pad_cells: usize,
    inverse_pad_cells: usize,
    uses_inverse_raster: bool,
    periodic_axis: bool,
) -> (cut: FieldCut)
    ensures
        cut.pad_cells == (if uses_inverse_raster {
            larger(pad_cells as int, inverse_pad_cells as int)
        } else {
            pad_cells as int
        }),
        cut.preserve_full_longitude_axis == (uses_inverse_raster && periodic_axis),
{
    FieldCut {
        pad_cells: if uses_inverse_raster && pad_cells < inverse_pad_cells {
            inverse_pad_cells
        } else {
            pad_cells
        },
        preserve_full_longitude_axis: uses_inverse_raster && periodic_axis,
    }
}

} // verus!
