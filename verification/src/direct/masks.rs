//! Masks over the ground that a pressure level lies below, and the smoothing of
//! contour fields.
use crate::gridded::bounds;
use crate::gridded::crop;
use crate::gridded::crop::{crop_2d_values, GridCrop};
use vstd::prelude::*;

verus! {

/// Whether a cell is marked, or a neighbour of it in any direction is.
pub open spec fn near(mask: Seq<bool>, nx: int, ny: int, x: int, y: int) -> bool {
    exists|a: int, b: int|
        0 <= a < nx && 0 <= b < ny && x - 1 <= a <= x + 1 && y - 1 <= b <= y + 1
            && #[trigger] bounds::marked(mask, nx, a, b)
}

/// Whether a mask marks the cells near those of another.
pub open spec fn dilated(mask: Seq<bool>, nx: int, ny: int, wider: Seq<bool>) -> bool {
    &&& wider.len() == mask.len()
    &&& forall|x: int, y: int|
        0 <= x < nx && 0 <= y < ny ==> #[trigger] bounds::marked(wider, nx, x, y) == near(
            mask,
            nx,
            ny,
            x,
            y,
        )
}

fn marked_near(mask: &[bool], nx: usize, ny: usize, x: usize, y: usize) -> (yes: bool)
    requires
        nx * ny == mask@.len(),
        x < nx,
        y < ny,
    ensures
        yes == near(mask@, nx as int, ny as int, x as int, y as int),
{
    let len: usize = mask.len();
    let y0: usize = y.saturating_sub(1);
    let y1: usize = if y + 1 < ny {
        y + 1
    } else {
        ny - 1
    };
    let x0: usize = x.saturating_sub(1);
    let x1: usize = if x + 1 < nx {
        x + 1
    } else {
        nx - 1
    };
    let mut b: usize = y0;
    while b <= y1
        invariant
            len == mask@.len(),
            nx * ny == mask@.len(),
            x < nx,
            y < ny,
            y0 <= b <= y1 + 1,
            y1 < ny,
            x1 < nx,
            y0 == (if y == 0 { 0 } else { y - 1 }),
            y1 == (if y + 1 < ny { y + 1 } else { ny - 1 }),
            x0 == (if x == 0 { 0 } else { x - 1 }),
            x1 == (if x + 1 < nx { x + 1 } else { nx - 1 }),
            forall|p: int, q: int|
                x0 <= p <= x1 && y0 <= q < b ==> !#[trigger] bounds::marked(mask@, nx as int, p, q),
        decreases y1 + 1 - b,
    {
        let mut a: usize = x0;
        while a <= x1
            invariant
                len == mask@.len(),
                nx * ny == mask@.len(),
                x < nx,
                y < ny,
                y0 <= b <= y1,
                y1 < ny,
                x1 < nx,
                x0 <= a <= x1 + 1,
                y0 == (if y == 0 { 0 } else { y - 1 }),
                y1 == (if y + 1 < ny { y + 1 } else { ny - 1 }),
                x0 == (if x == 0 { 0 } else { x - 1 }),
                x1 == (if x + 1 < nx { x + 1 } else { nx - 1 }),
                forall|p: int, q: int|
                    x0 <= p <= x1 && y0 <= q < b ==> !#[trigger] bounds::marked(
                        mask@,
                        nx as int,
                        p,
                        q,
                    ),
                forall|p: int|
                    x0 <= p < a ==> !#[trigger] bounds::marked(mask@, nx as int, p, b as int),
            decreases x1 + 1 - a,
        {
            proof {
                bounds::lemma_cell_index(a as int, b as int, nx as int, ny as int);
            }
            if mask[b * nx + a] {
                proof {
                    assert(bounds::marked(mask@, nx as int, a as int, b as int));
                }
                return true;
            }
            a = a + 1;
        }
        b = b + 1;
    }
    false
}

/// Marks the cells near those of a mask.
pub fn dilate_mask(mask: &[bool], nx: usize, ny: usize) -> (wider: Vec<bool>)
    requires
        nx * ny == mask@.len(),
    ensures
        dilated(mask@, nx as int, ny as int, wider@),
{
    assert(mask.len() <= usize::MAX);
    let mut wider: Vec<bool> = Vec::new();
    let mut y: usize = 0;
    while y < ny
        invariant
            y <= ny,
            nx * ny == mask@.len(),
            wider@.len() == y * nx,
            forall|p: int, q: int|
                0 <= p < nx && 0 <= q < y ==> #[trigger] bounds::marked(wider@, nx as int, p, q)
                    == near(mask@, nx as int, ny as int, p, q),
        decreases ny - y,
    {
        let mut x: usize = 0;
        while x < nx
            invariant
                x <= nx,
                y < ny,
                nx * ny == mask@.len(),
                wider@.len() == y * nx + x,
                forall|p: int, q: int|
                    0 <= p < nx && 0 <= q < y ==> #[trigger] bounds::marked(
                        wider@,
                        nx as int,
                        p,
                        q,
                    ) == near(mask@, nx as int, ny as int, p, q),
                forall|p: int|
                    0 <= p < x ==> #[trigger] bounds::marked(wider@, nx as int, p, y as int) == near(
                        mask@,
                        nx as int,
                        ny as int,
                        p,
                        y as int,
                    ),
            decreases nx - x,
        {
            let ghost before = wider@;
            let value = marked_near(mask, nx, ny, x, y);
            wider.push(value);
            proof {
                assert forall|p: int, q: int| 0 <= p < nx && 0 <= q < y implies #[trigger]
                bounds::marked(wider@, nx as int, p, q) == near(
                    mask@,
                    nx as int,
                    ny as int,
                    p,
                    q,
                ) by {
                    bounds::lemma_cell_index(p, q, nx as int, y as int);
                    assert(nx * y == y * nx) by (nonlinear_arith);
                    assert(bounds::marked(before, nx as int, p, q) == bounds::marked(
                        wider@,
                        nx as int,
                        p,
                        q,
                    ));
                }
                assert forall|p: int| 0 <= p < x + 1 implies #[trigger] bounds::marked(
                    wider@,
                    nx as int,
                    p,
                    y as int,
                ) == near(mask@, nx as int, ny as int, p, y as int) by {
                    if p < x {
                        assert(bounds::marked(before, nx as int, p, y as int) == bounds::marked(
                            wider@,
                            nx as int,
                            p,
                            y as int,
                        ));
                    }
                }
            }
            x = x + 1;
        }
        proof {
            assert((y + 1) * nx == y * nx + nx) by (nonlinear_arith);
        }
        y = y + 1;
    }
    proof {
        assert(ny * nx == nx * ny) by (nonlinear_arith);
    }
    wider
}

/// A dilated mask marks every cell that the mask marks.
pub proof fn law_dilation_keeps_marks(
    mask: Seq<bool>,
    nx: int,
    ny: int,
    wider: Seq<bool>,
    x: int,
    y: int,
)
    requires
        dilated(mask, nx, ny, wider),
        0 <= x < nx,
        0 <= y < ny,
        bounds::marked(mask, nx, x, y),
    ensures
        bounds::marked(wider, nx, x, y),
{
    assert(near(mask, nx, ny, x, y));
}

/// Blanks the marked values of a field. A field of another size is left alone.
pub fn apply_below_ground_mask<T: Copy>(mask: &[bool], values: &mut Vec<T>, blank: T)
    ensures
        old(values)@.len() != mask@.len() ==> final(values)@ == old(values)@,
        old(values)@.len() == mask@.len() ==> final(values)@ == Seq::new(
            mask@.len(),
            |i: int|
                if mask@[i] {
                    blank
                } else {
                    old(values)@[i]
                },
        ),
{
    if values.len() != mask.len() {
        return ;
    }
    let ghost before = values@;
    let mut i: usize = 0;
    while i < mask.len()
        invariant
            i <= mask@.len(),
            values@.len() == mask@.len(),
            before.len() == mask@.len(),
            forall|k: int|
                0 <= k < i ==> #[trigger] values@[k] == (if mask@[k] {
                    blank
                } else {
                    before[k]
                }),
            forall|k: int| i <= k < values@.len() ==> values@[k] == before[k],
        decreases mask@.len() - i,
    {
        if mask[i] {
            values.set(i, blank);
        }
        i = i + 1;
    }
    proof {
        assert(values@ =~= Seq::new(
            mask@.len(),
            |k: int|
                if mask@[k] {
                    blank
                } else {
                    before[k]
                },
        ));
    }
}

/// Whether the four corners of a grid cell are marked.
pub open spec fn cell_marked(mask: Seq<bool>, nx: int, x: int, y: int) -> bool {
    &&& bounds::marked(mask, nx, x, y)
    &&& bounds::marked(mask, nx, x + 1, y)
    &&& bounds::marked(mask, nx, x, y + 1)
    &&& bounds::marked(mask, nx, x + 1, y + 1)
}

/// Which cells of a row between two rows of points are marked at every corner.
pub open spec fn cell_row(mask: Seq<bool>, nx: int, y: int) -> Seq<bool> {
    Seq::new((nx - 1) as nat, |x: int| cell_marked(mask, nx, x, y))
}

/// The last cell of the run of marked cells that goes on from a cell.
pub open spec fn run_end(cells: Seq<bool>, from: int) -> int
    decreases cells.len() - from,
{
    if from + 1 < cells.len() && cells[from + 1] {
        run_end(cells, from + 1)
    } else {
        from
    }
}

proof fn lemma_run_end(cells: Seq<bool>, from: int)
    requires
        0 <= from < cells.len(),
        cells[from],
    ensures
        from <= run_end(cells, from) < cells.len(),
        forall|k: int| from <= k <= run_end(cells, from) ==> cells[k],
        run_end(cells, from) + 1 < cells.len() ==> !cells[run_end(cells, from) + 1],
    decreases cells.len() - from,
{
    if from + 1 < cells.len() && cells[from + 1] {
        lemma_run_end(cells, from + 1);
    }
}

/// The runs of marked cells of a row from a cell on, each with its first and its
/// last cell.
pub open spec fn runs(cells: Seq<bool>, from: int) -> Seq<(int, int)>
    decreases cells.len() - from,
    via runs_shrink
{
    if from < 0 || from >= cells.len() {
        Seq::empty()
    } else if !cells[from] {
        runs(cells, from + 1)
    } else {
        seq![(from, run_end(cells, from))] + runs(cells, run_end(cells, from) + 1)
    }
}

#[via_fn]
proof fn runs_shrink(cells: Seq<bool>, from: int) {
    if 0 <= from < cells.len() && cells[from] {
        lemma_run_end(cells, from);
    }
}

/// The runs of a row are its marked cells: a cell is in a run exactly if it is
/// marked, a run does not end before an unmarked cell or the end of the row, and
/// the runs stand in order with a gap between them.
pub proof fn law_runs_are_the_marked_cells(cells: Seq<bool>, from: int)
    requires
        0 <= from,
    ensures
        forall|k: int|
            from <= k < cells.len() ==> (#[trigger] cells[k] <==> exists|r: int|
                0 <= r < runs(cells, from).len() && (#[trigger] runs(cells, from)[r]).0 <= k
                    <= runs(cells, from)[r].1),
        forall|r: int|
            0 <= r < runs(cells, from).len() ==> {
                let run = #[trigger] runs(cells, from)[r];
                &&& from <= run.0 <= run.1 < cells.len()
                &&& run.1 + 1 < cells.len() ==> !cells[run.1 + 1]
                &&& forall|k: int| run.0 <= k <= run.1 ==> cells[k]
            },
        forall|r: int, s: int|
            #![trigger runs(cells, from)[r], runs(cells, from)[s]]
            0 <= r < s < runs(cells, from).len() ==> runs(cells, from)[r].1 + 1 < runs(cells, from)[s].0,
    decreases cells.len() - from,
{
    let all = runs(cells, from);
    if from < cells.len() {
        if !cells[from] {
            law_runs_are_the_marked_cells(cells, from + 1);
            assert forall|k: int| from <= k < cells.len() implies (#[trigger] cells[k] <==> exists|
                r: int,
            |
                0 <= r < all.len() && (#[trigger] all[r]).0 <= k <= all[r].1) by {
                if k == from {
                    if exists|r: int| 0 <= r < all.len() && (#[trigger] all[r]).0 <= k <= all[r].1 {
                        let r = choose|r: int|
                            0 <= r < all.len() && (#[trigger] all[r]).0 <= k <= all[r].1;
                        assert(from + 1 <= all[r].0);
                    }
                }
            }
        } else {
            lemma_run_end(cells, from);
            let end = run_end(cells, from);
            let rest = runs(cells, end + 1);
            law_runs_are_the_marked_cells(cells, end + 1);
            assert(all =~= seq![(from, end)] + rest);
            assert(all[0] == (from, end));
            assert forall|k: int| from <= k < cells.len() implies (#[trigger] cells[k] <==> exists|
                r: int,
            |
                0 <= r < all.len() && (#[trigger] all[r]).0 <= k <= all[r].1) by {
                if k <= end {
                    assert(all[0].0 <= k <= all[0].1);
                } else {
                    if cells[k] {
                        let r = choose|r: int|
                            0 <= r < rest.len() && (#[trigger] rest[r]).0 <= k <= rest[r].1;
                        assert(all[r + 1] == rest[r]);
                    }
                    if exists|r: int| 0 <= r < all.len() && (#[trigger] all[r]).0 <= k <= all[r].1 {
                        let r = choose|r: int|
                            0 <= r < all.len() && (#[trigger] all[r]).0 <= k <= all[r].1;
                        assert(r > 0);
                        assert(all[r] == rest[r - 1]);
                    }
                }
            }
            assert forall|r: int| 0 <= r < all.len() implies {
                let run = #[trigger] all[r];
                &&& from <= run.0 <= run.1 < cells.len()
                &&& run.1 + 1 < cells.len() ==> !cells[run.1 + 1]
                &&& forall|k: int| run.0 <= k <= run.1 ==> cells[k]
            } by {
                if r > 0 {
                    assert(all[r] == rest[r - 1]);
                }
            }
            assert forall|r: int, s: int|
                #![trigger all[r], all[s]]
                0 <= r < s < all.len() implies all[r].1 + 1 < all[s].0 by {
                assert(all[s] == rest[s - 1]);
                if r > 0 {
                    assert(all[r] == rest[r - 1]);
                } else {
                    assert(rest[s - 1].0 >= end + 1);
                    assert(cells[rest[s - 1].0]);
                }
            }
        }
    }
}

/// The points round a run of cells, as places in a field: along the upper row,
/// back along the lower row, and to the first point again.
pub open spec fn ring(nx: int, y: int, start: int, end: int) -> Seq<int> {
    let width = end - start + 2;
    Seq::new(
        (2 * width + 1) as nat,
        |k: int|
            if k < width {
                y * nx + start + k
            } else if k < 2 * width {
                (y + 1) * nx + end + 1 - (k - width)
            } else {
                y * nx + start
            },
    )
}

/// Places in a field as numbers.
pub open spec fn indices(list: Seq<usize>) -> Seq<int> {
    Seq::new(list.len(), |i: int| list[i] as int)
}

/// Whether every point of a ring is drawn.
pub open spec fn drawable(points: Seq<int>, finite: Seq<bool>) -> bool {
    forall|k: int| 0 <= k < points.len() ==> finite[#[trigger] points[k]]
}

/// The rings round the runs of a row that can be drawn.
pub open spec fn row_rings(
    row: Seq<(int, int)>,
    nx: int,
    y: int,
    finite: Seq<bool>,
) -> Seq<Seq<int>>
    decreases row.len(),
{
    if row.len() == 0 {
        Seq::empty()
    } else {
        let before = row_rings(row.drop_last(), nx, y, finite);
        let last = ring(nx, y, row.last().0, row.last().1);
        if drawable(last, finite) {
            before.push(last)
        } else {
            before
        }
    }
}

/// The rings round the runs of the first rows that can be drawn.
pub open spec fn rings(mask: Seq<bool>, nx: int, rows: int, finite: Seq<bool>) -> Seq<Seq<int>>
    decreases rows,
{
    if rows <= 0 {
        Seq::empty()
    } else {
        rings(mask, nx, rows - 1, finite) + row_rings(
            runs(cell_row(mask, nx, rows - 1), 0),
            nx,
            rows - 1,
            finite,
        )
    }
}

/// The rings of a list as places in a field.
pub open spec fn ring_views(list: Seq<Vec<usize>>) -> Seq<Seq<int>> {
    Seq::new(list.len(), |i: int| indices(list[i]@))
}

fn is_cell_marked(mask: &[bool], nx: usize, ny: usize, x: usize, y: usize) -> (yes: bool)
    requires
        nx * ny == mask@.len(),
        x + 1 < nx,
        y + 1 < ny,
    ensures
        yes == cell_marked(mask@, nx as int, x as int, y as int),
{
    assert(mask.len() <= usize::MAX);
    proof {
        bounds::lemma_cell_index(x as int, y as int, nx as int, ny as int);
        bounds::lemma_cell_index(x + 1, y as int, nx as int, ny as int);
        bounds::lemma_cell_index(x as int, y + 1, nx as int, ny as int);
        bounds::lemma_cell_index(x + 1, y + 1, nx as int, ny as int);
    }
    mask[y * nx + x] && mask[y * nx + (x + 1)] && mask[(y + 1) * nx + x] && mask[(y + 1) * nx + (x
        + 1)]
}

fn ring_points(nx: usize, ny: usize, len: usize, y: usize, start: usize, end: usize) -> (points: Vec<
    usize,
>)
    requires
        nx * ny == len,
        start <= end,
        end + 1 < nx,
        y + 1 < ny,
    ensures
        indices(points@) == ring(nx as int, y as int, start as int, end as int),
        forall|k: int| 0 <= k < points@.len() ==> #[trigger] points@[k] < len,
{
    let mut points: Vec<usize> = Vec::new();
    let ghost whole = ring(nx as int, y as int, start as int, end as int);
    let ghost width = end - start + 2;
    let mut col: usize = start;
    while col <= end + 1
        invariant
            start <= col <= end + 2,
            nx * ny == len,
            start <= end,
            end + 1 < nx,
            y + 1 < ny,
            width == end - start + 2,
            whole == ring(nx as int, y as int, start as int, end as int),
            points@.len() == col - start,
            forall|k: int| 0 <= k < points@.len() ==> #[trigger] points@[k] == whole[k],
            forall|k: int| 0 <= k < points@.len() ==> #[trigger] points@[k] < len,
        decreases end + 2 - col,
    {
        proof {
            bounds::lemma_cell_index(col as int, y as int, nx as int, ny as int);
        }
        points.push(y * nx + col);
        col = col + 1;
    }
    let mut back: usize = end + 2;
    while back > start
        invariant
            start <= back <= end + 2,
            nx * ny == len,
            start <= end,
            end + 1 < nx,
            y + 1 < ny,
            width == end - start + 2,
            whole == ring(nx as int, y as int, start as int, end as int),
            points@.len() == width + (end + 2 - back),
            forall|k: int| 0 <= k < points@.len() ==> #[trigger] points@[k] == whole[k],
            forall|k: int| 0 <= k < points@.len() ==> #[trigger] points@[k] < len,
        decreases back,
    {
        proof {
            bounds::lemma_cell_index(back - 1, y + 1, nx as int, ny as int);
        }
        points.push((y + 1) * nx + (back - 1));
        back = back - 1;
    }
    let first: usize = points[0];
    points.push(first);
    proof {
        assert(indices(points@) =~= whole);
    }
    points
}

fn all_finite(points: &[usize], finite: &[bool]) -> (yes: bool)
    requires
        forall|k: int| 0 <= k < points@.len() ==> #[trigger] points@[k] < finite@.len(),
    ensures
        yes == drawable(indices(points@), finite@),
{
    let mut i: usize = 0;
    while i < points.len()
        invariant
            i <= points@.len(),
            forall|k: int| 0 <= k < points@.len() ==> #[trigger] points@[k] < finite@.len(),
            forall|k: int| 0 <= k < i ==> finite@[#[trigger] indices(points@)[k]],
        decreases points@.len() - i,
    {
        proof {
            assert(indices(points@)[i as int] == points@[i as int]);
        }
        if !finite[points[i]] {
            return false;
        }
        i = i + 1;
    }
    true
}

/// Outlines the cells of a grid that are marked at every corner: one ring for
/// each run of such cells in a row, left out where a point of it is not finite.
pub fn masked_cell_rings(mask: &[bool], nx: usize, ny: usize, finite: &[bool]) -> (list: Vec<
    Vec<usize>,
>)
    requires
        nx >= 2,
        ny >= 2,
        nx * ny == mask@.len(),
        finite@.len() == mask@.len(),
    ensures
        ring_views(list@) == rings(mask@, nx as int, ny - 1, finite@),
{
    let len: usize = mask.len();
    let mut list: Vec<Vec<usize>> = Vec::new();
    let mut y: usize = 0;
    proof {
        assert(ring_views(list@) =~= rings(mask@, nx as int, 0, finite@));
    }
    while y < ny - 1
        invariant
            y <= ny - 1,
            nx >= 2,
            ny >= 2,
            nx * ny == mask@.len(),
            len == mask@.len(),
            finite@.len() == mask@.len(),
            ring_views(list@) == rings(mask@, nx as int, y as int, finite@),
        decreases ny - y,
    {
        let ghost cells = cell_row(mask@, nx as int, y as int);
        let ghost all = runs(cells, 0);
        let ghost above = ring_views(list@);
        let ghost mut done: Seq<(int, int)> = Seq::empty();
        let mut x: usize = 0;
        proof {
            assert(done + all =~= all);
            assert(above + row_rings(done, nx as int, y as int, finite@) =~= above);
        }
        while x < nx - 1
            invariant
                x <= nx - 1,
                y < ny - 1,
                nx >= 2,
                ny >= 2,
                nx * ny == mask@.len(),
                len == mask@.len(),
                finite@.len() == mask@.len(),
                cells == cell_row(mask@, nx as int, y as int),
                all == runs(cells, 0),
                all == done + runs(cells, x as int),
                ring_views(list@) == above + row_rings(done, nx as int, y as int, finite@),
            decreases nx - x,
        {
            if !is_cell_marked(mask, nx, ny, x, y) {
                proof {
                    assert(!cells[x as int]);
                }
                x = x + 1;
            } else {
                let start: usize = x;
                let mut end: usize = x;
                proof {
                    assert(cells[x as int]);
                    lemma_run_end(cells, x as int);
                }
                while end + 1 < nx - 1 && is_cell_marked(mask, nx, ny, end + 1, y)
                    invariant
                        start <= end < nx - 1,
                        y < ny - 1,
                        nx >= 2,
                        ny >= 2,
                        nx * ny == mask@.len(),
                        cells == cell_row(mask@, nx as int, y as int),
                        run_end(cells, start as int) == run_end(cells, end as int),
                    decreases nx - end,
                {
                    proof {
                        assert(cells[end + 1]);
                    }
                    end = end + 1;
                }
                proof {
                    assert(end + 1 < cells.len() ==> !cells[end + 1]);
                    assert(run_end(cells, start as int) == end);
                }
                let points = ring_points(nx, ny, len, y, start, end);
                let ghost held = ring_views(list@);
                let ghost run = (start as int, end as int);
                let ghost shown = indices(points@);
                let ghost next = done.push(run);
                proof {
                    assert(next.drop_last() =~= done);
                    assert(done + (seq![run] + runs(cells, end + 1)) =~= next + runs(
                        cells,
                        end + 1,
                    ));
                }
                if all_finite(points.as_slice(), finite) {
                    list.push(points);
                    proof {
                        assert(ring_views(list@) =~= held.push(shown));
                        assert(held.push(shown) =~= above + row_rings(
                            next,
                            nx as int,
                            y as int,
                            finite@,
                        ));
                    }
                }
                proof {
                    done = next;
                }
                x = end + 1;
            }
        }
        proof {
            assert(runs(cells, x as int) =~= Seq::empty());
            assert(done =~= all);
        }
        y = y + 1;
    }
    list
}

/// What a map shows below the ground: which values are blanked, and the outline
/// of what is masked.
pub struct BelowGround {
    pub mask: Vec<bool>,
    pub rings: Vec<Vec<usize>>,
}

/// Masks a map below the ground. Nothing is masked on a grid of less than two
/// rows or columns, on one that the projected points do not match, or where no
/// point is below the ground.
pub fn below_ground_mask(
    below: &[bool],
    nx: usize,
    ny: usize,
    projected_x: usize,
    projected_y: usize,
    finite: &[bool],
) -> (masked: Option<BelowGround>)
    requires
        nx * ny == below@.len(),
        finite@.len() == projected_x,
    ensures
        ({
            let masks = nx >= 2 && ny >= 2 && projected_x == nx * ny && projected_y == nx * ny
                && below@.contains(true);
            match masked {
                Some(masked) => {
                    &&& masks
                    &&& dilated(below@, nx as int, ny as int, masked.mask@)
                    &&& ring_views(masked.rings@) == rings(
                        masked.mask@,
                        nx as int,
                        ny - 1,
                        finite@,
                    )
                },
                None => !masks,
            }
        }),
{
    if nx < 2 || ny < 2 {
        return None;
    }
    let len: usize = below.len();
    if projected_x != len || projected_y != len {
        return None;
    }
    let mut i: usize = 0;
    while i < below.len() && !below[i]
        invariant
            i <= below@.len(),
            forall|k: int| 0 <= k < i ==> !below@[k],
        decreases below@.len() - i,
    {
        i = i + 1;
    }
    if i == below.len() {
        return None;
    }
    proof {
        assert(below@[i as int]);
    }
    let mask = dilate_mask(below, nx, ny);
    let rings = masked_cell_rings(mask.as_slice(), nx, ny, finite);
    Some(BelowGround { mask, rings })
}

/// The window round a cell that a smoothed value is taken from: two cells in each
/// direction, as far as the grid has them.
pub open spec fn smoothing_window(nx: int, ny: int, x: int, y: int) -> GridCrop {
    GridCrop {
        x_start: (if x < 2 {
            0
        } else {
            x - 2
        }) as usize,
        x_end: (if x + 2 < nx {
            x + 3
        } else {
            nx
        }) as usize,
        y_start: (if y < 2 {
            0
        } else {
            y - 2
        }) as usize,
        y_end: (if y + 2 < ny {
            y + 3
        } else {
            ny
        }) as usize,
    }
}

/// Whether a field is another after one pass of smoothing.
pub open spec fn smoothed<T, M: Fn(Vec<T>) -> T>(
    values: Seq<T>,
    nx: int,
    ny: int,
    mean: M,
    result: Seq<T>,
) -> bool {
    &&& result.len() == values.len()
    &&& forall|x: int, y: int|
        0 <= x < nx && 0 <= y < ny ==> #[trigger] averages(values, nx, ny, mean, result, x, y)
}

/// Whether a value is the mean of the window round its cell.
pub open spec fn averages<T, M: Fn(Vec<T>) -> T>(
    values: Seq<T>,
    nx: int,
    ny: int,
    mean: M,
    result: Seq<T>,
    x: int,
    y: int,
) -> bool {
    exists|window: Vec<T>|
        window@ == crop::cropped(values, nx, smoothing_window(nx, ny, x, y)) && #[trigger]
            call_ensures(mean, (window,), result[y * nx + x])
}

/// Whether fields follow one another, each smoothed from the one before.
pub open spec fn smoothing_passes<T, M: Fn(Vec<T>) -> T>(
    passes: Seq<Seq<T>>,
    nx: int,
    ny: int,
    mean: M,
) -> bool {
    forall|p: int|
        0 <= p < passes.len() - 1 ==> smoothed(#[trigger] passes[p], nx, ny, mean, passes[p + 1])
}

fn smooth_once<T: Copy, M: Fn(Vec<T>) -> T>(values: &[T], nx: usize, ny: usize, mean: &M) -> (result:
    Vec<T>)
    requires
        nx * ny == values@.len(),
        forall|window: Vec<T>| #[trigger] call_requires(*mean, (window,)),
    ensures
        smoothed(values@, nx as int, ny as int, *mean, result@),
{
    let len: usize = values.len();
    let mut result: Vec<T> = Vec::new();
    let mut y: usize = 0;
    while y < ny
        invariant
            y <= ny,
            nx * ny == values@.len(),
            len == values@.len(),
            forall|window: Vec<T>| #[trigger] call_requires(*mean, (window,)),
            result@.len() == y * nx,
            forall|p: int, q: int|
                0 <= p < nx && 0 <= q < y ==> #[trigger] averages(
                    values@,
                    nx as int,
                    ny as int,
                    *mean,
                    result@,
                    p,
                    q,
                ),
        decreases ny - y,
    {
        let mut x: usize = 0;
        while x < nx
            invariant
                x <= nx,
                y < ny,
                nx * ny == values@.len(),
                len == values@.len(),
                forall|window: Vec<T>| #[trigger] call_requires(*mean, (window,)),
                result@.len() == y * nx + x,
                forall|p: int, q: int|
                    0 <= p < nx && 0 <= q < y ==> #[trigger] averages(
                        values@,
                        nx as int,
                        ny as int,
                        *mean,
                        result@,
                        p,
                        q,
                    ),
                forall|p: int|
                    0 <= p < x ==> #[trigger] averages(
                        values@,
                        nx as int,
                        ny as int,
                        *mean,
                        result@,
                        p,
                        y as int,
                    ),
            decreases nx - x,
        {
            let crop = GridCrop {
                x_start: x.saturating_sub(2),
                x_end: if nx - x > 2 {
                    x + 3
                } else {
                    nx
                },
                y_start: y.saturating_sub(2),
                y_end: if ny - y > 2 {
                    y + 3
                } else {
                    ny
                },
            };
            proof {
                assert(crop == smoothing_window(nx as int, ny as int, x as int, y as int));
                lemma_window_fits(nx as int, ny as int, crop, values@.len() as int);
            }
            let window = crop_2d_values(values, nx, crop);
            let ghost seen = window;
            let ghost before = result@;
            let value = mean(window);
            result.push(value);
            proof {
                assert forall|p: int, q: int| 0 <= p < nx && 0 <= q < y implies #[trigger]
                averages(values@, nx as int, ny as int, *mean, result@, p, q) by {
                    assert(averages(values@, nx as int, ny as int, *mean, before, p, q));
                    bounds::lemma_cell_index(p, q, nx as int, y as int);
                    assert(nx * y == y * nx) by (nonlinear_arith);
                    assert(result@[q * nx + p] == before[q * nx + p]);
                }
                assert forall|p: int| 0 <= p < x + 1 implies #[trigger] averages(
                    values@,
                    nx as int,
                    ny as int,
                    *mean,
                    result@,
                    p,
                    y as int,
                ) by {
                    if p < x {
                        assert(averages(
                            values@,
                            nx as int,
                            ny as int,
                            *mean,
                            before,
                            p,
                            y as int,
                        ));
                        bounds::lemma_cell_index(p, y as int, nx as int, ny as int);
                        assert(result@[y * nx + p] == before[y * nx + p]);
                    } else {
                        assert(result@[y * nx + x] == value);
                        assert(call_ensures(*mean, (seen,), result@[y * nx + x]));
                    }
                }
            }
            x = x + 1;
        }
        proof {
            assert((y + 1) * nx == y * nx + nx) by (nonlinear_arith);
        }
        y = y + 1;
    }
    proof {
        assert(ny * nx == nx * ny) by (nonlinear_arith);
    }
    result
}

proof fn lemma_window_fits(nx: int, ny: int, window: GridCrop, len: int)
    requires
        window.within(nx, ny),
        nx * ny == len,
        len <= usize::MAX,
    ensures
        window.fits(nx, len),
{
    let width = window.spec_width();
    let height = window.spec_height();
    assert(width * height <= nx * ny) by (nonlinear_arith)
        requires
            0 <= width <= nx,
            0 <= height <= ny,
    ;
    if window.y_start < window.y_end {
        let rows = window.y_end as int;
        let end = window.x_end as int;
        assert((rows - 1) * nx + end <= nx * ny) by (nonlinear_arith)
            requires
                1 <= rows <= ny,
                0 <= end <= nx,
        ;
    }
}

/// Smooths a contour field by a number of passes. A field without passes, on less
/// than three rows or columns, or of another size than its grid, stays as it is.
/// `mean` gives the mean of a window.
pub fn smooth_contour_values<T: Copy, M: Fn(Vec<T>) -> T>(
    values: &[T],
    nx: usize,
    ny: usize,
    passes: usize,
    mean: &M,
) -> (result: Vec<T>)
    requires
        forall|window: Vec<T>| #[trigger] call_requires(*mean, (window,)),
    ensures
        if passes == 0 || nx < 3 || ny < 3 || values@.len() != nx * ny {
            result@ == values@
        } else {
            exists|states: Seq<Seq<T>>|
                #[trigger] smoothing_passes(states, nx as int, ny as int, *mean) && states.len()
                    == passes + 1 && states[0] == values@ && states.last() == result@
        },
{
    let mut current: Vec<T> = vstd::slice::slice_to_vec(values);
    if passes == 0 || nx < 3 || ny < 3 {
        return current;
    }
    let len: usize = values.len();
    let matches_grid = match nx.checked_mul(ny) {
        Some(cells) => cells == len,
        None => false,
    };
    if !matches_grid {
        return current;
    }
    let ghost mut states: Seq<Seq<T>> = seq![values@];
    let mut pass: usize = 0;
    while pass < passes
        invariant
            pass <= passes,
            nx * ny == values@.len(),
            current@.len() == values@.len(),
            forall|window: Vec<T>| #[trigger] call_requires(*mean, (window,)),
            smoothing_passes(states, nx as int, ny as int, *mean),
            states.len() == pass + 1,
            states[0] == values@,
            states.last() == current@,
        decreases passes - pass,
    {
        let next = smooth_once(current.as_slice(), nx, ny, mean);
        proof {
            let longer = states.push(next@);
            assert forall|p: int| 0 <= p < longer.len() - 1 implies smoothed(
                #[trigger] longer[p],
                nx as int,
                ny as int,
                *mean,
                longer[p + 1],
            ) by {
                assert(longer[p] == states[p]);
                if p < states.len() - 1 {
                    assert(longer[p + 1] == states[p + 1]);
                } else {
                    assert(longer[p] == current@);
                }
            }
            states = longer;
        }
        current = next;
        pass = pass + 1;
    }
    current
}

} // verus!
