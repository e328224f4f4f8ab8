//! The smallest rectangle around the cells of a grid that a test singles out.
use crate::gridded::crop::{GridCrop, ProjectedGridIntersection};
use vstd::prelude::*;
use vstd::string::*;

verus! {

/// Whether the cell in column `x` of row `y` is marked.
pub open spec fn marked(mask: Seq<bool>, nx: int, x: int, y: int) -> bool {
    mask[y * nx + x]
}

/// Whether no cell of the first `ny` rows is marked.
pub open spec fn no_cell_marked(mask: Seq<bool>, nx: int, ny: int) -> bool {
    forall|x: int, y: int| 0 <= x < nx && 0 <= y < ny ==> !#[trigger] marked(mask, nx, x, y)
}

/// Whether a rectangle is the smallest that holds every marked cell of the first
/// `ny` rows: it holds each of them, and each of its four sides touches one.
pub open spec fn is_marked_box(mask: Seq<bool>, nx: int, ny: int, crop: GridCrop) -> bool {
    &&& crop.within(nx, ny)
    &&& forall|x: int, y: int|
        0 <= x < nx && 0 <= y < ny && #[trigger] marked(mask, nx, x, y) ==> crop.holds(x, y)
    &&& exists|y: int| 0 <= y < ny && #[trigger] marked(mask, nx, crop.x_start as int, y)
    &&& exists|y: int| 0 <= y < ny && #[trigger] marked(mask, nx, crop.x_end - 1, y)
    &&& exists|x: int| 0 <= x < nx && #[trigger] marked(mask, nx, x, crop.y_start as int)
    &&& exists|x: int| 0 <= x < nx && #[trigger] marked(mask, nx, x, crop.y_end - 1)
}

/// Whether a cell comes before another in row order.
pub open spec fn before(x: int, y: int, bx: int, by: int) -> bool {
    y < by || (y == by && x < bx)
}

/// The box of the marked cells that come before cell `(bx, by)` in row order.
spec fn box_so_far(
    mask: Seq<bool>,
    nx: int,
    bx: int,
    by: int,
    found: bool,
    crop: GridCrop,
) -> bool {
    if found {
        &&& forall|x: int, y: int|
            0 <= x < nx && 0 <= y && before(x, y, bx, by) && #[trigger] marked(mask, nx, x, y)
                ==> crop.holds(x, y)
        &&& exists|y: int|
            0 <= y && before(crop.x_start as int, y, bx, by) && #[trigger] marked(
                mask,
                nx,
                crop.x_start as int,
                y,
            )
        &&& exists|y: int|
            0 <= y && before(crop.x_end - 1, y, bx, by) && #[trigger] marked(
                mask,
                nx,
                crop.x_end - 1,
                y,
            )
        &&& exists|x: int|
            0 <= x < nx && before(x, crop.y_start as int, bx, by) && #[trigger] marked(
                mask,
                nx,
                x,
                crop.y_start as int,
            )
        &&& exists|x: int|
            0 <= x < nx && before(x, crop.y_end - 1, bx, by) && #[trigger] marked(
                mask,
                nx,
                x,
                crop.y_end - 1,
            )
    } else {
        forall|x: int, y: int|
            0 <= x < nx && 0 <= y && before(x, y, bx, by) ==> !#[trigger] marked(mask, nx, x, y)
    }
}

pub proof fn lemma_cell_index(x: int, y: int, nx: int, ny: int)
    by (nonlinear_arith)
    requires
        0 <= x < nx,
        0 <= y < ny,
    ensures
        0 <= y * nx,
        y * nx + x < ny * nx,
        ny * nx == nx * ny,
{
}

/// The first marked cell in row order is a box of its own.
proof fn lemma_box_begins(mask: Seq<bool>, nx: int, x: int, y: int, crop: GridCrop)
    requires
        0 <= x < nx,
        0 <= y,
        marked(mask, nx, x, y),
        box_so_far(mask, nx, x, y, false, crop),
        crop.x_start == x,
        crop.x_end == x + 1,
        crop.y_start == y,
        crop.y_end == y + 1,
    ensures
        box_so_far(mask, nx, x + 1, y, true, crop),
{
    assert(before(x, y, x + 1, y));
    assert(marked(mask, nx, crop.x_start as int, y));
    assert(marked(mask, nx, crop.x_end - 1, y));
    assert(marked(mask, nx, x, crop.y_start as int));
    assert(marked(mask, nx, x, crop.y_end - 1));
}

/// A box grows to hold one more marked cell, the next in row order.
proof fn lemma_box_grows(mask: Seq<bool>, nx: int, x: int, y: int, seen: GridCrop, grown: GridCrop)
    requires
        0 <= x < nx,
        0 <= y,
        marked(mask, nx, x, y),
        box_so_far(mask, nx, x, y, true, seen),
        seen.x_start < seen.x_end,
        seen.y_start < seen.y_end <= y + 1,
        grown.x_start == if x < seen.x_start { x } else { seen.x_start as int },
        grown.x_end == if x + 1 > seen.x_end { x + 1 } else { seen.x_end as int },
        grown.y_start == seen.y_start,
        grown.y_end == y + 1,
    ensures
        box_so_far(mask, nx, x + 1, y, true, grown),
{
    if x >= seen.x_start {
        let w = choose|w: int|
            0 <= w && before(seen.x_start as int, w, x, y) && #[trigger] marked(
                mask,
                nx,
                seen.x_start as int,
                w,
            );
        assert(marked(mask, nx, grown.x_start as int, w));
    }
    if x + 1 <= seen.x_end {
        let w = choose|w: int|
            0 <= w && before(seen.x_end - 1, w, x, y) && #[trigger] marked(
                mask,
                nx,
                seen.x_end - 1,
                w,
            );
        assert(marked(mask, nx, grown.x_end - 1, w));
    }
    let w = choose|w: int|
        0 <= w < nx && before(w, seen.y_start as int, x, y) && #[trigger] marked(
            mask,
            nx,
            w,
            seen.y_start as int,
        );
    assert(marked(mask, nx, w, grown.y_start as int));
    assert(marked(mask, nx, x, grown.y_end - 1));
    assert(x < seen.x_start ==> marked(mask, nx, grown.x_start as int, y));
    assert(x + 1 > seen.x_end ==> marked(mask, nx, grown.x_end - 1, y));
}

/// A box stays what it is when the next cell in row order is not marked.
proof fn lemma_box_stays(mask: Seq<bool>, nx: int, x: int, y: int, found: bool, seen: GridCrop)
    requires
        0 <= x < nx,
        0 <= y,
        !marked(mask, nx, x, y),
        box_so_far(mask, nx, x, y, found, seen),
    ensures
        box_so_far(mask, nx, x + 1, y, found, seen),
{
    if found {
        let a = choose|w: int|
            0 <= w && before(seen.x_start as int, w, x, y) && #[trigger] marked(
                mask,
                nx,
                seen.x_start as int,
                w,
            );
        let b = choose|w: int|
            0 <= w && before(seen.x_end - 1, w, x, y) && #[trigger] marked(
                mask,
                nx,
                seen.x_end - 1,
                w,
            );
        let c = choose|w: int|
            0 <= w < nx && before(w, seen.y_start as int, x, y) && #[trigger] marked(
                mask,
                nx,
                w,
                seen.y_start as int,
            );
        let d = choose|w: int|
            0 <= w < nx && before(w, seen.y_end - 1, x, y) && #[trigger] marked(
                mask,
                nx,
                w,
                seen.y_end - 1,
            );
        assert(before(seen.x_start as int, a, x + 1, y));
        assert(before(seen.x_end - 1, b, x + 1, y));
        assert(before(c, seen.y_start as int, x + 1, y));
        assert(before(d, seen.y_end - 1, x + 1, y));
    }
}

/// The smallest rectangle that holds every marked cell, if a cell is marked.
pub fn marked_box(mask: &[bool], nx: usize, ny: usize) -> (crop: Option<GridCrop>)
    requires
        nx * ny <= mask@.len(),
    ensures
        match crop {
            Some(crop) => is_marked_box(mask@, nx as int, ny as int, crop),
            None => no_cell_marked(mask@, nx as int, ny as int),
        },
{
    let len: usize = mask.len();
    let mut found: bool = false;
    let mut crop = GridCrop { x_start: 0, x_end: 0, y_start: 0, y_end: 0 };
    let mut y: usize = 0;
    while y < ny
        invariant
            y <= ny,
            len == mask@.len(),
            nx * ny <= len,
            found ==> crop.x_start < crop.x_end <= nx && crop.y_start < crop.y_end <= y,
            box_so_far(mask@, nx as int, 0, y as int, found, crop),
        decreases ny - y,
    {
        let mut x: usize = 0;
        while x < nx
            invariant
                x <= nx,
                y < ny,
                len == mask@.len(),
                nx * ny <= len,
                found ==> crop.x_start < crop.x_end <= nx && crop.y_start < crop.y_end <= y + 1,
                box_so_far(mask@, nx as int, x as int, y as int, found, crop),
            decreases nx - x,
        {
            proof {
                lemma_cell_index(x as int, y as int, nx as int, ny as int);
            }
            let ghost seen = crop;
            if mask[y * nx + x] {
                assert(marked(mask@, nx as int, x as int, y as int));
                if found {
                    crop =
                    GridCrop {
                        x_start: if x < crop.x_start {
                            x
                        } else {
                            crop.x_start
                        },
                        x_end: if x + 1 > crop.x_end {
                            x + 1
                        } else {
                            crop.x_end
                        },
                        y_start: crop.y_start,
                        y_end: y + 1,
                    };
                    proof {
                        lemma_box_grows(mask@, nx as int, x as int, y as int, seen, crop);
                    }
                } else {
                    crop = GridCrop { x_start: x, x_end: x + 1, y_start: y, y_end: y + 1 };
                    found = true;
                    proof {
                        lemma_box_begins(mask@, nx as int, x as int, y as int, crop);
                    }
                }
            } else {
                proof {
                    lemma_box_stays(mask@, nx as int, x as int, y as int, found, crop);
                }
            }
            x += 1;
        }
        y += 1;
    }
    if found {
        Some(crop)
    } else {
        None
    }
}

/// Whether `outer` is `inner` with `pad` more cells on every side, as far as the
/// grid has them.
pub open spec fn is_padded(inner: GridCrop, pad: int, nx: int, ny: int, outer: GridCrop) -> bool {
    &&& outer.x_start == if inner.x_start <= pad { 0 } else { inner.x_start - pad }
    &&& outer.x_end == if nx <= inner.x_end + pad { nx } else { inner.x_end + pad }
    &&& outer.y_start == if inner.y_start <= pad { 0 } else { inner.y_start - pad }
    &&& outer.y_end == if ny <= inner.y_end + pad { ny } else { inner.y_end + pad }
}

/// Whether a rectangle is the whole grid.
pub open spec fn covers_grid(crop: GridCrop, nx: int, ny: int) -> bool {
    crop.x_start == 0 && crop.x_end == nx && crop.y_start == 0 && crop.y_end == ny
}

/// Whether `crop` is the box of the marked cells with `pad` more cells on every
/// side, as far as the grid has them.
pub open spec fn is_padded_box(
    mask: Seq<bool>,
    nx: int,
    ny: int,
    pad: int,
    crop: GridCrop,
) -> bool {
    exists|inner: GridCrop|
        is_marked_box(mask, nx, ny, inner) && #[trigger] is_padded(inner, pad, nx, ny, crop)
}

fn pad_crop(inner: GridCrop, pad: usize, nx: usize, ny: usize) -> (outer: GridCrop)
    requires
        inner.within(nx as int, ny as int),
    ensures
        is_padded(inner, pad as int, nx as int, ny as int, outer),
{
    GridCrop {
        x_start: if inner.x_start <= pad {
            0
        } else {
            inner.x_start - pad
        },
        x_end: if nx - inner.x_end <= pad {
            nx
        } else {
            inner.x_end + pad
        },
        y_start: if inner.y_start <= pad {
            0
        } else {
            inner.y_start - pad
        },
        y_end: if ny - inner.y_end <= pad {
            ny
        } else {
            inner.y_end + pad
        },
    }
}

fn is_whole_grid(crop: GridCrop, nx: usize, ny: usize) -> (whole: bool)
    ensures
        whole == covers_grid(crop, nx as int, ny as int),
{
    crop.x_start == 0 && crop.x_end == nx && crop.y_start == 0 && crop.y_end == ny
}

/// How a grid lies relative to a projected extent, from the marks of the cells
/// whose projected coordinates fall inside it. The coordinate arrays must hold
/// one value for each cell.
pub fn classify_projected_grid_intersection(
    nx: usize,
    ny: usize,
    projected_x_len: usize,
    projected_y_len: usize,
    inside: &[bool],
    pad_cells: usize,
) -> (intersection: Result<ProjectedGridIntersection, String>)
    requires
        nx * ny <= usize::MAX,
        projected_x_len == nx * ny && projected_y_len == nx * ny ==> inside@.len() == nx * ny,
    ensures
        match intersection {
            Err(message) => {
                &&& projected_x_len != nx * ny || projected_y_len != nx * ny
                &&& message@ == "projected crop inputs did not match surface grid size"@
            },
            Ok(found) => {
                &&& projected_x_len == nx * ny && projected_y_len == nx * ny
                &&& match found {
                    ProjectedGridIntersection::Empty => no_cell_marked(
                        inside@,
                        nx as int,
                        ny as int,
                    ),
                    ProjectedGridIntersection::Full => exists|crop: GridCrop|
                        #[trigger] is_padded_box(
                            inside@,
                            nx as int,
                            ny as int,
                            pad_cells as int,
                            crop,
                        ) && covers_grid(crop, nx as int, ny as int),
                    ProjectedGridIntersection::Crop(crop) => is_padded_box(
                        inside@,
                        nx as int,
                        ny as int,
                        pad_cells as int,
                        crop,
                    ) && !covers_grid(crop, nx as int, ny as int),
                }
            },
        },
{
    let expected_len = nx * ny;
    if projected_x_len != expected_len || projected_y_len != expected_len {
        return Err("projected crop inputs did not match surface grid size".to_owned());
    }
    match marked_box(inside, nx, ny) {
        None => Ok(ProjectedGridIntersection::Empty),
        Some(inner) => {
            let crop = pad_crop(inner, pad_cells, nx, ny);
            assert(is_padded_box(inside@, nx as int, ny as int, pad_cells as int, crop));
            if is_whole_grid(crop, nx, ny) {
                Ok(ProjectedGridIntersection::Full)
            } else {
                Ok(ProjectedGridIntersection::Crop(crop))
            }
        },
    }
}

/// The box of the cells of a layout that lie in geographic bounds, if any does.
pub fn crop_rect_for_layout(in_bounds: &[bool], nx: usize, ny: usize) -> (crop: Option<GridCrop>)
    requires
        nx * ny <= in_bounds@.len(),
    ensures
        match crop {
            Some(crop) => is_marked_box(in_bounds@, nx as int, ny as int, crop),
            None => no_cell_marked(in_bounds@, nx as int, ny as int),
        },
{
    marked_box(in_bounds, nx, ny)
}

/// The box to crop a surface to, for the marks of the cells that lie in
/// geographic bounds: none if the box is the whole grid, an error if no cell
/// lies in bounds.
pub fn crop_rect_for_bounds(in_bounds: &[bool], nx: usize, ny: usize) -> (crop: Result<
    Option<GridCrop>,
    String,
>)
    requires
        nx * ny <= in_bounds@.len(),
    ensures
        match crop {
            Err(message) => {
                &&& no_cell_marked(in_bounds@, nx as int, ny as int)
                &&& message@ == "requested crop produced an empty heavy-compute domain"@
            },
            Ok(None) => exists|whole: GridCrop|
                #[trigger] is_marked_box(in_bounds@, nx as int, ny as int, whole) && covers_grid(
                    whole,
                    nx as int,
                    ny as int,
                ),
            Ok(Some(crop)) => is_marked_box(in_bounds@, nx as int, ny as int, crop)
                && !covers_grid(crop, nx as int, ny as int),
        },
{
    match marked_box(in_bounds, nx, ny) {
        None => Err("requested crop produced an empty heavy-compute domain".to_owned()),
        Some(crop) => {
            if is_whole_grid(crop, nx, ny) {
                Ok(None)
            } else {
                Ok(Some(crop))
            }
        },
    }
}

/// There is only one box around the marked cells.
pub proof fn law_marked_box_is_unique(
    mask: Seq<bool>,
    nx: int,
    ny: int,
    a: GridCrop,
    b: GridCrop,
)
    requires
        is_marked_box(mask, nx, ny, a),
        is_marked_box(mask, nx, ny, b),
    ensures
        a == b,
{
}

/// There is only one box around the marked cells with a given padding.
pub proof fn law_padded_box_is_unique(
    mask: Seq<bool>,
    nx: int,
    ny: int,
    pad: int,
    a: GridCrop,
    b: GridCrop,
)
    requires
        is_padded_box(mask, nx, ny, pad, a),
        is_padded_box(mask, nx, ny, pad, b),
    ensures
        a == b,
{
    let inner_a = choose|inner: GridCrop|
        is_marked_box(mask, nx, ny, inner) && #[trigger] is_padded(inner, pad, nx, ny, a);
    let inner_b = choose|inner: GridCrop|
        is_marked_box(mask, nx, ny, inner) && #[trigger] is_padded(inner, pad, nx, ny, b);
    law_marked_box_is_unique(mask, nx, ny, inner_a, inner_b);
}

/// A padded box lies on the grid and holds every marked cell, and more padding
/// never makes it smaller.
pub proof fn law_padded_box_holds_marked_cells(
    mask: Seq<bool>,
    nx: int,
    ny: int,
    pad: int,
    more: int,
    crop: GridCrop,
    larger: GridCrop,
)
    requires
        0 <= pad <= more,
        is_padded_box(mask, nx, ny, pad, crop),
        is_padded_box(mask, nx, ny, more, larger),
    ensures
        crop.within(nx, ny),
        forall|x: int, y: int|
            0 <= x < nx && 0 <= y < ny && #[trigger] marked(mask, nx, x, y) ==> crop.holds(x, y),
        forall|x: int, y: int| #[trigger] crop.holds(x, y) ==> larger.holds(x, y),
{
    let a = choose|inner: GridCrop|
        is_marked_box(mask, nx, ny, inner) && #[trigger] is_padded(inner, pad, nx, ny, crop);
    let b = choose|inner: GridCrop|
        is_marked_box(mask, nx, ny, inner) && #[trigger] is_padded(inner, more, nx, ny, larger);
    law_marked_box_is_unique(mask, nx, ny, a, b);
}

/// A padded box is around some marked cell.
pub proof fn lemma_padded_box_marks_a_cell(
    mask: Seq<bool>,
    nx: int,
    ny: int,
    pad: int,
    crop: GridCrop,
)
    requires
        is_padded_box(mask, nx, ny, pad, crop),
    ensures
        !no_cell_marked(mask, nx, ny),
{
    let inner = choose|inner: GridCrop|
        is_marked_box(mask, nx, ny, inner) && #[trigger] is_padded(inner, pad, nx, ny, crop);
    let y = choose|y: int| 0 <= y < ny && #[trigger] marked(mask, nx, inner.x_start as int, y);
    assert(inner.holds(inner.x_start as int, y)) by {
        let x = choose|x: int| 0 <= x < nx && #[trigger] marked(mask, nx, x, inner.y_start as int);
        assert(inner.holds(x, inner.y_start as int));
    }
}

/// A padded box lies on the grid.
pub proof fn lemma_padded_box_is_within(
    mask: Seq<bool>,
    nx: int,
    ny: int,
    pad: int,
    crop: GridCrop,
)
    requires
        0 <= pad,
        is_padded_box(mask, nx, ny, pad, crop),
    ensures
        crop.within(nx, ny),
{
    let inner = choose|inner: GridCrop|
        is_marked_box(mask, nx, ny, inner) && #[trigger] is_padded(inner, pad, nx, ny, crop);
    assert(is_padded(inner, pad, nx, ny, crop));
}

} // verus!
