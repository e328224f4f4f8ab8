//! Rectangles of a row-major grid, and the cells that they cut out of a field.
use vstd::prelude::*;

verus! {

/// A rectangle of grid cells: columns `x_start..x_end` of rows
/// `y_start..y_end`.
#[derive(Debug, Clone, Copy, PartialEq, Eq, Structural)]
pub struct GridCrop {
    pub x_start: usize,
    pub x_end: usize,
    pub y_start: usize,
    pub y_end: usize,
}

/// How a grid lies relative to a projected map extent.
#[derive(Debug, Clone, Copy, PartialEq, Eq, Structural)]
pub enum ProjectedGridIntersection {
    Empty,
    Full,
    Crop(GridCrop),
}

impl GridCrop {
    /// Whether the ends do not lie before the starts.
    pub open spec fn ordered(self) -> bool {
        self.x_start <= self.x_end && self.y_start <= self.y_end
    }

    pub open spec fn spec_width(self) -> int {
        self.x_end - self.x_start
    }

    pub open spec fn spec_height(self) -> int {
        self.y_end - self.y_start
    }

    /// How many cells the rectangle has.
    pub open spec fn cell_count(self) -> int {
        self.spec_width() * self.spec_height()
    }

    /// Whether the rectangle lies on a grid of `nx` columns and `ny` rows.
    pub open spec fn within(self, nx: int, ny: int) -> bool {
        self.ordered() && self.x_end <= nx && self.y_end <= ny
    }

    /// Whether every row of the rectangle can be cut out of a field of `len`
    /// values in rows of `nx`, and the result fits in memory.
    pub open spec fn fits(self, nx: int, len: int) -> bool {
        &&& self.ordered()
        &&& self.cell_count() <= usize::MAX
        &&& self.y_start < self.y_end ==> (self.y_end - 1) * nx + self.x_end <= len
    }

    /// Whether the cell in column `x` of row `y` lies in the rectangle.
    pub open spec fn holds(self, x: int, y: int) -> bool {
        self.x_start <= x < self.x_end && self.y_start <= y < self.y_end
    }

    /// The number of columns.
    pub fn width(self) -> (width: usize)
        requires
            self.x_start <= self.x_end,
        ensures
            width == self.spec_width(),
    {
        self.x_end - self.x_start
    }

    /// The number of rows.
    pub fn height(self) -> (height: usize)
        requires
            self.y_start <= self.y_end,
        ensures
            height == self.spec_height(),
    {
        self.y_end - self.y_start
    }
}

/// Columns `x0..x1` of rows `y0..y1` of a field, row after row. The rows are
/// `nx` values long and begin at `offset`.
pub open spec fn cut_rows<T>(
    values: Seq<T>,
    offset: int,
    nx: int,
    x0: int,
    x1: int,
    y0: int,
    y1: int,
) -> Seq<T>
    decreases y1 - y0,
{
    if y1 <= y0 {
        Seq::empty()
    } else {
        cut_rows(values, offset, nx, x0, x1, y0, y1 - 1) + values.subrange(
            offset + (y1 - 1) * nx + x0,
            offset + (y1 - 1) * nx + x1,
        )
    }
}

/// The cells of a rectangle of the plane that begins at `offset`, row after row.
pub open spec fn cropped_at<T>(values: Seq<T>, offset: int, nx: int, crop: GridCrop) -> Seq<T> {
    cut_rows(
        values,
        offset,
        nx,
        crop.x_start as int,
        crop.x_end as int,
        crop.y_start as int,
        crop.y_end as int,
    )
}

/// The cells of a rectangle, row after row.
pub open spec fn cropped<T>(values: Seq<T>, nx: int, crop: GridCrop) -> Seq<T> {
    cropped_at(values, 0, nx, crop)
}

/// The cells of a rectangle on each of `level_count` planes of `nx * ny` values,
/// plane after plane.
pub open spec fn cropped_levels<T>(
    values: Seq<T>,
    nx: int,
    ny: int,
    level_count: int,
    crop: GridCrop,
) -> Seq<T>
    decreases level_count,
{
    if level_count <= 0 {
        Seq::empty()
    } else {
        cropped_levels(values, nx, ny, level_count - 1, crop) + cropped_at(
            values,
            (level_count - 1) * (nx * ny),
            nx,
            crop,
        )
    }
}

/// A row below row `rows` begins and ends no later than the last row does.
proof fn lemma_rows_below(row: int, rows: int, nx: int)
    by (nonlinear_arith)
    requires
        0 <= row < rows,
        0 <= nx,
    ensures
        0 <= row * nx <= (rows - 1) * nx,
        (row + 1) * nx <= rows * nx,
        row * nx + nx == (row + 1) * nx,
{
}

/// The number of cells that rows `y0..y1` of a cut hold.
pub proof fn lemma_cut_rows_len<T>(
    values: Seq<T>,
    offset: int,
    nx: int,
    x0: int,
    x1: int,
    y0: int,
    y1: int,
)
    requires
        0 <= nx,
        0 <= offset,
        0 <= x0 <= x1,
        0 <= y0 <= y1,
        y0 < y1 ==> offset + (y1 - 1) * nx + x1 <= values.len(),
    ensures
        cut_rows(values, offset, nx, x0, x1, y0, y1).len() == (y1 - y0) * (x1 - x0),
    decreases y1 - y0,
{
    if y0 < y1 {
        assert(0 <= (y1 - 1) * nx && (y1 - 1 - 1) * nx <= (y1 - 1) * nx) by (nonlinear_arith)
            requires
                0 <= y0 < y1,
                0 <= nx,
        ;
        lemma_cut_rows_len(values, offset, nx, x0, x1, y0, y1 - 1);
        assert((y1 - y0) * (x1 - x0) == (y1 - 1 - y0) * (x1 - x0) + (x1 - x0)) by (nonlinear_arith);
    } else {
        assert((y1 - y0) * (x1 - x0) == 0) by (nonlinear_arith)
            requires
                y1 == y0,
        ;
    }
}

/// Appends `values[start..end]` to `out`.
pub fn append_range<T: Copy>(out: &mut Vec<T>, values: &[T], start: usize, end: usize)
    requires
        start <= end <= values@.len(),
    ensures
        final(out)@ == old(out)@ + values@.subrange(start as int, end as int),
{
    let mut i: usize = start;
    while i < end
        invariant
            start <= i <= end <= values@.len(),
            out@ == old(out)@ + values@.subrange(start as int, i as int),
        decreases end - i,
    {
        out.push(values[i]);
        i += 1;
        assert(values@.subrange(start as int, i as int) =~= values@.subrange(
            start as int,
            i - 1,
        ).push(values@[i - 1]));
    }
}

/// Appends the cells of a rectangle of the plane that begins at `offset`.
fn append_crop<T: Copy>(
    out: &mut Vec<T>,
    values: &[T],
    offset: usize,
    source_nx: usize,
    crop: GridCrop,
)
    requires
        crop.ordered(),
        crop.y_start < crop.y_end ==> offset + (crop.y_end - 1) * source_nx + crop.x_end
            <= values@.len(),
    ensures
        final(out)@ == old(out)@ + cropped_at(values@, offset as int, source_nx as int, crop),
{
    let len: usize = values.len();
    let mut y: usize = crop.y_start;
    while y < crop.y_end
        invariant
            len == values@.len(),
            crop.ordered(),
            offset + (crop.y_end - 1) * source_nx + crop.x_end <= len || crop.y_start == crop.y_end,
            crop.y_start <= y <= crop.y_end,
            out@ =~= old(out)@ + cut_rows(
                values@,
                offset as int,
                source_nx as int,
                crop.x_start as int,
                crop.x_end as int,
                crop.y_start as int,
                y as int,
            ),
        decreases crop.y_end - y,
    {
        proof {
            lemma_rows_below(y as int, crop.y_end as int, source_nx as int);
        }
        let row_start = offset + y * source_nx + crop.x_start;
        let row_end = row_start + crop.width();
        append_range(out, values, row_start, row_end);
        y += 1;
    }
}

/// The cells of a rectangle of a field in rows of `source_nx`, row after row.
pub fn crop_2d_values<T: Copy>(values: &[T], source_nx: usize, crop: GridCrop) -> (out: Vec<T>)
    requires
        crop.fits(source_nx as int, values@.len() as int),
    ensures
        out@ == cropped(values@, source_nx as int, crop),
        out@.len() == crop.cell_count(),
{
    let mut out: Vec<T> = Vec::new();
    append_crop(&mut out, values, 0, source_nx, crop);
    proof {
        lemma_cropped_len(values@, source_nx as int, crop);
    }
    out
}

/// A crop has as many values as the rectangle has cells.
pub proof fn lemma_cropped_len<T>(values: Seq<T>, nx: int, crop: GridCrop)
    requires
        0 <= nx,
        crop.fits(nx, values.len() as int),
    ensures
        cropped(values, nx, crop).len() == crop.cell_count(),
{
    lemma_cut_rows_len(
        values,
        0,
        nx,
        crop.x_start as int,
        crop.x_end as int,
        crop.y_start as int,
        crop.y_end as int,
    );
    assert(crop.spec_height() * crop.spec_width() == crop.spec_width() * crop.spec_height())
        by (nonlinear_arith);
}

/// The cells of an optional field, if there is one.
pub fn crop_optional_2d_values<T: Copy>(
    values: &Option<Vec<T>>,
    source_nx: usize,
    crop: GridCrop,
) -> (out: Option<Vec<T>>)
    requires
        values matches Some(field) ==> crop.fits(source_nx as int, field@.len() as int),
    ensures
        match (*values, out) {
            (Some(field), Some(cut)) => cut@ == cropped(field@, source_nx as int, crop),
            (None, None) => true,
            _ => false,
        },
{
    match values {
        Some(field) => Some(crop_2d_values(field.as_slice(), source_nx, crop)),
        None => None,
    }
}

/// The columns `x_start..x_end` of a window that holds only the rows
/// `y_start..y_end` of a grid.
pub fn crop_window_x_values<T: Copy>(
    values: &[T],
    source_nx: usize,
    crop: GridCrop,
) -> (out: Vec<T>)
    requires
        crop.ordered(),
        crop.cell_count() <= usize::MAX,
        crop.y_start < crop.y_end ==> (crop.spec_height() - 1) * source_nx + crop.x_end
            <= values@.len(),
    ensures
        out@ == cut_rows(
            values@,
            0,
            source_nx as int,
            crop.x_start as int,
            crop.x_end as int,
            0,
            crop.spec_height(),
        ),
{
    let mut out: Vec<T> = Vec::new();
    let window = GridCrop { y_start: 0, y_end: crop.height(), ..crop };
    append_crop(&mut out, values, 0, source_nx, window);
    out
}

/// Whether the rectangle can be cut out of each of `level_count` planes of
/// `nx * ny` values that stand one after the other in `len` values.
pub open spec fn fits_levels(
    crop: GridCrop,
    nx: int,
    ny: int,
    level_count: int,
    len: int,
) -> bool {
    &&& crop.ordered()
    &&& nx * ny <= usize::MAX
    &&& crop.cell_count() * level_count <= usize::MAX
    &&& crop.y_start < crop.y_end && 0 < level_count ==> (level_count - 1) * (nx * ny) + (
    crop.y_end - 1) * nx + crop.x_end <= len
}

/// The cells of a rectangle on each of `level_count` planes, plane after plane.
pub fn crop_3d_values<T: Copy>(
    values: &[T],
    source_nx: usize,
    source_ny: usize,
    level_count: usize,
    crop: GridCrop,
) -> (out: Vec<T>)
    requires
        fits_levels(
            crop,
            source_nx as int,
            source_ny as int,
            level_count as int,
            values@.len() as int,
        ),
    ensures
        out@ == cropped_levels(
            values@,
            source_nx as int,
            source_ny as int,
            level_count as int,
            crop,
        ),
{
    let source_n2d = source_nx * source_ny;
    let len: usize = values.len();
    let mut out: Vec<T> = Vec::new();
    let mut level: usize = 0;
    if crop.y_start == crop.y_end {
        proof {
            lemma_empty_crop_of_levels(
                values@,
                source_nx as int,
                source_ny as int,
                level_count as int,
                crop,
            );
        }
        return out;
    }
    while level < level_count
        invariant
            level <= level_count,
            len == values@.len(),
            source_n2d == source_nx * source_ny,
            crop.ordered(),
            crop.y_start < crop.y_end,
            0 < level_count ==> (level_count - 1) * source_n2d + (crop.y_end - 1) * source_nx
                + crop.x_end <= len,
            out@ == cropped_levels(
                values@,
                source_nx as int,
                source_ny as int,
                level as int,
                crop,
            ),
        decreases level_count - level,
    {
        proof {
            lemma_rows_below(level as int, level_count as int, source_n2d as int);
            assert(0 <= (crop.y_end - 1) * source_nx) by (nonlinear_arith)
                requires
                    0 <= crop.y_start < crop.y_end,
                    0 <= source_nx,
            ;
        }
        append_crop(&mut out, values, level * source_n2d, source_nx, crop);
        level += 1;
    }
    out
}

proof fn lemma_empty_crop_of_levels<T>(
    values: Seq<T>,
    nx: int,
    ny: int,
    level_count: int,
    crop: GridCrop,
)
    requires
        crop.y_start == crop.y_end,
    ensures
        cropped_levels(values, nx, ny, level_count, crop) == Seq::<T>::empty(),
    decreases level_count,
{
    if level_count > 0 {
        lemma_empty_crop_of_levels(values, nx, ny, level_count - 1, crop);
    }
}

/// Every cell of a crop is the cell of the source at the same place.
pub proof fn law_cropped_cell<T>(values: Seq<T>, nx: int, crop: GridCrop, x: int, y: int)
    requires
        0 <= nx,
        crop.fits(nx, values.len() as int),
        crop.holds(x, y),
    ensures
        cropped(values, nx, crop)[(y - crop.y_start) * crop.spec_width() + (x - crop.x_start)]
            == values[y * nx + x],
{
    lemma_cut_cell(
        values,
        nx,
        crop.x_start as int,
        crop.x_end as int,
        crop.y_start as int,
        crop.y_end as int,
        x,
        y,
    );
}

proof fn lemma_cut_cell<T>(
    values: Seq<T>,
    nx: int,
    x0: int,
    x1: int,
    y0: int,
    y1: int,
    x: int,
    y: int,
)
    requires
        0 <= nx,
        0 <= x0 <= x < x1,
        0 <= y0 <= y < y1,
        (y1 - 1) * nx + x1 <= values.len(),
    ensures
        0 <= (y - y0) * (x1 - x0) + (x - x0) < cut_rows(values, 0, nx, x0, x1, y0, y1).len(),
        cut_rows(values, 0, nx, x0, x1, y0, y1)[(y - y0) * (x1 - x0) + (x - x0)] == values[y * nx
            + x],
    decreases y1 - y0,
{
    let w = x1 - x0;
    let k = (y - y0) * w + (x - x0);
    lemma_rows_below(y, y1, nx);
    lemma_rows_below(y - y0, y1 - y0, w);
    lemma_cut_rows_len(values, 0, nx, x0, x1, y0, y1);
    let last = values.subrange((y1 - 1) * nx + x0, (y1 - 1) * nx + x1);
    if y0 < y1 - 1 {
        lemma_rows_below(y1 - 2, y1, nx);
        lemma_cut_rows_len(values, 0, nx, x0, x1, y0, y1 - 1);
    } else {
        assert((y1 - 1 - y0) * w == 0) by (nonlinear_arith)
            requires
                y1 - 1 - y0 == 0,
        ;
    }
    if y == y1 - 1 {
        assert(k == (y1 - 1 - y0) * w + (x - x0));
        assert(cut_rows(values, 0, nx, x0, x1, y0, y1)[k] == last[x - x0]);
    } else {
        lemma_cut_cell(values, nx, x0, x1, y0, y1 - 1, x, y);
    }
}

/// A crop of a volume of `level_count` planes has as many values as the
/// rectangle has cells on each of them.
pub proof fn lemma_cropped_levels_len<T>(
    values: Seq<T>,
    nx: int,
    ny: int,
    level_count: int,
    crop: GridCrop,
)
    requires
        0 <= nx,
        0 <= ny,
        0 <= level_count,
        crop.within(nx, ny),
        values.len() == nx * ny * level_count,
    ensures
        cropped_levels(values, nx, ny, level_count, crop).len() == crop.spec_width()
            * crop.spec_height() * level_count,
{
    lemma_leading_levels_len(values, nx, ny, level_count, level_count, crop);
}

proof fn lemma_leading_levels_len<T>(
    values: Seq<T>,
    nx: int,
    ny: int,
    count: int,
    level_count: int,
    crop: GridCrop,
)
    requires
        0 <= nx,
        0 <= ny,
        0 <= count <= level_count,
        crop.within(nx, ny),
        values.len() == nx * ny * level_count,
    ensures
        cropped_levels(values, nx, ny, count, crop).len() == crop.spec_width() * crop.spec_height()
            * count,
    decreases count,
{
    let cells = crop.spec_width() * crop.spec_height();
    if count > 0 {
        lemma_leading_levels_len(values, nx, ny, count - 1, level_count, crop);
        let n2d = nx * ny;
        let offset = (count - 1) * n2d;
        assert(0 <= n2d) by (nonlinear_arith)
            requires
                0 <= nx,
                0 <= ny,
                n2d == nx * ny,
        ;
        assert(0 <= offset && offset + n2d <= n2d * level_count) by (nonlinear_arith)
            requires
                0 < count <= level_count,
                0 <= n2d,
                offset == (count - 1) * n2d,
        ;
        if crop.y_start < crop.y_end {
            assert((crop.y_end - 1) * nx + nx <= n2d) by (nonlinear_arith)
                requires
                    0 < crop.y_end <= ny,
                    0 <= nx,
                    n2d == nx * ny,
            ;
        }
        lemma_cut_rows_len(
            values,
            offset,
            nx,
            crop.x_start as int,
            crop.x_end as int,
            crop.y_start as int,
            crop.y_end as int,
        );
        assert(crop.spec_height() * crop.spec_width() == cells) by (nonlinear_arith)
            requires
                cells == crop.spec_width() * crop.spec_height(),
        ;
        assert(cells * count == cells * (count - 1) + cells) by (nonlinear_arith);
    } else {
        assert(cells * count == 0) by (nonlinear_arith)
            requires
                count == 0,
        ;
    }
}

} // verus!
