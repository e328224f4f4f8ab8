//! Row rotation: bringing the rows of a global grid into ascending longitude.
//!
//! Longitudes are compared outside of this module. It is handed, for each cell,
//! whether the normalised longitude falls from the cell before it in the row.
use crate::gridded::crop;
use crate::gridded::crop::GridCrop;
use vstd::prelude::*;

verus! {

/// A row rotated to the left by `by` cells.
pub open spec fn rotated_row<T>(row: Seq<T>, by: int) -> Seq<T> {
    row.skip(by) + row.take(by)
}

/// Row `row` of a field in rows of `nx`.
pub open spec fn row_of<T>(values: Seq<T>, nx: int, row: int) -> Seq<T> {
    values.subrange(row * nx, row * nx + nx)
}

/// A field with row `row` rotated to the left by `by` cells.
pub open spec fn with_row_rotated<T>(values: Seq<T>, nx: int, row: int, by: int) -> Seq<T> {
    values.take(row * nx) + rotated_row(row_of(values, nx, row), by) + values.skip(row * nx + nx)
}

/// A field with each row rotated to the left by the wrap of that row. A row
/// without a wrap, or with the wrap 0, stays as it is.
pub open spec fn rows_rotated<T>(values: Seq<T>, nx: int, wraps: Seq<usize>) -> Seq<T>
    decreases wraps.len(),
{
    if wraps.len() == 0 {
        values
    } else {
        let before = rows_rotated(values, nx, wraps.drop_last());
        if wraps.last() == 0 {
            before
        } else {
            with_row_rotated(before, nx, wraps.len() - 1, wraps.last() as int)
        }
    }
}

/// Whether every row that is to be rotated is there, and its wrap lies in it.
pub open spec fn wraps_fit(wraps: Seq<usize>, nx: int, len: int) -> bool {
    forall|r: int|
        0 <= r < wraps.len() && #[trigger] wraps[r] != 0 ==> wraps[r] <= nx && r * nx + nx <= len
}

proof fn lemma_row_rotation_len<T>(values: Seq<T>, nx: int, wraps: Seq<usize>)
    requires
        0 <= nx,
        wraps_fit(wraps, nx, values.len() as int),
    ensures
        rows_rotated(values, nx, wraps).len() == values.len(),
    decreases wraps.len(),
{
    if wraps.len() > 0 {
        let init = wraps.drop_last();
        assert forall|r: int| 0 <= r < init.len() && #[trigger] init[r] != 0 implies init[r] <= nx
            && r * nx + nx <= values.len() by {
            assert(wraps[r] == init[r]);
        }
        lemma_row_rotation_len(values, nx, init);
        let last = wraps.len() - 1;
        assert(wraps[last] == wraps.last());
        assert(0 <= last * nx) by (nonlinear_arith)
            requires
                0 <= last,
                0 <= nx,
        ;
    }
}

/// Rotates `values[start..start + nx]` to the left by `by` cells.
fn rotate_range_left<T: Copy>(values: &mut Vec<T>, start: usize, nx: usize, by: usize)
    requires
        start + nx <= old(values)@.len(),
        by <= nx,
    ensures
        final(values)@ == old(values)@.take(start as int) + rotated_row(
            old(values)@.subrange(start as int, start + nx),
            by as int,
        ) + old(values)@.skip(start + nx),
{
    let ghost source = values@;
    let len: usize = values.len();
    let mut row: Vec<T> = Vec::new();
    crop::append_range(&mut row, values.as_slice(), start + by, start + nx);
    crop::append_range(&mut row, values.as_slice(), start, start + by);
    let ghost rotated = rotated_row(source.subrange(start as int, start + nx), by as int);
    assert(row@ =~= rotated);
    let mut i: usize = 0;
    while i < nx
        invariant
            i <= nx,
            row@.len() == nx,
            row@ == rotated,
            len == source.len(),
            start + nx <= len,
            values@.len() == source.len(),
            forall|k: int| 0 <= k < i ==> values@[start + k] == rotated[k],
            forall|k: int| 0 <= k < start || start + i <= k < source.len() ==> values@[k]
                == source[k],
        decreases nx - i,
    {
        values[start + i] = row[i];
        i += 1;
    }
    assert(values@ =~= source.take(start as int) + rotated + source.skip(start + nx)) by {
        assert forall|k: int| 0 <= k < values@.len() implies values@[k] == (source.take(
            start as int,
        ) + rotated + source.skip(start + nx))[k] by {
            if start <= k < start + nx {
                assert(values@[start + (k - start)] == rotated[k - start]);
            }
        }
    }
}

/// Rotates each row of a field to the left by the wrap of that row.
pub fn rotate_value_rows_left<T: Copy>(values: &mut Vec<T>, nx: usize, wraps: &[usize])
    requires
        wraps_fit(wraps@, nx as int, old(values)@.len() as int),
    ensures
        final(values)@ == rows_rotated(old(values)@, nx as int, wraps@),
        final(values)@.len() == old(values)@.len(),
{
    let ghost source = values@;
    let len: usize = values.len();
    let mut row: usize = 0;
    assert(wraps@.take(0) =~= Seq::<usize>::empty());
    while row < wraps.len()
        invariant
            row <= wraps@.len(),
            len == source.len(),
            values@.len() == len,
            wraps_fit(wraps@, nx as int, len as int),
            values@ == rows_rotated(source, nx as int, wraps@.take(row as int)),
        decreases wraps.len() - row,
    {
        let wrap = wraps[row];
        proof {
            let next = wraps@.take(row + 1);
            assert(next.drop_last() =~= wraps@.take(row as int));
            assert(next.last() == wraps@[row as int]);
            assert(wraps@[row as int] != 0 ==> row * nx + nx <= len);
            assert(0 <= row * nx) by (nonlinear_arith)
                requires
                    0 <= row,
                    0 <= nx,
            ;
        }
        if wrap != 0 {
            rotate_range_left(values, row * nx, nx, wrap);
        }
        row += 1;
    }
    assert(wraps@.take(row as int) =~= wraps@);
}

/// The wraps of the rows `y_start..y_end`, each taken modulo `nx`; a row that
/// has no wrap counts as 0.
pub open spec fn window_wraps(
    longitude_row_wraps: Seq<usize>,
    nx: int,
    y_start: int,
    y_end: int,
) -> Seq<usize> {
    Seq::new(
        (y_end - y_start) as nat,
        |k: int|
            if y_start + k < longitude_row_wraps.len() {
                (longitude_row_wraps[y_start + k] as int % nx) as usize
            } else {
                0
            },
    )
}

/// Rotates the rows of a window that holds only rows `y_start..y_end` of a grid
/// by the wraps that these rows have in the grid. A window whose size does not
/// match is left alone.
pub fn rotate_window_values_to_normalized_longitude_rows<T: Copy>(
    values: &mut Vec<T>,
    nx: usize,
    y_start: usize,
    y_end: usize,
    longitude_row_wraps: &[usize],
)
    requires
        nx > 0 && y_start <= y_end ==> nx * (y_end - y_start) <= usize::MAX,
    ensures
        final(values)@ == if nx == 0 || y_start > y_end || old(values)@.len() != nx * (y_end
            - y_start) {
            old(values)@
        } else {
            rows_rotated(
                old(values)@,
                nx as int,
                window_wraps(longitude_row_wraps@, nx as int, y_start as int, y_end as int),
            )
        },
{
    if nx == 0 || y_start > y_end || values.len() != nx * (y_end - y_start) {
        return ;
    }
    let mut wraps: Vec<usize> = Vec::new();
    let mut y: usize = y_start;
    while y < y_end
        invariant
            nx > 0,
            y_start <= y <= y_end,
            wraps@ =~= window_wraps(
                longitude_row_wraps@,
                nx as int,
                y_start as int,
                y_end as int,
            ).take(y - y_start),
        decreases y_end - y,
    {
        let wrap: usize = if y < longitude_row_wraps.len() {
            longitude_row_wraps[y] % nx
        } else {
            0
        };
        wraps.push(wrap);
        y += 1;
    }
    let ghost all = window_wraps(longitude_row_wraps@, nx as int, y_start as int, y_end as int);
    proof {
        assert(all.take(all.len() as int) =~= all);
        lemma_window_wraps_fit(
            longitude_row_wraps@,
            nx as int,
            y_start as int,
            y_end as int,
            values@.len() as int,
        );
    }
    rotate_value_rows_left(values, nx, wraps.as_slice());
}

proof fn lemma_window_wraps_fit(wraps: Seq<usize>, nx: int, y_start: int, y_end: int, len: int)
    requires
        0 < nx <= usize::MAX,
        0 <= y_start <= y_end,
        len == nx * (y_end - y_start),
    ensures
        wraps_fit(window_wraps(wraps, nx, y_start, y_end), nx, len),
{
    let all = window_wraps(wraps, nx, y_start, y_end);
    assert forall|r: int| 0 <= r < all.len() && #[trigger] all[r] != 0 implies all[r] <= nx && r
        * nx + nx <= len by {
        assert(r * nx + nx <= nx * (y_end - y_start)) by (nonlinear_arith)
            requires
                0 <= r < y_end - y_start,
                0 < nx,
        ;
    }
}

/// The first cell of a row at which the longitude falls, if there is one.
pub open spec fn first_fall(falls: Seq<bool>) -> Option<int>
    decreases falls.len(),
{
    if falls.len() <= 1 {
        None
    } else {
        match first_fall(falls.drop_last()) {
            Some(k) => Some(k),
            None => if falls.last() {
                Some(falls.len() - 1)
            } else {
                None
            },
        }
    }
}

/// The first cell of a row at which the longitude falls, if there is one. The
/// first cell has none before it and never counts.
pub fn first_longitude_wrap(falls: &[bool]) -> (wrap: Option<usize>)
    ensures
        match wrap {
            Some(k) => {
                &&& 1 <= k < falls@.len()
                &&& falls@[k as int]
                &&& forall|j: int| 1 <= j < k ==> !#[trigger] falls@[j]
                &&& first_fall(falls@) == Some(k as int)
            },
            None => {
                &&& forall|j: int| 1 <= j < falls@.len() ==> !#[trigger] falls@[j]
                &&& first_fall(falls@) is None
            },
        },
{
    let mut k: usize = 1;
    while k < falls.len()
        invariant
            1 <= k,
            k <= falls@.len() || falls@.len() == 0,
            forall|j: int| 1 <= j < k && j < falls@.len() ==> !#[trigger] falls@[j],
        decreases falls.len() - k,
    {
        if falls[k] {
            proof {
                lemma_first_fall(falls@, k as int);
            }
            return Some(k);
        }
        k += 1;
    }
    proof {
        lemma_no_fall(falls@);
    }
    None
}

proof fn lemma_no_fall(falls: Seq<bool>)
    requires
        forall|j: int| 1 <= j < falls.len() ==> !#[trigger] falls[j],
    ensures
        first_fall(falls) is None,
    decreases falls.len(),
{
    if falls.len() > 1 {
        lemma_no_fall(falls.drop_last());
        assert(!falls[falls.len() - 1]);
    }
}

proof fn lemma_first_fall(falls: Seq<bool>, k: int)
    requires
        1 <= k < falls.len(),
        falls[k],
        forall|j: int| 1 <= j < k ==> !#[trigger] falls[j],
    ensures
        first_fall(falls) == Some(k),
    decreases falls.len(),
{
    if k < falls.len() - 1 {
        lemma_first_fall(falls.drop_last(), k);
    } else {
        lemma_no_fall(falls.drop_last());
    }
}

/// The wrap of each row: where its longitude first falls, or 0.
pub open spec fn row_wraps(falls: Seq<bool>, nx: int, ny: int) -> Seq<usize> {
    if nx == 0 || ny == 0 {
        Seq::empty()
    } else {
        Seq::new(
            ny as nat,
            |r: int|
                match first_fall(row_of(falls, nx, r)) {
                    Some(k) => k as usize,
                    None => 0,
                },
        )
    }
}

/// The wrap of each row of a grid: where its longitude first falls, or 0.
pub fn normalized_longitude_row_wraps(falls: &[bool], nx: usize, ny: usize) -> (wraps: Vec<usize>)
    requires
        nx * ny <= falls@.len(),
    ensures
        wraps@ == row_wraps(falls@, nx as int, ny as int),
        forall|r: int| 0 <= r < wraps@.len() ==> #[trigger] wraps@[r] < nx,
{
    let mut wraps: Vec<usize> = Vec::new();
    if nx == 0 || ny == 0 {
        assert(wraps@ =~= row_wraps(falls@, nx as int, ny as int));
        return wraps;
    }
    let len: usize = falls.len();
    let mut row: usize = 0;
    while row < ny
        invariant
            0 < nx,
            0 < ny,
            row <= ny,
            len == falls@.len(),
            nx * ny <= len,
            wraps@ =~= row_wraps(falls@, nx as int, ny as int).take(row as int),
            forall|r: int| 0 <= r < wraps@.len() ==> #[trigger] wraps@[r] < nx,
        decreases ny - row,
    {
        proof {
            assert(0 <= row * nx && row * nx + nx <= nx * ny) by (nonlinear_arith)
                requires
                    0 <= row < ny,
                    0 < nx,
            ;
        }
        let start = row * nx;
        let end = start + nx;
        let wrap: usize = match first_longitude_wrap(&falls[start..end]) {
            Some(k) => k,
            None => 0,
        };
        wraps.push(wrap);
        row += 1;
    }
    assert(row_wraps(falls@, nx as int, ny as int).take(row as int) =~= row_wraps(
        falls@,
        nx as int,
        ny as int,
    ));
    wraps
}

proof fn lemma_row_wraps_fit(wraps: Seq<usize>, nx: int, ny: int, len: int)
    requires
        0 < nx,
        wraps.len() == ny,
        nx * ny <= len,
        forall|r: int| 0 <= r < wraps.len() ==> #[trigger] wraps[r] < nx,
    ensures
        wraps_fit(wraps, nx, len),
{
    assert forall|r: int| 0 <= r < wraps.len() && #[trigger] wraps[r] != 0 implies wraps[r] <= nx
        && r * nx + nx <= len by {
        assert(r * nx + nx <= nx * ny) by (nonlinear_arith)
            requires
                0 <= r < ny,
                0 < nx,
        ;
    }
}

/// Rotates latitudes and longitudes so that the longitudes of each row ascend
/// from its wrap, and tells the wraps.
pub fn normalize_longitude_rows<T: Copy>(
    lat: &mut Vec<T>,
    lon: &mut Vec<T>,
    falls: &[bool],
    nx: usize,
    ny: usize,
) -> (wraps: Vec<usize>)
    requires
        nx * ny <= falls@.len(),
        nx * ny <= old(lat)@.len(),
        nx * ny <= old(lon)@.len(),
    ensures
        wraps@ == row_wraps(falls@, nx as int, ny as int),
        final(lat)@ == rows_rotated(old(lat)@, nx as int, wraps@),
        final(lon)@ == rows_rotated(old(lon)@, nx as int, wraps@),
{
    let wraps = normalized_longitude_row_wraps(falls, nx, ny);
    if nx == 0 || ny == 0 {
        return wraps;
    }
    proof {
        lemma_row_wraps_fit(wraps@, nx as int, ny as int, lat@.len() as int);
        lemma_row_wraps_fit(wraps@, nx as int, ny as int, lon@.len() as int);
    }
    rotate_value_rows_left(lat, nx, wraps.as_slice());
    rotate_value_rows_left(lon, nx, wraps.as_slice());
    wraps
}

/// Rotates the rows of a decoded field by the wraps of its grid. A field whose
/// size does not match the grid is left alone.
pub fn rotate_values_to_normalized_longitude_rows<T: Copy>(
    values: &mut Vec<T>,
    falls: &[bool],
    nx: usize,
    ny: usize,
)
    requires
        nx * ny <= usize::MAX,
        nx * ny <= falls@.len(),
    ensures
        final(values)@ == if nx == 0 || ny == 0 || old(values)@.len() != nx * ny {
            old(values)@
        } else {
            rows_rotated(old(values)@, nx as int, row_wraps(falls@, nx as int, ny as int))
        },
{
    if nx == 0 || ny == 0 || values.len() != nx * ny {
        return ;
    }
    let wraps = normalized_longitude_row_wraps(falls, nx, ny);
    proof {
        lemma_row_wraps_fit(wraps@, nx as int, ny as int, values@.len() as int);
    }
    rotate_value_rows_left(values, nx, wraps.as_slice());
}

/// Each row of a rotated field is the row of the field, rotated by its wrap.
pub proof fn law_row_of_rotated_field<T>(values: Seq<T>, nx: int, wraps: Seq<usize>, row: int)
    requires
        0 <= nx,
        0 <= row,
        row * nx + nx <= values.len(),
        wraps_fit(wraps, nx, values.len() as int),
    ensures
        row_of(rows_rotated(values, nx, wraps), nx, row) == if row < wraps.len() {
            rotated_row(row_of(values, nx, row), wraps[row] as int)
        } else {
            row_of(values, nx, row)
        },
    decreases wraps.len(),
{
    assert(0 <= row * nx) by (nonlinear_arith)
        requires
            0 <= row,
            0 <= nx,
    ;
    if wraps.len() > 0 {
        let init = wraps.drop_last();
        let last = wraps.len() - 1;
        assert forall|r: int| 0 <= r < init.len() && #[trigger] init[r] != 0 implies init[r] <= nx
            && r * nx + nx <= values.len() by {
            assert(wraps[r] == init[r]);
        }
        law_row_of_rotated_field(values, nx, init, row);
        lemma_row_rotation_len(values, nx, init);
        let before = rows_rotated(values, nx, init);
        assert(wraps[last] == wraps.last());
        if wraps.last() != 0 {
            let after = with_row_rotated(before, nx, last, wraps.last() as int);
            assert(0 <= last * nx) by (nonlinear_arith)
                requires
                    0 <= last,
                    0 <= nx,
            ;
            if row == last {
                assert(row_of(after, nx, row) =~= rotated_row(
                    row_of(before, nx, row),
                    wraps.last() as int,
                ));
            } else {
                if row < last {
                    assert(row * nx + nx <= last * nx) by (nonlinear_arith)
                        requires
                            row < last,
                            0 <= nx,
                    ;
                } else {
                    assert(last * nx + nx <= row * nx) by (nonlinear_arith)
                        requires
                            last < row,
                            0 <= nx,
                    ;
                }
                assert(row_of(after, nx, row) =~= row_of(before, nx, row));
            }
        } else {
            assert(rotated_row(row_of(values, nx, row), 0) =~= row_of(values, nx, row));
        }
    }
}

/// Two fields whose rows agree have the same cuts.
proof fn lemma_cuts_agree<T>(
    a: Seq<T>,
    b: Seq<T>,
    nx: int,
    x0: int,
    x1: int,
    y0: int,
    y1: int,
)
    requires
        0 <= nx,
        0 <= x0 <= x1 <= nx,
        0 <= y0 <= y1,
        y1 * nx <= a.len(),
        (y1 - y0) * nx <= b.len(),
        forall|y: int| y0 <= y < y1 ==> row_of(a, nx, y) == #[trigger] row_of(b, nx, y - y0),
    ensures
        crop::cut_rows(a, 0, nx, x0, x1, y0, y1) == crop::cut_rows(b, 0, nx, x0, x1, 0, y1 - y0),
    decreases y1 - y0,
{
    if y0 < y1 {
        assert(0 <= (y1 - 1) * nx && (y1 - 1) * nx + nx == y1 * nx && 0 <= (y1 - 1 - y0) * nx && (
        y1 - 1 - y0) * nx + nx == (y1 - y0) * nx) by (nonlinear_arith)
            requires
                0 <= y0 < y1,
                0 <= nx,
        ;
        lemma_cuts_agree(a, b, nx, x0, x1, y0, y1 - 1);
        assert(row_of(a, nx, y1 - 1) == row_of(b, nx, y1 - 1 - y0));
        assert(a.subrange((y1 - 1) * nx + x0, (y1 - 1) * nx + x1) =~= row_of(
            a,
            nx,
            y1 - 1,
        ).subrange(x0, x1));
        assert(b.subrange((y1 - 1 - y0) * nx + x0, (y1 - 1 - y0) * nx + x1) =~= row_of(
            b,
            nx,
            y1 - 1 - y0,
        ).subrange(x0, x1));
    }
}

/// Rotating only the rows of a crop and cutting its columns out of that window
/// gives what rotating the whole field and cropping it gives.
pub proof fn law_window_rotation_matches_full_rotation<T>(
    values: Seq<T>,
    nx: int,
    wraps: Seq<usize>,
    crop: GridCrop,
)
    requires
        0 < nx <= usize::MAX,
        crop.ordered(),
        crop.x_end <= nx,
        crop.y_end * nx <= values.len(),
        wraps_fit(wraps, nx, values.len() as int),
    ensures
        crop::cropped(rows_rotated(values, nx, wraps), nx, crop) == crop::cut_rows(
            rows_rotated(
                values.subrange(crop.y_start * nx, crop.y_end * nx),
                nx,
                window_wraps(wraps, nx, crop.y_start as int, crop.y_end as int),
            ),
            0,
            nx,
            crop.x_start as int,
            crop.x_end as int,
            0,
            crop.spec_height(),
        ),
{
    let y0 = crop.y_start as int;
    let y1 = crop.y_end as int;
    assert(0 <= y0 * nx <= y1 * nx && y1 * nx - y0 * nx == nx * (y1 - y0)) by (nonlinear_arith)
        requires
            0 <= y0 <= y1,
            0 < nx,
    ;
    let window = values.subrange(y0 * nx, y1 * nx);
    let part = window_wraps(wraps, nx, y0, y1);
    lemma_window_wraps_fit(wraps, nx, y0, y1, window.len() as int);
    let a = rows_rotated(values, nx, wraps);
    let b = rows_rotated(window, nx, part);
    lemma_row_rotation_len(values, nx, wraps);
    lemma_row_rotation_len(window, nx, part);
    assert((y1 - y0) * nx == nx * (y1 - y0)) by (nonlinear_arith);
    assert forall|y: int| y0 <= y < y1 implies row_of(a, nx, y) == #[trigger] row_of(
        b,
        nx,
        y - y0,
    ) by {
        assert(0 <= y * nx && y * nx + nx <= y1 * nx && (y - y0) * nx == y * nx - y0 * nx && 0 <= (
        y - y0) * nx) by (nonlinear_arith)
            requires
                0 <= y0 <= y < y1,
                0 < nx,
        ;
        law_row_of_rotated_field(values, nx, wraps, y);
        law_row_of_rotated_field(window, nx, part, y - y0);
        assert(row_of(window, nx, y - y0) =~= row_of(values, nx, y));
        let row = row_of(values, nx, y);
        if y < wraps.len() {
            assert(part[y - y0] == (wraps[y] as int % nx) as usize);
            if wraps[y] == nx {
                assert(rotated_row(row, nx) =~= rotated_row(row, 0));
                assert(nx % nx == 0) by (nonlinear_arith)
                    requires
                        0 < nx,
                ;
            } else {
                assert(wraps[y] < nx);
                assert(wraps[y] as int % nx == wraps[y]) by (nonlinear_arith)
                    requires
                        0 <= wraps[y] < nx,
                ;
            }
        } else {
            assert(part[y - y0] == 0);
            assert(rotated_row(row, 0) =~= row);
        }
    }
    lemma_cuts_agree(a, b, nx, crop.x_start as int, crop.x_end as int, y0, y1);
}

} // verus!
