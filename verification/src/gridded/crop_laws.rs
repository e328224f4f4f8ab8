//! Laws of decoding a rectangle: what is decoded of cropped planes is what would be
//! cropped out of the decoded whole.
use crate::gridded::collect;
use crate::gridded::collect::OptionalVolumes;
use crate::gridded::crop;
use crate::gridded::crop::GridCrop;
use crate::gridded::cropped_decode;
use crate::gridded::decode;
use crate::gridded::decode::{DecodedRequiredVolumes, RequiredPlan};
use crate::gridded::decode_laws;
use crate::gridded::fields;
use crate::gridded::fields::PressureFields;
use crate::gridded::pressure_fields;
use crate::gridded::pressure_fields::PressureRules;
use crate::gridded::records;
use crate::gridded::records::{FieldId, GribRecord, LevelTable};
use crate::gridded::surface_decode;
use crate::gridded::volumes;
use crate::gridded::volumes::{DecodeErrorView, HeightBranch, MoistureBranch};
use vstd::prelude::*;

verus! {

/// Where the cell of a rectangle of a plane that is the `j`th, row after row, stands
/// in the plane.
pub open spec fn plane_place(nx: int, crop: GridCrop, j: int) -> int {
    (crop.y_start + j / crop.spec_width()) * nx + crop.x_start + j % crop.spec_width()
}

/// Where the cell of a rectangle of a volume that is the `i`th, plane after plane,
/// stands in the volume.
pub open spec fn volume_place(nx: int, ny: int, crop: GridCrop, i: int) -> int {
    (i / crop.cell_count()) * (nx * ny) + plane_place(nx, crop, i % crop.cell_count())
}

proof fn lemma_cut_rows_cells<T>(
    values: Seq<T>,
    offset: int,
    nx: int,
    crop: GridCrop,
    rows: int,
    j: int,
)
    requires
        0 <= offset,
        0 <= nx,
        crop.x_start < crop.x_end <= nx,
        0 <= rows,
        offset + (crop.y_start + rows) * nx <= values.len(),
        0 <= j < rows * crop.spec_width(),
    ensures
        crop::cut_rows(
            values,
            offset,
            nx,
            crop.x_start as int,
            crop.x_end as int,
            crop.y_start as int,
            crop.y_start + rows,
        ).len() == rows * crop.spec_width(),
        crop::cut_rows(
            values,
            offset,
            nx,
            crop.x_start as int,
            crop.x_end as int,
            crop.y_start as int,
            crop.y_start + rows,
        )[j] == values[offset + plane_place(nx, crop, j)],
    decreases rows,
{
    let w = crop.spec_width();
    let y0 = crop.y_start as int;
    lemma_cut_rows_len(values, offset, nx, crop, rows);
    assert(rows > 0) by {
        if rows == 0 {
            assert(0 * w == 0) by (nonlinear_arith);
        }
    }
    let before = (rows - 1) * w;
    assert(rows * w == before + w) by (nonlinear_arith)
        requires
            before == (rows - 1) * w,
    ;
    assert((y0 + rows) * nx == (y0 + rows - 1) * nx + nx) by (nonlinear_arith);
    assert(0 <= (y0 + rows - 1) * nx) by (nonlinear_arith)
        requires
            0 <= y0,
            1 <= rows,
            0 <= nx,
    ;
    lemma_cut_rows_len(values, offset, nx, crop, rows - 1);
    if j < before {
        lemma_cut_rows_cells(values, offset, nx, crop, rows - 1, j);
    } else {
        let x = j - before;
        vstd::arithmetic::div_mod::lemma_fundamental_div_mod_converse(j, w, rows - 1, x);
    }
}

proof fn lemma_cut_rows_len<T>(values: Seq<T>, offset: int, nx: int, crop: GridCrop, rows: int)
    requires
        0 <= offset,
        0 <= nx,
        crop.x_start < crop.x_end <= nx,
        0 <= rows,
        offset + (crop.y_start + rows) * nx <= values.len(),
    ensures
        crop::cut_rows(
            values,
            offset,
            nx,
            crop.x_start as int,
            crop.x_end as int,
            crop.y_start as int,
            crop.y_start + rows,
        ).len() == rows * crop.spec_width(),
    decreases rows,
{
    let w = crop.spec_width();
    let y0 = crop.y_start as int;
    if rows > 0 {
        assert((y0 + rows) * nx == (y0 + rows - 1) * nx + nx) by (nonlinear_arith);
        assert(0 <= (y0 + rows - 1) * nx) by (nonlinear_arith)
            requires
                0 <= y0,
                1 <= rows,
                0 <= nx,
        ;
        lemma_cut_rows_len(values, offset, nx, crop, rows - 1);
        assert(rows * w == (rows - 1) * w + w) by (nonlinear_arith);
    } else {
        assert(rows * w == 0) by (nonlinear_arith)
            requires
                rows == 0,
        ;
    }
}

/// Whether a rectangle lies on a grid and has cells.
pub open spec fn has_cells(crop: GridCrop, nx: int, ny: int) -> bool {
    &&& crop.within(nx, ny)
    &&& crop.x_start < crop.x_end
    &&& crop.y_start < crop.y_end
}

proof fn lemma_plane_place(nx: int, ny: int, crop: GridCrop, j: int)
    requires
        has_cells(crop, nx, ny),
        0 <= j < crop.cell_count(),
    ensures
        0 <= plane_place(nx, crop, j) < nx * ny,
{
    let w = crop.spec_width();
    let h = crop.spec_height();
    let y = j / w;
    let x = j % w;
    vstd::arithmetic::div_mod::lemma_fundamental_div_mod(j, w);
    vstd::arithmetic::div_mod::lemma_mod_bound(j, w);
    assert(0 <= y < h) by (nonlinear_arith)
        requires
            j == w * y + x,
            0 <= x < w,
            0 <= j < w * h,
    ;
    let row = crop.y_start + y;
    assert(0 <= row * nx && row * nx + nx <= nx * ny) by (nonlinear_arith)
        requires
            0 <= row < ny,
            0 <= nx,
    ;
}

/// A place of a volume lies on the plane of its cell.
proof fn lemma_volume_place(nx: int, ny: int, crop: GridCrop, levels: int, i: int)
    requires
        has_cells(crop, nx, ny),
        0 <= i < levels * crop.cell_count(),
    ensures
        0 < crop.cell_count(),
        0 <= i / crop.cell_count() < levels,
        0 <= i % crop.cell_count() < crop.cell_count(),
        i == (i / crop.cell_count()) * crop.cell_count() + i % crop.cell_count(),
        0 <= volume_place(nx, ny, crop, i) < levels * (nx * ny),
        volume_place(nx, ny, crop, i) / (nx * ny) == i / crop.cell_count(),
        volume_place(nx, ny, crop, i) % (nx * ny) == plane_place(nx, crop, i % crop.cell_count()),
        0 < nx * ny,
{
    let w = crop.spec_width();
    let h = crop.spec_height();
    let cells = crop.cell_count();
    let n = nx * ny;
    assert(0 < w * h) by (nonlinear_arith)
        requires
            0 < w,
            0 < h,
    ;
    vstd::arithmetic::div_mod::lemma_fundamental_div_mod(i, cells);
    vstd::arithmetic::div_mod::lemma_mod_bound(i, cells);
    let k = i / cells;
    let j = i % cells;
    assert(cells * k == k * cells) by (nonlinear_arith);
    assert(0 <= k < levels) by (nonlinear_arith)
        requires
            i == cells * k + j,
            0 <= j < cells,
            0 <= i < levels * cells,
    ;
    lemma_plane_place(nx, ny, crop, j);
    let p = plane_place(nx, crop, j);
    vstd::arithmetic::div_mod::lemma_fundamental_div_mod_converse(k * n + p, n, k, p);
    assert(0 <= k * n && k * n + n <= levels * n) by (nonlinear_arith)
        requires
            0 <= k < levels,
            0 < n,
    ;
}

/// The cell of a cropped volume is the cell of the volume at its place.
pub proof fn lemma_cropped_levels_cell<T>(
    values: Seq<T>,
    nx: int,
    ny: int,
    levels: int,
    crop: GridCrop,
    i: int,
)
    requires
        has_cells(crop, nx, ny),
        0 <= levels,
        values.len() == levels * (nx * ny),
        0 <= i < levels * crop.cell_count(),
    ensures
        crop::cropped_levels(values, nx, ny, levels, crop)[i] == values[volume_place(
            nx,
            ny,
            crop,
            i,
        )],
{
    lemma_cropped_levels_among(values, nx, ny, levels, levels, crop, i);
}

proof fn lemma_cropped_levels_len<T>(
    values: Seq<T>,
    nx: int,
    ny: int,
    total: int,
    levels: int,
    crop: GridCrop,
)
    requires
        has_cells(crop, nx, ny),
        0 <= levels <= total,
        values.len() == total * (nx * ny),
    ensures
        crop::cropped_levels(values, nx, ny, levels, crop).len() == levels * crop.cell_count(),
    decreases levels,
{
    let cells = crop.cell_count();
    let n = nx * ny;
    if levels > 0 {
        lemma_cropped_levels_len(values, nx, ny, total, levels - 1, crop);
        let offset = (levels - 1) * n;
        assert(0 <= n) by (nonlinear_arith)
            requires
                n == nx * ny,
                0 <= nx,
                0 <= ny,
        ;
        assert(0 <= offset && offset + n <= total * n) by (nonlinear_arith)
            requires
                offset == (levels - 1) * n,
                1 <= levels <= total,
                0 <= n,
        ;
        assert((crop.y_start + crop.spec_height()) * nx <= n) by (nonlinear_arith)
            requires
                crop.y_start + crop.spec_height() <= ny,
                0 <= nx,
                n == nx * ny,
        ;
        lemma_cut_rows_len(values, offset, nx, crop, crop.spec_height());
        assert(crop.spec_height() * crop.spec_width() == cells) by (nonlinear_arith)
            requires
                cells == crop.spec_width() * crop.spec_height(),
        ;
        assert(levels * cells == (levels - 1) * cells + cells) by (nonlinear_arith);
    } else {
        assert(levels * cells == 0) by (nonlinear_arith)
            requires
                levels == 0,
        ;
    }
}

proof fn lemma_cropped_levels_among<T>(
    values: Seq<T>,
    nx: int,
    ny: int,
    total: int,
    levels: int,
    crop: GridCrop,
    i: int,
)
    requires
        has_cells(crop, nx, ny),
        0 <= levels <= total,
        values.len() == total * (nx * ny),
        0 <= i < levels * crop.cell_count(),
    ensures
        crop::cropped_levels(values, nx, ny, levels, crop)[i] == values[volume_place(
            nx,
            ny,
            crop,
            i,
        )],
    decreases levels,
{
    let cells = crop.cell_count();
    let n = nx * ny;
    lemma_volume_place(nx, ny, crop, levels, i);
    lemma_cropped_levels_len(values, nx, ny, total, levels - 1, crop);
    let before = (levels - 1) * cells;
    assert(levels * cells == before + cells) by (nonlinear_arith)
        requires
            before == (levels - 1) * cells,
    ;
    if i < before {
        lemma_cropped_levels_among(values, nx, ny, total, levels - 1, crop, i);
    } else {
        let j = i - before;
        let offset = (levels - 1) * n;
        vstd::arithmetic::div_mod::lemma_fundamental_div_mod_converse(i, cells, levels - 1, j);
        assert(0 <= offset && offset + n <= total * n) by (nonlinear_arith)
            requires
                offset == (levels - 1) * n,
                1 <= levels <= total,
                0 <= n,
        ;
        assert((crop.y_start + crop.spec_height()) * nx <= n) by (nonlinear_arith)
            requires
                crop.y_start + crop.spec_height() <= ny,
                0 <= nx,
                n == nx * ny,
        ;
        assert(crop.spec_height() * crop.spec_width() == cells) by (nonlinear_arith)
            requires
                cells == crop.spec_width() * crop.spec_height(),
        ;
        lemma_cut_rows_cells(values, offset, nx, crop, crop.spec_height(), j);
    }
}

/// Whether volumes are alike on a rectangle: each cell of the cut one is the cell of
/// the whole one at its place.
spec fn cut_of<T>(
    whole: Seq<T>,
    nx: int,
    ny: int,
    levels: int,
    crop: GridCrop,
    cut: Seq<T>,
) -> bool {
    &&& whole.len() == levels * (nx * ny)
    &&& cut.len() == levels * crop.cell_count()
    &&& forall|i: int|
        0 <= i < cut.len() ==> #[trigger] cut[i] == whole[volume_place(nx, ny, crop, i)]
}

proof fn lemma_cut_is_crop<T>(
    whole: Seq<T>,
    nx: int,
    ny: int,
    levels: int,
    crop: GridCrop,
    cut: Seq<T>,
)
    requires
        has_cells(crop, nx, ny),
        0 <= levels,
        cut_of(whole, nx, ny, levels, crop, cut),
    ensures
        cut == crop::cropped_levels(whole, nx, ny, levels, crop),
{
    let result = crop::cropped_levels(whole, nx, ny, levels, crop);
    lemma_cropped_levels_len(whole, nx, ny, levels, levels, crop);
    assert forall|i: int| 0 <= i < cut.len() implies cut[i] == result[i] by {
        lemma_cropped_levels_cell(whole, nx, ny, levels, crop, i);
    }
    assert(cut =~= result);
}

proof fn lemma_gathered_len<T>(
    planes: Seq<Result<Vec<T>, String>>,
    messages: Seq<usize>,
    expected: int,
)
    requires
        0 <= expected,
        volumes::planes_suffice(volumes::outcomes(planes), messages, expected),
    ensures
        volumes::gathered(planes, messages, expected).len() == messages.len() * expected,
    decreases messages.len(),
{
    if messages.len() > 0 {
        let init = messages.drop_last();
        assert forall|k: int| 0 <= k < init.len() implies {
            &&& (#[trigger] init[k]) < planes.len()
            &&& volumes::outcomes(planes)[init[k] as int] is Ok
            &&& volumes::outcomes(planes)[init[k] as int]->Ok_0 >= expected
        } by {
            assert(init[k] == messages[k]);
        }
        lemma_gathered_len(planes, init, expected);
        assert(messages[messages.len() - 1] < planes.len());
        assert(messages.len() * expected == (messages.len() - 1) * expected + expected)
            by (nonlinear_arith);
    } else {
        assert(messages.len() * expected == 0) by (nonlinear_arith)
            requires
                messages.len() == 0,
        ;
    }
}

pub proof fn lemma_gathered_cell<T>(
    planes: Seq<Result<Vec<T>, String>>,
    messages: Seq<usize>,
    expected: int,
    k: int,
    j: int,
)
    requires
        volumes::planes_suffice(volumes::outcomes(planes), messages, expected),
        0 <= k < messages.len(),
        0 <= j < expected,
    ensures
        volumes::gathered(planes, messages, expected)[k * expected + j] == volumes::plane_of(
            planes,
            messages[k] as int,
        )[j],
    decreases messages.len(),
{
    let init = messages.drop_last();
    assert forall|m: int| 0 <= m < init.len() implies {
        &&& (#[trigger] init[m]) < planes.len()
        &&& volumes::outcomes(planes)[init[m] as int] is Ok
        &&& volumes::outcomes(planes)[init[m] as int]->Ok_0 >= expected
    } by {
        assert(init[m] == messages[m]);
    }
    lemma_gathered_len(planes, init, expected);
    assert(messages[messages.len() - 1] < planes.len());
    if k < init.len() {
        lemma_gathered_cell(planes, init, expected, k, j);
        assert(0 <= k * expected && k * expected + expected <= init.len() * expected)
            by (nonlinear_arith)
            requires
                0 <= k < init.len(),
                0 < expected,
        ;
        assert(init[k] == messages[k]);
    }
}

/// Whether the planes of a rectangle are the planes of a file cropped to it, all of
/// them unpacked in full.
pub open spec fn planes_cropped<T>(
    whole: Seq<Result<Vec<T>, String>>,
    nx: int,
    ny: int,
    crop: GridCrop,
    cut: Seq<Result<Vec<T>, String>>,
) -> bool {
    &&& cut.len() == whole.len()
    &&& forall|m: int|
        0 <= m < whole.len() ==> {
            &&& (#[trigger] whole[m]) matches Ok(values) && values@.len() == nx * ny
            &&& cut[m] matches Ok(values) && values@ == crop::cropped(whole[m]->Ok_0@, nx, crop)
        }
}

proof fn lemma_cropped_plane<T>(values: Seq<T>, nx: int, ny: int, crop: GridCrop)
    requires
        has_cells(crop, nx, ny),
        values.len() == nx * ny,
    ensures
        crop::cropped(values, nx, crop).len() == crop.cell_count(),
        forall|j: int|
            0 <= j < crop.cell_count() ==> #[trigger] crop::cropped(values, nx, crop)[j]
                == values[plane_place(nx, crop, j)],
{
    let h = crop.spec_height();
    assert((crop.y_start + h) * nx <= nx * ny) by (nonlinear_arith)
        requires
            crop.y_start + h <= ny,
            0 <= nx,
    ;
    assert(h * crop.spec_width() == crop.cell_count()) by (nonlinear_arith)
        requires
            crop.cell_count() == crop.spec_width() * h,
    ;
    lemma_cut_rows_len(values, 0, nx, crop, h);
    assert forall|j: int| 0 <= j < crop.cell_count() implies #[trigger] crop::cropped(
        values,
        nx,
        crop,
    )[j] == values[plane_place(nx, crop, j)] by {
        lemma_cut_rows_cells(values, 0, nx, crop, h, j);
    }
}

proof fn lemma_planes_sound<T>(
    messages: Seq<GribRecord>,
    table: LevelTable,
    whole: Seq<Result<Vec<T>, String>>,
    nx: int,
    ny: int,
    crop: GridCrop,
    cut: Seq<Result<Vec<T>, String>>,
)
    requires
        has_cells(crop, nx, ny),
        messages.len() <= usize::MAX,
        table.wf(),
        table.consistent(),
        records::levels_known(messages, table),
        whole.len() == messages.len(),
        planes_cropped(whole, nx, ny, crop, cut),
    ensures
        decode_laws::sound_input(messages, table, volumes::outcomes(whole), nx * ny),
        decode_laws::sound_input(messages, table, volumes::outcomes(cut), crop.cell_count()),
        forall|m: int|
            0 <= m < whole.len() ==> (#[trigger] volumes::outcomes(whole)[m]) is Ok
                && volumes::outcomes(cut)[m] is Ok,
        forall|m: int| 0 <= m < cut.len() ==> (#[trigger] volumes::outcomes(cut)[m]) is Ok,
        0 < crop.cell_count(),
        0 < nx * ny,
{
    let w = crop.spec_width();
    let h = crop.spec_height();
    assert(0 < w * h) by (nonlinear_arith)
        requires
            0 < w,
            0 < h,
    ;
    assert(0 < nx * ny) by (nonlinear_arith)
        requires
            0 < nx,
            0 < ny,
    ;
    assert forall|m: int| 0 <= m < whole.len() implies {
        &&& (#[trigger] volumes::outcomes(whole)[m]) == Ok::<nat, Seq<char>>((nx * ny) as nat)
        &&& volumes::outcomes(cut)[m] == Ok::<nat, Seq<char>>(crop.cell_count() as nat)
    } by {
        assert(whole[m] is Ok);
        lemma_cropped_plane(whole[m]->Ok_0@, nx, ny, crop);
    }
    assert forall|m: int| 0 <= m < cut.len() implies (#[trigger] volumes::outcomes(cut)[m]) == Ok::<
        nat,
        Seq<char>,
    >(crop.cell_count() as nat) by {
        assert(volumes::outcomes(whole)[m] is Ok);
    }
}

/// What is gathered of cropped planes is the crop of what is gathered of whole ones.
proof fn lemma_gathered_cut<T>(
    whole: Seq<Result<Vec<T>, String>>,
    nx: int,
    ny: int,
    crop: GridCrop,
    cut: Seq<Result<Vec<T>, String>>,
    messages: Seq<usize>,
)
    requires
        has_cells(crop, nx, ny),
        planes_cropped(whole, nx, ny, crop, cut),
        volumes::planes_suffice(volumes::outcomes(whole), messages, nx * ny),
        volumes::planes_suffice(volumes::outcomes(cut), messages, crop.cell_count()),
    ensures
        cut_of(
            volumes::gathered(whole, messages, nx * ny),
            nx,
            ny,
            messages.len() as int,
            crop,
            volumes::gathered(cut, messages, crop.cell_count()),
        ),
{
    let n = nx * ny;
    let cells = crop.cell_count();
    let levels = messages.len() as int;
    let a = volumes::gathered(whole, messages, n);
    let b = volumes::gathered(cut, messages, cells);
    assert(0 <= n) by (nonlinear_arith)
        requires
            n == nx * ny,
            0 <= nx,
            0 <= ny,
    ;
    assert(0 <= cells) by (nonlinear_arith)
        requires
            cells == crop.spec_width() * crop.spec_height(),
            0 <= crop.spec_width(),
            0 <= crop.spec_height(),
    ;
    lemma_gathered_len(whole, messages, n);
    lemma_gathered_len(cut, messages, cells);
    assert forall|i: int| 0 <= i < b.len() implies #[trigger] b[i] == a[volume_place(
        nx,
        ny,
        crop,
        i,
    )] by {
        lemma_volume_place(nx, ny, crop, levels, i);
        let k = i / cells;
        let j = i % cells;
        let p = plane_place(nx, crop, j);
        lemma_plane_place(nx, ny, crop, j);
        lemma_gathered_cell(cut, messages, cells, k, j);
        lemma_gathered_cell(whole, messages, n, k, p);
        let m = messages[k] as int;
        assert(messages[k] < volumes::outcomes(whole).len());
        assert(whole[m] is Ok);
        lemma_cropped_plane(whole[m]->Ok_0@, nx, ny, crop);
        assert(crop::cropped(whole[m]->Ok_0@, nx, crop)[j] == whole[m]->Ok_0@[p]);
    }
}

/// Whether each conversion answers by its arguments alone.
pub open spec fn settled<
    T,
    V: Fn(usize) -> T,
    C: Fn(T) -> T,
    G: Fn(T) -> T,
    Q: Fn(T) -> T,
    D: Fn(T, T) -> T,
    H: Fn(T, T, T) -> T,
>(rules: PressureRules<V, C, G, Q, D, H>) -> bool {
    &&& forall|level: usize, x: T, y: T|
        #![trigger call_ensures(rules.level_hpa, (level,), x), call_ensures(
            rules.level_hpa,
            (level,),
            y,
        )]
        call_ensures(rules.level_hpa, (level,), x) && call_ensures(rules.level_hpa, (level,), y)
            ==> x == y
    &&& forall|a: T, x: T, y: T|
        #![trigger call_ensures(rules.to_celsius, (a,), x), call_ensures(
            rules.to_celsius,
            (a,),
            y,
        )]
        call_ensures(rules.to_celsius, (a,), x) && call_ensures(rules.to_celsius, (a,), y) ==> x
            == y
    &&& forall|a: T, x: T, y: T|
        #![trigger call_ensures(rules.to_height, (a,), x), call_ensures(rules.to_height, (a,), y)]
        call_ensures(rules.to_height, (a,), x) && call_ensures(rules.to_height, (a,), y) ==> x == y
    &&& forall|a: T, x: T, y: T|
        #![trigger call_ensures(rules.from_specific_humidity, (a,), x), call_ensures(
            rules.from_specific_humidity,
            (a,),
            y,
        )]
        call_ensures(rules.from_specific_humidity, (a,), x) && call_ensures(
            rules.from_specific_humidity,
            (a,),
            y,
        ) ==> x == y
    &&& forall|a: T, b: T, x: T, y: T|
        #![trigger call_ensures(rules.from_dewpoint, (a, b), x), call_ensures(
            rules.from_dewpoint,
            (a, b),
            y,
        )]
        call_ensures(rules.from_dewpoint, (a, b), x) && call_ensures(
            rules.from_dewpoint,
            (a, b),
            y,
        ) ==> x == y
    &&& forall|a: T, b: T, c: T, x: T, y: T|
        #![trigger call_ensures(rules.from_relative_humidity, (a, b, c), x), call_ensures(
            rules.from_relative_humidity,
            (a, b, c),
            y,
        )]
        call_ensures(rules.from_relative_humidity, (a, b, c), x) && call_ensures(
            rules.from_relative_humidity,
            (a, b, c),
            y,
        ) ==> x == y
}

proof fn lemma_converted_cut<T, F: Fn(T) -> T>(
    whole: Seq<T>,
    cut: Seq<T>,
    nx: int,
    ny: int,
    levels: int,
    crop: GridCrop,
    convert: F,
    a: Seq<T>,
    b: Seq<T>,
)
    requires
        has_cells(crop, nx, ny),
        cut_of(whole, nx, ny, levels, crop, cut),
        forall|v: T, x: T, y: T|
            #![trigger call_ensures(convert, (v,), x), call_ensures(convert, (v,), y)]
            call_ensures(convert, (v,), x) && call_ensures(convert, (v,), y) ==> x == y,
        surface_decode::converted(whole, convert, a),
        surface_decode::converted(cut, convert, b),
    ensures
        cut_of(a, nx, ny, levels, crop, b),
{
    assert forall|i: int| 0 <= i < b.len() implies #[trigger] b[i] == a[volume_place(
        nx,
        ny,
        crop,
        i,
    )] by {
        lemma_volume_place(nx, ny, crop, levels, i);
        let p = volume_place(nx, ny, crop, i);
        assert(cut[i] == whole[p]);
        assert(call_ensures(convert, (cut[i],), b[i]));
        assert(call_ensures(convert, (whole[p],), a[p]));
    }
}

pub proof fn lemma_pressures_once<T, V: Fn(usize) -> T>(
    levels: Seq<usize>,
    level_hpa: V,
    a: Seq<T>,
    b: Seq<T>,
)
    requires
        forall|level: usize, x: T, y: T|
            #![trigger call_ensures(level_hpa, (level,), x), call_ensures(level_hpa, (level,), y)]
            call_ensures(level_hpa, (level,), x) && call_ensures(level_hpa, (level,), y) ==> x == y,
        pressure_fields::are_pressures(levels, level_hpa, a),
        pressure_fields::are_pressures(levels, level_hpa, b),
    ensures
        a == b,
{
    assert forall|k: int| 0 <= k < a.len() implies a[k] == b[k] by {
        assert(call_ensures(level_hpa, (levels[k],), a[k]));
        assert(call_ensures(level_hpa, (levels[k],), b[k]));
    }
    assert(a =~= b);
}

proof fn lemma_ratios_cut<
    T,
    V: Fn(usize) -> T,
    C: Fn(T) -> T,
    G: Fn(T) -> T,
    Q: Fn(T) -> T,
    D: Fn(T, T) -> T,
    H: Fn(T, T, T) -> T,
>(
    whole: DecodedRequiredVolumes<T>,
    cut: DecodedRequiredVolumes<T>,
    nx: int,
    ny: int,
    crop: GridCrop,
    rules: PressureRules<V, C, G, Q, D, H>,
    p: Seq<T>,
    q: Seq<T>,
    a: Seq<T>,
    b: Seq<T>,
)
    requires
        has_cells(crop, nx, ny),
        settled(rules),
        whole.moisture_branch == cut.moisture_branch,
        whole.moisture_levels@ == cut.moisture_levels@,
        cut_of(
            whole.moisture_3d@,
            nx,
            ny,
            whole.levels@.len() as int,
            crop,
            cut.moisture_3d@,
        ),
        whole.moisture_branch == MoistureBranch::RelativeHumidity ==> cut_of(
            whole.moisture_temperature_k_3d@,
            nx,
            ny,
            whole.levels@.len() as int,
            crop,
            cut.moisture_temperature_k_3d@,
        ),
        pressure_fields::are_ratios(whole, nx * ny, p, rules, a),
        pressure_fields::are_ratios(cut, crop.cell_count(), q, rules, b),
    ensures
        cut_of(a, nx, ny, whole.levels@.len() as int, crop, b),
{
    let levels = whole.levels@.len() as int;
    let cells = crop.cell_count();
    lemma_pressures_once(whole.moisture_levels@, rules.level_hpa, p, q);
    assert forall|i: int| 0 <= i < b.len() implies #[trigger] b[i] == a[volume_place(
        nx,
        ny,
        crop,
        i,
    )] by {
        lemma_volume_place(nx, ny, crop, levels, i);
        let at = volume_place(nx, ny, crop, i);
        assert(cut.moisture_3d@[i] == whole.moisture_3d@[at]);
        assert(q[i / cells] == p[at / (nx * ny)]);
        let x = b[i];
        let y = a[at];
        match whole.moisture_branch {
            MoistureBranch::SpecificHumidity => {
                assert(call_ensures(rules.from_specific_humidity, (cut.moisture_3d@[i],), x));
                assert(call_ensures(rules.from_specific_humidity, (whole.moisture_3d@[at],), y));
            },
            MoistureBranch::Dewpoint => {
                assert(call_ensures(
                    rules.from_dewpoint,
                    (q[i / cells], cut.moisture_3d@[i]),
                    x,
                ));
                assert(call_ensures(
                    rules.from_dewpoint,
                    (p[at / (nx * ny)], whole.moisture_3d@[at]),
                    y,
                ));
            },
            MoistureBranch::RelativeHumidity => {
                assert(cut.moisture_temperature_k_3d@[i] == whole.moisture_temperature_k_3d@[at]);
                assert(call_ensures(
                    rules.from_relative_humidity,
                    (q[i / cells], cut.moisture_temperature_k_3d@[i], cut.moisture_3d@[i]),
                    x,
                ));
                assert(call_ensures(
                    rules.from_relative_humidity,
                    (
                        p[at / (nx * ny)],
                        whole.moisture_temperature_k_3d@[at],
                        whole.moisture_3d@[at],
                    ),
                    y,
                ));
            },
        }
    }
}

proof fn lemma_optional_cut<T>(
    messages: Seq<GribRecord>,
    table: LevelTable,
    whole: Seq<Result<Vec<T>, String>>,
    nx: int,
    ny: int,
    crop: GridCrop,
    cut: Seq<Result<Vec<T>, String>>,
    wanted: bool,
    candidates: Seq<FieldId>,
    levels: Seq<usize>,
    a: Option<Vec<T>>,
    b: Option<Vec<T>>,
)
    requires
        has_cells(crop, nx, ny),
        messages.len() <= usize::MAX,
        table.wf(),
        table.consistent(),
        records::levels_known(messages, table),
        whole.len() == messages.len(),
        planes_cropped(whole, nx, ny, crop, cut),
        collect::is_optional_volume(
            a,
            wanted,
            messages,
            table,
            whole,
            candidates,
            levels,
            nx * ny,
        ),
        collect::is_optional_volume(
            b,
            wanted,
            messages,
            table,
            cut,
            candidates,
            levels,
            crop.cell_count(),
        ),
    ensures
        fields::is_optional_volume_crop(a, nx, ny, levels.len() as int, crop, b),
{
    lemma_planes_sound(messages, table, whole, nx, ny, crop, cut);
    let n = nx * ny;
    let cells = crop.cell_count();
    decode_laws::lemma_whole_optional(
        messages,
        table,
        volumes::outcomes(whole),
        n,
        candidates,
        levels,
    );
    decode_laws::lemma_whole_optional(
        messages,
        table,
        volumes::outcomes(cut),
        cells,
        candidates,
        levels,
    );
    match decode_laws::recorded_any(messages, table, candidates) {
        Some(recs) => {
            if decode_laws::levels_recorded(recs, table, levels) {
                let slots = volumes::slot_messages(recs, table, levels);
                lemma_gathered_cut(whole, nx, ny, crop, cut, slots);
                lemma_cut_is_crop(
                    volumes::gathered(whole, slots, n),
                    nx,
                    ny,
                    levels.len() as int,
                    crop,
                    volumes::gathered(cut, slots, cells),
                );
            }
        },
        None => {},
    }
}

/// A cropped decode is the crop of the whole decode. On a file of which every message
/// unpacks on one grid it plans the same levels and branches, fails exactly if the
/// whole decode fails, and has every field on the rectangle that the whole analysis
/// has there: each volume restricted on every level, each optional one there exactly
/// if it is there in the whole.
pub proof fn law_cropped_decode_is_the_crop_of_the_decode<
    T,
    V: Fn(usize) -> T,
    C: Fn(T) -> T,
    G: Fn(T) -> T,
    Q: Fn(T) -> T,
    D: Fn(T, T) -> T,
    H: Fn(T, T, T) -> T,
>(
    messages: Seq<GribRecord>,
    table: LevelTable,
    whole: Seq<Result<Vec<T>, String>>,
    nx: int,
    ny: int,
    crop: GridCrop,
    cut: Seq<Result<Vec<T>, String>>,
    want_optional: bool,
    rules: PressureRules<V, C, G, Q, D, H>,
    full: PressureFields<T>,
    part: PressureFields<T>,
)
    requires
        has_cells(crop, nx, ny),
        messages.len() <= usize::MAX,
        table.wf(),
        table.consistent(),
        records::levels_known(messages, table),
        whole.len() == messages.len(),
        planes_cropped(whole, nx, ny, crop, cut),
        settled(rules),
    ensures
        cropped_decode::cropped_plan(
            messages,
            table,
            volumes::outcomes(cut),
            crop.cell_count(),
        ) == decode::decode_plan(
            messages,
            table,
            volumes::outcomes(whole),
            nx * ny,
            decode::no_failures(),
        ),
        decode::decode_plan(
            messages,
            table,
            volumes::outcomes(whole),
            nx * ny,
            decode::no_failures(),
        ) matches Ok(plan) ==> {
            pressure_fields::planned_analysis(
                plan,
                messages,
                table,
                whole,
                want_optional,
                nx * ny,
                rules,
                full,
            ) && pressure_fields::planned_analysis(
                plan,
                messages,
                table,
                cut,
                want_optional,
                crop.cell_count(),
                rules,
                part,
            ) ==> fields::is_pressure_crop(full, nx, ny, crop, part) && part.pressure_3d_pa is None
        },
{
    let n = nx * ny;
    let cells = crop.cell_count();
    lemma_planes_sound(messages, table, whole, nx, ny, crop, cut);
    decode_laws::law_decodes_agree_without_failures(
        messages,
        table,
        volumes::outcomes(cut),
        cells,
    );
    decode_laws::lemma_whole_plan(messages, table, volumes::outcomes(whole), n);
    decode_laws::lemma_whole_plan(messages, table, volumes::outcomes(cut), cells);
    let planned = decode::decode_plan(
        messages,
        table,
        volumes::outcomes(whole),
        n,
        decode::no_failures(),
    );
    if planned is Ok && pressure_fields::planned_analysis(
        planned->Ok_0,
        messages,
        table,
        whole,
        want_optional,
        n,
        rules,
        full,
    ) && pressure_fields::planned_analysis(
        planned->Ok_0,
        messages,
        table,
        cut,
        want_optional,
        cells,
        rules,
        part,
    ) {
        lemma_analyses_cut(
            planned->Ok_0,
            messages,
            table,
            whole,
            nx,
            ny,
            crop,
            cut,
            want_optional,
            rules,
            full,
            part,
        );
    }
}

proof fn lemma_analyses_cut<
    T,
    V: Fn(usize) -> T,
    C: Fn(T) -> T,
    G: Fn(T) -> T,
    Q: Fn(T) -> T,
    D: Fn(T, T) -> T,
    H: Fn(T, T, T) -> T,
>(
    plan: RequiredPlan,
    messages: Seq<GribRecord>,
    table: LevelTable,
    whole: Seq<Result<Vec<T>, String>>,
    nx: int,
    ny: int,
    crop: GridCrop,
    cut: Seq<Result<Vec<T>, String>>,
    want_optional: bool,
    rules: PressureRules<V, C, G, Q, D, H>,
    full: PressureFields<T>,
    part: PressureFields<T>,
)
    requires
        has_cells(crop, nx, ny),
        messages.len() <= usize::MAX,
        table.wf(),
        table.consistent(),
        records::levels_known(messages, table),
        whole.len() == messages.len(),
        planes_cropped(whole, nx, ny, crop, cut),
        settled(rules),
        decode_laws::whole_plan(messages, table) == Ok::<RequiredPlan, DecodeErrorView>(plan),
        decode_laws::plan_suffices(volumes::outcomes(whole), plan, nx * ny),
        decode_laws::plan_suffices(volumes::outcomes(cut), plan, crop.cell_count()),
        pressure_fields::planned_analysis(
            plan,
            messages,
            table,
            whole,
            want_optional,
            nx * ny,
            rules,
            full,
        ),
        pressure_fields::planned_analysis(
            plan,
            messages,
            table,
            cut,
            want_optional,
            crop.cell_count(),
            rules,
            part,
        ),
    ensures
        fields::is_pressure_crop(full, nx, ny, crop, part),
        part.pressure_3d_pa is None,
{
    let n = nx * ny;
    let cells = crop.cell_count();
    let levels = plan.levels.len() as int;
    let (a, oa) = choose|volumes: DecodedRequiredVolumes<T>, optional: OptionalVolumes<T>|
        decode::gathered_by(volumes, plan, whole, n) && decode::sized(volumes, n)
            && collect::are_optional_volumes(
            optional,
            want_optional,
            messages,
            table,
            whole,
            volumes.levels@,
            n,
        ) && #[trigger] pressure_fields::analyses(volumes, optional, n, rules, full);
    let (b, ob) = choose|volumes: DecodedRequiredVolumes<T>, optional: OptionalVolumes<T>|
        decode::gathered_by(volumes, plan, cut, cells) && decode::sized(volumes, cells)
            && collect::are_optional_volumes(
            optional,
            want_optional,
            messages,
            table,
            cut,
            volumes.levels@,
            cells,
        ) && #[trigger] pressure_fields::analyses(volumes, optional, cells, rules, part);
    lemma_gathered_cut(whole, nx, ny, crop, cut, plan.temperature);
    lemma_gathered_cut(whole, nx, ny, crop, cut, plan.u_wind);
    lemma_gathered_cut(whole, nx, ny, crop, cut, plan.v_wind);
    lemma_gathered_cut(whole, nx, ny, crop, cut, plan.height);
    lemma_gathered_cut(whole, nx, ny, crop, cut, plan.moisture);
    lemma_gathered_cut(whole, nx, ny, crop, cut, plan.moisture_temperature);
    lemma_pressures_once(
        plan.levels,
        rules.level_hpa,
        full.pressure_levels_hpa@,
        part.pressure_levels_hpa@,
    );
    lemma_converted_cut(
        a.temperature_k_3d@,
        b.temperature_k_3d@,
        nx,
        ny,
        levels,
        crop,
        rules.to_celsius,
        full.temperature_c_3d@,
        part.temperature_c_3d@,
    );
    if plan.height_branch == HeightBranch::Geopotential {
        lemma_converted_cut(
            a.height_3d@,
            b.height_3d@,
            nx,
            ny,
            levels,
            crop,
            rules.to_height,
            full.gh_m_3d@,
            part.gh_m_3d@,
        );
    }
    let p = choose|p: Seq<T>|
        #[trigger] pressure_fields::are_ratios(a, n, p, rules, full.qvapor_kgkg_3d@);
    let q = choose|q: Seq<T>|
        #[trigger] pressure_fields::are_ratios(b, cells, q, rules, part.qvapor_kgkg_3d@);
    lemma_ratios_cut(
        a,
        b,
        nx,
        ny,
        crop,
        rules,
        p,
        q,
        full.qvapor_kgkg_3d@,
        part.qvapor_kgkg_3d@,
    );
    lemma_cut_is_crop(full.temperature_c_3d@, nx, ny, levels, crop, part.temperature_c_3d@);
    lemma_cut_is_crop(full.qvapor_kgkg_3d@, nx, ny, levels, crop, part.qvapor_kgkg_3d@);
    lemma_cut_is_crop(full.u_ms_3d@, nx, ny, levels, crop, part.u_ms_3d@);
    lemma_cut_is_crop(full.v_ms_3d@, nx, ny, levels, crop, part.v_ms_3d@);
    lemma_cut_is_crop(full.gh_m_3d@, nx, ny, levels, crop, part.gh_m_3d@);
    lemma_optional_cut(
        messages,
        table,
        whole,
        nx,
        ny,
        crop,
        cut,
        want_optional,
        seq![volumes::isobaric(2, 8)],
        plan.levels,
        full.omega_pa_s_3d,
        part.omega_pa_s_3d,
    );
    lemma_optional_cut(
        messages,
        table,
        whole,
        nx,
        ny,
        crop,
        cut,
        want_optional,
        seq![volumes::isobaric(2, 10)],
        plan.levels,
        full.absolute_vorticity_s_3d,
        part.absolute_vorticity_s_3d,
    );
    lemma_optional_cut(
        messages,
        table,
        whole,
        nx,
        ny,
        crop,
        cut,
        want_optional,
        seq![volumes::isobaric(1, 22)],
        plan.levels,
        full.cloud_liquid_kgkg_3d,
        part.cloud_liquid_kgkg_3d,
    );
    lemma_optional_cut(
        messages,
        table,
        whole,
        nx,
        ny,
        crop,
        cut,
        want_optional,
        seq![volumes::isobaric(1, 82), volumes::isobaric(1, 23)],
        plan.levels,
        full.cloud_ice_kgkg_3d,
        part.cloud_ice_kgkg_3d,
    );
    lemma_optional_cut(
        messages,
        table,
        whole,
        nx,
        ny,
        crop,
        cut,
        want_optional,
        seq![volumes::isobaric(1, 24)],
        plan.levels,
        full.rain_kgkg_3d,
        part.rain_kgkg_3d,
    );
    lemma_optional_cut(
        messages,
        table,
        whole,
        nx,
        ny,
        crop,
        cut,
        want_optional,
        seq![volumes::isobaric(1, 25)],
        plan.levels,
        full.snow_kgkg_3d,
        part.snow_kgkg_3d,
    );
    lemma_optional_cut(
        messages,
        table,
        whole,
        nx,
        ny,
        crop,
        cut,
        want_optional,
        seq![volumes::isobaric(1, 32), volumes::isobaric(1, 74)],
        plan.levels,
        full.graupel_kgkg_3d,
        part.graupel_kgkg_3d,
    );
}

} // verus!
