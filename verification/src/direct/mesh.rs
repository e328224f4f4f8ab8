//! Whether the points of a grid lie on a regular latitude-longitude mesh.
use crate::direct::projection;
use crate::direct::projection::{rectilinear_mesh_samples, rectilinear_mesh_shape};
use vstd::prelude::*;

verus! {

/// What tells two coordinates apart.
pub struct MeshRules<B, R, C> {
    /// Whether a latitude breaks away from the first.
    pub breaks: B,
    /// Whether a latitude is off that of its row.
    pub off_row: R,
    /// Whether a longitude is off that of its column.
    pub off_column: C,
}

/// Whether the latitudes that break away from the first are marked.
pub open spec fn marked<T, B: Fn(T, T) -> bool>(lat: Seq<T>, breaks: B, marks: Seq<bool>) -> bool {
    &&& marks.len() == lat.len()
    &&& forall|i: int|
        0 <= i < lat.len() ==> call_ensures(breaks, (lat[i], lat[0]), #[trigger] marks[i])
}

/// Whether the point where a probed row and a probed column cross is off neither,
/// or off one of them.
pub open spec fn crossing<T, R: Fn(T, T) -> bool, C: Fn(T, T) -> bool>(
    lat: Seq<T>,
    lon: Seq<T>,
    nx: int,
    ny: int,
    a: int,
    b: int,
    off_row: R,
    off_column: C,
    off: bool,
) -> bool {
    let row = projection::probe(ny, a);
    let column = projection::probe(nx, b);
    let point = row * nx + column;
    if off {
        ||| call_ensures(off_row, (lat[point], lat[row * nx]), true)
        ||| call_ensures(off_column, (lon[point], lon[column]), true)
    } else {
        &&& call_ensures(off_row, (lat[point], lat[row * nx]), false)
        &&& call_ensures(off_column, (lon[point], lon[column]), false)
    }
}

/// Whether every probed crossing is on its row and its column.
pub open spec fn regular<T, R: Fn(T, T) -> bool, C: Fn(T, T) -> bool>(
    lat: Seq<T>,
    lon: Seq<T>,
    nx: int,
    ny: int,
    off_row: R,
    off_column: C,
) -> bool {
    forall|a: int, b: int|
        0 <= a < 3 && 0 <= b < 3 ==> #[trigger] crossing(
            lat,
            lon,
            nx,
            ny,
            a,
            b,
            off_row,
            off_column,
            false,
        )
}

/// Whether some probed crossing is off its row or its column.
pub open spec fn irregular<T, R: Fn(T, T) -> bool, C: Fn(T, T) -> bool>(
    lat: Seq<T>,
    lon: Seq<T>,
    nx: int,
    ny: int,
    off_row: R,
    off_column: C,
) -> bool {
    exists|a: int, b: int|
        0 <= a < 3 && 0 <= b < 3 && #[trigger] crossing(
            lat,
            lon,
            nx,
            ny,
            a,
            b,
            off_row,
            off_column,
            true,
        )
}

/// Whether a grid with some latitudes marked is judged a regular mesh or not.
pub open spec fn judged<T, R: Fn(T, T) -> bool, C: Fn(T, T) -> bool>(
    lat: Seq<T>,
    lon: Seq<T>,
    marks: Seq<bool>,
    off_row: R,
    off_column: C,
    yes: bool,
) -> bool {
    let shaped = lat.len() == lon.len();
    if yes {
        shaped && exists|nx: int, ny: int|
            #[trigger] projection::is_mesh_shape(marks, nx, ny) && regular(
                lat,
                lon,
                nx,
                ny,
                off_row,
                off_column,
            )
    } else {
        ||| !shaped
        ||| forall|nx: int, ny: int| !#[trigger] projection::is_mesh_shape(marks, nx, ny)
        ||| exists|nx: int, ny: int|
            #[trigger] projection::is_mesh_shape(marks, nx, ny) && irregular(
                lat,
                lon,
                nx,
                ny,
                off_row,
                off_column,
            )
    }
}

/// Whether points are judged to lie on a regular latitude-longitude mesh or not.
pub open spec fn is_mesh<
    T,
    B: Fn(T, T) -> bool,
    R: Fn(T, T) -> bool,
    C: Fn(T, T) -> bool,
>(lat: Seq<T>, lon: Seq<T>, rules: MeshRules<B, R, C>, yes: bool) -> bool {
    exists|marks: Seq<bool>|
        #[trigger] marked(lat, rules.breaks, marks) && judged(
            lat,
            lon,
            marks,
            rules.off_row,
            rules.off_column,
            yes,
        )
}

/// Whether a rule tells two coordinates apart by them alone.
pub open spec fn told_once<T, F: Fn(T, T) -> bool>(rule: F) -> bool {
    forall|a: T, b: T|
        !(#[trigger] call_ensures(rule, (a, b), true) && call_ensures(rule, (a, b), false))
}

proof fn lemma_marked_once<T, B: Fn(T, T) -> bool>(
    lat: Seq<T>,
    breaks: B,
    m: Seq<bool>,
    n: Seq<bool>,
)
    requires
        told_once(breaks),
        marked(lat, breaks, m),
        marked(lat, breaks, n),
    ensures
        m == n,
{
    assert forall|i: int| 0 <= i < m.len() implies m[i] == n[i] by {
        assert(call_ensures(breaks, (lat[i], lat[0]), m[i]));
        assert(call_ensures(breaks, (lat[i], lat[0]), n[i]));
        if m[i] != n[i] {
            assert(call_ensures(breaks, (lat[i], lat[0]), true));
        }
    }
    assert(m =~= n);
}

proof fn lemma_shaped_once(marks: Seq<bool>, nx: int, ny: int, mx: int, my: int)
    requires
        projection::is_mesh_shape(marks, nx, ny),
        projection::is_mesh_shape(marks, mx, my),
    ensures
        nx == mx,
        ny == my,
{
    if nx < mx {
        assert(!marks[nx]);
    }
    if mx < nx {
        assert(!marks[mx]);
    }
    assert(ny == my) by (nonlinear_arith)
        requires
            nx * ny == nx * my,
            2 <= nx,
    ;
}

/// Coordinates that are told apart by themselves alone lie on a regular mesh or do not.
pub proof fn law_mesh_is_judged_once<
    T,
    B: Fn(T, T) -> bool,
    R: Fn(T, T) -> bool,
    C: Fn(T, T) -> bool,
>(lat: Seq<T>, lon: Seq<T>, rules: MeshRules<B, R, C>)
    requires
        told_once(rules.breaks),
        told_once(rules.off_row),
        told_once(rules.off_column),
    ensures
        !(is_mesh(lat, lon, rules, true) && is_mesh(lat, lon, rules, false)),
{
    if is_mesh(lat, lon, rules, true) && is_mesh(lat, lon, rules, false) {
        let m = choose|marks: Seq<bool>|
            #[trigger] marked(lat, rules.breaks, marks) && judged(
                lat,
                lon,
                marks,
                rules.off_row,
                rules.off_column,
                true,
            );
        let n = choose|marks: Seq<bool>|
            #[trigger] marked(lat, rules.breaks, marks) && judged(
                lat,
                lon,
                marks,
                rules.off_row,
                rules.off_column,
                false,
            );
        lemma_marked_once(lat, rules.breaks, m, n);
        let (nx, ny) = choose|nx: int, ny: int|
            #[trigger] projection::is_mesh_shape(m, nx, ny) && regular(
                lat,
                lon,
                nx,
                ny,
                rules.off_row,
                rules.off_column,
            );
        let (mx, my) = choose|nx: int, ny: int|
            #[trigger] projection::is_mesh_shape(m, nx, ny) && irregular(
                lat,
                lon,
                nx,
                ny,
                rules.off_row,
                rules.off_column,
            );
        lemma_shaped_once(m, nx, ny, mx, my);
        let (a, b) = choose|a: int, b: int|
            0 <= a < 3 && 0 <= b < 3 && #[trigger] crossing(
                lat,
                lon,
                nx,
                ny,
                a,
                b,
                rules.off_row,
                rules.off_column,
                true,
            );
        assert(crossing(lat, lon, nx, ny, a, b, rules.off_row, rules.off_column, false));
    }
}

/// Whether the points of a grid lie on a regular latitude-longitude mesh. Three
/// rows and three columns are probed, where they cross.
pub fn rectilinear_latlon_mesh_for_inverse<
    T: Copy,
    B: Fn(T, T) -> bool,
    R: Fn(T, T) -> bool,
    C: Fn(T, T) -> bool,
>(lat_deg: &[T], lon_deg: &[T], rules: &MeshRules<B, R, C>) -> (yes: bool)
    requires
        forall|a: T, b: T| #[trigger] call_requires(rules.breaks, (a, b)),
        forall|a: T, b: T| #[trigger] call_requires(rules.off_row, (a, b)),
        forall|a: T, b: T| #[trigger] call_requires(rules.off_column, (a, b)),
    ensures
        is_mesh(lat_deg@, lon_deg@, *rules, yes),
{
    let mut marks: Vec<bool> = Vec::new();
    let mut i: usize = 0;
    while i < lat_deg.len()
        invariant
            i <= lat_deg@.len(),
            marks@.len() == i,
            forall|a: T, b: T| #[trigger] call_requires(rules.breaks, (a, b)),
            forall|k: int|
                0 <= k < i ==> call_ensures(
                    rules.breaks,
                    (lat_deg@[k], lat_deg@[0]),
                    #[trigger] marks@[k],
                ),
        decreases lat_deg@.len() - i,
    {
        let mark: bool = (rules.breaks)(lat_deg[i], lat_deg[0]);
        marks.push(mark);
        i = i + 1;
    }
    proof {
        assert(marked(lat_deg@, rules.breaks, marks@));
    }
    let (nx, ny) = match rectilinear_mesh_shape(lat_deg.len(), lon_deg.len(), marks.as_slice()) {
        Some(shape) => shape,
        None => {
            return false;
        },
    };
    let samples = rectilinear_mesh_samples(nx, ny);
    let mut a: usize = 0;
    while a < 3
        invariant
            a <= 3,
            lat_deg@.len() == lon_deg@.len(),
            projection::is_mesh_shape(marks@, nx as int, ny as int),
            marks@.len() == lat_deg@.len(),
            marked(lat_deg@, rules.breaks, marks@),
            forall|x: T, y: T| #[trigger] call_requires(rules.off_row, (x, y)),
            forall|x: T, y: T| #[trigger] call_requires(rules.off_column, (x, y)),
            samples.in_rows@.len() == 9,
            samples.in_columns@.len() == 9,
            forall|p: int, q: int|
                0 <= p < 3 && 0 <= q < 3 ==> {
                    let row = #[trigger] projection::probe(ny as int, p);
                    let column = #[trigger] projection::probe(nx as int, q);
                    &&& samples.in_rows@[3 * p + q].0 == row * nx + column
                    &&& samples.in_rows@[3 * p + q].1 == row * nx
                    &&& samples.in_columns@[3 * p + q].0 == row * nx + column
                    &&& samples.in_columns@[3 * p + q].1 == column
                },
            forall|p: int, q: int|
                0 <= p < a && 0 <= q < 3 ==> #[trigger] crossing(
                    lat_deg@,
                    lon_deg@,
                    nx as int,
                    ny as int,
                    p,
                    q,
                    rules.off_row,
                    rules.off_column,
                    false,
                ),
        decreases 3 - a,
    {
        let mut b: usize = 0;
        while b < 3
            invariant
                a < 3,
                b <= 3,
                lat_deg@.len() == lon_deg@.len(),
                projection::is_mesh_shape(marks@, nx as int, ny as int),
                marks@.len() == lat_deg@.len(),
                marked(lat_deg@, rules.breaks, marks@),
                forall|x: T, y: T| #[trigger] call_requires(rules.off_row, (x, y)),
                forall|x: T, y: T| #[trigger] call_requires(rules.off_column, (x, y)),
                samples.in_rows@.len() == 9,
                samples.in_columns@.len() == 9,
                forall|p: int, q: int|
                    0 <= p < 3 && 0 <= q < 3 ==> {
                        let row = #[trigger] projection::probe(ny as int, p);
                        let column = #[trigger] projection::probe(nx as int, q);
                        &&& samples.in_rows@[3 * p + q].0 == row * nx + column
                        &&& samples.in_rows@[3 * p + q].1 == row * nx
                        &&& samples.in_columns@[3 * p + q].0 == row * nx + column
                        &&& samples.in_columns@[3 * p + q].1 == column
                    },
                forall|p: int, q: int|
                    (0 <= p < a && 0 <= q < 3) || (p == a && 0 <= q < b) ==> #[trigger] crossing(
                        lat_deg@,
                        lon_deg@,
                        nx as int,
                        ny as int,
                        p,
                        q,
                        rules.off_row,
                        rules.off_column,
                        false,
                    ),
            decreases 3 - b,
        {
            let (row_point, row_first) = samples.in_rows[3 * a + b];
            let (column_point, column_first) = samples.in_columns[3 * a + b];
            proof {
                let row = projection::probe(ny as int, a as int);
                let column = projection::probe(nx as int, b as int);
                assert(0 <= row < ny);
                assert(0 <= column < nx);
                assert(row * nx + column < nx * ny) by (nonlinear_arith)
                    requires
                        0 <= row < ny,
                        0 <= column < nx,
                ;
                assert(column < nx * ny) by (nonlinear_arith)
                    requires
                        0 <= column < nx,
                        2 <= ny,
                ;
            }
            let off_row: bool = (rules.off_row)(lat_deg[row_point], lat_deg[row_first]);
            let off_column: bool = (rules.off_column)(
                lon_deg[column_point],
                lon_deg[column_first],
            );
            if off_row || off_column {
                proof {
                    assert(crossing(
                        lat_deg@,
                        lon_deg@,
                        nx as int,
                        ny as int,
                        a as int,
                        b as int,
                        rules.off_row,
                        rules.off_column,
                        true,
                    ));
                    assert(irregular(
                        lat_deg@,
                        lon_deg@,
                        nx as int,
                        ny as int,
                        rules.off_row,
                        rules.off_column,
                    ));
                }
                return false;
            }
            b = b + 1;
        }
        a = a + 1;
    }
    proof {
        assert(regular(
            lat_deg@,
            lon_deg@,
            nx as int,
            ny as int,
            rules.off_row,
            rules.off_column,
        ));
    }
    true
}

/// A grid whose rows share a latitude and whose columns share a longitude is judged
/// a mesh.
pub proof fn law_straight_rows_and_columns_make_a_mesh<
    T,
    B: Fn(T, T) -> bool,
    R: Fn(T, T) -> bool,
    C: Fn(T, T) -> bool,
>(lat: Seq<T>, lon: Seq<T>, rules: MeshRules<B, R, C>, nx: int, ny: int, yes: bool)
    requires
        is_mesh(lat, lon, rules, yes),
        told_once(rules.breaks),
        told_once(rules.off_row),
        told_once(rules.off_column),
        2 <= nx,
        2 <= ny,
        9 <= nx * ny,
        lat.len() == nx * ny,
        lon.len() == nx * ny,
        forall|k: int| 1 <= k < nx ==> call_ensures(rules.breaks, (#[trigger] lat[k], lat[0]), false),
        call_ensures(rules.breaks, (lat[nx], lat[0]), true),
        forall|row: int, column: int|
            #![trigger lat[row * nx + column]]
            0 <= row < ny && 0 <= column < nx ==> call_ensures(
                rules.off_row,
                (lat[row * nx + column], lat[row * nx]),
                false,
            ),
        forall|row: int, column: int|
            #![trigger lon[row * nx + column]]
            0 <= row < ny && 0 <= column < nx ==> call_ensures(
                rules.off_column,
                (lon[row * nx + column], lon[column]),
                false,
            ),
    ensures
        yes,
{
    let marks = choose|marks: Seq<bool>|
        #[trigger] marked(lat, rules.breaks, marks) && judged(
            lat,
            lon,
            marks,
            rules.off_row,
            rules.off_column,
            yes,
        );
    assert(nx * ny >= 2 * nx) by (nonlinear_arith)
        requires
            2 <= ny,
            2 <= nx,
    ;
    assert forall|k: int| 1 <= k < nx implies !marks[k] by {
        assert(call_ensures(rules.breaks, (lat[k], lat[0]), marks[k]));
    }
    assert(call_ensures(rules.breaks, (lat[nx], lat[0]), marks[nx]));
    assert(projection::is_mesh_shape(marks, nx, ny));
    if !yes {
        let (a, b) = choose|a: int, b: int|
            #[trigger] projection::is_mesh_shape(marks, a, b) && irregular(
                lat,
                lon,
                a,
                b,
                rules.off_row,
                rules.off_column,
            );
        if a < nx {
            assert(!marks[a]);
        }
        if nx < a {
            assert(!marks[nx]);
        }
        assert(b == ny) by (nonlinear_arith)
            requires
                a == nx,
                a * b == nx * ny,
                2 <= nx,
        ;
        let (i, j) = choose|i: int, j: int|
            0 <= i < 3 && 0 <= j < 3 && #[trigger] crossing(
                lat,
                lon,
                a,
                b,
                i,
                j,
                rules.off_row,
                rules.off_column,
                true,
            );
        let row = projection::probe(ny, i);
        let column = projection::probe(nx, j);
        assert(0 <= row < ny && 0 <= column < nx);
        let point = row * nx + column;
        assert(call_ensures(rules.off_row, (lat[point], lat[row * nx]), false));
        assert(call_ensures(rules.off_column, (lon[point], lon[column]), false));
    }
}

/// The probes are the first, the middle and the last of what is probed.
pub proof fn law_probes_reach_both_ends(count: int, k: int)
    requires
        1 <= count,
    ensures
        projection::probe(count, 0) == 0,
        projection::probe(count, 2) == count - 1,
        0 <= projection::probe(count, k) < count,
        -1 <= 2 * projection::probe(count, 1) - count <= 0,
{
}

} // verus!
