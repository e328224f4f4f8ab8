//! How far the cells of a grid lie apart.
//!
//! Distances and sums of values come as functions.
use crate::derived::levels::{check_spacing_counts, check_spacing_grid, LengthMismatch};
use vstd::prelude::*;

verus! {

/// The neighbours in a row, from left to right.
pub open spec fn row_pairs(nx: int, y: int) -> Seq<(usize, usize)> {
    Seq::new(
        if nx < 1 {
            0
        } else {
            (nx - 1) as nat
        },
        |x: int| ((y * nx + x) as usize, (y * nx + x + 1) as usize),
    )
}

/// The neighbours in a column, from the first row on.
pub open spec fn column_pairs(nx: int, ny: int, x: int) -> Seq<(usize, usize)> {
    Seq::new(
        if ny < 1 {
            0
        } else {
            (ny - 1) as nat
        },
        |y: int| ((y * nx + x) as usize, ((y + 1) * nx + x) as usize),
    )
}

/// The neighbours in the first rows, row after row.
pub open spec fn pairs_along_rows(nx: int, rows: int) -> Seq<(usize, usize)>
    decreases rows,
{
    if rows <= 0 {
        Seq::empty()
    } else {
        pairs_along_rows(nx, rows - 1) + row_pairs(nx, rows - 1)
    }
}

/// The neighbours between the first rows and the rows after them, row after row.
pub open spec fn pairs_across_rows(nx: int, rows: int) -> Seq<(usize, usize)> {
    Seq::new(
        if rows <= 0 {
            0
        } else {
            (rows * nx) as nat
        },
        |cell: int| (cell as usize, (cell + nx) as usize),
    )
}

/// Whether all pairs lie on a grid.
pub open spec fn on_grid(pairs: Seq<(usize, usize)>, cells: int) -> bool {
    forall|k: int| 0 <= k < pairs.len() ==> (#[trigger] pairs[k]).0 < cells && pairs[k].1 < cells
}

fn push_row_pairs(pairs: &mut Vec<(usize, usize)>, nx: usize, ny: usize, y: usize)
    requires
        y < ny,
        nx * ny <= usize::MAX,
        on_grid(old(pairs)@, nx * ny),
    ensures
        final(pairs)@ == old(pairs)@ + row_pairs(nx as int, y as int),
        on_grid(final(pairs)@, nx * ny),
{
    let ghost before = pairs@;
    if nx < 2 {
        proof {
            assert(pairs@ =~= before + row_pairs(nx as int, y as int));
        }
        return ;
    }
    proof {
        assert(y * nx + nx <= nx * ny) by (nonlinear_arith)
            requires
                y + 1 <= ny,
        ;
        assert(0 <= y * nx) by (nonlinear_arith);
    }
    let start: usize = y * nx;
    let mut x: usize = 0;
    while x < nx - 1
        invariant
            nx >= 2,
            x <= nx - 1,
            start == y * nx,
            start + nx <= nx * ny,
            nx * ny <= usize::MAX,
            on_grid(pairs@, nx * ny),
            pairs@ == before + row_pairs(nx as int, y as int).take(x as int),
        decreases nx - 1 - x,
    {
        pairs.push((start + x, start + x + 1));
        proof {
            let row = row_pairs(nx as int, y as int);
            assert(row.take(x + 1) =~= row.take(x as int).push(row[x as int]));
            assert(pairs@ =~= before + row.take(x + 1));
        }
        x = x + 1;
    }
    proof {
        let row = row_pairs(nx as int, y as int);
        assert(row.take(x as int) =~= row);
    }
}

fn push_column_pairs(pairs: &mut Vec<(usize, usize)>, nx: usize, ny: usize, x: usize)
    requires
        x < nx,
        nx * ny <= usize::MAX,
        on_grid(old(pairs)@, nx * ny),
    ensures
        final(pairs)@ == old(pairs)@ + column_pairs(nx as int, ny as int, x as int),
        on_grid(final(pairs)@, nx * ny),
{
    let ghost before = pairs@;
    if ny < 2 {
        proof {
            assert(pairs@ =~= before + column_pairs(nx as int, ny as int, x as int));
        }
        return ;
    }
    let mut y: usize = 0;
    while y < ny - 1
        invariant
            ny >= 2,
            y <= ny - 1,
            x < nx,
            nx * ny <= usize::MAX,
            on_grid(pairs@, nx * ny),
            pairs@ == before + column_pairs(nx as int, ny as int, x as int).take(y as int),
        decreases ny - 1 - y,
    {
        proof {
            assert((y + 1) * nx + nx <= nx * ny) by (nonlinear_arith)
                requires
                    y + 2 <= ny,
            ;
            assert(0 <= y * nx <= (y + 1) * nx) by (nonlinear_arith);
        }
        pairs.push((y * nx + x, (y + 1) * nx + x));
        proof {
            let column = column_pairs(nx as int, ny as int, x as int);
            assert(column.take(y + 1) =~= column.take(y as int).push(column[y as int]));
            assert(pairs@ =~= before + column.take(y + 1));
        }
        y = y + 1;
    }
    proof {
        let column = column_pairs(nx as int, ny as int, x as int);
        assert(column.take(y as int) =~= column);
    }
}

fn list_pairs_along_rows(nx: usize, ny: usize) -> (pairs: Vec<(usize, usize)>)
    requires
        nx * ny <= usize::MAX,
    ensures
        pairs@ == pairs_along_rows(nx as int, ny as int),
        on_grid(pairs@, nx * ny),
{
    let mut pairs: Vec<(usize, usize)> = Vec::new();
    let mut y: usize = 0;
    while y < ny
        invariant
            y <= ny,
            nx * ny <= usize::MAX,
            pairs@ == pairs_along_rows(nx as int, y as int),
            on_grid(pairs@, nx * ny),
        decreases ny - y,
    {
        push_row_pairs(&mut pairs, nx, ny, y);
        y = y + 1;
    }
    pairs
}

fn list_pairs_across_rows(nx: usize, ny: usize) -> (pairs: Vec<(usize, usize)>)
    requires
        1 <= ny,
        nx * ny <= usize::MAX,
    ensures
        pairs@ == pairs_across_rows(nx as int, ny - 1),
        on_grid(pairs@, nx * ny),
{
    let mut pairs: Vec<(usize, usize)> = Vec::new();
    proof {
        assert((ny - 1) * nx + nx == nx * ny) by (nonlinear_arith);
        assert(0 <= (ny - 1) * nx) by (nonlinear_arith)
            requires
                1 <= ny,
        ;
    }
    let count: usize = (ny - 1) * nx;
    let mut cell: usize = 0;
    while cell < count
        invariant
            cell <= count,
            count == (ny - 1) * nx,
            count + nx == nx * ny,
            nx * ny <= usize::MAX,
            pairs@.len() == cell,
            forall|k: int|
                0 <= k < cell ==> (#[trigger] pairs@[k]).0 == k && pairs@[k].1 == k + nx,
        decreases count - cell,
    {
        pairs.push((cell, cell + nx));
        cell = cell + 1;
    }
    proof {
        assert(pairs@ =~= pairs_across_rows(nx as int, ny - 1));
    }
    pairs
}

/// How distances are measured and added.
pub struct SpacingRules<T, D, U, S, M> {
    /// The distance of two points, each a latitude and a longitude.
    pub distance: D,
    /// Whether a distance counts.
    pub counts: U,
    /// The sum of two distances.
    pub sum: S,
    /// A sum over a number of distances.
    pub mean: M,
    /// No distance.
    pub nothing: T,
}

/// Whether one distance was added to a sum, or left out because it does not count.
pub open spec fn added<
    T,
    D: Fn(T, T, T, T) -> T,
    U: Fn(T) -> bool,
    S: Fn(T, T) -> T,
    M: Fn(T, usize) -> T,
>(
    lat: Seq<T>,
    lon: Seq<T>,
    pair: (usize, usize),
    rules: SpacingRules<T, D, U, S, M>,
    before: (T, int),
    after: (T, int),
) -> bool {
    let a = pair.0 as int;
    let b = pair.1 as int;
    exists|gap: T|
        #[trigger] call_ensures(rules.distance, (lat[a], lon[a], lat[b], lon[b]), gap) && {
            ||| call_ensures(rules.counts, (gap,), false) && after == before
            ||| call_ensures(rules.counts, (gap,), true) && after.1 == before.1 + 1
                && call_ensures(rules.sum, (before.0, gap), after.0)
        }
}

/// Whether each sum of a chain comes of the one before it and the next pair.
pub open spec fn is_sum_chain<
    T,
    D: Fn(T, T, T, T) -> T,
    U: Fn(T) -> bool,
    S: Fn(T, T) -> T,
    M: Fn(T, usize) -> T,
>(
    lat: Seq<T>,
    lon: Seq<T>,
    pairs: Seq<(usize, usize)>,
    rules: SpacingRules<T, D, U, S, M>,
    chain: Seq<(T, int)>,
) -> bool {
    &&& chain.len() == pairs.len() + 1
    &&& chain[0] == (rules.nothing, 0int)
    &&& forall|k: int|
        0 <= k < pairs.len() ==> added(
            lat,
            lon,
            #[trigger] pairs[k],
            rules,
            chain[k],
            chain[k + 1],
        )
}

/// Whether the distances of some neighbours that count have a sum and a number.
pub open spec fn sums_to<
    T,
    D: Fn(T, T, T, T) -> T,
    U: Fn(T) -> bool,
    S: Fn(T, T) -> T,
    M: Fn(T, usize) -> T,
>(
    lat: Seq<T>,
    lon: Seq<T>,
    pairs: Seq<(usize, usize)>,
    rules: SpacingRules<T, D, U, S, M>,
    total: (T, int),
) -> bool {
    exists|chain: Seq<(T, int)>|
        #[trigger] is_sum_chain(lat, lon, pairs, rules, chain) && chain[pairs.len() as int] == total
}

/// Whether the rules can be called on all values.
pub open spec fn measurable<
    T,
    D: Fn(T, T, T, T) -> T,
    U: Fn(T) -> bool,
    S: Fn(T, T) -> T,
    M: Fn(T, usize) -> T,
>(rules: SpacingRules<T, D, U, S, M>) -> bool {
    &&& forall|a: T, b: T, c: T, d: T| #[trigger] call_requires(rules.distance, (a, b, c, d))
    &&& forall|a: T| #[trigger] call_requires(rules.counts, (a,))
    &&& forall|a: T, b: T| #[trigger] call_requires(rules.sum, (a, b))
    &&& forall|a: T, n: usize| #[trigger] call_requires(rules.mean, (a, n))
}

fn sum_gaps<
    T: Copy,
    D: Fn(T, T, T, T) -> T,
    U: Fn(T) -> bool,
    S: Fn(T, T) -> T,
    M: Fn(T, usize) -> T,
>(
    lat: &[T],
    lon: &[T],
    pairs: &Vec<(usize, usize)>,
    rules: &SpacingRules<T, D, U, S, M>,
) -> (total: (T, usize))
    requires
        measurable(*rules),
        on_grid(pairs@, lat@.len() as int),
        on_grid(pairs@, lon@.len() as int),
    ensures
        sums_to(lat@, lon@, pairs@, *rules, (total.0, total.1 as int)),
{
    let mut sum = rules.nothing;
    let mut count: usize = 0;
    let ghost mut chain: Seq<(T, int)> = seq![(sum, 0int)];
    let mut i: usize = 0;
    while i < pairs.len()
        invariant
            i <= pairs@.len(),
            measurable(*rules),
            on_grid(pairs@, lat@.len() as int),
            on_grid(pairs@, lon@.len() as int),
            count <= i,
            chain.len() == i + 1,
            chain[0] == (rules.nothing, 0int),
            chain[i as int] == (sum, count as int),
            forall|k: int|
                0 <= k < i ==> added(
                    lat@,
                    lon@,
                    #[trigger] pairs@[k],
                    *rules,
                    chain[k],
                    chain[k + 1],
                ),
        decreases pairs@.len() - i,
    {
        let (a, b) = pairs[i];
        let ghost before = chain;
        proof {
            assert(pairs@[i as int].0 < lat@.len() && pairs@[i as int].0 < lon@.len());
        }
        let gap = (rules.distance)(lat[a], lon[a], lat[b], lon[b]);
        let counts: bool = (rules.counts)(gap);
        if counts {
            sum = (rules.sum)(sum, gap);
            count = count + 1;
        }
        proof {
            chain = chain.push((sum, count as int));
            assert(added(
                lat@,
                lon@,
                pairs@[i as int],
                *rules,
                before[i as int],
                chain[i + 1],
            ));
            assert forall|k: int| 0 <= k < i + 1 implies added(
                lat@,
                lon@,
                #[trigger] pairs@[k],
                *rules,
                chain[k],
                chain[k + 1],
            ) by {
                assert(chain[k] == before[k]);
                if k < i {
                    assert(chain[k + 1] == before[k + 1]);
                }
            }
        }
        i = i + 1;
    }
    proof {
        assert(is_sum_chain(lat@, lon@, pairs@, *rules, chain));
    }
    (sum, count)
}

/// Whether a refusal tells how many cells were expected and how many there were.
pub open spec fn is_mismatch(mismatch: LengthMismatch, expected: int, actual: int) -> bool {
    &&& mismatch.field@ == "grid_spacing"@
    &&& mismatch.expected == expected
    &&& mismatch.actual == actual
}

/// Whether a grid's spacing is the mean distance of its neighbours along and
/// across the rows, or refused.
pub open spec fn is_spacing<
    T,
    D: Fn(T, T, T, T) -> T,
    U: Fn(T) -> bool,
    S: Fn(T, T) -> T,
    M: Fn(T, usize) -> T,
>(
    nx: usize,
    ny: usize,
    lat: Seq<T>,
    lon: Seq<T>,
    rules: SpacingRules<T, D, U, S, M>,
    spacing: Result<(T, T), LengthMismatch>,
) -> bool {
    if nx < 2 || ny < 2 {
        spacing is Err && is_mismatch(spacing->Err_0, 4, nx * ny)
    } else {
        exists|dx: (T, int), dy: (T, int)|
            #![trigger sums_to(
                lat,
                lon,
                pairs_along_rows(nx as int, ny as int),
                rules,
                dx,
            ), sums_to(lat, lon, pairs_across_rows(nx as int, ny - 1), rules, dy)]
            sums_to(lat, lon, pairs_along_rows(nx as int, ny as int), rules, dx) && sums_to(
                lat,
                lon,
                pairs_across_rows(nx as int, ny - 1),
                rules,
                dy,
            ) && mean_of(dx, dy, rules.mean, spacing)
    }
}

/// Whether a spacing is that of two sums, of which neither is empty.
pub open spec fn mean_of<T, M: Fn(T, usize) -> T>(
    dx: (T, int),
    dy: (T, int),
    mean: M,
    spacing: Result<(T, T), LengthMismatch>,
) -> bool {
    if dx.1 == 0 || dy.1 == 0 {
        spacing is Err && is_mismatch(spacing->Err_0, 2, 0)
    } else {
        &&& spacing is Ok
        &&& call_ensures(mean, (dx.0, dx.1 as usize), spacing->Ok_0.0)
        &&& call_ensures(mean, (dy.0, dy.1 as usize), spacing->Ok_0.1)
    }
}

/// Whether distances and sums have one result each.
#[verifier::opaque]
pub open spec fn distances_settled<
    T,
    D: Fn(T, T, T, T) -> T,
    U: Fn(T) -> bool,
    S: Fn(T, T) -> T,
    M: Fn(T, usize) -> T,
>(rules: SpacingRules<T, D, U, S, M>) -> bool {
    &&& forall|a: T, b: T, c: T, d: T, x: T, y: T|
        #![trigger call_ensures(rules.distance, (a, b, c, d), x), call_ensures(rules.distance, (a, b, c, d), y)]
        call_ensures(rules.distance, (a, b, c, d), x) && call_ensures(
            rules.distance,
            (a, b, c, d),
            y,
        ) ==> x == y
    &&& forall|a: T|
        !(#[trigger] call_ensures(rules.counts, (a,), true) && call_ensures(
            rules.counts,
            (a,),
            false,
        ))
    &&& forall|a: T, b: T, x: T, y: T|
        #![trigger call_ensures(rules.sum, (a, b), x), call_ensures(rules.sum, (a, b), y)]
        call_ensures(rules.sum, (a, b), x) && call_ensures(rules.sum, (a, b), y) ==> x == y
    &&& forall|a: T, n: usize, x: T, y: T|
        #![trigger call_ensures(rules.mean, (a, n), x), call_ensures(rules.mean, (a, n), y)]
        call_ensures(rules.mean, (a, n), x) && call_ensures(rules.mean, (a, n), y) ==> x == y
}

proof fn lemma_chain_once<
    T,
    D: Fn(T, T, T, T) -> T,
    U: Fn(T) -> bool,
    S: Fn(T, T) -> T,
    M: Fn(T, usize) -> T,
>(
    lat: Seq<T>,
    lon: Seq<T>,
    pairs: Seq<(usize, usize)>,
    rules: SpacingRules<T, D, U, S, M>,
    a: Seq<(T, int)>,
    b: Seq<(T, int)>,
    k: int,
)
    requires
        distances_settled(rules),
        is_sum_chain(lat, lon, pairs, rules, a),
        is_sum_chain(lat, lon, pairs, rules, b),
        0 <= k <= pairs.len(),
    ensures
        a[k] == b[k],
    decreases k,
{
    if k > 0 {
        lemma_chain_once(lat, lon, pairs, rules, a, b, k - 1);
        reveal(distances_settled);
        let pair = pairs[k - 1];
        assert(added(lat, lon, pair, rules, a[k - 1], a[k - 1 + 1]));
        assert(added(lat, lon, pair, rules, b[k - 1], b[k - 1 + 1]));
    }
}

proof fn lemma_sums_once<
    T,
    D: Fn(T, T, T, T) -> T,
    U: Fn(T) -> bool,
    S: Fn(T, T) -> T,
    M: Fn(T, usize) -> T,
>(
    lat: Seq<T>,
    lon: Seq<T>,
    pairs: Seq<(usize, usize)>,
    rules: SpacingRules<T, D, U, S, M>,
    a: (T, int),
    b: (T, int),
)
    requires
        distances_settled(rules),
        sums_to(lat, lon, pairs, rules, a),
        sums_to(lat, lon, pairs, rules, b),
    ensures
        a == b,
{
    let x = choose|chain: Seq<(T, int)>|
        #[trigger] is_sum_chain(lat, lon, pairs, rules, chain) && chain[pairs.len() as int] == a;
    let y = choose|chain: Seq<(T, int)>|
        #[trigger] is_sum_chain(lat, lon, pairs, rules, chain) && chain[pairs.len() as int] == b;
    lemma_chain_once(lat, lon, pairs, rules, x, y, pairs.len() as int);
}

/// A grid has one spacing, or none, where distances and sums have one result each.
pub proof fn law_spacing_is_unique<
    T,
    D: Fn(T, T, T, T) -> T,
    U: Fn(T) -> bool,
    S: Fn(T, T) -> T,
    M: Fn(T, usize) -> T,
>(
    nx: usize,
    ny: usize,
    lat: Seq<T>,
    lon: Seq<T>,
    rules: SpacingRules<T, D, U, S, M>,
    a: Result<(T, T), LengthMismatch>,
    b: Result<(T, T), LengthMismatch>,
)
    requires
        distances_settled(rules),
        is_spacing(nx, ny, lat, lon, rules, a),
        is_spacing(nx, ny, lat, lon, rules, b),
    ensures
        match (a, b) {
            (Ok(x), Ok(y)) => x == y,
            (Err(m), Err(n)) => m.field@ == n.field@ && m.expected == n.expected && m.actual
                == n.actual,
            _ => false,
        },
{
    if nx >= 2 && ny >= 2 {
        let along = pairs_along_rows(nx as int, ny as int);
        let across = pairs_across_rows(nx as int, ny - 1);
        let (p, q) = choose|dx: (T, int), dy: (T, int)|
            #![trigger sums_to(lat, lon, along, rules, dx), sums_to(lat, lon, across, rules, dy)]
            sums_to(lat, lon, along, rules, dx) && sums_to(lat, lon, across, rules, dy) && mean_of(
                dx,
                dy,
                rules.mean,
                a,
            );
        let (r, s) = choose|dx: (T, int), dy: (T, int)|
            #![trigger sums_to(lat, lon, along, rules, dx), sums_to(lat, lon, across, rules, dy)]
            sums_to(lat, lon, along, rules, dx) && sums_to(lat, lon, across, rules, dy) && mean_of(
                dx,
                dy,
                rules.mean,
                b,
            );
        lemma_sums_once(lat, lon, along, rules, p, r);
        lemma_sums_once(lat, lon, across, rules, q, s);
        reveal(distances_settled);
    }
}

/// The mean distance of neighbouring cells, along the rows and across them.
pub fn estimate_grid_spacing_m<
    T: Copy,
    D: Fn(T, T, T, T) -> T,
    U: Fn(T) -> bool,
    S: Fn(T, T) -> T,
    M: Fn(T, usize) -> T,
>(
    nx: usize,
    ny: usize,
    lat: &[T],
    lon: &[T],
    rules: &SpacingRules<T, D, U, S, M>,
) -> (spacing: Result<(T, T), LengthMismatch>)
    requires
        measurable(*rules),
        nx >= 2 && ny >= 2 ==> nx * ny <= lat@.len() && nx * ny <= lon@.len(),
    ensures
        is_spacing(nx, ny, lat@, lon@, *rules, spacing),
{
    if let Err(mismatch) = check_spacing_grid(nx, ny) {
        return Err(mismatch);
    }
    proof {
        assert(lat.len() <= usize::MAX);
    }
    let along = list_pairs_along_rows(nx, ny);
    let across = list_pairs_across_rows(nx, ny);
    let (dx_sum, dx_count) = sum_gaps(lat, lon, &along, rules);
    let (dy_sum, dy_count) = sum_gaps(lat, lon, &across, rules);
    let ghost dx = (dx_sum, dx_count as int);
    let ghost dy = (dy_sum, dy_count as int);
    proof {
        assert(sums_to(lat@, lon@, pairs_along_rows(nx as int, ny as int), *rules, dx));
        assert(sums_to(lat@, lon@, pairs_across_rows(nx as int, ny - 1), *rules, dy));
    }
    if let Err(mismatch) = check_spacing_counts(dx_count, dy_count) {
        proof {
            assert(mean_of(dx, dy, rules.mean, Err::<(T, T), LengthMismatch>(mismatch)));
        }
        return Err(mismatch);
    }
    let dx_m = (rules.mean)(dx_sum, dx_count);
    let dy_m = (rules.mean)(dy_sum, dy_count);
    proof {
        assert(mean_of(dx, dy, rules.mean, Ok::<(T, T), LengthMismatch>((dx_m, dy_m))));
    }
    Ok((dx_m, dy_m))
}

/// What tells how close coordinates are.
pub struct ClosenessRules<T, X, Y, C, F> {
    /// The gap of two longitudes.
    pub lon_gap: X,
    /// The gap of two latitudes.
    pub lat_gap: Y,
    /// Whether a gap counts and is smaller than another.
    pub closer: C,
    /// Whether a gap was found at all.
    pub found: F,
    /// A gap that all others are smaller than.
    pub widest: T,
}

/// Whether each gap of a chain is the one before it, or the next one where that
/// is smaller.
pub open spec fn is_gap_chain<T, G: Fn(T, T) -> T, C: Fn(T, T) -> bool>(
    values: Seq<T>,
    pairs: Seq<(usize, usize)>,
    gap: G,
    closer: C,
    chain: Seq<T>,
) -> bool {
    &&& chain.len() == pairs.len() + 1
    &&& forall|k: int|
        0 <= k < pairs.len() ==> narrows(
            values,
            #[trigger] pairs[k],
            gap,
            closer,
            chain[k],
            chain[k + 1],
        )
}

/// Whether a gap comes of the one before it and a pair.
pub open spec fn narrows<T, G: Fn(T, T) -> T, C: Fn(T, T) -> bool>(
    values: Seq<T>,
    pair: (usize, usize),
    gap: G,
    closer: C,
    before: T,
    after: T,
) -> bool {
    exists|found: T|
        #[trigger] call_ensures(gap, (values[pair.0 as int], values[pair.1 as int]), found) && {
            ||| call_ensures(closer, (found, before), true) && after == found
            ||| call_ensures(closer, (found, before), false) && after == before
        }
}

/// Whether a gap is the smallest of some neighbours, starting from another.
pub open spec fn narrowest<T, G: Fn(T, T) -> T, C: Fn(T, T) -> bool>(
    values: Seq<T>,
    pairs: Seq<(usize, usize)>,
    gap: G,
    closer: C,
    start: T,
    best: T,
) -> bool {
    exists|chain: Seq<T>|
        #[trigger] is_gap_chain(values, pairs, gap, closer, chain) && chain[0] == start
            && chain[pairs.len() as int] == best
}

fn narrow_gaps<T: Copy, G: Fn(T, T) -> T, C: Fn(T, T) -> bool>(
    values: &[T],
    pairs: &Vec<(usize, usize)>,
    gap: &G,
    closer: &C,
    start: T,
) -> (best: T)
    requires
        on_grid(pairs@, values@.len() as int),
        forall|a: T, b: T| #[trigger] call_requires(*gap, (a, b)),
        forall|a: T, b: T| #[trigger] call_requires(*closer, (a, b)),
    ensures
        narrowest(values@, pairs@, *gap, *closer, start, best),
{
    let mut best = start;
    let ghost mut chain: Seq<T> = seq![start];
    let mut i: usize = 0;
    while i < pairs.len()
        invariant
            i <= pairs@.len(),
            on_grid(pairs@, values@.len() as int),
            forall|a: T, b: T| #[trigger] call_requires(*gap, (a, b)),
            forall|a: T, b: T| #[trigger] call_requires(*closer, (a, b)),
            chain.len() == i + 1,
            chain[0] == start,
            chain[i as int] == best,
            forall|k: int|
                0 <= k < i ==> narrows(
                    values@,
                    #[trigger] pairs@[k],
                    *gap,
                    *closer,
                    chain[k],
                    chain[k + 1],
                ),
        decreases pairs@.len() - i,
    {
        let (a, b) = pairs[i];
        let ghost before = chain;
        proof {
            assert(pairs@[i as int].0 < values@.len());
        }
        let found = gap(values[a], values[b]);
        let closer_here: bool = closer(found, best);
        if closer_here {
            best = found;
        }
        proof {
            chain = chain.push(best);
            assert(narrows(
                values@,
                pairs@[i as int],
                *gap,
                *closer,
                before[i as int],
                chain[i + 1],
            ));
            assert forall|k: int| 0 <= k < i + 1 implies narrows(
                values@,
                #[trigger] pairs@[k],
                *gap,
                *closer,
                chain[k],
                chain[k + 1],
            ) by {
                assert(chain[k] == before[k]);
                if k < i {
                    assert(chain[k + 1] == before[k + 1]);
                }
            }
        }
        i = i + 1;
    }
    proof {
        assert(is_gap_chain(values@, pairs@, *gap, *closer, chain));
    }
    best
}

/// The neighbours in the first, the middle and the last row.
pub open spec fn probed_rows(nx: int, ny: int) -> Seq<(usize, usize)> {
    if ny < 1 {
        Seq::empty()
    } else {
        row_pairs(nx, 0) + row_pairs(nx, ny / 2) + row_pairs(nx, ny - 1)
    }
}

/// The neighbours in the first, the middle and the last column.
pub open spec fn probed_columns(nx: int, ny: int) -> Seq<(usize, usize)> {
    if nx < 1 {
        Seq::empty()
    } else {
        column_pairs(nx, ny, 0) + column_pairs(nx, ny, nx / 2) + column_pairs(nx, ny, nx - 1)
    }
}

/// Whether a spacing in degrees is the smallest gap of longitudes in the probed
/// rows and of latitudes in the probed columns.
pub open spec fn is_closest<
    T,
    X: Fn(T, T) -> T,
    Y: Fn(T, T) -> T,
    C: Fn(T, T) -> bool,
    F: Fn(T) -> bool,
>(
    nx: usize,
    ny: usize,
    lat: Seq<T>,
    lon: Seq<T>,
    rules: ClosenessRules<T, X, Y, C, F>,
    spacing: Option<T>,
) -> bool {
    if nx < 2 && ny < 2 {
        spacing is None
    } else {
        exists|along: T, best: T|
            #![trigger narrowest(
                lon,
                probed_rows(nx as int, ny as int),
                rules.lon_gap,
                rules.closer,
                rules.widest,
                along,
            ), narrowest(
                lat,
                probed_columns(nx as int, ny as int),
                rules.lat_gap,
                rules.closer,
                along,
                best,
            )]
            narrowest(
                lon,
                probed_rows(nx as int, ny as int),
                rules.lon_gap,
                rules.closer,
                rules.widest,
                along,
            ) && narrowest(
                lat,
                probed_columns(nx as int, ny as int),
                rules.lat_gap,
                rules.closer,
                along,
                best,
            ) && match spacing {
                Some(gap) => gap == best && call_ensures(rules.found, (best,), true),
                None => call_ensures(rules.found, (best,), false),
            }
    }
}

/// The smallest gap of neighbouring longitudes or latitudes, where three rows and
/// three columns are looked at.
pub fn estimate_geographic_grid_spacing_deg<
    T: Copy,
    X: Fn(T, T) -> T,
    Y: Fn(T, T) -> T,
    C: Fn(T, T) -> bool,
    F: Fn(T) -> bool,
>(
    nx: usize,
    ny: usize,
    lat: &[T],
    lon: &[T],
    rules: &ClosenessRules<T, X, Y, C, F>,
) -> (spacing: Option<T>)
    requires
        nx * ny == lat@.len(),
        nx * ny == lon@.len(),
        forall|a: T, b: T| #[trigger] call_requires(rules.lon_gap, (a, b)),
        forall|a: T, b: T| #[trigger] call_requires(rules.lat_gap, (a, b)),
        forall|a: T, b: T| #[trigger] call_requires(rules.closer, (a, b)),
        forall|a: T| #[trigger] call_requires(rules.found, (a,)),
    ensures
        is_closest(nx, ny, lat@, lon@, *rules, spacing),
{
    if nx < 2 && ny < 2 {
        return None;
    }
    proof {
        assert(lat.len() <= usize::MAX);
    }
    let mut rows: Vec<(usize, usize)> = Vec::new();
    if ny >= 1 {
        push_row_pairs(&mut rows, nx, ny, 0);
        push_row_pairs(&mut rows, nx, ny, ny / 2);
        push_row_pairs(&mut rows, nx, ny, ny - 1);
    }
    proof {
        assert(rows@ =~= probed_rows(nx as int, ny as int));
    }
    let mut columns: Vec<(usize, usize)> = Vec::new();
    if nx >= 1 {
        push_column_pairs(&mut columns, nx, ny, 0);
        push_column_pairs(&mut columns, nx, ny, nx / 2);
        push_column_pairs(&mut columns, nx, ny, nx - 1);
    }
    proof {
        assert(columns@ =~= probed_columns(nx as int, ny as int));
    }
    let along = narrow_gaps(lon, &rows, &rules.lon_gap, &rules.closer, rules.widest);
    let best = narrow_gaps(lat, &columns, &rules.lat_gap, &rules.closer, along);
    let found: bool = (rules.found)(best);
    if found {
        Some(best)
    } else {
        None
    }
}

} // verus!
