//! What the spacing of a grid is made of.
use crate::derived::levels::LengthMismatch;
use crate::gridded::spacing;
use crate::gridded::spacing::{ClosenessRules, SpacingRules};
use vstd::prelude::*;

verus! {

proof fn lemma_pairs_along_rows(nx: int, rows: int, ny: int, k: int)
    requires
        0 < nx,
        0 <= rows <= ny,
        ny * nx <= usize::MAX,
        0 <= k < spacing::pairs_along_rows(nx, rows).len(),
    ensures
        ({
            let pair = spacing::pairs_along_rows(nx, rows)[k];
            &&& pair.1 == pair.0 + 1
            &&& pair.1 % nx as usize != 0
            &&& pair.1 < rows * nx
        }),
    decreases rows,
{
    if rows > 0 {
        let before = spacing::pairs_along_rows(nx, rows - 1);
        let y = rows - 1;
        assert(rows * nx == y * nx + nx) by (nonlinear_arith)
            requires
                y == rows - 1,
        ;
        assert(rows * nx <= ny * nx) by (nonlinear_arith)
            requires
                rows <= ny,
                0 < nx,
        ;
        assert(0 <= y * nx) by (nonlinear_arith)
            requires
                0 <= y,
                0 < nx,
        ;
        if k < before.len() {
            lemma_pairs_along_rows(nx, rows - 1, ny, k);
        } else {
            let x = k - before.len();
            let row = spacing::row_pairs(nx, y);
            assert(spacing::pairs_along_rows(nx, rows)[k] == row[x]);
            assert((y * nx + x + 1) % nx == x + 1) by (nonlinear_arith)
                requires
                    0 <= y,
                    0 <= x,
                    x + 1 < nx,
            ;
        }
    }
}

/// The neighbours along the rows stand side by side in one row, and those across
/// the rows stand in one column of two rows that follow each other.
pub proof fn law_neighbours_are_next_to_each_other(nx: usize, ny: usize, k: int)
    requires
        nx > 0,
        nx * ny <= usize::MAX,
    ensures
        0 <= k < spacing::pairs_along_rows(nx as int, ny as int).len() ==> {
            let pair = spacing::pairs_along_rows(nx as int, ny as int)[k];
            &&& pair.1 == pair.0 + 1
            &&& pair.1 % nx != 0
            &&& pair.1 < nx * ny
        },
        0 <= k < spacing::pairs_across_rows(nx as int, ny - 1).len() ==> {
            let pair = spacing::pairs_across_rows(nx as int, ny - 1)[k];
            &&& pair.1 == pair.0 + nx
            &&& pair.1 < nx * ny
        },
{
    assert(nx * ny == ny * nx) by (nonlinear_arith);
    if 0 <= k < spacing::pairs_along_rows(nx as int, ny as int).len() {
        lemma_pairs_along_rows(nx as int, ny as int, ny as int, k);
    }
    if 0 <= k < spacing::pairs_across_rows(nx as int, ny - 1).len() {
        assert((ny - 1) * nx + nx == nx * ny) by (nonlinear_arith);
    }
}

/// Whether a property holds of every distance of some neighbours.
pub open spec fn holds_of_distances<T, D: Fn(T, T, T, T) -> T>(
    lat: Seq<T>,
    lon: Seq<T>,
    pairs: Seq<(usize, usize)>,
    distance: D,
    property: spec_fn(T) -> bool,
) -> bool {
    forall|k: int, gap: T|
        #![trigger pairs[k], property(gap)]
        0 <= k < pairs.len() && call_ensures(
            distance,
            (
                lat[pairs[k].0 as int],
                lon[pairs[k].0 as int],
                lat[pairs[k].1 as int],
                lon[pairs[k].1 as int],
            ),
            gap,
        ) ==> property(gap)
}

/// Whether a property is kept by adding and by taking the mean.
pub open spec fn is_kept<
    T,
    D: Fn(T, T, T, T) -> T,
    U: Fn(T) -> bool,
    S: Fn(T, T) -> T,
    M: Fn(T, usize) -> T,
>(rules: SpacingRules<T, D, U, S, M>, property: spec_fn(T) -> bool) -> bool {
    &&& property(rules.nothing)
    &&& forall|a: T, b: T, total: T| #[trigger]
        call_ensures(rules.sum, (a, b), total) && property(a) && property(b) ==> property(total)
    &&& forall|total: T, count: usize, mean: T| #[trigger]
        call_ensures(rules.mean, (total, count), mean) && property(total) ==> property(mean)
}

proof fn lemma_sums_keep<
    T,
    D: Fn(T, T, T, T) -> T,
    U: Fn(T) -> bool,
    S: Fn(T, T) -> T,
    M: Fn(T, usize) -> T,
>(
    lat: Seq<T>,
    lon: Seq<T>,
    pairs: Seq<(usize, usize)>,
    rules: SpacingRules<T, D, U, S, M>,
    chain: Seq<(T, int)>,
    property: spec_fn(T) -> bool,
    k: int,
)
    requires
        spacing::is_sum_chain(lat, lon, pairs, rules, chain),
        is_kept(rules, property),
        holds_of_distances(lat, lon, pairs, rules.distance, property),
        0 <= k <= pairs.len(),
    ensures
        property(chain[k].0),
    decreases k,
{
    if k > 0 {
        lemma_sums_keep(lat, lon, pairs, rules, chain, property, k - 1);
        let pair = pairs[k - 1];
        let a = pair.0 as int;
        let b = pair.1 as int;
        assert(spacing::added(lat, lon, pair, rules, chain[k - 1], chain[k - 1 + 1]));
        let gap = choose|gap: T|
            #[trigger] call_ensures(rules.distance, (lat[a], lon[a], lat[b], lon[b]), gap) && {
                ||| call_ensures(rules.counts, (gap,), false) && chain[k] == chain[k - 1]
                ||| call_ensures(rules.counts, (gap,), true) && chain[k].1 == chain[k - 1].1 + 1
                    && call_ensures(rules.sum, (chain[k - 1].0, gap), chain[k].0)
            };
        assert(property(gap));
    }
}

/// The first spacing of a grid is a mean of distances along the rows, and the
/// second one of distances across them: what holds of those distances, and is kept
/// by sums and means, holds of it.
pub proof fn law_spacings_are_means_of_their_own_distances<
    T,
    D: Fn(T, T, T, T) -> T,
    U: Fn(T) -> bool,
    S: Fn(T, T) -> T,
    M: Fn(T, usize) -> T,
>(
    nx: usize,
    ny: usize,
    lat: Seq<T>,
    lon: Seq<T>,
    rules: SpacingRules<T, D, U, S, M>,
    found: Result<(T, T), LengthMismatch>,
    along: spec_fn(T) -> bool,
    across: spec_fn(T) -> bool,
)
    requires
        spacing::is_spacing(nx, ny, lat, lon, rules, found),
        is_kept(rules, along),
        is_kept(rules, across),
        holds_of_distances(
            lat,
            lon,
            spacing::pairs_along_rows(nx as int, ny as int),
            rules.distance,
            along,
        ),
        holds_of_distances(
            lat,
            lon,
            spacing::pairs_across_rows(nx as int, ny - 1),
            rules.distance,
            across,
        ),
    ensures
        found matches Ok((dx, dy)) ==> along(dx) && across(dy),
        nx < 2 || ny < 2 ==> found is Err,
{
    if found is Ok {
        let rows = spacing::pairs_along_rows(nx as int, ny as int);
        let columns = spacing::pairs_across_rows(nx as int, ny - 1);
        let (dx, dy) = choose|dx: (T, int), dy: (T, int)|
            #![trigger spacing::sums_to(
                lat,
                lon,
                rows,
                rules,
                dx,
            ), spacing::sums_to(lat, lon, columns, rules, dy)]
            spacing::sums_to(lat, lon, rows, rules, dx) && spacing::sums_to(
                lat,
                lon,
                columns,
                rules,
                dy,
            ) && spacing::mean_of(dx, dy, rules.mean, found);
        let first = choose|chain: Seq<(T, int)>|
            #[trigger] spacing::is_sum_chain(lat, lon, rows, rules, chain)
                && chain[rows.len() as int] == dx;
        let second = choose|chain: Seq<(T, int)>|
            #[trigger] spacing::is_sum_chain(lat, lon, columns, rules, chain)
                && chain[columns.len() as int] == dy;
        lemma_sums_keep(lat, lon, rows, rules, first, along, rows.len() as int);
        lemma_sums_keep(lat, lon, columns, rules, second, across, columns.len() as int);
    }
}

/// Whether a rule has one answer for each pair of values.
pub open spec fn answers_once<T, G: Fn(T, T) -> T>(gap: G) -> bool {
    forall|a: T, b: T, x: T, y: T|
        #![trigger call_ensures(gap, (a, b), x), call_ensures(gap, (a, b), y)]
        call_ensures(gap, (a, b), x) && call_ensures(gap, (a, b), y) ==> x == y
}

/// Whether a rule that tells the closer of two gaps goes by an order: the one that
/// it says yes to lies no further, and the one that it says no to lies no closer.
pub open spec fn goes_by<T, C: Fn(T, T) -> bool>(
    closer: C,
    no_further: spec_fn(T, T) -> bool,
) -> bool {
    &&& forall|a: T, b: T| #[trigger]
        call_ensures(closer, (a, b), true) ==> no_further(a, b) && no_further(a, a)
    &&& forall|a: T, b: T| #[trigger]
        call_ensures(closer, (a, b), false) ==> no_further(b, a) && no_further(b, b)
    &&& forall|a: T, b: T, c: T|
        #[trigger] no_further(a, b) && #[trigger] no_further(b, c) ==> no_further(a, c)
}

proof fn lemma_gap_chain<T, G: Fn(T, T) -> T, C: Fn(T, T) -> bool>(
    values: Seq<T>,
    pairs: Seq<(usize, usize)>,
    gap: G,
    closer: C,
    chain: Seq<T>,
    no_further: spec_fn(T, T) -> bool,
    k: int,
    found: T,
    to: int,
)
    requires
        spacing::is_gap_chain(values, pairs, gap, closer, chain),
        answers_once(gap),
        goes_by(closer, no_further),
        0 <= k < to <= pairs.len(),
        call_ensures(gap, (values[pairs[k].0 as int], values[pairs[k].1 as int]), found),
    ensures
        no_further(chain[to], found),
        no_further(chain[to], chain[0]),
    decreases to,
{
    let last = pairs[to - 1];
    assert(spacing::narrows(values, last, gap, closer, chain[to - 1], chain[to - 1 + 1]));
    let next = choose|next: T|
        #[trigger] call_ensures(gap, (values[last.0 as int], values[last.1 as int]), next) && {
            ||| call_ensures(closer, (next, chain[to - 1]), true) && chain[to] == next
            ||| call_ensures(closer, (next, chain[to - 1]), false) && chain[to] == chain[to - 1]
        };
    if k < to - 1 {
        lemma_gap_chain(values, pairs, gap, closer, chain, no_further, k, found, to - 1);
    } else {
        assert(next == found);
        if to > 1 {
            let first = pairs[0];
            assert(spacing::narrows(values, first, gap, closer, chain[0], chain[1]));
            let start = choose|start: T|
                #[trigger] call_ensures(gap, (values[first.0 as int], values[first.1 as int]), start)
                    && {
                    ||| call_ensures(closer, (start, chain[0]), true) && chain[1] == start
                    ||| call_ensures(closer, (start, chain[0]), false) && chain[1] == chain[0]
                };
            lemma_gap_chain(values, pairs, gap, closer, chain, no_further, 0, start, to - 1);
        }
    }
}

/// The smallest gap of some neighbours is no wider than the gap of any of them.
pub proof fn law_narrowest_gap_is_no_wider_than_any<T, G: Fn(T, T) -> T, C: Fn(T, T) -> bool>(
    values: Seq<T>,
    pairs: Seq<(usize, usize)>,
    gap: G,
    closer: C,
    start: T,
    best: T,
    no_further: spec_fn(T, T) -> bool,
    k: int,
    found: T,
)
    requires
        spacing::narrowest(values, pairs, gap, closer, start, best),
        answers_once(gap),
        goes_by(closer, no_further),
        0 <= k < pairs.len(),
        call_ensures(gap, (values[pairs[k].0 as int], values[pairs[k].1 as int]), found),
    ensures
        no_further(best, found),
        no_further(best, start),
{
    let chain = choose|chain: Seq<T>|
        #[trigger] spacing::is_gap_chain(values, pairs, gap, closer, chain) && chain[0] == start
            && chain[pairs.len() as int] == best;
    lemma_gap_chain(
        values,
        pairs,
        gap,
        closer,
        chain,
        no_further,
        k,
        found,
        pairs.len() as int,
    );
}

/// A spacing in degrees is no wider than the gap of any two neighbouring longitudes
/// in the probed rows, nor than that of any two neighbouring latitudes in the
/// probed columns.
pub proof fn law_spacing_in_degrees_is_no_wider_than_any_gap<
    T,
    X: Fn(T, T) -> T,
    Y: Fn(T, T) -> T,
    C: Fn(T, T) -> bool,
    F: Fn(T) -> bool,
>(
    nx: usize,
    ny: usize,
    lat: Seq<T>,
    lon: Seq<T>,
    rules: ClosenessRules<T, X, Y, C, F>,
    found: Option<T>,
    no_further: spec_fn(T, T) -> bool,
    i: int,
    along: T,
    j: int,
    across: T,
)
    requires
        spacing::is_closest(nx, ny, lat, lon, rules, found),
        answers_once(rules.lon_gap),
        answers_once(rules.lat_gap),
        goes_by(rules.closer, no_further),
        0 <= i < spacing::probed_rows(nx as int, ny as int).len(),
        0 <= j < spacing::probed_columns(nx as int, ny as int).len(),
        ({
            let pair = spacing::probed_rows(nx as int, ny as int)[i];
            call_ensures(rules.lon_gap, (lon[pair.0 as int], lon[pair.1 as int]), along)
        }),
        ({
            let pair = spacing::probed_columns(nx as int, ny as int)[j];
            call_ensures(rules.lat_gap, (lat[pair.0 as int], lat[pair.1 as int]), across)
        }),
    ensures
        found matches Some(gap) ==> no_further(gap, along) && no_further(gap, across),
{
    if found is Some {
        let rows = spacing::probed_rows(nx as int, ny as int);
        let columns = spacing::probed_columns(nx as int, ny as int);
        let (first, best) = choose|first: T, best: T|
            #![trigger spacing::narrowest(
                lon,
                rows,
                rules.lon_gap,
                rules.closer,
                rules.widest,
                first,
            ), spacing::narrowest(lat, columns, rules.lat_gap, rules.closer, first, best)]
            spacing::narrowest(lon, rows, rules.lon_gap, rules.closer, rules.widest, first)
                && spacing::narrowest(lat, columns, rules.lat_gap, rules.closer, first, best)
                && match found {
                Some(gap) => gap == best && call_ensures(rules.found, (best,), true),
                None => call_ensures(rules.found, (best,), false),
            };
        law_narrowest_gap_is_no_wider_than_any(
            lon,
            rows,
            rules.lon_gap,
            rules.closer,
            rules.widest,
            first,
            no_further,
            i,
            along,
        );
        law_narrowest_gap_is_no_wider_than_any(
            lat,
            columns,
            rules.lat_gap,
            rules.closer,
            first,
            best,
            no_further,
            j,
            across,
        );
    }
}

/// The probed rows are the first, the middle and the last one, and so are the
/// probed columns.
pub proof fn law_edges_and_middle_are_probed(nx: usize, ny: usize, x: int, y: int)
    requires
        nx > 0,
        ny > 0,
        nx * ny <= usize::MAX,
    ensures
        0 <= x < nx - 1 && (y == 0 || y == ny / 2 || y == ny - 1) ==> spacing::probed_rows(
            nx as int,
            ny as int,
        ).contains(((y * nx + x) as usize, (y * nx + x + 1) as usize)),
        0 <= y < ny - 1 && (x == 0 || x == nx / 2 || x == nx - 1) ==> spacing::probed_columns(
            nx as int,
            ny as int,
        ).contains(((y * nx + x) as usize, ((y + 1) * nx + x) as usize)),
{
    let w = nx as int;
    let h = ny as int;
    if 0 <= x < nx - 1 && (y == 0 || y == ny / 2 || y == ny - 1) {
        let list = spacing::probed_rows(w, h);
        let n = w - 1;
        let at = if y == 0 {
            x
        } else if y == ny / 2 {
            n + x
        } else {
            2 * n + x
        };
        assert(spacing::row_pairs(w, y)[x] == ((y * nx + x) as usize, (y * nx + x + 1) as usize));
        assert(list[at] == spacing::row_pairs(w, y)[x]);
    }
    if 0 <= y < ny - 1 && (x == 0 || x == nx / 2 || x == nx - 1) {
        let list = spacing::probed_columns(w, h);
        let n = h - 1;
        let at = if x == 0 {
            y
        } else if x == nx / 2 {
            n + y
        } else {
            2 * n + y
        };
        assert(spacing::column_pairs(w, h, x)[y] == (
            (y * nx + x) as usize,
            ((y + 1) * nx + x) as usize,
        ));
        assert(list[at] == spacing::column_pairs(w, h, x)[y]);
    }
}

} // verus!
