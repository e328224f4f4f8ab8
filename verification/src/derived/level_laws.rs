//! What planes, heights and columns of a volume must satisfy.
use crate::derived::levels;
use crate::derived::levels::LevelRules;
use crate::gridded::heavy_volume;
use crate::text;
use vstd::prelude::*;

verus! {

/// The plane of a level has one value for each cell: that of its level. It is there
/// if and only if the volume reaches that far.
pub proof fn law_planes_hold_the_cells_of_their_level<T>(
    values: Seq<T>,
    level: int,
    nxy: int,
    cell: int,
)
    requires
        0 <= level,
        0 <= cell < nxy,
    ensures
        levels::level_plane(values, level, nxy) is Some <==> (level + 1) * nxy <= values.len(),
        levels::level_plane(values, level, nxy) matches Some(plane) ==> plane.len() == nxy
            && plane[cell] == values[level * nxy + cell],
{
    assert((level + 1) * nxy == level * nxy + nxy) by (nonlinear_arith);
    assert(level * nxy >= 0) by (nonlinear_arith)
        requires
            level >= 0,
            nxy > 0,
    ;
}

/// Whether a rule says one thing of two pressures.
pub open spec fn says_one_thing<T, X: Fn(T, T, u64) -> bool>(crosses: X) -> bool {
    forall|p: T, q: T, target: u64|
        !(#[trigger] call_ensures(crosses, (p, q, target), true) && call_ensures(
            crosses,
            (p, q, target),
            false,
        ))
}

/// Whether values between two levels are those of a level where the target lies
/// at it.
pub open spec fn meets_levels<T, B: Fn(T, T, T, T, u64) -> T>(
    between: B,
    target: u64,
    at: spec_fn(T) -> bool,
) -> bool {
    forall|a: T, b: T, p: T, q: T, value: T| #[trigger]
        call_ensures(between, (a, b, p, q, target), value) ==> {
            &&& at(p) ==> value == a
            &&& at(q) && !at(p) ==> value == b
        }
}

/// An interpolated column meets its levels: where the first crossing begins or ends
/// at the target, the value is that of the volume there.
pub proof fn law_interpolated_columns_meet_their_levels<
    T,
    L,
    X: Fn(T, T, u64) -> bool,
    B: Fn(T, T, T, T, u64) -> T,
>(
    values: Seq<T>,
    pressures: Seq<T>,
    nxy: int,
    nz: int,
    target: u64,
    rules: LevelRules<T, L, X, B>,
    column: int,
    value: T,
    at: spec_fn(T) -> bool,
    level: int,
)
    requires
        levels::is_interpolated(values, pressures, nxy, nz, target, rules, column, value),
        says_one_thing(rules.crosses),
        meets_levels(rules.between, target, at),
        0 <= level < nz - 1,
        forall|j: int|
            0 <= j < level ==> call_ensures(
                rules.crosses,
                (#[trigger] pressures[j * nxy + column], pressures[(j + 1) * nxy + column], target),
                false,
            ),
        call_ensures(
            rules.crosses,
            (pressures[level * nxy + column], pressures[(level + 1) * nxy + column], target),
            true,
        ),
    ensures
        at(pressures[level * nxy + column]) ==> value == values[level * nxy + column],
        at(pressures[(level + 1) * nxy + column]) && !at(pressures[level * nxy + column]) ==> value
            == values[(level + 1) * nxy + column],
{
    let crosses = rules.crosses;
    assert(levels::crossed(pressures, nxy, target, crosses, column, level, true));
    if forall|j: int|
        0 <= j < nz - 1 ==> #[trigger] levels::crossed(
            pressures,
            nxy,
            target,
            crosses,
            column,
            j,
            false,
        ) {
        assert(levels::crossed(pressures, nxy, target, crosses, column, level, false));
    } else {
        let first = choose|first: int|
            {
                &&& 0 <= first < nz - 1
                &&& #[trigger] levels::first_crossing(
                    pressures,
                    nxy,
                    target,
                    crosses,
                    column,
                    first,
                )
                &&& call_ensures(
                    rules.between,
                    (
                        values[first * nxy + column],
                        values[(first + 1) * nxy + column],
                        pressures[first * nxy + column],
                        pressures[(first + 1) * nxy + column],
                        target,
                    ),
                    value,
                )
            };
        if first < level {
            assert(call_ensures(
                crosses,
                (pressures[first * nxy + column], pressures[(first + 1) * nxy + column], target),
                false,
            ));
        }
        if level < first {
            assert(levels::crossed(pressures, nxy, target, crosses, column, level, false));
        }
    }
}

/// Heights above ground never fall from one level to the next, if raising a height
/// over another leaves it no lower than that.
pub proof fn law_heights_do_not_fall<T, A: Fn(T, T) -> T, R: Fn(T, T) -> T>(
    heights: Seq<T>,
    geopotential: Seq<T>,
    orography: Seq<T>,
    nxy: int,
    nz: int,
    above: A,
    raise: R,
    no_higher: spec_fn(T, T) -> bool,
    index: int,
)
    requires
        heavy_volume::heights_over(heights, geopotential, orography, nxy, nz, above, raise),
        forall|height: T, below: T, raised: T| #[trigger]
            call_ensures(raise, (height, below), raised) ==> no_higher(below, raised),
        0 < nxy <= index < nxy * nz,
        index < heights.len(),
    ensures
        no_higher(heights[index - nxy], heights[index]),
{
    assert(levels::is_height(
        heights,
        geopotential,
        orography,
        nxy,
        nz,
        index,
        above,
        raise,
    ));
}

/// The heights of the lowest level are those above the orography of their own
/// cells.
pub proof fn law_lowest_heights_stand_on_their_cell<T, A: Fn(T, T) -> T, R: Fn(T, T) -> T>(
    heights: Seq<T>,
    geopotential: Seq<T>,
    orography: Seq<T>,
    nxy: int,
    nz: int,
    above: A,
    raise: R,
    cell: int,
)
    requires
        heavy_volume::heights_over(heights, geopotential, orography, nxy, nz, above, raise),
        0 <= cell < nxy,
        cell < heights.len(),
    ensures
        call_ensures(above, (geopotential[cell], orography[cell]), heights[cell]),
{
    assert(levels::is_height(heights, geopotential, orography, nxy, nz, cell, above, raise));
    assert(cell % nxy == cell) by (nonlinear_arith)
        requires
            0 <= cell < nxy,
    ;
}

/// What the levels of a column are lowered to lies no higher than any of them, if
/// the lower of two heights does.
pub proof fn law_lowest_height_is_below_its_column<T, L: Fn(T, T) -> T>(
    heights: Seq<T>,
    plane: int,
    nz: int,
    column: int,
    start: T,
    lower: L,
    chain: Seq<T>,
    no_higher: spec_fn(T, T) -> bool,
    level: int,
    to: int,
)
    requires
        heavy_volume::is_chain(heights, plane, nz, column, start, lower, chain),
        forall|a: T, b: T, least: T| #[trigger]
            call_ensures(lower, (a, b), least) ==> no_higher(least, a) && no_higher(least, b),
        forall|a: T, b: T, c: T|
            #[trigger] no_higher(a, b) && #[trigger] no_higher(b, c) ==> no_higher(a, c),
        0 <= level < to <= nz,
    ensures
        no_higher(chain[to], heights[level * plane + column]),
    decreases to - level,
{
    let last = to - 1;
    assert(call_ensures(
        lower,
        (chain[last], heights[last * plane + column]),
        chain[last + 1],
    ));
    if level < last {
        law_lowest_height_is_below_its_column(
            heights,
            plane,
            nz,
            column,
            start,
            lower,
            chain,
            no_higher,
            level,
            last,
        );
    }
}

/// The message for a plane that is missing names its level and what it holds.
pub proof fn law_missing_planes_are_named(level_hpa: u64, what: Seq<char>)
    ensures
        text::occurs(levels::missing_plane(level_hpa, what), text::decimal(level_hpa as nat)),
        text::occurs(levels::missing_plane(level_hpa, what), what),
{
    let message = levels::missing_plane(level_hpa, what);
    let number = text::decimal(level_hpa as nat);
    let before = ("missing "@ + number + " mb "@).len() as int;
    let head = "missing "@.len() as int;
    assert(message.subrange(head, head + number.len()) =~= number);
    assert(text::stands_at(message, number, head));
    assert(message.subrange(before, before + what.len()) =~= what);
    assert(text::stands_at(message, what, before));
}

} // verus!
