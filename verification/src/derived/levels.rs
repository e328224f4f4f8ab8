//! Planes at one pressure level, heights above ground and grid spacing.
use crate::gridded::crop::append_range;
use crate::text;
use crate::text::to_decimal;
use vstd::prelude::*;
use vstd::string::*;

verus! {

/// The plane of one level in a volume.
pub open spec fn level_plane<T>(values: Seq<T>, level: int, nxy: int) -> Option<Seq<T>> {
    let start = level * nxy;
    if start + nxy <= values.len() {
        Some(values.subrange(start, start + nxy))
    } else {
        None
    }
}

/// How values are held against a target pressure in hPa, and interpolated to it.
pub struct LevelRules<T, L, X, B> {
    /// Whether a level lies at the target.
    pub at_level: L,
    /// Whether the target lies between two pressures of a column.
    pub crosses: X,
    /// The value at the target between two values, given their pressures.
    pub between: B,
    /// What stands where no two pressures of a column enclose the target.
    pub blank: T,
}

/// Whether a level is the first of a list that lies at the target.
pub open spec fn finds_level<T, L: Fn(T, u64) -> bool>(
    levels: Seq<T>,
    target_hpa: u64,
    at_level: L,
    found: Option<int>,
) -> bool {
    match found {
        Some(level) => {
            &&& 0 <= level < levels.len()
            &&& call_ensures(at_level, (levels[level], target_hpa), true)
            &&& forall|j: int|
                0 <= j < level ==> call_ensures(
                    at_level,
                    (#[trigger] levels[j], target_hpa),
                    false,
                )
        },
        None => forall|j: int|
            0 <= j < levels.len() ==> call_ensures(
                at_level,
                (#[trigger] levels[j], target_hpa),
                false,
            ),
    }
}

/// The plane of the level that was found, if the volume reaches that far.
pub open spec fn found_plane<T>(values: Seq<T>, found: Option<int>, nxy: int) -> Option<Seq<T>> {
    match found {
        Some(level) => level_plane(values, level, nxy),
        None => None,
    }
}

fn find_level<T: Copy, L: Fn(T, u64) -> bool>(
    levels_hpa: &[T],
    target_hpa: u64,
    at_level: &L,
) -> (level: Option<usize>)
    requires
        forall|value: T, target: u64| #[trigger] call_requires(*at_level, (value, target)),
    ensures
        finds_level(
            levels_hpa@,
            target_hpa,
            *at_level,
            match level {
                Some(level) => Some(level as int),
                None => None,
            },
        ),
{
    let mut i: usize = 0;
    while i < levels_hpa.len()
        invariant
            i <= levels_hpa@.len(),
            forall|value: T, target: u64| #[trigger] call_requires(*at_level, (value, target)),
            forall|j: int|
                0 <= j < i ==> call_ensures(
                    *at_level,
                    (#[trigger] levels_hpa@[j], target_hpa),
                    false,
                ),
        decreases levels_hpa@.len() - i,
    {
        if at_level(levels_hpa[i], target_hpa) {
            return Some(i);
        }
        i = i + 1;
    }
    None
}

/// The plane of the first level that lies at the target.
pub fn level_slice<T: Copy, L: Fn(T, u64) -> bool>(
    values_3d: &[T],
    levels_hpa: &[T],
    target_hpa: u64,
    nxy: usize,
    at_level: &L,
) -> (plane: Option<Vec<T>>)
    requires
        levels_hpa@.len() * nxy <= usize::MAX,
        forall|value: T, target: u64| #[trigger] call_requires(*at_level, (value, target)),
    ensures
        exists|found: Option<int>|
            #[trigger] finds_level(levels_hpa@, target_hpa, *at_level, found) && optional_plane(
                plane,
            ) == found_plane(values_3d@, found, nxy as int),
{
    let level = match find_level(levels_hpa, target_hpa, at_level) {
        Some(level) => level,
        None => {
            proof {
                assert(finds_level(levels_hpa@, target_hpa, *at_level, None));
            }
            return None;
        },
    };
    proof {
        assert(finds_level(levels_hpa@, target_hpa, *at_level, Some(level as int)));
        assert(level * nxy + nxy == (level + 1) * nxy) by (nonlinear_arith);
        assert((level + 1) * nxy <= levels_hpa@.len() * nxy) by (nonlinear_arith)
            requires
                level + 1 <= levels_hpa@.len(),
        ;
        assert(level * nxy <= (level + 1) * nxy) by (nonlinear_arith);
    }
    let start: usize = level * nxy;
    let end: usize = start + nxy;
    if end <= values_3d.len() {
        let mut plane: Vec<T> = Vec::new();
        append_range(&mut plane, values_3d, start, end);
        proof {
            assert(plane@ =~= values_3d@.subrange(start as int, end as int));
        }
        Some(plane)
    } else {
        None
    }
}

/// A plane that may be missing, as a mathematical value.
pub open spec fn optional_plane<T>(plane: Option<Vec<T>>) -> Option<Seq<T>> {
    match plane {
        Some(plane) => Some(plane@),
        None => None,
    }
}

/// Whether columns of a volume can be interpolated: there is a pressure volume
/// of the same size, and both fill the levels.
pub open spec fn can_interpolate(
    len: int,
    pressure_volume_len: Option<int>,
    nz: int,
    nxy: int,
) -> bool {
    match pressure_volume_len {
        Some(pressure_len) => nz > 0 && len == pressure_len && len == nxy * nz,
        None => false,
    }
}

/// Whether the target is crossed between a level and the next in one column.
pub open spec fn crossed<T, X: Fn(T, T, u64) -> bool>(
    pressures: Seq<T>,
    nxy: int,
    target_hpa: u64,
    crosses: X,
    column: int,
    level: int,
    outcome: bool,
) -> bool {
    call_ensures(
        crosses,
        (pressures[level * nxy + column], pressures[(level + 1) * nxy + column], target_hpa),
        outcome,
    )
}

/// Whether a level is the first of a column with the target between it and the
/// next.
pub open spec fn first_crossing<T, X: Fn(T, T, u64) -> bool>(
    pressures: Seq<T>,
    nxy: int,
    target_hpa: u64,
    crosses: X,
    column: int,
    level: int,
) -> bool {
    &&& crossed(pressures, nxy, target_hpa, crosses, column, level, true)
    &&& forall|j: int|
        0 <= j < level ==> #[trigger] crossed(
            pressures,
            nxy,
            target_hpa,
            crosses,
            column,
            j,
            false,
        )
}

/// Whether a value is that of a column at the target: between the first two
/// levels that enclose it, or blank where none do.
pub open spec fn is_interpolated<T, L, X: Fn(T, T, u64) -> bool, B: Fn(T, T, T, T, u64) -> T>(
    values: Seq<T>,
    pressures: Seq<T>,
    nxy: int,
    nz: int,
    target_hpa: u64,
    rules: LevelRules<T, L, X, B>,
    column: int,
    value: T,
) -> bool {
    ||| exists|level: int|
        {
            &&& 0 <= level < nz - 1
            &&& #[trigger] first_crossing(
                pressures,
                nxy,
                target_hpa,
                rules.crosses,
                column,
                level,
            )
            &&& call_ensures(
                rules.between,
                (
                    values[level * nxy + column],
                    values[(level + 1) * nxy + column],
                    pressures[level * nxy + column],
                    pressures[(level + 1) * nxy + column],
                    target_hpa,
                ),
                value,
            )
        }
    ||| value == rules.blank && forall|j: int|
        0 <= j < nz - 1 ==> #[trigger] crossed(
            pressures,
            nxy,
            target_hpa,
            rules.crosses,
            column,
            j,
            false,
        )
}

/// Whether a plane is the one at a target pressure: that of the first level at
/// the target, or else an interpolated one where that can be had, or else none.
pub open spec fn is_plane_at<
    T,
    L: Fn(T, u64) -> bool,
    X: Fn(T, T, u64) -> bool,
    B: Fn(T, T, T, T, u64) -> T,
>(
    values: Seq<T>,
    levels: Seq<T>,
    pressures: Option<Seq<T>>,
    target_hpa: u64,
    nxy: int,
    rules: LevelRules<T, L, X, B>,
    plane: Option<Seq<T>>,
) -> bool {
    exists|found: Option<int>|
        #[trigger] finds_level(levels, target_hpa, rules.at_level, found) && match found_plane(
            values,
            found,
            nxy,
        ) {
            Some(slice) => plane == Some(slice),
            None => match pressures {
                Some(pressures) => if can_interpolate(
                    values.len() as int,
                    Some(pressures.len() as int),
                    levels.len() as int,
                    nxy,
                ) {
                    plane is Some && plane->Some_0.len() == nxy && forall|column: int|
                        0 <= column < nxy ==> is_interpolated(
                            values,
                            pressures,
                            nxy,
                            levels.len() as int,
                            target_hpa,
                            rules,
                            column,
                            #[trigger] plane->Some_0[column],
                        )
                } else {
                    plane is None
                },
                None => plane is None,
            },
        }
}

fn interpolate_column<
    T: Copy,
    L,
    X: Fn(T, T, u64) -> bool,
    B: Fn(T, T, T, T, u64) -> T,
>(
    values_3d: &[T],
    pressure_3d_pa: &[T],
    nxy: usize,
    nz: usize,
    target_hpa: u64,
    rules: &LevelRules<T, L, X, B>,
    column: usize,
) -> (value: T)
    requires
        column < nxy,
        0 < nz,
        values_3d@.len() == nxy * nz,
        pressure_3d_pa@.len() == nxy * nz,
        forall|a: T, b: T, target: u64| #[trigger] call_requires(rules.crosses, (a, b, target)),
        forall|a: T, b: T, p: T, q: T, target: u64|
            #[trigger] call_requires(rules.between, (a, b, p, q, target)),
    ensures
        is_interpolated(
            values_3d@,
            pressure_3d_pa@,
            nxy as int,
            nz as int,
            target_hpa,
            *rules,
            column as int,
            value,
        ),
{
    let len: usize = values_3d.len();
    let mut k: usize = 0;
    while k < nz - 1
        invariant
            k <= nz - 1,
            column < nxy,
            0 < nz,
            len == nxy * nz,
            values_3d@.len() == len,
            pressure_3d_pa@.len() == len,
            forall|a: T, b: T, target: u64| #[trigger] call_requires(rules.crosses, (a, b, target)),
            forall|a: T, b: T, p: T, q: T, target: u64|
                #[trigger] call_requires(rules.between, (a, b, p, q, target)),
            forall|j: int|
                0 <= j < k ==> #[trigger] crossed(
                    pressure_3d_pa@,
                    nxy as int,
                    target_hpa,
                    rules.crosses,
                    column as int,
                    j,
                    false,
                ),
        decreases nz - k,
    {
        proof {
            assert(k * nxy + nxy == (k + 1) * nxy) by (nonlinear_arith);
            assert((k + 1) * nxy + nxy <= nxy * nz) by (nonlinear_arith)
                requires
                    k + 2 <= nz,
            ;
            assert(0 <= k * nxy) by (nonlinear_arith);
        }
        let lower: usize = k * nxy + column;
        let upper: usize = (k + 1) * nxy + column;
        let p0 = pressure_3d_pa[lower];
        let p1 = pressure_3d_pa[upper];
        if (rules.crosses)(p0, p1, target_hpa) {
            proof {
                assert(crossed(
                    pressure_3d_pa@,
                    nxy as int,
                    target_hpa,
                    rules.crosses,
                    column as int,
                    k as int,
                    true,
                ));
                assert(first_crossing(
                    pressure_3d_pa@,
                    nxy as int,
                    target_hpa,
                    rules.crosses,
                    column as int,
                    k as int,
                ));
            }
            return (rules.between)(values_3d[lower], values_3d[upper], p0, p1, target_hpa);
        }
        proof {
            assert(crossed(
                pressure_3d_pa@,
                nxy as int,
                target_hpa,
                rules.crosses,
                column as int,
                k as int,
                false,
            ));
        }
        k = k + 1;
    }
    rules.blank
}

/// The plane at a target pressure. The plane of the first level at the target
/// comes first; where there is none, each column is interpolated if there is a
/// pressure volume that matches.
pub fn pressure_level_slice_or_interp<
    T: Copy,
    L: Fn(T, u64) -> bool,
    X: Fn(T, T, u64) -> bool,
    B: Fn(T, T, T, T, u64) -> T,
>(
    values_3d: &[T],
    levels_hpa: &[T],
    pressure_3d_pa: Option<&Vec<T>>,
    target_hpa: u64,
    nxy: usize,
    rules: &LevelRules<T, L, X, B>,
) -> (plane: Option<Vec<T>>)
    requires
        levels_hpa@.len() * nxy <= usize::MAX,
        forall|value: T, target: u64| #[trigger] call_requires(rules.at_level, (value, target)),
        forall|a: T, b: T, target: u64| #[trigger] call_requires(rules.crosses, (a, b, target)),
        forall|a: T, b: T, p: T, q: T, target: u64|
            #[trigger] call_requires(rules.between, (a, b, p, q, target)),
    ensures
        is_plane_at(
            values_3d@,
            levels_hpa@,
            match pressure_3d_pa {
                Some(pressures) => Some(pressures@),
                None => None,
            },
            target_hpa,
            nxy as int,
            *rules,
            optional_plane(plane),
        ),
{
    if let Some(plane) = level_slice(values_3d, levels_hpa, target_hpa, nxy, &rules.at_level) {
        return Some(plane);
    }
    let pressures = match pressure_3d_pa {
        Some(pressures) => pressures,
        None => {
            return None;
        },
    };
    let nz: usize = levels_hpa.len();
    proof {
        assert(nxy * nz == nz * nxy) by (nonlinear_arith);
    }
    if nz == 0 || values_3d.len() != pressures.len() || values_3d.len() != nxy * nz {
        return None;
    }
    let mut plane: Vec<T> = Vec::new();
    let mut column: usize = 0;
    while column < nxy
        invariant
            column <= nxy,
            0 < nz,
            values_3d@.len() == nxy * nz,
            pressures@.len() == nxy * nz,
            plane@.len() == column,
            forall|a: T, b: T, target: u64| #[trigger] call_requires(rules.crosses, (a, b, target)),
            forall|a: T, b: T, p: T, q: T, target: u64|
                #[trigger] call_requires(rules.between, (a, b, p, q, target)),
            forall|c: int|
                0 <= c < column ==> is_interpolated(
                    values_3d@,
                    pressures@,
                    nxy as int,
                    nz as int,
                    target_hpa,
                    *rules,
                    c,
                    #[trigger] plane@[c],
                ),
        decreases nxy - column,
    {
        let value = interpolate_column(
            values_3d,
            pressures.as_slice(),
            nxy,
            nz,
            target_hpa,
            rules,
            column,
        );
        plane.push(value);
        column = column + 1;
    }
    Some(plane)
}

/// Whether a value is a height above ground: the height over the orography in
/// the lowest level and beyond the last one, and raised over the level below
/// in all others.
pub open spec fn is_height<T, A: Fn(T, T) -> T, R: Fn(T, T) -> T>(
    heights: Seq<T>,
    geopotential: Seq<T>,
    orography: Seq<T>,
    nxy: int,
    nz: int,
    index: int,
    above: A,
    raise: R,
) -> bool {
    let column = index % nxy;
    if nxy <= index < nxy * nz {
        exists|height: T|
            #[trigger] call_ensures(above, (geopotential[index], orography[column]), height)
                && call_ensures(raise, (height, heights[index - nxy]), heights[index])
    } else {
        call_ensures(above, (geopotential[index], orography[column]), heights[index])
    }
}

/// Assembles the heights above ground on a grid of `nxy` points. `above` takes a height and the
/// orography under it, `raise` a height and the one below it.
pub fn compute_height_agl_3d<T: Copy, A: Fn(T, T) -> T, R: Fn(T, T) -> T>(
    geopotential: &[T],
    orography: &[T],
    nxy: usize,
    nz: usize,
    above: &A,
    raise: &R,
) -> (heights: Vec<T>)
    requires
        0 < nxy <= orography@.len(),
        geopotential@.len() >= nxy * nz,
        forall|a: T, b: T| #[trigger] call_requires(*above, (a, b)),
        forall|a: T, b: T| #[trigger] call_requires(*raise, (a, b)),
    ensures
        heights@.len() == geopotential@.len(),
        forall|index: int|
            0 <= index < heights@.len() ==> #[trigger] is_height(
                heights@,
                geopotential@,
                orography@,
                nxy as int,
                nz as int,
                index,
                *above,
                *raise,
            ),
{
    let len: usize = geopotential.len();
    let mut heights: Vec<T> = Vec::new();
    let mut column: usize = 0;
    let mut level: usize = 0;
    let mut index: usize = 0;
    proof {
        assert(0 == 0 * nxy) by (nonlinear_arith);
    }
    while index < len
        invariant
            index <= len,
            len == geopotential@.len(),
            0 < nxy <= orography@.len(),
            column < nxy,
            index == level * nxy + column,
            len >= nxy * nz,
            heights@.len() == index,
            forall|a: T, b: T| #[trigger] call_requires(*above, (a, b)),
            forall|a: T, b: T| #[trigger] call_requires(*raise, (a, b)),
            forall|i: int|
                0 <= i < index ==> #[trigger] is_height(
                    heights@,
                    geopotential@,
                    orography@,
                    nxy as int,
                    nz as int,
                    i,
                    *above,
                    *raise,
                ),
        decreases len - index,
    {
        let ghost before = heights@;
        proof {
            vstd::arithmetic::div_mod::lemma_fundamental_div_mod_converse(
                index as int,
                nxy as int,
                level as int,
                column as int,
            );
            if 1 <= level && level < nz {
                assert(level * nxy >= nxy) by (nonlinear_arith)
                    requires
                        1 <= level,
                ;
                assert((level + 1) * nxy <= nxy * nz) by (nonlinear_arith)
                    requires
                        level + 1 <= nz,
                ;
                assert((level + 1) * nxy == level * nxy + nxy) by (nonlinear_arith);
            }
            if nz <= level {
                assert(nxy * nz <= level * nxy) by (nonlinear_arith)
                    requires
                        nz <= level,
                ;
            }
            if level == 0 {
                assert(level * nxy == 0) by (nonlinear_arith)
                    requires
                        level == 0,
                ;
            }
        }
        let height = above(geopotential[index], orography[column]);
        if 1 <= level && level < nz {
            let raised = raise(height, heights[index - nxy]);
            heights.push(raised);
        } else {
            heights.push(height);
        }
        proof {
            assert forall|i: int| 0 <= i < index + 1 implies #[trigger] is_height(
                heights@,
                geopotential@,
                orography@,
                nxy as int,
                nz as int,
                i,
                *above,
                *raise,
            ) by {
                if i < index {
                    assert(is_height(
                        before,
                        geopotential@,
                        orography@,
                        nxy as int,
                        nz as int,
                        i,
                        *above,
                        *raise,
                    ));
                    assert(heights@[i] == before[i]);
                    if nxy <= i {
                        assert(heights@[i - nxy] == before[i - nxy]);
                    }
                } else {
                    assert(call_ensures(
                        *above,
                        (geopotential@[i], orography@[i % (nxy as int)]),
                        height,
                    ));
                }
            }
            assert((level + 1) * nxy == level * nxy + nxy) by (nonlinear_arith);
            assert(level <= level * nxy) by (nonlinear_arith)
                requires
                    0 < nxy,
            ;
        }
        index = index + 1;
        column = column + 1;
        if column == nxy {
            column = 0;
            level = level + 1;
        }
    }
    heights
}

/// The message for a plane that a temperature advection misses.
pub open spec fn missing_plane(level_hpa: u64, what: Seq<char>) -> Seq<char> {
    "missing "@ + text::decimal(level_hpa as nat) + " mb "@ + what
        + " slice in HRRR pressure bundle"@
}

fn missing_plane_message(level_hpa: u64, what: &str) -> (message: String)
    ensures
        message@ == missing_plane(level_hpa, what@),
{
    "missing ".to_owned().concat(to_decimal(level_hpa).as_str()).concat(" mb ").concat(what).concat(
        " slice in HRRR pressure bundle",
    )
}

/// Collects the planes of a temperature advection. The temperature is asked
/// for first, then the winds.
pub fn advection_planes<T>(
    level_hpa: u64,
    temperature: Option<Vec<T>>,
    u_ms: Option<Vec<T>>,
    v_ms: Option<Vec<T>>,
) -> (planes: Result<(Vec<T>, Vec<T>, Vec<T>), String>)
    ensures
        match planes {
            Ok(planes) => {
                &&& temperature == Some(planes.0)
                &&& u_ms == Some(planes.1)
                &&& v_ms == Some(planes.2)
            },
            Err(message) => if temperature is None {
                message@ == missing_plane(level_hpa, "temperature"@)
            } else if u_ms is None {
                message@ == missing_plane(level_hpa, "u-wind"@)
            } else {
                v_ms is None && message@ == missing_plane(level_hpa, "v-wind"@)
            },
        },
{
    let temperature = match temperature {
        Some(values) => values,
        None => {
            return Err(missing_plane_message(level_hpa, "temperature"));
        },
    };
    let u_ms = match u_ms {
        Some(values) => values,
        None => {
            return Err(missing_plane_message(level_hpa, "u-wind"));
        },
    };
    match v_ms {
        Some(v_ms) => Ok((temperature, u_ms, v_ms)),
        None => Err(missing_plane_message(level_hpa, "v-wind")),
    }
}

/// A field that does not have the length that it should have.
#[derive(Debug, Clone, Copy)]
pub struct LengthMismatch {
    pub field: &'static str,
    pub expected: usize,
    pub actual: usize,
}

/// Checks that a grid is large enough to have a spacing in both directions.
pub fn check_spacing_grid(nx: usize, ny: usize) -> (checked: Result<(), LengthMismatch>)
    ensures
        match checked {
            Ok(_) => nx >= 2 && ny >= 2,
            Err(mismatch) => {
                &&& nx < 2 || ny < 2
                &&& mismatch.field@ == "grid_spacing"@
                &&& mismatch.expected == 4
                &&& mismatch.actual == nx * ny
            },
        },
{
    if nx < 2 || ny < 2 {
        proof {
            assert(nx * ny <= usize::MAX) by (nonlinear_arith)
                requires
                    nx < 2 || ny < 2,
                    0 <= nx <= usize::MAX,
                    0 <= ny <= usize::MAX,
            ;
        }
        return Err(LengthMismatch { field: "grid_spacing", expected: 4, actual: nx * ny });
    }
    Ok(())
}

/// Checks that some distance was found in both directions.
pub fn check_spacing_counts(dx_count: usize, dy_count: usize) -> (checked: Result<
    (),
    LengthMismatch,
>)
    ensures
        match checked {
            Ok(_) => dx_count > 0 && dy_count > 0,
            Err(mismatch) => {
                &&& dx_count == 0 || dy_count == 0
                &&& mismatch.field@ == "grid_spacing"@
                &&& mismatch.expected == 2
                &&& mismatch.actual == 0
            },
        },
{
    if dx_count == 0 || dy_count == 0 {
        return Err(LengthMismatch { field: "grid_spacing", expected: 2, actual: 0 });
    }
    Ok(())
}

} // verus!
