//! The volumes that a heavy computation is prepared with.
use crate::derived::levels;
use crate::derived::levels::compute_height_agl_3d;
use crate::gridded::fields::{PressureFields, SurfaceFields, VALUE_BYTES};
use vstd::prelude::*;
use vstd::slice::slice_to_vec;

verus! {

/// Whether values are a conversion of each level, repeated over a plane, level
/// after level.
pub open spec fn spread<T, C: Fn(T) -> T>(
    levels_hpa: Seq<T>,
    plane: int,
    to_pa: C,
    values: Seq<T>,
) -> bool {
    &&& values.len() == levels_hpa.len() * plane
    &&& forall|level: int, cell: int|
        #![trigger values[level * plane + cell]]
        0 <= level < levels_hpa.len() && 0 <= cell < plane ==> call_ensures(
            to_pa,
            (levels_hpa[level],),
            values[level * plane + cell],
        )
}

/// Spreads the pressure of each level over a plane.
pub fn broadcast_levels_pa<T: Copy, C: Fn(T) -> T>(levels_hpa: &[T], plane: usize, to_pa: &C) -> (values:
    Vec<T>)
    requires
        forall|level: T| #[trigger] call_requires(*to_pa, (level,)),
    ensures
        spread(levels_hpa@, plane as int, *to_pa, values@),
{
    let mut values: Vec<T> = Vec::new();
    let mut level: usize = 0;
    proof {
        assert(0 == 0 * plane) by (nonlinear_arith);
    }
    while level < levels_hpa.len()
        invariant
            level <= levels_hpa@.len(),
            forall|x: T| #[trigger] call_requires(*to_pa, (x,)),
            values@.len() == level * plane,
            forall|k: int, cell: int|
                #![trigger values@[k * plane + cell]]
                0 <= k < level && 0 <= cell < plane ==> call_ensures(
                    *to_pa,
                    (levels_hpa@[k],),
                    values@[k * plane + cell],
                ),
        decreases levels_hpa@.len() - level,
    {
        let pressure = to_pa(levels_hpa[level]);
        let ghost before = values@;
        let mut cell: usize = 0;
        while cell < plane
            invariant
                cell <= plane,
                values@.len() == before.len() + cell,
                forall|i: int| 0 <= i < before.len() ==> #[trigger] values@[i] == before[i],
                forall|i: int|
                    before.len() <= i < values@.len() ==> #[trigger] values@[i] == pressure,
            decreases plane - cell,
        {
            values.push(pressure);
            cell = cell + 1;
        }
        proof {
            assert((level + 1) * plane == level * plane + plane) by (nonlinear_arith);
            assert forall|k: int, c: int|
                #![trigger values@[k * plane + c]]
                0 <= k < level + 1 && 0 <= c < plane implies call_ensures(
                *to_pa,
                (levels_hpa@[k],),
                values@[k * plane + c],
            ) by {
                if k < level {
                    assert(k * plane + plane <= level * plane) by (nonlinear_arith)
                        requires
                            k + 1 <= level,
                    ;
                    assert(0 <= k * plane) by (nonlinear_arith)
                        requires
                            0 <= k,
                    ;
                    assert(values@[k * plane + c] == before[k * plane + c]);
                } else {
                    assert(values@[k * plane + c] == pressure);
                }
            }
        }
        level = level + 1;
    }
    values
}

/// Whether a value is the lowest height of a column, starting from a height
/// that no column reaches, and then settled.
pub open spec fn lowest_in_column<T, L: Fn(T, T) -> T, S: Fn(T) -> T>(
    heights: Seq<T>,
    plane: int,
    nz: int,
    column: int,
    start: T,
    lower: L,
    settle: S,
    value: T,
) -> bool {
    exists|chain: Seq<T>| #[trigger]
        is_chain(heights, plane, nz, column, start, lower, chain) && call_ensures(
            settle,
            (chain[nz],),
            value,
        )
}

/// Whether each value of a chain is the lower of the one before it and the next
/// height of a column.
pub open spec fn is_chain<T, L: Fn(T, T) -> T>(
    heights: Seq<T>,
    plane: int,
    nz: int,
    column: int,
    start: T,
    lower: L,
    chain: Seq<T>,
) -> bool {
    &&& chain.len() == nz + 1
    &&& chain[0] == start
    &&& forall|k: int|
        #![trigger heights[k * plane + column]]
        0 <= k < nz ==> call_ensures(
            lower,
            (chain[k], heights[k * plane + column]),
            chain[k + 1],
        )
}

/// An orography from the lowest height of each column. `settle` turns a height
/// that is none into one.
pub fn proxy_orography_from_pressure<T: Copy, L: Fn(T, T) -> T, S: Fn(T) -> T>(
    heights: &[T],
    plane: usize,
    nz: usize,
    start: T,
    lower: &L,
    settle: &S,
) -> (proxy: Vec<T>)
    requires
        nz * plane <= heights@.len(),
        forall|a: T, b: T| #[trigger] call_requires(*lower, (a, b)),
        forall|a: T| #[trigger] call_requires(*settle, (a,)),
    ensures
        proxy@.len() == plane,
        forall|column: int|
            0 <= column < plane ==> lowest_in_column(
                heights@,
                plane as int,
                nz as int,
                column,
                start,
                *lower,
                *settle,
                #[trigger] proxy@[column],
            ),
{
    let len: usize = heights.len();
    let mut proxy: Vec<T> = Vec::new();
    let mut column: usize = 0;
    while column < plane
        invariant
            column <= plane,
            len == heights@.len(),
            nz * plane <= heights@.len(),
            forall|a: T, b: T| #[trigger] call_requires(*lower, (a, b)),
            forall|a: T| #[trigger] call_requires(*settle, (a,)),
            proxy@.len() == column,
            forall|c: int|
                0 <= c < column ==> lowest_in_column(
                    heights@,
                    plane as int,
                    nz as int,
                    c,
                    start,
                    *lower,
                    *settle,
                    #[trigger] proxy@[c],
                ),
        decreases plane - column,
    {
        let mut lowest = start;
        let ghost mut chain: Seq<T> = seq![start];
        let mut k: usize = 0;
        while k < nz
            invariant
                k <= nz,
                column < plane,
                len == heights@.len(),
                nz * plane <= heights@.len(),
                forall|a: T, b: T| #[trigger] call_requires(*lower, (a, b)),
                chain.len() == k + 1,
                chain[0] == start,
                chain[k as int] == lowest,
                forall|j: int|
                    #![trigger heights@[j * plane + column]]
                    0 <= j < k ==> call_ensures(
                        *lower,
                        (chain[j], heights@[j * plane + column]),
                        chain[j + 1],
                    ),
            decreases nz - k,
        {
            proof {
                assert(k * plane + plane <= nz * plane) by (nonlinear_arith)
                    requires
                        k + 1 <= nz,
                ;
                assert(0 <= k * plane) by (nonlinear_arith);
            }
            let next = lower(lowest, heights[k * plane + column]);
            proof {
                let before = chain;
                chain = chain.push(next);
                assert forall|j: int|
                    #![trigger heights@[j * plane + column]]
                    0 <= j < k + 1 implies call_ensures(
                    *lower,
                    (chain[j], heights@[j * plane + column]),
                    chain[j + 1],
                ) by {
                    assert(chain[j] == before[j]);
                    if j < k {
                        assert(chain[j + 1] == before[j + 1]);
                    }
                }
            }
            lowest = next;
            k = k + 1;
        }
        let value = settle(lowest);
        proof {
            assert(is_chain(
                heights@,
                plane as int,
                nz as int,
                column as int,
                start,
                *lower,
                chain,
            ));
        }
        proxy.push(value);
        column = column + 1;
    }
    proxy
}

/// The volumes of a heavy computation.
pub struct PreparedHeavyVolume<T> {
    pub nx: usize,
    pub ny: usize,
    pub nz: usize,
    pub pressure_levels_pa: Vec<T>,
    pub pressure_3d_pa: Option<Vec<T>>,
    pub height_agl_3d: Vec<T>,
}

impl<T> PreparedHeavyVolume<T> {
    /// The pressures that kernels read: the volume where there is one, and
    /// otherwise one pressure for each level.
    pub fn pressure_input(&self) -> (pressures: &Vec<T>)
        ensures
            *pressures == (match self.pressure_3d_pa {
                Some(volume) => volume,
                None => self.pressure_levels_pa,
            }),
    {
        match &self.pressure_3d_pa {
            Some(volume) => volume,
            None => &self.pressure_levels_pa,
        }
    }
}

/// How heights, pressures and orography are computed, value by value.
pub struct HeightRules<T, A, R, L, S, C> {
    /// A height over the orography under it.
    pub above: A,
    /// A height raised over the one below it.
    pub raise: R,
    /// The lower of two heights.
    pub lower: L,
    /// A height in place of one that is none.
    pub settle: S,
    /// A pressure in Pa from one in hPa.
    pub to_pa: C,
    /// A height that no column reaches.
    pub highest: T,
}

/// The orography that heights are taken over: that of the surface, or one from
/// the lowest heights where the surface has only a proxy.
pub open spec fn is_orography<T, P, L: Fn(T, T) -> T, S: Fn(T) -> T>(
    surface: SurfaceFields<T, P>,
    pressure: PressureFields<T>,
    lower: L,
    settle: S,
    highest: T,
    orography: Seq<T>,
) -> bool {
    let plane = surface.nx * surface.ny;
    if surface.orog_is_proxy {
        &&& orography.len() == plane
        &&& forall|column: int|
            0 <= column < plane ==> lowest_in_column(
                pressure.gh_m_3d@,
                plane,
                pressure.pressure_levels_hpa@.len() as int,
                column,
                highest,
                lower,
                settle,
                #[trigger] orography[column],
            )
    } else {
        orography == surface.orog_m@
    }
}

/// Whether a pair of analyses has heights above ground: the grid has points, and an
/// orography and geopotential heights that fill it on every level.
pub open spec fn has_heights<T, P>(surface: SurfaceFields<T, P>, pressure: PressureFields<T>) -> bool {
    let plane = surface.nx * surface.ny;
    &&& 0 < plane <= surface.orog_m@.len()
    &&& plane * pressure.pressure_levels_hpa@.len() <= pressure.gh_m_3d@.len()
}

/// Whether every height is taken over an orography, on a grid of `plane` points.
pub open spec fn heights_over<T, A: Fn(T, T) -> T, R: Fn(T, T) -> T>(
    heights: Seq<T>,
    geopotential: Seq<T>,
    orography: Seq<T>,
    plane: int,
    nz: int,
    above: A,
    raise: R,
) -> bool {
    &&& heights.len() == geopotential.len()
    &&& forall|index: int|
        0 <= index < heights.len() ==> #[trigger] levels::is_height(
            heights,
            geopotential,
            orography,
            plane,
            nz,
            index,
            above,
            raise,
        )
}

/// The heights above ground of a pair of analyses. Where the surface has only a
/// proxy for its orography, the lowest height of each column takes its place.
pub fn height_above_ground<
    T: Copy,
    P,
    A: Fn(T, T) -> T,
    R: Fn(T, T) -> T,
    L: Fn(T, T) -> T,
    S: Fn(T) -> T,
    C: Fn(T) -> T,
>(
    surface: &SurfaceFields<T, P>,
    pressure: &PressureFields<T>,
    rules: &HeightRules<T, A, R, L, S, C>,
) -> (heights: Vec<T>)
    requires
        has_heights(*surface, *pressure),
        forall|a: T, b: T| #[trigger] call_requires(rules.above, (a, b)),
        forall|a: T, b: T| #[trigger] call_requires(rules.raise, (a, b)),
        forall|a: T, b: T| #[trigger] call_requires(rules.lower, (a, b)),
        forall|a: T| #[trigger] call_requires(rules.settle, (a,)),
    ensures
        exists|orography: Seq<T>|
            #[trigger] is_orography(
                *surface,
                *pressure,
                rules.lower,
                rules.settle,
                rules.highest,
                orography,
            ) && heights_over(
                heights@,
                pressure.gh_m_3d@,
                orography,
                surface.nx * surface.ny,
                pressure.pressure_levels_hpa@.len() as int,
                rules.above,
                rules.raise,
            ),
{
    proof {
        assert(surface.nx * surface.ny <= surface.orog_m.len());
    }
    let plane: usize = surface.nx * surface.ny;
    let nz: usize = pressure.pressure_levels_hpa.len();
    proof {
        assert(nz * plane == plane * nz) by (nonlinear_arith);
    }
    let orography: Vec<T> = if surface.orog_is_proxy {
        proxy_orography_from_pressure(
            pressure.gh_m_3d.as_slice(),
            plane,
            nz,
            rules.highest,
            &rules.lower,
            &rules.settle,
        )
    } else {
        slice_to_vec(surface.orog_m.as_slice())
    };
    let heights = compute_height_agl_3d(
        pressure.gh_m_3d.as_slice(),
        orography.as_slice(),
        plane,
        nz,
        &rules.above,
        &rules.raise,
    );
    proof {
        assert(is_orography(
            *surface,
            *pressure,
            rules.lower,
            rules.settle,
            rules.highest,
            orography@,
        ));
    }
    heights
}

/// Whether the pressure volume of a prepared heavy volume is the one it should
/// be: none unless it is asked for, the analysis's own where it has one, and the
/// levels spread over the plane otherwise.
pub open spec fn is_pressure_volume<T, C: Fn(T) -> T>(
    wanted: bool,
    pressure: PressureFields<T>,
    plane: int,
    to_pa: C,
    volume: Option<Vec<T>>,
) -> bool {
    if !wanted {
        volume is None
    } else {
        &&& volume is Some
        &&& match pressure.pressure_3d_pa {
            Some(own) => volume->Some_0@ == own@,
            None => spread(pressure.pressure_levels_hpa@, plane, to_pa, volume->Some_0@),
        }
    }
}

/// Prepares the volumes of a heavy computation.
pub fn prepare_heavy_volume<
    T: Copy,
    P,
    A: Fn(T, T) -> T,
    R: Fn(T, T) -> T,
    L: Fn(T, T) -> T,
    S: Fn(T) -> T,
    C: Fn(T) -> T,
>(
    surface: &SurfaceFields<T, P>,
    pressure: &PressureFields<T>,
    include_pressure_3d: bool,
    rules: &HeightRules<T, A, R, L, S, C>,
) -> (prepared: PreparedHeavyVolume<T>)
    requires
        has_heights(*surface, *pressure),
        forall|a: T, b: T| #[trigger] call_requires(rules.above, (a, b)),
        forall|a: T, b: T| #[trigger] call_requires(rules.raise, (a, b)),
        forall|a: T, b: T| #[trigger] call_requires(rules.lower, (a, b)),
        forall|a: T| #[trigger] call_requires(rules.settle, (a,)),
        forall|a: T| #[trigger] call_requires(rules.to_pa, (a,)),
    ensures
        prepared.nx == surface.nx,
        prepared.ny == surface.ny,
        prepared.nz == pressure.pressure_levels_hpa@.len(),
        spread(pressure.pressure_levels_hpa@, 1, rules.to_pa, prepared.pressure_levels_pa@),
        is_pressure_volume(
            include_pressure_3d,
            *pressure,
            surface.nx * surface.ny,
            rules.to_pa,
            prepared.pressure_3d_pa,
        ),
        exists|orography: Seq<T>|
            #[trigger] is_orography(
                *surface,
                *pressure,
                rules.lower,
                rules.settle,
                rules.highest,
                orography,
            ) && heights_over(
                prepared.height_agl_3d@,
                pressure.gh_m_3d@,
                orography,
                surface.nx * surface.ny,
                pressure.pressure_levels_hpa@.len() as int,
                rules.above,
                rules.raise,
            ),
{
    proof {
        assert(surface.nx * surface.ny <= surface.orog_m.len());
    }
    let plane: usize = surface.nx * surface.ny;
    let pressure_levels_pa = broadcast_levels_pa(
        pressure.pressure_levels_hpa.as_slice(),
        1,
        &rules.to_pa,
    );
    let height_agl_3d = height_above_ground(surface, pressure, rules);
    let pressure_3d_pa = if include_pressure_3d {
        match &pressure.pressure_3d_pa {
            Some(own) => Some(slice_to_vec(own.as_slice())),
            None => Some(
                broadcast_levels_pa(pressure.pressure_levels_hpa.as_slice(), plane, &rules.to_pa),
            ),
        }
    } else {
        None
    };
    PreparedHeavyVolume {
        nx: surface.nx,
        ny: surface.ny,
        nz: pressure.pressure_levels_hpa.len(),
        pressure_levels_pa,
        pressure_3d_pa,
        height_agl_3d,
    }
}

/// The times of preparing a heavy volume, and the bytes of its pressure volume.
#[derive(Debug, Clone, Copy, PartialEq, Eq, Structural)]
pub struct PreparedHeavyVolumeTiming {
    pub prepare_height_agl_ms: u128,
    pub broadcast_pressure_ms: u128,
    pub pressure_3d_bytes: usize,
}

/// Records how long preparing a heavy volume took. Spreading the pressures is
/// timed only where it was asked for.
pub fn prepared_timing<T>(
    prepared: &PreparedHeavyVolume<T>,
    include_pressure_3d: bool,
    height_ms: u128,
    broadcast_ms: u128,
) -> (timing: PreparedHeavyVolumeTiming)
    requires
        prepared.pressure_3d_pa matches Some(volume) ==> volume@.len() * VALUE_BYTES <= usize::MAX,
    ensures
        timing.prepare_height_agl_ms == height_ms,
        timing.broadcast_pressure_ms == (if include_pressure_3d {
            broadcast_ms
        } else {
            0
        }),
        timing.pressure_3d_bytes == (match prepared.pressure_3d_pa {
            Some(volume) => volume@.len() * VALUE_BYTES,
            None => 0,
        }),
{
    PreparedHeavyVolumeTiming {
        prepare_height_agl_ms: height_ms,
        broadcast_pressure_ms: if include_pressure_3d {
            broadcast_ms
        } else {
            0
        },
        pressure_3d_bytes: match &prepared.pressure_3d_pa {
            Some(volume) => volume.len() * VALUE_BYTES,
            None => 0,
        },
    }
}

} // verus!
