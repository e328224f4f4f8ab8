//! What the heights and pressures of a heavy volume are taken from.
use crate::gridded::fields::{PressureFields, SurfaceFields};
use crate::gridded::heavy_volume;
use vstd::prelude::*;

verus! {

/// Heights are taken over the orography of the surface where it has one. Where it
/// has only a proxy, that proxy does not matter: another surface on the same grid
/// gives the same orography.
pub proof fn law_orography_is_the_surfaces_own_or_the_lowest_heights<
    T,
    P,
    L: Fn(T, T) -> T,
    S: Fn(T) -> T,
>(
    surface: SurfaceFields<T, P>,
    other: SurfaceFields<T, P>,
    pressure: PressureFields<T>,
    lower: L,
    settle: S,
    highest: T,
    orography: Seq<T>,
)
    requires
        heavy_volume::is_orography(surface, pressure, lower, settle, highest, orography),
        other.nx == surface.nx,
        other.ny == surface.ny,
        other.orog_is_proxy,
    ensures
        !surface.orog_is_proxy ==> orography == surface.orog_m@,
        surface.orog_is_proxy ==> orography.len() == surface.nx * surface.ny
            && heavy_volume::is_orography(other, pressure, lower, settle, highest, orography),
{
}

/// A volume has pressures if and only if they are wanted. They are the analysis's
/// own where it has any, and else each level is converted for every cell alike.
pub proof fn law_pressures_are_the_own_ones_or_those_of_the_levels<T, C: Fn(T) -> T>(
    wanted: bool,
    pressure: PressureFields<T>,
    plane: int,
    to_pa: C,
    volume: Option<Vec<T>>,
    level: int,
    cell: int,
)
    requires
        heavy_volume::is_pressure_volume(wanted, pressure, plane, to_pa, volume),
        0 <= cell < plane,
        0 <= level < pressure.pressure_levels_hpa@.len(),
    ensures
        volume is Some <==> wanted,
        wanted && pressure.pressure_3d_pa is Some ==> volume->Some_0@
            == pressure.pressure_3d_pa->Some_0@,
        wanted && pressure.pressure_3d_pa is None ==> {
            &&& volume->Some_0@.len() == pressure.pressure_levels_hpa@.len() * plane
            &&& call_ensures(
                to_pa,
                (pressure.pressure_levels_hpa@[level],),
                volume->Some_0@[level * plane + cell],
            )
        },
{
}

} // verus!
