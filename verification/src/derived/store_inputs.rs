//! The analyses that stored grids are computed from, and the volumes that the
//! stages of that computation hand to each other.
use crate::derived::assemble;
use crate::derived::assemble::TakenWindVolumes;
use crate::derived::levels::compute_height_agl_3d;
use crate::gridded::fields::{PressureFields, SurfaceFields};
use crate::gridded::heavy_volume;
use crate::gridded::heavy_volume::{height_above_ground, HeightRules};
use vstd::prelude::*;

verus! {

/// A pair of analyses with one volume of heights above ground that the derived
/// and the heavy stage share.
pub struct StoreComputeInputs<T, P> {
    pub surface: SurfaceFields<T, P>,
    pub pressure: PressureFields<T>,
    /// The shared heights, unless the surface has only a proxy for its
    /// orography.
    pub height_agl_3d: Option<Vec<T>>,
}

/// Whether inputs are a pair of analyses taken over. Unless the surface has only a
/// proxy for its orography, the geopotential heights have become heights above
/// ground.
pub open spec fn takes_over<T, P, A: Fn(T, T) -> T, R: Fn(T, T) -> T>(
    surface: SurfaceFields<T, P>,
    pressure: PressureFields<T>,
    above: A,
    raise: R,
    inputs: StoreComputeInputs<T, P>,
) -> bool {
    &&& inputs.surface == surface
    &&& if surface.orog_is_proxy {
        &&& inputs.height_agl_3d is None
        &&& inputs.pressure == pressure
    } else {
        &&& inputs.height_agl_3d is Some
        &&& heavy_volume::heights_over(
            inputs.height_agl_3d->Some_0@,
            pressure.gh_m_3d@,
            surface.orog_m@,
            surface.nx * surface.ny,
            pressure.pressure_levels_hpa@.len() as int,
            above,
            raise,
        )
        &&& inputs.pressure.gh_m_3d@.len() == 0
        &&& inputs.pressure == (PressureFields { gh_m_3d: inputs.pressure.gh_m_3d, ..pressure })
    }
}

/// Takes the pair of analyses over. Unless the surface has only a proxy for its
/// orography, the geopotential heights are turned into heights above ground, and
/// leave the pressure analysis.
pub fn prepare_store_compute_inputs<T: Copy, P, A: Fn(T, T) -> T, R: Fn(T, T) -> T>(
    surface: SurfaceFields<T, P>,
    pressure: PressureFields<T>,
    above: &A,
    raise: &R,
) -> (inputs: StoreComputeInputs<T, P>)
    requires
        !surface.orog_is_proxy ==> heavy_volume::has_heights(surface, pressure),
        forall|a: T, b: T| #[trigger] call_requires(*above, (a, b)),
        forall|a: T, b: T| #[trigger] call_requires(*raise, (a, b)),
    ensures
        takes_over(surface, pressure, *above, *raise, inputs),
{
    if surface.orog_is_proxy {
        return StoreComputeInputs { surface, pressure, height_agl_3d: None };
    }
    proof {
        assert(surface.nx * surface.ny <= surface.orog_m.len());
    }
    let mut pressure = pressure;
    let heights = compute_height_agl_3d(
        pressure.gh_m_3d.as_slice(),
        surface.orog_m.as_slice(),
        surface.nx * surface.ny,
        pressure.pressure_levels_hpa.len(),
        above,
        raise,
    );
    pressure.gh_m_3d = Vec::new();
    StoreComputeInputs { surface, pressure, height_agl_3d: Some(heights) }
}

/// The heights that the heavy stage computes with: the shared ones, or its own
/// where there are none. The geopotential heights are given up either way.
pub fn heavy_stage_heights<
    T: Copy,
    P,
    A: Fn(T, T) -> T,
    R: Fn(T, T) -> T,
    L: Fn(T, T) -> T,
    S: Fn(T) -> T,
    C: Fn(T) -> T,
>(inputs: &mut StoreComputeInputs<T, P>, rules: &HeightRules<T, A, R, L, S, C>) -> (heights: Vec<T>)
    requires
        old(inputs).height_agl_3d is None ==> heavy_volume::has_heights(
            old(inputs).surface,
            old(inputs).pressure,
        ),
        forall|a: T, b: T| #[trigger] call_requires(rules.above, (a, b)),
        forall|a: T, b: T| #[trigger] call_requires(rules.raise, (a, b)),
        forall|a: T, b: T| #[trigger] call_requires(rules.lower, (a, b)),
        forall|a: T| #[trigger] call_requires(rules.settle, (a,)),
    ensures
        match old(inputs).height_agl_3d {
            Some(shared) => heights == shared,
            None => exists|orography: Seq<T>|
                #[trigger] heavy_volume::is_orography(
                    old(inputs).surface,
                    old(inputs).pressure,
                    rules.lower,
                    rules.settle,
                    rules.highest,
                    orography,
                ) && heavy_volume::heights_over(
                    heights@,
                    old(inputs).pressure.gh_m_3d@,
                    orography,
                    old(inputs).surface.nx * old(inputs).surface.ny,
                    old(inputs).pressure.pressure_levels_hpa@.len() as int,
                    rules.above,
                    rules.raise,
                ),
        },
        final(inputs).height_agl_3d is None,
        final(inputs).surface == old(inputs).surface,
        final(inputs).pressure.gh_m_3d@.len() == 0,
        final(inputs).pressure == (PressureFields {
            gh_m_3d: final(inputs).pressure.gh_m_3d,
            ..old(inputs).pressure
        }),
{
    let heights = match inputs.height_agl_3d.take() {
        Some(shared) => shared,
        None => height_above_ground(&inputs.surface, &inputs.pressure, rules),
    };
    inputs.pressure.gh_m_3d = Vec::new();
    heights
}

/// Where the surface has its own orography, the shared heights are those that
/// the heavy stage would have assembled itself.
pub proof fn law_shared_heights_are_the_heavy_stages_own<
    T,
    P,
    A: Fn(T, T) -> T,
    R: Fn(T, T) -> T,
    L: Fn(T, T) -> T,
    S: Fn(T) -> T,
>(
    surface: SurfaceFields<T, P>,
    pressure: PressureFields<T>,
    heights: Seq<T>,
    orography: Seq<T>,
    above: A,
    raise: R,
    lower: L,
    settle: S,
    highest: T,
)
    requires
        !surface.orog_is_proxy,
        heavy_volume::is_orography(surface, pressure, lower, settle, highest, orography),
    ensures
        heavy_volume::heights_over(
            heights,
            pressure.gh_m_3d@,
            surface.orog_m@,
            surface.nx * surface.ny,
            pressure.pressure_levels_hpa@.len() as int,
            above,
            raise,
        ) <==> heavy_volume::heights_over(
            heights,
            pressure.gh_m_3d@,
            orography,
            surface.nx * surface.ny,
            pressure.pressure_levels_hpa@.len() as int,
            above,
            raise,
        ),
{
}

/// Whether the wind volumes were taken out of a pressure analysis.
pub open spec fn winds_taken<T>(
    before: PressureFields<T>,
    after: PressureFields<T>,
    winds: TakenWindVolumes<T>,
) -> bool {
    &&& winds.u_ms_3d == before.u_ms_3d
    &&& winds.v_ms_3d == before.v_ms_3d
    &&& after.u_ms_3d@.len() == 0
    &&& after.v_ms_3d@.len() == 0
    &&& after == (PressureFields { u_ms_3d: after.u_ms_3d, v_ms_3d: after.v_ms_3d, ..before })
}

/// Takes the wind volumes out of a pressure analysis.
pub fn take_winds<T>(pressure: &mut PressureFields<T>) -> (winds: TakenWindVolumes<T>)
    ensures
        winds_taken(*old(pressure), *final(pressure), winds),
{
    let mut u_ms_3d: Vec<T> = Vec::new();
    let mut v_ms_3d: Vec<T> = Vec::new();
    std::mem::swap(&mut u_ms_3d, &mut pressure.u_ms_3d);
    std::mem::swap(&mut v_ms_3d, &mut pressure.v_ms_3d);
    TakenWindVolumes { u_ms_3d, v_ms_3d }
}

/// A pressure analysis with wind volumes that were kept put back into it.
pub open spec fn winds_restored<T>(
    pressure: PressureFields<T>,
    kept: Option<TakenWindVolumes<T>>,
) -> PressureFields<T> {
    match kept {
        Some(winds) => PressureFields {
            u_ms_3d: winds.u_ms_3d,
            v_ms_3d: winds.v_ms_3d,
            ..pressure
        },
        None => pressure,
    }
}

/// Puts wind volumes that were kept back into a pressure analysis.
pub fn restore_winds<T>(pressure: &mut PressureFields<T>, kept: Option<TakenWindVolumes<T>>)
    ensures
        *final(pressure) == winds_restored(*old(pressure), kept),
{
    if let Some(winds) = kept {
        pressure.u_ms_3d = winds.u_ms_3d;
        pressure.v_ms_3d = winds.v_ms_3d;
    }
}

/// Taken out and kept, the wind volumes come back and the analysis is what it
/// was; given up, the analysis has lost them and nothing else.
pub proof fn law_kept_winds_come_back<T>(
    before: PressureFields<T>,
    taken: PressureFields<T>,
    winds: TakenWindVolumes<T>,
    keep_winds: bool,
)
    requires
        winds_taken(before, taken, winds),
    ensures
        keep_winds ==> winds_restored(taken, assemble::winds_kept(winds, keep_winds)) == before,
        !keep_winds ==> winds_restored(taken, assemble::winds_kept(winds, keep_winds)) == taken,
{
}

} // verus!
