//! Computing the grids that are stored, from a pair of analyses.
use crate::derived::assemble;
use crate::derived::assemble::TakenWindVolumes;
use crate::derived::compute;
use crate::derived::compute::compute_derived_fields_generic;
use crate::derived::compute_laws;
use crate::derived::fields;
use crate::derived::fields::DerivedComputedFields;
use crate::derived::kernel_runs;
use crate::derived::kernel_runs::{ComputeRules, KernelAnswer, KernelCall, KernelContext};
use crate::derived::levels::LengthMismatch;
use crate::derived::phased;
use crate::derived::phased::compute_store_derived_fields_phased;
use crate::derived::requirements;
use crate::derived::store;
use crate::derived::store::{
    collect_store_grids, map_heavy_fields, narrow_grids, select_recipes, take_store_grids,
    StoreDerivedGrid, StoreHeavyGrids,
};
use crate::derived::store_inputs;
use crate::derived::store_inputs::{
    heavy_stage_heights, restore_winds, take_winds, StoreComputeInputs,
};
use crate::derived::store_laws;
use crate::ecape_compute;
use crate::ecape_compute::{
    compute_ecape_map_fields, compute_ecape_map_fields_with_prepared_volume, EcapeAnswer, EcapeCall,
};
use crate::gridded::fields::{PressureFields, SurfaceFields};
use crate::gridded::heavy_volume;
use crate::gridded::heavy_volume::{broadcast_levels_pa, HeightRules, PreparedHeavyVolume};
use crate::panel::WeatherPanelField;
use vstd::prelude::*;

verus! {

/// Whether grids are those of all recipes that are not heavy.
pub open spec fn grids_of<T>(
    computed: DerivedComputedFields<T>,
    grids: Seq<StoreDerivedGrid<T>>,
) -> bool {
    &&& grids.len() == store::stored_recipes(false).len()
    &&& forall|i: int|
        0 <= i < grids.len() ==> store::stores(
            #[trigger] grids[i],
            store::stored_recipes(false)[i],
            computed,
        )
}

/// Whether grids are those of all recipes that are not heavy, converted value by
/// value.
pub open spec fn narrowed_grids_of<T, U, F: Fn(T) -> U>(
    computed: DerivedComputedFields<T>,
    narrow: F,
    grids: Seq<StoreDerivedGrid<U>>,
) -> bool {
    &&& grids.len() == store::stored_recipes(false).len()
    &&& forall|i: int|
        0 <= i < grids.len() ==> store::stores_narrowed(
            #[trigger] grids[i],
            store::stored_recipes(false)[i],
            computed,
            narrow,
        )
}

proof fn lemma_no_gap<
    T,
    K: for<'a> Fn(KernelCall<'a, T>) -> Result<KernelAnswer<T>, String>,
    A: Fn(T, T) -> T,
    R: Fn(T, T) -> T,
    C: Fn(T) -> T,
    N: Fn(T) -> T,
    L: Fn(T, u64) -> bool,
    X: Fn(T, T, u64) -> bool,
    B: Fn(T, T, T, T, u64) -> T,
    GD: Fn(T, T, T, T) -> T,
    GU: Fn(T) -> bool,
    GS: Fn(T, T) -> T,
    GM: Fn(T, usize) -> T,
    GW: Fn(LengthMismatch) -> String,
>(
    context: KernelContext<T>,
    rules: ComputeRules<T, K, A, R, C, N, L, X, B, GD, GU, GS, GM, GW>,
    computed: DerivedComputedFields<T>,
    i: int,
)
    requires
        kernel_runs::usable(rules),
        compute::computed_by(context, store::stored_recipes(false), rules, computed),
    ensures
        !store::first_gap(store::stored_recipes(false), computed, i),
{
    let recipes = store::stored_recipes(false);
    if store::first_gap(recipes, computed, i) {
        assert(recipes.contains(recipes[i]));
        store::law_stored_recipes_partition_the_inventory(recipes[i]);
        compute_laws::law_computed_fields_realize_every_recipe(
            context,
            recipes,
            rules,
            computed,
            recipes[i],
        );
    }
}

/// Whether the grids of all recipes that are not heavy end as computed from a pair of
/// analyses.
pub open spec fn wide_stage<
    T,
    P,
    K: for<'a> Fn(KernelCall<'a, T>) -> Result<KernelAnswer<T>, String>,
    A: Fn(T, T) -> T,
    R: Fn(T, T) -> T,
    C: Fn(T) -> T,
    N: Fn(T) -> T,
    L: Fn(T, u64) -> bool,
    X: Fn(T, T, u64) -> bool,
    B: Fn(T, T, T, T, u64) -> T,
    GD: Fn(T, T, T, T) -> T,
    GU: Fn(T) -> bool,
    GS: Fn(T, T) -> T,
    GM: Fn(T, usize) -> T,
    GW: Fn(LengthMismatch) -> String,
>(
    surface: SurfaceFields<T, P>,
    pressure: PressureFields<T>,
    rules: ComputeRules<T, K, A, R, C, N, L, X, B, GD, GU, GS, GM, GW>,
    grids: Result<Vec<StoreDerivedGrid<T>>, String>,
) -> bool {
    match grids {
        Ok(grids) => exists|computed: DerivedComputedFields<T>|
            compute::computes(
                surface,
                pressure,
                store::stored_recipes(false),
                None,
                rules,
                Ok::<DerivedComputedFields<T>, String>(computed),
            ) && #[trigger] grids_of(computed, grids@),
        Err(message) => compute::computes(
            surface,
            pressure,
            store::stored_recipes(false),
            None,
            rules,
            Err::<DerivedComputedFields<T>, String>(message),
        ),
    }
}

/// Computes the grids of all recipes that are not heavy. They fail as a whole,
/// and only where the computation of the fields fails.
pub fn compute_store_derived_grids<
    T: Copy + Send + Sync,
    P,
    K: for<'a> Fn(KernelCall<'a, T>) -> Result<KernelAnswer<T>, String> + Sync,
    A: Fn(T, T) -> T + Sync,
    R: Fn(T, T) -> T + Sync,
    C: Fn(T) -> T + Sync,
    N: Fn(T) -> T + Sync,
    L: Fn(T, u64) -> bool + Sync,
    X: Fn(T, T, u64) -> bool + Sync,
    B: Fn(T, T, T, T, u64) -> T + Sync,
    GD: Fn(T, T, T, T) -> T + Sync,
    GU: Fn(T) -> bool + Sync,
    GS: Fn(T, T) -> T + Sync,
    GM: Fn(T, usize) -> T + Sync,
    GW: Fn(LengthMismatch) -> String + Sync,
>(
    surface: &SurfaceFields<T, P>,
    pressure: &PressureFields<T>,
    rules: &ComputeRules<T, K, A, R, C, N, L, X, B, GD, GU, GS, GM, GW>,
) -> (grids: Result<Vec<StoreDerivedGrid<T>>, String>)
    requires
        kernel_runs::usable(*rules),
        surface.nx * surface.ny <= usize::MAX,
        pressure.pressure_levels_hpa@.len() * (surface.nx * surface.ny) <= usize::MAX,
        heavy_volume::has_heights(*surface, *pressure) && compute::has_positions(*surface)
            || compute::refuses_grid(rules.run, surface.nx, surface.ny),
    ensures
        wide_stage(*surface, *pressure, *rules, grids),
{
    let recipes = select_recipes(false);
    match compute_derived_fields_generic(surface, pressure, recipes.as_slice(), rules) {
        Ok(computed) => {
            let grids = collect_store_grids(surface.nx, surface.ny, &computed);
            proof {
                let needs = requirements::need_of_all(recipes@);
                let context = choose|context: KernelContext<T>|
                    {
                        &&& #[trigger] compute::reads(
                            context,
                            *surface,
                            *pressure,
                            pressure.u_ms_3d,
                            pressure.v_ms_3d,
                            needs,
                            None,
                            *rules,
                        )
                        &&& *context.volume_u_ms == pressure.u_ms_3d
                        &&& *context.volume_v_ms == pressure.v_ms_3d
                        &&& compute::outcome(
                            context,
                            compute::generic_phases(needs),
                            recipes@,
                            *rules,
                            Ok::<DerivedComputedFields<T>, String>(computed),
                        )
                    };
                if grids is Err {
                    let i = choose|i: int|
                        #[trigger] store::first_gap(store::stored_recipes(false), computed, i)
                            && grids->Err_0@ == fields::not_computed(
                            store::stored_recipes(false)[i],
                        );
                    lemma_no_gap(context, *rules, computed, i);
                } else {
                    assert(grids_of(computed, grids->Ok_0@));
                }
            }
            grids
        },
        Err(message) => Err(message),
    }
}

/// The heights that are shared between the stages.
pub open spec fn shared_heights<T, P>(inputs: &StoreComputeInputs<T, P>) -> Option<&Vec<T>> {
    match &inputs.height_agl_3d {
        Some(heights) => Some(heights),
        None => None,
    }
}

/// Whether the derived stage, given its inputs before and after it, ends with a
/// result. The wind volumes are taken out; those that are kept come back if the
/// stage succeeds. Nothing else of the inputs changes.
pub open spec fn derived_stage<
    T,
    P,
    K: for<'a> Fn(KernelCall<'a, T>) -> Result<KernelAnswer<T>, String>,
    A: Fn(T, T) -> T,
    R: Fn(T, T) -> T,
    C: Fn(T) -> T,
    N: Fn(T) -> T,
    L: Fn(T, u64) -> bool,
    X: Fn(T, T, u64) -> bool,
    B: Fn(T, T, T, T, u64) -> T,
    GD: Fn(T, T, T, T) -> T,
    GU: Fn(T) -> bool,
    GS: Fn(T, T) -> T,
    GM: Fn(T, usize) -> T,
    GW: Fn(LengthMismatch) -> String,
    U,
    F: Fn(T) -> U,
>(
    before: StoreComputeInputs<T, P>,
    after: StoreComputeInputs<T, P>,
    keep_winds: bool,
    rules: ComputeRules<T, K, A, R, C, N, L, X, B, GD, GU, GS, GM, GW>,
    narrow: F,
    grids: Result<Vec<StoreDerivedGrid<U>>, String>,
) -> bool {
    let winds = TakenWindVolumes {
        u_ms_3d: before.pressure.u_ms_3d,
        v_ms_3d: before.pressure.v_ms_3d,
    };
    let kept = assemble::winds_kept(winds, keep_winds);
    &&& after.surface == before.surface
    &&& after.height_agl_3d == before.height_agl_3d
    &&& exists|left: PressureFields<T>|
        #[trigger] store_inputs::winds_taken(before.pressure, left, winds) && match grids {
            Ok(grids) => after.pressure == store_inputs::winds_restored(left, kept) && exists|
                computed: DerivedComputedFields<T>,
            |
                phased::computes_wind_first(
                    before.surface,
                    left,
                    winds,
                    store::stored_recipes(false),
                    shared_heights(&before),
                    keep_winds,
                    rules,
                    Ok((computed, kept)),
                ) && #[trigger] narrowed_grids_of(computed, narrow, grids@),
            Err(message) => after.pressure == left && phased::computes_wind_first(
                before.surface,
                left,
                winds,
                store::stored_recipes(false),
                shared_heights(&before),
                keep_winds,
                rules,
                Err(message),
            ),
        }
}

/// Computes the grids of all recipes that are not heavy from shared inputs,
/// converted value by value. The wind volumes are given up early, unless they are
/// to be kept for the heavy stage.
pub fn compute_store_derived_grids_f32<
    T: Copy + Send + Sync,
    P,
    K: for<'a> Fn(KernelCall<'a, T>) -> Result<KernelAnswer<T>, String> + Sync,
    A: Fn(T, T) -> T + Sync,
    R: Fn(T, T) -> T + Sync,
    C: Fn(T) -> T + Sync,
    N: Fn(T) -> T + Sync,
    L: Fn(T, u64) -> bool + Sync,
    X: Fn(T, T, u64) -> bool + Sync,
    B: Fn(T, T, T, T, u64) -> T + Sync,
    GD: Fn(T, T, T, T) -> T + Sync,
    GU: Fn(T) -> bool + Sync,
    GS: Fn(T, T) -> T + Sync,
    GM: Fn(T, usize) -> T + Sync,
    GW: Fn(LengthMismatch) -> String + Sync,
    U,
    F: Fn(T) -> U,
>(
    inputs: &mut StoreComputeInputs<T, P>,
    keep_winds: bool,
    rules: &ComputeRules<T, K, A, R, C, N, L, X, B, GD, GU, GS, GM, GW>,
    narrow: &F,
) -> (grids: Result<Vec<StoreDerivedGrid<U>>, String>)
    requires
        kernel_runs::usable(*rules),
        forall|value: T| #[trigger] call_requires(*narrow, (value,)),
        old(inputs).surface.nx * old(inputs).surface.ny <= usize::MAX,
        old(inputs).pressure.pressure_levels_hpa@.len() * (old(inputs).surface.nx * old(
            inputs,
        ).surface.ny) <= usize::MAX,
        old(inputs).height_agl_3d is None ==> heavy_volume::has_heights(
            old(inputs).surface,
            old(inputs).pressure,
        ) || compute::refuses_grid(
            rules.run,
            old(inputs).surface.nx,
            old(inputs).surface.ny,
        ),
        compute::has_positions(old(inputs).surface) || compute::refuses_grid(
            rules.run,
            old(inputs).surface.nx,
            old(inputs).surface.ny,
        ),
    ensures
        derived_stage(*old(inputs), *final(inputs), keep_winds, *rules, *narrow, grids),
{
    let ghost before = *inputs;
    let recipes = select_recipes(false);
    let winds = take_winds(&mut inputs.pressure);
    let ghost taken = winds;
    let ghost left = inputs.pressure;
    let heights: Option<&Vec<T>> = match &inputs.height_agl_3d {
        Some(heights) => Some(heights),
        None => None,
    };
    let result = compute_store_derived_fields_phased(
        &inputs.surface,
        &inputs.pressure,
        winds,
        recipes.as_slice(),
        heights,
        keep_winds,
        rules,
    );
    match result {
        Ok((computed, kept)) => {
            let mut computed = computed;
            let ghost fields_computed = computed;
            restore_winds(&mut inputs.pressure, kept);
            let grids = take_store_grids(
                inputs.surface.nx,
                inputs.surface.ny,
                &mut computed,
                narrow,
            );
            proof {
                let needs = requirements::need_of_all(recipes@);
                let context = choose|context: KernelContext<T>|
                    {
                        &&& #[trigger] compute::reads(
                            context,
                            before.surface,
                            left,
                            taken.u_ms_3d,
                            taken.v_ms_3d,
                            needs,
                            shared_heights(&before),
                            *rules,
                        )
                        &&& context.volume_u_ms@.len() == 0
                        &&& context.volume_v_ms@.len() == 0
                        &&& compute::outcome(
                            context,
                            compute::wind_first_phases(needs),
                            recipes@,
                            *rules,
                            Ok::<DerivedComputedFields<T>, String>(fields_computed),
                        )
                    };
                if grids is Err {
                    let i = choose|i: int|
                        #[trigger] store::first_gap(
                            store::stored_recipes(false),
                            fields_computed,
                            i,
                        ) && grids->Err_0@ == fields::not_computed(
                            store::stored_recipes(false)[i],
                        );
                    lemma_no_gap(context, *rules, fields_computed, i);
                } else {
                    assert(narrowed_grids_of(fields_computed, *narrow, grids->Ok_0@));
                }
            }
            grids
        },
        Err(message) => Err(message),
    }
}

/// Whether a heavy stage ends with a result: the grids that the ECAPE fields are
/// mapped to, or the message of the kernel that failed.
pub open spec fn heavy_stage<
    T,
    P,
    K: for<'a> Fn(EcapeCall<'a, T>) -> Result<EcapeAnswer<T>, String>,
    R: Fn(T, T) -> T,
>(
    surface: SurfaceFields<T, P>,
    pressure: PressureFields<T>,
    prepared: PreparedHeavyVolume<T>,
    run: K,
    ratio: R,
    grids: Result<StoreHeavyGrids<T>, String>,
) -> bool {
    match grids {
        Ok(_) => exists|panel_fields: Vec<WeatherPanelField<T>>, failure_count: usize|
            ecape_compute::outcome(
                surface,
                pressure,
                prepared,
                run,
                ratio,
                Ok::<(Vec<WeatherPanelField<T>>, usize), String>((panel_fields, failure_count)),
            ) && #[trigger] store::maps_heavy_fields(panel_fields@, failure_count, grids),
        Err(message) => ecape_compute::outcome(
            surface,
            pressure,
            prepared,
            run,
            ratio,
            Err::<(Vec<WeatherPanelField<T>>, usize), String>(message),
        ),
    }
}

/// Maps published ECAPE fields, which never miss a recipe that must be there.
fn map_published<T, P, R: Fn(T, T) -> T>(
    surface: &SurfaceFields<T, P>,
    panel_fields: Vec<WeatherPanelField<T>>,
    failure_count: usize,
    ratio: &R,
    Ghost(answers): Ghost<Seq<EcapeAnswer<T>>>,
) -> (mapped: StoreHeavyGrids<T>)
    requires
        ecape_compute::published(*surface, answers, *ratio, panel_fields@),
    ensures
        store::maps_heavy_fields(
            panel_fields@,
            failure_count,
            Ok::<StoreHeavyGrids<T>, String>(mapped),
        ),
{
    let ghost fields = panel_fields@;
    match map_heavy_fields(panel_fields, failure_count) {
        Ok(mapped) => mapped,
        Err(message) => {
            proof {
                let recipes = store::stored_recipes(true);
                let place = choose|place: int|
                    #[trigger] store::first_wiring_gap(recipes, fields, place) && message@
                        == store::wiring_bug(recipes[place]);
                store_laws::law_ecape_fields_realize_the_heavy_recipes(
                    fields,
                    surface.native_sbcape_jkg is Some,
                    surface.native_mlcape_jkg is Some,
                    surface.native_mucape_jkg is Some,
                    place,
                );
            }
            vstd::pervasive::unreached()
        },
    }
}

/// Computes the grids of all heavy recipes. A ratio to a native CAPE plane that
/// the surface does not have is left out and recorded; nothing else ever is.
pub fn compute_store_heavy_grids<
    T: Copy,
    P,
    K: for<'a> Fn(EcapeCall<'a, T>) -> Result<EcapeAnswer<T>, String>,
    R: Fn(T, T) -> T,
    A: Fn(T, T) -> T,
    S: Fn(T, T) -> T,
    L: Fn(T, T) -> T,
    E: Fn(T) -> T,
    C: Fn(T) -> T,
>(
    surface: &SurfaceFields<T, P>,
    pressure: &PressureFields<T>,
    heights: &HeightRules<T, A, S, L, E, C>,
    run: &K,
    ratio: &R,
) -> (grids: Result<StoreHeavyGrids<T>, String>)
    requires
        ecape_compute::usable(*run),
        forall|a: T, b: T| #[trigger] call_requires(*ratio, (a, b)),
        forall|a: T, b: T| #[trigger] call_requires(heights.above, (a, b)),
        forall|a: T, b: T| #[trigger] call_requires(heights.raise, (a, b)),
        forall|a: T, b: T| #[trigger] call_requires(heights.lower, (a, b)),
        forall|a: T| #[trigger] call_requires(heights.settle, (a,)),
        forall|a: T| #[trigger] call_requires(heights.to_pa, (a,)),
        heavy_volume::has_heights(*surface, *pressure),
    ensures
        exists|prepared: PreparedHeavyVolume<T>|
            #[trigger] ecape_compute::prepared_from(*surface, *pressure, *heights, prepared)
                && heavy_stage(*surface, *pressure, prepared, *run, *ratio, grids),
{
    let result = compute_ecape_map_fields(surface, pressure, heights, run, ratio);
    let ghost ended = result;
    let ghost prepared = choose|prepared: PreparedHeavyVolume<T>|
        #[trigger] ecape_compute::prepared_from(*surface, *pressure, *heights, prepared)
            && ecape_compute::outcome(*surface, *pressure, prepared, *run, *ratio, ended);
    match result {
        Ok((panel_fields, failure_count)) => {
            let ghost answers = choose|answers: Seq<EcapeAnswer<T>>|
                #[trigger] ecape_compute::answered(*surface, *pressure, prepared, *run, answers)
                    && answers.len() == ecape_compute::call_count() && failure_count
                    == answers[0]->failure_count && ecape_compute::published(
                    *surface,
                    answers,
                    *ratio,
                    panel_fields@,
                );
            let ghost fields = panel_fields;
            let mapped = map_published(
                surface,
                panel_fields,
                failure_count,
                ratio,
                Ghost(answers),
            );
            let grids = Ok(mapped);
            proof {
                assert(store::maps_heavy_fields(fields@, failure_count, grids));
                assert(heavy_stage(*surface, *pressure, prepared, *run, *ratio, grids));
            }
            grids
        },
        Err(message) => Err(message),
    }
}

/// Whether volumes are those that the heavy stage is handed from shared inputs:
/// the shared heights, or its own where there are none.
pub open spec fn handed_over<
    T,
    P,
    A: Fn(T, T) -> T,
    S: Fn(T, T) -> T,
    L: Fn(T, T) -> T,
    E: Fn(T) -> T,
    C: Fn(T) -> T,
>(
    inputs: StoreComputeInputs<T, P>,
    heights: HeightRules<T, A, S, L, E, C>,
    prepared: PreparedHeavyVolume<T>,
) -> bool {
    &&& prepared.nx == inputs.surface.nx
    &&& prepared.ny == inputs.surface.ny
    &&& prepared.nz == inputs.pressure.pressure_levels_hpa@.len()
    &&& heavy_volume::spread(
        inputs.pressure.pressure_levels_hpa@,
        1,
        heights.to_pa,
        prepared.pressure_levels_pa@,
    )
    &&& prepared.pressure_3d_pa is None
    &&& match inputs.height_agl_3d {
        Some(shared) => prepared.height_agl_3d == shared,
        None => exists|orography: Seq<T>|
            #[trigger] heavy_volume::is_orography(
                inputs.surface,
                inputs.pressure,
                heights.lower,
                heights.settle,
                heights.highest,
                orography,
            ) && heavy_volume::heights_over(
                prepared.height_agl_3d@,
                inputs.pressure.gh_m_3d@,
                orography,
                inputs.surface.nx * inputs.surface.ny,
                inputs.pressure.pressure_levels_hpa@.len() as int,
                heights.above,
                heights.raise,
            ),
    }
}

/// Whether converted heavy grids come of a heavy stage's grids.
pub open spec fn narrowed_heavy<T, U, F: Fn(T) -> U>(
    grids: StoreHeavyGrids<T>,
    narrow: F,
    result: StoreHeavyGrids<U>,
) -> bool {
    &&& result.grids@.len() == grids.grids@.len()
    &&& forall|i: int|
        0 <= i < grids.grids@.len() ==> store::narrowed_grid(
            grids.grids@[i],
            narrow,
            #[trigger] result.grids@[i],
        )
    &&& result.skipped == grids.skipped
    &&& result.ecape_failure_count == grids.ecape_failure_count
}

/// Whether a heavy stage whose grids are converted ends with a result.
pub open spec fn narrowed_heavy_stage<
    T,
    P,
    K: for<'a> Fn(EcapeCall<'a, T>) -> Result<EcapeAnswer<T>, String>,
    R: Fn(T, T) -> T,
    U,
    F: Fn(T) -> U,
>(
    surface: SurfaceFields<T, P>,
    pressure: PressureFields<T>,
    prepared: PreparedHeavyVolume<T>,
    run: K,
    ratio: R,
    narrow: F,
    grids: Result<StoreHeavyGrids<U>, String>,
) -> bool {
    match grids {
        Ok(grids) => exists|wide: StoreHeavyGrids<T>|
            heavy_stage(surface, pressure, prepared, run, ratio, Ok(wide))
                && #[trigger] narrowed_heavy(wide, narrow, grids),
        Err(message) => heavy_stage(surface, pressure, prepared, run, ratio, Err(message)),
    }
}

proof fn lemma_narrowed_heavy_stage<
    T,
    P,
    K: for<'a> Fn(EcapeCall<'a, T>) -> Result<EcapeAnswer<T>, String>,
    R: Fn(T, T) -> T,
    U,
    F: Fn(T) -> U,
>(
    surface: SurfaceFields<T, P>,
    pressure: PressureFields<T>,
    prepared: PreparedHeavyVolume<T>,
    run: K,
    ratio: R,
    narrow: F,
    wide: StoreHeavyGrids<T>,
    grids: StoreHeavyGrids<U>,
)
    requires
        heavy_stage(
            surface,
            pressure,
            prepared,
            run,
            ratio,
            Ok::<StoreHeavyGrids<T>, String>(wide),
        ),
        narrowed_heavy(wide, narrow, grids),
    ensures
        narrowed_heavy_stage(
            surface,
            pressure,
            prepared,
            run,
            ratio,
            narrow,
            Ok::<StoreHeavyGrids<U>, String>(grids),
        ),
{
    let result = Ok::<StoreHeavyGrids<U>, String>(grids);
    assert(result->Ok_0 == grids);
    assert(narrowed_heavy(wide, narrow, result->Ok_0));
}

/// Computes the grids of all heavy recipes from shared inputs, converted value by
/// value. The inputs are used up: the heavy stage is the last.
pub fn compute_store_heavy_grids_f32<
    T: Copy,
    P,
    K: for<'a> Fn(EcapeCall<'a, T>) -> Result<EcapeAnswer<T>, String>,
    R: Fn(T, T) -> T,
    A: Fn(T, T) -> T,
    S: Fn(T, T) -> T,
    L: Fn(T, T) -> T,
    E: Fn(T) -> T,
    C: Fn(T) -> T,
    U,
    F: Fn(T) -> U,
>(
    inputs: StoreComputeInputs<T, P>,
    heights: &HeightRules<T, A, S, L, E, C>,
    run: &K,
    ratio: &R,
    narrow: &F,
) -> (grids: Result<StoreHeavyGrids<U>, String>)
    requires
        ecape_compute::usable(*run),
        forall|a: T, b: T| #[trigger] call_requires(*ratio, (a, b)),
        forall|a: T, b: T| #[trigger] call_requires(heights.above, (a, b)),
        forall|a: T, b: T| #[trigger] call_requires(heights.raise, (a, b)),
        forall|a: T, b: T| #[trigger] call_requires(heights.lower, (a, b)),
        forall|a: T| #[trigger] call_requires(heights.settle, (a,)),
        forall|a: T| #[trigger] call_requires(heights.to_pa, (a,)),
        forall|value: T| #[trigger] call_requires(*narrow, (value,)),
        inputs.height_agl_3d is None ==> heavy_volume::has_heights(
            inputs.surface,
            inputs.pressure,
        ),
    ensures
        shared_heavy_stage(inputs, *heights, *run, *ratio, *narrow, grids),
{
    let ghost given = inputs;
    let mut inputs = inputs;
    let height_agl_3d = heavy_stage_heights(&mut inputs, heights);
    let pressure_levels_pa = broadcast_levels_pa(
        inputs.pressure.pressure_levels_hpa.as_slice(),
        1,
        &heights.to_pa,
    );
    let prepared = PreparedHeavyVolume {
        nx: inputs.surface.nx,
        ny: inputs.surface.ny,
        nz: inputs.pressure.pressure_levels_hpa.len(),
        pressure_levels_pa,
        pressure_3d_pa: None,
        height_agl_3d,
    };
    proof {
        assert(handed_over(given, *heights, prepared));
        assert(without_heights(given.pressure, inputs.pressure));
    }
    match compute_ecape_map_fields_with_prepared_volume(
        &inputs.surface,
        &inputs.pressure,
        &prepared,
        run,
        ratio,
    ) {
        Ok((panel_fields, failure_count)) => {
            let ghost answers = choose|answers: Seq<EcapeAnswer<T>>|
                #[trigger] ecape_compute::answered(
                    inputs.surface,
                    inputs.pressure,
                    prepared,
                    *run,
                    answers,
                ) && answers.len() == ecape_compute::call_count() && failure_count
                    == answers[0]->failure_count && ecape_compute::published(
                    inputs.surface,
                    answers,
                    *ratio,
                    panel_fields@,
                );
            let ghost fields = panel_fields;
            let wide = map_published(
                &inputs.surface,
                panel_fields,
                failure_count,
                ratio,
                Ghost(answers),
            );
            let ghost mapped = wide;
            proof {
                assert(store::maps_heavy_fields(
                    fields@,
                    failure_count,
                    Ok::<StoreHeavyGrids<T>, String>(mapped),
                ));
                assert(heavy_stage(
                    given.surface,
                    inputs.pressure,
                    prepared,
                    *run,
                    *ratio,
                    Ok::<StoreHeavyGrids<T>, String>(mapped),
                ));
            }
            let narrowed = StoreHeavyGrids {
                grids: narrow_grids(&wide.grids, narrow),
                skipped: wide.skipped,
                ecape_failure_count: wide.ecape_failure_count,
            };
            proof {
                lemma_narrowed_heavy_stage(
                    given.surface,
                    inputs.pressure,
                    prepared,
                    *run,
                    *ratio,
                    *narrow,
                    mapped,
                    narrowed,
                );
            }
            Ok(narrowed)
        },
        Err(message) => {
            proof {
                assert(heavy_stage(
                    given.surface,
                    inputs.pressure,
                    prepared,
                    *run,
                    *ratio,
                    Err::<StoreHeavyGrids<T>, String>(message),
                ));
                assert(narrowed_heavy_stage(
                    given.surface,
                    inputs.pressure,
                    prepared,
                    *run,
                    *ratio,
                    *narrow,
                    Err::<StoreHeavyGrids<U>, String>(message),
                ));
            }
            Err(message)
        },
    }
}

/// Whether a pressure analysis is another without its geopotential heights.
pub open spec fn without_heights<T>(before: PressureFields<T>, after: PressureFields<T>) -> bool {
    &&& after.gh_m_3d@.len() == 0
    &&& after == (PressureFields { gh_m_3d: after.gh_m_3d, ..before })
}

/// The derived stage stores what the computation from the whole pair of analyses
/// gives: neither the shared heights nor the winds given up early change a value.
/// The kernels are those that do not look at the winds beside the thermodynamic
/// volumes.
pub proof fn law_derived_stage_stores_what_the_analyses_give<
    T,
    P,
    K: for<'a> Fn(KernelCall<'a, T>) -> Result<KernelAnswer<T>, String>,
    A: Fn(T, T) -> T,
    R: Fn(T, T) -> T,
    C: Fn(T) -> T,
    N: Fn(T) -> T,
    L: Fn(T, u64) -> bool,
    X: Fn(T, T, u64) -> bool,
    B: Fn(T, T, T, T, u64) -> T,
    GD: Fn(T, T, T, T) -> T,
    GU: Fn(T) -> bool,
    GS: Fn(T, T) -> T,
    GM: Fn(T, usize) -> T,
    GW: Fn(LengthMismatch) -> String,
    U,
    F: Fn(T) -> U,
>(
    surface: SurfaceFields<T, P>,
    pressure: PressureFields<T>,
    before: StoreComputeInputs<T, P>,
    after: StoreComputeInputs<T, P>,
    keep_winds: bool,
    rules: ComputeRules<T, K, A, R, C, N, L, X, B, GD, GU, GS, GM, GW>,
    narrow: F,
    grids: Vec<StoreDerivedGrid<U>>,
)
    requires
        compute_laws::ignores_volume_winds(rules.run),
        store_inputs::takes_over(surface, pressure, rules.above, rules.raise, before),
        derived_stage(
            before,
            after,
            keep_winds,
            rules,
            narrow,
            Ok::<Vec<StoreDerivedGrid<U>>, String>(grids),
        ),
    ensures
        exists|computed: DerivedComputedFields<T>|
            compute::computes(
                surface,
                pressure,
                store::stored_recipes(false),
                None,
                rules,
                Ok::<DerivedComputedFields<T>, String>(computed),
            ) && #[trigger] narrowed_grids_of(computed, narrow, grids@),
{
    let winds = TakenWindVolumes {
        u_ms_3d: before.pressure.u_ms_3d,
        v_ms_3d: before.pressure.v_ms_3d,
    };
    let kept = assemble::winds_kept(winds, keep_winds);
    let left = choose|left: PressureFields<T>|
        #[trigger] store_inputs::winds_taken(before.pressure, left, winds) && after.pressure
            == store_inputs::winds_restored(left, kept) && exists|
            computed: DerivedComputedFields<T>,
        |
            phased::computes_wind_first(
                before.surface,
                left,
                winds,
                store::stored_recipes(false),
                shared_heights(&before),
                keep_winds,
                rules,
                Ok((computed, kept)),
            ) && #[trigger] narrowed_grids_of(computed, narrow, grids@);
    let computed = choose|computed: DerivedComputedFields<T>|
        phased::computes_wind_first(
            before.surface,
            left,
            winds,
            store::stored_recipes(false),
            shared_heights(&before),
            keep_winds,
            rules,
            Ok((computed, kept)),
        ) && #[trigger] narrowed_grids_of(computed, narrow, grids@);
    compute_laws::law_wind_first_computes_the_same_fields(
        before.surface,
        before.pressure,
        left,
        winds,
        store::stored_recipes(false),
        shared_heights(&before),
        keep_winds,
        rules,
        computed,
    );
    if !surface.orog_is_proxy {
        compute_laws::law_given_heights_change_nothing(
            surface,
            pressure,
            before.pressure,
            store::stored_recipes(false),
            &before.height_agl_3d->Some_0,
            rules,
            Ok::<DerivedComputedFields<T>, String>(computed),
        );
    }
}

/// A derived stage that keeps the wind volumes and succeeds leaves its inputs as it
/// found them, for the heavy stage.
pub proof fn law_derived_stage_hands_its_inputs_on<
    T,
    P,
    K: for<'a> Fn(KernelCall<'a, T>) -> Result<KernelAnswer<T>, String>,
    A: Fn(T, T) -> T,
    R: Fn(T, T) -> T,
    C: Fn(T) -> T,
    N: Fn(T) -> T,
    L: Fn(T, u64) -> bool,
    X: Fn(T, T, u64) -> bool,
    B: Fn(T, T, T, T, u64) -> T,
    GD: Fn(T, T, T, T) -> T,
    GU: Fn(T) -> bool,
    GS: Fn(T, T) -> T,
    GM: Fn(T, usize) -> T,
    GW: Fn(LengthMismatch) -> String,
    U,
    F: Fn(T) -> U,
>(
    before: StoreComputeInputs<T, P>,
    after: StoreComputeInputs<T, P>,
    keep_winds: bool,
    rules: ComputeRules<T, K, A, R, C, N, L, X, B, GD, GU, GS, GM, GW>,
    narrow: F,
    grids: Vec<StoreDerivedGrid<U>>,
)
    requires
        derived_stage(
            before,
            after,
            keep_winds,
            rules,
            narrow,
            Ok::<Vec<StoreDerivedGrid<U>>, String>(grids),
        ),
    ensures
        keep_winds ==> after == before,
        !keep_winds ==> after.pressure.u_ms_3d@.len() == 0 && after.pressure.v_ms_3d@.len() == 0,
{
    let winds = TakenWindVolumes {
        u_ms_3d: before.pressure.u_ms_3d,
        v_ms_3d: before.pressure.v_ms_3d,
    };
    let kept = assemble::winds_kept(winds, keep_winds);
    let left = choose|left: PressureFields<T>|
        #[trigger] store_inputs::winds_taken(before.pressure, left, winds) && after.pressure
            == store_inputs::winds_restored(left, kept);
    store_inputs::law_kept_winds_come_back(before.pressure, left, winds, keep_winds);
}

/// Whether a heavy stage from shared inputs ends with converted grids.
pub open spec fn shared_heavy_stage<
    T,
    P,
    K: for<'a> Fn(EcapeCall<'a, T>) -> Result<EcapeAnswer<T>, String>,
    R: Fn(T, T) -> T,
    A: Fn(T, T) -> T,
    S: Fn(T, T) -> T,
    L: Fn(T, T) -> T,
    E: Fn(T) -> T,
    C: Fn(T) -> T,
    U,
    F: Fn(T) -> U,
>(
    inputs: StoreComputeInputs<T, P>,
    heights: HeightRules<T, A, S, L, E, C>,
    run: K,
    ratio: R,
    narrow: F,
    grids: Result<StoreHeavyGrids<U>, String>,
) -> bool {
    exists|prepared: PreparedHeavyVolume<T>, pressure: PressureFields<T>|
        #![trigger handed_over(inputs, heights, prepared), without_heights(
            inputs.pressure,
            pressure,
        )]
        handed_over(inputs, heights, prepared) && without_heights(inputs.pressure, pressure)
            && narrowed_heavy_stage(
            inputs.surface,
            pressure,
            prepared,
            run,
            ratio,
            narrow,
            grids,
        )
}

proof fn lemma_heavy_stage_reads_no_geopotential<
    T,
    P,
    K: for<'a> Fn(EcapeCall<'a, T>) -> Result<EcapeAnswer<T>, String>,
    R: Fn(T, T) -> T,
>(
    surface: SurfaceFields<T, P>,
    a: PressureFields<T>,
    b: PressureFields<T>,
    prepared: PreparedHeavyVolume<T>,
    run: K,
    ratio: R,
    grids: Result<StoreHeavyGrids<T>, String>,
)
    requires
        b == (PressureFields { gh_m_3d: b.gh_m_3d, ..a }),
        heavy_stage(surface, a, prepared, run, ratio, grids),
    ensures
        heavy_stage(surface, b, prepared, run, ratio, grids),
{
    assert forall|result: Result<(Vec<WeatherPanelField<T>>, usize), String>|
        #[trigger] ecape_compute::outcome(surface, a, prepared, run, ratio, result)
        implies ecape_compute::outcome(surface, b, prepared, run, ratio, result) by {
        ecape_compute::lemma_outcome_reads_no_geopotential(
            surface,
            a,
            b,
            prepared,
            run,
            ratio,
            result,
        );
    }
    if grids is Ok {
        let (panel_fields, failure_count) = choose|
            panel_fields: Vec<WeatherPanelField<T>>,
            failure_count: usize,
        |
            ecape_compute::outcome(
                surface,
                a,
                prepared,
                run,
                ratio,
                Ok::<(Vec<WeatherPanelField<T>>, usize), String>((panel_fields, failure_count)),
            ) && #[trigger] store::maps_heavy_fields(panel_fields@, failure_count, grids);
        assert(ecape_compute::outcome(
            surface,
            b,
            prepared,
            run,
            ratio,
            Ok::<(Vec<WeatherPanelField<T>>, usize), String>((panel_fields, failure_count)),
        ));
    }
}

/// The heavy stage stores what the heavy computation from the whole pair of analyses
/// gives, converted value by value: the same grids under the same names in the same
/// order, the same recipes left out for the same reasons, and as many failures; and it
/// fails with a message with which that computation fails.
pub proof fn law_heavy_stage_stores_what_the_analyses_give<
    T,
    P,
    K: for<'a> Fn(EcapeCall<'a, T>) -> Result<EcapeAnswer<T>, String>,
    R: Fn(T, T) -> T,
    A: Fn(T, T) -> T,
    S: Fn(T, T) -> T,
    L: Fn(T, T) -> T,
    E: Fn(T) -> T,
    C: Fn(T) -> T,
    U,
    F: Fn(T) -> U,
>(
    surface: SurfaceFields<T, P>,
    pressure: PressureFields<T>,
    inputs: StoreComputeInputs<T, P>,
    heights: HeightRules<T, A, S, L, E, C>,
    run: K,
    ratio: R,
    narrow: F,
    grids: Result<StoreHeavyGrids<U>, String>,
)
    requires
        store_inputs::takes_over(surface, pressure, heights.above, heights.raise, inputs),
        shared_heavy_stage(inputs, heights, run, ratio, narrow, grids),
    ensures
        exists|prepared: PreparedHeavyVolume<T>|
            #[trigger] ecape_compute::prepared_from(surface, pressure, heights, prepared)
                && match grids {
                Ok(grids) => exists|wide: StoreHeavyGrids<T>|
                    heavy_stage(surface, pressure, prepared, run, ratio, Ok(wide))
                        && #[trigger] narrowed_heavy(wide, narrow, grids),
                Err(message) => heavy_stage(
                    surface,
                    pressure,
                    prepared,
                    run,
                    ratio,
                    Err::<StoreHeavyGrids<T>, String>(message),
                ),
            },
{
    let (prepared, left) = choose|prepared: PreparedHeavyVolume<T>, left: PressureFields<T>|
        #![trigger handed_over(inputs, heights, prepared), without_heights(inputs.pressure, left)]
        handed_over(inputs, heights, prepared) && without_heights(inputs.pressure, left)
            && narrowed_heavy_stage(inputs.surface, left, prepared, run, ratio, narrow, grids);
    assert(pressure == (PressureFields { gh_m_3d: pressure.gh_m_3d, ..left }));
    if !surface.orog_is_proxy {
        assert(heavy_volume::is_orography(
            surface,
            pressure,
            heights.lower,
            heights.settle,
            heights.highest,
            surface.orog_m@,
        ));
    }
    assert(ecape_compute::prepared_from(surface, pressure, heights, prepared));
    match grids {
        Ok(shown) => {
            let wide = choose|wide: StoreHeavyGrids<T>|
                heavy_stage(surface, left, prepared, run, ratio, Ok(wide))
                    && #[trigger] narrowed_heavy(wide, narrow, shown);
            lemma_heavy_stage_reads_no_geopotential(
                surface,
                left,
                pressure,
                prepared,
                run,
                ratio,
                Ok::<StoreHeavyGrids<T>, String>(wide),
            );
        },
        Err(message) => {
            lemma_heavy_stage_reads_no_geopotential(
                surface,
                left,
                pressure,
                prepared,
                run,
                ratio,
                Err::<StoreHeavyGrids<T>, String>(message),
            );
        },
    }
}

} // verus!
