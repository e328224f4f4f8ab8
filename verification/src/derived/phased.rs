//! Computing the derived fields with the wind volumes given up early, and what
//! holds of a computation however it is ordered.
use crate::derived::assemble;
use crate::derived::assemble::{join_wind_outputs, release_winds, TakenWindVolumes};
use crate::derived::compute;
use crate::derived::compute::{check_shape, finish, prepare_heights, prepare_pressures};
use crate::derived::fields::DerivedComputedFields;
use crate::derived::kernel_runs;
use crate::derived::kernel_runs::{
    fold_answers, run_kernels, ComputeRules, KernelAnswer, KernelCall, KernelContext, SurfaceInputs,
};
use crate::derived::kernels;
use crate::derived::kernels::{
    parcel_kernels, thermodynamic_kernels, wind_kernels, DerivedKernel,
};
use crate::derived::levels::LengthMismatch;
use crate::derived::recipes::DerivedRecipe;
use crate::derived::requirements;
use crate::derived::requirements::DerivedRequirements;
use crate::gridded::fields::{PressureFields, SurfaceFields};
use vstd::prelude::*;

verus! {

/// Whether a computation that gives its wind volumes up early ends with a result.
pub open spec fn computes_wind_first<
    T,
    P,
    K: for<'a> Fn(KernelCall<'a, T>) -> Result<KernelAnswer<T>, String>,
    A: Fn(T, T) -> T,
    R: Fn(T, T) -> T,
    C: Fn(T) -> T,
    N: Fn(T) -> T,
    L: Fn(T, u64) -> bool,
    X: Fn(T, T, u64) -> bool,
    B: Fn(T, T, T, T, u64) -> T,
    GD: Fn(T, T, T, T) -> T,
    GU: Fn(T) -> bool,
    GS: Fn(T, T) -> T,
    GM: Fn(T, usize) -> T,
    GW: Fn(LengthMismatch) -> String,
>(
    surface: SurfaceFields<T, P>,
    pressure: PressureFields<T>,
    winds: TakenWindVolumes<T>,
    recipes: Seq<DerivedRecipe>,
    height_given: Option<&Vec<T>>,
    keep_winds: bool,
    rules: ComputeRules<T, K, A, R, C, N, L, X, B, GD, GU, GS, GM, GW>,
    result: Result<(DerivedComputedFields<T>, Option<TakenWindVolumes<T>>), String>,
) -> bool {
    let needs = requirements::need_of_all(recipes);
    let nz = compute::levels_of(pressure, needs);
    let fields = match result {
        Ok((computed, _)) => Ok(computed),
        Err(message) => Err(message),
    };
    &&& result is Ok ==> result->Ok_0.1 == assemble::winds_kept(winds, keep_winds)
    &&& {
        ||| result is Err && compute::shape_checked(
            rules.run,
            surface.nx,
            surface.ny,
            nz,
            Some(result->Err_0),
        )
        ||| compute::shape_checked(rules.run, surface.nx, surface.ny, nz, None) && exists|
            context: KernelContext<T>,
        |
            {
                &&& #[trigger] compute::reads(
                    context,
                    surface,
                    pressure,
                    winds.u_ms_3d,
                    winds.v_ms_3d,
                    needs,
                    height_given,
                    rules,
                )
                &&& context.volume_u_ms@.len() == 0
                &&& context.volume_v_ms@.len() == 0
                &&& compute::outcome(
                    context,
                    compute::wind_first_phases(needs),
                    recipes,
                    rules,
                    fields,
                )
            }
    }
}

/// Whether two contexts are the same but for the winds that wind kernels read.
pub open spec fn same_but_winds<T>(a: KernelContext<T>, b: KernelContext<T>) -> bool {
    b == (KernelContext { u_ms: b.u_ms, v_ms: b.v_ms, ..a })
}

/// Whether no kernel of a list reads wind volumes.
pub open spec fn windless(list: Seq<DerivedKernel>) -> bool {
    forall|i: int|
        0 <= i < list.len() ==> (#[trigger] list[i]).reads_volume() || list[i]
            == DerivedKernel::SurfaceThermo
}

proof fn lemma_windless(order: Seq<DerivedKernel>, needs: DerivedRequirements)
    requires
        order == kernels::parcel_order() || order == kernels::thermodynamic_order(),
    ensures
        windless(kernels::running(order, needs)),
{
    let list = kernels::running(order, needs);
    assert forall|i: int| 0 <= i < list.len() implies (#[trigger] list[i]).reads_volume() || list[i]
        == DerivedKernel::SurfaceThermo by {
        assert(list.contains(list[i]));
        kernels::law_running_kernels_are_the_needed_ones(order, needs, list[i]);
    }
}

proof fn lemma_windless_kernels_ran<
    T,
    K: for<'a> Fn(KernelCall<'a, T>) -> Result<KernelAnswer<T>, String>,
    A: Fn(T, T) -> T,
    R: Fn(T, T) -> T,
    C: Fn(T) -> T,
    N: Fn(T) -> T,
    L: Fn(T, u64) -> bool,
    X: Fn(T, T, u64) -> bool,
    B: Fn(T, T, T, T, u64) -> T,
    GD: Fn(T, T, T, T) -> T,
    GU: Fn(T) -> bool,
    GS: Fn(T, T) -> T,
    GM: Fn(T, usize) -> T,
    GW: Fn(LengthMismatch) -> String,
>(
    a: KernelContext<T>,
    b: KernelContext<T>,
    list: Seq<DerivedKernel>,
    rules: ComputeRules<T, K, A, R, C, N, L, X, B, GD, GU, GS, GM, GW>,
    answers: Seq<KernelAnswer<T>>,
)
    requires
        same_but_winds(a, b),
        windless(list),
        kernel_runs::ran(a, list, rules, answers),
    ensures
        kernel_runs::ran(b, list, rules, answers),
{
    assert forall|i: int| 0 <= i < list.len() implies kernel_runs::answered(
        b,
        list[i],
        kernel_runs::spacing_of(answers.take(i)),
        rules,
        Ok::<KernelAnswer<T>, String>(#[trigger] answers[i]),
    ) by {
        assert(list[i].reads_volume() || list[i] == DerivedKernel::SurfaceThermo);
        assert(kernel_runs::volume_of(a) == kernel_runs::volume_of(b));
    }
}

proof fn lemma_windless_kernels_stopped<
    T,
    K: for<'a> Fn(KernelCall<'a, T>) -> Result<KernelAnswer<T>, String>,
    A: Fn(T, T) -> T,
    R: Fn(T, T) -> T,
    C: Fn(T) -> T,
    N: Fn(T) -> T,
    L: Fn(T, u64) -> bool,
    X: Fn(T, T, u64) -> bool,
    B: Fn(T, T, T, T, u64) -> T,
    GD: Fn(T, T, T, T) -> T,
    GU: Fn(T) -> bool,
    GS: Fn(T, T) -> T,
    GM: Fn(T, usize) -> T,
    GW: Fn(LengthMismatch) -> String,
>(
    a: KernelContext<T>,
    b: KernelContext<T>,
    list: Seq<DerivedKernel>,
    rules: ComputeRules<T, K, A, R, C, N, L, X, B, GD, GU, GS, GM, GW>,
    message: String,
)
    requires
        same_but_winds(a, b),
        windless(list),
        kernel_runs::stopped(a, list, rules, message),
    ensures
        kernel_runs::stopped(b, list, rules, message),
{
    let done = choose|done: Seq<KernelAnswer<T>>|
        {
            &&& done.len() < list.len()
            &&& #[trigger] kernel_runs::ran(a, list.take(done.len() as int), rules, done)
            &&& kernel_runs::answered(
                a,
                list[done.len() as int],
                kernel_runs::spacing_of(done),
                rules,
                Err::<KernelAnswer<T>, String>(message),
            )
        };
    let before = list.take(done.len() as int);
    assert forall|i: int| 0 <= i < before.len() implies (#[trigger] before[i]).reads_volume()
        || before[i] == DerivedKernel::SurfaceThermo by {
        assert(before[i] == list[i]);
    }
    lemma_windless_kernels_ran(a, b, before, rules, done);
    assert(list[done.len() as int].reads_volume() || list[done.len() as int]
        == DerivedKernel::SurfaceThermo);
    assert(kernel_runs::volume_of(a) == kernel_runs::volume_of(b));
}

/// Computes the derived fields of a list of recipes with wind volumes that were
/// taken out of the pressure analysis. The wind kernels run first; then the wind
/// volumes are given up or back, and the other kernels run without them.
pub fn compute_store_derived_fields_phased<
    T: Copy + Send + Sync,
    P,
    K: for<'a> Fn(KernelCall<'a, T>) -> Result<KernelAnswer<T>, String> + Sync,
    A: Fn(T, T) -> T + Sync,
    R: Fn(T, T) -> T + Sync,
    C: Fn(T) -> T + Sync,
    N: Fn(T) -> T + Sync,
    L: Fn(T, u64) -> bool + Sync,
    X: Fn(T, T, u64) -> bool + Sync,
    B: Fn(T, T, T, T, u64) -> T + Sync,
    GD: Fn(T, T, T, T) -> T + Sync,
    GU: Fn(T) -> bool + Sync,
    GS: Fn(T, T) -> T + Sync,
    GM: Fn(T, usize) -> T + Sync,
    GW: Fn(LengthMismatch) -> String + Sync,
>(
    surface: &SurfaceFields<T, P>,
    pressure: &PressureFields<T>,
    winds: TakenWindVolumes<T>,
    recipes: &[DerivedRecipe],
    height_agl_override: Option<&Vec<T>>,
    keep_winds: bool,
    rules: &ComputeRules<T, K, A, R, C, N, L, X, B, GD, GU, GS, GM, GW>,
) -> (result: Result<(DerivedComputedFields<T>, Option<TakenWindVolumes<T>>), String>)
    requires
        kernel_runs::usable(*rules),
        surface.nx * surface.ny <= usize::MAX,
        pressure.pressure_levels_hpa@.len() * (surface.nx * surface.ny) <= usize::MAX,
        compute::inputs_can_be_had(
            *surface,
            *pressure,
            requirements::need_of_all(recipes@),
            height_agl_override is Some,
            rules.run,
        ),
    ensures
        computes_wind_first(
            *surface,
            *pressure,
            winds,
            recipes@,
            height_agl_override,
            keep_winds,
            *rules,
            result,
        ),
{
    let needs = DerivedRequirements::from_recipes(recipes);
    let nz: Option<usize> = if needs.needs_height_agl() {
        Some(pressure.pressure_levels_hpa.len())
    } else {
        None
    };
    if let Some(message) = check_shape(&rules.run, surface.nx, surface.ny, nz) {
        return Err(message);
    }
    proof {
        assert(!compute::refuses_grid(rules.run, surface.nx, surface.ny));
    }
    let pressure_pa = prepare_pressures(pressure, needs, &rules.to_pa);
    let heights = prepare_heights(
        surface,
        pressure,
        needs,
        height_agl_override,
        &rules.above,
        &rules.raise,
    );
    let height_agl_m: Option<&Vec<T>> = match height_agl_override {
        Some(given) => Some(given),
        None => match &heights {
            Some(values) => Some(values),
            None => None,
        },
    };
    let prepared_pa: Option<&Vec<T>> = match &pressure_pa {
        Some(values) => Some(values),
        None => None,
    };
    let pressure_3d_pa: Option<&Vec<T>> = match &pressure.pressure_3d_pa {
        Some(volume) => Some(volume),
        None => None,
    };
    let none: Vec<T> = Vec::new();
    let windy = KernelContext {
        nx: surface.nx,
        ny: surface.ny,
        surface: SurfaceInputs {
            psfc_pa: &surface.psfc_pa,
            t2_k: &surface.t2_k,
            q2_kgkg: &surface.q2_kgkg,
            u10_ms: &surface.u10_ms,
            v10_ms: &surface.v10_ms,
        },
        lat: &surface.lat,
        lon: &surface.lon,
        levels_hpa: &pressure.pressure_levels_hpa,
        pressure_3d_pa,
        temperature_c: &pressure.temperature_c_3d,
        qvapor_kgkg: &pressure.qvapor_kgkg_3d,
        u_ms: &winds.u_ms_3d,
        v_ms: &winds.v_ms_3d,
        volume_u_ms: &none,
        volume_v_ms: &none,
        pressure_pa: prepared_pa,
        height_agl_m,
        nz,
    };
    let ghost context = windy;
    let ghost phases = compute::wind_first_phases(needs);
    proof {
        assert(compute::reads(
            context,
            *surface,
            *pressure,
            winds.u_ms_3d,
            winds.v_ms_3d,
            needs,
            height_agl_override,
            *rules,
        ));
        compute::lemma_thermodynamic_kernels_are_runnable(kernels::parcel_order(), needs);
        compute::lemma_thermodynamic_kernels_are_runnable(kernels::thermodynamic_order(), needs);
        compute::lemma_wind_kernels_are_runnable(needs);
        compute::lemma_no_distances_without_winds(kernels::parcel_order(), needs);
        compute::lemma_no_distances_without_winds(kernels::thermodynamic_order(), needs);
        compute::lemma_distances_are_needed(needs);
        lemma_windless(kernels::parcel_order(), needs);
        lemma_windless(kernels::thermodynamic_order(), needs);
        assert(phases[0] == compute::wind_list(needs));
        assert(phases[1] == compute::parcel_list(needs));
        assert(phases[2] == compute::thermodynamic_list(needs));
    }
    let wind_list = wind_kernels(needs);
    let wind_answers = match run_kernels(&windy, wind_list.as_slice(), rules) {
        Ok(answers) => answers,
        Err(message) => {
            proof {
                assert(compute::stops_at(context, phases, *rules, message, 0));
            }
            return Err(message);
        },
    };
    let kept = release_winds(winds, keep_winds);
    let windless = KernelContext {
        nx: surface.nx,
        ny: surface.ny,
        surface: SurfaceInputs {
            psfc_pa: &surface.psfc_pa,
            t2_k: &surface.t2_k,
            q2_kgkg: &surface.q2_kgkg,
            u10_ms: &surface.u10_ms,
            v10_ms: &surface.v10_ms,
        },
        lat: &surface.lat,
        lon: &surface.lon,
        levels_hpa: &pressure.pressure_levels_hpa,
        pressure_3d_pa,
        temperature_c: &pressure.temperature_c_3d,
        qvapor_kgkg: &pressure.qvapor_kgkg_3d,
        u_ms: &none,
        v_ms: &none,
        volume_u_ms: &none,
        volume_v_ms: &none,
        pressure_pa: prepared_pa,
        height_agl_m,
        nz,
    };
    proof {
        assert(same_but_winds(windless, context));
    }
    let parcel_list = parcel_kernels(needs);
    let thermodynamic_list = thermodynamic_kernels(needs);
    let run_parcels = || -> (result: Result<Vec<KernelAnswer<T>>, String>)
        ensures kernel_runs::ended(windless, parcel_list@, *rules, result)
    {
        run_kernels(&windless, parcel_list.as_slice(), rules)
    };
    let run_thermo = || -> (result: Result<Vec<KernelAnswer<T>>, String>)
        ensures kernel_runs::ended(windless, thermodynamic_list@, *rules, result)
    {
        run_kernels(&windless, thermodynamic_list.as_slice(), rules)
    };
    let (parcel_side, thermo_side) = rayon::join(run_parcels, run_thermo);
    let parcels = match parcel_side {
        Ok(answers) => answers,
        Err(message) => {
            proof {
                lemma_windless_kernels_stopped(
                    windless,
                    context,
                    parcel_list@,
                    *rules,
                    message,
                );
                assert(compute::completes(context, phases[0], *rules));
                assert(compute::stops_at(context, phases, *rules, message, 1));
            }
            return Err(message);
        },
    };
    proof {
        lemma_windless_kernels_ran(windless, context, parcel_list@, *rules, parcels@);
    }
    let thermo = match thermo_side {
        Ok(answers) => answers,
        Err(message) => {
            proof {
                lemma_windless_kernels_stopped(
                    windless,
                    context,
                    thermodynamic_list@,
                    *rules,
                    message,
                );
                assert(compute::completes(context, phases[0], *rules));
                assert(compute::completes(context, phases[1], *rules));
                assert(compute::stops_at(context, phases, *rules, message, 2));
            }
            return Err(message);
        },
    };
    proof {
        lemma_windless_kernels_ran(windless, context, thermodynamic_list@, *rules, thermo@);
        assert(compute::kernels_ran(
            context,
            needs,
            *rules,
            parcels@,
            thermo@,
            wind_answers@,
        ));
    }
    let ghost answered = (parcels@, thermo@, wind_answers@);
    let parcel_outputs = fold_answers(parcel_list.as_slice(), parcels).parcels;
    let thermo_outputs = fold_answers(thermodynamic_list.as_slice(), thermo).independent;
    let wind_outputs = fold_answers(wind_list.as_slice(), wind_answers).independent;
    let independent = join_wind_outputs(thermo_outputs, wind_outputs);
    match finish(&windless, recipes, needs, parcel_outputs, independent, rules) {
        Ok(computed) => {
            proof {
                let composites = choose|composites: Seq<KernelAnswer<T>>|
                    #[trigger] kernel_runs::composites_ran(
                        rules.run,
                        context.nx,
                        context.ny,
                        compute::composite_list(needs),
                        parcel_outputs,
                        independent,
                        composites,
                    ) && assemble::assembled(
                        computed,
                        recipes@,
                        (context.surface.u10_ms@, context.surface.v10_ms@),
                        parcel_outputs,
                        independent,
                        kernel_runs::folded(
                            compute::composite_list(needs),
                            composites,
                        ).composites,
                        rules.to_knots,
                    );
                assert(compute::all_ran(
                    context,
                    needs,
                    *rules,
                    answered.0,
                    answered.1,
                    answered.2,
                    composites,
                ));
                assert(compute::outcome(
                    context,
                    phases,
                    recipes@,
                    *rules,
                    Ok::<DerivedComputedFields<T>, String>(computed),
                ));
            }
            Ok((computed, kept))
        },
        Err(message) => {
            proof {
                assert(compute::outcome(
                    context,
                    phases,
                    recipes@,
                    *rules,
                    Err::<DerivedComputedFields<T>, String>(message),
                ));
            }
            Err(message)
        },
    }
}

} // verus!
