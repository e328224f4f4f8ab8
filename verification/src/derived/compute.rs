//! Computing the derived fields from a surface and a pressure analysis.
use crate::derived::assemble;
use crate::derived::assemble::{
    assemble_derived_outputs, join_wind_outputs, IndependentOutputs, ParcelOutputs,
};
use crate::derived::fields::DerivedComputedFields;
use crate::derived::kernel_runs;
use crate::derived::kernel_runs::{
    fold_answers, run_composites, run_kernels, ComputeRules, KernelAnswer, KernelCall,
    KernelContext, KernelWork, SurfaceInputs,
};
use crate::derived::kernels;
use crate::derived::kernels::{
    composite_kernels, parcel_kernels, plan_surface_only, thermodynamic_kernels, wind_kernels,
    DerivedKernel,
};
use crate::derived::levels::{compute_height_agl_3d, LengthMismatch};
use crate::derived::recipes::DerivedRecipe;
use crate::derived::requirements;
use crate::derived::requirements::DerivedRequirements;
use crate::gridded::fields::{PressureFields, SurfaceFields};
use crate::gridded::heavy_volume;
use vstd::prelude::*;
use vstd::slice::slice_to_vec;
use vstd::string::*;

verus! {

/// The parcel kernels that run.
pub open spec fn parcel_list(needs: DerivedRequirements) -> Seq<DerivedKernel> {
    kernels::running(kernels::parcel_order(), needs)
}

/// The kernels that run and read neither parcels nor wind volumes.
pub open spec fn thermodynamic_list(needs: DerivedRequirements) -> Seq<DerivedKernel> {
    kernels::running(kernels::thermodynamic_order(), needs)
}

/// The kernels that run and read the wind volumes.
pub open spec fn wind_list(needs: DerivedRequirements) -> Seq<DerivedKernel> {
    kernels::running(kernels::wind_order(), needs)
}

/// The composites that run.
pub open spec fn composite_list(needs: DerivedRequirements) -> Seq<DerivedKernel> {
    kernels::running(kernels::composite_order(), needs)
}

/// The order of the kernels when the wind volumes stay for the whole computation.
pub open spec fn generic_phases(needs: DerivedRequirements) -> Seq<Seq<DerivedKernel>> {
    seq![parcel_list(needs), thermodynamic_list(needs), wind_list(needs)]
}

/// The order of the kernels when the wind volumes are given up early.
pub open spec fn wind_first_phases(needs: DerivedRequirements) -> Seq<Seq<DerivedKernel>> {
    seq![wind_list(needs), parcel_list(needs), thermodynamic_list(needs)]
}

/// Whether the pressures for the thermodynamic kernels are prepared: a volume as
/// it is, or else one value for each level.
pub open spec fn pressures_prepared<T, C: Fn(T) -> T>(
    pressure: PressureFields<T>,
    needs: DerivedRequirements,
    to_pa: C,
    prepared: Option<&Vec<T>>,
) -> bool {
    if needs.spec_needs_volume() {
        prepared is Some && match pressure.pressure_3d_pa {
            Some(volume) => prepared->Some_0@ == volume@,
            None => {
                &&& prepared->Some_0@.len() == pressure.pressure_levels_hpa@.len()
                &&& forall|i: int|
                    0 <= i < prepared->Some_0@.len() ==> call_ensures(
                        to_pa,
                        (pressure.pressure_levels_hpa@[i],),
                        #[trigger] prepared->Some_0@[i],
                    )
            },
        }
    } else {
        prepared is None
    }
}

/// Whether the heights above ground are prepared: those that were handed in, or
/// else those over the orography of the surface.
pub open spec fn heights_prepared<T, P, A: Fn(T, T) -> T, R: Fn(T, T) -> T>(
    surface: SurfaceFields<T, P>,
    pressure: PressureFields<T>,
    needs: DerivedRequirements,
    given: Option<&Vec<T>>,
    above: A,
    raise: R,
    prepared: Option<&Vec<T>>,
) -> bool {
    if given is Some {
        prepared == given
    } else if needs.spec_needs_height_agl() {
        prepared is Some && heavy_volume::heights_over(
            prepared->Some_0@,
            pressure.gh_m_3d@,
            surface.orog_m@,
            surface.nx * surface.ny,
            pressure.pressure_levels_hpa@.len() as int,
            above,
            raise,
        )
    } else {
        prepared is None
    }
}

/// Whether the kernels read a pair of analyses, with wind volumes that stand
/// apart from them.
pub open spec fn reads<
    T,
    P,
    K: for<'a> Fn(KernelCall<'a, T>) -> Result<KernelAnswer<T>, String>,
    A: Fn(T, T) -> T,
    R: Fn(T, T) -> T,
    C: Fn(T) -> T,
    N: Fn(T) -> T,
    L: Fn(T, u64) -> bool,
    X: Fn(T, T, u64) -> bool,
    B: Fn(T, T, T, T, u64) -> T,
    GD: Fn(T, T, T, T) -> T,
    GU: Fn(T) -> bool,
    GS: Fn(T, T) -> T,
    GM: Fn(T, usize) -> T,
    GW: Fn(LengthMismatch) -> String,
>(
    context: KernelContext<T>,
    surface: SurfaceFields<T, P>,
    pressure: PressureFields<T>,
    u_ms: Vec<T>,
    v_ms: Vec<T>,
    needs: DerivedRequirements,
    height_given: Option<&Vec<T>>,
    rules: ComputeRules<T, K, A, R, C, N, L, X, B, GD, GU, GS, GM, GW>,
) -> bool {
    &&& context.nx == surface.nx
    &&& context.ny == surface.ny
    &&& *context.surface.psfc_pa == surface.psfc_pa
    &&& *context.surface.t2_k == surface.t2_k
    &&& *context.surface.q2_kgkg == surface.q2_kgkg
    &&& *context.surface.u10_ms == surface.u10_ms
    &&& *context.surface.v10_ms == surface.v10_ms
    &&& *context.lat == surface.lat
    &&& *context.lon == surface.lon
    &&& *context.levels_hpa == pressure.pressure_levels_hpa
    &&& match (context.pressure_3d_pa, pressure.pressure_3d_pa) {
        (Some(read), Some(volume)) => *read == volume,
        (None, None) => true,
        _ => false,
    }
    &&& *context.temperature_c == pressure.temperature_c_3d
    &&& *context.qvapor_kgkg == pressure.qvapor_kgkg_3d
    &&& *context.u_ms == u_ms
    &&& *context.v_ms == v_ms
    &&& context.nz == (if needs.spec_needs_height_agl() {
        Some(pressure.pressure_levels_hpa@.len() as usize)
    } else {
        None
    })
    &&& pressures_prepared(pressure, needs, rules.to_pa, context.pressure_pa)
    &&& heights_prepared(
        surface,
        pressure,
        needs,
        height_given,
        rules.above,
        rules.raise,
        context.height_agl_m,
    )
}

/// The parcels that some answers fold into.
pub open spec fn parcels_of<T>(needs: DerivedRequirements, parcels: Seq<KernelAnswer<T>>) -> ParcelOutputs<T> {
    kernel_runs::folded(parcel_list(needs), parcels).parcels
}

/// The fields beside the parcels that some answers fold into.
pub open spec fn independent_of<T>(
    needs: DerivedRequirements,
    thermo: Seq<KernelAnswer<T>>,
    winds: Seq<KernelAnswer<T>>,
) -> IndependentOutputs<T> {
    assemble::with_winds(
        kernel_runs::folded(thermodynamic_list(needs), thermo).independent,
        kernel_runs::folded(wind_list(needs), winds).independent,
    )
}

/// Whether all kernels but the composites have answered.
pub open spec fn kernels_ran<
    T,
    K: for<'a> Fn(KernelCall<'a, T>) -> Result<KernelAnswer<T>, String>,
    A: Fn(T, T) -> T,
    R: Fn(T, T) -> T,
    C: Fn(T) -> T,
    N: Fn(T) -> T,
    L: Fn(T, u64) -> bool,
    X: Fn(T, T, u64) -> bool,
    B: Fn(T, T, T, T, u64) -> T,
    GD: Fn(T, T, T, T) -> T,
    GU: Fn(T) -> bool,
    GS: Fn(T, T) -> T,
    GM: Fn(T, usize) -> T,
    GW: Fn(LengthMismatch) -> String,
>(
    context: KernelContext<T>,
    needs: DerivedRequirements,
    rules: ComputeRules<T, K, A, R, C, N, L, X, B, GD, GU, GS, GM, GW>,
    parcels: Seq<KernelAnswer<T>>,
    thermo: Seq<KernelAnswer<T>>,
    winds: Seq<KernelAnswer<T>>,
) -> bool {
    &&& kernel_runs::ran(context, parcel_list(needs), rules, parcels)
    &&& kernel_runs::ran(context, thermodynamic_list(needs), rules, thermo)
    &&& kernel_runs::ran(context, wind_list(needs), rules, winds)
}

/// Whether the composites have answered on what the other kernels answered.
pub open spec fn all_ran<
    T,
    K: for<'a> Fn(KernelCall<'a, T>) -> Result<KernelAnswer<T>, String>,
    A: Fn(T, T) -> T,
    R: Fn(T, T) -> T,
    C: Fn(T) -> T,
    N: Fn(T) -> T,
    L: Fn(T, u64) -> bool,
    X: Fn(T, T, u64) -> bool,
    B: Fn(T, T, T, T, u64) -> T,
    GD: Fn(T, T, T, T) -> T,
    GU: Fn(T) -> bool,
    GS: Fn(T, T) -> T,
    GM: Fn(T, usize) -> T,
    GW: Fn(LengthMismatch) -> String,
>(
    context: KernelContext<T>,
    needs: DerivedRequirements,
    rules: ComputeRules<T, K, A, R, C, N, L, X, B, GD, GU, GS, GM, GW>,
    parcels: Seq<KernelAnswer<T>>,
    thermo: Seq<KernelAnswer<T>>,
    winds: Seq<KernelAnswer<T>>,
    composites: Seq<KernelAnswer<T>>,
) -> bool {
    &&& kernels_ran(context, needs, rules, parcels, thermo, winds)
    &&& kernel_runs::composites_ran(
        rules.run,
        context.nx,
        context.ny,
        composite_list(needs),
        parcels_of(needs, parcels),
        independent_of(needs, thermo, winds),
        composites,
    )
}

/// Whether the derived fields are those of the kernels that run for a list of
/// recipes.
pub open spec fn computed_by<
    T,
    K: for<'a> Fn(KernelCall<'a, T>) -> Result<KernelAnswer<T>, String>,
    A: Fn(T, T) -> T,
    R: Fn(T, T) -> T,
    C: Fn(T) -> T,
    N: Fn(T) -> T,
    L: Fn(T, u64) -> bool,
    X: Fn(T, T, u64) -> bool,
    B: Fn(T, T, T, T, u64) -> T,
    GD: Fn(T, T, T, T) -> T,
    GU: Fn(T) -> bool,
    GS: Fn(T, T) -> T,
    GM: Fn(T, usize) -> T,
    GW: Fn(LengthMismatch) -> String,
>(
    context: KernelContext<T>,
    recipes: Seq<DerivedRecipe>,
    rules: ComputeRules<T, K, A, R, C, N, L, X, B, GD, GU, GS, GM, GW>,
    computed: DerivedComputedFields<T>,
) -> bool {
    let needs = requirements::need_of_all(recipes);
    exists|
        parcels: Seq<KernelAnswer<T>>,
        thermo: Seq<KernelAnswer<T>>,
        winds: Seq<KernelAnswer<T>>,
        composites: Seq<KernelAnswer<T>>,
    |
        #[trigger] all_ran(context, needs, rules, parcels, thermo, winds, composites)
            && assemble::assembled(
            computed,
            recipes,
            (context.surface.u10_ms@, context.surface.v10_ms@),
            parcels_of(needs, parcels),
            independent_of(needs, thermo, winds),
            kernel_runs::folded(composite_list(needs), composites).composites,
            rules.to_knots,
        )
}

/// Whether the kernels of a list can all answer.
pub open spec fn completes<
    T,
    K: for<'a> Fn(KernelCall<'a, T>) -> Result<KernelAnswer<T>, String>,
    A: Fn(T, T) -> T,
    R: Fn(T, T) -> T,
    C: Fn(T) -> T,
    N: Fn(T) -> T,
    L: Fn(T, u64) -> bool,
    X: Fn(T, T, u64) -> bool,
    B: Fn(T, T, T, T, u64) -> T,
    GD: Fn(T, T, T, T) -> T,
    GU: Fn(T) -> bool,
    GS: Fn(T, T) -> T,
    GM: Fn(T, usize) -> T,
    GW: Fn(LengthMismatch) -> String,
>(
    context: KernelContext<T>,
    list: Seq<DerivedKernel>,
    rules: ComputeRules<T, K, A, R, C, N, L, X, B, GD, GU, GS, GM, GW>,
) -> bool {
    exists|answers: Seq<KernelAnswer<T>>| #[trigger] kernel_runs::ran(context, list, rules, answers)
}

/// Whether a phase stopped after those before it were complete.
pub open spec fn stops_at<
    T,
    K: for<'a> Fn(KernelCall<'a, T>) -> Result<KernelAnswer<T>, String>,
    A: Fn(T, T) -> T,
    R: Fn(T, T) -> T,
    C: Fn(T) -> T,
    N: Fn(T) -> T,
    L: Fn(T, u64) -> bool,
    X: Fn(T, T, u64) -> bool,
    B: Fn(T, T, T, T, u64) -> T,
    GD: Fn(T, T, T, T) -> T,
    GU: Fn(T) -> bool,
    GS: Fn(T, T) -> T,
    GM: Fn(T, usize) -> T,
    GW: Fn(LengthMismatch) -> String,
>(
    context: KernelContext<T>,
    phases: Seq<Seq<DerivedKernel>>,
    rules: ComputeRules<T, K, A, R, C, N, L, X, B, GD, GU, GS, GM, GW>,
    message: String,
    at: int,
) -> bool {
    &&& 0 <= at < phases.len()
    &&& kernel_runs::stopped(context, phases[at], rules, message)
    &&& forall|j: int| 0 <= j < at ==> completes(context, #[trigger] phases[j], rules)
}

/// Whether a composite stopped after all other kernels were complete.
pub open spec fn composites_fail<
    T,
    K: for<'a> Fn(KernelCall<'a, T>) -> Result<KernelAnswer<T>, String>,
    A: Fn(T, T) -> T,
    R: Fn(T, T) -> T,
    C: Fn(T) -> T,
    N: Fn(T) -> T,
    L: Fn(T, u64) -> bool,
    X: Fn(T, T, u64) -> bool,
    B: Fn(T, T, T, T, u64) -> T,
    GD: Fn(T, T, T, T) -> T,
    GU: Fn(T) -> bool,
    GS: Fn(T, T) -> T,
    GM: Fn(T, usize) -> T,
    GW: Fn(LengthMismatch) -> String,
>(
    context: KernelContext<T>,
    needs: DerivedRequirements,
    rules: ComputeRules<T, K, A, R, C, N, L, X, B, GD, GU, GS, GM, GW>,
    message: String,
) -> bool {
    exists|
        parcels: Seq<KernelAnswer<T>>,
        thermo: Seq<KernelAnswer<T>>,
        winds: Seq<KernelAnswer<T>>,
    |
        #[trigger] kernels_ran(context, needs, rules, parcels, thermo, winds)
            && kernel_runs::composites_stopped(
            rules.run,
            context.nx,
            context.ny,
            composite_list(needs),
            parcels_of(needs, parcels),
            independent_of(needs, thermo, winds),
            message,
        )
}

/// Whether a computation ends as its kernels answer: with the fields, or with the
/// message of the first kernel that fails.
pub open spec fn outcome<
    T,
    K: for<'a> Fn(KernelCall<'a, T>) -> Result<KernelAnswer<T>, String>,
    A: Fn(T, T) -> T,
    R: Fn(T, T) -> T,
    C: Fn(T) -> T,
    N: Fn(T) -> T,
    L: Fn(T, u64) -> bool,
    X: Fn(T, T, u64) -> bool,
    B: Fn(T, T, T, T, u64) -> T,
    GD: Fn(T, T, T, T) -> T,
    GU: Fn(T) -> bool,
    GS: Fn(T, T) -> T,
    GM: Fn(T, usize) -> T,
    GW: Fn(LengthMismatch) -> String,
>(
    context: KernelContext<T>,
    phases: Seq<Seq<DerivedKernel>>,
    recipes: Seq<DerivedRecipe>,
    rules: ComputeRules<T, K, A, R, C, N, L, X, B, GD, GU, GS, GM, GW>,
    result: Result<DerivedComputedFields<T>, String>,
) -> bool {
    match result {
        Ok(computed) => computed_by(context, recipes, rules, computed),
        Err(message) => {
            ||| exists|at: int| #[trigger] stops_at(context, phases, rules, message, at)
            ||| composites_fail(context, requirements::need_of_all(recipes), rules, message)
        },
    }
}

/// Whether the shape of the grid was accepted, or refused with a message. The
/// levels are asked for only where a kernel reads heights.
pub open spec fn shape_checked<
    T,
    K: for<'a> Fn(KernelCall<'a, T>) -> Result<KernelAnswer<T>, String>,
>(
    run: K,
    nx: usize,
    ny: usize,
    nz: Option<usize>,
    refusal: Option<String>,
) -> bool {
    match refusal {
        Some(message) => {
            ||| kernel_runs::asked(
                run,
                nx,
                ny,
                KernelWork::Grid,
                Err::<KernelAnswer<T>, String>(message),
            )
            ||| nz is Some && kernel_runs::asked(
                run,
                nx,
                ny,
                KernelWork::Grid,
                Ok::<KernelAnswer<T>, String>(KernelAnswer::Accepted),
            ) && kernel_runs::asked(
                run,
                nx,
                ny,
                KernelWork::Levels { nz: nz->Some_0 },
                Err::<KernelAnswer<T>, String>(message),
            )
        },
        None => {
            &&& kernel_runs::asked(
                run,
                nx,
                ny,
                KernelWork::Grid,
                Ok::<KernelAnswer<T>, String>(KernelAnswer::Accepted),
            )
            &&& nz is Some ==> kernel_runs::asked(
                run,
                nx,
                ny,
                KernelWork::Levels { nz: nz->Some_0 },
                Ok::<KernelAnswer<T>, String>(KernelAnswer::Accepted),
            )
        },
    }
}

pub(crate) fn check_shape<
    T,
    K: for<'a> Fn(KernelCall<'a, T>) -> Result<KernelAnswer<T>, String>,
>(run: &K, nx: usize, ny: usize, nz: Option<usize>) -> (refusal: Option<String>)
    requires
        forall|call: KernelCall<T>| #[trigger] call_requires(*run, (call,)),
        forall|call: KernelCall<T>, answer: KernelAnswer<T>|
            #[trigger] call_ensures(*run, (call,), Ok::<KernelAnswer<T>, String>(answer))
                ==> kernel_runs::in_kind(call.work, answer),
    ensures
        shape_checked(*run, nx, ny, nz, refusal),
{
    match run(KernelCall { nx, ny, work: KernelWork::Grid }) {
        Ok(answer) => {
            proof {
                assert(answer is Accepted);
            }
        },
        Err(message) => {
            return Some(message);
        },
    }
    match nz {
        Some(nz) => match run(KernelCall { nx, ny, work: KernelWork::Levels { nz } }) {
            Ok(answer) => {
                proof {
                    assert(answer is Accepted);
                }
                None
            },
            Err(message) => Some(message),
        },
        None => None,
    }
}

pub(crate) fn prepare_pressures<T: Copy, C: Fn(T) -> T>(
    pressure: &PressureFields<T>,
    needs: DerivedRequirements,
    to_pa: &C,
) -> (prepared: Option<Vec<T>>)
    requires
        forall|a: T| #[trigger] call_requires(*to_pa, (a,)),
    ensures
        match prepared {
            Some(values) => pressures_prepared(*pressure, needs, *to_pa, Some(&values)),
            None => pressures_prepared(*pressure, needs, *to_pa, None),
        },
{
    if !needs.needs_volume() {
        return None;
    }
    match &pressure.pressure_3d_pa {
        Some(volume) => Some(slice_to_vec(volume.as_slice())),
        None => {
            let levels = &pressure.pressure_levels_hpa;
            let mut values: Vec<T> = Vec::new();
            let mut i: usize = 0;
            while i < levels.len()
                invariant
                    i <= levels@.len(),
                    values@.len() == i,
                    forall|a: T| #[trigger] call_requires(*to_pa, (a,)),
                    forall|k: int|
                        0 <= k < i ==> call_ensures(*to_pa, (levels@[k],), #[trigger] values@[k]),
                decreases levels@.len() - i,
            {
                let value = to_pa(levels[i]);
                values.push(value);
                i = i + 1;
            }
            Some(values)
        },
    }
}

pub(crate) fn prepare_heights<T: Copy, P, A: Fn(T, T) -> T, R: Fn(T, T) -> T>(
    surface: &SurfaceFields<T, P>,
    pressure: &PressureFields<T>,
    needs: DerivedRequirements,
    given: Option<&Vec<T>>,
    above: &A,
    raise: &R,
) -> (prepared: Option<Vec<T>>)
    requires
        needs.spec_needs_height_agl() && given is None ==> heavy_volume::has_heights(
            *surface,
            *pressure,
        ),
        forall|a: T, b: T| #[trigger] call_requires(*above, (a, b)),
        forall|a: T, b: T| #[trigger] call_requires(*raise, (a, b)),
    ensures
        prepared is Some == (given is None && needs.spec_needs_height_agl()),
        prepared is Some ==> heavy_volume::heights_over(
            prepared->Some_0@,
            pressure.gh_m_3d@,
            surface.orog_m@,
            surface.nx * surface.ny,
            pressure.pressure_levels_hpa@.len() as int,
            *above,
            *raise,
        ),
{
    if given.is_some() || !needs.needs_height_agl() {
        return None;
    }
    proof {
        assert(surface.nx * surface.ny <= surface.orog_m.len());
    }
    Some(
        compute_height_agl_3d(
            pressure.gh_m_3d.as_slice(),
            surface.orog_m.as_slice(),
            surface.nx * surface.ny,
            pressure.pressure_levels_hpa.len(),
            above,
            raise,
        ),
    )
}

/// Whether each cell of a surface has a position, on a grid that is large enough to have
/// distances.
pub open spec fn has_positions<T, P>(surface: SurfaceFields<T, P>) -> bool {
    kernel_runs::positioned(surface.nx, surface.ny, surface.lat@, surface.lon@)
}

/// Whether the kernels accept no grid of a size.
pub open spec fn refuses_grid<
    T,
    K: for<'a> Fn(KernelCall<'a, T>) -> Result<KernelAnswer<T>, String>,
>(run: K, nx: usize, ny: usize) -> bool {
    forall|result: Result<KernelAnswer<T>, String>|
        #[trigger] kernel_runs::asked(run, nx, ny, KernelWork::Grid, result) ==> result is Err
}

/// Whether what kernels read can be had: the heights above ground are handed in, or there
/// is an orography and a height for each cell and level, and each cell has a position
/// where the distances of cells are read. On a grid that the kernels refuse, such as one
/// without cells, nothing is read.
pub open spec fn inputs_can_be_had<
    T,
    P,
    K: for<'a> Fn(KernelCall<'a, T>) -> Result<KernelAnswer<T>, String>,
>(
    surface: SurfaceFields<T, P>,
    pressure: PressureFields<T>,
    needs: DerivedRequirements,
    given: bool,
    run: K,
) -> bool {
    &&& needs.spec_needs_height_agl() && !given ==> heavy_volume::has_heights(surface, pressure)
        || refuses_grid(run, surface.nx, surface.ny)
    &&& needs.spec_needs_grid_spacing() ==> has_positions(surface) || refuses_grid(
        run,
        surface.nx,
        surface.ny,
    )
}

pub proof fn lemma_thermodynamic_kernels_are_runnable(order: Seq<DerivedKernel>, needs: DerivedRequirements)
    requires
        order == kernels::parcel_order() || order == kernels::thermodynamic_order(),
    ensures
        kernel_runs::runnable(kernels::running(order, needs)),
{
    let list = kernels::running(order, needs);
    assert forall|i: int| 0 <= i < list.len() implies !(#[trigger] list[i]).is_composite() && (
    kernel_runs::is_advection(list[i]) ==> list.take(i).contains(DerivedKernel::GridSpacing)) by {
        assert(list.contains(list[i]));
        kernels::law_running_kernels_are_the_needed_ones(order, needs, list[i]);
    }
}

pub proof fn lemma_no_distances_without_winds(order: Seq<DerivedKernel>, needs: DerivedRequirements)
    requires
        order == kernels::parcel_order() || order == kernels::thermodynamic_order(),
    ensures
        !kernels::running(order, needs).contains(DerivedKernel::GridSpacing),
{
    kernels::law_running_kernels_are_the_needed_ones(order, needs, DerivedKernel::GridSpacing);
}

pub proof fn lemma_distances_are_needed(needs: DerivedRequirements)
    ensures
        wind_list(needs).contains(DerivedKernel::GridSpacing) ==> needs.spec_needs_grid_spacing(),
{
    kernels::law_running_kernels_are_the_needed_ones(
        kernels::wind_order(),
        needs,
        DerivedKernel::GridSpacing,
    );
}

pub proof fn lemma_wind_kernels_are_runnable(needs: DerivedRequirements)
    ensures
        kernel_runs::runnable(wind_list(needs)),
{
    let first = seq![
        DerivedKernel::Shear01km,
        DerivedKernel::Shear06km,
        DerivedKernel::Srh01km,
        DerivedKernel::Srh03km,
        DerivedKernel::GridSpacing,
    ];
    let second = seq![
        DerivedKernel::TemperatureAdvection700mb,
        DerivedKernel::TemperatureAdvection850mb,
    ];
    let list = wind_list(needs);
    let head = kernels::running(first, needs);
    let tail = kernels::running(second, needs);
    assert(kernels::wind_order() =~= first + second);
    kernels::lemma_running_of_two(first, second, needs);
    assert(list == head + tail);
    assert forall|i: int| 0 <= i < list.len() implies !(#[trigger] list[i]).is_composite() && (
    kernel_runs::is_advection(list[i]) ==> list.take(i).contains(DerivedKernel::GridSpacing)) by {
        let kernel = list[i];
        assert(list.contains(kernel));
        kernels::law_running_kernels_are_the_needed_ones(kernels::wind_order(), needs, kernel);
        if kernel_runs::is_advection(kernel) {
            if i < head.len() {
                assert(head[i] == kernel);
                assert(head.contains(kernel));
                kernels::law_running_kernels_are_the_needed_ones(first, needs, kernel);
            }
            kernels::law_running_kernels_are_the_needed_ones(
                first,
                needs,
                DerivedKernel::GridSpacing,
            );
            assert(first[4] == DerivedKernel::GridSpacing);
            let at = choose|at: int| 0 <= at < head.len() && head[at] == DerivedKernel::GridSpacing;
            assert(list.take(i)[at] == DerivedKernel::GridSpacing);
        }
    }
}

proof fn lemma_composites_are_composites(needs: DerivedRequirements)
    ensures
        forall|i: int|
            0 <= i < composite_list(needs).len() ==> (#[trigger] composite_list(
                needs,
            )[i]).is_composite(),
{
    let list = composite_list(needs);
    assert forall|i: int| 0 <= i < list.len() implies (#[trigger] list[i]).is_composite() by {
        assert(list.contains(list[i]));
        kernels::law_running_kernels_are_the_needed_ones(
            kernels::composite_order(),
            needs,
            list[i],
        );
    }
}

pub(crate) fn finish<
    'b,
    T: Copy,
    K: for<'a> Fn(KernelCall<'a, T>) -> Result<KernelAnswer<T>, String>,
    A: Fn(T, T) -> T,
    R: Fn(T, T) -> T,
    C: Fn(T) -> T,
    N: Fn(T) -> T,
    L: Fn(T, u64) -> bool,
    X: Fn(T, T, u64) -> bool,
    B: Fn(T, T, T, T, u64) -> T,
    GD: Fn(T, T, T, T) -> T,
    GU: Fn(T) -> bool,
    GS: Fn(T, T) -> T,
    GM: Fn(T, usize) -> T,
    GW: Fn(LengthMismatch) -> String,
>(
    context: &KernelContext<'b, T>,
    recipes: &[DerivedRecipe],
    needs: DerivedRequirements,
    parcels: ParcelOutputs<T>,
    independent: IndependentOutputs<T>,
    rules: &ComputeRules<T, K, A, R, C, N, L, X, B, GD, GU, GS, GM, GW>,
) -> (result: Result<DerivedComputedFields<T>, String>)
    requires
        needs == requirements::need_of_all(recipes@),
        kernel_runs::usable(*rules),
    ensures
        match result {
            Ok(computed) => exists|composites: Seq<KernelAnswer<T>>|
                #[trigger] kernel_runs::composites_ran(
                    rules.run,
                    context.nx,
                    context.ny,
                    composite_list(needs),
                    parcels,
                    independent,
                    composites,
                ) && assemble::assembled(
                    computed,
                    recipes@,
                    (context.surface.u10_ms@, context.surface.v10_ms@),
                    parcels,
                    independent,
                    kernel_runs::folded(composite_list(needs), composites).composites,
                    rules.to_knots,
                ),
            Err(message) => kernel_runs::composites_stopped(
                rules.run,
                context.nx,
                context.ny,
                composite_list(needs),
                parcels,
                independent,
                message,
            ),
        },
{
    let list = composite_kernels(needs);
    proof {
        lemma_composites_are_composites(needs);
        assert(list@ == composite_list(needs));
    }
    match run_composites(
        &rules.run,
        context.nx,
        context.ny,
        list.as_slice(),
        &parcels,
        &independent,
    ) {
        Ok(answers) => {
            let ghost composites = answers@;
            proof {
                assert(kernel_runs::composites_ran(
                    rules.run,
                    context.nx,
                    context.ny,
                    composite_list(needs),
                    parcels,
                    independent,
                    composites,
                ));
            }
            let outputs = fold_answers(list.as_slice(), answers);
            Ok(
                assemble_derived_outputs(
                    recipes,
                    (context.surface.u10_ms.as_slice(), context.surface.v10_ms.as_slice()),
                    parcels,
                    independent,
                    outputs.composites,
                    &rules.to_knots,
                ),
            )
        },
        Err(message) => Err(message),
    }
}

/// Whether the kernels beside the parcels have answered, or stopped at one that
/// failed. Those that read winds come last.
pub open spec fn independent_ended<
    T,
    K: for<'a> Fn(KernelCall<'a, T>) -> Result<KernelAnswer<T>, String>,
    A: Fn(T, T) -> T,
    R: Fn(T, T) -> T,
    C: Fn(T) -> T,
    N: Fn(T) -> T,
    L: Fn(T, u64) -> bool,
    X: Fn(T, T, u64) -> bool,
    B: Fn(T, T, T, T, u64) -> T,
    GD: Fn(T, T, T, T) -> T,
    GU: Fn(T) -> bool,
    GS: Fn(T, T) -> T,
    GM: Fn(T, usize) -> T,
    GW: Fn(LengthMismatch) -> String,
>(
    context: KernelContext<T>,
    thermodynamic: Seq<DerivedKernel>,
    wind: Seq<DerivedKernel>,
    rules: ComputeRules<T, K, A, R, C, N, L, X, B, GD, GU, GS, GM, GW>,
    result: Result<(Vec<KernelAnswer<T>>, Vec<KernelAnswer<T>>), String>,
) -> bool {
    match result {
        Ok((thermo, winds)) => {
            &&& kernel_runs::ran(context, thermodynamic, rules, thermo@)
            &&& kernel_runs::ran(context, wind, rules, winds@)
        },
        Err(message) => {
            ||| kernel_runs::stopped(context, thermodynamic, rules, message)
            ||| completes(context, thermodynamic, rules) && kernel_runs::stopped(
                context,
                wind,
                rules,
                message,
            )
        },
    }
}

fn run_independent<
    'b,
    T: Copy,
    K: for<'a> Fn(KernelCall<'a, T>) -> Result<KernelAnswer<T>, String>,
    A: Fn(T, T) -> T,
    R: Fn(T, T) -> T,
    C: Fn(T) -> T,
    N: Fn(T) -> T,
    L: Fn(T, u64) -> bool,
    X: Fn(T, T, u64) -> bool,
    B: Fn(T, T, T, T, u64) -> T,
    GD: Fn(T, T, T, T) -> T,
    GU: Fn(T) -> bool,
    GS: Fn(T, T) -> T,
    GM: Fn(T, usize) -> T,
    GW: Fn(LengthMismatch) -> String,
>(
    context: &KernelContext<'b, T>,
    thermodynamic: &[DerivedKernel],
    wind: &[DerivedKernel],
    rules: &ComputeRules<T, K, A, R, C, N, L, X, B, GD, GU, GS, GM, GW>,
) -> (result: Result<(Vec<KernelAnswer<T>>, Vec<KernelAnswer<T>>), String>)
    requires
        kernel_runs::usable(*rules),
        kernel_runs::runnable(thermodynamic@),
        kernel_runs::runnable(wind@),
        !thermodynamic@.contains(DerivedKernel::GridSpacing),
        wind@.contains(DerivedKernel::GridSpacing) ==> kernel_runs::positioned(
            context.nx,
            context.ny,
            context.lat@,
            context.lon@,
        ),
        context.nx * context.ny <= usize::MAX,
        context.levels_hpa@.len() * (context.nx * context.ny) <= usize::MAX,
    ensures
        independent_ended(*context, thermodynamic@, wind@, *rules, result),
{
    let thermo = match run_kernels(context, thermodynamic, rules) {
        Ok(answers) => answers,
        Err(message) => {
            return Err(message);
        },
    };
    match run_kernels(context, wind, rules) {
        Ok(winds) => Ok((thermo, winds)),
        Err(message) => Err(message),
    }
}

/// The levels of a computation, where some kernel reads heights.
pub open spec fn levels_of<T>(pressure: PressureFields<T>, needs: DerivedRequirements) -> Option<usize> {
    if needs.spec_needs_height_agl() {
        Some(pressure.pressure_levels_hpa@.len() as usize)
    } else {
        None
    }
}

/// Whether a computation from a pair of analyses ends with a result.
pub open spec fn computes<
    T,
    P,
    K: for<'a> Fn(KernelCall<'a, T>) -> Result<KernelAnswer<T>, String>,
    A: Fn(T, T) -> T,
    R: Fn(T, T) -> T,
    C: Fn(T) -> T,
    N: Fn(T) -> T,
    L: Fn(T, u64) -> bool,
    X: Fn(T, T, u64) -> bool,
    B: Fn(T, T, T, T, u64) -> T,
    GD: Fn(T, T, T, T) -> T,
    GU: Fn(T) -> bool,
    GS: Fn(T, T) -> T,
    GM: Fn(T, usize) -> T,
    GW: Fn(LengthMismatch) -> String,
>(
    surface: SurfaceFields<T, P>,
    pressure: PressureFields<T>,
    recipes: Seq<DerivedRecipe>,
    height_given: Option<&Vec<T>>,
    rules: ComputeRules<T, K, A, R, C, N, L, X, B, GD, GU, GS, GM, GW>,
    result: Result<DerivedComputedFields<T>, String>,
) -> bool {
    let needs = requirements::need_of_all(recipes);
    ||| result is Err && shape_checked(
        rules.run,
        surface.nx,
        surface.ny,
        levels_of(pressure, needs),
        Some(result->Err_0),
    )
    ||| shape_checked(rules.run, surface.nx, surface.ny, levels_of(pressure, needs), None)
        && exists|context: KernelContext<T>|
        {
            &&& #[trigger] reads(
                context,
                surface,
                pressure,
                pressure.u_ms_3d,
                pressure.v_ms_3d,
                needs,
                height_given,
                rules,
            )
            &&& *context.volume_u_ms == pressure.u_ms_3d
            &&& *context.volume_v_ms == pressure.v_ms_3d
            &&& outcome(context, generic_phases(needs), recipes, rules, result)
        }
}

/// Computes the derived fields of a list of recipes from a pair of analyses. The
/// parcel kernels run first, then the others, then the composites; the first
/// kernel that fails ends the computation. Heights above ground that are handed
/// in are used in place of those assembled here.
pub fn compute_derived_fields_generic_with_height_agl<
    T: Copy + Send + Sync,
    P,
    K: for<'a> Fn(KernelCall<'a, T>) -> Result<KernelAnswer<T>, String> + Sync,
    A: Fn(T, T) -> T + Sync,
    R: Fn(T, T) -> T + Sync,
    C: Fn(T) -> T + Sync,
    N: Fn(T) -> T + Sync,
    L: Fn(T, u64) -> bool + Sync,
    X: Fn(T, T, u64) -> bool + Sync,
    B: Fn(T, T, T, T, u64) -> T + Sync,
    GD: Fn(T, T, T, T) -> T + Sync,
    GU: Fn(T) -> bool + Sync,
    GS: Fn(T, T) -> T + Sync,
    GM: Fn(T, usize) -> T + Sync,
    GW: Fn(LengthMismatch) -> String + Sync,
>(
    surface: &SurfaceFields<T, P>,
    pressure: &PressureFields<T>,
    recipes: &[DerivedRecipe],
    height_agl_override: Option<&Vec<T>>,
    rules: &ComputeRules<T, K, A, R, C, N, L, X, B, GD, GU, GS, GM, GW>,
) -> (result: Result<DerivedComputedFields<T>, String>)
    requires
        kernel_runs::usable(*rules),
        surface.nx * surface.ny <= usize::MAX,
        pressure.pressure_levels_hpa@.len() * (surface.nx * surface.ny) <= usize::MAX,
        inputs_can_be_had(
            *surface,
            *pressure,
            requirements::need_of_all(recipes@),
            height_agl_override is Some,
            rules.run,
        ),
    ensures
        computes(*surface, *pressure, recipes@, height_agl_override, *rules, result),
{
    let needs = DerivedRequirements::from_recipes(recipes);
    let nz: Option<usize> = if needs.needs_height_agl() {
        Some(pressure.pressure_levels_hpa.len())
    } else {
        None
    };
    if let Some(message) = check_shape(&rules.run, surface.nx, surface.ny, nz) {
        return Err(message);
    }
    proof {
        assert(!refuses_grid(rules.run, surface.nx, surface.ny));
    }
    let pressure_pa = prepare_pressures(pressure, needs, &rules.to_pa);
    let heights = prepare_heights(
        surface,
        pressure,
        needs,
        height_agl_override,
        &rules.above,
        &rules.raise,
    );
    let context = KernelContext {
        nx: surface.nx,
        ny: surface.ny,
        surface: SurfaceInputs {
            psfc_pa: &surface.psfc_pa,
            t2_k: &surface.t2_k,
            q2_kgkg: &surface.q2_kgkg,
            u10_ms: &surface.u10_ms,
            v10_ms: &surface.v10_ms,
        },
        lat: &surface.lat,
        lon: &surface.lon,
        levels_hpa: &pressure.pressure_levels_hpa,
        pressure_3d_pa: match &pressure.pressure_3d_pa {
            Some(volume) => Some(volume),
            None => None,
        },
        temperature_c: &pressure.temperature_c_3d,
        qvapor_kgkg: &pressure.qvapor_kgkg_3d,
        u_ms: &pressure.u_ms_3d,
        v_ms: &pressure.v_ms_3d,
        volume_u_ms: &pressure.u_ms_3d,
        volume_v_ms: &pressure.v_ms_3d,
        pressure_pa: match &pressure_pa {
            Some(values) => Some(values),
            None => None,
        },
        height_agl_m: match height_agl_override {
            Some(given) => Some(given),
            None => match &heights {
                Some(values) => Some(values),
                None => None,
            },
        },
        nz,
    };
    let ghost phases = generic_phases(needs);
    proof {
        assert(reads(
            context,
            *surface,
            *pressure,
            pressure.u_ms_3d,
            pressure.v_ms_3d,
            needs,
            height_agl_override,
            *rules,
        ));
        lemma_thermodynamic_kernels_are_runnable(kernels::parcel_order(), needs);
        lemma_thermodynamic_kernels_are_runnable(kernels::thermodynamic_order(), needs);
        lemma_wind_kernels_are_runnable(needs);
        lemma_no_distances_without_winds(kernels::parcel_order(), needs);
        lemma_no_distances_without_winds(kernels::thermodynamic_order(), needs);
        lemma_distances_are_needed(needs);
        assert(phases[0] == parcel_list(needs));
        assert(phases[1] == thermodynamic_list(needs));
        assert(phases[2] == wind_list(needs));
    }
    let parcel_list = parcel_kernels(needs);
    let thermodynamic_list = thermodynamic_kernels(needs);
    let wind_list = wind_kernels(needs);
    let run_parcels = || -> (result: Result<Vec<KernelAnswer<T>>, String>)
        ensures kernel_runs::ended(context, parcel_list@, *rules, result)
    {
        run_kernels(&context, parcel_list.as_slice(), rules)
    };
    let run_others = || -> (result: Result<(Vec<KernelAnswer<T>>, Vec<KernelAnswer<T>>), String>)
        ensures independent_ended(context, thermodynamic_list@, wind_list@, *rules, result)
    {
        run_independent(&context, thermodynamic_list.as_slice(), wind_list.as_slice(), rules)
    };
    let (parcel_side, independent_side) = rayon::join(run_parcels, run_others);
    let parcels = match parcel_side {
        Ok(answers) => answers,
        Err(message) => {
            proof {
                assert(stops_at(context, phases, *rules, message, 0));
            }
            return Err(message);
        },
    };
    let (thermo, winds) = match independent_side {
        Ok(answers) => answers,
        Err(message) => {
            proof {
                assert(completes(context, phases[0], *rules));
                if kernel_runs::stopped(context, phases[1], *rules, message) {
                    assert(stops_at(context, phases, *rules, message, 1));
                } else {
                    assert(stops_at(context, phases, *rules, message, 2));
                }
            }
            return Err(message);
        },
    };
    let ghost answered = (parcels@, thermo@, winds@);
    proof {
        assert(kernels_ran(context, needs, *rules, answered.0, answered.1, answered.2));
    }
    let parcel_outputs = fold_answers(parcel_list.as_slice(), parcels).parcels;
    let thermo_outputs = fold_answers(thermodynamic_list.as_slice(), thermo).independent;
    let wind_outputs = fold_answers(wind_list.as_slice(), winds).independent;
    let independent = join_wind_outputs(thermo_outputs, wind_outputs);
    let result = finish(&context, recipes, needs, parcel_outputs, independent, rules);
    proof {
        if result is Ok {
            let computed = result->Ok_0;
            let composites = choose|composites: Seq<KernelAnswer<T>>|
                #[trigger] kernel_runs::composites_ran(
                    rules.run,
                    context.nx,
                    context.ny,
                    composite_list(needs),
                    parcel_outputs,
                    independent,
                    composites,
                ) && assemble::assembled(
                    computed,
                    recipes@,
                    (context.surface.u10_ms@, context.surface.v10_ms@),
                    parcel_outputs,
                    independent,
                    kernel_runs::folded(composite_list(needs), composites).composites,
                    rules.to_knots,
                );
            assert(all_ran(
                context,
                needs,
                *rules,
                answered.0,
                answered.1,
                answered.2,
                composites,
            ));
        }
        assert(outcome(context, phases, recipes@, *rules, result));
    }
    result
}

/// Computes the derived fields of a list of recipes from a pair of analyses.
pub fn compute_derived_fields_generic<
    T: Copy + Send + Sync,
    P,
    K: for<'a> Fn(KernelCall<'a, T>) -> Result<KernelAnswer<T>, String> + Sync,
    A: Fn(T, T) -> T + Sync,
    R: Fn(T, T) -> T + Sync,
    C: Fn(T) -> T + Sync,
    N: Fn(T) -> T + Sync,
    L: Fn(T, u64) -> bool + Sync,
    X: Fn(T, T, u64) -> bool + Sync,
    B: Fn(T, T, T, T, u64) -> T + Sync,
    GD: Fn(T, T, T, T) -> T + Sync,
    GU: Fn(T) -> bool + Sync,
    GS: Fn(T, T) -> T + Sync,
    GM: Fn(T, usize) -> T + Sync,
    GW: Fn(LengthMismatch) -> String + Sync,
>(
    surface: &SurfaceFields<T, P>,
    pressure: &PressureFields<T>,
    recipes: &[DerivedRecipe],
    rules: &ComputeRules<T, K, A, R, C, N, L, X, B, GD, GU, GS, GM, GW>,
) -> (result: Result<DerivedComputedFields<T>, String>)
    requires
        kernel_runs::usable(*rules),
        surface.nx * surface.ny <= usize::MAX,
        pressure.pressure_levels_hpa@.len() * (surface.nx * surface.ny) <= usize::MAX,
        inputs_can_be_had(
            *surface,
            *pressure,
            requirements::need_of_all(recipes@),
            false,
            rules.run,
        ),
    ensures
        computes(*surface, *pressure, recipes@, None, *rules, result),
{
    compute_derived_fields_generic_with_height_agl(surface, pressure, recipes, None, rules)
}

/// No pressure analysis.
pub open spec fn is_empty_pressure<T>(pressure: PressureFields<T>) -> bool {
    &&& pressure.pressure_levels_hpa@.len() == 0
    &&& pressure.pressure_3d_pa is None
    &&& pressure.temperature_c_3d@.len() == 0
    &&& pressure.qvapor_kgkg_3d@.len() == 0
    &&& pressure.u_ms_3d@.len() == 0
    &&& pressure.v_ms_3d@.len() == 0
    &&& pressure.gh_m_3d@.len() == 0
    &&& pressure.omega_pa_s_3d is None
    &&& pressure.absolute_vorticity_s_3d is None
    &&& pressure.cloud_liquid_kgkg_3d is None
    &&& pressure.cloud_ice_kgkg_3d is None
    &&& pressure.rain_kgkg_3d is None
    &&& pressure.snow_kgkg_3d is None
    &&& pressure.graupel_kgkg_3d is None
}

/// Computes the derived fields of a list of recipes from surface fields alone,
/// which is refused when some recipe reads pressure fields.
pub fn compute_surface_only_derived_fields<
    T: Copy + Send + Sync,
    P,
    K: for<'a> Fn(KernelCall<'a, T>) -> Result<KernelAnswer<T>, String> + Sync,
    A: Fn(T, T) -> T + Sync,
    R: Fn(T, T) -> T + Sync,
    C: Fn(T) -> T + Sync,
    N: Fn(T) -> T + Sync,
    L: Fn(T, u64) -> bool + Sync,
    X: Fn(T, T, u64) -> bool + Sync,
    B: Fn(T, T, T, T, u64) -> T + Sync,
    GD: Fn(T, T, T, T) -> T + Sync,
    GU: Fn(T) -> bool + Sync,
    GS: Fn(T, T) -> T + Sync,
    GM: Fn(T, usize) -> T + Sync,
    GW: Fn(LengthMismatch) -> String + Sync,
>(
    surface: &SurfaceFields<T, P>,
    recipes: &[DerivedRecipe],
    rules: &ComputeRules<T, K, A, R, C, N, L, X, B, GD, GU, GS, GM, GW>,
) -> (result: Result<DerivedComputedFields<T>, String>)
    requires
        kernel_runs::usable(*rules),
        surface.nx * surface.ny <= usize::MAX,
    ensures
        if requirements::need_of_all(recipes@).spec_needs_pressure_fields() {
            result is Err && result->Err_0@
                == "surface-only derived compute received a pressure-dependent recipe"@
        } else {
            exists|pressure: PressureFields<T>|
                #[trigger] is_empty_pressure(pressure) && computes(
                    *surface,
                    pressure,
                    recipes@,
                    None,
                    *rules,
                    result,
                )
        },
{
    if let Err(message) = plan_surface_only(recipes) {
        return Err(message);
    }
    let pressure: PressureFields<T> = PressureFields {
        pressure_levels_hpa: Vec::new(),
        pressure_3d_pa: None,
        temperature_c_3d: Vec::new(),
        qvapor_kgkg_3d: Vec::new(),
        u_ms_3d: Vec::new(),
        v_ms_3d: Vec::new(),
        gh_m_3d: Vec::new(),
        omega_pa_s_3d: None,
        absolute_vorticity_s_3d: None,
        cloud_liquid_kgkg_3d: None,
        cloud_ice_kgkg_3d: None,
        rain_kgkg_3d: None,
        snow_kgkg_3d: None,
        graupel_kgkg_3d: None,
    };
    proof {
        assert(is_empty_pressure(pressure));
        assert(0 * (surface.nx * surface.ny) == 0) by (nonlinear_arith);
    }
    compute_derived_fields_generic(surface, &pressure, recipes, rules)
}

} // verus!
