//! What holds of the computation of the derived fields, however it is ordered.
use crate::derived::assemble;
use crate::derived::assemble::{
    CompositeOutputs, IndependentOutputs, ParcelOutputs, TakenWindVolumes,
};
use crate::derived::compute;
use crate::derived::fields::DerivedComputedFields;
use crate::derived::kernel_runs;
use crate::derived::kernel_runs::{
    AdvectionPlanes, ComputeRules, KernelAnswer, KernelCall, KernelContext, KernelOutputs, KernelWork,
    SurfaceInputs, VolumeInputs,
};
use crate::derived::kernels;
use crate::derived::kernels::DerivedKernel;
use crate::derived::levels::LengthMismatch;
use crate::derived::phased;
use crate::derived::recipes::DerivedRecipe;
use crate::derived::requirements;
use crate::derived::requirements::DerivedRequirements;
use crate::gridded::fields::{PressureFields, SurfaceFields};
use crate::gridded::heavy_volume;
use vstd::prelude::*;

verus! {

/// Whether two sets of volumes are the same but for the winds.
pub open spec fn same_but_volume_winds<T>(a: VolumeInputs<T>, b: VolumeInputs<T>) -> bool {
    b == (VolumeInputs { u_ms: b.u_ms, v_ms: b.v_ms, ..a })
}

/// Whether the thermodynamic kernels do not look at the wind volumes that they
/// are handed.
pub open spec fn ignores_volume_winds<
    T,
    K: for<'a> Fn(KernelCall<'a, T>) -> Result<KernelAnswer<T>, String>,
>(run: K) -> bool {
    forall|
        nx: usize,
        ny: usize,
        kernel: DerivedKernel,
        volume: VolumeInputs<T>,
        other: VolumeInputs<T>,
        surface: SurfaceInputs<T>,
        result: Result<KernelAnswer<T>, String>,
    |
        #![trigger same_but_volume_winds(volume, other), kernel_runs::asked(
            run,
            nx,
            ny,
            KernelWork::Thermodynamic { kernel, volume, surface },
            result,
        )]
        same_but_volume_winds(volume, other) && kernel_runs::asked(
            run,
            nx,
            ny,
            KernelWork::Thermodynamic { kernel, volume, surface },
            result,
        ) ==> kernel_runs::asked(
            run,
            nx,
            ny,
            KernelWork::Thermodynamic { kernel, volume: other, surface },
            result,
        )
}

/// Whether two contexts are the same but for the winds that thermodynamic kernels
/// are handed.
spec fn same_but_handed_winds<T>(a: KernelContext<T>, b: KernelContext<T>) -> bool {
    b == (KernelContext { volume_u_ms: b.volume_u_ms, volume_v_ms: b.volume_v_ms, ..a })
}

proof fn lemma_handed_winds_do_not_matter<
    T,
    K: for<'a> Fn(KernelCall<'a, T>) -> Result<KernelAnswer<T>, String>,
    A: Fn(T, T) -> T,
    R: Fn(T, T) -> T,
    C: Fn(T) -> T,
    N: Fn(T) -> T,
    L: Fn(T, u64) -> bool,
    X: Fn(T, T, u64) -> bool,
    B: Fn(T, T, T, T, u64) -> T,
    GD: Fn(T, T, T, T) -> T,
    GU: Fn(T) -> bool,
    GS: Fn(T, T) -> T,
    GM: Fn(T, usize) -> T,
    GW: Fn(LengthMismatch) -> String,
>(
    a: KernelContext<T>,
    b: KernelContext<T>,
    list: Seq<DerivedKernel>,
    rules: ComputeRules<T, K, A, R, C, N, L, X, B, GD, GU, GS, GM, GW>,
    answers: Seq<KernelAnswer<T>>,
)
    requires
        same_but_handed_winds(a, b),
        ignores_volume_winds(rules.run),
        kernel_runs::ran(a, list, rules, answers),
    ensures
        kernel_runs::ran(b, list, rules, answers),
{
    assert forall|i: int| 0 <= i < list.len() implies kernel_runs::answered(
        b,
        list[i],
        kernel_runs::spacing_of(answers.take(i)),
        rules,
        Ok::<KernelAnswer<T>, String>(#[trigger] answers[i]),
    ) by {
        let spacing = kernel_runs::spacing_of(answers.take(i));
        let answer = Ok::<KernelAnswer<T>, String>(answers[i]);
        assert(kernel_runs::answered(a, list[i], spacing, rules, answer));
        if list[i].reads_volume() {
            if kernel_runs::volume_of(a) is Ok {
                let volume = kernel_runs::volume_of(a)->Ok_0;
                let other = kernel_runs::volume_of(b)->Ok_0;
                assert(same_but_volume_winds(volume, other));
                assert(kernel_runs::asked(
                    rules.run,
                    a.nx,
                    a.ny,
                    KernelWork::Thermodynamic { kernel: list[i], volume, surface: a.surface },
                    answer,
                ));
            }
        } else if list[i].reads_wind_profile() {
            assert(kernel_runs::wind_of(a) == kernel_runs::wind_of(b));
        } else if list[i] == DerivedKernel::GridSpacing {
            kernel_runs::lemma_spaced_by_positions(a, b, rules.spacing, rules.wording, answer);
        } else if list[i] != DerivedKernel::SurfaceThermo {
            let level = kernel_runs::advection_level(list[i]);
            let planes = choose|planes: AdvectionPlanes<T>|
                #[trigger] kernel_runs::planes_at(a, level, rules.levels, planes)
                    && match kernel_runs::plane_gap(level, planes) {
                    Some(message) => answer is Err && answer->Err_0@ == message,
                    None => spacing is Some && kernel_runs::asked(
                        rules.run,
                        a.nx,
                        a.ny,
                        KernelWork::Advection {
                            kernel: list[i],
                            temperature_c: &planes.temperature_c->Some_0,
                            u_ms: &planes.u_ms->Some_0,
                            v_ms: &planes.v_ms->Some_0,
                            dx_m: spacing->Some_0.0,
                            dy_m: spacing->Some_0.1,
                        },
                        answer,
                    ),
                };
            assert(kernel_runs::planes_at(b, level, rules.levels, planes));
        }
    }
}

proof fn lemma_computed_whatever_winds_are_handed<
    T,
    K: for<'a> Fn(KernelCall<'a, T>) -> Result<KernelAnswer<T>, String>,
    A: Fn(T, T) -> T,
    R: Fn(T, T) -> T,
    C: Fn(T) -> T,
    N: Fn(T) -> T,
    L: Fn(T, u64) -> bool,
    X: Fn(T, T, u64) -> bool,
    B: Fn(T, T, T, T, u64) -> T,
    GD: Fn(T, T, T, T) -> T,
    GU: Fn(T) -> bool,
    GS: Fn(T, T) -> T,
    GM: Fn(T, usize) -> T,
    GW: Fn(LengthMismatch) -> String,
>(
    a: KernelContext<T>,
    b: KernelContext<T>,
    recipes: Seq<DerivedRecipe>,
    rules: ComputeRules<T, K, A, R, C, N, L, X, B, GD, GU, GS, GM, GW>,
    computed: DerivedComputedFields<T>,
)
    requires
        same_but_handed_winds(a, b),
        ignores_volume_winds(rules.run),
        compute::computed_by(a, recipes, rules, computed),
    ensures
        compute::computed_by(b, recipes, rules, computed),
{
    let needs = requirements::need_of_all(recipes);
    let (parcels, thermo, winds, composites) = choose|
        parcels: Seq<KernelAnswer<T>>,
        thermo: Seq<KernelAnswer<T>>,
        winds: Seq<KernelAnswer<T>>,
        composites: Seq<KernelAnswer<T>>,
    |
        #[trigger] compute::all_ran(a, needs, rules, parcels, thermo, winds, composites)
            && assemble::assembled(
            computed,
            recipes,
            (a.surface.u10_ms@, a.surface.v10_ms@),
            compute::parcels_of(needs, parcels),
            compute::independent_of(needs, thermo, winds),
            kernel_runs::folded(compute::composite_list(needs), composites).composites,
            rules.to_knots,
        );
    lemma_handed_winds_do_not_matter(a, b, compute::parcel_list(needs), rules, parcels);
    lemma_handed_winds_do_not_matter(a, b, compute::thermodynamic_list(needs), rules, thermo);
    lemma_handed_winds_do_not_matter(a, b, compute::wind_list(needs), rules, winds);
    assert(compute::all_ran(b, needs, rules, parcels, thermo, winds, composites));
}

/// Giving the wind volumes up early changes no field: with kernels that do not
/// look at the winds beside the thermodynamic volumes, the computation from the
/// analysis with its winds taken out ends with exactly the fields with which the
/// computation from the whole analysis ends.
pub proof fn law_wind_first_computes_the_same_fields<
    T,
    P,
    K: for<'a> Fn(KernelCall<'a, T>) -> Result<KernelAnswer<T>, String>,
    A: Fn(T, T) -> T,
    R: Fn(T, T) -> T,
    C: Fn(T) -> T,
    N: Fn(T) -> T,
    L: Fn(T, u64) -> bool,
    X: Fn(T, T, u64) -> bool,
    B: Fn(T, T, T, T, u64) -> T,
    GD: Fn(T, T, T, T) -> T,
    GU: Fn(T) -> bool,
    GS: Fn(T, T) -> T,
    GM: Fn(T, usize) -> T,
    GW: Fn(LengthMismatch) -> String,
>(
    surface: SurfaceFields<T, P>,
    whole: PressureFields<T>,
    left: PressureFields<T>,
    winds: TakenWindVolumes<T>,
    recipes: Seq<DerivedRecipe>,
    height_given: Option<&Vec<T>>,
    keep_winds: bool,
    rules: ComputeRules<T, K, A, R, C, N, L, X, B, GD, GU, GS, GM, GW>,
    computed: DerivedComputedFields<T>,
)
    requires
        ignores_volume_winds(rules.run),
        whole == (PressureFields { u_ms_3d: winds.u_ms_3d, v_ms_3d: winds.v_ms_3d, ..left }),
        left.u_ms_3d@.len() == 0,
        left.v_ms_3d@.len() == 0,
    ensures
        phased::computes_wind_first(
            surface,
            left,
            winds,
            recipes,
            height_given,
            keep_winds,
            rules,
            Ok((computed, assemble::winds_kept(winds, keep_winds))),
        ) <==> compute::computes(
            surface,
            whole,
            recipes,
            height_given,
            rules,
            Ok::<DerivedComputedFields<T>, String>(computed),
        ),
{
    let needs = requirements::need_of_all(recipes);
    let kept = Ok::<(DerivedComputedFields<T>, Option<TakenWindVolumes<T>>), String>(
        (computed, assemble::winds_kept(winds, keep_winds)),
    );
    let fields = Ok::<DerivedComputedFields<T>, String>(computed);
    if phased::computes_wind_first(
        surface,
        left,
        winds,
        recipes,
        height_given,
        keep_winds,
        rules,
        kept,
    ) {
        let context = choose|context: KernelContext<T>|
            {
                &&& #[trigger] compute::reads(
                    context,
                    surface,
                    left,
                    winds.u_ms_3d,
                    winds.v_ms_3d,
                    needs,
                    height_given,
                    rules,
                )
                &&& context.volume_u_ms@.len() == 0
                &&& context.volume_v_ms@.len() == 0
                &&& compute::outcome(
                    context,
                    compute::wind_first_phases(needs),
                    recipes,
                    rules,
                    fields,
                )
            };
        let handed = KernelContext {
            volume_u_ms: &winds.u_ms_3d,
            volume_v_ms: &winds.v_ms_3d,
            ..context
        };
        lemma_computed_whatever_winds_are_handed(context, handed, recipes, rules, computed);
        assert(compute::reads(
            handed,
            surface,
            whole,
            whole.u_ms_3d,
            whole.v_ms_3d,
            needs,
            height_given,
            rules,
        ));
    }
    if compute::computes(surface, whole, recipes, height_given, rules, fields) {
        let context = choose|context: KernelContext<T>|
            {
                &&& #[trigger] compute::reads(
                    context,
                    surface,
                    whole,
                    whole.u_ms_3d,
                    whole.v_ms_3d,
                    needs,
                    height_given,
                    rules,
                )
                &&& *context.volume_u_ms == whole.u_ms_3d
                &&& *context.volume_v_ms == whole.v_ms_3d
                &&& compute::outcome(
                    context,
                    compute::generic_phases(needs),
                    recipes,
                    rules,
                    fields,
                )
            };
        let handed = KernelContext {
            volume_u_ms: &left.u_ms_3d,
            volume_v_ms: &left.v_ms_3d,
            ..context
        };
        lemma_computed_whatever_winds_are_handed(context, handed, recipes, rules, computed);
        assert(compute::reads(
            handed,
            surface,
            left,
            winds.u_ms_3d,
            winds.v_ms_3d,
            needs,
            height_given,
            rules,
        ));
    }
}

/// No kernel that runs for a list of recipes misses a volume.
pub proof fn law_kernels_find_their_volumes<
    T,
    P,
    K: for<'a> Fn(KernelCall<'a, T>) -> Result<KernelAnswer<T>, String>,
    A: Fn(T, T) -> T,
    R: Fn(T, T) -> T,
    C: Fn(T) -> T,
    N: Fn(T) -> T,
    L: Fn(T, u64) -> bool,
    X: Fn(T, T, u64) -> bool,
    B: Fn(T, T, T, T, u64) -> T,
    GD: Fn(T, T, T, T) -> T,
    GU: Fn(T) -> bool,
    GS: Fn(T, T) -> T,
    GM: Fn(T, usize) -> T,
    GW: Fn(LengthMismatch) -> String,
>(
    context: KernelContext<T>,
    surface: SurfaceFields<T, P>,
    pressure: PressureFields<T>,
    u_ms: Vec<T>,
    v_ms: Vec<T>,
    needs: DerivedRequirements,
    height_given: Option<&Vec<T>>,
    rules: ComputeRules<T, K, A, R, C, N, L, X, B, GD, GU, GS, GM, GW>,
    kernel: DerivedKernel,
)
    requires
        compute::reads(context, surface, pressure, u_ms, v_ms, needs, height_given, rules),
        kernel.runs_for(needs),
    ensures
        kernel.reads_volume() ==> kernel_runs::volume_of(context) is Ok,
        kernel.reads_wind_profile() ==> kernel_runs::wind_of(context) is Ok,
{
}

/// Whether some fields hold that of a kernel.
spec fn holds<T>(outputs: KernelOutputs<T>, kernel: DerivedKernel) -> bool {
    match kernel {
        DerivedKernel::CapeCinTriplet => outputs.parcels.sb is Some && outputs.parcels.ml is Some
            && outputs.parcels.mu is Some,
        DerivedKernel::SbcapeCin => outputs.parcels.sb is Some,
        DerivedKernel::MlcapeCin => outputs.parcels.ml is Some,
        DerivedKernel::MucapeCin => outputs.parcels.mu is Some,
        DerivedKernel::Dcape => outputs.independent.dcape_jkg is Some,
        DerivedKernel::SurfaceThermo => outputs.independent.surface_thermo is Some,
        DerivedKernel::LiftedIndex => outputs.independent.lifted_index_c is Some,
        DerivedKernel::LapseRate700500 => outputs.independent.lapse_rate_700_500_cpkm is Some,
        DerivedKernel::LapseRate03km => outputs.independent.lapse_rate_0_3km_cpkm is Some,
        DerivedKernel::Shear01km => outputs.independent.shear_01km_ms is Some,
        DerivedKernel::Shear06km => outputs.independent.shear_06km_ms is Some,
        DerivedKernel::Srh01km => outputs.independent.srh_01km_m2s2 is Some,
        DerivedKernel::Srh03km => outputs.independent.srh_03km_m2s2 is Some,
        DerivedKernel::GridSpacing => true,
        DerivedKernel::TemperatureAdvection700mb => {
            outputs.independent.temperature_advection_700mb_cph is Some
        },
        DerivedKernel::TemperatureAdvection850mb => {
            outputs.independent.temperature_advection_850mb_cph is Some
        },
        DerivedKernel::Ehi01km => outputs.composites.ehi_01km is Some,
        DerivedKernel::Ehi03km => outputs.composites.ehi_03km is Some,
        DerivedKernel::StpFixed => outputs.composites.stp_fixed is Some,
        DerivedKernel::ScpMu03km06kmProxy => outputs.composites.scp_mu_03km_06km_proxy is Some,
    }
}

/// Whether an answer is of the kind that a kernel gives.
spec fn fits<T>(kernel: DerivedKernel, answer: KernelAnswer<T>) -> bool {
    match kernel {
        DerivedKernel::CapeCinTriplet => answer is Triplet,
        DerivedKernel::SbcapeCin | DerivedKernel::MlcapeCin | DerivedKernel::MucapeCin => {
            answer is Parcel
        },
        DerivedKernel::SurfaceThermo => answer is SurfaceThermo,
        DerivedKernel::GridSpacing => answer is Spacing,
        _ => answer is Field,
    }
}

/// Whether a kernel gives the fields of another.
spec fn gives(kernel: DerivedKernel, other: DerivedKernel) -> bool {
    ||| kernel == other
    ||| kernel == DerivedKernel::CapeCinTriplet && (other == DerivedKernel::SbcapeCin || other
        == DerivedKernel::MlcapeCin || other == DerivedKernel::MucapeCin)
}

proof fn lemma_folded_fields<T>(
    list: Seq<DerivedKernel>,
    answers: Seq<KernelAnswer<T>>,
    kernel: DerivedKernel,
)
    requires
        answers.len() <= list.len(),
        forall|i: int| 0 <= i < answers.len() ==> fits(list[i], #[trigger] answers[i]),
        kernel != DerivedKernel::GridSpacing,
        kernel != DerivedKernel::CapeCinTriplet,
    ensures
        holds(kernel_runs::folded(list, answers), kernel) <==> exists|i: int|
            0 <= i < answers.len() && gives(#[trigger] list[i], kernel),
    decreases answers.len(),
{
    if answers.len() > 0 {
        let before = answers.drop_last();
        let at = answers.len() - 1;
        assert forall|i: int| 0 <= i < before.len() implies fits(list[i], #[trigger] before[i]) by {
            assert(before[i] == answers[i]);
        }
        lemma_folded_fields(list, before, kernel);
        assert(fits(list[at], answers[at]));
        if exists|i: int| 0 <= i < before.len() && gives(#[trigger] list[i], kernel) {
            let i = choose|i: int| 0 <= i < before.len() && gives(#[trigger] list[i], kernel);
            assert(0 <= i < answers.len() && gives(list[i], kernel));
        }
        if gives(list[at], kernel) {
            assert(0 <= at < answers.len() && gives(list[at], kernel));
        }
    }
}

proof fn lemma_ran_fits<
    T,
    K: for<'a> Fn(KernelCall<'a, T>) -> Result<KernelAnswer<T>, String>,
    A: Fn(T, T) -> T,
    R: Fn(T, T) -> T,
    C: Fn(T) -> T,
    N: Fn(T) -> T,
    L: Fn(T, u64) -> bool,
    X: Fn(T, T, u64) -> bool,
    B: Fn(T, T, T, T, u64) -> T,
    GD: Fn(T, T, T, T) -> T,
    GU: Fn(T) -> bool,
    GS: Fn(T, T) -> T,
    GM: Fn(T, usize) -> T,
    GW: Fn(LengthMismatch) -> String,
>(
    context: KernelContext<T>,
    order: Seq<DerivedKernel>,
    needs: DerivedRequirements,
    rules: ComputeRules<T, K, A, R, C, N, L, X, B, GD, GU, GS, GM, GW>,
    answers: Seq<KernelAnswer<T>>,
)
    requires
        order == kernels::parcel_order() || order == kernels::thermodynamic_order() || order
            == kernels::wind_order(),
        kernel_runs::usable(rules),
        kernel_runs::ran(context, kernels::running(order, needs), rules, answers),
    ensures
        forall|i: int|
            0 <= i < answers.len() ==> fits(
                kernels::running(order, needs)[i],
                #[trigger] answers[i],
            ),
{
    let list = kernels::running(order, needs);
    assert forall|i: int| 0 <= i < answers.len() implies fits(list[i], #[trigger] answers[i]) by {
        let spacing = kernel_runs::spacing_of(answers.take(i));
        let result = Ok::<KernelAnswer<T>, String>(answers[i]);
        assert(kernel_runs::answered(context, list[i], spacing, rules, result));
        assert(list.contains(list[i]));
        kernels::law_running_kernels_are_the_needed_ones(order, needs, list[i]);
        if kernel_runs::is_advection(list[i]) {
            let level = kernel_runs::advection_level(list[i]);
            assert(kernel_runs::advected(
                context,
                list[i],
                spacing,
                rules.run,
                rules.levels,
                result,
            ));
        }
    }
}

proof fn lemma_composites_fit<
    T,
    K: for<'a> Fn(KernelCall<'a, T>) -> Result<KernelAnswer<T>, String>,
    A: Fn(T, T) -> T,
    R: Fn(T, T) -> T,
    C: Fn(T) -> T,
    N: Fn(T) -> T,
    L: Fn(T, u64) -> bool,
    X: Fn(T, T, u64) -> bool,
    B: Fn(T, T, T, T, u64) -> T,
    GD: Fn(T, T, T, T) -> T,
    GU: Fn(T) -> bool,
    GS: Fn(T, T) -> T,
    GM: Fn(T, usize) -> T,
    GW: Fn(LengthMismatch) -> String,
>(
    context: KernelContext<T>,
    needs: DerivedRequirements,
    rules: ComputeRules<T, K, A, R, C, N, L, X, B, GD, GU, GS, GM, GW>,
    parcels: ParcelOutputs<T>,
    outputs: IndependentOutputs<T>,
    answers: Seq<KernelAnswer<T>>,
)
    requires
        kernel_runs::usable(rules),
        kernel_runs::composites_ran(
            rules.run,
            context.nx,
            context.ny,
            compute::composite_list(needs),
            parcels,
            outputs,
            answers,
        ),
    ensures
        forall|i: int|
            0 <= i < answers.len() ==> fits(compute::composite_list(needs)[i], #[trigger] answers[i]),
{
    let list = compute::composite_list(needs);
    assert forall|i: int| 0 <= i < answers.len() implies fits(list[i], #[trigger] answers[i]) by {
        assert(list.contains(list[i]));
        kernels::law_running_kernels_are_the_needed_ones(
            kernels::composite_order(),
            needs,
            list[i],
        );
        assert(kernel_runs::combined(
            rules.run,
            context.nx,
            context.ny,
            list[i],
            parcels,
            outputs,
            Ok::<KernelAnswer<T>, String>(answers[i]),
        ));
    }
}

proof fn lemma_list_gives(
    order: Seq<DerivedKernel>,
    needs: DerivedRequirements,
    len: int,
    kernel: DerivedKernel,
)
    requires
        len == kernels::running(order, needs).len(),
        kernel != DerivedKernel::CapeCinTriplet,
    ensures
        (exists|i: int|
            0 <= i < len && gives(#[trigger] kernels::running(order, needs)[i], kernel)) <==> {
            ||| order.contains(kernel) && kernel.runs_for(needs)
            ||| order.contains(DerivedKernel::CapeCinTriplet)
                && DerivedKernel::CapeCinTriplet.runs_for(needs) && gives(
                DerivedKernel::CapeCinTriplet,
                kernel,
            )
        },
{
    let list = kernels::running(order, needs);
    kernels::law_running_kernels_are_the_needed_ones(order, needs, kernel);
    kernels::law_running_kernels_are_the_needed_ones(order, needs, DerivedKernel::CapeCinTriplet);
    if list.contains(kernel) {
        let i = choose|i: int| 0 <= i < list.len() && list[i] == kernel;
        assert(0 <= i < len && gives(list[i], kernel));
    }
    if list.contains(DerivedKernel::CapeCinTriplet) && gives(DerivedKernel::CapeCinTriplet, kernel) {
        let i = choose|i: int| 0 <= i < list.len() && list[i] == DerivedKernel::CapeCinTriplet;
        assert(0 <= i < len && gives(list[i], kernel));
    }
    if exists|i: int| 0 <= i < len && gives(#[trigger] list[i], kernel) {
        let i = choose|i: int| 0 <= i < len && gives(#[trigger] list[i], kernel);
        assert(list.contains(list[i]));
    }
}

proof fn lemma_folded_for_needs<T>(
    order: Seq<DerivedKernel>,
    needs: DerivedRequirements,
    answers: Seq<KernelAnswer<T>>,
    kernel: DerivedKernel,
)
    requires
        answers.len() == kernels::running(order, needs).len(),
        forall|i: int|
            0 <= i < answers.len() ==> fits(
                kernels::running(order, needs)[i],
                #[trigger] answers[i],
            ),
        kernel != DerivedKernel::GridSpacing,
        kernel != DerivedKernel::CapeCinTriplet,
    ensures
        holds(kernel_runs::folded(kernels::running(order, needs), answers), kernel) <==> {
            ||| order.contains(kernel) && kernel.runs_for(needs)
            ||| order.contains(DerivedKernel::CapeCinTriplet)
                && DerivedKernel::CapeCinTriplet.runs_for(needs) && gives(
                DerivedKernel::CapeCinTriplet,
                kernel,
            )
        },
{
    lemma_folded_fields(kernels::running(order, needs), answers, kernel);
    lemma_list_gives(order, needs, answers.len() as int, kernel);
}

proof fn lemma_parcel_fields<T>(needs: DerivedRequirements, answers: Seq<KernelAnswer<T>>)
    requires
        answers.len() == compute::parcel_list(needs).len(),
        forall|i: int|
            0 <= i < answers.len() ==> fits(compute::parcel_list(needs)[i], #[trigger] answers[i]),
    ensures
        (compute::parcels_of(needs, answers).sb is Some) == needs.sb,
        (compute::parcels_of(needs, answers).ml is Some) == needs.ml,
        (compute::parcels_of(needs, answers).mu is Some) == needs.mu,
{
    let order = kernels::parcel_order();
    assert(order[0] == DerivedKernel::CapeCinTriplet);
    assert(order[1] == DerivedKernel::SbcapeCin);
    assert(order[2] == DerivedKernel::MlcapeCin);
    assert(order[3] == DerivedKernel::MucapeCin);
    lemma_folded_for_needs(order, needs, answers, DerivedKernel::SbcapeCin);
    lemma_folded_for_needs(order, needs, answers, DerivedKernel::MlcapeCin);
    lemma_folded_for_needs(order, needs, answers, DerivedKernel::MucapeCin);
}

proof fn lemma_thermodynamic_fields<T>(
    needs: DerivedRequirements,
    answers: Seq<KernelAnswer<T>>,
    outputs: IndependentOutputs<T>,
)
    requires
        answers.len() == compute::thermodynamic_list(needs).len(),
        forall|i: int|
            0 <= i < answers.len() ==> fits(
                compute::thermodynamic_list(needs)[i],
                #[trigger] answers[i],
            ),
        outputs == kernel_runs::folded(compute::thermodynamic_list(needs), answers).independent,
    ensures
        (outputs.dcape_jkg is Some) == needs.dcape,
        (outputs.surface_thermo is Some) == needs.surface_thermo,
        (outputs.lifted_index_c is Some) == needs.lifted_index,
        (outputs.lapse_rate_700_500_cpkm is Some) == needs.lapse_rate_700_500,
        (outputs.lapse_rate_0_3km_cpkm is Some) == needs.lapse_rate_0_3km,
{
    let order = kernels::thermodynamic_order();
    assert(order[0] == DerivedKernel::Dcape);
    assert(order[1] == DerivedKernel::SurfaceThermo);
    assert(order[2] == DerivedKernel::LiftedIndex);
    assert(order[3] == DerivedKernel::LapseRate700500);
    assert(order[4] == DerivedKernel::LapseRate03km);
    lemma_folded_for_needs(order, needs, answers, DerivedKernel::Dcape);
    lemma_folded_for_needs(order, needs, answers, DerivedKernel::SurfaceThermo);
    lemma_folded_for_needs(order, needs, answers, DerivedKernel::LiftedIndex);
    lemma_folded_for_needs(order, needs, answers, DerivedKernel::LapseRate700500);
    lemma_folded_for_needs(order, needs, answers, DerivedKernel::LapseRate03km);
    lemma_no_triplet(order);
}

proof fn lemma_no_triplet(order: Seq<DerivedKernel>)
    requires
        order == kernels::thermodynamic_order() || order == kernels::wind_order() || order
            == kernels::composite_order(),
    ensures
        !order.contains(DerivedKernel::CapeCinTriplet),
{
}

proof fn lemma_wind_fields<T>(
    needs: DerivedRequirements,
    answers: Seq<KernelAnswer<T>>,
    outputs: IndependentOutputs<T>,
)
    requires
        answers.len() == compute::wind_list(needs).len(),
        forall|i: int|
            0 <= i < answers.len() ==> fits(compute::wind_list(needs)[i], #[trigger] answers[i]),
        outputs == kernel_runs::folded(compute::wind_list(needs), answers).independent,
    ensures
        (outputs.shear_01km_ms is Some) == needs.shear_01km,
        (outputs.shear_06km_ms is Some) == needs.shear_06km,
        (outputs.srh_01km_m2s2 is Some) == needs.srh_01km,
        (outputs.srh_03km_m2s2 is Some) == needs.srh_03km,
        (outputs.temperature_advection_700mb_cph is Some) == needs.temperature_advection_700mb,
        (outputs.temperature_advection_850mb_cph is Some) == needs.temperature_advection_850mb,
{
    let order = kernels::wind_order();
    assert(order[0] == DerivedKernel::Shear01km);
    assert(order[1] == DerivedKernel::Shear06km);
    assert(order[2] == DerivedKernel::Srh01km);
    assert(order[3] == DerivedKernel::Srh03km);
    assert(order[4] == DerivedKernel::GridSpacing);
    assert(order[5] == DerivedKernel::TemperatureAdvection700mb);
    assert(order[6] == DerivedKernel::TemperatureAdvection850mb);
    lemma_folded_for_needs(order, needs, answers, DerivedKernel::Shear01km);
    lemma_folded_for_needs(order, needs, answers, DerivedKernel::Shear06km);
    lemma_folded_for_needs(order, needs, answers, DerivedKernel::Srh01km);
    lemma_folded_for_needs(order, needs, answers, DerivedKernel::Srh03km);
    lemma_folded_for_needs(order, needs, answers, DerivedKernel::TemperatureAdvection700mb);
    lemma_folded_for_needs(order, needs, answers, DerivedKernel::TemperatureAdvection850mb);
    lemma_no_triplet(order);
}

proof fn lemma_composite_fields<T>(
    needs: DerivedRequirements,
    answers: Seq<KernelAnswer<T>>,
    outputs: CompositeOutputs<T>,
)
    requires
        answers.len() == compute::composite_list(needs).len(),
        forall|i: int|
            0 <= i < answers.len() ==> fits(compute::composite_list(needs)[i], #[trigger] answers[i]),
        outputs == kernel_runs::folded(compute::composite_list(needs), answers).composites,
    ensures
        (outputs.ehi_01km is Some) == needs.ehi_01km,
        (outputs.ehi_03km is Some) == needs.ehi_03km,
        (outputs.stp_fixed is Some) == needs.stp_fixed,
        (outputs.scp_mu_03km_06km_proxy is Some) == needs.scp_mu_03km_06km_proxy,
{
    let order = kernels::composite_order();
    assert(order[0] == DerivedKernel::Ehi01km);
    assert(order[1] == DerivedKernel::Ehi03km);
    assert(order[2] == DerivedKernel::StpFixed);
    assert(order[3] == DerivedKernel::ScpMu03km06kmProxy);
    lemma_folded_for_needs(order, needs, answers, DerivedKernel::Ehi01km);
    lemma_folded_for_needs(order, needs, answers, DerivedKernel::Ehi03km);
    lemma_folded_for_needs(order, needs, answers, DerivedKernel::StpFixed);
    lemma_folded_for_needs(order, needs, answers, DerivedKernel::ScpMu03km06kmProxy);
    lemma_no_triplet(order);
}

/// Once the kernels that run for a list of recipes have answered, no composite
/// that runs misses a field.
pub proof fn law_composites_never_miss_a_field<
    T,
    K: for<'a> Fn(KernelCall<'a, T>) -> Result<KernelAnswer<T>, String>,
    A: Fn(T, T) -> T,
    R: Fn(T, T) -> T,
    C: Fn(T) -> T,
    N: Fn(T) -> T,
    L: Fn(T, u64) -> bool,
    X: Fn(T, T, u64) -> bool,
    B: Fn(T, T, T, T, u64) -> T,
    GD: Fn(T, T, T, T) -> T,
    GU: Fn(T) -> bool,
    GS: Fn(T, T) -> T,
    GM: Fn(T, usize) -> T,
    GW: Fn(LengthMismatch) -> String,
>(
    context: KernelContext<T>,
    recipes: Seq<DerivedRecipe>,
    rules: ComputeRules<T, K, A, R, C, N, L, X, B, GD, GU, GS, GM, GW>,
    parcels: Seq<KernelAnswer<T>>,
    thermo: Seq<KernelAnswer<T>>,
    winds: Seq<KernelAnswer<T>>,
    kernel: DerivedKernel,
)
    requires
        kernel_runs::usable(rules),
        compute::kernels_ran(
            context,
            requirements::need_of_all(recipes),
            rules,
            parcels,
            thermo,
            winds,
        ),
        kernel.is_composite(),
        kernel.runs_for(requirements::need_of_all(recipes)),
    ensures
        assemble::composite_gap(
            kernel,
            compute::parcels_of(requirements::need_of_all(recipes), parcels),
            compute::independent_of(requirements::need_of_all(recipes), thermo, winds),
        ) is None,
{
    let needs = requirements::need_of_all(recipes);
    lemma_ran_fits(context, kernels::parcel_order(), needs, rules, parcels);
    lemma_ran_fits(context, kernels::thermodynamic_order(), needs, rules, thermo);
    lemma_ran_fits(context, kernels::wind_order(), needs, rules, winds);
    lemma_parcel_fields(needs, parcels);
    let thermo_outputs = kernel_runs::folded(
        compute::thermodynamic_list(needs),
        thermo,
    ).independent;
    let wind_outputs = kernel_runs::folded(compute::wind_list(needs), winds).independent;
    lemma_thermodynamic_fields(needs, thermo, thermo_outputs);
    lemma_wind_fields(needs, winds, wind_outputs);
    requirements::law_composites_bring_their_inputs(recipes);
}

/// A computation that ends with fields has the field of every recipe that it was
/// asked for, but for the heavy ones.
pub proof fn law_computed_fields_realize_every_recipe<
    T,
    K: for<'a> Fn(KernelCall<'a, T>) -> Result<KernelAnswer<T>, String>,
    A: Fn(T, T) -> T,
    R: Fn(T, T) -> T,
    C: Fn(T) -> T,
    N: Fn(T) -> T,
    L: Fn(T, u64) -> bool,
    X: Fn(T, T, u64) -> bool,
    B: Fn(T, T, T, T, u64) -> T,
    GD: Fn(T, T, T, T) -> T,
    GU: Fn(T) -> bool,
    GS: Fn(T, T) -> T,
    GM: Fn(T, usize) -> T,
    GW: Fn(LengthMismatch) -> String,
>(
    context: KernelContext<T>,
    recipes: Seq<DerivedRecipe>,
    rules: ComputeRules<T, K, A, R, C, N, L, X, B, GD, GU, GS, GM, GW>,
    computed: DerivedComputedFields<T>,
    recipe: DerivedRecipe,
)
    requires
        kernel_runs::usable(rules),
        compute::computed_by(context, recipes, rules, computed),
        recipes.contains(recipe),
        !recipe.spec_is_heavy(),
    ensures
        computed.slot(recipe) is Some,
{
    let needs = requirements::need_of_all(recipes);
    let (parcels, thermo, winds, composites) = choose|
        parcels: Seq<KernelAnswer<T>>,
        thermo: Seq<KernelAnswer<T>>,
        winds: Seq<KernelAnswer<T>>,
        composites: Seq<KernelAnswer<T>>,
    |
        #[trigger] compute::all_ran(context, needs, rules, parcels, thermo, winds, composites)
            && assemble::assembled(
            computed,
            recipes,
            (context.surface.u10_ms@, context.surface.v10_ms@),
            compute::parcels_of(needs, parcels),
            compute::independent_of(needs, thermo, winds),
            kernel_runs::folded(compute::composite_list(needs), composites).composites,
            rules.to_knots,
        );
    let parcel_outputs = compute::parcels_of(needs, parcels);
    let independent = compute::independent_of(needs, thermo, winds);
    let combined = kernel_runs::folded(compute::composite_list(needs), composites).composites;
    lemma_ran_fits(context, kernels::parcel_order(), needs, rules, parcels);
    lemma_ran_fits(context, kernels::thermodynamic_order(), needs, rules, thermo);
    lemma_ran_fits(context, kernels::wind_order(), needs, rules, winds);
    lemma_composites_fit(context, needs, rules, parcel_outputs, independent, composites);
    lemma_parcel_fields(needs, parcels);
    lemma_thermodynamic_fields(
        needs,
        thermo,
        kernel_runs::folded(compute::thermodynamic_list(needs), thermo).independent,
    );
    lemma_wind_fields(
        needs,
        winds,
        kernel_runs::folded(compute::wind_list(needs), winds).independent,
    );
    lemma_composite_fields(needs, composites, combined);
    assemble::law_every_recipe_is_realized(
        computed,
        recipes,
        (context.surface.u10_ms@, context.surface.v10_ms@),
        parcel_outputs,
        independent,
        combined,
        rules.to_knots,
        recipe,
    );
}

/// Whether two contexts are the same but for heights that no kernel can read.
spec fn same_but_unread_heights<T>(a: KernelContext<T>, b: KernelContext<T>) -> bool {
    &&& b == (KernelContext { height_agl_m: b.height_agl_m, ..a })
    &&& a.nz is None
    &&& a.pressure_pa is None
}

proof fn lemma_unread_heights<
    T,
    K: for<'a> Fn(KernelCall<'a, T>) -> Result<KernelAnswer<T>, String>,
    A: Fn(T, T) -> T,
    R: Fn(T, T) -> T,
    C: Fn(T) -> T,
    N: Fn(T) -> T,
    L: Fn(T, u64) -> bool,
    X: Fn(T, T, u64) -> bool,
    B: Fn(T, T, T, T, u64) -> T,
    GD: Fn(T, T, T, T) -> T,
    GU: Fn(T) -> bool,
    GS: Fn(T, T) -> T,
    GM: Fn(T, usize) -> T,
    GW: Fn(LengthMismatch) -> String,
>(
    a: KernelContext<T>,
    b: KernelContext<T>,
    kernel: DerivedKernel,
    spacing: Option<(T, T)>,
    rules: ComputeRules<T, K, A, R, C, N, L, X, B, GD, GU, GS, GM, GW>,
    result: Result<KernelAnswer<T>, String>,
)
    requires
        same_but_unread_heights(a, b),
        kernel_runs::answered(a, kernel, spacing, rules, result),
    ensures
        kernel_runs::answered(b, kernel, spacing, rules, result),
{
    if kernel == DerivedKernel::GridSpacing {
        kernel_runs::lemma_spaced_by_positions(a, b, rules.spacing, rules.wording, result);
    } else if !kernel.reads_volume() && !kernel.reads_wind_profile() && kernel
        != DerivedKernel::SurfaceThermo {
        let level = kernel_runs::advection_level(kernel);
        assert forall|planes: AdvectionPlanes<T>|
            #[trigger] kernel_runs::planes_at(a, level, rules.levels, planes)
            implies kernel_runs::planes_at(b, level, rules.levels, planes) by {}
    }
}

proof fn lemma_unread_heights_run<
    T,
    K: for<'a> Fn(KernelCall<'a, T>) -> Result<KernelAnswer<T>, String>,
    A: Fn(T, T) -> T,
    R: Fn(T, T) -> T,
    C: Fn(T) -> T,
    N: Fn(T) -> T,
    L: Fn(T, u64) -> bool,
    X: Fn(T, T, u64) -> bool,
    B: Fn(T, T, T, T, u64) -> T,
    GD: Fn(T, T, T, T) -> T,
    GU: Fn(T) -> bool,
    GS: Fn(T, T) -> T,
    GM: Fn(T, usize) -> T,
    GW: Fn(LengthMismatch) -> String,
>(
    a: KernelContext<T>,
    b: KernelContext<T>,
    list: Seq<DerivedKernel>,
    rules: ComputeRules<T, K, A, R, C, N, L, X, B, GD, GU, GS, GM, GW>,
    answers: Seq<KernelAnswer<T>>,
)
    requires
        same_but_unread_heights(a, b),
        kernel_runs::ran(a, list, rules, answers),
    ensures
        kernel_runs::ran(b, list, rules, answers),
{
    assert forall|i: int| 0 <= i < list.len() implies kernel_runs::answered(
        b,
        list[i],
        kernel_runs::spacing_of(answers.take(i)),
        rules,
        Ok::<KernelAnswer<T>, String>(#[trigger] answers[i]),
    ) by {
        lemma_unread_heights(
            a,
            b,
            list[i],
            kernel_runs::spacing_of(answers.take(i)),
            rules,
            Ok::<KernelAnswer<T>, String>(answers[i]),
        );
    }
}

proof fn lemma_unread_heights_stop<
    T,
    K: for<'a> Fn(KernelCall<'a, T>) -> Result<KernelAnswer<T>, String>,
    A: Fn(T, T) -> T,
    R: Fn(T, T) -> T,
    C: Fn(T) -> T,
    N: Fn(T) -> T,
    L: Fn(T, u64) -> bool,
    X: Fn(T, T, u64) -> bool,
    B: Fn(T, T, T, T, u64) -> T,
    GD: Fn(T, T, T, T) -> T,
    GU: Fn(T) -> bool,
    GS: Fn(T, T) -> T,
    GM: Fn(T, usize) -> T,
    GW: Fn(LengthMismatch) -> String,
>(
    a: KernelContext<T>,
    b: KernelContext<T>,
    list: Seq<DerivedKernel>,
    rules: ComputeRules<T, K, A, R, C, N, L, X, B, GD, GU, GS, GM, GW>,
    message: String,
)
    requires
        same_but_unread_heights(a, b),
        kernel_runs::stopped(a, list, rules, message),
    ensures
        kernel_runs::stopped(b, list, rules, message),
{
    let done = choose|done: Seq<KernelAnswer<T>>|
        {
            &&& done.len() < list.len()
            &&& #[trigger] kernel_runs::ran(a, list.take(done.len() as int), rules, done)
            &&& kernel_runs::answered(
                a,
                list[done.len() as int],
                kernel_runs::spacing_of(done),
                rules,
                Err::<KernelAnswer<T>, String>(message),
            )
        };
    lemma_unread_heights_run(a, b, list.take(done.len() as int), rules, done);
    lemma_unread_heights(
        a,
        b,
        list[done.len() as int],
        kernel_runs::spacing_of(done),
        rules,
        Err::<KernelAnswer<T>, String>(message),
    );
}

proof fn lemma_unread_heights_end<
    T,
    K: for<'a> Fn(KernelCall<'a, T>) -> Result<KernelAnswer<T>, String>,
    A: Fn(T, T) -> T,
    R: Fn(T, T) -> T,
    C: Fn(T) -> T,
    N: Fn(T) -> T,
    L: Fn(T, u64) -> bool,
    X: Fn(T, T, u64) -> bool,
    B: Fn(T, T, T, T, u64) -> T,
    GD: Fn(T, T, T, T) -> T,
    GU: Fn(T) -> bool,
    GS: Fn(T, T) -> T,
    GM: Fn(T, usize) -> T,
    GW: Fn(LengthMismatch) -> String,
>(
    a: KernelContext<T>,
    b: KernelContext<T>,
    phases: Seq<Seq<DerivedKernel>>,
    recipes: Seq<DerivedRecipe>,
    rules: ComputeRules<T, K, A, R, C, N, L, X, B, GD, GU, GS, GM, GW>,
    result: Result<DerivedComputedFields<T>, String>,
)
    requires
        same_but_unread_heights(a, b),
        compute::outcome(a, phases, recipes, rules, result),
    ensures
        compute::outcome(b, phases, recipes, rules, result),
{
    let needs = requirements::need_of_all(recipes);
    match result {
        Ok(computed) => {
            let (parcels, thermo, winds, composites) = choose|
                parcels: Seq<KernelAnswer<T>>,
                thermo: Seq<KernelAnswer<T>>,
                winds: Seq<KernelAnswer<T>>,
                composites: Seq<KernelAnswer<T>>,
            |
                #[trigger] compute::all_ran(a, needs, rules, parcels, thermo, winds, composites)
                    && assemble::assembled(
                    computed,
                    recipes,
                    (a.surface.u10_ms@, a.surface.v10_ms@),
                    compute::parcels_of(needs, parcels),
                    compute::independent_of(needs, thermo, winds),
                    kernel_runs::folded(compute::composite_list(needs), composites).composites,
                    rules.to_knots,
                );
            lemma_unread_heights_run(a, b, compute::parcel_list(needs), rules, parcels);
            lemma_unread_heights_run(a, b, compute::thermodynamic_list(needs), rules, thermo);
            lemma_unread_heights_run(a, b, compute::wind_list(needs), rules, winds);
            assert(compute::all_ran(b, needs, rules, parcels, thermo, winds, composites));
        },
        Err(message) => {
            if exists|at: int| #[trigger] compute::stops_at(a, phases, rules, message, at) {
                let at = choose|at: int| #[trigger] compute::stops_at(a, phases, rules, message, at);
                lemma_unread_heights_stop(a, b, phases[at], rules, message);
                assert forall|j: int| 0 <= j < at implies compute::completes(
                    b,
                    #[trigger] phases[j],
                    rules,
                ) by {
                    assert(compute::completes(a, phases[j], rules));
                    let answers = choose|answers: Seq<KernelAnswer<T>>| #[trigger]
                        kernel_runs::ran(a, phases[j], rules, answers);
                    lemma_unread_heights_run(a, b, phases[j], rules, answers);
                }
                assert(compute::stops_at(b, phases, rules, message, at));
            } else {
                let (parcels, thermo, winds) = choose|
                    parcels: Seq<KernelAnswer<T>>,
                    thermo: Seq<KernelAnswer<T>>,
                    winds: Seq<KernelAnswer<T>>,
                |
                    #[trigger] compute::kernels_ran(a, needs, rules, parcels, thermo, winds)
                        && kernel_runs::composites_stopped(
                        rules.run,
                        a.nx,
                        a.ny,
                        compute::composite_list(needs),
                        compute::parcels_of(needs, parcels),
                        compute::independent_of(needs, thermo, winds),
                        message,
                    );
                lemma_unread_heights_run(a, b, compute::parcel_list(needs), rules, parcels);
                lemma_unread_heights_run(a, b, compute::thermodynamic_list(needs), rules, thermo);
                lemma_unread_heights_run(a, b, compute::wind_list(needs), rules, winds);
                assert(compute::kernels_ran(b, needs, rules, parcels, thermo, winds));
            }
        },
    }
}

/// Heights above ground that are handed in and are those over the orography change
/// nothing, whatever the recipes: a computation with them ends as the computation that
/// assembles its own ends. The geopotential heights may have been given up.
pub proof fn law_given_heights_change_nothing<
    T,
    P,
    K: for<'a> Fn(KernelCall<'a, T>) -> Result<KernelAnswer<T>, String>,
    A: Fn(T, T) -> T,
    R: Fn(T, T) -> T,
    C: Fn(T) -> T,
    N: Fn(T) -> T,
    L: Fn(T, u64) -> bool,
    X: Fn(T, T, u64) -> bool,
    B: Fn(T, T, T, T, u64) -> T,
    GD: Fn(T, T, T, T) -> T,
    GU: Fn(T) -> bool,
    GS: Fn(T, T) -> T,
    GM: Fn(T, usize) -> T,
    GW: Fn(LengthMismatch) -> String,
>(
    surface: SurfaceFields<T, P>,
    pressure: PressureFields<T>,
    left: PressureFields<T>,
    recipes: Seq<DerivedRecipe>,
    heights: &Vec<T>,
    rules: ComputeRules<T, K, A, R, C, N, L, X, B, GD, GU, GS, GM, GW>,
    result: Result<DerivedComputedFields<T>, String>,
)
    requires
        left == (PressureFields { gh_m_3d: left.gh_m_3d, ..pressure }),
        heavy_volume::heights_over(
            heights@,
            pressure.gh_m_3d@,
            surface.orog_m@,
            surface.nx * surface.ny,
            pressure.pressure_levels_hpa@.len() as int,
            rules.above,
            rules.raise,
        ),
        compute::computes(surface, left, recipes, Some(heights), rules, result),
    ensures
        compute::computes(surface, pressure, recipes, None, rules, result),
{
    let needs = requirements::need_of_all(recipes);
    requirements::law_needs_are_nested(needs);
    assert(compute::levels_of(left, needs) == compute::levels_of(pressure, needs));
    if !(result is Err && compute::shape_checked(
        rules.run,
        surface.nx,
        surface.ny,
        compute::levels_of(left, needs),
        Some(result->Err_0),
    )) {
        let context = choose|context: KernelContext<T>|
            {
                &&& #[trigger] compute::reads(
                    context,
                    surface,
                    left,
                    left.u_ms_3d,
                    left.v_ms_3d,
                    needs,
                    Some(heights),
                    rules,
                )
                &&& *context.volume_u_ms == left.u_ms_3d
                &&& *context.volume_v_ms == left.v_ms_3d
                &&& compute::outcome(
                    context,
                    compute::generic_phases(needs),
                    recipes,
                    rules,
                    result,
                )
            };
        let own = if needs.spec_needs_height_agl() {
            context
        } else {
            KernelContext { height_agl_m: None, ..context }
        };
        if !needs.spec_needs_height_agl() {
            lemma_unread_heights_end(
                context,
                own,
                compute::generic_phases(needs),
                recipes,
                rules,
                result,
            );
        }
        assert(compute::reads(
            own,
            surface,
            pressure,
            pressure.u_ms_3d,
            pressure.v_ms_3d,
            needs,
            None,
            rules,
        ));
    }
}

/// What a computation that assembles its own heights ends with, a computation that is
/// handed heights can end with too: where kernels read heights, with heights over the
/// orography, and the geopotential heights may have been given up.
pub proof fn law_own_heights_can_be_given<
    T,
    P,
    K: for<'a> Fn(KernelCall<'a, T>) -> Result<KernelAnswer<T>, String>,
    A: Fn(T, T) -> T,
    R: Fn(T, T) -> T,
    C: Fn(T) -> T,
    N: Fn(T) -> T,
    L: Fn(T, u64) -> bool,
    X: Fn(T, T, u64) -> bool,
    B: Fn(T, T, T, T, u64) -> T,
    GD: Fn(T, T, T, T) -> T,
    GU: Fn(T) -> bool,
    GS: Fn(T, T) -> T,
    GM: Fn(T, usize) -> T,
    GW: Fn(LengthMismatch) -> String,
>(
    surface: SurfaceFields<T, P>,
    pressure: PressureFields<T>,
    left: PressureFields<T>,
    recipes: Seq<DerivedRecipe>,
    rules: ComputeRules<T, K, A, R, C, N, L, X, B, GD, GU, GS, GM, GW>,
    result: Result<DerivedComputedFields<T>, String>,
)
    requires
        left == (PressureFields { gh_m_3d: left.gh_m_3d, ..pressure }),
        requirements::need_of_all(recipes).spec_needs_height_agl(),
        compute::computes(surface, pressure, recipes, None, rules, result),
    ensures
        exists|heights: Vec<T>|
            #[trigger] compute::computes(surface, left, recipes, Some(&heights), rules, result)
                && (heavy_volume::heights_over(
                heights@,
                pressure.gh_m_3d@,
                surface.orog_m@,
                surface.nx * surface.ny,
                pressure.pressure_levels_hpa@.len() as int,
                rules.above,
                rules.raise,
            ) || (result is Err && compute::shape_checked(
                rules.run,
                surface.nx,
                surface.ny,
                Some(pressure.pressure_levels_hpa@.len() as usize),
                Some(result->Err_0),
            ))),
{
    let needs = requirements::need_of_all(recipes);
    assert(compute::levels_of(left, needs) == compute::levels_of(pressure, needs));
    if result is Err && compute::shape_checked(
        rules.run,
        surface.nx,
        surface.ny,
        compute::levels_of(pressure, needs),
        Some(result->Err_0),
    ) {
        assert(compute::computes(
            surface,
            left,
            recipes,
            Some(&pressure.gh_m_3d),
            rules,
            result,
        ));
    } else {
        let context = choose|context: KernelContext<T>|
            {
                &&& #[trigger] compute::reads(
                    context,
                    surface,
                    pressure,
                    pressure.u_ms_3d,
                    pressure.v_ms_3d,
                    needs,
                    None,
                    rules,
                )
                &&& *context.volume_u_ms == pressure.u_ms_3d
                &&& *context.volume_v_ms == pressure.v_ms_3d
                &&& compute::outcome(
                    context,
                    compute::generic_phases(needs),
                    recipes,
                    rules,
                    result,
                )
            };
        let heights = *context.height_agl_m->Some_0;
        assert(compute::reads(
            context,
            surface,
            left,
            left.u_ms_3d,
            left.v_ms_3d,
            needs,
            Some(&heights),
            rules,
        ));
        assert(compute::computes(surface, left, recipes, Some(&heights), rules, result));
    }
}

} // verus!
