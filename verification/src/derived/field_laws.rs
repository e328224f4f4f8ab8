//! What each derived field has to do with the kernel that it is named after, and the
//! kernel with the analyses.
use crate::derived::assemble;
use crate::derived::assemble::{
    CapeCinOutputs, CompositeInputs, ParcelOutputs, SurfaceThermoOutputs,
};
use crate::derived::compute;
use crate::derived::fields::DerivedComputedFields;
use crate::derived::kernel_runs;
use crate::derived::kernel_runs::{
    ComputeRules, KernelAnswer, KernelCall, KernelContext, KernelOutputs, KernelWork, VolumeInputs,
    WindGridInputs,
};
use crate::derived::kernels;
use crate::derived::kernels::DerivedKernel;
use crate::derived::levels;
use crate::derived::levels::LengthMismatch;
use crate::derived::recipes::DerivedRecipe;
use crate::derived::requirements;
use crate::gridded::fields::{PressureFields, SurfaceFields};
use crate::gridded::heavy_volume;
use vstd::prelude::*;

verus! {

/// The field of a kernel that computes a single one.
pub open spec fn field_of<T>(outputs: KernelOutputs<T>, kernel: DerivedKernel) -> Option<Vec<T>> {
    match kernel {
        DerivedKernel::Dcape => outputs.independent.dcape_jkg,
        DerivedKernel::LiftedIndex => outputs.independent.lifted_index_c,
        DerivedKernel::LapseRate700500 => outputs.independent.lapse_rate_700_500_cpkm,
        DerivedKernel::LapseRate03km => outputs.independent.lapse_rate_0_3km_cpkm,
        DerivedKernel::Shear01km => outputs.independent.shear_01km_ms,
        DerivedKernel::Shear06km => outputs.independent.shear_06km_ms,
        DerivedKernel::Srh01km => outputs.independent.srh_01km_m2s2,
        DerivedKernel::Srh03km => outputs.independent.srh_03km_m2s2,
        DerivedKernel::TemperatureAdvection700mb => outputs.independent.temperature_advection_700mb_cph,
        DerivedKernel::TemperatureAdvection850mb => outputs.independent.temperature_advection_850mb_cph,
        DerivedKernel::Ehi01km => outputs.composites.ehi_01km,
        DerivedKernel::Ehi03km => outputs.composites.ehi_03km,
        DerivedKernel::StpFixed => outputs.composites.stp_fixed,
        DerivedKernel::ScpMu03km06kmProxy => outputs.composites.scp_mu_03km_06km_proxy,
        _ => None,
    }
}

/// A field that was answered was answered by the kernel that it is named after.
proof fn lemma_field_came_from<T>(
    list: Seq<DerivedKernel>,
    answers: Seq<KernelAnswer<T>>,
    kernel: DerivedKernel,
) -> (i: int)
    requires
        answers.len() <= list.len(),
        field_of(kernel_runs::folded(list, answers), kernel) is Some,
    ensures
        0 <= i < answers.len(),
        list[i] == kernel,
        answers[i] == KernelAnswer::Field(
            field_of(kernel_runs::folded(list, answers), kernel)->Some_0,
        ),
    decreases answers.len(),
{
    let last = answers.len() - 1;
    if answers[last] is Field && list[last] == kernel {
        last
    } else {
        lemma_field_came_from(list, answers.drop_last(), kernel)
    }
}

/// The surface fields were answered as a whole.
proof fn lemma_surface_came_from<T>(list: Seq<DerivedKernel>, answers: Seq<KernelAnswer<T>>) -> (i:
    int)
    requires
        answers.len() <= list.len(),
        kernel_runs::folded(list, answers).independent.surface_thermo is Some,
    ensures
        0 <= i < answers.len(),
        answers[i] == KernelAnswer::SurfaceThermo(
            kernel_runs::folded(list, answers).independent.surface_thermo->Some_0,
        ),
    decreases answers.len(),
{
    let last = answers.len() - 1;
    if answers[last] is SurfaceThermo {
        last
    } else {
        lemma_surface_came_from(list, answers.drop_last())
    }
}

/// The fields of the surface-based, mixed-layer or most-unstable parcel.
pub open spec fn parcel_of<T>(outputs: ParcelOutputs<T>, kernel: DerivedKernel) -> Option<
    CapeCinOutputs<T>,
> {
    match kernel {
        DerivedKernel::SbcapeCin => outputs.sb,
        DerivedKernel::MlcapeCin => outputs.ml,
        DerivedKernel::MucapeCin => outputs.mu,
        _ => None,
    }
}

/// Whether an answer holds a parcel: alone, or in its place among the three.
pub open spec fn holds_parcel<T>(
    answer: KernelAnswer<T>,
    asked: DerivedKernel,
    kernel: DerivedKernel,
    parcel: CapeCinOutputs<T>,
) -> bool {
    match answer {
        KernelAnswer::Parcel(alone) => asked == kernel && alone == parcel,
        KernelAnswer::Triplet { sb, ml, mu } => {
            ||| kernel is SbcapeCin && sb == parcel
            ||| kernel is MlcapeCin && ml == parcel
            ||| kernel is MucapeCin && mu == parcel
        },
        _ => false,
    }
}

proof fn lemma_parcel_came_from<T>(
    list: Seq<DerivedKernel>,
    answers: Seq<KernelAnswer<T>>,
    kernel: DerivedKernel,
) -> (i: int)
    requires
        answers.len() <= list.len(),
        parcel_of(kernel_runs::folded(list, answers).parcels, kernel) is Some,
    ensures
        0 <= i < answers.len(),
        holds_parcel(
            answers[i],
            list[i],
            kernel,
            parcel_of(kernel_runs::folded(list, answers).parcels, kernel)->Some_0,
        ),
    decreases answers.len(),
{
    let last = answers.len() - 1;
    let parcel = parcel_of(kernel_runs::folded(list, answers).parcels, kernel)->Some_0;
    if holds_parcel(answers[last], list[last], kernel, parcel) {
        last
    } else {
        lemma_parcel_came_from(list, answers.drop_last(), kernel)
    }
}

/// The volumes of a computation: pressure, temperature, moisture and height, and the winds
/// that go with them.
pub open spec fn volume_handed<'a, T>(context: KernelContext<'a, T>) -> VolumeInputs<'a, T> {
    VolumeInputs {
        pressure_pa: context.pressure_pa->Some_0,
        temperature_c: context.temperature_c,
        qvapor_kgkg: context.qvapor_kgkg,
        height_agl_m: context.height_agl_m->Some_0,
        u_ms: context.volume_u_ms,
        v_ms: context.volume_v_ms,
        nz: context.nz->Some_0,
    }
}

/// Whether a kernel that reads the volumes and the surface of a computation has answered.
pub open spec fn answered_from_volume<
    T,
    K: for<'a> Fn(KernelCall<'a, T>) -> Result<KernelAnswer<T>, String>,
    A: Fn(T, T) -> T,
    R: Fn(T, T) -> T,
    C: Fn(T) -> T,
    N: Fn(T) -> T,
    L: Fn(T, u64) -> bool,
    X: Fn(T, T, u64) -> bool,
    B: Fn(T, T, T, T, u64) -> T,
    GD: Fn(T, T, T, T) -> T,
    GU: Fn(T) -> bool,
    GS: Fn(T, T) -> T,
    GM: Fn(T, usize) -> T,
    GW: Fn(LengthMismatch) -> String,
>(
    context: KernelContext<T>,
    rules: ComputeRules<T, K, A, R, C, N, L, X, B, GD, GU, GS, GM, GW>,
    kernel: DerivedKernel,
    answer: KernelAnswer<T>,
) -> bool {
    &&& context.pressure_pa is Some
    &&& context.height_agl_m is Some
    &&& context.nz is Some
    &&& kernel_runs::asked(
        rules.run,
        context.nx,
        context.ny,
        KernelWork::Thermodynamic {
            kernel,
            volume: volume_handed(context),
            surface: context.surface,
        },
        Ok::<KernelAnswer<T>, String>(answer),
    )
}

/// Whether a kernel that reads the winds of a computation over its heights has answered.
pub open spec fn answered_from_winds<
    T,
    K: for<'a> Fn(KernelCall<'a, T>) -> Result<KernelAnswer<T>, String>,
    A: Fn(T, T) -> T,
    R: Fn(T, T) -> T,
    C: Fn(T) -> T,
    N: Fn(T) -> T,
    L: Fn(T, u64) -> bool,
    X: Fn(T, T, u64) -> bool,
    B: Fn(T, T, T, T, u64) -> T,
    GD: Fn(T, T, T, T) -> T,
    GU: Fn(T) -> bool,
    GS: Fn(T, T) -> T,
    GM: Fn(T, usize) -> T,
    GW: Fn(LengthMismatch) -> String,
>(
    context: KernelContext<T>,
    rules: ComputeRules<T, K, A, R, C, N, L, X, B, GD, GU, GS, GM, GW>,
    kernel: DerivedKernel,
    answer: KernelAnswer<T>,
) -> bool {
    &&& context.height_agl_m is Some
    &&& context.nz is Some
    &&& kernel_runs::asked(
        rules.run,
        context.nx,
        context.ny,
        KernelWork::Wind {
            kernel,
            wind: WindGridInputs {
                nz: context.nz->Some_0,
                u_3d_ms: context.u_ms,
                v_3d_ms: context.v_ms,
                height_agl_3d_m: context.height_agl_m->Some_0,
            },
            lat: context.lat,
        },
        Ok::<KernelAnswer<T>, String>(answer),
    )
}

/// Whether a temperature advection was computed from the temperature and the winds at a
/// pressure.
pub open spec fn advected_at<
    T,
    K: for<'a> Fn(KernelCall<'a, T>) -> Result<KernelAnswer<T>, String>,
    A: Fn(T, T) -> T,
    R: Fn(T, T) -> T,
    C: Fn(T) -> T,
    N: Fn(T) -> T,
    L: Fn(T, u64) -> bool,
    X: Fn(T, T, u64) -> bool,
    B: Fn(T, T, T, T, u64) -> T,
    GD: Fn(T, T, T, T) -> T,
    GU: Fn(T) -> bool,
    GS: Fn(T, T) -> T,
    GM: Fn(T, usize) -> T,
    GW: Fn(LengthMismatch) -> String,
>(
    context: KernelContext<T>,
    rules: ComputeRules<T, K, A, R, C, N, L, X, B, GD, GU, GS, GM, GW>,
    kernel: DerivedKernel,
    level_hpa: u64,
    values: Vec<T>,
) -> bool {
    exists|temperature_c: &Vec<T>, u_ms: &Vec<T>, v_ms: &Vec<T>, dx_m: T, dy_m: T|
        {
            &&& #[trigger] kernel_runs::asked(
                rules.run,
                context.nx,
                context.ny,
                KernelWork::Advection { kernel, temperature_c, u_ms, v_ms, dx_m, dy_m },
                Ok::<KernelAnswer<T>, String>(KernelAnswer::Field(values)),
            )
            &&& plane_at(context, rules, context.temperature_c@, level_hpa, temperature_c@)
            &&& plane_at(context, rules, context.u_ms@, level_hpa, u_ms@)
            &&& plane_at(context, rules, context.v_ms@, level_hpa, v_ms@)
        }
}

/// Whether a plane is that of a volume at a pressure.
pub open spec fn plane_at<
    T,
    K: for<'a> Fn(KernelCall<'a, T>) -> Result<KernelAnswer<T>, String>,
    A: Fn(T, T) -> T,
    R: Fn(T, T) -> T,
    C: Fn(T) -> T,
    N: Fn(T) -> T,
    L: Fn(T, u64) -> bool,
    X: Fn(T, T, u64) -> bool,
    B: Fn(T, T, T, T, u64) -> T,
    GD: Fn(T, T, T, T) -> T,
    GU: Fn(T) -> bool,
    GS: Fn(T, T) -> T,
    GM: Fn(T, usize) -> T,
    GW: Fn(LengthMismatch) -> String,
>(
    context: KernelContext<T>,
    rules: ComputeRules<T, K, A, R, C, N, L, X, B, GD, GU, GS, GM, GW>,
    volume: Seq<T>,
    level_hpa: u64,
    plane: Seq<T>,
) -> bool {
    levels::is_plane_at(
        volume,
        context.levels_hpa@,
        match context.pressure_3d_pa {
            Some(pressures) => Some(pressures@),
            None => None,
        },
        level_hpa,
        context.nx * context.ny,
        rules.levels,
        Some(plane),
    )
}

/// A parcel is lifted by its own kernel, or in its own place by the kernel that lifts all
/// three, and its energy, inhibition and condensation level are shown under its own name.
pub proof fn law_parcel_fields_are_those_of_their_parcel<
    T,
    K: for<'a> Fn(KernelCall<'a, T>) -> Result<KernelAnswer<T>, String>,
    A: Fn(T, T) -> T,
    R: Fn(T, T) -> T,
    C: Fn(T) -> T,
    N: Fn(T) -> T,
    L: Fn(T, u64) -> bool,
    X: Fn(T, T, u64) -> bool,
    B: Fn(T, T, T, T, u64) -> T,
    GD: Fn(T, T, T, T) -> T,
    GU: Fn(T) -> bool,
    GS: Fn(T, T) -> T,
    GM: Fn(T, usize) -> T,
    GW: Fn(LengthMismatch) -> String,
>(
    context: KernelContext<T>,
    recipes: Seq<DerivedRecipe>,
    rules: ComputeRules<T, K, A, R, C, N, L, X, B, GD, GU, GS, GM, GW>,
    computed: DerivedComputedFields<T>,
) -> (parcels: ParcelOutputs<T>)
    requires
        kernel_runs::usable(rules),
        compute::computed_by(context, recipes, rules, computed),
    ensures
        parcels.sb matches Some(sb) ==> answered_from_volume(
            context,
            rules,
            DerivedKernel::SbcapeCin,
            KernelAnswer::Parcel(sb),
        ) || exists|ml: CapeCinOutputs<T>, mu: CapeCinOutputs<T>|
            #[trigger] answered_from_volume(
                context,
                rules,
                DerivedKernel::CapeCinTriplet,
                KernelAnswer::Triplet { sb, ml, mu },
            ),
        parcels.ml matches Some(ml) ==> answered_from_volume(
            context,
            rules,
            DerivedKernel::MlcapeCin,
            KernelAnswer::Parcel(ml),
        ) || exists|sb: CapeCinOutputs<T>, mu: CapeCinOutputs<T>|
            #[trigger] answered_from_volume(
                context,
                rules,
                DerivedKernel::CapeCinTriplet,
                KernelAnswer::Triplet { sb, ml, mu },
            ),
        parcels.mu matches Some(mu) ==> answered_from_volume(
            context,
            rules,
            DerivedKernel::MucapeCin,
            KernelAnswer::Parcel(mu),
        ) || exists|sb: CapeCinOutputs<T>, ml: CapeCinOutputs<T>|
            #[trigger] answered_from_volume(
                context,
                rules,
                DerivedKernel::CapeCinTriplet,
                KernelAnswer::Triplet { sb, ml, mu },
            ),
        match parcels.sb {
            Some(sb) => {
                &&& computed.slot(DerivedRecipe::Sbcape) == Some(sb.cape_jkg)
                &&& computed.slot(DerivedRecipe::Sbcin) == Some(sb.cin_jkg)
                &&& computed.slot(DerivedRecipe::Sblcl) == Some(sb.lcl_m)
            },
            None => {
                &&& computed.slot(DerivedRecipe::Sbcape) is None
                &&& computed.slot(DerivedRecipe::Sbcin) is None
                &&& computed.slot(DerivedRecipe::Sblcl) is None
            },
        },
        match parcels.ml {
            Some(ml) => {
                &&& computed.slot(DerivedRecipe::Mlcape) == Some(ml.cape_jkg)
                &&& computed.slot(DerivedRecipe::Mlcin) == Some(ml.cin_jkg)
            },
            None => {
                &&& computed.slot(DerivedRecipe::Mlcape) is None
                &&& computed.slot(DerivedRecipe::Mlcin) is None
            },
        },
        match parcels.mu {
            Some(mu) => {
                &&& computed.slot(DerivedRecipe::Mucape) == Some(mu.cape_jkg)
                &&& computed.slot(DerivedRecipe::Mucin) == Some(mu.cin_jkg)
            },
            None => {
                &&& computed.slot(DerivedRecipe::Mucape) is None
                &&& computed.slot(DerivedRecipe::Mucin) is None
            },
        },
{
    let needs = requirements::need_of_all(recipes);
    let (parcels, thermo, winds, composites) = choose|
        parcels: Seq<KernelAnswer<T>>,
        thermo: Seq<KernelAnswer<T>>,
        winds: Seq<KernelAnswer<T>>,
        composites: Seq<KernelAnswer<T>>,
    |
        #[trigger] compute::all_ran(context, needs, rules, parcels, thermo, winds, composites)
            && assemble::assembled(
            computed,
            recipes,
            (context.surface.u10_ms@, context.surface.v10_ms@),
            compute::parcels_of(needs, parcels),
            compute::independent_of(needs, thermo, winds),
            kernel_runs::folded(compute::composite_list(needs), composites).composites,
            rules.to_knots,
        );
    let outputs = compute::parcels_of(needs, parcels);
    if outputs.sb is Some {
        lemma_parcel_was_lifted(context, rules, needs, parcels, DerivedKernel::SbcapeCin);
    }
    if outputs.ml is Some {
        lemma_parcel_was_lifted(context, rules, needs, parcels, DerivedKernel::MlcapeCin);
    }
    if outputs.mu is Some {
        lemma_parcel_was_lifted(context, rules, needs, parcels, DerivedKernel::MucapeCin);
    }
    outputs
}

proof fn lemma_parcel_was_lifted<
    T,
    K: for<'a> Fn(KernelCall<'a, T>) -> Result<KernelAnswer<T>, String>,
    A: Fn(T, T) -> T,
    R: Fn(T, T) -> T,
    C: Fn(T) -> T,
    N: Fn(T) -> T,
    L: Fn(T, u64) -> bool,
    X: Fn(T, T, u64) -> bool,
    B: Fn(T, T, T, T, u64) -> T,
    GD: Fn(T, T, T, T) -> T,
    GU: Fn(T) -> bool,
    GS: Fn(T, T) -> T,
    GM: Fn(T, usize) -> T,
    GW: Fn(LengthMismatch) -> String,
>(
    context: KernelContext<T>,
    rules: ComputeRules<T, K, A, R, C, N, L, X, B, GD, GU, GS, GM, GW>,
    needs: requirements::DerivedRequirements,
    answers: Seq<KernelAnswer<T>>,
    kernel: DerivedKernel,
)
    requires
        kernel_runs::usable(rules),
        kernel_runs::ran(context, compute::parcel_list(needs), rules, answers),
        parcel_of(compute::parcels_of(needs, answers), kernel) is Some,
    ensures
        ({
            let parcel = parcel_of(compute::parcels_of(needs, answers), kernel)->Some_0;
            ||| answered_from_volume(context, rules, kernel, KernelAnswer::Parcel(parcel))
            ||| exists|sb: CapeCinOutputs<T>, ml: CapeCinOutputs<T>, mu: CapeCinOutputs<T>|
                #[trigger] answered_from_volume(
                    context,
                    rules,
                    DerivedKernel::CapeCinTriplet,
                    KernelAnswer::Triplet { sb, ml, mu },
                ) && {
                    ||| kernel is SbcapeCin && sb == parcel
                    ||| kernel is MlcapeCin && ml == parcel
                    ||| kernel is MucapeCin && mu == parcel
                }
        }),
{
    let list = compute::parcel_list(needs);
    let i = lemma_parcel_came_from(list, answers, kernel);
    assert(list.contains(list[i]));
    kernels::law_running_kernels_are_the_needed_ones(kernels::parcel_order(), needs, list[i]);
    assert(kernel_runs::answered(
        context,
        list[i],
        kernel_runs::spacing_of(answers.take(i)),
        rules,
        Ok::<KernelAnswer<T>, String>(answers[i]),
    ));
    let volume = kernel_runs::volume_of(context)->Ok_0;
    assert(kernel_runs::in_kind(
        KernelWork::Thermodynamic { kernel: list[i], volume, surface: context.surface },
        answers[i],
    ));
    assert(answered_from_volume(context, rules, list[i], answers[i]));
    if let KernelAnswer::Triplet { sb, ml, mu } = answers[i] {
        assert(list[i] == DerivedKernel::CapeCinTriplet);
        assert(answered_from_volume(
            context,
            rules,
            DerivedKernel::CapeCinTriplet,
            KernelAnswer::Triplet { sb, ml, mu },
        ));
    }
}

proof fn lemma_field_was_answered<
    T,
    K: for<'a> Fn(KernelCall<'a, T>) -> Result<KernelAnswer<T>, String>,
    A: Fn(T, T) -> T,
    R: Fn(T, T) -> T,
    C: Fn(T) -> T,
    N: Fn(T) -> T,
    L: Fn(T, u64) -> bool,
    X: Fn(T, T, u64) -> bool,
    B: Fn(T, T, T, T, u64) -> T,
    GD: Fn(T, T, T, T) -> T,
    GU: Fn(T) -> bool,
    GS: Fn(T, T) -> T,
    GM: Fn(T, usize) -> T,
    GW: Fn(LengthMismatch) -> String,
>(
    context: KernelContext<T>,
    rules: ComputeRules<T, K, A, R, C, N, L, X, B, GD, GU, GS, GM, GW>,
    order: Seq<DerivedKernel>,
    needs: requirements::DerivedRequirements,
    answers: Seq<KernelAnswer<T>>,
    kernel: DerivedKernel,
)
    requires
        kernel_runs::ran(context, kernels::running(order, needs), rules, answers),
        field_of(kernel_runs::folded(kernels::running(order, needs), answers), kernel) is Some,
        kernel.reads_volume() || kernel.reads_wind_profile() || kernel_runs::is_advection(kernel),
    ensures
        ({
            let values = field_of(
                kernel_runs::folded(kernels::running(order, needs), answers),
                kernel,
            )->Some_0;
            &&& kernel.reads_volume() ==> answered_from_volume(
                context,
                rules,
                kernel,
                KernelAnswer::Field(values),
            )
            &&& kernel.reads_wind_profile() ==> answered_from_winds(
                context,
                rules,
                kernel,
                KernelAnswer::Field(values),
            )
            &&& kernel is TemperatureAdvection700mb ==> advected_at(
                context,
                rules,
                kernel,
                700,
                values,
            )
            &&& kernel is TemperatureAdvection850mb ==> advected_at(
                context,
                rules,
                kernel,
                850,
                values,
            )
        }),
{
    let list = kernels::running(order, needs);
    let i = lemma_field_came_from(list, answers, kernel);
    let spacing = kernel_runs::spacing_of(answers.take(i));
    let result = Ok::<KernelAnswer<T>, String>(answers[i]);
    assert(kernel_runs::answered(context, kernel, spacing, rules, result));
    if kernel_runs::is_advection(kernel) {
        lemma_advection_was_computed(context, rules, kernel, spacing, answers[i]->Field_0);
    }
}

proof fn lemma_advection_was_computed<
    T,
    K: for<'a> Fn(KernelCall<'a, T>) -> Result<KernelAnswer<T>, String>,
    A: Fn(T, T) -> T,
    R: Fn(T, T) -> T,
    C: Fn(T) -> T,
    N: Fn(T) -> T,
    L: Fn(T, u64) -> bool,
    X: Fn(T, T, u64) -> bool,
    B: Fn(T, T, T, T, u64) -> T,
    GD: Fn(T, T, T, T) -> T,
    GU: Fn(T) -> bool,
    GS: Fn(T, T) -> T,
    GM: Fn(T, usize) -> T,
    GW: Fn(LengthMismatch) -> String,
>(
    context: KernelContext<T>,
    rules: ComputeRules<T, K, A, R, C, N, L, X, B, GD, GU, GS, GM, GW>,
    kernel: DerivedKernel,
    spacing: Option<(T, T)>,
    values: Vec<T>,
)
    requires
        kernel_runs::is_advection(kernel),
        kernel_runs::advected(
            context,
            kernel,
            spacing,
            rules.run,
            rules.levels,
            Ok::<KernelAnswer<T>, String>(KernelAnswer::Field(values)),
        ),
    ensures
        kernel is TemperatureAdvection700mb ==> advected_at(context, rules, kernel, 700, values),
        kernel is TemperatureAdvection850mb ==> advected_at(context, rules, kernel, 850, values),
{
    let level = kernel_runs::advection_level(kernel);
    let result = Ok::<KernelAnswer<T>, String>(KernelAnswer::Field(values));
    let planes = choose|planes: kernel_runs::AdvectionPlanes<T>|
        #[trigger] kernel_runs::planes_at(context, level, rules.levels, planes)
            && match kernel_runs::plane_gap(level, planes) {
            Some(message) => result is Err && result->Err_0@ == message,
            None => spacing is Some && kernel_runs::asked(
                rules.run,
                context.nx,
                context.ny,
                KernelWork::Advection {
                    kernel,
                    temperature_c: &planes.temperature_c->Some_0,
                    u_ms: &planes.u_ms->Some_0,
                    v_ms: &planes.v_ms->Some_0,
                    dx_m: spacing->Some_0.0,
                    dy_m: spacing->Some_0.1,
                },
                result,
            ),
        };
    let temperature_c = &planes.temperature_c->Some_0;
    let u_ms = &planes.u_ms->Some_0;
    let v_ms = &planes.v_ms->Some_0;
    assert(kernel_runs::asked(
        rules.run,
        context.nx,
        context.ny,
        KernelWork::Advection {
            kernel,
            temperature_c,
            u_ms,
            v_ms,
            dx_m: spacing->Some_0.0,
            dy_m: spacing->Some_0.1,
        },
        result,
    ));
    assert(plane_at(context, rules, context.temperature_c@, level, temperature_c@));
    assert(plane_at(context, rules, context.u_ms@, level, u_ms@));
    assert(plane_at(context, rules, context.v_ms@, level, v_ms@));
    if kernel is TemperatureAdvection700mb {
        assert(advected_at(context, rules, kernel, 700, values));
    } else {
        assert(advected_at(context, rules, kernel, 850, values));
    }
}

/// A field that a single kernel computes is shown under the name of that kernel: it is
/// what the kernel of that name answered when it was handed the volumes, or the winds, of
/// the computation. Shears are shown in knots.
pub proof fn law_fields_are_the_answers_of_their_kernels<
    T,
    K: for<'a> Fn(KernelCall<'a, T>) -> Result<KernelAnswer<T>, String>,
    A: Fn(T, T) -> T,
    R: Fn(T, T) -> T,
    C: Fn(T) -> T,
    N: Fn(T) -> T,
    L: Fn(T, u64) -> bool,
    X: Fn(T, T, u64) -> bool,
    B: Fn(T, T, T, T, u64) -> T,
    GD: Fn(T, T, T, T) -> T,
    GU: Fn(T) -> bool,
    GS: Fn(T, T) -> T,
    GM: Fn(T, usize) -> T,
    GW: Fn(LengthMismatch) -> String,
>(
    context: KernelContext<T>,
    recipes: Seq<DerivedRecipe>,
    rules: ComputeRules<T, K, A, R, C, N, L, X, B, GD, GU, GS, GM, GW>,
    computed: DerivedComputedFields<T>,
)
    requires
        compute::computed_by(context, recipes, rules, computed),
    ensures
        computed.slot(DerivedRecipe::Dcape) matches Some(values) ==> answered_from_volume(
            context,
            rules,
            DerivedKernel::Dcape,
            KernelAnswer::Field(values),
        ),
        computed.slot(DerivedRecipe::LiftedIndex) matches Some(values) ==> answered_from_volume(
            context,
            rules,
            DerivedKernel::LiftedIndex,
            KernelAnswer::Field(values),
        ),
        computed.slot(DerivedRecipe::LapseRate700500) matches Some(values) ==> answered_from_volume(
            context,
            rules,
            DerivedKernel::LapseRate700500,
            KernelAnswer::Field(values),
        ),
        computed.slot(DerivedRecipe::LapseRate03km) matches Some(values) ==> answered_from_volume(
            context,
            rules,
            DerivedKernel::LapseRate03km,
            KernelAnswer::Field(values),
        ),
        computed.slot(DerivedRecipe::Srh01km) matches Some(values) ==> answered_from_winds(
            context,
            rules,
            DerivedKernel::Srh01km,
            KernelAnswer::Field(values),
        ),
        computed.slot(DerivedRecipe::Srh03km) matches Some(values) ==> answered_from_winds(
            context,
            rules,
            DerivedKernel::Srh03km,
            KernelAnswer::Field(values),
        ),
        computed.slot(DerivedRecipe::TemperatureAdvection700mb) matches Some(values) ==> advected_at(
            context,
            rules,
            DerivedKernel::TemperatureAdvection700mb,
            700,
            values,
        ),
        computed.slot(DerivedRecipe::TemperatureAdvection850mb) matches Some(values) ==> advected_at(
            context,
            rules,
            DerivedKernel::TemperatureAdvection850mb,
            850,
            values,
        ),
        computed.slot(DerivedRecipe::BulkShear01km) is Some ==> exists|speeds_ms: Vec<T>|
            #[trigger] answered_from_winds(
                context,
                rules,
                DerivedKernel::Shear01km,
                KernelAnswer::Field(speeds_ms),
            ) && assemble::shown_in_knots(
                speeds_ms,
                computed.slot(DerivedRecipe::BulkShear01km),
                rules.to_knots,
            ),
        computed.slot(DerivedRecipe::BulkShear06km) is Some ==> exists|speeds_ms: Vec<T>|
            #[trigger] answered_from_winds(
                context,
                rules,
                DerivedKernel::Shear06km,
                KernelAnswer::Field(speeds_ms),
            ) && assemble::shown_in_knots(
                speeds_ms,
                computed.slot(DerivedRecipe::BulkShear06km),
                rules.to_knots,
            ),
{
    let needs = requirements::need_of_all(recipes);
    let (parcels, thermo, winds, composites) = choose|
        parcels: Seq<KernelAnswer<T>>,
        thermo: Seq<KernelAnswer<T>>,
        winds: Seq<KernelAnswer<T>>,
        composites: Seq<KernelAnswer<T>>,
    |
        #[trigger] compute::all_ran(context, needs, rules, parcels, thermo, winds, composites)
            && assemble::assembled(
            computed,
            recipes,
            (context.surface.u10_ms@, context.surface.v10_ms@),
            compute::parcels_of(needs, parcels),
            compute::independent_of(needs, thermo, winds),
            kernel_runs::folded(compute::composite_list(needs), composites).composites,
            rules.to_knots,
        );
    let dry = kernel_runs::folded(compute::thermodynamic_list(needs), thermo).independent;
    let windy = kernel_runs::folded(compute::wind_list(needs), winds).independent;
    if dry.dcape_jkg is Some {
        lemma_field_was_answered(
            context,
            rules,
            kernels::thermodynamic_order(),
            needs,
            thermo,
            DerivedKernel::Dcape,
        );
    }
    if dry.lifted_index_c is Some {
        lemma_field_was_answered(
            context,
            rules,
            kernels::thermodynamic_order(),
            needs,
            thermo,
            DerivedKernel::LiftedIndex,
        );
    }
    if dry.lapse_rate_700_500_cpkm is Some {
        lemma_field_was_answered(
            context,
            rules,
            kernels::thermodynamic_order(),
            needs,
            thermo,
            DerivedKernel::LapseRate700500,
        );
    }
    if dry.lapse_rate_0_3km_cpkm is Some {
        lemma_field_was_answered(
            context,
            rules,
            kernels::thermodynamic_order(),
            needs,
            thermo,
            DerivedKernel::LapseRate03km,
        );
    }
    if windy.shear_01km_ms is Some {
        lemma_field_was_answered(
            context,
            rules,
            kernels::wind_order(),
            needs,
            winds,
            DerivedKernel::Shear01km,
        );
    }
    if windy.shear_06km_ms is Some {
        lemma_field_was_answered(
            context,
            rules,
            kernels::wind_order(),
            needs,
            winds,
            DerivedKernel::Shear06km,
        );
    }
    if windy.srh_01km_m2s2 is Some {
        lemma_field_was_answered(
            context,
            rules,
            kernels::wind_order(),
            needs,
            winds,
            DerivedKernel::Srh01km,
        );
    }
    if windy.srh_03km_m2s2 is Some {
        lemma_field_was_answered(
            context,
            rules,
            kernels::wind_order(),
            needs,
            winds,
            DerivedKernel::Srh03km,
        );
    }
    if windy.temperature_advection_700mb_cph is Some {
        lemma_field_was_answered(
            context,
            rules,
            kernels::wind_order(),
            needs,
            winds,
            DerivedKernel::TemperatureAdvection700mb,
        );
    }
    if windy.temperature_advection_850mb_cph is Some {
        lemma_field_was_answered(
            context,
            rules,
            kernels::wind_order(),
            needs,
            winds,
            DerivedKernel::TemperatureAdvection850mb,
        );
    }
}

/// The surface fields are shown under their own names, each where its recipe is asked for:
/// they are what the surface kernel answered when it was handed the surface of the
/// computation. The winds shown with one of them are those of that surface.
pub proof fn law_surface_fields_are_those_of_the_surface_kernel<
    T,
    K: for<'a> Fn(KernelCall<'a, T>) -> Result<KernelAnswer<T>, String>,
    A: Fn(T, T) -> T,
    R: Fn(T, T) -> T,
    C: Fn(T) -> T,
    N: Fn(T) -> T,
    L: Fn(T, u64) -> bool,
    X: Fn(T, T, u64) -> bool,
    B: Fn(T, T, T, T, u64) -> T,
    GD: Fn(T, T, T, T) -> T,
    GU: Fn(T) -> bool,
    GS: Fn(T, T) -> T,
    GM: Fn(T, usize) -> T,
    GW: Fn(LengthMismatch) -> String,
>(
    context: KernelContext<T>,
    recipes: Seq<DerivedRecipe>,
    rules: ComputeRules<T, K, A, R, C, N, L, X, B, GD, GU, GS, GM, GW>,
    computed: DerivedComputedFields<T>,
) -> (thermo: Option<SurfaceThermoOutputs<T>>)
    requires
        kernel_runs::usable(rules),
        compute::computed_by(context, recipes, rules, computed),
    ensures
        thermo matches Some(thermo) ==> kernel_runs::asked(
            rules.run,
            context.nx,
            context.ny,
            KernelWork::Surface { surface: context.surface },
            Ok::<KernelAnswer<T>, String>(KernelAnswer::SurfaceThermo(thermo)),
        ),
        match computed.slot(DerivedRecipe::ThetaE2m10mWinds) {
            Some(values) => thermo is Some && values == thermo->Some_0.theta_e_2m_k,
            None => thermo is None || !recipes.contains(DerivedRecipe::ThetaE2m10mWinds),
        },
        match computed.slot(DerivedRecipe::Vpd2m) {
            Some(values) => thermo is Some && values == thermo->Some_0.vpd_2m_hpa,
            None => thermo is None || !recipes.contains(DerivedRecipe::Vpd2m),
        },
        match computed.slot(DerivedRecipe::DewpointDepression2m) {
            Some(values) => thermo is Some && values == thermo->Some_0.dewpoint_depression_2m_c,
            None => thermo is None || !recipes.contains(DerivedRecipe::DewpointDepression2m),
        },
        match computed.slot(DerivedRecipe::Wetbulb2m) {
            Some(values) => thermo is Some && values == thermo->Some_0.wetbulb_2m_c,
            None => thermo is None || !recipes.contains(DerivedRecipe::Wetbulb2m),
        },
        match computed.slot(DerivedRecipe::FireWeatherComposite) {
            Some(values) => thermo is Some && values == thermo->Some_0.fire_weather_composite,
            None => thermo is None || !recipes.contains(DerivedRecipe::FireWeatherComposite),
        },
        match computed.slot(DerivedRecipe::ApparentTemperature2m) {
            Some(values) => thermo is Some && values == thermo->Some_0.apparent_temperature_2m_c,
            None => thermo is None || !recipes.contains(DerivedRecipe::ApparentTemperature2m),
        },
        match computed.slot(DerivedRecipe::HeatIndex2m) {
            Some(values) => thermo is Some && values == thermo->Some_0.heat_index_2m_c,
            None => thermo is None || !recipes.contains(DerivedRecipe::HeatIndex2m),
        },
        match computed.slot(DerivedRecipe::WindChill2m) {
            Some(values) => thermo is Some && values == thermo->Some_0.wind_chill_2m_c,
            None => thermo is None || !recipes.contains(DerivedRecipe::WindChill2m),
        },
        computed.surface_u10_ms matches Some(u) ==> u@ == context.surface.u10_ms@,
        computed.surface_v10_ms matches Some(v) ==> v@ == context.surface.v10_ms@,
        (computed.surface_u10_ms is Some) == (computed.slot(DerivedRecipe::ThetaE2m10mWinds)
            is Some),
        (computed.surface_v10_ms is Some) == (computed.slot(DerivedRecipe::ThetaE2m10mWinds)
            is Some),
{
    let needs = requirements::need_of_all(recipes);
    let (parcels, thermo, winds, composites) = choose|
        parcels: Seq<KernelAnswer<T>>,
        thermo: Seq<KernelAnswer<T>>,
        winds: Seq<KernelAnswer<T>>,
        composites: Seq<KernelAnswer<T>>,
    |
        #[trigger] compute::all_ran(context, needs, rules, parcels, thermo, winds, composites)
            && assemble::assembled(
            computed,
            recipes,
            (context.surface.u10_ms@, context.surface.v10_ms@),
            compute::parcels_of(needs, parcels),
            compute::independent_of(needs, thermo, winds),
            kernel_runs::folded(compute::composite_list(needs), composites).composites,
            rules.to_knots,
        );
    let list = compute::thermodynamic_list(needs);
    let outputs = kernel_runs::folded(list, thermo).independent;
    if outputs.surface_thermo is Some {
        let i = lemma_surface_came_from(list, thermo);
        assert(list.contains(list[i]));
        kernels::law_running_kernels_are_the_needed_ones(
            kernels::thermodynamic_order(),
            needs,
            list[i],
        );
        assert(kernel_runs::answered(
            context,
            list[i],
            kernel_runs::spacing_of(thermo.take(i)),
            rules,
            Ok::<KernelAnswer<T>, String>(thermo[i]),
        ));
        if list[i].reads_volume() {
            let volume = kernel_runs::volume_of(context)->Ok_0;
            assert(kernel_runs::in_kind(
                KernelWork::Thermodynamic { kernel: list[i], volume, surface: context.surface },
                thermo[i],
            ));
        }
        assert(list[i] is SurfaceThermo);
    }
    outputs.surface_thermo
}

/// Whether a composite was computed from some inputs.
pub open spec fn combined_from<
    T,
    K: for<'a> Fn(KernelCall<'a, T>) -> Result<KernelAnswer<T>, String>,
    A: Fn(T, T) -> T,
    R: Fn(T, T) -> T,
    C: Fn(T) -> T,
    N: Fn(T) -> T,
    L: Fn(T, u64) -> bool,
    X: Fn(T, T, u64) -> bool,
    B: Fn(T, T, T, T, u64) -> T,
    GD: Fn(T, T, T, T) -> T,
    GU: Fn(T) -> bool,
    GS: Fn(T, T) -> T,
    GM: Fn(T, usize) -> T,
    GW: Fn(LengthMismatch) -> String,
>(
    context: KernelContext<T>,
    rules: ComputeRules<T, K, A, R, C, N, L, X, B, GD, GU, GS, GM, GW>,
    kernel: DerivedKernel,
    inputs: CompositeInputs<T>,
    values: Vec<T>,
) -> bool {
    kernel_runs::asked(
        rules.run,
        context.nx,
        context.ny,
        KernelWork::Composite { kernel, inputs },
        Ok::<KernelAnswer<T>, String>(KernelAnswer::Field(values)),
    )
}

/// The composites of a computation are computed from fields that it publishes: the
/// supercell composite from MUCAPE, the 0-3 km helicity and the 0-6 km shear, the tornado
/// composite from SBCAPE, SBLCL, the 0-1 km helicity and the 0-6 km shear, and an
/// energy-helicity index from SBCAPE and the helicity of its own layer.
pub proof fn law_composites_are_computed_from_published_fields<
    T,
    K: for<'a> Fn(KernelCall<'a, T>) -> Result<KernelAnswer<T>, String>,
    A: Fn(T, T) -> T,
    R: Fn(T, T) -> T,
    C: Fn(T) -> T,
    N: Fn(T) -> T,
    L: Fn(T, u64) -> bool,
    X: Fn(T, T, u64) -> bool,
    B: Fn(T, T, T, T, u64) -> T,
    GD: Fn(T, T, T, T) -> T,
    GU: Fn(T) -> bool,
    GS: Fn(T, T) -> T,
    GM: Fn(T, usize) -> T,
    GW: Fn(LengthMismatch) -> String,
>(
    context: KernelContext<T>,
    recipes: Seq<DerivedRecipe>,
    rules: ComputeRules<T, K, A, R, C, N, L, X, B, GD, GU, GS, GM, GW>,
    computed: DerivedComputedFields<T>,
)
    requires
        compute::computed_by(context, recipes, rules, computed),
    ensures
        computed.slot(DerivedRecipe::ScpMu03km06kmProxy) matches Some(values) ==> exists|
            inputs: CompositeInputs<T>,
        |
            #[trigger] combined_from(
                context,
                rules,
                DerivedKernel::ScpMu03km06kmProxy,
                inputs,
                values,
            ) && computed.slot(DerivedRecipe::Mucape) == Some(*inputs.cape_jkg) && computed.slot(
                DerivedRecipe::Srh03km,
            ) == Some(*inputs.srh_m2s2) && inputs.lcl_m is None && inputs.shear_ms is Some
                && assemble::shown_in_knots(
                *inputs.shear_ms->Some_0,
                computed.slot(DerivedRecipe::BulkShear06km),
                rules.to_knots,
            ),
        computed.slot(DerivedRecipe::StpFixed) matches Some(values) ==> exists|
            inputs: CompositeInputs<T>,
        |
            #[trigger] combined_from(context, rules, DerivedKernel::StpFixed, inputs, values)
                && computed.slot(DerivedRecipe::Sbcape) == Some(*inputs.cape_jkg)
                && inputs.lcl_m is Some && computed.slot(DerivedRecipe::Sblcl) == Some(
                *inputs.lcl_m->Some_0,
            ) && computed.slot(DerivedRecipe::Srh01km) == Some(*inputs.srh_m2s2)
                && inputs.shear_ms is Some && assemble::shown_in_knots(
                *inputs.shear_ms->Some_0,
                computed.slot(DerivedRecipe::BulkShear06km),
                rules.to_knots,
            ),
        computed.slot(DerivedRecipe::Ehi01km) matches Some(values) ==> exists|
            inputs: CompositeInputs<T>,
        |
            #[trigger] combined_from(context, rules, DerivedKernel::Ehi01km, inputs, values)
                && computed.slot(DerivedRecipe::Sbcape) == Some(*inputs.cape_jkg)
                && computed.slot(DerivedRecipe::Srh01km) == Some(*inputs.srh_m2s2)
                && inputs.lcl_m is None && inputs.shear_ms is None,
        computed.slot(DerivedRecipe::Ehi03km) matches Some(values) ==> exists|
            inputs: CompositeInputs<T>,
        |
            #[trigger] combined_from(context, rules, DerivedKernel::Ehi03km, inputs, values)
                && computed.slot(DerivedRecipe::Sbcape) == Some(*inputs.cape_jkg)
                && computed.slot(DerivedRecipe::Srh03km) == Some(*inputs.srh_m2s2)
                && inputs.lcl_m is None && inputs.shear_ms is None,
{
    let needs = requirements::need_of_all(recipes);
    let (parcels, thermo, winds, composites) = choose|
        parcels: Seq<KernelAnswer<T>>,
        thermo: Seq<KernelAnswer<T>>,
        winds: Seq<KernelAnswer<T>>,
        composites: Seq<KernelAnswer<T>>,
    |
        #[trigger] compute::all_ran(context, needs, rules, parcels, thermo, winds, composites)
            && assemble::assembled(
            computed,
            recipes,
            (context.surface.u10_ms@, context.surface.v10_ms@),
            compute::parcels_of(needs, parcels),
            compute::independent_of(needs, thermo, winds),
            kernel_runs::folded(compute::composite_list(needs), composites).composites,
            rules.to_knots,
        );
    let list = compute::composite_list(needs);
    let folded = kernel_runs::folded(list, composites);
    let parcel_outputs = compute::parcels_of(needs, parcels);
    let independent = compute::independent_of(needs, thermo, winds);
    assert forall|kernel: DerivedKernel|
        kernel.is_composite() && (#[trigger] field_of(folded, kernel)) is Some implies exists|
        inputs: CompositeInputs<T>,
    |
        #[trigger] combined_from(context, rules, kernel, inputs, field_of(folded, kernel)->Some_0)
            && assemble::inputs_of(kernel, inputs, parcel_outputs, independent)
            && assemble::composite_gap(kernel, parcel_outputs, independent) is None by {
        let i = lemma_field_came_from(list, composites, kernel);
        assert(kernel_runs::combined(
            rules.run,
            context.nx,
            context.ny,
            list[i],
            parcel_outputs,
            independent,
            Ok::<KernelAnswer<T>, String>(composites[i]),
        ));
        let inputs = choose|inputs: CompositeInputs<T>|
            #[trigger] assemble::inputs_of(kernel, inputs, parcel_outputs, independent)
                && kernel_runs::asked(
                rules.run,
                context.nx,
                context.ny,
                KernelWork::Composite { kernel, inputs },
                Ok::<KernelAnswer<T>, String>(composites[i]),
            );
        assert(combined_from(context, rules, kernel, inputs, field_of(folded, kernel)->Some_0));
    }
    assert forall|kernel: DerivedKernel, inputs: CompositeInputs<T>|
        kernel.is_composite() && #[trigger] assemble::inputs_of(
            kernel,
            inputs,
            parcel_outputs,
            independent,
        ) && assemble::composite_gap(kernel, parcel_outputs, independent) is None implies {
        &&& kernel is ScpMu03km06kmProxy ==> computed.slot(DerivedRecipe::Mucape) == Some(
            *inputs.cape_jkg,
        )
        &&& !(kernel is ScpMu03km06kmProxy) ==> computed.slot(DerivedRecipe::Sbcape) == Some(
            *inputs.cape_jkg,
        )
    } by {
        assemble::law_composites_combine_published_fields(
            computed,
            recipes,
            (context.surface.u10_ms@, context.surface.v10_ms@),
            parcel_outputs,
            independent,
            folded.composites,
            rules.to_knots,
            kernel,
            inputs,
        );
    }
    assert(field_of(folded, DerivedKernel::ScpMu03km06kmProxy)
        == folded.composites.scp_mu_03km_06km_proxy);
    assert(field_of(folded, DerivedKernel::StpFixed) == folded.composites.stp_fixed);
    assert(field_of(folded, DerivedKernel::Ehi01km) == folded.composites.ehi_01km);
    assert(field_of(folded, DerivedKernel::Ehi03km) == folded.composites.ehi_03km);
}

/// A computation from a pair of analyses hands each kernel the fields of the analyses that
/// go by the name of its input.
pub proof fn law_kernels_are_handed_the_analyses<
    P,
    T,
    K: for<'a> Fn(KernelCall<'a, T>) -> Result<KernelAnswer<T>, String>,
    A: Fn(T, T) -> T,
    R: Fn(T, T) -> T,
    C: Fn(T) -> T,
    N: Fn(T) -> T,
    L: Fn(T, u64) -> bool,
    X: Fn(T, T, u64) -> bool,
    B: Fn(T, T, T, T, u64) -> T,
    GD: Fn(T, T, T, T) -> T,
    GU: Fn(T) -> bool,
    GS: Fn(T, T) -> T,
    GM: Fn(T, usize) -> T,
    GW: Fn(LengthMismatch) -> String,
>(
    surface: SurfaceFields<T, P>,
    pressure: PressureFields<T>,
    recipes: Seq<DerivedRecipe>,
    height_given: Option<&Vec<T>>,
    rules: ComputeRules<T, K, A, R, C, N, L, X, B, GD, GU, GS, GM, GW>,
    computed: DerivedComputedFields<T>,
)
    requires
        compute::computes(
            surface,
            pressure,
            recipes,
            height_given,
            rules,
            Ok::<DerivedComputedFields<T>, String>(computed),
        ),
    ensures
        exists|context: KernelContext<T>|
            {
                &&& #[trigger] compute::computed_by(context, recipes, rules, computed)
                &&& context.nx == surface.nx
                &&& context.ny == surface.ny
                &&& context.surface.psfc_pa@ == surface.psfc_pa@
                &&& context.surface.t2_k@ == surface.t2_k@
                &&& context.surface.q2_kgkg@ == surface.q2_kgkg@
                &&& context.surface.u10_ms@ == surface.u10_ms@
                &&& context.surface.v10_ms@ == surface.v10_ms@
                &&& context.lat@ == surface.lat@
                &&& context.lon@ == surface.lon@
                &&& context.levels_hpa@ == pressure.pressure_levels_hpa@
                &&& context.temperature_c@ == pressure.temperature_c_3d@
                &&& context.qvapor_kgkg@ == pressure.qvapor_kgkg_3d@
                &&& context.u_ms@ == pressure.u_ms_3d@
                &&& context.v_ms@ == pressure.v_ms_3d@
                &&& context.volume_u_ms@ == pressure.u_ms_3d@
                &&& context.volume_v_ms@ == pressure.v_ms_3d@
                &&& context.pressure_3d_pa is Some <==> pressure.pressure_3d_pa is Some
                &&& context.pressure_3d_pa matches Some(volume) ==> volume@
                    == pressure.pressure_3d_pa->Some_0@
                &&& context.nz matches Some(nz) ==> nz == pressure.pressure_levels_hpa@.len()
                    as usize
                &&& context.pressure_pa matches Some(prepared) ==> {
                    ||| pressure.pressure_3d_pa matches Some(volume) && prepared@ == volume@
                    ||| pressure.pressure_3d_pa is None && prepared@.len()
                        == pressure.pressure_levels_hpa@.len() && forall|i: int|
                        0 <= i < prepared@.len() ==> call_ensures(
                            rules.to_pa,
                            (pressure.pressure_levels_hpa@[i],),
                            #[trigger] prepared@[i],
                        )
                }
                &&& context.height_agl_m matches Some(heights) ==> height_given == Some(heights)
                    || heavy_volume::heights_over(
                    heights@,
                    pressure.gh_m_3d@,
                    surface.orog_m@,
                    surface.nx * surface.ny,
                    pressure.pressure_levels_hpa@.len() as int,
                    rules.above,
                    rules.raise,
                )
            },
{
    let needs = requirements::need_of_all(recipes);
    let context = choose|context: KernelContext<T>|
        {
            &&& #[trigger] compute::reads(
                context,
                surface,
                pressure,
                pressure.u_ms_3d,
                pressure.v_ms_3d,
                needs,
                height_given,
                rules,
            )
            &&& *context.volume_u_ms == pressure.u_ms_3d
            &&& *context.volume_v_ms == pressure.v_ms_3d
            &&& compute::outcome(
                context,
                compute::generic_phases(needs),
                recipes,
                rules,
                Ok::<DerivedComputedFields<T>, String>(computed),
            )
        };
    assert(compute::computed_by(context, recipes, rules, computed));
}

} // verus!
