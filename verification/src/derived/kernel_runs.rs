//! Running the kernels of the derived fields: what each is handed, what it answers,
//! and the fields that the answers fold into.
//!
//! The kernels themselves, and the arithmetic on single values, come as functions.
use crate::derived::assemble;
use crate::derived::assemble::{
    composite_inputs, CapeCinOutputs, CompositeInputs, CompositeOutputs, IndependentOutputs,
    ParcelOutputs, SurfaceThermoOutputs,
};
use crate::derived::kernels;
use crate::derived::kernels::{missing_dependency, DerivedKernel};
use crate::derived::levels;
use crate::derived::levels::{
    advection_planes, pressure_level_slice_or_interp, LengthMismatch, LevelRules,
};
use crate::gridded::spacing;
use crate::gridded::spacing::{estimate_grid_spacing_m, SpacingRules};
use vstd::prelude::*;

verus! {

/// The surface fields that kernels read.
pub struct SurfaceInputs<'a, T> {
    pub psfc_pa: &'a Vec<T>,
    pub t2_k: &'a Vec<T>,
    pub q2_kgkg: &'a Vec<T>,
    pub u10_ms: &'a Vec<T>,
    pub v10_ms: &'a Vec<T>,
}

impl<'a, T> SurfaceInputs<'a, T> {
    fn again(&self) -> (same: Self)
        ensures
            same == *self,
    {
        SurfaceInputs {
            psfc_pa: self.psfc_pa,
            t2_k: self.t2_k,
            q2_kgkg: self.q2_kgkg,
            u10_ms: self.u10_ms,
            v10_ms: self.v10_ms,
        }
    }
}

/// The volumes that thermodynamic kernels read.
pub struct VolumeInputs<'a, T> {
    pub pressure_pa: &'a Vec<T>,
    pub temperature_c: &'a Vec<T>,
    pub qvapor_kgkg: &'a Vec<T>,
    pub height_agl_m: &'a Vec<T>,
    pub u_ms: &'a Vec<T>,
    pub v_ms: &'a Vec<T>,
    pub nz: usize,
}

/// The volumes that wind kernels read.
pub struct WindGridInputs<'a, T> {
    pub nz: usize,
    pub u_3d_ms: &'a Vec<T>,
    pub v_3d_ms: &'a Vec<T>,
    pub height_agl_3d_m: &'a Vec<T>,
}

/// What a kernel is asked to do.
pub enum KernelWork<'a, T> {
    /// Accept the grid.
    Grid,
    /// Accept a number of levels over the grid.
    Levels { nz: usize },
    /// Compute from the volumes and the surface.
    Thermodynamic {
        kernel: DerivedKernel,
        volume: VolumeInputs<'a, T>,
        surface: SurfaceInputs<'a, T>,
    },
    /// Compute from the surface.
    Surface { surface: SurfaceInputs<'a, T> },
    /// Compute from the winds over the height; the latitude tells the hemisphere.
    Wind { kernel: DerivedKernel, wind: WindGridInputs<'a, T>, lat: &'a Vec<T> },
    /// Compute a temperature advection, in degrees per hour.
    Advection {
        kernel: DerivedKernel,
        temperature_c: &'a Vec<T>,
        u_ms: &'a Vec<T>,
        v_ms: &'a Vec<T>,
        dx_m: T,
        dy_m: T,
    },
    /// Combine fields of other kernels.
    Composite { kernel: DerivedKernel, inputs: CompositeInputs<'a, T> },
}

/// A kernel call: the grid and the work.
pub struct KernelCall<'a, T> {
    pub nx: usize,
    pub ny: usize,
    pub work: KernelWork<'a, T>,
}

/// What a kernel answers.
pub enum KernelAnswer<T> {
    Accepted,
    Triplet { sb: CapeCinOutputs<T>, ml: CapeCinOutputs<T>, mu: CapeCinOutputs<T> },
    Parcel(CapeCinOutputs<T>),
    SurfaceThermo(SurfaceThermoOutputs<T>),
    Field(Vec<T>),
    Spacing { dx_m: T, dy_m: T },
}

/// Whether an answer is of the kind that the work calls for.
pub open spec fn in_kind<T>(work: KernelWork<T>, answer: KernelAnswer<T>) -> bool {
    match work {
        KernelWork::Grid => answer is Accepted,
        KernelWork::Levels { .. } => answer is Accepted,
        KernelWork::Thermodynamic { kernel, .. } => match kernel {
            DerivedKernel::CapeCinTriplet => answer is Triplet,
            DerivedKernel::SbcapeCin
            | DerivedKernel::MlcapeCin
            | DerivedKernel::MucapeCin => answer is Parcel,
            _ => answer is Field,
        },
        KernelWork::Surface { .. } => answer is SurfaceThermo,
        KernelWork::Wind { .. } => answer is Field,
        KernelWork::Advection { .. } => answer is Field,
        KernelWork::Composite { .. } => answer is Field,
    }
}

/// The kernels and the arithmetic on single values.
pub struct ComputeRules<T, K, A, R, C, N, L, X, B, GD, GU, GS, GM, GW> {
    /// Runs a kernel.
    pub run: K,
    /// A height over the orography under it.
    pub above: A,
    /// A height, raised over the one below it.
    pub raise: R,
    /// A level in hPa, in Pa.
    pub to_pa: C,
    /// A speed in m/s, in knots.
    pub to_knots: N,
    /// How planes at one pressure are had.
    pub levels: LevelRules<T, L, X, B>,
    /// How the distances of neighbouring cells are measured.
    pub spacing: SpacingRules<T, GD, GU, GS, GM>,
    /// How a length that is not the expected one is put into words.
    pub wording: GW,
}

/// Whether the rules can be called on all values, and the kernels answer in kind.
pub open spec fn usable<
    T,
    K: for<'a> Fn(KernelCall<'a, T>) -> Result<KernelAnswer<T>, String>,
    A: Fn(T, T) -> T,
    R: Fn(T, T) -> T,
    C: Fn(T) -> T,
    N: Fn(T) -> T,
    L: Fn(T, u64) -> bool,
    X: Fn(T, T, u64) -> bool,
    B: Fn(T, T, T, T, u64) -> T,
    GD: Fn(T, T, T, T) -> T,
    GU: Fn(T) -> bool,
    GS: Fn(T, T) -> T,
    GM: Fn(T, usize) -> T,
    GW: Fn(LengthMismatch) -> String,
>(rules: ComputeRules<T, K, A, R, C, N, L, X, B, GD, GU, GS, GM, GW>) -> bool {
    &&& forall|call: KernelCall<T>| #[trigger] call_requires(rules.run, (call,))
    &&& forall|call: KernelCall<T>, answer: KernelAnswer<T>|
        #[trigger] call_ensures(rules.run, (call,), Ok::<KernelAnswer<T>, String>(answer))
            ==> in_kind(call.work, answer)
    &&& forall|a: T, b: T| #[trigger] call_requires(rules.above, (a, b))
    &&& forall|a: T, b: T| #[trigger] call_requires(rules.raise, (a, b))
    &&& forall|a: T| #[trigger] call_requires(rules.to_pa, (a,))
    &&& forall|a: T| #[trigger] call_requires(rules.to_knots, (a,))
    &&& forall|a: T, target: u64| #[trigger] call_requires(rules.levels.at_level, (a, target))
    &&& forall|a: T, b: T, target: u64|
        #[trigger] call_requires(rules.levels.crosses, (a, b, target))
    &&& forall|a: T, b: T, p: T, q: T, target: u64|
        #[trigger] call_requires(rules.levels.between, (a, b, p, q, target))
    &&& spacing::measurable(rules.spacing)
    &&& forall|mismatch: LengthMismatch| #[trigger] call_requires(rules.wording, (mismatch,))
}

/// Everything that the kernels of a computation read. The thermodynamic kernels
/// are handed wind volumes of their own.
pub struct KernelContext<'a, T> {
    pub nx: usize,
    pub ny: usize,
    pub surface: SurfaceInputs<'a, T>,
    pub lat: &'a Vec<T>,
    pub lon: &'a Vec<T>,
    pub levels_hpa: &'a Vec<T>,
    pub pressure_3d_pa: Option<&'a Vec<T>>,
    pub temperature_c: &'a Vec<T>,
    pub qvapor_kgkg: &'a Vec<T>,
    pub u_ms: &'a Vec<T>,
    pub v_ms: &'a Vec<T>,
    pub volume_u_ms: &'a Vec<T>,
    pub volume_v_ms: &'a Vec<T>,
    pub pressure_pa: Option<&'a Vec<T>>,
    pub height_agl_m: Option<&'a Vec<T>>,
    pub nz: Option<usize>,
}

/// Whether a kernel, asked to do some work, answers with a result.
pub open spec fn asked<
    T,
    K: for<'a> Fn(KernelCall<'a, T>) -> Result<KernelAnswer<T>, String>,
>(run: K, nx: usize, ny: usize, work: KernelWork<T>, result: Result<KernelAnswer<T>, String>) -> bool {
    call_ensures(run, (KernelCall { nx, ny, work },), result)
}

/// The volumes of a thermodynamic kernel, or what is first missing of them.
pub open spec fn volume_of<'a, T>(context: KernelContext<'a, T>) -> Result<
    VolumeInputs<'a, T>,
    Seq<char>,
> {
    match (context.pressure_pa, context.height_agl_m, context.nz) {
        (None, _, _) => Err("pressure volume for derived thermodynamics"@),
        (_, None, _) => Err("height_agl for derived thermodynamics"@),
        (_, _, None) => Err("volume shape for derived thermodynamics"@),
        (Some(pressure_pa), Some(height_agl_m), Some(nz)) => Ok(
            VolumeInputs {
                pressure_pa,
                temperature_c: context.temperature_c,
                qvapor_kgkg: context.qvapor_kgkg,
                height_agl_m,
                u_ms: context.volume_u_ms,
                v_ms: context.volume_v_ms,
                nz,
            },
        ),
    }
}

/// The volumes of a wind kernel, or what is first missing of them.
pub open spec fn wind_of<'a, T>(context: KernelContext<'a, T>) -> Result<
    WindGridInputs<'a, T>,
    Seq<char>,
> {
    match (context.nz, context.height_agl_m) {
        (None, _) => Err("volume shape for wind diagnostics"@),
        (_, None) => Err("height_agl for wind diagnostics"@),
        (Some(nz), Some(height_agl_3d_m)) => Ok(
            WindGridInputs {
                nz,
                u_3d_ms: context.u_ms,
                v_3d_ms: context.v_ms,
                height_agl_3d_m,
            },
        ),
    }
}

/// The level of a temperature advection, in hPa.
pub open spec fn advection_level(kernel: DerivedKernel) -> u64 {
    if kernel == DerivedKernel::TemperatureAdvection700mb {
        700
    } else {
        850
    }
}

/// The planes that a temperature advection is computed from.
pub struct AdvectionPlanes<T> {
    pub temperature_c: Option<Vec<T>>,
    pub u_ms: Option<Vec<T>>,
    pub v_ms: Option<Vec<T>>,
}

/// Whether planes are those of the temperature and the winds at a level.
pub open spec fn planes_at<
    T,
    L: Fn(T, u64) -> bool,
    X: Fn(T, T, u64) -> bool,
    B: Fn(T, T, T, T, u64) -> T,
>(
    context: KernelContext<T>,
    level_hpa: u64,
    rules: LevelRules<T, L, X, B>,
    planes: AdvectionPlanes<T>,
) -> bool {
    let pressures = match context.pressure_3d_pa {
        Some(pressures) => Some(pressures@),
        None => None,
    };
    let nxy = context.nx * context.ny;
    &&& levels::is_plane_at(
        context.temperature_c@,
        context.levels_hpa@,
        pressures,
        level_hpa,
        nxy,
        rules,
        levels::optional_plane(planes.temperature_c),
    )
    &&& levels::is_plane_at(
        context.u_ms@,
        context.levels_hpa@,
        pressures,
        level_hpa,
        nxy,
        rules,
        levels::optional_plane(planes.u_ms),
    )
    &&& levels::is_plane_at(
        context.v_ms@,
        context.levels_hpa@,
        pressures,
        level_hpa,
        nxy,
        rules,
        levels::optional_plane(planes.v_ms),
    )
}

/// The message for the first plane that is missing.
pub open spec fn plane_gap<T>(level_hpa: u64, planes: AdvectionPlanes<T>) -> Option<Seq<char>> {
    if planes.temperature_c is None {
        Some(levels::missing_plane(level_hpa, "temperature"@))
    } else if planes.u_ms is None {
        Some(levels::missing_plane(level_hpa, "u-wind"@))
    } else if planes.v_ms is None {
        Some(levels::missing_plane(level_hpa, "v-wind"@))
    } else {
        None
    }
}

/// Whether a temperature advection has a result: that of its kernel, handed the
/// planes at its level, or a failure that names the plane that is missing.
pub open spec fn advected<
    T,
    K: for<'a> Fn(KernelCall<'a, T>) -> Result<KernelAnswer<T>, String>,
    L: Fn(T, u64) -> bool,
    X: Fn(T, T, u64) -> bool,
    B: Fn(T, T, T, T, u64) -> T,
>(
    context: KernelContext<T>,
    kernel: DerivedKernel,
    spacing: Option<(T, T)>,
    run: K,
    rules: LevelRules<T, L, X, B>,
    result: Result<KernelAnswer<T>, String>,
) -> bool {
    let level = advection_level(kernel);
    exists|planes: AdvectionPlanes<T>|
        #[trigger] planes_at(context, level, rules, planes) && match plane_gap(level, planes) {
            Some(message) => result is Err && result->Err_0@ == message,
            None => spacing is Some && asked(
                run,
                context.nx,
                context.ny,
                KernelWork::Advection {
                    kernel,
                    temperature_c: &planes.temperature_c->Some_0,
                    u_ms: &planes.u_ms->Some_0,
                    v_ms: &planes.v_ms->Some_0,
                    dx_m: spacing->Some_0.0,
                    dy_m: spacing->Some_0.1,
                },
                result,
            ),
        }
}

/// Whether the distances of neighbouring cells are estimated, or a grid that is too
/// small, or that has no distance that counts, is refused in words.
pub open spec fn spaced<
    T,
    GD: Fn(T, T, T, T) -> T,
    GU: Fn(T) -> bool,
    GS: Fn(T, T) -> T,
    GM: Fn(T, usize) -> T,
    GW: Fn(LengthMismatch) -> String,
>(
    context: KernelContext<T>,
    rules: SpacingRules<T, GD, GU, GS, GM>,
    wording: GW,
    result: Result<KernelAnswer<T>, String>,
) -> bool {
    exists|found: Result<(T, T), LengthMismatch>|
        #[trigger] spacing::is_spacing(
            context.nx,
            context.ny,
            context.lat@,
            context.lon@,
            rules,
            found,
        ) && match (found, result) {
            (Ok(found), Ok(answer)) => answer == (KernelAnswer::Spacing {
                dx_m: found.0,
                dy_m: found.1,
            }),
            (Err(mismatch), Err(message)) => call_ensures(wording, (mismatch,), message),
            _ => false,
        }
}

/// Distances are read off the grid and its positions alone.
pub proof fn lemma_spaced_by_positions<
    T,
    GD: Fn(T, T, T, T) -> T,
    GU: Fn(T) -> bool,
    GS: Fn(T, T) -> T,
    GM: Fn(T, usize) -> T,
    GW: Fn(LengthMismatch) -> String,
>(
    a: KernelContext<T>,
    b: KernelContext<T>,
    rules: SpacingRules<T, GD, GU, GS, GM>,
    wording: GW,
    result: Result<KernelAnswer<T>, String>,
)
    requires
        a.nx == b.nx,
        a.ny == b.ny,
        a.lat@ == b.lat@,
        a.lon@ == b.lon@,
        spaced(a, rules, wording, result),
    ensures
        spaced(b, rules, wording, result),
{
    let m = choose|found: Result<(T, T), LengthMismatch>|
        #[trigger] spacing::is_spacing(a.nx, a.ny, a.lat@, a.lon@, rules, found) && match (
            found,
            result,
        ) {
            (Ok(found), Ok(answer)) => answer == (KernelAnswer::Spacing {
                dx_m: found.0,
                dy_m: found.1,
            }),
            (Err(mismatch), Err(message)) => call_ensures(wording, (mismatch,), message),
            _ => false,
        };
    assert(spacing::is_spacing(b.nx, b.ny, b.lat@, b.lon@, rules, m));
}

/// Whether each cell has a position, on a grid that is large enough to have distances.
pub open spec fn positioned<T>(nx: usize, ny: usize, lat: Seq<T>, lon: Seq<T>) -> bool {
    nx >= 2 && ny >= 2 ==> nx * ny <= lat.len() && nx * ny <= lon.len()
}

/// Whether a kernel that is no composite has a result. A kernel that misses an
/// input fails without being asked.
pub open spec fn answered<
    T,
    K: for<'a> Fn(KernelCall<'a, T>) -> Result<KernelAnswer<T>, String>,
    A: Fn(T, T) -> T,
    R: Fn(T, T) -> T,
    C: Fn(T) -> T,
    N: Fn(T) -> T,
    L: Fn(T, u64) -> bool,
    X: Fn(T, T, u64) -> bool,
    B: Fn(T, T, T, T, u64) -> T,
    GD: Fn(T, T, T, T) -> T,
    GU: Fn(T) -> bool,
    GS: Fn(T, T) -> T,
    GM: Fn(T, usize) -> T,
    GW: Fn(LengthMismatch) -> String,
>(
    context: KernelContext<T>,
    kernel: DerivedKernel,
    spacing: Option<(T, T)>,
    rules: ComputeRules<T, K, A, R, C, N, L, X, B, GD, GU, GS, GM, GW>,
    result: Result<KernelAnswer<T>, String>,
) -> bool {
    if kernel.reads_volume() {
        match volume_of(context) {
            Err(name) => result is Err && result->Err_0@ == kernels::missing_message(name),
            Ok(volume) => asked(
                rules.run,
                context.nx,
                context.ny,
                KernelWork::Thermodynamic { kernel, volume, surface: context.surface },
                result,
            ),
        }
    } else if kernel.reads_wind_profile() {
        match wind_of(context) {
            Err(name) => result is Err && result->Err_0@ == kernels::missing_message(name),
            Ok(wind) => asked(
                rules.run,
                context.nx,
                context.ny,
                KernelWork::Wind { kernel, wind, lat: context.lat },
                result,
            ),
        }
    } else if kernel == DerivedKernel::SurfaceThermo {
        asked(
            rules.run,
            context.nx,
            context.ny,
            KernelWork::Surface { surface: context.surface },
            result,
        )
    } else if kernel == DerivedKernel::GridSpacing {
        spaced(context, rules.spacing, rules.wording, result)
    } else {
        advected(context, kernel, spacing, rules.run, rules.levels, result)
    }
}

/// The grid spacing among some answers.
pub open spec fn spacing_of<T>(answers: Seq<KernelAnswer<T>>) -> Option<(T, T)>
    decreases answers.len(),
{
    if answers.len() == 0 {
        None
    } else {
        match answers.last() {
            KernelAnswer::Spacing { dx_m, dy_m } => Some((dx_m, dy_m)),
            _ => spacing_of(answers.drop_last()),
        }
    }
}

/// Whether the kernels of a list have answered one after the other.
pub open spec fn ran<
    T,
    K: for<'a> Fn(KernelCall<'a, T>) -> Result<KernelAnswer<T>, String>,
    A: Fn(T, T) -> T,
    R: Fn(T, T) -> T,
    C: Fn(T) -> T,
    N: Fn(T) -> T,
    L: Fn(T, u64) -> bool,
    X: Fn(T, T, u64) -> bool,
    B: Fn(T, T, T, T, u64) -> T,
    GD: Fn(T, T, T, T) -> T,
    GU: Fn(T) -> bool,
    GS: Fn(T, T) -> T,
    GM: Fn(T, usize) -> T,
    GW: Fn(LengthMismatch) -> String,
>(
    context: KernelContext<T>,
    list: Seq<DerivedKernel>,
    rules: ComputeRules<T, K, A, R, C, N, L, X, B, GD, GU, GS, GM, GW>,
    answers: Seq<KernelAnswer<T>>,
) -> bool {
    &&& answers.len() == list.len()
    &&& forall|i: int|
        0 <= i < list.len() ==> answered(
            context,
            list[i],
            spacing_of(answers.take(i)),
            rules,
            Ok::<KernelAnswer<T>, String>(#[trigger] answers[i]),
        )
}

/// Whether the kernels of a list ran up to one that failed.
pub open spec fn stopped<
    T,
    K: for<'a> Fn(KernelCall<'a, T>) -> Result<KernelAnswer<T>, String>,
    A: Fn(T, T) -> T,
    R: Fn(T, T) -> T,
    C: Fn(T) -> T,
    N: Fn(T) -> T,
    L: Fn(T, u64) -> bool,
    X: Fn(T, T, u64) -> bool,
    B: Fn(T, T, T, T, u64) -> T,
    GD: Fn(T, T, T, T) -> T,
    GU: Fn(T) -> bool,
    GS: Fn(T, T) -> T,
    GM: Fn(T, usize) -> T,
    GW: Fn(LengthMismatch) -> String,
>(
    context: KernelContext<T>,
    list: Seq<DerivedKernel>,
    rules: ComputeRules<T, K, A, R, C, N, L, X, B, GD, GU, GS, GM, GW>,
    message: String,
) -> bool {
    exists|done: Seq<KernelAnswer<T>>|
        {
            &&& done.len() < list.len()
            &&& #[trigger] ran(context, list.take(done.len() as int), rules, done)
            &&& answered(
                context,
                list[done.len() as int],
                spacing_of(done),
                rules,
                Err::<KernelAnswer<T>, String>(message),
            )
        }
}

/// Whether the kernels of a list have answered, or stopped at one that failed.
pub open spec fn ended<
    T,
    K: for<'a> Fn(KernelCall<'a, T>) -> Result<KernelAnswer<T>, String>,
    A: Fn(T, T) -> T,
    R: Fn(T, T) -> T,
    C: Fn(T) -> T,
    N: Fn(T) -> T,
    L: Fn(T, u64) -> bool,
    X: Fn(T, T, u64) -> bool,
    B: Fn(T, T, T, T, u64) -> T,
    GD: Fn(T, T, T, T) -> T,
    GU: Fn(T) -> bool,
    GS: Fn(T, T) -> T,
    GM: Fn(T, usize) -> T,
    GW: Fn(LengthMismatch) -> String,
>(
    context: KernelContext<T>,
    list: Seq<DerivedKernel>,
    rules: ComputeRules<T, K, A, R, C, N, L, X, B, GD, GU, GS, GM, GW>,
    result: Result<Vec<KernelAnswer<T>>, String>,
) -> bool {
    match result {
        Ok(answers) => ran(context, list, rules, answers@),
        Err(message) => stopped(context, list, rules, message),
    }
}

/// Whether a list asks for the grid spacing before every temperature advection,
/// and holds no composite.
pub open spec fn runnable(list: Seq<DerivedKernel>) -> bool {
    forall|i: int|
        0 <= i < list.len() ==> !(#[trigger] list[i]).is_composite() && (is_advection(list[i])
            ==> list.take(i).contains(DerivedKernel::GridSpacing))
}

/// Whether a kernel computes a temperature advection.
pub open spec fn is_advection(kernel: DerivedKernel) -> bool {
    ||| kernel == DerivedKernel::TemperatureAdvection700mb
    ||| kernel == DerivedKernel::TemperatureAdvection850mb
}

fn make_volume<'a, T: Copy>(context: &KernelContext<'a, T>) -> (volume: Result<
    VolumeInputs<'a, T>,
    String,
>)
    ensures
        match volume {
            Ok(volume) => volume_of(*context) == Ok::<VolumeInputs<T>, Seq<char>>(volume),
            Err(message) => volume_of(*context) is Err && message@ == kernels::missing_message(
                volume_of(*context)->Err_0,
            ),
        },
{
    let pressure_pa = match context.pressure_pa {
        Some(values) => values,
        None => {
            return Err(missing_dependency("pressure volume for derived thermodynamics"));
        },
    };
    let height_agl_m = match context.height_agl_m {
        Some(values) => values,
        None => {
            return Err(missing_dependency("height_agl for derived thermodynamics"));
        },
    };
    match context.nz {
        Some(nz) => Ok(
            VolumeInputs {
                pressure_pa,
                temperature_c: context.temperature_c,
                qvapor_kgkg: context.qvapor_kgkg,
                height_agl_m,
                u_ms: context.volume_u_ms,
                v_ms: context.volume_v_ms,
                nz,
            },
        ),
        None => Err(missing_dependency("volume shape for derived thermodynamics")),
    }
}

fn make_wind<'a, T: Copy>(context: &KernelContext<'a, T>) -> (wind: Result<
    WindGridInputs<'a, T>,
    String,
>)
    ensures
        match wind {
            Ok(wind) => wind_of(*context) == Ok::<WindGridInputs<T>, Seq<char>>(wind),
            Err(message) => wind_of(*context) is Err && message@ == kernels::missing_message(
                wind_of(*context)->Err_0,
            ),
        },
{
    let nz: usize = match context.nz {
        Some(nz) => nz,
        None => {
            return Err(missing_dependency("volume shape for wind diagnostics"));
        },
    };
    match context.height_agl_m {
        Some(height_agl_3d_m) => Ok(
            WindGridInputs {
                nz,
                u_3d_ms: context.u_ms,
                v_3d_ms: context.v_ms,
                height_agl_3d_m,
            },
        ),
        None => Err(missing_dependency("height_agl for wind diagnostics")),
    }
}

fn run_advection<
    'a,
    T: Copy,
    K: for<'b> Fn(KernelCall<'b, T>) -> Result<KernelAnswer<T>, String>,
    A: Fn(T, T) -> T,
    R: Fn(T, T) -> T,
    C: Fn(T) -> T,
    N: Fn(T) -> T,
    L: Fn(T, u64) -> bool,
    X: Fn(T, T, u64) -> bool,
    B: Fn(T, T, T, T, u64) -> T,
    GD: Fn(T, T, T, T) -> T,
    GU: Fn(T) -> bool,
    GS: Fn(T, T) -> T,
    GM: Fn(T, usize) -> T,
    GW: Fn(LengthMismatch) -> String,
>(
    context: &KernelContext<'a, T>,
    kernel: DerivedKernel,
    spacing: (T, T),
    rules: &ComputeRules<T, K, A, R, C, N, L, X, B, GD, GU, GS, GM, GW>,
) -> (result: Result<KernelAnswer<T>, String>)
    requires
        is_advection(kernel),
        usable(*rules),
        context.nx * context.ny <= usize::MAX,
        context.levels_hpa@.len() * (context.nx * context.ny) <= usize::MAX,
    ensures
        advected(*context, kernel, Some(spacing), rules.run, rules.levels, result),
{
    let level: u64 = if matches!(kernel, DerivedKernel::TemperatureAdvection700mb) {
        700
    } else {
        850
    };
    let nxy: usize = context.nx * context.ny;
    let temperature = pressure_level_slice_or_interp(
        context.temperature_c.as_slice(),
        context.levels_hpa.as_slice(),
        context.pressure_3d_pa,
        level,
        nxy,
        &rules.levels,
    );
    let u_plane = pressure_level_slice_or_interp(
        context.u_ms.as_slice(),
        context.levels_hpa.as_slice(),
        context.pressure_3d_pa,
        level,
        nxy,
        &rules.levels,
    );
    let v_plane = pressure_level_slice_or_interp(
        context.v_ms.as_slice(),
        context.levels_hpa.as_slice(),
        context.pressure_3d_pa,
        level,
        nxy,
        &rules.levels,
    );
    let ghost planes = AdvectionPlanes {
        temperature_c: temperature,
        u_ms: u_plane,
        v_ms: v_plane,
    };
    proof {
        assert(planes_at(*context, level, rules.levels, planes));
    }
    match advection_planes(level, temperature, u_plane, v_plane) {
        Ok((temperature_c, u_ms, v_ms)) => (rules.run)(
            KernelCall {
                nx: context.nx,
                ny: context.ny,
                work: KernelWork::Advection {
                    kernel,
                    temperature_c: &temperature_c,
                    u_ms: &u_ms,
                    v_ms: &v_ms,
                    dx_m: spacing.0,
                    dy_m: spacing.1,
                },
            },
        ),
        Err(message) => Err(message),
    }
}

fn run_spacing<
    'a,
    T: Copy,
    GD: Fn(T, T, T, T) -> T,
    GU: Fn(T) -> bool,
    GS: Fn(T, T) -> T,
    GM: Fn(T, usize) -> T,
    GW: Fn(LengthMismatch) -> String,
>(
    context: &KernelContext<'a, T>,
    rules: &SpacingRules<T, GD, GU, GS, GM>,
    wording: &GW,
) -> (result: Result<KernelAnswer<T>, String>)
    requires
        spacing::measurable(*rules),
        forall|mismatch: LengthMismatch| #[trigger] call_requires(*wording, (mismatch,)),
        positioned(context.nx, context.ny, context.lat@, context.lon@),
    ensures
        spaced(*context, *rules, *wording, result),
{
    let found = estimate_grid_spacing_m(
        context.nx,
        context.ny,
        context.lat.as_slice(),
        context.lon.as_slice(),
        rules,
    );
    let ghost told = found;
    let result = match found {
        Ok((dx_m, dy_m)) => Ok(KernelAnswer::Spacing { dx_m, dy_m }),
        Err(mismatch) => Err(wording(mismatch)),
    };
    proof {
        assert(spacing::is_spacing(
            context.nx,
            context.ny,
            context.lat@,
            context.lon@,
            *rules,
            told,
        ));
        assert(spaced(*context, *rules, *wording, result));
    }
    result
}

fn run_kernel<
    'a,
    T: Copy,
    K: for<'b> Fn(KernelCall<'b, T>) -> Result<KernelAnswer<T>, String>,
    A: Fn(T, T) -> T,
    R: Fn(T, T) -> T,
    C: Fn(T) -> T,
    N: Fn(T) -> T,
    L: Fn(T, u64) -> bool,
    X: Fn(T, T, u64) -> bool,
    B: Fn(T, T, T, T, u64) -> T,
    GD: Fn(T, T, T, T) -> T,
    GU: Fn(T) -> bool,
    GS: Fn(T, T) -> T,
    GM: Fn(T, usize) -> T,
    GW: Fn(LengthMismatch) -> String,
>(
    context: &KernelContext<'a, T>,
    kernel: DerivedKernel,
    spacing: Option<(T, T)>,
    rules: &ComputeRules<T, K, A, R, C, N, L, X, B, GD, GU, GS, GM, GW>,
) -> (result: Result<KernelAnswer<T>, String>)
    requires
        !kernel.is_composite(),
        is_advection(kernel) ==> spacing is Some,
        kernel == DerivedKernel::GridSpacing ==> positioned(
            context.nx,
            context.ny,
            context.lat@,
            context.lon@,
        ),
        usable(*rules),
        context.nx * context.ny <= usize::MAX,
        context.levels_hpa@.len() * (context.nx * context.ny) <= usize::MAX,
    ensures
        answered(*context, kernel, spacing, *rules, result),
{
    match kernel {
        DerivedKernel::CapeCinTriplet
        | DerivedKernel::SbcapeCin
        | DerivedKernel::MlcapeCin
        | DerivedKernel::MucapeCin
        | DerivedKernel::Dcape
        | DerivedKernel::LiftedIndex
        | DerivedKernel::LapseRate700500
        | DerivedKernel::LapseRate03km => match make_volume(context) {
            Ok(volume) => (rules.run)(
                KernelCall {
                    nx: context.nx,
                    ny: context.ny,
                    work: KernelWork::Thermodynamic {
                        kernel,
                        volume,
                        surface: context.surface.again(),
                    },
                },
            ),
            Err(message) => Err(message),
        },
        DerivedKernel::Shear01km
        | DerivedKernel::Shear06km
        | DerivedKernel::Srh01km
        | DerivedKernel::Srh03km => match make_wind(context) {
            Ok(wind) => (rules.run)(
                KernelCall {
                    nx: context.nx,
                    ny: context.ny,
                    work: KernelWork::Wind { kernel, wind, lat: context.lat },
                },
            ),
            Err(message) => Err(message),
        },
        DerivedKernel::SurfaceThermo => (rules.run)(
            KernelCall {
                nx: context.nx,
                ny: context.ny,
                work: KernelWork::Surface { surface: context.surface.again() },
            },
        ),
        DerivedKernel::GridSpacing => run_spacing(context, &rules.spacing, &rules.wording),
        _ => {
            match spacing {
                Some(spacing) => run_advection(context, kernel, spacing, rules),
                None => vstd::pervasive::unreached(),
            }
        },
    }
}

proof fn lemma_spacing_found<T>(answers: Seq<KernelAnswer<T>>, at: int)
    requires
        0 <= at < answers.len(),
        answers[at] is Spacing,
    ensures
        spacing_of(answers) is Some,
    decreases answers.len(),
{
    if at < answers.len() - 1 && !(answers.last() is Spacing) {
        lemma_spacing_found(answers.drop_last(), at);
    }
}

pub(crate) fn run_kernels<
    'a,
    T: Copy,
    K: for<'b> Fn(KernelCall<'b, T>) -> Result<KernelAnswer<T>, String>,
    A: Fn(T, T) -> T,
    R: Fn(T, T) -> T,
    C: Fn(T) -> T,
    N: Fn(T) -> T,
    L: Fn(T, u64) -> bool,
    X: Fn(T, T, u64) -> bool,
    B: Fn(T, T, T, T, u64) -> T,
    GD: Fn(T, T, T, T) -> T,
    GU: Fn(T) -> bool,
    GS: Fn(T, T) -> T,
    GM: Fn(T, usize) -> T,
    GW: Fn(LengthMismatch) -> String,
>(
    context: &KernelContext<'a, T>,
    list: &[DerivedKernel],
    rules: &ComputeRules<T, K, A, R, C, N, L, X, B, GD, GU, GS, GM, GW>,
) -> (result: Result<Vec<KernelAnswer<T>>, String>)
    requires
        runnable(list@),
        list@.contains(DerivedKernel::GridSpacing) ==> positioned(
            context.nx,
            context.ny,
            context.lat@,
            context.lon@,
        ),
        usable(*rules),
        context.nx * context.ny <= usize::MAX,
        context.levels_hpa@.len() * (context.nx * context.ny) <= usize::MAX,
    ensures
        ended(*context, list@, *rules, result),
{
    let mut answers: Vec<KernelAnswer<T>> = Vec::new();
    let mut spacing: Option<(T, T)> = None;
    let mut i: usize = 0;
    while i < list.len()
        invariant
            i <= list@.len(),
            runnable(list@),
            list@.contains(DerivedKernel::GridSpacing) ==> positioned(
                context.nx,
                context.ny,
                context.lat@,
                context.lon@,
            ),
            usable(*rules),
            context.nx * context.ny <= usize::MAX,
            context.levels_hpa@.len() * (context.nx * context.ny) <= usize::MAX,
            ran(*context, list@.take(i as int), *rules, answers@),
            spacing == spacing_of(answers@),
            forall|k: int|
                0 <= k < i && list@[k] == DerivedKernel::GridSpacing ==> #[trigger] answers@[k]
                    is Spacing,
        decreases list@.len() - i,
    {
        let kernel = list[i];
        proof {
            assert(!list@[i as int].is_composite());
            assert(list@.contains(kernel));
            if is_advection(kernel) {
                let before = list@.take(i as int);
                let at = choose|at: int|
                    0 <= at < before.len() && before[at] == DerivedKernel::GridSpacing;
                assert(list@[at] == DerivedKernel::GridSpacing);
                lemma_spacing_found(answers@, at);
            }
        }
        let ghost done = answers@;
        match run_kernel(context, kernel, spacing, rules) {
            Ok(answer) => {
                proof {
                    assert(kernel == DerivedKernel::GridSpacing ==> answer is Spacing);
                }
                if let KernelAnswer::Spacing { dx_m, dy_m } = &answer {
                    spacing = Some((*dx_m, *dy_m));
                }
                answers.push(answer);
                proof {
                    assert(answers@.drop_last() == done);
                    assert forall|k: int| 0 <= k < i + 1 implies answered(
                        *context,
                        list@.take(i + 1)[k],
                        spacing_of(answers@.take(k)),
                        *rules,
                        Ok::<KernelAnswer<T>, String>(#[trigger] answers@[k]),
                    ) by {
                        if k < i {
                            assert(answers@.take(k) == done.take(k));
                            assert(list@.take(i + 1)[k] == list@.take(i as int)[k]);
                            assert(answers@[k] == done[k]);
                        } else {
                            assert(answers@.take(k) == done);
                        }
                    }
                }
            },
            Err(message) => {
                proof {
                    assert(ran(*context, list@.take(done.len() as int), *rules, done));
                }
                return Err(message);
            },
        }
        i = i + 1;
    }
    proof {
        assert(list@.take(i as int) == list@);
    }
    Ok(answers)
}

/// The fields of all kernels.
pub struct KernelOutputs<T> {
    pub parcels: ParcelOutputs<T>,
    pub independent: IndependentOutputs<T>,
    pub composites: CompositeOutputs<T>,
}

/// No fields.
pub open spec fn no_outputs<T>() -> KernelOutputs<T> {
    KernelOutputs {
        parcels: ParcelOutputs { sb: None, ml: None, mu: None },
        independent: IndependentOutputs {
            dcape_jkg: None,
            surface_thermo: None,
            lifted_index_c: None,
            lapse_rate_700_500_cpkm: None,
            lapse_rate_0_3km_cpkm: None,
            shear_01km_ms: None,
            shear_06km_ms: None,
            srh_01km_m2s2: None,
            srh_03km_m2s2: None,
            temperature_advection_700mb_cph: None,
            temperature_advection_850mb_cph: None,
        },
        composites: CompositeOutputs {
            ehi_01km: None,
            ehi_03km: None,
            stp_fixed: None,
            scp_mu_03km_06km_proxy: None,
        },
    }
}

/// The fields with the one that a kernel answered put in its place.
pub open spec fn with_field<T>(outputs: KernelOutputs<T>, kernel: DerivedKernel, values: Vec<T>) -> KernelOutputs<T> {
    let independent = outputs.independent;
    let composites = outputs.composites;
    match kernel {
        DerivedKernel::Dcape => KernelOutputs {
            independent: IndependentOutputs { dcape_jkg: Some(values), ..independent },
            ..outputs
        },
        DerivedKernel::LiftedIndex => KernelOutputs {
            independent: IndependentOutputs { lifted_index_c: Some(values), ..independent },
            ..outputs
        },
        DerivedKernel::LapseRate700500 => KernelOutputs {
            independent: IndependentOutputs { lapse_rate_700_500_cpkm: Some(values), ..independent },
            ..outputs
        },
        DerivedKernel::LapseRate03km => KernelOutputs {
            independent: IndependentOutputs { lapse_rate_0_3km_cpkm: Some(values), ..independent },
            ..outputs
        },
        DerivedKernel::Shear01km => KernelOutputs {
            independent: IndependentOutputs { shear_01km_ms: Some(values), ..independent },
            ..outputs
        },
        DerivedKernel::Shear06km => KernelOutputs {
            independent: IndependentOutputs { shear_06km_ms: Some(values), ..independent },
            ..outputs
        },
        DerivedKernel::Srh01km => KernelOutputs {
            independent: IndependentOutputs { srh_01km_m2s2: Some(values), ..independent },
            ..outputs
        },
        DerivedKernel::Srh03km => KernelOutputs {
            independent: IndependentOutputs { srh_03km_m2s2: Some(values), ..independent },
            ..outputs
        },
        DerivedKernel::TemperatureAdvection700mb => KernelOutputs {
            independent: IndependentOutputs {
                temperature_advection_700mb_cph: Some(values),
                ..independent
            },
            ..outputs
        },
        DerivedKernel::TemperatureAdvection850mb => KernelOutputs {
            independent: IndependentOutputs {
                temperature_advection_850mb_cph: Some(values),
                ..independent
            },
            ..outputs
        },
        DerivedKernel::Ehi01km => KernelOutputs {
            composites: CompositeOutputs { ehi_01km: Some(values), ..composites },
            ..outputs
        },
        DerivedKernel::Ehi03km => KernelOutputs {
            composites: CompositeOutputs { ehi_03km: Some(values), ..composites },
            ..outputs
        },
        DerivedKernel::StpFixed => KernelOutputs {
            composites: CompositeOutputs { stp_fixed: Some(values), ..composites },
            ..outputs
        },
        DerivedKernel::ScpMu03km06kmProxy => KernelOutputs {
            composites: CompositeOutputs { scp_mu_03km_06km_proxy: Some(values), ..composites },
            ..outputs
        },
        _ => outputs,
    }
}

/// The fields with those of one parcel put in their place.
pub open spec fn with_parcel<T>(
    outputs: KernelOutputs<T>,
    kernel: DerivedKernel,
    parcel: CapeCinOutputs<T>,
) -> KernelOutputs<T> {
    let parcels = outputs.parcels;
    match kernel {
        DerivedKernel::SbcapeCin => KernelOutputs {
            parcels: ParcelOutputs { sb: Some(parcel), ..parcels },
            ..outputs
        },
        DerivedKernel::MlcapeCin => KernelOutputs {
            parcels: ParcelOutputs { ml: Some(parcel), ..parcels },
            ..outputs
        },
        DerivedKernel::MucapeCin => KernelOutputs {
            parcels: ParcelOutputs { mu: Some(parcel), ..parcels },
            ..outputs
        },
        _ => outputs,
    }
}

/// The fields with what a kernel answered put in its place.
pub open spec fn with_answer<T>(
    outputs: KernelOutputs<T>,
    kernel: DerivedKernel,
    answer: KernelAnswer<T>,
) -> KernelOutputs<T> {
    match answer {
        KernelAnswer::Triplet { sb, ml, mu } => KernelOutputs {
            parcels: ParcelOutputs { sb: Some(sb), ml: Some(ml), mu: Some(mu) },
            ..outputs
        },
        KernelAnswer::Parcel(parcel) => with_parcel(outputs, kernel, parcel),
        KernelAnswer::SurfaceThermo(thermo) => KernelOutputs {
            independent: IndependentOutputs { surface_thermo: Some(thermo), ..outputs.independent },
            ..outputs
        },
        KernelAnswer::Field(values) => with_field(outputs, kernel, values),
        KernelAnswer::Accepted => outputs,
        KernelAnswer::Spacing { .. } => outputs,
    }
}

/// The fields that the kernels of a list have answered.
pub open spec fn folded<T>(list: Seq<DerivedKernel>, answers: Seq<KernelAnswer<T>>) -> KernelOutputs<T>
    decreases answers.len(),
{
    if answers.len() == 0 {
        no_outputs()
    } else {
        with_answer(
            folded(list, answers.drop_last()),
            list[answers.len() - 1],
            answers.last(),
        )
    }
}

fn put_field<T>(outputs: KernelOutputs<T>, kernel: DerivedKernel, values: Vec<T>) -> (changed: KernelOutputs<T>)
    ensures
        changed == with_field(outputs, kernel, values),
{
    let mut outputs = outputs;
    match kernel {
        DerivedKernel::Dcape => {
            outputs.independent.dcape_jkg = Some(values);
        },
        DerivedKernel::LiftedIndex => {
            outputs.independent.lifted_index_c = Some(values);
        },
        DerivedKernel::LapseRate700500 => {
            outputs.independent.lapse_rate_700_500_cpkm = Some(values);
        },
        DerivedKernel::LapseRate03km => {
            outputs.independent.lapse_rate_0_3km_cpkm = Some(values);
        },
        DerivedKernel::Shear01km => {
            outputs.independent.shear_01km_ms = Some(values);
        },
        DerivedKernel::Shear06km => {
            outputs.independent.shear_06km_ms = Some(values);
        },
        DerivedKernel::Srh01km => {
            outputs.independent.srh_01km_m2s2 = Some(values);
        },
        DerivedKernel::Srh03km => {
            outputs.independent.srh_03km_m2s2 = Some(values);
        },
        DerivedKernel::TemperatureAdvection700mb => {
            outputs.independent.temperature_advection_700mb_cph = Some(values);
        },
        DerivedKernel::TemperatureAdvection850mb => {
            outputs.independent.temperature_advection_850mb_cph = Some(values);
        },
        DerivedKernel::Ehi01km => {
            outputs.composites.ehi_01km = Some(values);
        },
        DerivedKernel::Ehi03km => {
            outputs.composites.ehi_03km = Some(values);
        },
        DerivedKernel::StpFixed => {
            outputs.composites.stp_fixed = Some(values);
        },
        DerivedKernel::ScpMu03km06kmProxy => {
            outputs.composites.scp_mu_03km_06km_proxy = Some(values);
        },
        _ => {},
    }
    outputs
}

fn put_answer<T>(outputs: KernelOutputs<T>, kernel: DerivedKernel, answer: KernelAnswer<T>) -> (changed: KernelOutputs<T>)
    ensures
        changed == with_answer(outputs, kernel, answer),
{
    let mut outputs = outputs;
    match answer {
        KernelAnswer::Triplet { sb, ml, mu } => {
            outputs.parcels = ParcelOutputs { sb: Some(sb), ml: Some(ml), mu: Some(mu) };
            outputs
        },
        KernelAnswer::Parcel(parcel) => {
            match kernel {
                DerivedKernel::SbcapeCin => {
                    outputs.parcels.sb = Some(parcel);
                },
                DerivedKernel::MlcapeCin => {
                    outputs.parcels.ml = Some(parcel);
                },
                DerivedKernel::MucapeCin => {
                    outputs.parcels.mu = Some(parcel);
                },
                _ => {},
            }
            outputs
        },
        KernelAnswer::SurfaceThermo(thermo) => {
            outputs.independent.surface_thermo = Some(thermo);
            outputs
        },
        KernelAnswer::Field(values) => put_field(outputs, kernel, values),
        KernelAnswer::Accepted => outputs,
        KernelAnswer::Spacing { .. } => outputs,
    }
}

fn empty_outputs<T>() -> (outputs: KernelOutputs<T>)
    ensures
        outputs == no_outputs::<T>(),
{
    KernelOutputs {
        parcels: ParcelOutputs { sb: None, ml: None, mu: None },
        independent: IndependentOutputs {
            dcape_jkg: None,
            surface_thermo: None,
            lifted_index_c: None,
            lapse_rate_700_500_cpkm: None,
            lapse_rate_0_3km_cpkm: None,
            shear_01km_ms: None,
            shear_06km_ms: None,
            srh_01km_m2s2: None,
            srh_03km_m2s2: None,
            temperature_advection_700mb_cph: None,
            temperature_advection_850mb_cph: None,
        },
        composites: CompositeOutputs {
            ehi_01km: None,
            ehi_03km: None,
            stp_fixed: None,
            scp_mu_03km_06km_proxy: None,
        },
    }
}

pub(crate) fn fold_answers<T>(list: &[DerivedKernel], answers: Vec<KernelAnswer<T>>) -> (outputs: KernelOutputs<T>)
    requires
        answers@.len() == list@.len(),
    ensures
        outputs == folded(list@, answers@),
{
    let mut outputs = empty_outputs();
    let ghost all = answers@;
    let mut i: usize = 0;
    proof {
        assert(all.take(0) =~= Seq::empty());
    }
    for answer in it: answers
        invariant
            it.seq() == all,
            all.len() == list@.len(),
            i == it.index(),
            outputs == folded(list@, all.take(i as int)),
    {
        let kernel = list[i];
        proof {
            assert(all.take(i + 1).drop_last() == all.take(i as int));
            assert(all.take(i + 1).last() == answer);
        }
        outputs = put_answer(outputs, kernel, answer);
        i = i + 1;
    }
    proof {
        assert(all.take(i as int) == all);
    }
    outputs
}

/// Whether a composite has a result. One that misses a field fails without being
/// asked.
pub open spec fn combined<
    T,
    K: for<'a> Fn(KernelCall<'a, T>) -> Result<KernelAnswer<T>, String>,
>(
    run: K,
    nx: usize,
    ny: usize,
    kernel: DerivedKernel,
    parcels: ParcelOutputs<T>,
    outputs: IndependentOutputs<T>,
    result: Result<KernelAnswer<T>, String>,
) -> bool {
    match assemble::composite_gap(kernel, parcels, outputs) {
        Some(name) => result is Err && result->Err_0@ == kernels::missing_message(name),
        None => exists|inputs: CompositeInputs<T>|
            #[trigger] assemble::inputs_of(kernel, inputs, parcels, outputs) && asked(
                run,
                nx,
                ny,
                KernelWork::Composite { kernel, inputs },
                result,
            ),
    }
}

/// Whether the composites of a list have answered one after the other.
pub open spec fn composites_ran<
    T,
    K: for<'a> Fn(KernelCall<'a, T>) -> Result<KernelAnswer<T>, String>,
>(
    run: K,
    nx: usize,
    ny: usize,
    list: Seq<DerivedKernel>,
    parcels: ParcelOutputs<T>,
    outputs: IndependentOutputs<T>,
    answers: Seq<KernelAnswer<T>>,
) -> bool {
    &&& answers.len() == list.len()
    &&& forall|i: int|
        0 <= i < list.len() ==> combined(
            run,
            nx,
            ny,
            list[i],
            parcels,
            outputs,
            Ok::<KernelAnswer<T>, String>(#[trigger] answers[i]),
        )
}

/// Whether the composites of a list ran up to one that failed.
pub open spec fn composites_stopped<
    T,
    K: for<'a> Fn(KernelCall<'a, T>) -> Result<KernelAnswer<T>, String>,
>(
    run: K,
    nx: usize,
    ny: usize,
    list: Seq<DerivedKernel>,
    parcels: ParcelOutputs<T>,
    outputs: IndependentOutputs<T>,
    message: String,
) -> bool {
    exists|done: Seq<KernelAnswer<T>>|
        {
            &&& done.len() < list.len()
            &&& #[trigger] composites_ran(
                run,
                nx,
                ny,
                list.take(done.len() as int),
                parcels,
                outputs,
                done,
            )
            &&& combined(
                run,
                nx,
                ny,
                list[done.len() as int],
                parcels,
                outputs,
                Err::<KernelAnswer<T>, String>(message),
            )
        }
}

pub(crate) fn run_composites<
    T,
    K: for<'b> Fn(KernelCall<'b, T>) -> Result<KernelAnswer<T>, String>,
>(
    run: &K,
    nx: usize,
    ny: usize,
    list: &[DerivedKernel],
    parcels: &ParcelOutputs<T>,
    outputs: &IndependentOutputs<T>,
) -> (result: Result<Vec<KernelAnswer<T>>, String>)
    requires
        forall|i: int| 0 <= i < list@.len() ==> (#[trigger] list@[i]).is_composite(),
        forall|call: KernelCall<T>| #[trigger] call_requires(*run, (call,)),
    ensures
        match result {
            Ok(answers) => composites_ran(*run, nx, ny, list@, *parcels, *outputs, answers@),
            Err(message) => composites_stopped(*run, nx, ny, list@, *parcels, *outputs, message),
        },
{
    let mut answers: Vec<KernelAnswer<T>> = Vec::new();
    let mut i: usize = 0;
    while i < list.len()
        invariant
            i <= list@.len(),
            forall|i: int| 0 <= i < list@.len() ==> (#[trigger] list@[i]).is_composite(),
            forall|call: KernelCall<T>| #[trigger] call_requires(*run, (call,)),
            composites_ran(*run, nx, ny, list@.take(i as int), *parcels, *outputs, answers@),
        decreases list@.len() - i,
    {
        let kernel = list[i];
        let ghost done = answers@;
        let result = match composite_inputs(kernel, parcels, outputs) {
            Ok(inputs) => {
                proof {
                    assert(assemble::inputs_of(kernel, inputs, *parcels, *outputs));
                }
                run(KernelCall { nx, ny, work: KernelWork::Composite { kernel, inputs } })
            },
            Err(message) => Err(message),
        };
        proof {
            assert(combined(*run, nx, ny, kernel, *parcels, *outputs, result));
        }
        match result {
            Ok(answer) => {
                answers.push(answer);
                proof {
                    assert forall|k: int| 0 <= k < i + 1 implies combined(
                        *run,
                        nx,
                        ny,
                        list@.take(i + 1)[k],
                        *parcels,
                        *outputs,
                        Ok::<KernelAnswer<T>, String>(#[trigger] answers@[k]),
                    ) by {
                        if k < i {
                            assert(list@.take(i + 1)[k] == list@.take(i as int)[k]);
                            assert(answers@[k] == done[k]);
                        }
                    }
                }
            },
            Err(message) => {
                proof {
                    assert(composites_ran(
                        *run,
                        nx,
                        ny,
                        list@.take(done.len() as int),
                        *parcels,
                        *outputs,
                        done,
                    ));
                }
                return Err(message);
            },
        }
        i = i + 1;
    }
    proof {
        assert(list@.take(i as int) == list@);
    }
    Ok(answers)
}

} // verus!
