//! What holds where the kernels and the arithmetic give one answer: a computation that
//! is handed the same analyses ends alike, whatever the order of its kernels and
//! wherever its heights come from.
use crate::derived::assemble;
use crate::derived::assemble::{CompositeInputs, IndependentOutputs, ParcelOutputs, TakenWindVolumes};
use crate::derived::compute;
use crate::derived::fields;
use crate::derived::fields::DerivedComputedFields;
use crate::derived::kernel_runs;
use crate::derived::kernel_runs::{
    AdvectionPlanes, ComputeRules, KernelAnswer, KernelCall, KernelContext, KernelWork,
    SurfaceInputs, VolumeInputs,
};
use crate::derived::kernels::DerivedKernel;
use crate::derived::levels;
use crate::derived::levels::{LengthMismatch, LevelRules};
use crate::derived::phased;
use crate::derived::recipes::DerivedRecipe;
use crate::derived::requirements;
use crate::derived::requirements::DerivedRequirements;
use crate::derived::store_inputs;
use crate::derived::store_inputs::StoreComputeInputs;
use crate::gridded::fields::{PressureFields, SurfaceFields};
use crate::gridded::heavy_volume;
use crate::gridded::spacing;
use crate::gridded::spacing::SpacingRules;
use vstd::prelude::*;

verus! {

/// Whether two optional lists hold the same values, or are both missing.
pub open spec fn same_optional<T>(a: Option<&Vec<T>>, b: Option<&Vec<T>>) -> bool {
    match (a, b) {
        (Some(a), Some(b)) => a@ == b@,
        (None, None) => true,
        _ => false,
    }
}

/// Whether two sets of surface fields hold the same values.
pub open spec fn same_surface<T>(a: SurfaceInputs<T>, b: SurfaceInputs<T>) -> bool {
    &&& a.psfc_pa@ == b.psfc_pa@
    &&& a.t2_k@ == b.t2_k@
    &&& a.q2_kgkg@ == b.q2_kgkg@
    &&& a.u10_ms@ == b.u10_ms@
    &&& a.v10_ms@ == b.v10_ms@
}

/// Whether two sets of volumes hold the same values, the winds apart.
pub open spec fn same_volume<T>(a: VolumeInputs<T>, b: VolumeInputs<T>) -> bool {
    &&& a.pressure_pa@ == b.pressure_pa@
    &&& a.temperature_c@ == b.temperature_c@
    &&& a.qvapor_kgkg@ == b.qvapor_kgkg@
    &&& a.height_agl_m@ == b.height_agl_m@
    &&& a.nz == b.nz
}

/// Whether two sets of fields that a composite combines hold the same values.
pub open spec fn same_inputs<T>(a: CompositeInputs<T>, b: CompositeInputs<T>) -> bool {
    &&& a.cape_jkg@ == b.cape_jkg@
    &&& same_optional(a.lcl_m, b.lcl_m)
    &&& a.srh_m2s2@ == b.srh_m2s2@
    &&& same_optional(a.shear_ms, b.shear_ms)
}

/// Whether kernels are asked to do the same on the same values. The winds beside the
/// thermodynamic volumes are not looked at.
pub open spec fn same_work<T>(a: KernelWork<T>, b: KernelWork<T>) -> bool {
    match (a, b) {
        (KernelWork::Grid, KernelWork::Grid) => true,
        (KernelWork::Levels { nz: m }, KernelWork::Levels { nz: n }) => m == n,
        (
            KernelWork::Thermodynamic { kernel: j, volume: v, surface: s },
            KernelWork::Thermodynamic { kernel: k, volume: w, surface: t },
        ) => j == k && same_volume(v, w) && same_surface(s, t),
        (KernelWork::Surface { surface: s }, KernelWork::Surface { surface: t }) => same_surface(
            s,
            t,
        ),
        (
            KernelWork::Wind { kernel: j, wind: v, lat: m },
            KernelWork::Wind { kernel: k, wind: w, lat: n },
        ) => {
            &&& j == k
            &&& v.nz == w.nz
            &&& v.u_3d_ms@ == w.u_3d_ms@
            &&& v.v_3d_ms@ == w.v_3d_ms@
            &&& v.height_agl_3d_m@ == w.height_agl_3d_m@
            &&& m@ == n@
        },
        (
            KernelWork::Advection { kernel: j, temperature_c: p, u_ms: q, v_ms: r, dx_m: x, dy_m: y },
            KernelWork::Advection { kernel: k, temperature_c: s, u_ms: t, v_ms: u, dx_m: z, dy_m: w },
        ) => j == k && p@ == s@ && q@ == t@ && r@ == u@ && x == z && y == w,
        (
            KernelWork::Composite { kernel: j, inputs: p },
            KernelWork::Composite { kernel: k, inputs: q },
        ) => j == k && same_inputs(p, q),
        _ => false,
    }
}

/// Whether two kernels answered the same, or both failed.
pub open spec fn same_answer<T>(
    a: Result<KernelAnswer<T>, String>,
    b: Result<KernelAnswer<T>, String>,
) -> bool {
    match (a, b) {
        (Ok(a), Ok(b)) => a == b,
        (Err(_), Err(_)) => true,
        _ => false,
    }
}

/// Whether the kernels answer the same whenever they are asked to do the same.
#[verifier::opaque]
pub open spec fn answers_settled<
    T,
    K: for<'a> Fn(KernelCall<'a, T>) -> Result<KernelAnswer<T>, String>,
>(run: K) -> bool {
    forall|
        a: KernelCall<T>,
        b: KernelCall<T>,
        x: Result<KernelAnswer<T>, String>,
        y: Result<KernelAnswer<T>, String>,
    |
        #![trigger call_ensures(run, (a,), x), call_ensures(run, (b,), y)]
        call_ensures(run, (a,), x) && call_ensures(run, (b,), y) && a.nx == b.nx && a.ny == b.ny
            && same_work(a.work, b.work) ==> same_answer(x, y)
}

/// Whether a function of one value has one result.
#[verifier::opaque]
pub open spec fn one_result<T, U, F: Fn(T) -> U>(f: F) -> bool {
    forall|a: T, x: U, y: U|
        #![trigger call_ensures(f, (a,), x), call_ensures(f, (a,), y)]
        call_ensures(f, (a,), x) && call_ensures(f, (a,), y) ==> x == y
}

/// Whether a function of two values has one result.
#[verifier::opaque]
pub open spec fn one_result_of_two<T, F: Fn(T, T) -> T>(f: F) -> bool {
    forall|a: T, b: T, x: T, y: T|
        #![trigger call_ensures(f, (a, b), x), call_ensures(f, (a, b), y)]
        call_ensures(f, (a, b), x) && call_ensures(f, (a, b), y) ==> x == y
}

/// Whether the rules for planes at one pressure have one result each.
#[verifier::opaque]
pub open spec fn levels_settled<
    T,
    L: Fn(T, u64) -> bool,
    X: Fn(T, T, u64) -> bool,
    B: Fn(T, T, T, T, u64) -> T,
>(rules: LevelRules<T, L, X, B>) -> bool {
    &&& forall|a: T, target: u64, x: bool, y: bool|
        #![trigger call_ensures(rules.at_level, (a, target), x), call_ensures(rules.at_level, (a, target), y)]
        call_ensures(rules.at_level, (a, target), x) && call_ensures(
            rules.at_level,
            (a, target),
            y,
        ) ==> x == y
    &&& forall|a: T, b: T, target: u64, x: bool, y: bool|
        #![trigger call_ensures(rules.crosses, (a, b, target), x), call_ensures(rules.crosses, (a, b, target), y)]
        call_ensures(rules.crosses, (a, b, target), x) && call_ensures(
            rules.crosses,
            (a, b, target),
            y,
        ) ==> x == y
    &&& forall|a: T, b: T, p: T, q: T, target: u64, x: T, y: T|
        #![trigger call_ensures(rules.between, (a, b, p, q, target), x), call_ensures(rules.between, (a, b, p, q, target), y)]
        call_ensures(rules.between, (a, b, p, q, target), x) && call_ensures(
            rules.between,
            (a, b, p, q, target),
            y,
        ) ==> x == y
}

/// Whether the kernels and the arithmetic give one answer each.
pub open spec fn settled<
    T,
    K: for<'a> Fn(KernelCall<'a, T>) -> Result<KernelAnswer<T>, String>,
    A: Fn(T, T) -> T,
    R: Fn(T, T) -> T,
    C: Fn(T) -> T,
    N: Fn(T) -> T,
    L: Fn(T, u64) -> bool,
    X: Fn(T, T, u64) -> bool,
    B: Fn(T, T, T, T, u64) -> T,
    GD: Fn(T, T, T, T) -> T,
    GU: Fn(T) -> bool,
    GS: Fn(T, T) -> T,
    GM: Fn(T, usize) -> T,
    GW: Fn(LengthMismatch) -> String,
>(rules: ComputeRules<T, K, A, R, C, N, L, X, B, GD, GU, GS, GM, GW>) -> bool {
    &&& answers_settled(rules.run)
    &&& one_result_of_two(rules.above)
    &&& one_result_of_two(rules.raise)
    &&& one_result(rules.to_pa)
    &&& one_result(rules.to_knots)
    &&& levels_settled(rules.levels)
    &&& spacing::distances_settled(rules.spacing)
}

/// Whether kernels read the same values from two contexts. Heights count where there
/// are levels, and the winds beside the thermodynamic volumes do not.
pub open spec fn alike<T>(a: KernelContext<T>, b: KernelContext<T>) -> bool {
    &&& a.nx == b.nx
    &&& a.ny == b.ny
    &&& same_surface(a.surface, b.surface)
    &&& a.lat@ == b.lat@
    &&& a.lon@ == b.lon@
    &&& a.levels_hpa@ == b.levels_hpa@
    &&& same_optional(a.pressure_3d_pa, b.pressure_3d_pa)
    &&& a.temperature_c@ == b.temperature_c@
    &&& a.qvapor_kgkg@ == b.qvapor_kgkg@
    &&& a.u_ms@ == b.u_ms@
    &&& a.v_ms@ == b.v_ms@
    &&& same_optional(a.pressure_pa, b.pressure_pa)
    &&& a.nz == b.nz
    &&& a.nz is Some ==> same_optional(a.height_agl_m, b.height_agl_m)
}

proof fn lemma_asked_the_same<
    T,
    K: for<'a> Fn(KernelCall<'a, T>) -> Result<KernelAnswer<T>, String>,
>(
    run: K,
    nx: usize,
    ny: usize,
    v: KernelWork<T>,
    w: KernelWork<T>,
    x: Result<KernelAnswer<T>, String>,
    y: Result<KernelAnswer<T>, String>,
)
    requires
        answers_settled(run),
        same_work(v, w),
        kernel_runs::asked(run, nx, ny, v, x),
        kernel_runs::asked(run, nx, ny, w, y),
    ensures
        same_answer(x, y),
{
    reveal(answers_settled);
    let a = KernelCall { nx, ny, work: v };
    let b = KernelCall { nx, ny, work: w };
    assert(call_ensures(run, (a,), x));
    assert(call_ensures(run, (b,), y));
}

proof fn lemma_one_level<T, L: Fn(T, u64) -> bool>(
    list: Seq<T>,
    target: u64,
    at_level: L,
    a: Option<int>,
    b: Option<int>,
)
    requires
        forall|v: T, t: u64, x: bool, y: bool|
            #![trigger call_ensures(at_level, (v, t), x), call_ensures(at_level, (v, t), y)]
            call_ensures(at_level, (v, t), x) && call_ensures(at_level, (v, t), y) ==> x == y,
        levels::finds_level(list, target, at_level, a),
        levels::finds_level(list, target, at_level, b),
    ensures
        a == b,
{
    if a is Some && b is Some {
        let i = a->Some_0;
        let j = b->Some_0;
        if i < j {
            assert(call_ensures(at_level, (list[i], target), true));
            assert(call_ensures(at_level, (list[i], target), false));
        }
        if j < i {
            assert(call_ensures(at_level, (list[j], target), true));
            assert(call_ensures(at_level, (list[j], target), false));
        }
    } else if a is Some {
        let i = a->Some_0;
        assert(call_ensures(at_level, (list[i], target), true));
        assert(call_ensures(at_level, (list[i], target), false));
    } else if b is Some {
        let j = b->Some_0;
        assert(call_ensures(at_level, (list[j], target), true));
        assert(call_ensures(at_level, (list[j], target), false));
    }
}

proof fn lemma_one_interpolated<
    T,
    L: Fn(T, u64) -> bool,
    X: Fn(T, T, u64) -> bool,
    B: Fn(T, T, T, T, u64) -> T,
>(
    values: Seq<T>,
    pressures: Seq<T>,
    nxy: int,
    nz: int,
    target: u64,
    rules: LevelRules<T, L, X, B>,
    column: int,
    x: T,
    y: T,
)
    requires
        levels_settled(rules),
        levels::is_interpolated(values, pressures, nxy, nz, target, rules, column, x),
        levels::is_interpolated(values, pressures, nxy, nz, target, rules, column, y),
    ensures
        x == y,
{
    reveal(levels_settled);
    let blank = forall|j: int|
        0 <= j < nz - 1 ==> #[trigger] levels::crossed(
            pressures,
            nxy,
            target,
            rules.crosses,
            column,
            j,
            false,
        );
    let at = |level: int, value: T|
        {
            &&& 0 <= level < nz - 1
            &&& levels::first_crossing(pressures, nxy, target, rules.crosses, column, level)
            &&& call_ensures(
                rules.between,
                (
                    values[level * nxy + column],
                    values[(level + 1) * nxy + column],
                    pressures[level * nxy + column],
                    pressures[(level + 1) * nxy + column],
                    target,
                ),
                value,
            )
        };
    assert forall|i: int, j: int, v: T, w: T|
        #![trigger at(i, v), at(j, w)]
        at(i, v) && at(j, w) implies v == w by {
        if i < j {
            assert(levels::crossed(pressures, nxy, target, rules.crosses, column, i, true));
            assert(levels::crossed(pressures, nxy, target, rules.crosses, column, i, false));
        }
        if j < i {
            assert(levels::crossed(pressures, nxy, target, rules.crosses, column, j, true));
            assert(levels::crossed(pressures, nxy, target, rules.crosses, column, j, false));
        }
    }
    assert forall|i: int, v: T| #[trigger] at(i, v) && blank implies false by {
        assert(levels::crossed(pressures, nxy, target, rules.crosses, column, i, true));
        assert(levels::crossed(pressures, nxy, target, rules.crosses, column, i, false));
    }
    if !(x == rules.blank && blank) {
        let i = choose|level: int|
            {
                &&& 0 <= level < nz - 1
                &&& #[trigger] levels::first_crossing(
                    pressures,
                    nxy,
                    target,
                    rules.crosses,
                    column,
                    level,
                )
                &&& call_ensures(
                    rules.between,
                    (
                        values[level * nxy + column],
                        values[(level + 1) * nxy + column],
                        pressures[level * nxy + column],
                        pressures[(level + 1) * nxy + column],
                        target,
                    ),
                    x,
                )
            };
        assert(at(i, x));
    }
    if !(y == rules.blank && blank) {
        let j = choose|level: int|
            {
                &&& 0 <= level < nz - 1
                &&& #[trigger] levels::first_crossing(
                    pressures,
                    nxy,
                    target,
                    rules.crosses,
                    column,
                    level,
                )
                &&& call_ensures(
                    rules.between,
                    (
                        values[level * nxy + column],
                        values[(level + 1) * nxy + column],
                        pressures[level * nxy + column],
                        pressures[(level + 1) * nxy + column],
                        target,
                    ),
                    y,
                )
            };
        assert(at(j, y));
    }
}

proof fn lemma_one_plane<
    T,
    L: Fn(T, u64) -> bool,
    X: Fn(T, T, u64) -> bool,
    B: Fn(T, T, T, T, u64) -> T,
>(
    values: Seq<T>,
    list: Seq<T>,
    pressures: Option<Seq<T>>,
    target: u64,
    nxy: int,
    rules: LevelRules<T, L, X, B>,
    a: Option<Seq<T>>,
    b: Option<Seq<T>>,
)
    requires
        levels_settled(rules),
        levels::is_plane_at(values, list, pressures, target, nxy, rules, a),
        levels::is_plane_at(values, list, pressures, target, nxy, rules, b),
    ensures
        a == b,
{
    reveal(levels_settled);
    assert forall|i: Option<int>, j: Option<int>|
        #![trigger levels::finds_level(list, target, rules.at_level, i), levels::finds_level(list, target, rules.at_level, j)]
        levels::finds_level(list, target, rules.at_level, i) && levels::finds_level(
            list,
            target,
            rules.at_level,
            j,
        ) implies i == j by {
        lemma_one_level(list, target, rules.at_level, i, j);
    }
    if a is Some && b is Some {
        let p = a->Some_0;
        let q = b->Some_0;
        if pressures is Some {
            assert forall|column: int|
                0 <= column < nxy && levels::is_interpolated(
                    values,
                    pressures->Some_0,
                    nxy,
                    list.len() as int,
                    target,
                    rules,
                    column,
                    p[column],
                ) && levels::is_interpolated(
                    values,
                    pressures->Some_0,
                    nxy,
                    list.len() as int,
                    target,
                    rules,
                    column,
                    #[trigger] q[column],
                ) implies p[column] == q[column] by {
                lemma_one_interpolated(
                    values,
                    pressures->Some_0,
                    nxy,
                    list.len() as int,
                    target,
                    rules,
                    column,
                    p[column],
                    q[column],
                );
            }
            if p.len() == nxy && q.len() == nxy && (forall|column: int|
                0 <= column < nxy ==> p[column] == q[column]) {
                assert(p =~= q);
            }
        }
    }
}

proof fn lemma_advected_alike<
    T,
    K: for<'a> Fn(KernelCall<'a, T>) -> Result<KernelAnswer<T>, String>,
    A: Fn(T, T) -> T,
    R: Fn(T, T) -> T,
    C: Fn(T) -> T,
    N: Fn(T) -> T,
    L: Fn(T, u64) -> bool,
    X: Fn(T, T, u64) -> bool,
    B: Fn(T, T, T, T, u64) -> T,
    GD: Fn(T, T, T, T) -> T,
    GU: Fn(T) -> bool,
    GS: Fn(T, T) -> T,
    GM: Fn(T, usize) -> T,
    GW: Fn(LengthMismatch) -> String,
>(
    a: KernelContext<T>,
    b: KernelContext<T>,
    kernel: DerivedKernel,
    spacing: Option<(T, T)>,
    rules: ComputeRules<T, K, A, R, C, N, L, X, B, GD, GU, GS, GM, GW>,
    x: Result<KernelAnswer<T>, String>,
    y: Result<KernelAnswer<T>, String>,
)
    requires
        settled(rules),
        alike(a, b),
        kernel_runs::advected(a, kernel, spacing, rules.run, rules.levels, x),
        kernel_runs::advected(b, kernel, spacing, rules.run, rules.levels, y),
    ensures
        same_answer(x, y),
{
    let level = kernel_runs::advection_level(kernel);
    let p = choose|planes: AdvectionPlanes<T>|
        #[trigger] kernel_runs::planes_at(a, level, rules.levels, planes)
            && match kernel_runs::plane_gap(level, planes) {
            Some(message) => x is Err && x->Err_0@ == message,
            None => spacing is Some && kernel_runs::asked(
                rules.run,
                a.nx,
                a.ny,
                KernelWork::Advection {
                    kernel,
                    temperature_c: &planes.temperature_c->Some_0,
                    u_ms: &planes.u_ms->Some_0,
                    v_ms: &planes.v_ms->Some_0,
                    dx_m: spacing->Some_0.0,
                    dy_m: spacing->Some_0.1,
                },
                x,
            ),
        };
    let q = choose|planes: AdvectionPlanes<T>|
        #[trigger] kernel_runs::planes_at(b, level, rules.levels, planes)
            && match kernel_runs::plane_gap(level, planes) {
            Some(message) => y is Err && y->Err_0@ == message,
            None => spacing is Some && kernel_runs::asked(
                rules.run,
                b.nx,
                b.ny,
                KernelWork::Advection {
                    kernel,
                    temperature_c: &planes.temperature_c->Some_0,
                    u_ms: &planes.u_ms->Some_0,
                    v_ms: &planes.v_ms->Some_0,
                    dx_m: spacing->Some_0.0,
                    dy_m: spacing->Some_0.1,
                },
                y,
            ),
        };
    let pressures = match a.pressure_3d_pa {
        Some(pressures) => Some(pressures@),
        None => None,
    };
    let nxy = a.nx * a.ny;
    lemma_one_plane(
        a.temperature_c@,
        a.levels_hpa@,
        pressures,
        level,
        nxy,
        rules.levels,
        levels::optional_plane(p.temperature_c),
        levels::optional_plane(q.temperature_c),
    );
    lemma_one_plane(
        a.u_ms@,
        a.levels_hpa@,
        pressures,
        level,
        nxy,
        rules.levels,
        levels::optional_plane(p.u_ms),
        levels::optional_plane(q.u_ms),
    );
    lemma_one_plane(
        a.v_ms@,
        a.levels_hpa@,
        pressures,
        level,
        nxy,
        rules.levels,
        levels::optional_plane(p.v_ms),
        levels::optional_plane(q.v_ms),
    );
    if kernel_runs::plane_gap(level, p) is None {
        lemma_asked_the_same(
            rules.run,
            a.nx,
            a.ny,
            KernelWork::Advection {
                kernel,
                temperature_c: &p.temperature_c->Some_0,
                u_ms: &p.u_ms->Some_0,
                v_ms: &p.v_ms->Some_0,
                dx_m: spacing->Some_0.0,
                dy_m: spacing->Some_0.1,
            },
            KernelWork::Advection {
                kernel,
                temperature_c: &q.temperature_c->Some_0,
                u_ms: &q.u_ms->Some_0,
                v_ms: &q.v_ms->Some_0,
                dx_m: spacing->Some_0.0,
                dy_m: spacing->Some_0.1,
            },
            x,
            y,
        );
    }
}

proof fn lemma_spaced_alike<
    T,
    GD: Fn(T, T, T, T) -> T,
    GU: Fn(T) -> bool,
    GS: Fn(T, T) -> T,
    GM: Fn(T, usize) -> T,
    GW: Fn(LengthMismatch) -> String,
>(
    a: KernelContext<T>,
    b: KernelContext<T>,
    rules: SpacingRules<T, GD, GU, GS, GM>,
    wording: GW,
    x: Result<KernelAnswer<T>, String>,
    y: Result<KernelAnswer<T>, String>,
)
    requires
        spacing::distances_settled(rules),
        alike(a, b),
        kernel_runs::spaced(a, rules, wording, x),
        kernel_runs::spaced(b, rules, wording, y),
    ensures
        same_answer(x, y),
{
    let m = choose|found: Result<(T, T), LengthMismatch>|
        #[trigger] spacing::is_spacing(a.nx, a.ny, a.lat@, a.lon@, rules, found) && match (
            found,
            x,
        ) {
            (Ok(found), Ok(answer)) => answer == (KernelAnswer::Spacing {
                dx_m: found.0,
                dy_m: found.1,
            }),
            (Err(mismatch), Err(message)) => call_ensures(wording, (mismatch,), message),
            _ => false,
        };
    let n = choose|found: Result<(T, T), LengthMismatch>|
        #[trigger] spacing::is_spacing(b.nx, b.ny, b.lat@, b.lon@, rules, found) && match (
            found,
            y,
        ) {
            (Ok(found), Ok(answer)) => answer == (KernelAnswer::Spacing {
                dx_m: found.0,
                dy_m: found.1,
            }),
            (Err(mismatch), Err(message)) => call_ensures(wording, (mismatch,), message),
            _ => false,
        };
    spacing::law_spacing_is_unique(a.nx, a.ny, a.lat@, a.lon@, rules, m, n);
}

proof fn lemma_answered_alike<
    T,
    K: for<'a> Fn(KernelCall<'a, T>) -> Result<KernelAnswer<T>, String>,
    A: Fn(T, T) -> T,
    R: Fn(T, T) -> T,
    C: Fn(T) -> T,
    N: Fn(T) -> T,
    L: Fn(T, u64) -> bool,
    X: Fn(T, T, u64) -> bool,
    B: Fn(T, T, T, T, u64) -> T,
    GD: Fn(T, T, T, T) -> T,
    GU: Fn(T) -> bool,
    GS: Fn(T, T) -> T,
    GM: Fn(T, usize) -> T,
    GW: Fn(LengthMismatch) -> String,
>(
    a: KernelContext<T>,
    b: KernelContext<T>,
    kernel: DerivedKernel,
    spacing: Option<(T, T)>,
    rules: ComputeRules<T, K, A, R, C, N, L, X, B, GD, GU, GS, GM, GW>,
    x: Result<KernelAnswer<T>, String>,
    y: Result<KernelAnswer<T>, String>,
)
    requires
        settled(rules),
        alike(a, b),
        kernel_runs::answered(a, kernel, spacing, rules, x),
        kernel_runs::answered(b, kernel, spacing, rules, y),
    ensures
        same_answer(x, y),
{
    if kernel.reads_volume() {
        let v = kernel_runs::volume_of(a);
        let w = kernel_runs::volume_of(b);
        assert(v is Ok <==> w is Ok);
        if v is Ok {
            lemma_asked_the_same(
                rules.run,
                a.nx,
                a.ny,
                KernelWork::Thermodynamic { kernel, volume: v->Ok_0, surface: a.surface },
                KernelWork::Thermodynamic { kernel, volume: w->Ok_0, surface: b.surface },
                x,
                y,
            );
        }
    } else if kernel.reads_wind_profile() {
        let v = kernel_runs::wind_of(a);
        let w = kernel_runs::wind_of(b);
        assert(v is Ok <==> w is Ok);
        if v is Ok {
            lemma_asked_the_same(
                rules.run,
                a.nx,
                a.ny,
                KernelWork::Wind { kernel, wind: v->Ok_0, lat: a.lat },
                KernelWork::Wind { kernel, wind: w->Ok_0, lat: b.lat },
                x,
                y,
            );
        }
    } else if kernel == DerivedKernel::SurfaceThermo {
        lemma_asked_the_same(
            rules.run,
            a.nx,
            a.ny,
            KernelWork::Surface { surface: a.surface },
            KernelWork::Surface { surface: b.surface },
            x,
            y,
        );
    } else if kernel == DerivedKernel::GridSpacing {
        lemma_spaced_alike(a, b, rules.spacing, rules.wording, x, y);
    } else {
        lemma_advected_alike(a, b, kernel, spacing, rules, x, y);
    }
}

proof fn lemma_ran_alike<
    T,
    K: for<'a> Fn(KernelCall<'a, T>) -> Result<KernelAnswer<T>, String>,
    A: Fn(T, T) -> T,
    R: Fn(T, T) -> T,
    C: Fn(T) -> T,
    N: Fn(T) -> T,
    L: Fn(T, u64) -> bool,
    X: Fn(T, T, u64) -> bool,
    B: Fn(T, T, T, T, u64) -> T,
    GD: Fn(T, T, T, T) -> T,
    GU: Fn(T) -> bool,
    GS: Fn(T, T) -> T,
    GM: Fn(T, usize) -> T,
    GW: Fn(LengthMismatch) -> String,
>(
    a: KernelContext<T>,
    b: KernelContext<T>,
    list: Seq<DerivedKernel>,
    rules: ComputeRules<T, K, A, R, C, N, L, X, B, GD, GU, GS, GM, GW>,
    x: Seq<KernelAnswer<T>>,
    y: Seq<KernelAnswer<T>>,
    len: int,
)
    requires
        settled(rules),
        alike(a, b),
        kernel_runs::ran(a, list, rules, x),
        kernel_runs::ran(b, list, rules, y),
        0 <= len <= list.len(),
    ensures
        x.take(len) == y.take(len),
    decreases len,
{
    if len > 0 {
        let i = len - 1;
        lemma_ran_alike(a, b, list, rules, x, y, i);
        assert(kernel_runs::answered(
            a,
            list[i],
            kernel_runs::spacing_of(x.take(i)),
            rules,
            Ok::<KernelAnswer<T>, String>(x[i]),
        ));
        assert(kernel_runs::answered(
            b,
            list[i],
            kernel_runs::spacing_of(y.take(i)),
            rules,
            Ok::<KernelAnswer<T>, String>(y[i]),
        ));
        lemma_answered_alike(
            a,
            b,
            list[i],
            kernel_runs::spacing_of(x.take(i)),
            rules,
            Ok::<KernelAnswer<T>, String>(x[i]),
            Ok::<KernelAnswer<T>, String>(y[i]),
        );
        assert(x.take(len) =~= x.take(i).push(x[i]));
        assert(y.take(len) =~= y.take(i).push(y[i]));
    } else {
        assert(x.take(len) =~= y.take(len));
    }
}

proof fn lemma_whole_run_alike<
    T,
    K: for<'a> Fn(KernelCall<'a, T>) -> Result<KernelAnswer<T>, String>,
    A: Fn(T, T) -> T,
    R: Fn(T, T) -> T,
    C: Fn(T) -> T,
    N: Fn(T) -> T,
    L: Fn(T, u64) -> bool,
    X: Fn(T, T, u64) -> bool,
    B: Fn(T, T, T, T, u64) -> T,
    GD: Fn(T, T, T, T) -> T,
    GU: Fn(T) -> bool,
    GS: Fn(T, T) -> T,
    GM: Fn(T, usize) -> T,
    GW: Fn(LengthMismatch) -> String,
>(
    a: KernelContext<T>,
    b: KernelContext<T>,
    list: Seq<DerivedKernel>,
    rules: ComputeRules<T, K, A, R, C, N, L, X, B, GD, GU, GS, GM, GW>,
    x: Seq<KernelAnswer<T>>,
    y: Seq<KernelAnswer<T>>,
)
    requires
        settled(rules),
        alike(a, b),
        kernel_runs::ran(a, list, rules, x),
        kernel_runs::ran(b, list, rules, y),
    ensures
        x == y,
{
    lemma_ran_alike(a, b, list, rules, x, y, list.len() as int);
    assert(x.take(list.len() as int) =~= x);
    assert(y.take(list.len() as int) =~= y);
}

proof fn lemma_complete_run_does_not_stop<
    T,
    K: for<'a> Fn(KernelCall<'a, T>) -> Result<KernelAnswer<T>, String>,
    A: Fn(T, T) -> T,
    R: Fn(T, T) -> T,
    C: Fn(T) -> T,
    N: Fn(T) -> T,
    L: Fn(T, u64) -> bool,
    X: Fn(T, T, u64) -> bool,
    B: Fn(T, T, T, T, u64) -> T,
    GD: Fn(T, T, T, T) -> T,
    GU: Fn(T) -> bool,
    GS: Fn(T, T) -> T,
    GM: Fn(T, usize) -> T,
    GW: Fn(LengthMismatch) -> String,
>(
    a: KernelContext<T>,
    b: KernelContext<T>,
    list: Seq<DerivedKernel>,
    rules: ComputeRules<T, K, A, R, C, N, L, X, B, GD, GU, GS, GM, GW>,
    x: Seq<KernelAnswer<T>>,
    message: String,
)
    requires
        settled(rules),
        alike(a, b),
        kernel_runs::ran(a, list, rules, x),
    ensures
        !kernel_runs::stopped(b, list, rules, message),
{
    if kernel_runs::stopped(b, list, rules, message) {
        let done = choose|done: Seq<KernelAnswer<T>>|
            {
                &&& done.len() < list.len()
                &&& #[trigger] kernel_runs::ran(b, list.take(done.len() as int), rules, done)
                &&& kernel_runs::answered(
                    b,
                    list[done.len() as int],
                    kernel_runs::spacing_of(done),
                    rules,
                    Err::<KernelAnswer<T>, String>(message),
                )
            };
        let n = done.len() as int;
        let first = x.take(n);
        assert forall|i: int| 0 <= i < n implies kernel_runs::answered(
            a,
            list.take(n)[i],
            kernel_runs::spacing_of(first.take(i)),
            rules,
            Ok::<KernelAnswer<T>, String>(#[trigger] first[i]),
        ) by {
            assert(first.take(i) =~= x.take(i));
            assert(first[i] == x[i]);
        }
        assert(kernel_runs::ran(a, list.take(n), rules, first));
        lemma_whole_run_alike(a, b, list.take(n), rules, first, done);
        let answer = Ok::<KernelAnswer<T>, String>(x[n]);
        assert(kernel_runs::answered(a, list[n], kernel_runs::spacing_of(x.take(n)), rules, answer));
        lemma_answered_alike(
            a,
            b,
            list[n],
            kernel_runs::spacing_of(done),
            rules,
            answer,
            Err::<KernelAnswer<T>, String>(message),
        );
    }
}

proof fn lemma_combined_alike<
    T,
    K: for<'a> Fn(KernelCall<'a, T>) -> Result<KernelAnswer<T>, String>,
>(
    run: K,
    nx: usize,
    ny: usize,
    kernel: DerivedKernel,
    parcels: ParcelOutputs<T>,
    outputs: IndependentOutputs<T>,
    x: Result<KernelAnswer<T>, String>,
    y: Result<KernelAnswer<T>, String>,
)
    requires
        answers_settled(run),
        kernel_runs::combined(run, nx, ny, kernel, parcels, outputs, x),
        kernel_runs::combined(run, nx, ny, kernel, parcels, outputs, y),
    ensures
        same_answer(x, y),
{
    if assemble::composite_gap(kernel, parcels, outputs) is None {
        let p = choose|inputs: CompositeInputs<T>|
            #[trigger] assemble::inputs_of(kernel, inputs, parcels, outputs) && kernel_runs::asked(
                run,
                nx,
                ny,
                KernelWork::Composite { kernel, inputs },
                x,
            );
        let q = choose|inputs: CompositeInputs<T>|
            #[trigger] assemble::inputs_of(kernel, inputs, parcels, outputs) && kernel_runs::asked(
                run,
                nx,
                ny,
                KernelWork::Composite { kernel, inputs },
                y,
            );
        lemma_asked_the_same(
            run,
            nx,
            ny,
            KernelWork::Composite { kernel, inputs: p },
            KernelWork::Composite { kernel, inputs: q },
            x,
            y,
        );
    }
}

proof fn lemma_composites_alike<
    T,
    K: for<'a> Fn(KernelCall<'a, T>) -> Result<KernelAnswer<T>, String>,
>(
    run: K,
    nx: usize,
    ny: usize,
    list: Seq<DerivedKernel>,
    parcels: ParcelOutputs<T>,
    outputs: IndependentOutputs<T>,
    x: Seq<KernelAnswer<T>>,
    y: Seq<KernelAnswer<T>>,
)
    requires
        answers_settled(run),
        kernel_runs::composites_ran(run, nx, ny, list, parcels, outputs, x),
        kernel_runs::composites_ran(run, nx, ny, list, parcels, outputs, y),
    ensures
        x == y,
{
    assert forall|i: int| 0 <= i < list.len() implies x[i] == y[i] by {
        lemma_combined_alike(
            run,
            nx,
            ny,
            list[i],
            parcels,
            outputs,
            Ok::<KernelAnswer<T>, String>(x[i]),
            Ok::<KernelAnswer<T>, String>(y[i]),
        );
    }
    assert(x =~= y);
}

proof fn lemma_complete_composites_do_not_stop<
    T,
    K: for<'a> Fn(KernelCall<'a, T>) -> Result<KernelAnswer<T>, String>,
>(
    run: K,
    nx: usize,
    ny: usize,
    list: Seq<DerivedKernel>,
    parcels: ParcelOutputs<T>,
    outputs: IndependentOutputs<T>,
    x: Seq<KernelAnswer<T>>,
    message: String,
)
    requires
        answers_settled(run),
        kernel_runs::composites_ran(run, nx, ny, list, parcels, outputs, x),
    ensures
        !kernel_runs::composites_stopped(run, nx, ny, list, parcels, outputs, message),
{
    if kernel_runs::composites_stopped(run, nx, ny, list, parcels, outputs, message) {
        let done = choose|done: Seq<KernelAnswer<T>>|
            {
                &&& done.len() < list.len()
                &&& #[trigger] kernel_runs::composites_ran(
                    run,
                    nx,
                    ny,
                    list.take(done.len() as int),
                    parcels,
                    outputs,
                    done,
                )
                &&& kernel_runs::combined(
                    run,
                    nx,
                    ny,
                    list[done.len() as int],
                    parcels,
                    outputs,
                    Err::<KernelAnswer<T>, String>(message),
                )
            };
        let n = done.len() as int;
        lemma_combined_alike(
            run,
            nx,
            ny,
            list[n],
            parcels,
            outputs,
            Ok::<KernelAnswer<T>, String>(x[n]),
            Err::<KernelAnswer<T>, String>(message),
        );
    }
}

/// Whether two computations gave the same values: in the field of every recipe, and in
/// the winds at the surface.
pub open spec fn same_fields<T>(a: DerivedComputedFields<T>, b: DerivedComputedFields<T>) -> bool {
    &&& forall|recipe: DerivedRecipe|
        fields::field_view(#[trigger] a.slot(recipe)) == fields::field_view(b.slot(recipe))
    &&& fields::field_view(a.surface_u10_ms) == fields::field_view(b.surface_u10_ms)
    &&& fields::field_view(a.surface_v10_ms) == fields::field_view(b.surface_v10_ms)
}

/// Whether two computations ended alike: with the same values, or both with a failure.
pub open spec fn same_end<T>(
    a: Result<DerivedComputedFields<T>, String>,
    b: Result<DerivedComputedFields<T>, String>,
) -> bool {
    match (a, b) {
        (Ok(a), Ok(b)) => same_fields(a, b),
        (Err(_), Err(_)) => true,
        _ => false,
    }
}

proof fn lemma_converted_alike<T, F: Fn(T) -> T>(
    before: Option<Vec<T>>,
    a: Option<Vec<T>>,
    b: Option<Vec<T>>,
    convert: F,
)
    requires
        one_result(convert),
        assemble::converted(before, a, convert),
        assemble::converted(before, b, convert),
    ensures
        fields::field_view(a) == fields::field_view(b),
{
    reveal(one_result);
    if before is Some {
        let p = a->Some_0@;
        let q = b->Some_0@;
        assert forall|i: int| 0 <= i < p.len() implies p[i] == q[i] by {
            assert(call_ensures(convert, (before->Some_0@[i],), p[i]));
            assert(call_ensures(convert, (before->Some_0@[i],), q[i]));
        }
        assert(p =~= q);
    }
}

proof fn lemma_assembled_alike<T, F: Fn(T) -> T>(
    a: DerivedComputedFields<T>,
    b: DerivedComputedFields<T>,
    recipes: Seq<DerivedRecipe>,
    winds_10m: (Seq<T>, Seq<T>),
    parcels: ParcelOutputs<T>,
    outputs: IndependentOutputs<T>,
    composites: assemble::CompositeOutputs<T>,
    to_knots: F,
)
    requires
        one_result(to_knots),
        assemble::assembled(a, recipes, winds_10m, parcels, outputs, composites, to_knots),
        assemble::assembled(b, recipes, winds_10m, parcels, outputs, composites, to_knots),
    ensures
        same_fields(a, b),
{
    lemma_converted_alike(outputs.shear_01km_ms, a.shear_01km_kt, b.shear_01km_kt, to_knots);
    lemma_converted_alike(outputs.shear_06km_ms, a.shear_06km_kt, b.shear_06km_kt, to_knots);
    assert forall|recipe: DerivedRecipe| fields::field_view(#[trigger] a.slot(recipe))
        == fields::field_view(b.slot(recipe)) by {}
}

/// Whether phases are the kernels of a computation in some order.
pub open spec fn orders_kernels(
    phases: Seq<Seq<DerivedKernel>>,
    needs: DerivedRequirements,
) -> bool {
    forall|at: int|
        0 <= at < phases.len() ==> {
            ||| #[trigger] phases[at] == compute::parcel_list(needs)
            ||| phases[at] == compute::thermodynamic_list(needs)
            ||| phases[at] == compute::wind_list(needs)
        }
}

proof fn lemma_computed_does_not_fail<
    T,
    K: for<'a> Fn(KernelCall<'a, T>) -> Result<KernelAnswer<T>, String>,
    A: Fn(T, T) -> T,
    R: Fn(T, T) -> T,
    C: Fn(T) -> T,
    N: Fn(T) -> T,
    L: Fn(T, u64) -> bool,
    X: Fn(T, T, u64) -> bool,
    B: Fn(T, T, T, T, u64) -> T,
    GD: Fn(T, T, T, T) -> T,
    GU: Fn(T) -> bool,
    GS: Fn(T, T) -> T,
    GM: Fn(T, usize) -> T,
    GW: Fn(LengthMismatch) -> String,
>(
    a: KernelContext<T>,
    b: KernelContext<T>,
    phases: Seq<Seq<DerivedKernel>>,
    recipes: Seq<DerivedRecipe>,
    rules: ComputeRules<T, K, A, R, C, N, L, X, B, GD, GU, GS, GM, GW>,
    computed: DerivedComputedFields<T>,
    message: String,
)
    requires
        settled(rules),
        alike(a, b),
        orders_kernels(phases, requirements::need_of_all(recipes)),
        compute::computed_by(a, recipes, rules, computed),
    ensures
        !compute::outcome(b, phases, recipes, rules, Err::<DerivedComputedFields<T>, String>(message)),
{
    if compute::outcome(b, phases, recipes, rules, Err::<DerivedComputedFields<T>, String>(message)) {
        let needs = requirements::need_of_all(recipes);
        let (parcels, thermo, winds, composites) = choose|
            parcels: Seq<KernelAnswer<T>>,
            thermo: Seq<KernelAnswer<T>>,
            winds: Seq<KernelAnswer<T>>,
            composites: Seq<KernelAnswer<T>>,
        |
            #[trigger] compute::all_ran(a, needs, rules, parcels, thermo, winds, composites)
                && assemble::assembled(
                computed,
                recipes,
                (a.surface.u10_ms@, a.surface.v10_ms@),
                compute::parcels_of(needs, parcels),
                compute::independent_of(needs, thermo, winds),
                kernel_runs::folded(compute::composite_list(needs), composites).composites,
                rules.to_knots,
            );
        if exists|at: int| #[trigger] compute::stops_at(b, phases, rules, message, at) {
            let at = choose|at: int| #[trigger] compute::stops_at(b, phases, rules, message, at);
            if phases[at] == compute::parcel_list(needs) {
                lemma_complete_run_does_not_stop(a, b, phases[at], rules, parcels, message);
            } else if phases[at] == compute::thermodynamic_list(needs) {
                lemma_complete_run_does_not_stop(a, b, phases[at], rules, thermo, message);
            } else {
                lemma_complete_run_does_not_stop(a, b, phases[at], rules, winds, message);
            }
        } else {
            let (p, t, w) = choose|
                p: Seq<KernelAnswer<T>>,
                t: Seq<KernelAnswer<T>>,
                w: Seq<KernelAnswer<T>>,
            |
                #[trigger] compute::kernels_ran(b, needs, rules, p, t, w)
                    && kernel_runs::composites_stopped(
                    rules.run,
                    b.nx,
                    b.ny,
                    compute::composite_list(needs),
                    compute::parcels_of(needs, p),
                    compute::independent_of(needs, t, w),
                    message,
                );
            lemma_whole_run_alike(a, b, compute::parcel_list(needs), rules, parcels, p);
            lemma_whole_run_alike(a, b, compute::thermodynamic_list(needs), rules, thermo, t);
            lemma_whole_run_alike(a, b, compute::wind_list(needs), rules, winds, w);
            lemma_complete_composites_do_not_stop(
                rules.run,
                a.nx,
                a.ny,
                compute::composite_list(needs),
                compute::parcels_of(needs, p),
                compute::independent_of(needs, t, w),
                composites,
                message,
            );
        }
    }
}

proof fn lemma_computed_alike<
    T,
    K: for<'a> Fn(KernelCall<'a, T>) -> Result<KernelAnswer<T>, String>,
    A: Fn(T, T) -> T,
    R: Fn(T, T) -> T,
    C: Fn(T) -> T,
    N: Fn(T) -> T,
    L: Fn(T, u64) -> bool,
    X: Fn(T, T, u64) -> bool,
    B: Fn(T, T, T, T, u64) -> T,
    GD: Fn(T, T, T, T) -> T,
    GU: Fn(T) -> bool,
    GS: Fn(T, T) -> T,
    GM: Fn(T, usize) -> T,
    GW: Fn(LengthMismatch) -> String,
>(
    a: KernelContext<T>,
    b: KernelContext<T>,
    recipes: Seq<DerivedRecipe>,
    rules: ComputeRules<T, K, A, R, C, N, L, X, B, GD, GU, GS, GM, GW>,
    x: DerivedComputedFields<T>,
    y: DerivedComputedFields<T>,
)
    requires
        settled(rules),
        alike(a, b),
        compute::computed_by(a, recipes, rules, x),
        compute::computed_by(b, recipes, rules, y),
    ensures
        same_fields(x, y),
{
    let needs = requirements::need_of_all(recipes);
    let (parcels, thermo, winds, composites) = choose|
        parcels: Seq<KernelAnswer<T>>,
        thermo: Seq<KernelAnswer<T>>,
        winds: Seq<KernelAnswer<T>>,
        composites: Seq<KernelAnswer<T>>,
    |
        #[trigger] compute::all_ran(a, needs, rules, parcels, thermo, winds, composites)
            && assemble::assembled(
            x,
            recipes,
            (a.surface.u10_ms@, a.surface.v10_ms@),
            compute::parcels_of(needs, parcels),
            compute::independent_of(needs, thermo, winds),
            kernel_runs::folded(compute::composite_list(needs), composites).composites,
            rules.to_knots,
        );
    let (p, t, w, c) = choose|
        p: Seq<KernelAnswer<T>>,
        t: Seq<KernelAnswer<T>>,
        w: Seq<KernelAnswer<T>>,
        c: Seq<KernelAnswer<T>>,
    |
        #[trigger] compute::all_ran(b, needs, rules, p, t, w, c) && assemble::assembled(
            y,
            recipes,
            (b.surface.u10_ms@, b.surface.v10_ms@),
            compute::parcels_of(needs, p),
            compute::independent_of(needs, t, w),
            kernel_runs::folded(compute::composite_list(needs), c).composites,
            rules.to_knots,
        );
    lemma_whole_run_alike(a, b, compute::parcel_list(needs), rules, parcels, p);
    lemma_whole_run_alike(a, b, compute::thermodynamic_list(needs), rules, thermo, t);
    lemma_whole_run_alike(a, b, compute::wind_list(needs), rules, winds, w);
    lemma_composites_alike(
        rules.run,
        a.nx,
        a.ny,
        compute::composite_list(needs),
        compute::parcels_of(needs, p),
        compute::independent_of(needs, t, w),
        composites,
        c,
    );
    lemma_assembled_alike(
        x,
        y,
        recipes,
        (a.surface.u10_ms@, a.surface.v10_ms@),
        compute::parcels_of(needs, p),
        compute::independent_of(needs, t, w),
        kernel_runs::folded(compute::composite_list(needs), c).composites,
        rules.to_knots,
    );
}

proof fn lemma_ends_alike<
    T,
    K: for<'a> Fn(KernelCall<'a, T>) -> Result<KernelAnswer<T>, String>,
    A: Fn(T, T) -> T,
    R: Fn(T, T) -> T,
    C: Fn(T) -> T,
    N: Fn(T) -> T,
    L: Fn(T, u64) -> bool,
    X: Fn(T, T, u64) -> bool,
    B: Fn(T, T, T, T, u64) -> T,
    GD: Fn(T, T, T, T) -> T,
    GU: Fn(T) -> bool,
    GS: Fn(T, T) -> T,
    GM: Fn(T, usize) -> T,
    GW: Fn(LengthMismatch) -> String,
>(
    a: KernelContext<T>,
    b: KernelContext<T>,
    first: Seq<Seq<DerivedKernel>>,
    second: Seq<Seq<DerivedKernel>>,
    recipes: Seq<DerivedRecipe>,
    rules: ComputeRules<T, K, A, R, C, N, L, X, B, GD, GU, GS, GM, GW>,
    x: Result<DerivedComputedFields<T>, String>,
    y: Result<DerivedComputedFields<T>, String>,
)
    requires
        settled(rules),
        alike(a, b),
        orders_kernels(first, requirements::need_of_all(recipes)),
        orders_kernels(second, requirements::need_of_all(recipes)),
        compute::outcome(a, first, recipes, rules, x),
        compute::outcome(b, second, recipes, rules, y),
    ensures
        same_end(x, y),
{
    if x is Ok && y is Ok {
        lemma_computed_alike(a, b, recipes, rules, x->Ok_0, y->Ok_0);
    } else if x is Ok {
        lemma_computed_does_not_fail(a, b, second, recipes, rules, x->Ok_0, y->Err_0);
    } else if y is Ok {
        lemma_computed_does_not_fail(b, a, first, recipes, rules, y->Ok_0, x->Err_0);
    }
}

proof fn lemma_one_height<T, A: Fn(T, T) -> T, R: Fn(T, T) -> T>(
    a: Seq<T>,
    b: Seq<T>,
    geopotential: Seq<T>,
    orography: Seq<T>,
    plane: int,
    nz: int,
    above: A,
    raise: R,
    index: int,
)
    requires
        0 <= plane,
        one_result_of_two(above),
        one_result_of_two(raise),
        heavy_volume::heights_over(a, geopotential, orography, plane, nz, above, raise),
        heavy_volume::heights_over(b, geopotential, orography, plane, nz, above, raise),
        0 <= index < a.len(),
    ensures
        a[index] == b[index],
    decreases index,
{
    reveal(one_result_of_two);
    assert(levels::is_height(a, geopotential, orography, plane, nz, index, above, raise));
    assert(levels::is_height(b, geopotential, orography, plane, nz, index, above, raise));
    if plane <= index < plane * nz {
        if plane > 0 {
            lemma_one_height(
                a,
                b,
                geopotential,
                orography,
                plane,
                nz,
                above,
                raise,
                index - plane,
            );
        } else {
            assert(plane * nz == 0) by (nonlinear_arith)
                requires
                    plane == 0,
            ;
        }
    }
}

/// Heights over one orography are the same, however often they are taken.
pub proof fn lemma_heights_alike<T, A: Fn(T, T) -> T, R: Fn(T, T) -> T>(
    a: Seq<T>,
    b: Seq<T>,
    geopotential: Seq<T>,
    orography: Seq<T>,
    plane: int,
    nz: int,
    above: A,
    raise: R,
)
    requires
        0 <= plane,
        one_result_of_two(above),
        one_result_of_two(raise),
        heavy_volume::heights_over(a, geopotential, orography, plane, nz, above, raise),
        heavy_volume::heights_over(b, geopotential, orography, plane, nz, above, raise),
    ensures
        a == b,
{
    assert forall|index: int| 0 <= index < a.len() implies a[index] == b[index] by {
        lemma_one_height(a, b, geopotential, orography, plane, nz, above, raise, index);
    }
    assert(a =~= b);
}

proof fn lemma_pressures_alike<T, C: Fn(T) -> T>(
    p: PressureFields<T>,
    q: PressureFields<T>,
    needs: DerivedRequirements,
    to_pa: C,
    a: Option<&Vec<T>>,
    b: Option<&Vec<T>>,
)
    requires
        one_result(to_pa),
        p.pressure_levels_hpa == q.pressure_levels_hpa,
        p.pressure_3d_pa == q.pressure_3d_pa,
        compute::pressures_prepared(p, needs, to_pa, a),
        compute::pressures_prepared(q, needs, to_pa, b),
    ensures
        same_optional(a, b),
{
    reveal(one_result);
    if needs.spec_needs_volume() && p.pressure_3d_pa is None {
        let x = a->Some_0@;
        let y = b->Some_0@;
        assert forall|i: int| 0 <= i < x.len() implies x[i] == y[i] by {
            assert(call_ensures(to_pa, (p.pressure_levels_hpa@[i],), x[i]));
            assert(call_ensures(to_pa, (p.pressure_levels_hpa@[i],), y[i]));
        }
        assert(x =~= y);
    }
}

/// Whether given heights are those that an analysis gives over the orography.
pub open spec fn heights_of<'a, T, P, A: Fn(T, T) -> T, R: Fn(T, T) -> T>(
    surface: SurfaceFields<T, P>,
    pressure: PressureFields<T>,
    above: A,
    raise: R,
    given: Option<&'a Vec<T>>,
) -> bool {
    given matches Some(heights) ==> heavy_volume::heights_over(
        heights@,
        pressure.gh_m_3d@,
        surface.orog_m@,
        surface.nx * surface.ny,
        pressure.pressure_levels_hpa@.len() as int,
        above,
        raise,
    )
}

/// Whether heights are had from the same place, or handed in on one side as the other
/// side has them.
spec fn heights_agree<'a, T, P, A: Fn(T, T) -> T, R: Fn(T, T) -> T>(
    surface: SurfaceFields<T, P>,
    p: PressureFields<T>,
    q: PressureFields<T>,
    given: Option<&'a Vec<T>>,
    other: Option<&'a Vec<T>>,
    above: A,
    raise: R,
) -> bool {
    ||| given == other && p.gh_m_3d == q.gh_m_3d
    ||| given is Some && other is None && heights_of(surface, q, above, raise, given)
}

proof fn lemma_reads_alike<
    T,
    P,
    K: for<'a> Fn(KernelCall<'a, T>) -> Result<KernelAnswer<T>, String>,
    A: Fn(T, T) -> T,
    R: Fn(T, T) -> T,
    C: Fn(T) -> T,
    N: Fn(T) -> T,
    L: Fn(T, u64) -> bool,
    X: Fn(T, T, u64) -> bool,
    B: Fn(T, T, T, T, u64) -> T,
    GD: Fn(T, T, T, T) -> T,
    GU: Fn(T) -> bool,
    GS: Fn(T, T) -> T,
    GM: Fn(T, usize) -> T,
    GW: Fn(LengthMismatch) -> String,
>(
    a: KernelContext<T>,
    b: KernelContext<T>,
    surface: SurfaceFields<T, P>,
    p: PressureFields<T>,
    q: PressureFields<T>,
    u_ms: Vec<T>,
    v_ms: Vec<T>,
    needs: DerivedRequirements,
    given: Option<&Vec<T>>,
    other: Option<&Vec<T>>,
    rules: ComputeRules<T, K, A, R, C, N, L, X, B, GD, GU, GS, GM, GW>,
)
    requires
        settled(rules),
        compute::reads(a, surface, p, u_ms, v_ms, needs, given, rules),
        compute::reads(b, surface, q, u_ms, v_ms, needs, other, rules),
        q == (PressureFields {
            gh_m_3d: q.gh_m_3d,
            u_ms_3d: q.u_ms_3d,
            v_ms_3d: q.v_ms_3d,
            ..p
        }),
        heights_agree(surface, p, q, given, other, rules.above, rules.raise),
    ensures
        alike(a, b),
{
    lemma_pressures_alike(p, q, needs, rules.to_pa, a.pressure_pa, b.pressure_pa);
    if needs.spec_needs_height_agl() && other is None {
        let plane = surface.nx * surface.ny;
        assert(0 <= plane) by (nonlinear_arith)
            requires
                plane == surface.nx * surface.ny,
        ;
        lemma_heights_alike(
            a.height_agl_m->Some_0@,
            b.height_agl_m->Some_0@,
            q.gh_m_3d@,
            surface.orog_m@,
            plane,
            q.pressure_levels_hpa@.len() as int,
            rules.above,
            rules.raise,
        );
    }
}

proof fn lemma_shape_settled<
    T,
    K: for<'a> Fn(KernelCall<'a, T>) -> Result<KernelAnswer<T>, String>,
>(run: K, nx: usize, ny: usize, nz: Option<usize>, message: String)
    requires
        answers_settled(run),
        compute::shape_checked(run, nx, ny, nz, None),
    ensures
        !compute::shape_checked(run, nx, ny, nz, Some(message)),
{
    let accepted = Ok::<KernelAnswer<T>, String>(KernelAnswer::Accepted);
    let refused = Err::<KernelAnswer<T>, String>(message);
    if kernel_runs::asked(run, nx, ny, KernelWork::Grid, refused) {
        lemma_asked_the_same(
            run,
            nx,
            ny,
            KernelWork::Grid,
            KernelWork::Grid,
            accepted,
            refused,
        );
    }
    if nz is Some && kernel_runs::asked(
        run,
        nx,
        ny,
        KernelWork::Levels { nz: nz->Some_0 },
        refused,
    ) {
        lemma_asked_the_same(
            run,
            nx,
            ny,
            KernelWork::Levels { nz: nz->Some_0 },
            KernelWork::Levels { nz: nz->Some_0 },
            accepted,
            refused,
        );
    }
}

/// A computation whose kernels and arithmetic give one answer each gives one answer:
/// done twice on the same analyses it ends with the same values, or fails both times.
/// Heights that are handed in and are those over the orography change nothing of that,
/// and the geopotential heights may then have been given up.
pub proof fn law_computation_gives_one_answer<
    T,
    P,
    K: for<'a> Fn(KernelCall<'a, T>) -> Result<KernelAnswer<T>, String>,
    A: Fn(T, T) -> T,
    R: Fn(T, T) -> T,
    C: Fn(T) -> T,
    N: Fn(T) -> T,
    L: Fn(T, u64) -> bool,
    X: Fn(T, T, u64) -> bool,
    B: Fn(T, T, T, T, u64) -> T,
    GD: Fn(T, T, T, T) -> T,
    GU: Fn(T) -> bool,
    GS: Fn(T, T) -> T,
    GM: Fn(T, usize) -> T,
    GW: Fn(LengthMismatch) -> String,
>(
    surface: SurfaceFields<T, P>,
    pressure: PressureFields<T>,
    left: PressureFields<T>,
    recipes: Seq<DerivedRecipe>,
    given: Option<&Vec<T>>,
    rules: ComputeRules<T, K, A, R, C, N, L, X, B, GD, GU, GS, GM, GW>,
    x: Result<DerivedComputedFields<T>, String>,
    y: Result<DerivedComputedFields<T>, String>,
)
    requires
        settled(rules),
        left == (PressureFields { gh_m_3d: left.gh_m_3d, ..pressure }),
        given is None ==> left.gh_m_3d == pressure.gh_m_3d,
        heights_of(surface, pressure, rules.above, rules.raise, given),
        compute::computes(surface, left, recipes, given, rules, x),
        compute::computes(surface, pressure, recipes, None, rules, y),
    ensures
        same_end(x, y),
{
    let needs = requirements::need_of_all(recipes);
    let nz = compute::levels_of(pressure, needs);
    assert(nz == compute::levels_of(left, needs));
    let x_refused = x is Err && compute::shape_checked(
        rules.run,
        surface.nx,
        surface.ny,
        nz,
        Some(x->Err_0),
    );
    let y_refused = y is Err && compute::shape_checked(
        rules.run,
        surface.nx,
        surface.ny,
        nz,
        Some(y->Err_0),
    );
    if x_refused && !y_refused {
        lemma_shape_settled(rules.run, surface.nx, surface.ny, nz, x->Err_0);
    }
    if y_refused && !x_refused {
        lemma_shape_settled(rules.run, surface.nx, surface.ny, nz, y->Err_0);
    }
    if !x_refused && !y_refused {
        let a = choose|context: KernelContext<T>|
            {
                &&& #[trigger] compute::reads(
                    context,
                    surface,
                    left,
                    left.u_ms_3d,
                    left.v_ms_3d,
                    needs,
                    given,
                    rules,
                )
                &&& *context.volume_u_ms == left.u_ms_3d
                &&& *context.volume_v_ms == left.v_ms_3d
                &&& compute::outcome(context, compute::generic_phases(needs), recipes, rules, x)
            };
        let b = choose|context: KernelContext<T>|
            {
                &&& #[trigger] compute::reads(
                    context,
                    surface,
                    pressure,
                    pressure.u_ms_3d,
                    pressure.v_ms_3d,
                    needs,
                    None,
                    rules,
                )
                &&& *context.volume_u_ms == pressure.u_ms_3d
                &&& *context.volume_v_ms == pressure.v_ms_3d
                &&& compute::outcome(context, compute::generic_phases(needs), recipes, rules, y)
            };
        lemma_reads_alike(
            a,
            b,
            surface,
            left,
            pressure,
            pressure.u_ms_3d,
            pressure.v_ms_3d,
            needs,
            given,
            None,
            rules,
        );
        let phases = compute::generic_phases(needs);
        assert(orders_kernels(phases, needs));
        lemma_ends_alike(a, b, phases, phases, recipes, rules, x, y);
    }
}

/// The fields of a computation that gives the wind volumes up early.
pub open spec fn phased_fields<T>(
    result: Result<(DerivedComputedFields<T>, Option<TakenWindVolumes<T>>), String>,
) -> Result<DerivedComputedFields<T>, String> {
    match result {
        Ok((computed, _)) => Ok(computed),
        Err(message) => Err(message),
    }
}

/// Giving the wind volumes up early changes nothing: where the kernels and the
/// arithmetic give one answer each, the computation from the analysis with its winds
/// taken out and the computation from the whole analysis end with the same values, or
/// both fail. The one may be handed its heights and have given up the geopotential
/// heights while the other assembles its own.
#[verifier::rlimit(40)]
pub proof fn law_phased_and_generic_end_alike<
    T,
    P,
    K: for<'a> Fn(KernelCall<'a, T>) -> Result<KernelAnswer<T>, String>,
    A: Fn(T, T) -> T,
    R: Fn(T, T) -> T,
    C: Fn(T) -> T,
    N: Fn(T) -> T,
    L: Fn(T, u64) -> bool,
    X: Fn(T, T, u64) -> bool,
    B: Fn(T, T, T, T, u64) -> T,
    GD: Fn(T, T, T, T) -> T,
    GU: Fn(T) -> bool,
    GS: Fn(T, T) -> T,
    GM: Fn(T, usize) -> T,
    GW: Fn(LengthMismatch) -> String,
>(
    surface: SurfaceFields<T, P>,
    whole: PressureFields<T>,
    left: PressureFields<T>,
    winds: TakenWindVolumes<T>,
    recipes: Seq<DerivedRecipe>,
    given: Option<&Vec<T>>,
    keep_winds: bool,
    rules: ComputeRules<T, K, A, R, C, N, L, X, B, GD, GU, GS, GM, GW>,
    x: Result<(DerivedComputedFields<T>, Option<TakenWindVolumes<T>>), String>,
    y: Result<DerivedComputedFields<T>, String>,
)
    requires
        settled(rules),
        whole == (PressureFields {
            gh_m_3d: whole.gh_m_3d,
            u_ms_3d: winds.u_ms_3d,
            v_ms_3d: winds.v_ms_3d,
            ..left
        }),
        given is None ==> left.gh_m_3d == whole.gh_m_3d,
        heights_of(surface, whole, rules.above, rules.raise, given),
        phased::computes_wind_first(
            surface,
            left,
            winds,
            recipes,
            given,
            keep_winds,
            rules,
            x,
        ),
        compute::computes(surface, whole, recipes, None, rules, y),
    ensures
        same_end(phased_fields(x), y),
        x is Ok ==> x->Ok_0.1 == assemble::winds_kept(winds, keep_winds),
{
    let needs = requirements::need_of_all(recipes);
    let nz = compute::levels_of(whole, needs);
    let fields = phased_fields(x);
    assert(nz == compute::levels_of(left, needs));
    let x_refused = x is Err && compute::shape_checked(
        rules.run,
        surface.nx,
        surface.ny,
        nz,
        Some(x->Err_0),
    );
    let y_refused = y is Err && compute::shape_checked(
        rules.run,
        surface.nx,
        surface.ny,
        nz,
        Some(y->Err_0),
    );
    if x_refused && !y_refused {
        lemma_shape_settled(rules.run, surface.nx, surface.ny, nz, x->Err_0);
    }
    if y_refused && !x_refused {
        lemma_shape_settled(rules.run, surface.nx, surface.ny, nz, y->Err_0);
    }
    if !x_refused && !y_refused {
        let first = compute::wind_first_phases(needs);
        let second = compute::generic_phases(needs);
        let a = choose|context: KernelContext<T>|
            {
                &&& #[trigger] compute::reads(
                    context,
                    surface,
                    left,
                    winds.u_ms_3d,
                    winds.v_ms_3d,
                    needs,
                    given,
                    rules,
                )
                &&& context.volume_u_ms@.len() == 0
                &&& context.volume_v_ms@.len() == 0
                &&& compute::outcome(context, first, recipes, rules, fields)
            };
        let b = choose|context: KernelContext<T>|
            {
                &&& #[trigger] compute::reads(
                    context,
                    surface,
                    whole,
                    whole.u_ms_3d,
                    whole.v_ms_3d,
                    needs,
                    None,
                    rules,
                )
                &&& *context.volume_u_ms == whole.u_ms_3d
                &&& *context.volume_v_ms == whole.v_ms_3d
                &&& compute::outcome(context, second, recipes, rules, y)
            };
        lemma_reads_alike(
            a,
            b,
            surface,
            left,
            whole,
            winds.u_ms_3d,
            winds.v_ms_3d,
            needs,
            given,
            None,
            rules,
        );
        assert(orders_kernels(first, needs));
        assert(orders_kernels(second, needs));
        lemma_ends_alike(a, b, first, second, recipes, rules, fields, y);
    }
}

/// The heights that are prepared for both stages are the ones that any stage would have
/// assembled, over an orography of the surface's own; over a proxy none are prepared and
/// the analysis is left as it was.
pub proof fn law_prepared_heights_are_the_assembled_ones<
    T,
    P,
    A: Fn(T, T) -> T,
    R: Fn(T, T) -> T,
>(
    surface: SurfaceFields<T, P>,
    pressure: PressureFields<T>,
    above: A,
    raise: R,
    inputs: StoreComputeInputs<T, P>,
    assembled: Seq<T>,
)
    requires
        one_result_of_two(above),
        one_result_of_two(raise),
        store_inputs::takes_over(surface, pressure, above, raise, inputs),
        heavy_volume::heights_over(
            assembled,
            pressure.gh_m_3d@,
            surface.orog_m@,
            surface.nx * surface.ny,
            pressure.pressure_levels_hpa@.len() as int,
            above,
            raise,
        ),
    ensures
        !surface.orog_is_proxy ==> inputs.height_agl_3d is Some
            && inputs.height_agl_3d->Some_0@ == assembled && inputs.pressure.gh_m_3d@.len() == 0,
        surface.orog_is_proxy ==> inputs.height_agl_3d is None && inputs.pressure == pressure,
{
    if !surface.orog_is_proxy {
        assert(0 <= surface.nx * surface.ny) by (nonlinear_arith)
            requires
                0 <= surface.nx,
                0 <= surface.ny,
        ;
        lemma_heights_alike(
            inputs.height_agl_3d->Some_0@,
            assembled,
            pressure.gh_m_3d@,
            surface.orog_m@,
            surface.nx * surface.ny,
            pressure.pressure_levels_hpa@.len() as int,
            above,
            raise,
        );
    }
}

} // verus!
