//! What holds of the ECAPE fields where the kernels and the arithmetic give one answer:
//! they come out the same from volumes that hold the same values.
use crate::derived::kernel_runs::VolumeInputs;
use crate::derived::settled_laws;
use crate::ecape;
use crate::ecape_compute;
use crate::ecape_compute::{EcapeAnswer, EcapeCall, EcapeWork};
use crate::gridded::fields::{PressureFields, SurfaceFields};
use crate::gridded::heavy_volume;
use crate::gridded::heavy_volume::{HeightRules, PreparedHeavyVolume};
use crate::panel::WeatherPanelField;
use vstd::prelude::*;

verus! {

/// Whether two sets of volumes hold the same values, the winds included.
pub open spec fn same_volume_and_winds<T>(a: VolumeInputs<T>, b: VolumeInputs<T>) -> bool {
    &&& settled_laws::same_volume(a, b)
    &&& a.u_ms@ == b.u_ms@
    &&& a.v_ms@ == b.v_ms@
}

/// Whether kernels are asked to do the same on the same values.
pub open spec fn same_work<T>(a: EcapeWork<T>, b: EcapeWork<T>) -> bool {
    match (a, b) {
        (
            EcapeWork::Triplet { volume: v, surface: s, storm_motion: m },
            EcapeWork::Triplet { volume: w, surface: t, storm_motion: n },
        ) => same_volume_and_winds(v, w) && settled_laws::same_surface(s, t) && m@ == n@,
        (EcapeWork::Winds { wind: v }, EcapeWork::Winds { wind: w }) => {
            &&& v.nz == w.nz
            &&& v.u_3d_ms@ == w.u_3d_ms@
            &&& v.v_3d_ms@ == w.v_3d_ms@
            &&& v.height_agl_3d_m@ == w.height_agl_3d_m@
        },
        (EcapeWork::ScpEhi { scp_ehi: p }, EcapeWork::ScpEhi { scp_ehi: q }) => {
            &&& p.scp_cape_jkg@ == q.scp_cape_jkg@
            &&& p.scp_srh_m2s2@ == q.scp_srh_m2s2@
            &&& p.scp_bulk_wind_difference_ms@ == q.scp_bulk_wind_difference_ms@
            &&& p.ehi_cape_jkg@ == q.ehi_cape_jkg@
            &&& p.ehi_srh_m2s2@ == q.ehi_srh_m2s2@
        },
        (
            EcapeWork::Ehi { cape_jkg: p, srh_m2s2: q },
            EcapeWork::Ehi { cape_jkg: r, srh_m2s2: s },
        ) => p@ == r@ && q@ == s@,
        (
            EcapeWork::MixedLayer { volume: v, surface: s },
            EcapeWork::MixedLayer { volume: w, surface: t },
        ) => same_volume_and_winds(v, w) && settled_laws::same_surface(s, t),
        (
            EcapeWork::EffectiveLayer { volume: v, surface: s },
            EcapeWork::EffectiveLayer { volume: w, surface: t },
        ) => same_volume_and_winds(v, w) && settled_laws::same_surface(s, t),
        (EcapeWork::Stp { inputs: p }, EcapeWork::Stp { inputs: q }) => {
            &&& p.mlcape_jkg@ == q.mlcape_jkg@
            &&& p.mlcin_jkg@ == q.mlcin_jkg@
            &&& p.ml_lcl_m@ == q.ml_lcl_m@
            &&& p.effective_srh_m2s2@ == q.effective_srh_m2s2@
            &&& p.effective_bulk_wind_difference_ms@ == q.effective_bulk_wind_difference_ms@
        },
        _ => false,
    }
}

/// Whether two kernels answered the same, or both failed.
pub open spec fn same_answer<T>(
    a: Result<EcapeAnswer<T>, String>,
    b: Result<EcapeAnswer<T>, String>,
) -> bool {
    match (a, b) {
        (Ok(a), Ok(b)) => a == b,
        (Err(_), Err(_)) => true,
        _ => false,
    }
}

/// Whether the kernels answer the same whenever they are asked to do the same.
#[verifier::opaque]
pub open spec fn answers_settled<
    T,
    K: for<'a> Fn(EcapeCall<'a, T>) -> Result<EcapeAnswer<T>, String>,
>(run: K) -> bool {
    forall|
        a: EcapeCall<T>,
        b: EcapeCall<T>,
        x: Result<EcapeAnswer<T>, String>,
        y: Result<EcapeAnswer<T>, String>,
    |
        #![trigger call_ensures(run, (a,), x), call_ensures(run, (b,), y)]
        call_ensures(run, (a,), x) && call_ensures(run, (b,), y) && a.nx == b.nx && a.ny == b.ny
            && same_work(a.work, b.work) ==> same_answer(x, y)
}

/// Whether the rules of heights have one result each.
pub open spec fn heights_settled<
    T,
    A: Fn(T, T) -> T,
    S: Fn(T, T) -> T,
    L: Fn(T, T) -> T,
    E: Fn(T) -> T,
    C: Fn(T) -> T,
>(heights: HeightRules<T, A, S, L, E, C>) -> bool {
    &&& settled_laws::one_result_of_two(heights.above)
    &&& settled_laws::one_result_of_two(heights.raise)
    &&& settled_laws::one_result_of_two(heights.lower)
    &&& settled_laws::one_result(heights.settle)
    &&& settled_laws::one_result(heights.to_pa)
}

/// Whether two prepared volumes hold the same values, with a pressure for each level.
pub open spec fn alike<T>(a: PreparedHeavyVolume<T>, b: PreparedHeavyVolume<T>) -> bool {
    &&& a.nx == b.nx
    &&& a.ny == b.ny
    &&& a.nz == b.nz
    &&& a.pressure_3d_pa is None
    &&& b.pressure_3d_pa is None
    &&& a.pressure_levels_pa@ == b.pressure_levels_pa@
    &&& a.height_agl_3d@ == b.height_agl_3d@
}

proof fn lemma_one_chain<T, L: Fn(T, T) -> T>(
    heights: Seq<T>,
    plane: int,
    nz: int,
    column: int,
    start: T,
    lower: L,
    a: Seq<T>,
    b: Seq<T>,
    k: int,
)
    requires
        settled_laws::one_result_of_two(lower),
        heavy_volume::is_chain(heights, plane, nz, column, start, lower, a),
        heavy_volume::is_chain(heights, plane, nz, column, start, lower, b),
        0 <= k <= nz,
    ensures
        a[k] == b[k],
    decreases k,
{
    reveal(settled_laws::one_result_of_two);
    if k > 0 {
        lemma_one_chain(heights, plane, nz, column, start, lower, a, b, k - 1);
        let height = heights[(k - 1) * plane + column];
        assert(call_ensures(lower, (a[k - 1], height), a[k]));
        assert(call_ensures(lower, (b[k - 1], height), b[k]));
    }
}

proof fn lemma_one_lowest<T, L: Fn(T, T) -> T, S: Fn(T) -> T>(
    heights: Seq<T>,
    plane: int,
    nz: int,
    column: int,
    start: T,
    lower: L,
    settle: S,
    x: T,
    y: T,
)
    requires
        0 <= nz,
        settled_laws::one_result_of_two(lower),
        settled_laws::one_result(settle),
        heavy_volume::lowest_in_column(heights, plane, nz, column, start, lower, settle, x),
        heavy_volume::lowest_in_column(heights, plane, nz, column, start, lower, settle, y),
    ensures
        x == y,
{
    reveal(settled_laws::one_result);
    let a = choose|chain: Seq<T>|
        #[trigger] heavy_volume::is_chain(heights, plane, nz, column, start, lower, chain)
            && call_ensures(settle, (chain[nz],), x);
    let b = choose|chain: Seq<T>|
        #[trigger] heavy_volume::is_chain(heights, plane, nz, column, start, lower, chain)
            && call_ensures(settle, (chain[nz],), y);
    lemma_one_chain(heights, plane, nz, column, start, lower, a, b, nz);
}

/// The volumes of a pair of analyses are the same, however often they are prepared.
pub proof fn lemma_prepared_alike<
    T,
    P,
    A: Fn(T, T) -> T,
    S: Fn(T, T) -> T,
    L: Fn(T, T) -> T,
    E: Fn(T) -> T,
    C: Fn(T) -> T,
>(
    surface: SurfaceFields<T, P>,
    pressure: PressureFields<T>,
    heights: HeightRules<T, A, S, L, E, C>,
    a: PreparedHeavyVolume<T>,
    b: PreparedHeavyVolume<T>,
)
    requires
        heights_settled(heights),
        ecape_compute::prepared_from(surface, pressure, heights, a),
        ecape_compute::prepared_from(surface, pressure, heights, b),
    ensures
        alike(a, b),
{
    let plane = surface.nx * surface.ny;
    let nz = pressure.pressure_levels_hpa@.len() as int;
    assert(0 <= plane) by (nonlinear_arith)
        requires
            plane == surface.nx * surface.ny,
    ;
    let p = a.pressure_levels_pa@;
    let q = b.pressure_levels_pa@;
    assert forall|i: int| 0 <= i < p.len() implies p[i] == q[i] by {
        reveal(settled_laws::one_result);
        assert(p[i * 1 + 0] == p[i]);
        assert(q[i * 1 + 0] == q[i]);
        assert(call_ensures(heights.to_pa, (pressure.pressure_levels_hpa@[i],), p[i * 1 + 0]));
        assert(call_ensures(heights.to_pa, (pressure.pressure_levels_hpa@[i],), q[i * 1 + 0]));
    }
    assert(p =~= q);
    let x = choose|orography: Seq<T>|
        #[trigger] heavy_volume::is_orography(
            surface,
            pressure,
            heights.lower,
            heights.settle,
            heights.highest,
            orography,
        ) && heavy_volume::heights_over(
            a.height_agl_3d@,
            pressure.gh_m_3d@,
            orography,
            plane,
            nz,
            heights.above,
            heights.raise,
        );
    let y = choose|orography: Seq<T>|
        #[trigger] heavy_volume::is_orography(
            surface,
            pressure,
            heights.lower,
            heights.settle,
            heights.highest,
            orography,
        ) && heavy_volume::heights_over(
            b.height_agl_3d@,
            pressure.gh_m_3d@,
            orography,
            plane,
            nz,
            heights.above,
            heights.raise,
        );
    if surface.orog_is_proxy {
        assert forall|column: int| 0 <= column < plane implies x[column] == y[column] by {
            lemma_one_lowest(
                pressure.gh_m_3d@,
                plane,
                nz,
                column,
                heights.highest,
                heights.lower,
                heights.settle,
                x[column],
                y[column],
            );
        }
        assert(x =~= y);
    }
    settled_laws::lemma_heights_alike(
        a.height_agl_3d@,
        b.height_agl_3d@,
        pressure.gh_m_3d@,
        x,
        plane,
        nz,
        heights.above,
        heights.raise,
    );
}

proof fn lemma_asked_alike<
    T,
    P,
    K: for<'a> Fn(EcapeCall<'a, T>) -> Result<EcapeAnswer<T>, String>,
>(
    surface: SurfaceFields<T, P>,
    pressure: PressureFields<T>,
    a: PreparedHeavyVolume<T>,
    b: PreparedHeavyVolume<T>,
    run: K,
    done: Seq<EcapeAnswer<T>>,
    x: Result<EcapeAnswer<T>, String>,
    y: Result<EcapeAnswer<T>, String>,
)
    requires
        answers_settled(run),
        alike(a, b),
        ecape_compute::asked_next(surface, pressure, a, run, done, x),
        ecape_compute::asked_next(surface, pressure, b, run, done, y),
    ensures
        same_answer(x, y),
{
    reveal(answers_settled);
    let v = EcapeCall {
        nx: a.nx,
        ny: a.ny,
        work: ecape_compute::next_work(&surface, &pressure, &a, done),
    };
    let w = EcapeCall {
        nx: b.nx,
        ny: b.ny,
        work: ecape_compute::next_work(&surface, &pressure, &b, done),
    };
    assert(same_work(v.work, w.work));
    assert(call_ensures(run, (v,), x));
    assert(call_ensures(run, (w,), y));
}

proof fn lemma_answers_alike<
    T,
    P,
    K: for<'a> Fn(EcapeCall<'a, T>) -> Result<EcapeAnswer<T>, String>,
>(
    surface: SurfaceFields<T, P>,
    pressure: PressureFields<T>,
    a: PreparedHeavyVolume<T>,
    b: PreparedHeavyVolume<T>,
    run: K,
    x: Seq<EcapeAnswer<T>>,
    y: Seq<EcapeAnswer<T>>,
)
    requires
        answers_settled(run),
        alike(a, b),
        ecape_compute::answered(surface, pressure, a, run, x),
        ecape_compute::answered(surface, pressure, b, run, y),
        x.len() == y.len(),
    ensures
        x == y,
    decreases x.len(),
{
    if x.len() > 0 {
        lemma_answers_alike(surface, pressure, a, b, run, x.drop_last(), y.drop_last());
        lemma_asked_alike(
            surface,
            pressure,
            a,
            b,
            run,
            x.drop_last(),
            Ok::<EcapeAnswer<T>, String>(x.last()),
            Ok::<EcapeAnswer<T>, String>(y.last()),
        );
        assert(x =~= x.drop_last().push(x.last()));
        assert(y =~= y.drop_last().push(y.last()));
    } else {
        assert(x =~= y);
    }
}

proof fn lemma_answered_before<
    T,
    P,
    K: for<'a> Fn(EcapeCall<'a, T>) -> Result<EcapeAnswer<T>, String>,
>(
    surface: SurfaceFields<T, P>,
    pressure: PressureFields<T>,
    prepared: PreparedHeavyVolume<T>,
    run: K,
    answers: Seq<EcapeAnswer<T>>,
    n: int,
)
    requires
        ecape_compute::answered(surface, pressure, prepared, run, answers),
        0 <= n < answers.len(),
    ensures
        ecape_compute::answered(surface, pressure, prepared, run, answers.take(n)),
        ecape_compute::asked_next(
            surface,
            pressure,
            prepared,
            run,
            answers.take(n),
            Ok::<EcapeAnswer<T>, String>(answers[n]),
        ),
    decreases answers.len(),
{
    assert(answers.drop_last() =~= answers.take(answers.len() - 1));
    if n < answers.len() - 1 {
        lemma_answered_before(surface, pressure, prepared, run, answers.drop_last(), n);
        assert(answers.drop_last().take(n) =~= answers.take(n));
    }
}

proof fn lemma_complete_does_not_fail<
    T,
    P,
    K: for<'a> Fn(EcapeCall<'a, T>) -> Result<EcapeAnswer<T>, String>,
>(
    surface: SurfaceFields<T, P>,
    pressure: PressureFields<T>,
    a: PreparedHeavyVolume<T>,
    b: PreparedHeavyVolume<T>,
    run: K,
    x: Seq<EcapeAnswer<T>>,
    y: Seq<EcapeAnswer<T>>,
    message: String,
)
    requires
        answers_settled(run),
        alike(a, b),
        ecape_compute::answered(surface, pressure, a, run, x),
        ecape_compute::answered(surface, pressure, b, run, y),
        y.len() < x.len(),
    ensures
        !ecape_compute::asked_next(
            surface,
            pressure,
            b,
            run,
            y,
            Err::<EcapeAnswer<T>, String>(message),
        ),
{
    let n = y.len() as int;
    lemma_answered_before(surface, pressure, a, run, x, n);
    lemma_answers_alike(surface, pressure, a, b, run, x.take(n), y);
    if ecape_compute::asked_next(
        surface,
        pressure,
        b,
        run,
        y,
        Err::<EcapeAnswer<T>, String>(message),
    ) {
        lemma_asked_alike(
            surface,
            pressure,
            a,
            b,
            run,
            y,
            Ok::<EcapeAnswer<T>, String>(x[n]),
            Err::<EcapeAnswer<T>, String>(message),
        );
    }
}

/// Whether two fields show the same values of the same product under its own name.
pub open spec fn same_field<T>(a: WeatherPanelField<T>, b: WeatherPanelField<T>) -> bool {
    &&& a.product == b.product
    &&& a.artifact_slug is None
    &&& b.artifact_slug is None
    &&& a.units@ == b.units@
    &&& a.values@ == b.values@
}

/// Whether two lists show the same values of the same products, in the same order.
pub open spec fn same_list<T>(a: Seq<WeatherPanelField<T>>, b: Seq<WeatherPanelField<T>>) -> bool {
    &&& a.len() == b.len()
    &&& forall|i: int| 0 <= i < a.len() ==> same_field(#[trigger] a[i], b[i])
}

/// Whether two computations ended alike: with the same values and as many failures, or
/// both with a failure.
pub open spec fn same_end<T>(
    a: Result<(Vec<WeatherPanelField<T>>, usize), String>,
    b: Result<(Vec<WeatherPanelField<T>>, usize), String>,
) -> bool {
    match (a, b) {
        (Ok(a), Ok(b)) => same_list(a.0@, b.0@) && a.1 == b.1,
        (Err(_), Err(_)) => true,
        _ => false,
    }
}

proof fn lemma_ratios_alike<T, R: Fn(T, T) -> T>(
    e: Seq<T>,
    c: Seq<T>,
    ratio: R,
    x: Seq<T>,
    y: Seq<T>,
)
    requires
        settled_laws::one_result_of_two(ratio),
    ensures
        ecape::ratios(e, c, ratio, x) && ecape::ratios(e, c, ratio, y) ==> x == y,
{
    reveal(settled_laws::one_result_of_two);
    if ecape::ratios(e, c, ratio, x) && ecape::ratios(e, c, ratio, y) {
        assert forall|i: int| 0 <= i < x.len() implies x[i] == y[i] by {
            assert(call_ensures(ratio, (e[i], c[i]), x[i]));
            assert(call_ensures(ratio, (e[i], c[i]), y[i]));
        }
        assert(x =~= y);
    }
}

proof fn lemma_published_alike<T, P, R: Fn(T, T) -> T>(
    surface: SurfaceFields<T, P>,
    answers: Seq<EcapeAnswer<T>>,
    ratio: R,
    x: Seq<WeatherPanelField<T>>,
    y: Seq<WeatherPanelField<T>>,
)
    requires
        settled_laws::one_result_of_two(ratio),
        ecape_compute::published(surface, answers, ratio, x),
        ecape_compute::published(surface, answers, ratio, y),
    ensures
        same_list(x, y),
{
    let triplet = answers[0]->parcels;
    let native = ecape_compute::native_planes(&surface);
    assert forall|i: int| 0 <= i < x.len() implies same_field(#[trigger] x[i], y[i]) by {
        let p = x[i].values@;
        let q = y[i].values@;
        assert(x[i].product == y[i].product);
        lemma_ratios_alike(triplet.sb.ecape_jkg@, triplet.sb.cape_jkg@, ratio, p, q);
        lemma_ratios_alike(triplet.ml.ecape_jkg@, triplet.ml.cape_jkg@, ratio, p, q);
        lemma_ratios_alike(triplet.mu.ecape_jkg@, triplet.mu.cape_jkg@, ratio, p, q);
        if native.sb is Some {
            lemma_ratios_alike(triplet.sb.ecape_jkg@, native.sb->Some_0@, ratio, p, q);
        }
        if native.ml is Some {
            lemma_ratios_alike(triplet.ml.ecape_jkg@, native.ml->Some_0@, ratio, p, q);
        }
        if native.mu is Some {
            lemma_ratios_alike(triplet.mu.ecape_jkg@, native.mu->Some_0@, ratio, p, q);
        }
    }
}

/// The ECAPE fields of a pair of analyses give one answer where the kernels and the
/// arithmetic do: from volumes that hold the same values they come out the same, or
/// fail both times.
pub proof fn law_ecape_fields_give_one_answer<
    T,
    P,
    K: for<'a> Fn(EcapeCall<'a, T>) -> Result<EcapeAnswer<T>, String>,
    R: Fn(T, T) -> T,
>(
    surface: SurfaceFields<T, P>,
    pressure: PressureFields<T>,
    a: PreparedHeavyVolume<T>,
    b: PreparedHeavyVolume<T>,
    run: K,
    ratio: R,
    x: Result<(Vec<WeatherPanelField<T>>, usize), String>,
    y: Result<(Vec<WeatherPanelField<T>>, usize), String>,
)
    requires
        answers_settled(run),
        settled_laws::one_result_of_two(ratio),
        alike(a, b),
        ecape_compute::outcome(surface, pressure, a, run, ratio, x),
        ecape_compute::outcome(surface, pressure, b, run, ratio, y),
    ensures
        same_end(x, y),
{
    let p = choose|answers: Seq<EcapeAnswer<T>>|
        #[trigger] ecape_compute::answered(surface, pressure, a, run, answers) && match x {
            Ok((fields, failure_count)) => {
                &&& answers.len() == ecape_compute::call_count()
                &&& failure_count == answers[0]->failure_count
                &&& ecape_compute::published(surface, answers, ratio, fields@)
            },
            Err(message) => {
                &&& answers.len() < ecape_compute::call_count()
                &&& ecape_compute::asked_next(
                    surface,
                    pressure,
                    a,
                    run,
                    answers,
                    Err::<EcapeAnswer<T>, String>(message),
                )
            },
        };
    let q = choose|answers: Seq<EcapeAnswer<T>>|
        #[trigger] ecape_compute::answered(surface, pressure, b, run, answers) && match y {
            Ok((fields, failure_count)) => {
                &&& answers.len() == ecape_compute::call_count()
                &&& failure_count == answers[0]->failure_count
                &&& ecape_compute::published(surface, answers, ratio, fields@)
            },
            Err(message) => {
                &&& answers.len() < ecape_compute::call_count()
                &&& ecape_compute::asked_next(
                    surface,
                    pressure,
                    b,
                    run,
                    answers,
                    Err::<EcapeAnswer<T>, String>(message),
                )
            },
        };
    if x is Ok && y is Ok {
        lemma_answers_alike(surface, pressure, a, b, run, p, q);
        lemma_published_alike(surface, p, ratio, x->Ok_0.0@, y->Ok_0.0@);
    } else if x is Ok {
        lemma_complete_does_not_fail(surface, pressure, a, b, run, p, q, y->Err_0);
    } else if y is Ok {
        lemma_complete_does_not_fail(surface, pressure, b, a, run, q, p, x->Err_0);
    }
}

} // verus!
