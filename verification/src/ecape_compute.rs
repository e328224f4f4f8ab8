//! Computing the ECAPE products: what each kernel is handed, in which order the
//! kernels run, and the fields that come of their answers.
//!
//! The kernels themselves, and the ratio of two values, come as functions.
use crate::derived::kernel_runs::{SurfaceInputs, VolumeInputs, WindGridInputs};
use crate::ecape;
use crate::ecape::{
    ecape_map_fields, effective_stp_inputs, ehi_03km_inputs, scp_ehi_inputs, EcapeComposites,
    EcapeTriplet, EffectiveLayerDiagnostics, EffectiveStpInputs, NativeCapePlanes, ScpEhiInputs,
    WindDiagnostics,
};
use crate::gridded::fields::{PressureFields, SurfaceFields};
use crate::gridded::heavy_volume;
use crate::gridded::heavy_volume::{prepare_heavy_volume, HeightRules, PreparedHeavyVolume};
use crate::panel::WeatherPanelField;
use vstd::prelude::*;

verus! {

/// What an ECAPE kernel is asked to do.
pub enum EcapeWork<'a, T> {
    /// Lift the three entraining parcels, in storms that move as named.
    Triplet {
        volume: VolumeInputs<'a, T>,
        surface: SurfaceInputs<'a, T>,
        storm_motion: &'a str,
    },
    /// Compute the kinematics of fixed layers.
    Winds { wind: WindGridInputs<'a, T> },
    /// Compute the supercell composite and an energy-helicity index.
    ScpEhi { scp_ehi: ScpEhiInputs<'a, T> },
    /// Compute an energy-helicity index.
    Ehi { cape_jkg: &'a Vec<T>, srh_m2s2: &'a Vec<T> },
    /// Lift the classic mixed-layer parcel.
    MixedLayer { volume: VolumeInputs<'a, T>, surface: SurfaceInputs<'a, T> },
    /// Compute the kinematics of the effective inflow layer.
    EffectiveLayer { volume: VolumeInputs<'a, T>, surface: SurfaceInputs<'a, T> },
    /// Compute the significant-tornado composite.
    Stp { inputs: EffectiveStpInputs<'a, T> },
}

/// A call of an ECAPE kernel: the grid and the work.
pub struct EcapeCall<'a, T> {
    pub nx: usize,
    pub ny: usize,
    pub work: EcapeWork<'a, T>,
}

/// What an ECAPE kernel answers.
pub enum EcapeAnswer<T> {
    /// The three parcels, and the number of columns in which one could not be
    /// lifted.
    Triplet { parcels: EcapeTriplet<T>, failure_count: usize },
    Winds { winds: WindDiagnostics<T> },
    ScpEhi { scp: Vec<T>, ehi: Vec<T> },
    Field { values: Vec<T> },
    /// The condensation level of the classic parcel.
    MixedLayer { lcl_m: Vec<T> },
    EffectiveLayer { effective: EffectiveLayerDiagnostics<T> },
}

/// Whether an answer is of the kind that the work calls for.
pub open spec fn in_kind<T>(work: EcapeWork<T>, answer: EcapeAnswer<T>) -> bool {
    match work {
        EcapeWork::Triplet { .. } => answer is Triplet,
        EcapeWork::Winds { .. } => answer is Winds,
        EcapeWork::ScpEhi { .. } => answer is ScpEhi,
        EcapeWork::Ehi { .. } => answer is Field,
        EcapeWork::MixedLayer { .. } => answer is MixedLayer,
        EcapeWork::EffectiveLayer { .. } => answer is EffectiveLayer,
        EcapeWork::Stp { .. } => answer is Field,
    }
}

/// Whether the kernels can be asked anything, and answer in kind.
pub open spec fn usable<
    T,
    K: for<'a> Fn(EcapeCall<'a, T>) -> Result<EcapeAnswer<T>, String>,
>(run: K) -> bool {
    &&& forall|call: EcapeCall<T>| #[trigger] call_requires(run, (call,))
    &&& forall|call: EcapeCall<T>, answer: EcapeAnswer<T>|
        #[trigger] call_ensures(run, (call,), Ok::<EcapeAnswer<T>, String>(answer)) ==> in_kind(
            call.work,
            answer,
        )
}

/// The volumes that the parcels are lifted through.
pub open spec fn volume_of<'a, T>(
    pressure: &'a PressureFields<T>,
    prepared: &'a PreparedHeavyVolume<T>,
) -> VolumeInputs<'a, T> {
    VolumeInputs {
        pressure_pa: match &prepared.pressure_3d_pa {
            Some(volume) => volume,
            None => &prepared.pressure_levels_pa,
        },
        temperature_c: &pressure.temperature_c_3d,
        qvapor_kgkg: &pressure.qvapor_kgkg_3d,
        height_agl_m: &prepared.height_agl_3d,
        u_ms: &pressure.u_ms_3d,
        v_ms: &pressure.v_ms_3d,
        nz: prepared.nz,
    }
}

/// The surface that the parcels are lifted from.
pub open spec fn surface_of<'a, T, P>(surface: &'a SurfaceFields<T, P>) -> SurfaceInputs<'a, T> {
    SurfaceInputs {
        psfc_pa: &surface.psfc_pa,
        t2_k: &surface.t2_k,
        q2_kgkg: &surface.q2_kgkg,
        u10_ms: &surface.u10_ms,
        v10_ms: &surface.v10_ms,
    }
}

/// The winds that the kinematics of fixed layers are computed from.
pub open spec fn wind_of<'a, T>(
    pressure: &'a PressureFields<T>,
    prepared: &'a PreparedHeavyVolume<T>,
) -> WindGridInputs<'a, T> {
    WindGridInputs {
        nz: prepared.nz,
        u_3d_ms: &pressure.u_ms_3d,
        v_3d_ms: &pressure.v_ms_3d,
        height_agl_3d_m: &prepared.height_agl_3d,
    }
}

/// The number of kernel calls of a computation.
pub open spec fn call_count() -> int {
    7
}

/// The work that is asked for after some answers: the parcels, the kinematics of
/// fixed layers, the first composites, the classic parcel, the kinematics of the
/// effective layer, and the tornado composite. The composites pair
/// the most-unstable parcel with the 0-3 km helicity and the 0-6 km shear, the
/// surface-based parcel with the helicities, and the mixed-layer parcel with the
/// effective layer.
pub open spec fn next_work<'a, T, P>(
    surface: &'a SurfaceFields<T, P>,
    pressure: &'a PressureFields<T>,
    prepared: &'a PreparedHeavyVolume<T>,
    done: Seq<EcapeAnswer<T>>,
) -> EcapeWork<'a, T> {
    let volume = volume_of(pressure, prepared);
    let from = surface_of(surface);
    if done.len() == 0 {
        EcapeWork::Triplet { volume, surface: from, storm_motion: "right_moving" }
    } else if done.len() == 1 {
        EcapeWork::Winds { wind: wind_of(pressure, prepared) }
    } else if done.len() == 2 {
        EcapeWork::ScpEhi {
            scp_ehi: ScpEhiInputs {
                scp_cape_jkg: &done[0]->parcels.mu.ecape_jkg,
                scp_srh_m2s2: &done[1]->winds.srh_03km_m2s2,
                scp_bulk_wind_difference_ms: &done[1]->winds.shear_06km_ms,
                ehi_cape_jkg: &done[0]->parcels.sb.ecape_jkg,
                ehi_srh_m2s2: &done[1]->winds.srh_01km_m2s2,
            },
        }
    } else if done.len() == 3 {
        EcapeWork::Ehi {
            cape_jkg: &done[0]->parcels.sb.ecape_jkg,
            srh_m2s2: &done[1]->winds.srh_03km_m2s2,
        }
    } else if done.len() == 4 {
        EcapeWork::MixedLayer { volume, surface: from }
    } else if done.len() == 5 {
        EcapeWork::EffectiveLayer { volume, surface: from }
    } else {
        EcapeWork::Stp {
            inputs: EffectiveStpInputs {
                mlcape_jkg: &done[0]->parcels.ml.ecape_jkg,
                mlcin_jkg: &done[0]->parcels.ml.cin_jkg,
                ml_lcl_m: &done[4]->lcl_m,
                effective_srh_m2s2: &done[5]->effective.effective_srh_m2s2,
                effective_bulk_wind_difference_ms:
                    &done[5]->effective.effective_bulk_wind_difference_ms,
            },
        }
    }
}

/// Whether the kernels, asked what comes next after some answers, have a result.
pub open spec fn asked_next<
    T,
    P,
    K: for<'a> Fn(EcapeCall<'a, T>) -> Result<EcapeAnswer<T>, String>,
>(
    surface: SurfaceFields<T, P>,
    pressure: PressureFields<T>,
    prepared: PreparedHeavyVolume<T>,
    run: K,
    done: Seq<EcapeAnswer<T>>,
    result: Result<EcapeAnswer<T>, String>,
) -> bool {
    call_ensures(
        run,
        (EcapeCall {
            nx: prepared.nx,
            ny: prepared.ny,
            work: next_work(&surface, &pressure, &prepared, done),
        },),
        result,
    )
}

/// Whether the kernels have given some answers, one after the other.
pub open spec fn answered<
    T,
    P,
    K: for<'a> Fn(EcapeCall<'a, T>) -> Result<EcapeAnswer<T>, String>,
>(
    surface: SurfaceFields<T, P>,
    pressure: PressureFields<T>,
    prepared: PreparedHeavyVolume<T>,
    run: K,
    answers: Seq<EcapeAnswer<T>>,
) -> bool
    decreases answers.len(),
{
    answers.len() == 0 || {
        &&& answered(surface, pressure, prepared, run, answers.drop_last())
        &&& asked_next(
            surface,
            pressure,
            prepared,
            run,
            answers.drop_last(),
            Ok::<EcapeAnswer<T>, String>(answers.last()),
        )
    }
}

/// The composites among the answers.
pub open spec fn composites_of<T>(answers: Seq<EcapeAnswer<T>>) -> EcapeComposites<T> {
    EcapeComposites {
        scp: answers[2]->scp,
        ehi_01km: answers[2]->ehi,
        ehi_03km: answers[3]->values,
        stp: answers[6]->values,
    }
}

/// The native CAPE planes of a surface analysis.
pub open spec fn native_planes<'a, T, P>(surface: &'a SurfaceFields<T, P>) -> NativeCapePlanes<
    'a,
    T,
> {
    NativeCapePlanes {
        sb: match &surface.native_sbcape_jkg {
            Some(plane) => Some(plane),
            None => None,
        },
        ml: match &surface.native_mlcape_jkg {
            Some(plane) => Some(plane),
            None => None,
        },
        mu: match &surface.native_mucape_jkg {
            Some(plane) => Some(plane),
            None => None,
        },
    }
}

/// Whether fields are those that a full set of answers is published as.
pub open spec fn published<T, P, R: Fn(T, T) -> T>(
    surface: SurfaceFields<T, P>,
    answers: Seq<EcapeAnswer<T>>,
    ratio: R,
    fields: Seq<WeatherPanelField<T>>,
) -> bool {
    let native = native_planes(&surface);
    let products = ecape::published_products(
        native.sb is Some,
        native.ml is Some,
        native.mu is Some,
    );
    &&& fields.len() == products.len()
    &&& forall|i: int|
        0 <= i < products.len() ==> ecape::publishes(
            #[trigger] fields[i],
            products[i],
            answers[0]->parcels,
            composites_of(answers),
            native,
            ratio,
        )
}

/// Whether a computation ends as its kernels answer: with the fields and the
/// failures of the parcels, or with the message of the first kernel that fails.
pub open spec fn outcome<
    T,
    P,
    K: for<'a> Fn(EcapeCall<'a, T>) -> Result<EcapeAnswer<T>, String>,
    R: Fn(T, T) -> T,
>(
    surface: SurfaceFields<T, P>,
    pressure: PressureFields<T>,
    prepared: PreparedHeavyVolume<T>,
    run: K,
    ratio: R,
    result: Result<(Vec<WeatherPanelField<T>>, usize), String>,
) -> bool {
    exists|answers: Seq<EcapeAnswer<T>>|
        #[trigger] answered(surface, pressure, prepared, run, answers) && match result {
            Ok((fields, failure_count)) => {
                &&& answers.len() == call_count()
                &&& failure_count == answers[0]->failure_count
                &&& published(surface, answers, ratio, fields@)
            },
            Err(message) => {
                &&& answers.len() < call_count()
                &&& asked_next(
                    surface,
                    pressure,
                    prepared,
                    run,
                    answers,
                    Err::<EcapeAnswer<T>, String>(message),
                )
            },
        }
}

fn make_volume<'a, T>(
    pressure: &'a PressureFields<T>,
    prepared: &'a PreparedHeavyVolume<T>,
) -> (volume: VolumeInputs<'a, T>)
    ensures
        volume == volume_of(pressure, prepared),
{
    VolumeInputs {
        pressure_pa: prepared.pressure_input(),
        temperature_c: &pressure.temperature_c_3d,
        qvapor_kgkg: &pressure.qvapor_kgkg_3d,
        height_agl_m: &prepared.height_agl_3d,
        u_ms: &pressure.u_ms_3d,
        v_ms: &pressure.v_ms_3d,
        nz: prepared.nz,
    }
}

fn make_surface<'a, T, P>(surface: &'a SurfaceFields<T, P>) -> (inputs: SurfaceInputs<'a, T>)
    ensures
        inputs == surface_of(surface),
{
    SurfaceInputs {
        psfc_pa: &surface.psfc_pa,
        t2_k: &surface.t2_k,
        q2_kgkg: &surface.q2_kgkg,
        u10_ms: &surface.u10_ms,
        v10_ms: &surface.v10_ms,
    }
}

proof fn lemma_one_more<
    T,
    P,
    K: for<'a> Fn(EcapeCall<'a, T>) -> Result<EcapeAnswer<T>, String>,
>(
    surface: SurfaceFields<T, P>,
    pressure: PressureFields<T>,
    prepared: PreparedHeavyVolume<T>,
    run: K,
    done: Seq<EcapeAnswer<T>>,
    answer: EcapeAnswer<T>,
)
    requires
        answered(surface, pressure, prepared, run, done),
        asked_next(
            surface,
            pressure,
            prepared,
            run,
            done,
            Ok::<EcapeAnswer<T>, String>(answer),
        ),
    ensures
        answered(surface, pressure, prepared, run, done.push(answer)),
{
    assert(done.push(answer).drop_last() =~= done);
}

/// Computes the ECAPE products from a pair of analyses and the volumes that were
/// prepared from them. Returned beside the fields is the number of columns in
/// which a parcel could not be lifted.
pub fn compute_ecape_map_fields_with_prepared_volume<
    T: Copy,
    P,
    K: for<'a> Fn(EcapeCall<'a, T>) -> Result<EcapeAnswer<T>, String>,
    R: Fn(T, T) -> T,
>(
    surface: &SurfaceFields<T, P>,
    pressure: &PressureFields<T>,
    prepared: &PreparedHeavyVolume<T>,
    run: &K,
    ratio: &R,
) -> (result: Result<(Vec<WeatherPanelField<T>>, usize), String>)
    requires
        usable(*run),
        forall|a: T, b: T| #[trigger] call_requires(*ratio, (a, b)),
    ensures
        outcome(*surface, *pressure, *prepared, *run, *ratio, result),
{
    let nx: usize = prepared.nx;
    let ny: usize = prepared.ny;
    let ghost mut done: Seq<EcapeAnswer<T>> = Seq::empty();
    proof {
        assert(answered(*surface, *pressure, *prepared, *run, done));
    }
    let work = EcapeWork::Triplet {
        volume: make_volume(pressure, prepared),
        surface: make_surface(surface),
        storm_motion: "right_moving",
    };
    let answer = match run(EcapeCall { nx, ny, work }) {
        Ok(answer) => answer,
        Err(message) => {
            return Err(message);
        },
    };
    proof {
        lemma_one_more(*surface, *pressure, *prepared, *run, done, answer);
        done = done.push(answer);
    }
    let (triplet, failure_count) = match answer {
        EcapeAnswer::Triplet { parcels, failure_count } => (parcels, failure_count),
        _ => vstd::pervasive::unreached(),
    };
    let work = EcapeWork::Winds {
        wind: WindGridInputs {
            nz: prepared.nz,
            u_3d_ms: &pressure.u_ms_3d,
            v_3d_ms: &pressure.v_ms_3d,
            height_agl_3d_m: &prepared.height_agl_3d,
        },
    };
    let answer = match run(EcapeCall { nx, ny, work }) {
        Ok(answer) => answer,
        Err(message) => {
            return Err(message);
        },
    };
    proof {
        lemma_one_more(*surface, *pressure, *prepared, *run, done, answer);
        done = done.push(answer);
    }
    let winds = match answer {
        EcapeAnswer::Winds { winds } => winds,
        _ => vstd::pervasive::unreached(),
    };
    let work = EcapeWork::ScpEhi { scp_ehi: scp_ehi_inputs(&triplet, &winds) };
    let answer = match run(EcapeCall { nx, ny, work }) {
        Ok(answer) => answer,
        Err(message) => {
            return Err(message);
        },
    };
    proof {
        lemma_one_more(*surface, *pressure, *prepared, *run, done, answer);
        done = done.push(answer);
    }
    let (scp, ehi_01km) = match answer {
        EcapeAnswer::ScpEhi { scp, ehi } => (scp, ehi),
        _ => vstd::pervasive::unreached(),
    };
    let (cape_jkg, srh_m2s2) = ehi_03km_inputs(&triplet, &winds);
    let work = EcapeWork::Ehi { cape_jkg, srh_m2s2 };
    let answer = match run(EcapeCall { nx, ny, work }) {
        Ok(answer) => answer,
        Err(message) => {
            return Err(message);
        },
    };
    proof {
        lemma_one_more(*surface, *pressure, *prepared, *run, done, answer);
        done = done.push(answer);
    }
    let ehi_03km = match answer {
        EcapeAnswer::Field { values } => values,
        _ => vstd::pervasive::unreached(),
    };
    let work = EcapeWork::MixedLayer {
        volume: make_volume(pressure, prepared),
        surface: make_surface(surface),
    };
    let answer = match run(EcapeCall { nx, ny, work }) {
        Ok(answer) => answer,
        Err(message) => {
            return Err(message);
        },
    };
    proof {
        lemma_one_more(*surface, *pressure, *prepared, *run, done, answer);
        done = done.push(answer);
    }
    let ml_lcl_m = match answer {
        EcapeAnswer::MixedLayer { lcl_m } => lcl_m,
        _ => vstd::pervasive::unreached(),
    };
    let work = EcapeWork::EffectiveLayer {
        volume: make_volume(pressure, prepared),
        surface: make_surface(surface),
    };
    let answer = match run(EcapeCall { nx, ny, work }) {
        Ok(answer) => answer,
        Err(message) => {
            return Err(message);
        },
    };
    proof {
        lemma_one_more(*surface, *pressure, *prepared, *run, done, answer);
        done = done.push(answer);
    }
    let effective = match answer {
        EcapeAnswer::EffectiveLayer { effective } => effective,
        _ => vstd::pervasive::unreached(),
    };
    let work = EcapeWork::Stp { inputs: effective_stp_inputs(&triplet, &ml_lcl_m, &effective) };
    let answer = match run(EcapeCall { nx, ny, work }) {
        Ok(answer) => answer,
        Err(message) => {
            return Err(message);
        },
    };
    proof {
        lemma_one_more(*surface, *pressure, *prepared, *run, done, answer);
        done = done.push(answer);
    }
    let stp = match answer {
        EcapeAnswer::Field { values } => values,
        _ => vstd::pervasive::unreached(),
    };
    let composites = EcapeComposites { scp, ehi_01km, ehi_03km, stp };
    let native = NativeCapePlanes {
        sb: match &surface.native_sbcape_jkg {
            Some(plane) => Some(plane),
            None => None,
        },
        ml: match &surface.native_mlcape_jkg {
            Some(plane) => Some(plane),
            None => None,
        },
        mu: match &surface.native_mucape_jkg {
            Some(plane) => Some(plane),
            None => None,
        },
    };
    proof {
        assert(composites == composites_of(done));
        assert(triplet == done[0]->parcels);
        assert(native == native_planes(surface));
    }
    Ok((ecape_map_fields(&triplet, &composites, &native, ratio), failure_count))
}

/// Whether volumes were prepared from a pair of analyses, without a pressure
/// volume.
pub open spec fn prepared_from<
    T,
    P,
    A: Fn(T, T) -> T,
    S: Fn(T, T) -> T,
    L: Fn(T, T) -> T,
    E: Fn(T) -> T,
    C: Fn(T) -> T,
>(
    surface: SurfaceFields<T, P>,
    pressure: PressureFields<T>,
    heights: HeightRules<T, A, S, L, E, C>,
    prepared: PreparedHeavyVolume<T>,
) -> bool {
    &&& prepared.nx == surface.nx
    &&& prepared.ny == surface.ny
    &&& prepared.nz == pressure.pressure_levels_hpa@.len()
    &&& heavy_volume::spread(
        pressure.pressure_levels_hpa@,
        1,
        heights.to_pa,
        prepared.pressure_levels_pa@,
    )
    &&& prepared.pressure_3d_pa is None
    &&& exists|orography: Seq<T>|
        #[trigger] heavy_volume::is_orography(
            surface,
            pressure,
            heights.lower,
            heights.settle,
            heights.highest,
            orography,
        ) && heavy_volume::heights_over(
            prepared.height_agl_3d@,
            pressure.gh_m_3d@,
            orography,
            surface.nx * surface.ny,
            pressure.pressure_levels_hpa@.len() as int,
            heights.above,
            heights.raise,
        )
}

/// Prepares the volumes of a pair of analyses and computes the ECAPE products
/// from them.
pub fn compute_ecape_map_fields<
    T: Copy,
    P,
    K: for<'a> Fn(EcapeCall<'a, T>) -> Result<EcapeAnswer<T>, String>,
    R: Fn(T, T) -> T,
    A: Fn(T, T) -> T,
    S: Fn(T, T) -> T,
    L: Fn(T, T) -> T,
    E: Fn(T) -> T,
    C: Fn(T) -> T,
>(
    surface: &SurfaceFields<T, P>,
    pressure: &PressureFields<T>,
    heights: &HeightRules<T, A, S, L, E, C>,
    run: &K,
    ratio: &R,
) -> (result: Result<(Vec<WeatherPanelField<T>>, usize), String>)
    requires
        usable(*run),
        forall|a: T, b: T| #[trigger] call_requires(*ratio, (a, b)),
        heavy_volume::has_heights(*surface, *pressure),
        forall|a: T, b: T| #[trigger] call_requires(heights.above, (a, b)),
        forall|a: T, b: T| #[trigger] call_requires(heights.raise, (a, b)),
        forall|a: T, b: T| #[trigger] call_requires(heights.lower, (a, b)),
        forall|a: T| #[trigger] call_requires(heights.settle, (a,)),
        forall|a: T| #[trigger] call_requires(heights.to_pa, (a,)),
    ensures
        exists|prepared: PreparedHeavyVolume<T>|
            #[trigger] prepared_from(*surface, *pressure, *heights, prepared) && outcome(
                *surface,
                *pressure,
                prepared,
                *run,
                *ratio,
                result,
            ),
{
    let prepared = prepare_heavy_volume(surface, pressure, false, heights);
    proof {
        assert(prepared_from(*surface, *pressure, *heights, prepared));
    }
    compute_ecape_map_fields_with_prepared_volume(surface, pressure, &prepared, run, ratio)
}

/// A computation that ends with fields shows every product that the parcels and
/// the native planes allow, each under its own name and once.
pub proof fn law_every_product_is_published_once<T, P, R: Fn(T, T) -> T>(
    surface: SurfaceFields<T, P>,
    answers: Seq<EcapeAnswer<T>>,
    ratio: R,
    fields: Seq<WeatherPanelField<T>>,
    i: int,
    j: int,
)
    requires
        published(surface, answers, ratio, fields),
        0 <= i < fields.len(),
        0 <= j < fields.len(),
        fields[i].product == fields[j].product,
    ensures
        i == j,
        fields.len() == 13 + (if surface.native_sbcape_jkg is Some {
            1int
        } else {
            0
        }) + (if surface.native_mlcape_jkg is Some {
            1int
        } else {
            0
        }) + (if surface.native_mucape_jkg is Some {
            1int
        } else {
            0
        }),
{
    let native = native_planes(&surface);
    let products = ecape::published_products(
        native.sb is Some,
        native.ml is Some,
        native.mu is Some,
    );
    assert(fields[i].product == products[i]);
    assert(fields[j].product == products[j]);
}

proof fn lemma_answers_read_no_geopotential<
    T,
    P,
    K: for<'a> Fn(EcapeCall<'a, T>) -> Result<EcapeAnswer<T>, String>,
>(
    surface: SurfaceFields<T, P>,
    a: PressureFields<T>,
    b: PressureFields<T>,
    prepared: PreparedHeavyVolume<T>,
    run: K,
    answers: Seq<EcapeAnswer<T>>,
)
    requires
        b == (PressureFields { gh_m_3d: b.gh_m_3d, ..a }),
        answered(surface, a, prepared, run, answers),
    ensures
        answered(surface, b, prepared, run, answers),
    decreases answers.len(),
{
    if answers.len() > 0 {
        lemma_answers_read_no_geopotential(surface, a, b, prepared, run, answers.drop_last());
        assert(next_work(&surface, &a, &prepared, answers.drop_last()) == next_work(
            &surface,
            &b,
            &prepared,
            answers.drop_last(),
        ));
    }
}

/// The kernels read heights above ground: the geopotential heights of the analysis do
/// not matter to them.
pub proof fn lemma_outcome_reads_no_geopotential<
    T,
    P,
    K: for<'a> Fn(EcapeCall<'a, T>) -> Result<EcapeAnswer<T>, String>,
    R: Fn(T, T) -> T,
>(
    surface: SurfaceFields<T, P>,
    a: PressureFields<T>,
    b: PressureFields<T>,
    prepared: PreparedHeavyVolume<T>,
    run: K,
    ratio: R,
    result: Result<(Vec<WeatherPanelField<T>>, usize), String>,
)
    requires
        b == (PressureFields { gh_m_3d: b.gh_m_3d, ..a }),
        outcome(surface, a, prepared, run, ratio, result),
    ensures
        outcome(surface, b, prepared, run, ratio, result),
{
    let answers = choose|answers: Seq<EcapeAnswer<T>>|
        #[trigger] answered(surface, a, prepared, run, answers) && match result {
            Ok((fields, failure_count)) => {
                &&& answers.len() == call_count()
                &&& failure_count == answers[0]->failure_count
                &&& published(surface, answers, ratio, fields@)
            },
            Err(message) => {
                &&& answers.len() < call_count()
                &&& asked_next(
                    surface,
                    a,
                    prepared,
                    run,
                    answers,
                    Err::<EcapeAnswer<T>, String>(message),
                )
            },
        };
    lemma_answers_read_no_geopotential(surface, a, b, prepared, run, answers);
    assert(next_work(&surface, &a, &prepared, answers) == next_work(
        &surface,
        &b,
        &prepared,
        answers,
    ));
}

} // verus!
