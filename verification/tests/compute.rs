//! Computing the derived fields with kernels that are handed in.
use rustwx_products::derived::assemble::{
    CapeCinOutputs, SurfaceThermoOutputs, TakenWindVolumes,
};
use rustwx_products::derived::compute::{
    compute_derived_fields_generic, compute_derived_fields_generic_with_height_agl,
    compute_surface_only_derived_fields,
};
use rustwx_products::derived::kernel_runs::{ComputeRules, KernelAnswer, KernelCall, KernelWork};
use rustwx_products::derived::kernels::DerivedKernel;
use rustwx_products::derived::levels::{compute_height_agl_3d, LengthMismatch, LevelRules};
use rustwx_products::derived::phased::compute_store_derived_fields_phased;
use rustwx_products::derived::query::{compute_derived_query_field, sample_derived_fields};
use rustwx_products::derived::recipes::DerivedRecipe;
use rustwx_products::derived::store_compute::{
    compute_store_derived_grids, compute_store_derived_grids_f32, compute_store_heavy_grids,
    compute_store_heavy_grids_f32,
};
use rustwx_products::derived::store_inputs::prepare_store_compute_inputs;
use rustwx_products::ecape::{
    EcapeParcelFields, EcapeTriplet, EffectiveLayerDiagnostics, WindDiagnostics,
};
use rustwx_products::ecape_compute::{compute_ecape_map_fields, EcapeAnswer, EcapeCall, EcapeWork};
use rustwx_products::gridded::fields::{PressureFields, SurfaceFields};
use rustwx_products::gridded::heavy_volume::{HeightRules, PreparedHeavyVolumeTiming};
use rustwx_products::gridded::spacing::SpacingRules;
use rustwx_products::gridded::runtime::{runtime_info, CacheFlags, SharedTiming};
use rustwx_products::heavy::{
    DomainSpec, HeavyCropKind, HeavyDomainSelection, HeavyRenderedArtifact,
};
use rustwx_products::heavy_batch::{
    ecape_batch_report, heavy_panel_hour_report, EcapeBatchRequest, HeavyMeasurement,
};
use rustwx_products::heavy_panel::{run_heavy_panel_hour, SevereCall};
use rustwx_products::heavy_stage::{
    run_ecape_batch, run_ecape_ratio_display_batch, stage_heavy_domain, HeavyProjection,
};
use rustwx_products::hrrr::{
    BundleFetch, HrrrBatchProduct, HrrrBatchRequest, HrrrProductTiming, LoadedBundle,
    WeatherPanelLayout,
};
use rustwx_products::hrrr_batch::{
    hrrr_batch_report, run_hrrr_batch_from_loaded, HrrrBatch, HrrrDrawing, HrrrDrawn, PanelRules,
};
use rustwx_products::model::{CanonicalBundleDescriptor, ModelId, SourceId};
use rustwx_products::panel::{WeatherPanelField, WeatherProduct};

type Unary = fn(f64) -> f64;
type Binary = fn(f64, f64) -> f64;
type AtLevel = fn(f64, u64) -> bool;
type Crosses = fn(f64, f64, u64) -> bool;
type Between = fn(f64, f64, f64, f64, u64) -> f64;
type Run = fn(KernelCall<'_, f64>) -> Result<KernelAnswer<f64>, String>;
type Distance = fn(f64, f64, f64, f64) -> f64;
type Counts = fn(f64) -> bool;
type Mean = fn(f64, usize) -> f64;
type Wording = fn(LengthMismatch) -> String;
type Rules = ComputeRules<
    f64,
    Run,
    Binary,
    Binary,
    Unary,
    Unary,
    AtLevel,
    Crosses,
    Between,
    Distance,
    Counts,
    Binary,
    Mean,
    Wording,
>;

fn first(values: &[f64], nxy: usize) -> Vec<f64> {
    values.iter().copied().take(nxy).collect()
}

fn parcel(cape: Vec<f64>) -> CapeCinOutputs<f64> {
    CapeCinOutputs {
        cin_jkg: cape.iter().map(|value| -value).collect(),
        lcl_m: cape.iter().map(|value| value + 500.0).collect(),
        cape_jkg: cape,
    }
}

/// Kernels whose answers tell what they were handed.
fn run(call: KernelCall<'_, f64>) -> Result<KernelAnswer<f64>, String> {
    let nxy = call.nx * call.ny;
    match call.work {
        KernelWork::Grid => {
            if nxy == 0 {
                Err("empty grid".to_string())
            } else {
                Ok(KernelAnswer::Accepted)
            }
        }
        KernelWork::Levels { nz } => {
            if nz == 0 {
                Err("no levels".to_string())
            } else {
                Ok(KernelAnswer::Accepted)
            }
        }
        KernelWork::Thermodynamic { kernel, volume, surface } => {
            let values = match kernel {
                DerivedKernel::SbcapeCin => first(volume.temperature_c, nxy),
                DerivedKernel::MlcapeCin => first(volume.qvapor_kgkg, nxy),
                DerivedKernel::MucapeCin => first(volume.height_agl_m, nxy),
                DerivedKernel::Dcape => first(volume.pressure_pa, nxy),
                DerivedKernel::LiftedIndex => {
                    if volume.pressure_pa[0] < 0.0 {
                        return Err("negative pressure".to_string());
                    }
                    first(surface.t2_k, nxy)
                }
                _ => first(volume.height_agl_m, nxy),
            };
            Ok(match kernel {
                DerivedKernel::CapeCinTriplet => KernelAnswer::Triplet {
                    sb: parcel(vec![1.0; nxy]),
                    ml: parcel(vec![2.0; nxy]),
                    mu: parcel(vec![3.0; nxy]),
                },
                DerivedKernel::SbcapeCin
                | DerivedKernel::MlcapeCin
                | DerivedKernel::MucapeCin => KernelAnswer::Parcel(parcel(values)),
                _ => KernelAnswer::Field(values),
            })
        }
        KernelWork::Surface { surface } => Ok(KernelAnswer::SurfaceThermo(SurfaceThermoOutputs {
            theta_e_2m_k: first(surface.t2_k, nxy),
            vpd_2m_hpa: first(surface.q2_kgkg, nxy),
            dewpoint_depression_2m_c: vec![3.0; nxy],
            wetbulb_2m_c: vec![4.0; nxy],
            fire_weather_composite: vec![5.0; nxy],
            apparent_temperature_2m_c: vec![6.0; nxy],
            heat_index_2m_c: vec![7.0; nxy],
            wind_chill_2m_c: vec![8.0; nxy],
        })),
        KernelWork::Wind { kernel, wind, .. } => Ok(KernelAnswer::Field(match kernel {
            DerivedKernel::Shear01km | DerivedKernel::Shear06km => first(wind.u_3d_ms, nxy),
            _ => first(wind.v_3d_ms, nxy),
        })),
        KernelWork::Advection { temperature_c, u_ms, v_ms, dx_m, dy_m, .. } => {
            Ok(KernelAnswer::Field(
                (0..nxy)
                    .map(|i| temperature_c[i] + u_ms[i] / dx_m + v_ms[i] / dy_m)
                    .collect(),
            ))
        }
        KernelWork::Composite { inputs, .. } => Ok(KernelAnswer::Field(
            (0..nxy)
                .map(|i| {
                    inputs.cape_jkg[i] * inputs.srh_m2s2[i]
                        + inputs.shear_ms.map_or(0.0, |shear| shear[i])
                        + inputs.lcl_m.map_or(0.0, |lcl| lcl[i])
                })
                .collect(),
        )),
    }
}

fn above(height: f64, orography: f64) -> f64 {
    height - orography
}

fn raise(height: f64, below: f64) -> f64 {
    if height <= below {
        below + 1.0
    } else {
        height
    }
}

fn to_pa(level: f64) -> f64 {
    level * 100.0
}

fn to_knots(speed: f64) -> f64 {
    speed * 2.0
}

fn at_level(level: f64, target: u64) -> bool {
    (level - target as f64).abs() < 0.25
}

fn crosses(_: f64, _: f64, _: u64) -> bool {
    false
}

fn between(_: f64, _: f64, _: f64, _: f64, _: u64) -> f64 {
    f64::NAN
}

/// A distance that tells which way it goes.
fn distance(lat: f64, lon: f64, other_lat: f64, other_lon: f64) -> f64 {
    (other_lon - lon).abs() * 1000.0 + (other_lat - lat).abs() * 2000.0
}

fn counts(distance: f64) -> bool {
    distance > 0.0
}

fn sum(total: f64, distance: f64) -> f64 {
    total + distance
}

fn mean(total: f64, count: usize) -> f64 {
    total / count as f64
}

fn wording(mismatch: LengthMismatch) -> String {
    format!("{}: expected {}, got {}", mismatch.field, mismatch.expected, mismatch.actual)
}

fn rules() -> Rules {
    ComputeRules {
        run,
        above,
        raise,
        to_pa,
        to_knots,
        levels: LevelRules { at_level, crosses, between, blank: f64::NAN },
        spacing: SpacingRules { distance, counts, sum, mean, nothing: 0.0 },
        wording,
    }
}

fn surface() -> SurfaceFields<f64, ()> {
    SurfaceFields {
        lat: vec![30.0, 31.0],
        lon: vec![-100.0, -99.0],
        nx: 2,
        ny: 1,
        projection: None,
        psfc_pa: vec![100000.0, 99000.0],
        orog_m: vec![100.0, 200.0],
        orog_is_proxy: false,
        t2_k: vec![300.0, 301.0],
        q2_kgkg: vec![0.01, 0.02],
        u10_ms: vec![1.0, 2.0],
        v10_ms: vec![3.0, 4.0],
        native_sbcape_jkg: None,
        native_mlcape_jkg: None,
        native_mucape_jkg: None,
        native_pblh_m: None,
    }
}

fn pressure() -> PressureFields<f64> {
    PressureFields {
        pressure_levels_hpa: vec![850.0, 700.0],
        pressure_3d_pa: None,
        temperature_c_3d: vec![10.0, 11.0, 12.0, 13.0],
        qvapor_kgkg_3d: vec![0.1, 0.2, 0.3, 0.4],
        u_ms_3d: vec![20.0, 21.0, 22.0, 23.0],
        v_ms_3d: vec![30.0, 31.0, 32.0, 33.0],
        gh_m_3d: vec![1500.0, 1600.0, 3000.0, 3100.0],
        omega_pa_s_3d: None,
        absolute_vorticity_s_3d: None,
        cloud_liquid_kgkg_3d: None,
        cloud_ice_kgkg_3d: None,
        rain_kgkg_3d: None,
        snow_kgkg_3d: None,
        graupel_kgkg_3d: None,
    }
}

#[test]
fn kernels_are_handed_their_inputs_and_their_fields_assembled() {
    let computed = compute_derived_fields_generic(
        &surface(),
        &pressure(),
        &[
            DerivedRecipe::Sbcape,
            DerivedRecipe::Dcape,
            DerivedRecipe::BulkShear06km,
            DerivedRecipe::Ehi01km,
            DerivedRecipe::Vpd2m,
        ],
        &rules(),
    )
    .expect("all kernels answer");
    assert_eq!(computed.sbcape_jkg, Some(vec![10.0, 11.0]));
    assert_eq!(computed.sbcin_jkg, Some(vec![-10.0, -11.0]));
    assert_eq!(computed.dcape_jkg, Some(vec![85000.0, 70000.0]));
    assert_eq!(computed.shear_06km_kt, Some(vec![40.0, 42.0]));
    assert_eq!(computed.ehi_01km, Some(vec![300.0, 341.0]));
    assert_eq!(computed.vpd_2m_hpa, Some(vec![0.01, 0.02]));
    assert_eq!(computed.heat_index_2m_c, None);
    assert_eq!(computed.mlcape_jkg, None);
}

/// Planes on one row, repeated on a second one.
fn two_rows(values: &[f64]) -> Vec<f64> {
    values.chunks(2).flat_map(|row| [row[0], row[1], row[0], row[1]]).collect()
}

fn square_surface() -> SurfaceFields<f64, ()> {
    let row = surface();
    SurfaceFields {
        lat: vec![30.0, 30.0, 31.0, 31.0],
        lon: vec![-100.0, -99.0, -100.0, -99.0],
        nx: 2,
        ny: 2,
        psfc_pa: two_rows(&row.psfc_pa),
        orog_m: two_rows(&row.orog_m),
        t2_k: two_rows(&row.t2_k),
        q2_kgkg: two_rows(&row.q2_kgkg),
        u10_ms: two_rows(&row.u10_ms),
        v10_ms: two_rows(&row.v10_ms),
        ..row
    }
}

fn square_pressure() -> PressureFields<f64> {
    let row = pressure();
    PressureFields {
        temperature_c_3d: two_rows(&row.temperature_c_3d),
        qvapor_kgkg_3d: two_rows(&row.qvapor_kgkg_3d),
        u_ms_3d: two_rows(&row.u_ms_3d),
        v_ms_3d: two_rows(&row.v_ms_3d),
        gh_m_3d: two_rows(&row.gh_m_3d),
        ..row
    }
}

#[test]
fn temperature_advection_reads_the_spacing_of_the_grid() {
    let recipes = [DerivedRecipe::TemperatureAdvection850mb];
    let computed =
        compute_derived_fields_generic(&square_surface(), &square_pressure(), &recipes, &rules())
            .expect("all kernels answer");
    let row = [10.0 + 0.02 + 0.015, 11.0 + 0.021 + 0.0155];
    assert_eq!(computed.temperature_advection_850mb_cph, Some(two_rows(&row)));
}

#[test]
fn a_grid_without_distances_is_refused_in_words() {
    let recipes = [DerivedRecipe::TemperatureAdvection850mb];
    let phased = |surface: &SurfaceFields<f64, ()>, mut left: PressureFields<f64>| {
        let winds = TakenWindVolumes {
            u_ms_3d: std::mem::take(&mut left.u_ms_3d),
            v_ms_3d: std::mem::take(&mut left.v_ms_3d),
        };
        compute_store_derived_fields_phased(surface, &left, winds, &recipes, None, true, &rules())
            .err()
    };
    let small = Some("grid_spacing: expected 4, got 2".to_string());
    assert_eq!(
        compute_derived_fields_generic(&surface(), &pressure(), &recipes, &rules()).err(),
        small
    );
    assert_eq!(phased(&surface(), pressure()), small);

    let mut heap = square_surface();
    heap.lat = vec![30.0; 4];
    heap.lon = vec![-100.0; 4];
    let flat = Some("grid_spacing: expected 2, got 0".to_string());
    assert_eq!(
        compute_derived_fields_generic(&heap, &square_pressure(), &recipes, &rules()).err(),
        flat
    );
    assert_eq!(phased(&heap, square_pressure()), flat);
}

#[test]
fn heights_come_from_the_orography_or_from_the_caller() {
    let mut low = pressure();
    low.gh_m_3d = vec![1500.0, 1600.0, 1400.0, 3100.0];
    let computed = compute_derived_fields_generic(
        &surface(),
        &low,
        &[DerivedRecipe::LapseRate700500],
        &rules(),
    )
    .expect("all kernels answer");
    assert_eq!(computed.lapse_rate_700_500_cpkm, Some(vec![1400.0, 1400.0]));

    let given = vec![7.0, 8.0, 9.0, 10.0];
    let computed = compute_derived_fields_generic_with_height_agl(
        &surface(),
        &low,
        &[DerivedRecipe::LapseRate700500],
        Some(&given),
        &rules(),
    )
    .expect("all kernels answer");
    assert_eq!(computed.lapse_rate_700_500_cpkm, Some(vec![7.0, 8.0]));
}

#[test]
fn the_three_parcels_are_had_in_one_call() {
    let computed = compute_derived_fields_generic(
        &surface(),
        &pressure(),
        &[DerivedRecipe::Sbcape, DerivedRecipe::Mlcape, DerivedRecipe::Mucape],
        &rules(),
    )
    .expect("all kernels answer");
    assert_eq!(computed.sbcape_jkg, Some(vec![1.0, 1.0]));
    assert_eq!(computed.mlcape_jkg, Some(vec![2.0, 2.0]));
    assert_eq!(computed.mucape_jkg, Some(vec![3.0, 3.0]));
}

#[test]
fn the_first_kernel_that_fails_ends_the_computation() {
    let mut empty = surface();
    empty.nx = 0;
    assert_eq!(
        compute_derived_fields_generic(&empty, &pressure(), &[DerivedRecipe::Vpd2m], &rules())
            .err(),
        Some("empty grid".to_string())
    );

    let mut negative = pressure();
    negative.pressure_levels_hpa = vec![-850.0, -700.0];
    assert_eq!(
        compute_derived_fields_generic(
            &surface(),
            &negative,
            &[DerivedRecipe::TemperatureAdvection700mb, DerivedRecipe::LiftedIndex],
            &rules(),
        )
        .err(),
        Some("negative pressure".to_string())
    );
    let mut negative = square_pressure();
    negative.pressure_levels_hpa = vec![-850.0, -700.0];
    assert_eq!(
        compute_derived_fields_generic(
            &square_surface(),
            &negative,
            &[DerivedRecipe::TemperatureAdvection700mb],
            &rules(),
        )
        .err(),
        Some("missing 700 mb temperature slice in HRRR pressure bundle".to_string())
    );
}

#[test]
fn surface_recipes_need_no_pressure_analysis() {
    let computed = compute_surface_only_derived_fields(
        &surface(),
        &[DerivedRecipe::ThetaE2m10mWinds, DerivedRecipe::WindChill2m],
        &rules(),
    )
    .expect("the surface kernel answers");
    assert_eq!(computed.theta_e_2m_k, Some(vec![300.0, 301.0]));
    assert_eq!(computed.surface_u10_ms, Some(vec![1.0, 2.0]));
    assert_eq!(computed.wind_chill_2m_c, Some(vec![8.0, 8.0]));
    assert_eq!(
        compute_surface_only_derived_fields(&surface(), &[DerivedRecipe::Sbcape], &rules()).err(),
        Some("surface-only derived compute received a pressure-dependent recipe".to_string())
    );
}

#[test]
fn giving_the_winds_up_early_changes_no_field() {
    let recipes = [
        DerivedRecipe::Sbcape,
        DerivedRecipe::Srh03km,
        DerivedRecipe::BulkShear01km,
        DerivedRecipe::StpFixed,
        DerivedRecipe::TemperatureAdvection700mb,
        DerivedRecipe::ThetaE2m10mWinds,
    ];
    let surface = square_surface();
    let whole = compute_derived_fields_generic(&surface, &square_pressure(), &recipes, &rules())
        .expect("all kernels answer");
    let mut left = square_pressure();
    let winds = TakenWindVolumes {
        u_ms_3d: std::mem::take(&mut left.u_ms_3d),
        v_ms_3d: std::mem::take(&mut left.v_ms_3d),
    };
    let (computed, kept) = compute_store_derived_fields_phased(
        &surface,
        &left,
        winds,
        &recipes,
        None,
        true,
        &rules(),
    )
    .expect("all kernels answer");
    assert_eq!(computed.sbcape_jkg, whole.sbcape_jkg);
    assert_eq!(computed.srh_03km_m2s2, whole.srh_03km_m2s2);
    assert_eq!(computed.shear_01km_kt, whole.shear_01km_kt);
    assert_eq!(computed.stp_fixed, whole.stp_fixed);
    assert_eq!(
        computed.temperature_advection_700mb_cph,
        whole.temperature_advection_700mb_cph
    );
    assert_eq!(computed.surface_v10_ms, whole.surface_v10_ms);
    let row = [10.0 * 30.0 + 20.0 + 510.0, 11.0 * 31.0 + 21.0 + 511.0];
    assert_eq!(computed.stp_fixed, Some(two_rows(&row)));
    let kept = kept.expect("the winds were to be kept");
    assert_eq!(kept.u_ms_3d, two_rows(&[20.0, 21.0, 22.0, 23.0]));
    assert_eq!(kept.v_ms_3d, two_rows(&[30.0, 31.0, 32.0, 33.0]));
}

/// Specific mixing ratio of air at a dewpoint, from the saturation vapor pressure.
fn mixing_ratio_from_dewpoint_k(pressure_hpa: f64, dewpoint_k: f64) -> f64 {
    let dewpoint_c = dewpoint_k - 273.15;
    let vapor_hpa = 6.112 * ((17.67 * dewpoint_c) / (dewpoint_c + 243.5)).exp();
    0.622 * vapor_hpa / (pressure_hpa - vapor_hpa)
}

const NX: usize = 3;
const NY: usize = 2;
const NXY: usize = NX * NY;
const LEVELS: [u16; 5] = [1000, 925, 850, 700, 500];

fn synthetic_pair() -> (SurfaceFields<f64, ()>, PressureFields<f64>) {
    let mut lat = Vec::with_capacity(NXY);
    let mut lon = Vec::with_capacity(NXY);
    for y in 0..NY {
        for x in 0..NX {
            lat.push(35.0 + 0.01 * y as f64);
            lon.push(-97.0 + 0.01 * x as f64);
        }
    }
    let psfc_pa: Vec<f64> = (0..NXY).map(|ij| 97_500.0 + 50.0 * ij as f64).collect();
    let td2_k: Vec<f64> = (0..NXY).map(|ij| 295.0 + 0.2 * ij as f64).collect();
    let q2_kgkg: Vec<f64> = psfc_pa
        .iter()
        .zip(td2_k.iter())
        .map(|(&psfc, &td_k)| mixing_ratio_from_dewpoint_k(psfc / 100.0, td_k))
        .collect();
    let volume = |base: f64, dk: f64, dij: f64| -> Vec<f64> {
        (0..LEVELS.len())
            .flat_map(|k| (0..NXY).map(move |ij| base + dk * k as f64 + dij * ij as f64))
            .collect()
    };
    let qvapor_kgkg_3d: Vec<f64> = LEVELS
        .iter()
        .enumerate()
        .flat_map(|(k, &level)| {
            (0..NXY).map(move |ij| {
                let td_k = 294.0 - 8.5 * k as f64 + 0.15 * ij as f64;
                mixing_ratio_from_dewpoint_k(f64::from(level), td_k)
            })
        })
        .collect();
    (
        SurfaceFields {
            lat,
            lon,
            nx: NX,
            ny: NY,
            projection: None,
            psfc_pa,
            orog_m: (0..NXY).map(|ij| 300.0 + 5.0 * ij as f64).collect(),
            orog_is_proxy: false,
            t2_k: (0..NXY).map(|ij| 302.0 + 0.3 * ij as f64).collect(),
            q2_kgkg,
            u10_ms: (0..NXY).map(|ij| 2.0 + 0.5 * ij as f64).collect(),
            v10_ms: (0..NXY).map(|ij| 5.0 - 0.25 * ij as f64).collect(),
            native_sbcape_jkg: None,
            native_mlcape_jkg: None,
            native_mucape_jkg: None,
            native_pblh_m: None,
        },
        PressureFields {
            pressure_levels_hpa: LEVELS.iter().map(|&level| f64::from(level)).collect(),
            pressure_3d_pa: None,
            temperature_c_3d: volume(301.0 - 273.15, -7.5, 0.2),
            qvapor_kgkg_3d,
            u_ms_3d: volume(3.0, 4.0, 0.3),
            v_ms_3d: volume(6.0, 2.5, -0.2),
            gh_m_3d: volume(400.0, 1400.0, 2.0),
            omega_pa_s_3d: None,
            absolute_vorticity_s_3d: None,
            cloud_liquid_kgkg_3d: None,
            cloud_ice_kgkg_3d: None,
            rain_kgkg_3d: None,
            snow_kgkg_3d: None,
            graupel_kgkg_3d: None,
        },
    )
}

#[test]
fn phased_store_derived_compute_matches_generic_path() {
    let (surface, pressure) = synthetic_pair();
    let legacy = compute_store_derived_grids(&surface, &pressure, &rules())
        .ok()
        .expect("generic-path store compute succeeds");
    assert_eq!(legacy.len(), 29, "all 29 non-heavy recipes realize");

    let narrow = |value: f64| value as f32;
    let (surface, pressure) = synthetic_pair();
    let mut keep = prepare_store_compute_inputs(surface, pressure, &above, &raise);
    assert!(keep.pressure.gh_m_3d.is_empty());
    let kept_grids = compute_store_derived_grids_f32(&mut keep, true, &rules(), &narrow)
        .ok()
        .expect("phased compute (keep winds)");
    assert!(
        !keep.pressure.u_ms_3d.is_empty() && !keep.pressure.v_ms_3d.is_empty(),
        "keep_winds must hand the wind volumes back for the heavy stage"
    );

    let (surface, pressure) = synthetic_pair();
    let mut free = prepare_store_compute_inputs(surface, pressure, &above, &raise);
    let freed_grids = compute_store_derived_grids_f32(&mut free, false, &rules(), &narrow)
        .ok()
        .expect("phased compute (free winds)");
    assert!(
        free.pressure.u_ms_3d.is_empty() && free.pressure.v_ms_3d.is_empty(),
        "freeing must leave the wind volumes empty"
    );

    assert_eq!(legacy.len(), kept_grids.len());
    assert_eq!(legacy.len(), freed_grids.len());
    let mut finite = 0usize;
    for ((reference, kept), freed) in legacy.iter().zip(&kept_grids).zip(&freed_grids) {
        assert_eq!(reference.slug, kept.slug);
        assert_eq!(reference.slug, freed.slug);
        assert_eq!(reference.units, kept.units, "{}: units", reference.slug);
        assert_eq!(reference.units, freed.units, "{}: units", reference.slug);
        assert_eq!(reference.values.len(), kept.values.len());
        assert_eq!(reference.values.len(), freed.values.len());
        for (i, &expected_f64) in reference.values.iter().enumerate() {
            let expected = expected_f64 as f32;
            assert_eq!(
                expected.to_bits(),
                kept.values[i].to_bits(),
                "{}[{i}]: keep-winds mismatch",
                reference.slug
            );
            assert_eq!(
                expected.to_bits(),
                freed.values[i].to_bits(),
                "{}[{i}]: free-winds mismatch",
                reference.slug
            );
            if expected.is_finite() {
                finite += 1;
            }
        }
    }
    assert!(
        finite > 0,
        "synthetic hour must produce finite values or the compare is NaN-trivial"
    );
}

fn ecape_parcel(base: f64, nxy: usize) -> EcapeParcelFields<f64> {
    EcapeParcelFields {
        ecape_jkg: vec![base; nxy],
        ncape_jkg: vec![base + 1.0; nxy],
        cape_jkg: vec![base * 2.0; nxy],
        cin_jkg: vec![-base; nxy],
    }
}

/// ECAPE kernels whose answers tell what they were handed.
fn run_ecape(call: EcapeCall<'_, f64>) -> Result<EcapeAnswer<f64>, String> {
    let nxy = call.nx * call.ny;
    Ok(match call.work {
        EcapeWork::Triplet { volume, storm_motion, .. } => {
            assert_eq!(storm_motion, "right_moving");
            assert_eq!(volume.pressure_pa.len(), volume.nz);
            if volume.temperature_c.is_empty() {
                return Err("no profile".to_string());
            }
            EcapeAnswer::Triplet {
                parcels: EcapeTriplet {
                    sb: ecape_parcel(100.0, nxy),
                    ml: ecape_parcel(200.0, nxy),
                    mu: ecape_parcel(300.0, nxy),
                },
                failure_count: 7,
            }
        }
        EcapeWork::Winds { wind } => {
            assert_eq!(wind.u_3d_ms.len(), wind.nz * nxy);
            EcapeAnswer::Winds {
                winds: WindDiagnostics {
                    srh_01km_m2s2: vec![1.0; nxy],
                    srh_03km_m2s2: vec![3.0; nxy],
                    shear_06km_ms: vec![6.0; nxy],
                },
            }
        }
        EcapeWork::ScpEhi { scp_ehi } => EcapeAnswer::ScpEhi {
            scp: vec![
                scp_ehi.scp_cape_jkg[0] * scp_ehi.scp_srh_m2s2[0]
                    + scp_ehi.scp_bulk_wind_difference_ms[0];
                nxy
            ],
            ehi: vec![scp_ehi.ehi_cape_jkg[0] * scp_ehi.ehi_srh_m2s2[0]; nxy],
        },
        EcapeWork::Ehi { cape_jkg, srh_m2s2 } => EcapeAnswer::Field {
            values: vec![cape_jkg[0] * srh_m2s2[0]; nxy],
        },
        EcapeWork::MixedLayer { .. } => EcapeAnswer::MixedLayer { lcl_m: vec![900.0; nxy] },
        EcapeWork::EffectiveLayer { .. } => EcapeAnswer::EffectiveLayer {
            effective: EffectiveLayerDiagnostics {
                effective_srh_m2s2: vec![50.0; nxy],
                effective_bulk_wind_difference_ms: vec![20.0; nxy],
            },
        },
        EcapeWork::Stp { inputs } => EcapeAnswer::Field {
            values: vec![
                inputs.mlcape_jkg[0]
                    + inputs.mlcin_jkg[0] * 10.0
                    + inputs.ml_lcl_m[0]
                    + inputs.effective_srh_m2s2[0]
                    + inputs.effective_bulk_wind_difference_ms[0];
                nxy
            ],
        },
    })
}

fn height_rules() -> HeightRules<f64, Binary, Binary, Binary, Unary, Unary> {
    HeightRules {
        above,
        raise,
        lower: f64::min,
        settle: |height| if height.is_finite() { height } else { 0.0 },
        to_pa,
        highest: f64::INFINITY,
    }
}

fn ratio(ecape: f64, cape: f64) -> f64 {
    if cape > 0.0 {
        ecape / cape
    } else {
        f64::NAN
    }
}

#[test]
fn ecape_products_come_of_the_kernels() {
    let (mut surface, pressure) = synthetic_pair();
    surface.native_mlcape_jkg = Some(vec![400.0; NXY]);
    let (fields, failures) =
        compute_ecape_map_fields(&surface, &pressure, &height_rules(), &run_ecape, &ratio)
            .ok()
            .expect("all kernels answer");
    assert_eq!(failures, 7);
    assert_eq!(fields.len(), 14);
    let value = |slug: &str| {
        fields
            .iter()
            .find(|field| field.artifact_slug() == slug)
            .map(|field| field.values[0])
    };
    assert_eq!(value("sbecape"), Some(100.0));
    assert_eq!(value("ml_ecape_derived_cape_ratio"), Some(0.5));
    assert_eq!(value("ml_ecape_native_cape_ratio"), Some(0.5));
    assert_eq!(value("sb_ecape_native_cape_ratio"), None);
    assert_eq!(value("ecape_scp"), Some(300.0 * 3.0 + 6.0));
    assert_eq!(value("ecape_ehi_0_1km"), Some(100.0));
    assert_eq!(value("ecape_ehi_0_3km"), Some(300.0));
    assert_eq!(value("ecape_stp"), Some(200.0 - 2000.0 + 900.0 + 50.0 + 20.0));
    assert_eq!(value("sbncape"), Some(101.0));
    assert_eq!(value("mlecin"), Some(-200.0));
}

/// A column of the deep troposphere whose effective inflow layer is deeper than the
/// fixed ones.
fn deep_supercell_profile() -> (SurfaceFields<f64, ()>, PressureFields<f64>) {
    let row = surface();
    let surface = SurfaceFields {
        lat: vec![35.0],
        lon: vec![-97.0],
        nx: 1,
        ny: 1,
        psfc_pa: vec![100_000.0],
        orog_m: vec![0.0],
        t2_k: vec![303.15],
        q2_kgkg: vec![0.018],
        u10_ms: vec![-6.0],
        v10_ms: vec![9.0],
        ..row
    };
    let pressure = PressureFields {
        pressure_levels_hpa: vec![
            950.0, 900.0, 850.0, 700.0, 500.0, 300.0, 200.0, 150.0, 100.0,
        ],
        temperature_c_3d: vec![26.0, 22.0, 18.0, 8.0, -10.0, -38.0, -54.0, -64.0, -62.0],
        qvapor_kgkg_3d: vec![
            0.016, 0.013, 0.010, 0.005, 0.0015, 0.0003, 0.00008, 0.00004, 0.00002,
        ],
        u_ms_3d: vec![-4.0, 2.0, 9.0, 18.0, 26.0, 33.0, 40.0, 44.0, 46.0],
        v_ms_3d: vec![10.0, 11.0, 9.0, 6.0, 2.0, -4.0, -8.0, -10.0, -12.0],
        gh_m_3d: vec![
            150.0, 800.0, 1500.0, 3000.0, 5600.0, 9200.0, 11_800.0, 13_600.0, 16_200.0,
        ],
        ..pressure()
    };
    (surface, pressure)
}

#[test]
fn published_ecape_stp_is_built_from_effective_layer_kinematics() {
    const STP_FROM_EFFECTIVE_LAYER: f64 = 2.387_077_509_047_596_6;
    const STP_FROM_FIXED_LAYERS: f64 = 1.376_400_813_314_422_8;
    let (surface, pressure) = deep_supercell_profile();
    // The kinematics of the two layer definitions on this profile, and the composite
    // of each.
    let run = |call: EcapeCall<'_, f64>| -> Result<EcapeAnswer<f64>, String> {
        Ok(match call.work {
            EcapeWork::Winds { .. } => EcapeAnswer::Winds {
                winds: WindDiagnostics {
                    srh_01km_m2s2: vec![102.832_674_013_883_83],
                    srh_03km_m2s2: vec![3.0],
                    shear_06km_ms: vec![31.974_719_952_634_19],
                },
            },
            EcapeWork::EffectiveLayer { volume, .. } => {
                assert_eq!(volume.height_agl_m, &pressure.gh_m_3d);
                EcapeAnswer::EffectiveLayer {
                    effective: EffectiveLayerDiagnostics {
                        effective_srh_m2s2: vec![178.341_629_094_700_86],
                        effective_bulk_wind_difference_ms: vec![35.280_979_561_827_05],
                    },
                }
            }
            EcapeWork::Stp { inputs } => EcapeAnswer::Field {
                values: vec![
                    match (
                        inputs.effective_srh_m2s2[0],
                        inputs.effective_bulk_wind_difference_ms[0],
                    ) {
                        (srh, bwd) if srh > 178.0 && bwd > 35.0 => STP_FROM_EFFECTIVE_LAYER,
                        (srh, bwd) if srh < 103.0 && bwd < 32.0 => STP_FROM_FIXED_LAYERS,
                        _ => f64::NAN,
                    },
                ],
            },
            work => return run_ecape(EcapeCall { work, ..call }),
        })
    };
    let (fields, _failures) =
        compute_ecape_map_fields(&surface, &pressure, &height_rules(), &run, &ratio)
            .ok()
            .expect("all kernels answer");
    let published_stp = fields
        .iter()
        .find(|field| field.product == WeatherProduct::EcapeStpExperimental)
        .map(|field| field.values[0])
        .expect("the composite is published");
    assert!((published_stp - STP_FROM_EFFECTIVE_LAYER).abs() < 1.0e-6);
    assert!((published_stp - STP_FROM_FIXED_LAYERS).abs() > 1.0);
}

#[test]
fn ecape_kernels_that_fail_end_the_computation() {
    let (surface, mut pressure) = synthetic_pair();
    pressure.temperature_c_3d = Vec::new();
    assert_eq!(
        compute_ecape_map_fields(&surface, &pressure, &height_rules(), &run_ecape, &ratio).err(),
        Some("no profile".to_string())
    );
}

#[test]
fn heavy_grids_are_stored_and_native_ratios_left_out() {
    let (surface, pressure) = synthetic_pair();
    let wide =
        compute_store_heavy_grids(&surface, &pressure, &height_rules(), &run_ecape, &ratio)
            .ok()
            .expect("all kernels answer");
    assert_eq!(wide.grids.len(), 13);
    assert_eq!(wide.skipped.len(), 3);
    assert_eq!(wide.ecape_failure_count, 7);
    let inputs = prepare_store_compute_inputs(surface, pressure, &above, &raise);
    let narrow = compute_store_heavy_grids_f32(
        inputs,
        &height_rules(),
        &run_ecape,
        &ratio,
        &|value: f64| value as f32,
    )
    .ok()
    .expect("all kernels answer");
    assert_eq!(narrow.skipped[1].slug, "ml_ecape_native_cape_ratio");
    for (wide, narrow) in wide.grids.iter().zip(&narrow.grids) {
        assert_eq!(wide.slug, narrow.slug);
        assert_eq!(wide.units, narrow.units);
        assert_eq!(wide.values[0] as f32, narrow.values[0]);
    }
}

#[test]
fn proxy_orography_keeps_the_geopotential_heights() {
    let (mut surface, pressure) = synthetic_pair();
    surface.orog_is_proxy = true;
    let inputs = prepare_store_compute_inputs(surface, pressure, &above, &raise);
    assert!(inputs.height_agl_3d.is_none());
    assert_eq!(inputs.pressure.gh_m_3d.len(), LEVELS.len() * NXY);
    let heavy = compute_store_heavy_grids_f32(
        inputs,
        &height_rules(),
        &run_ecape,
        &ratio,
        &|value: f64| value as f32,
    );
    assert_eq!(heavy.ok().map(|grids| grids.grids.len()), Some(13));
}

#[test]
fn recipes_are_sampled_together_or_one_by_one() {
    let slugs = |list: &[&str]| -> Vec<String> { list.iter().map(|slug| slug.to_string()).collect() };
    let sampled = sample_derived_fields(
        &surface(),
        &pressure(),
        &slugs(&["vpd_2m", "sbcape", "vpd_2m"]),
        &rules(),
    )
    .ok()
    .expect("the slugs name recipes");
    assert_eq!(sampled.fields.len(), 2);
    assert_eq!(sampled.fields[1].recipe_slug, "sbcape");
    assert_eq!(sampled.fields[1].values, vec![10.0, 11.0]);
    assert!(sampled.blockers.is_empty());

    let mut negative = pressure();
    negative.pressure_levels_hpa = vec![-850.0, -700.0];
    let sampled = sample_derived_fields(
        &surface(),
        &negative,
        &slugs(&["vpd_2m", "lifted_index"]),
        &rules(),
    )
    .ok()
    .expect("the slugs name recipes");
    assert_eq!(sampled.fields.len(), 1);
    assert_eq!(sampled.fields[0].recipe_slug, "vpd_2m");
    assert_eq!(sampled.blockers.len(), 1);
    assert_eq!(
        sampled.blockers[0].reason,
        "shared derived compute failed: negative pressure; recipe failed: negative pressure"
    );
    assert!(sample_derived_fields(&surface(), &pressure(), &slugs(&["nothing"]), &rules()).is_err());
}

#[test]
fn heavy_recipes_are_not_sampled() {
    let slugs = |list: &[&str]| -> Vec<String> { list.iter().map(|slug| slug.to_string()).collect() };
    let heavy = "heavy derived recipe 'sbecape' is not exposed through the lightweight query path";
    let sampled =
        sample_derived_fields(&surface(), &pressure(), &slugs(&["sbecape", "vpd_2m"]), &rules())
            .ok()
            .expect("the slugs name recipes");
    assert_eq!(sampled.fields.len(), 1);
    assert_eq!(sampled.fields[0].recipe_slug, "vpd_2m");
    assert_eq!(sampled.blockers.len(), 1);
    assert_eq!(sampled.blockers[0].recipe_slug, "sbecape");
    assert_eq!(sampled.blockers[0].reason, heavy);

    let mut negative = pressure();
    negative.pressure_levels_hpa = vec![-850.0, -700.0];
    let sampled = sample_derived_fields(
        &surface(),
        &negative,
        &slugs(&["lifted_index", "sbecape"]),
        &rules(),
    )
    .ok()
    .expect("the slugs name recipes");
    assert!(sampled.fields.is_empty());
    assert_eq!(sampled.blockers.len(), 2);
    assert!(sampled.blockers.iter().any(|blocker| blocker.reason.contains(heavy)));
    let sampled = sample_derived_fields(&surface(), &pressure(), &slugs(&["sbecape"]), &rules())
        .ok()
        .expect("the slug names a recipe");
    assert!(sampled.fields.is_empty());
    assert_eq!(sampled.blockers.len(), 1);
}

#[test]
fn a_level_is_as_large_as_the_grid() {
    let mut long = surface();
    long.orog_m.push(9000.0);
    let recipes = [DerivedRecipe::LapseRate700500, DerivedRecipe::Dcape];
    let expected = compute_derived_fields_generic(&surface(), &pressure(), &recipes, &rules())
        .expect("all kernels answer");
    let computed = compute_derived_fields_generic(&long, &pressure(), &recipes, &rules())
        .expect("all kernels answer");
    assert_eq!(computed.lapse_rate_700_500_cpkm, expected.lapse_rate_700_500_cpkm);
    assert_eq!(computed.dcape_jkg, expected.dcape_jkg);
    assert_eq!(
        compute_height_agl_3d(
            &[1500.0, 1600.0, 3000.0, 3100.0],
            &[100.0, 200.0, 9000.0],
            2,
            2,
            &above,
            &raise
        ),
        vec![1400.0, 1400.0, 2900.0, 2900.0]
    );
    let inputs = prepare_store_compute_inputs(long, pressure(), &above, &raise);
    assert_eq!(inputs.height_agl_3d, Some(vec![1400.0, 1400.0, 2900.0, 2900.0]));
}

#[test]
fn a_grid_without_cells_is_refused() {
    fn refuse_nothing(call: KernelCall<'_, f64>) -> Result<KernelAnswer<f64>, String> {
        if call.nx * call.ny == 0 {
            return Err("grid has no cells".to_string());
        }
        run(call)
    }
    let mut rules = rules();
    rules.run = refuse_nothing;
    let mut empty = surface();
    empty.nx = 0;
    let recipes = [DerivedRecipe::Sbcape, DerivedRecipe::Srh01km];
    assert_eq!(
        compute_derived_fields_generic(&empty, &pressure(), &recipes, &rules).err(),
        Some("grid has no cells".to_string())
    );
}

#[test]
fn a_proxy_pair_is_taken_as_it_is() {
    let mut proxy = surface();
    proxy.orog_is_proxy = true;
    proxy.orog_m = Vec::new();
    let mut bare = pressure();
    bare.gh_m_3d = vec![5.0];
    let inputs = prepare_store_compute_inputs(proxy, bare, &above, &raise);
    assert!(inputs.height_agl_3d.is_none());
    assert_eq!(inputs.pressure.gh_m_3d, vec![5.0]);
}

#[test]
fn one_recipe_can_be_queried() {
    let field = compute_derived_query_field(&surface(), &pressure(), "dcape", &rules())
        .ok()
        .expect("the kernel answers");
    assert_eq!(field.values, vec![85000.0, 70000.0]);
    assert_eq!((field.nx, field.ny), (2, 1));
    assert_eq!(
        compute_derived_query_field(&surface(), &pressure(), "sbecape", &rules()).err(),
        Some(
            "heavy derived recipe 'sbecape' is not exposed through the lightweight query path"
                .to_string()
        )
    );
}

/// A pair of analyses on a row of eight cells.
fn wide_pair() -> (SurfaceFields<f64, ()>, PressureFields<f64>) {
    let row = |value: f64| vec![value; 8];
    let levels = |low: f64, high: f64| [vec![low; 8], vec![high; 8]].concat();
    let mut wide = surface();
    wide.nx = 8;
    wide.lat = row(30.0);
    wide.lon = (0..8).map(|x| -100.0 + x as f64).collect();
    wide.psfc_pa = row(100000.0);
    wide.orog_m = row(100.0);
    wide.t2_k = row(300.0);
    wide.q2_kgkg = row(0.01);
    wide.u10_ms = row(1.0);
    wide.v10_ms = row(2.0);
    let mut deep = pressure();
    deep.temperature_c_3d = levels(10.0, 0.0);
    deep.qvapor_kgkg_3d = levels(0.1, 0.01);
    deep.u_ms_3d = levels(20.0, 30.0);
    deep.v_ms_3d = levels(0.0, 5.0);
    deep.gh_m_3d = levels(1500.0, 3000.0);
    (wide, deep)
}

/// A map that shows the first cell alone.
fn project_west(surface: &SurfaceFields<f64, ()>) -> Result<HeavyProjection<usize>, String> {
    Ok(HeavyProjection {
        handle: surface.nx,
        inside_x: surface.lon.iter().map(|lon| *lon < -99.5).collect(),
        inside_y: vec![true; surface.nx],
    })
}

fn project_nothing(surface: &SurfaceFields<f64, ()>) -> Result<HeavyProjection<usize>, String> {
    Ok(HeavyProjection {
        handle: 0,
        inside_x: vec![false; surface.nx],
        inside_y: vec![true; surface.nx],
    })
}

fn fail_on_crop(surface: &SurfaceFields<f64, ()>) -> Result<HeavyProjection<usize>, String> {
    if surface.nx < 8 {
        return Err("no extent".to_string());
    }
    project_west(surface)
}

fn ecape_request() -> EcapeBatchRequest<u8> {
    EcapeBatchRequest {
        model: ModelId::RrfsA,
        date_yyyymmdd: "20260414".to_string(),
        cycle_override_utc: None,
        forecast_hour: 6,
        source: SourceId::Aws,
        domain: DomainSpec {
            slug: "west".to_string(),
            bounds: 0,
        },
        use_cache: false,
        surface_product_override: None,
        pressure_product_override: None,
        allow_large_heavy_domain: false,
    }
}

#[test]
fn an_ecape_batch_is_computed_on_its_domain() {
    let (surface, pressure) = wide_pair();
    let maps = run_ecape_batch(
        &ecape_request(),
        "rrfs-a",
        23,
        "source: aws",
        &surface,
        &pressure,
        100,
        &project_west,
        &height_rules(),
        &run_ecape,
        &ratio,
    )
    .ok()
    .expect("all kernels answer");
    assert_eq!(maps.stage.stats.crop_kind, HeavyCropKind::Crop);
    assert_eq!(maps.stage.stats.full_cells, 8);
    assert_eq!(maps.stage.stats.cropped_cells, 3);
    assert_eq!(maps.stage.projected, 3);
    assert_eq!(maps.failure_count, 7);
    assert_eq!(maps.fields.len(), 13);
    assert_eq!(maps.fields[0].values, vec![100.0; 3]);
    assert_eq!(maps.maps.len(), 13);
    assert_eq!(
        maps.maps[0].file_name,
        "rustwx_rrfs_a_20260414_23z_f006_west_ecape_sbecape.png"
    );
    assert_eq!(maps.maps[0].subtitle_right, "source: aws");
    assert_eq!(maps.maps[3].subtitle_right, "source: aws | EXP | derived");

    let ratios = run_ecape_ratio_display_batch(
        &ecape_request(),
        "rrfs-a",
        23,
        "source: aws",
        &surface,
        &pressure,
        100,
        &project_west,
        &height_rules(),
        &run_ecape,
        &ratio,
    )
    .ok()
    .expect("every parcel has its fields");
    assert_eq!(ratios.maps.len(), 6);
    assert_eq!(ratios.maps[0].plot.title, "SB ECAPE/CAPE Ratio + Contours");
}

/// A severe kernel whose answer tells what it was handed.
fn severe(call: SevereCall<'_, f64, ()>) -> Result<Vec<WeatherPanelField<f64>>, String> {
    if call.surface.t2_k[0] < 0.0 {
        return Err("no severe fields".to_string());
    }
    Ok(vec![WeatherPanelField {
        product: WeatherProduct::Sbecape,
        units: "J/kg".to_string(),
        values: first(&call.prepared.height_agl_3d, call.surface.nx),
        title_override: None,
        artifact_slug: None,
    }])
}

#[test]
fn both_heavy_families_come_of_one_domain() {
    let (mut surface, pressure) = wide_pair();
    let hour = |surface: &SurfaceFields<f64, ()>, limit| {
        run_heavy_panel_hour(
            &ecape_request(),
            "rrfs-a",
            23,
            "source: aws",
            surface,
            &pressure,
            limit,
            &project_west,
            &height_rules(),
            &run_ecape,
            &severe,
            &ratio,
        )
    };
    let shown = hour(&surface, 100).ok().expect("all kernels answer");
    assert_eq!(shown.fields.stage.projected, 3);
    assert_eq!(shown.fields.failure_count, 7);
    assert_eq!(shown.fields.ecape.len(), 13);
    assert_eq!(shown.ecape_maps.len(), 13);
    assert_eq!(shown.fields.severe[0].values, vec![1400.0; 3]);
    assert_eq!(
        shown.severe_maps[0].file_name,
        "rustwx_rrfs_a_20260414_23z_f006_west_severe_sbecape.png"
    );
    assert!(hour(&surface, 2).is_err());
    surface.t2_k = vec![-1.0; 8];
    assert_eq!(hour(&surface, 100).err(), Some("no severe fields".to_string()));
}

fn hrrr_request(products: usize) -> HrrrBatchRequest<u8> {
    HrrrBatchRequest {
        date_yyyymmdd: "20260414".to_string(),
        cycle_override_utc: None,
        forecast_hour: 6,
        source: SourceId::Aws,
        domain: DomainSpec {
            slug: "west".to_string(),
            bounds: 4,
        },
        use_cache: false,
        products: vec![HrrrBatchProduct::SevereProofPanel; products],
        allow_large_heavy_domain: false,
    }
}

fn hrrr_bundle(product: &str) -> LoadedBundle {
    LoadedBundle {
        planned_product: Some(product.to_string()),
        fetched: Some(BundleFetch {
            fetch_ms: 5,
            cache_hit: true,
            fetched_product: product.to_string(),
            source_override: None,
            resolved_source: SourceId::Aws,
            resolved_url: "url".to_string(),
        }),
        decode_cache_hit: Some(false),
    }
}

fn project_layouts_west(
    surface: &SurfaceFields<f64, ()>,
    layouts: &Vec<WeatherPanelLayout>,
) -> Result<HeavyProjection<usize>, String> {
    assert!(layouts.len() <= 1);
    project_west(surface)
}

fn project_layout(
    surface: &SurfaceFields<f64, ()>,
    layout: WeatherPanelLayout,
) -> Result<(usize, u32), String> {
    if surface.t2_k[0] > 400.0 {
        return Err("no map".to_string());
    }
    Ok((surface.nx, layout.top_padding))
}

fn draw_panel(drawing: HrrrDrawing<'_, f64, (), (usize, u32)>) -> Result<HrrrDrawn<u8>, String> {
    if drawing.surface.q2_kgkg[0] < 0.0 {
        return Err("disk full".to_string());
    }
    assert_eq!(*drawing.map, (3, 86));
    assert_eq!(drawing.panel.layout.top_padding, 86);
    assert_eq!(drawing.panel.fields[0].values, vec![1400.0; 3]);
    assert!(drawing.panel.header.title.starts_with("HRRR Severe Proof Panel"));
    Ok(HrrrDrawn {
        output_path: format!("out/{}", drawing.panel.file_name),
        timing: HrrrProductTiming {
            project_ms: 1,
            compute_ms: 2,
            render_ms: 3,
            total_ms: 6,
        },
        content_identity: 9,
    })
}

fn draw_batch(
    products: usize,
    surface: &SurfaceFields<f64, ()>,
    limit: usize,
    bundle: LoadedBundle,
) -> Result<HrrrBatch<u8>, String> {
    let (_, pressure) = wide_pair();
    run_hrrr_batch_from_loaded(
        &hrrr_request(products),
        23,
        Some((surface, &pressure)),
        (hrrr_bundle("sfc"), bundle),
        &["key".to_string()],
        WeatherPanelLayout {
            panel_width: 800,
            panel_height: 500,
            top_padding: 40,
        },
        limit,
        Some("4"),
        Some(8),
        &project_layouts_west,
        &PanelRules {
            project: &project_layout,
            severe: &severe,
            draw: &draw_panel,
        },
        &height_rules(),
    )
}

#[test]
fn a_hrrr_batch_is_drawn_from_what_was_loaded() {
    let (surface, _) = wide_pair();
    let batch = draw_batch(2, &surface, 100, hrrr_bundle("prs")).ok().expect("all is loaded");
    assert_eq!(batch.products.len(), 1);
    assert_eq!(batch.shared_timing.fetch_pressure_ms, 5);
    assert_eq!(batch.shared_timing.pressure_fetch.planned_product, "prs");
    let report = hrrr_batch_report(&hrrr_request(2), 23, SourceId::Nomads, vec![1u8], batch, 77);
    assert_eq!(
        report.products[0].output_path,
        "out/rustwx_hrrr_20260414_23z_f06_west_severe_proof_panel.png"
    );
    assert_eq!(report.products[0].input_fetch_keys, vec!["key".to_string()]);
    assert_eq!(report.products[0].content_identity, Some(9));
    assert_eq!(report.source, SourceId::Nomads);
    assert_eq!((report.domain.slug.as_str(), report.domain.bounds), ("west", 4));
    assert_eq!(report.total_ms, 77);
    let none = draw_batch(0, &surface, 100, hrrr_bundle("prs")).ok().expect("nothing is drawn");
    assert!(none.products.is_empty());
}

#[test]
fn a_hrrr_batch_ends_with_the_first_failure() {
    let (mut surface, _) = wide_pair();
    assert!(draw_batch(1, &surface, 2, hrrr_bundle("prs"))
        .err()
        .expect("three cells are too many")
        .starts_with("Refusing heavy"));
    let unplanned = LoadedBundle {
        planned_product: None,
        ..hrrr_bundle("prs")
    };
    assert_eq!(
        draw_batch(1, &surface, 100, unplanned).err(),
        Some("loaded bundle set missing pressure analysis for HRRR shared timing".to_string())
    );
    surface.q2_kgkg = vec![-1.0; 8];
    assert_eq!(
        draw_batch(1, &surface, 100, hrrr_bundle("prs")).err(),
        Some("render worker failed: disk full".to_string())
    );
    surface.t2_k = vec![-1.0; 8];
    assert_eq!(
        draw_batch(1, &surface, 100, hrrr_bundle("prs")).err(),
        Some("no severe fields".to_string())
    );
    surface.t2_k = vec![500.0; 8];
    assert_eq!(
        draw_batch(1, &surface, 100, hrrr_bundle("prs")).err(),
        Some("no map".to_string())
    );
    let missed: Result<HrrrBatch<u8>, String> = run_hrrr_batch_from_loaded(
        &hrrr_request(1),
        23,
        None,
        (hrrr_bundle("sfc"), hrrr_bundle("prs")),
        &[],
        WeatherPanelLayout {
            panel_width: 800,
            panel_height: 500,
            top_padding: 40,
        },
        100,
        None,
        None,
        &project_layouts_west,
        &PanelRules {
            project: &project_layout,
            severe: &severe,
            draw: &draw_panel,
        },
        &height_rules(),
    );
    assert_eq!(
        missed.err(),
        Some("HRRR batch planner missed surface or pressure bundle".to_string())
    );
}

#[test]
fn a_heavy_domain_is_refused_before_it_is_computed() {
    let (surface, pressure) = wide_pair();
    let request = ecape_request();
    let stage = |limit, project: fn(&SurfaceFields<f64, ()>) -> _| {
        stage_heavy_domain(&surface, &pressure, &request.domain, false, limit, &project)
            .err()
    };
    assert_eq!(
        stage(100, project_nothing),
        Some("requested projected crop produced an empty heavy-compute domain".to_string())
    );
    assert_eq!(stage(100, fail_on_crop), Some("no extent".to_string()));
    assert!(stage(2, project_west)
        .expect("three cells are too many")
        .starts_with("Refusing heavy ECAPE/severe compute on 3 cells"));
    assert_eq!(stage(3, project_west), None);
}

fn shared_timing() -> SharedTiming<&'static str> {
    let info = |bundle| {
        runtime_info(bundle, "family", "native", "fetched", None, SourceId::Aws, "url")
    };
    SharedTiming {
        fetch_surface_ms: 1,
        fetch_pressure_ms: 2,
        decode_surface_ms: 3,
        decode_pressure_ms: 4,
        fetch_surface_cache_hit: false,
        fetch_pressure_cache_hit: false,
        decode_surface_cache_hit: false,
        decode_pressure_cache_hit: false,
        surface_fetch: info(CanonicalBundleDescriptor::SurfaceAnalysis),
        pressure_fetch: info(CanonicalBundleDescriptor::PressureAnalysis),
    }
}

fn heavy_measurement() -> HeavyMeasurement {
    HeavyMeasurement {
        crop_ms: 1,
        prepared: PreparedHeavyVolumeTiming {
            prepare_height_agl_ms: 2,
            broadcast_pressure_ms: 3,
            pressure_3d_bytes: 0,
        },
        ecape_triplet_ms: 4,
        severe_fields_ms: 5,
        project_ms: 6,
        compute_ms: 7,
        render_ms: 8,
        total_ms: 9,
    }
}

fn artifact(product: &str) -> HeavyRenderedArtifact<u8> {
    HeavyRenderedArtifact {
        product: product.to_string(),
        title: product.to_string(),
        output_path: "out".to_string(),
        output_identity: 1,
    }
}

#[test]
fn cache_hits_are_added_to_a_timing() {
    let timing = shared_timing().with_cache_flags(CacheFlags {
        fetch_surface: true,
        fetch_pressure: false,
        decode_surface: false,
        decode_pressure: true,
    });
    assert!(timing.fetch_surface_cache_hit && timing.decode_pressure_cache_hit);
    assert!(!timing.fetch_pressure_cache_hit && !timing.decode_surface_cache_hit);
    assert_eq!(timing.decode_pressure_ms, 4);
}

#[test]
fn heavy_batches_are_reported() {
    let (surface, pressure) = wide_pair();
    let request = ecape_request();
    let stage = stage_heavy_domain(
        &surface,
        &pressure,
        &request.domain,
        false,
        100,
        &project_west,
    )
    .ok()
    .unwrap();
    let stats = stage.stats;
    let selection = HeavyDomainSelection {
        cropped: stage.cropped,
        stats,
        crop_ms: 1,
    };
    let (cut, levels) = selection.bind(&surface, &pressure);
    assert_eq!(cut.nx, 3);
    assert_eq!(levels.gh_m_3d.len(), 6);
    let report = ecape_batch_report(
        ecape_request(),
        23,
        SourceId::Aws,
        stats,
        vec![artifact("sbecape")],
        vec!["fetch"],
        shared_timing(),
        heavy_measurement(),
        7,
    );
    assert_eq!(report.cycle_utc, 23);
    assert_eq!(report.heavy_timing.cropped_cells, 3);
    assert_eq!(report.heavy_timing.ecape_triplet_ms, 4);
    assert_eq!(report.failure_count, 7);
    let hour = heavy_panel_hour_report(
        ecape_request(),
        23,
        SourceId::Aws,
        stats,
        vec![artifact("sbecape")],
        vec![artifact("stp_fixed")],
        vec!["fetch"],
        shared_timing(),
        heavy_measurement(),
        10,
        20,
        7,
    );
    assert_eq!(hour.ecape.failure_count, Some(7));
    assert_eq!(hour.severe.failure_count, None);
    assert_eq!(hour.severe.outputs[0].product, "stp_fixed");
    assert_eq!(hour.heavy_timing.render_ms, 30);
}
