//! Decoding of surface and pressure files from their messages.
use rustwx_products::gridded::collect::{
    decode_pressure_file_with_shape_opts, pressure_grid_shape_from_messages,
};
use rustwx_products::gridded::crop::{crop_3d_values, GridCrop};
use rustwx_products::gridded::cropped_decode::decode_pressure_cropped_with_shape;
use rustwx_products::gridded::decode::decode_required_volumes;
use rustwx_products::gridded::domain::{
    validate_pressure_decode_against_surface, validate_store_thermo_pair,
};
use rustwx_products::gridded::fetch::{
    cropped_decode_cache_file_name, decode_cache_file_name, plan_thermo_fetch, ThermoFetchPlan,
};
use rustwx_products::gridded::fields::{
    crop_pressure_fields, should_store_decode, PressureFields, SurfaceFields,
};
use rustwx_products::gridded::heavy_volume::{
    broadcast_levels_pa, prepare_heavy_volume, prepared_timing, proxy_orography_from_pressure,
    HeightRules,
};
use rustwx_products::gridded::records::{GribRecord, LevelTable};
use rustwx_products::gridded::rows::{
    first_longitude_wrap, normalize_longitude_rows, rotate_value_rows_left,
};
use rustwx_products::gridded::runtime::{
    decode_step, resolve_model_run, resolve_thermo_pair_run, runtime_info, sizes_to_project,
    DecodeStep, RunLookup,
};
use rustwx_products::gridded::surface::{
    plan_surface_decode, MoistureSource, OrographySource, SurfaceLevels,
};
use rustwx_products::gridded::volumes::{DecodeError, HeightBranch, MoistureBranch};
use rustwx_products::gridded::wrap_cache::{
    grid_definitions_identical, keep_required_records, row_wrap_sample, GridDefinition,
    RowWrapCache,
};
use rustwx_products::model::{CanonicalBundleDescriptor, ModelId, SourceId};

/// A table of levels, each of which counts as itself only.
fn table(count: usize) -> LevelTable {
    LevelTable {
        rank: (0..count).collect(),
        near: (0..count)
            .map(|a| (0..count).map(|b| a == b).collect())
            .collect(),
    }
}

fn record(category: u8, number: u8, level_type: u8, level: usize) -> GribRecord {
    GribRecord {
        discipline: 0,
        category,
        number,
        level_type,
        level,
        nx: 2,
        ny: 1,
    }
}

/// Temperature, winds, height and specific humidity on two levels.
fn pressure_messages() -> Vec<GribRecord> {
    let mut messages = Vec::new();
    for (category, number) in [(0, 0), (2, 2), (2, 3), (3, 5), (1, 0)] {
        for level in 0..2 {
            messages.push(record(category, number, 100, level));
        }
    }
    messages
}

fn planes(count: usize) -> Vec<Result<Vec<i32>, String>> {
    (0..count)
        .map(|m| Ok(vec![10 * m as i32, 10 * m as i32 + 1]))
        .collect()
}

fn message(error: DecodeError) -> String {
    match error {
        DecodeError::Message(message) => message,
        DecodeError::MissingTemperatureLevel(level) => format!("no temperature at {level}"),
    }
}

#[test]
fn required_volumes_stack_the_common_levels() {
    let messages = pressure_messages();
    let decoded = decode_required_volumes(&messages, &table(2), &planes(10), 2, 1)
        .map_err(message)
        .unwrap();
    assert_eq!(decoded.levels.len(), 2);
    let first = decoded.levels[0] as i32;
    let second = decoded.levels[1] as i32;
    let stacked = |field: i32| {
        vec![
            10 * (2 * field + first),
            10 * (2 * field + first) + 1,
            10 * (2 * field + second),
            10 * (2 * field + second) + 1,
        ]
    };
    assert_eq!(decoded.temperature_k_3d, stacked(0));
    assert_eq!(decoded.u_ms_3d, stacked(1));
    assert_eq!(decoded.v_ms_3d, stacked(2));
    assert_eq!(decoded.height_3d, stacked(3));
    assert_eq!(decoded.moisture_3d, stacked(4));
    assert_eq!(decoded.height_branch, HeightBranch::Height);
    assert_eq!(decoded.moisture_branch, MoistureBranch::SpecificHumidity);
}

#[test]
fn geopotential_and_relative_humidity_stand_in() {
    let mut messages = pressure_messages();
    for at in 6..8 {
        messages[at].number = 4;
    }
    for at in 8..10 {
        messages[at].number = 1;
    }
    let decoded = decode_required_volumes(&messages, &table(2), &planes(10), 2, 1)
        .map_err(message)
        .unwrap();
    assert_eq!(decoded.height_branch, HeightBranch::Geopotential);
    assert_eq!(decoded.moisture_branch, MoistureBranch::RelativeHumidity);
    assert_eq!(decoded.moisture_temperature_k_3d, decoded.temperature_k_3d);
}

#[test]
fn a_field_that_is_missing_is_named() {
    let messages: Vec<GribRecord> = pressure_messages()
        .into_iter()
        .filter(|record| record.category != 3)
        .collect();
    let error = decode_required_volumes(&messages, &table(2), &planes(8), 2, 1).err();
    assert_eq!(
        error.map(message),
        Some("missing pressure-level height/geopotential field".to_string())
    );
    let messages: Vec<GribRecord> = pressure_messages()
        .into_iter()
        .filter(|record| record.category != 1)
        .collect();
    let error = decode_required_volumes(&messages, &table(2), &planes(8), 2, 1).err();
    assert_eq!(
        error.map(message),
        Some(
            "missing pressure-level specific humidity/dewpoint/RH field for thermodynamics"
                .to_string()
        )
    );
    assert!(decode_required_volumes(&[], &table(2), &planes(0), 2, 1).is_err());
}

#[test]
fn a_whole_file_gives_what_its_parts_give() {
    let mut messages = pressure_messages();
    for level in 0..2 {
        messages.push(record(2, 8, 100, level));
    }
    let with = decode_pressure_file_with_shape_opts(&messages, &table(2), &planes(12), true)
        .map_err(message)
        .unwrap();
    assert_eq!((with.nx, with.ny), (2, 1));
    assert!(with.optional.omega_pa_s_3d.is_some());
    let without = decode_pressure_file_with_shape_opts(&messages, &table(2), &planes(12), false)
        .map_err(message)
        .unwrap();
    assert!(without.optional.omega_pa_s_3d.is_none());
    assert_eq!(with.required.temperature_k_3d, without.required.temperature_k_3d);
}

#[test]
fn shapes_must_agree() {
    assert_eq!(pressure_grid_shape_from_messages(&pressure_messages()), Ok((2, 1)));
    assert_eq!(
        pressure_grid_shape_from_messages(&[record(0, 0, 1, 0)]),
        Err("pressure family had no isobaric GRIB messages".to_string())
    );
    let mut messages = pressure_messages();
    messages[3].nx = 3;
    assert_eq!(
        pressure_grid_shape_from_messages(&messages),
        Err("pressure family contained inconsistent grid shapes".to_string())
    );
}

#[test]
fn cropped_planes_decode_to_the_cropped_size() {
    let crop = GridCrop {
        x_start: 0,
        x_end: 2,
        y_start: 0,
        y_end: 1,
    };
    let decoded =
        decode_pressure_cropped_with_shape(&pressure_messages(), &table(2), &planes(10), crop, false)
            .map_err(message)
            .unwrap();
    assert_eq!((decoded.nx, decoded.ny), (2, 1));
    let narrow = GridCrop { x_end: 1, ..crop };
    let error = decode_pressure_cropped_with_shape(
        &pressure_messages(),
        &table(2),
        &planes(10),
        narrow,
        false,
    )
    .err();
    assert_eq!(
        error.map(message),
        Some("decoded cropped pressure field had unexpected grid size".to_string())
    );
}

#[test]
fn a_cropped_decode_is_the_crop_of_the_decode() {
    let messages: Vec<GribRecord> = pressure_messages()
        .into_iter()
        .map(|message| GribRecord { nx: 3, ny: 2, ..message })
        .collect();
    let whole: Vec<Result<Vec<i32>, String>> = (0..10)
        .map(|m| Ok((0..6).map(|cell| 100 * m + cell).collect()))
        .collect();
    let crop = GridCrop {
        x_start: 1,
        x_end: 3,
        y_start: 1,
        y_end: 2,
    };
    let cut: Vec<Result<Vec<i32>, String>> = whole
        .iter()
        .map(|plane| Ok(crop_3d_values(plane.as_ref().unwrap(), 3, 2, 1, crop)))
        .collect();
    let full = decode_pressure_file_with_shape_opts(&messages, &table(2), &whole, false)
        .map_err(message)
        .unwrap();
    let part = decode_pressure_cropped_with_shape(&messages, &table(2), &cut, crop, false)
        .map_err(message)
        .unwrap();
    assert_eq!((full.nx, full.ny), (3, 2));
    assert_eq!((part.nx, part.ny), (2, 1));
    assert_eq!(part.required.levels, full.required.levels);
    assert_eq!(
        part.required.temperature_k_3d,
        crop_3d_values(&full.required.temperature_k_3d, 3, 2, 2, crop)
    );
    assert_eq!(
        part.required.moisture_3d,
        crop_3d_values(&full.required.moisture_3d, 3, 2, 2, crop)
    );
}

#[test]
fn a_surface_file_is_planned_from_its_messages() {
    // levels: the surface, two and ten metres, a mixed layer, the most unstable one
    let levels = SurfaceLevels {
        surface: 0,
        two_metres: 1,
        ten_metres: 2,
        mixed_layer: 3,
        most_unstable: 4,
    };
    let messages = vec![
        record(3, 0, 1, 0),
        record(3, 5, 1, 0),
        record(0, 0, 103, 1),
        record(1, 0, 103, 1),
        record(2, 2, 103, 2),
        record(2, 3, 103, 2),
        record(7, 6, 1, 0),
    ];
    let plan = plan_surface_decode(&messages, &table(5), &planes(7), levels).unwrap();
    assert_eq!(plan.psfc, 0);
    assert_eq!(plan.orography, OrographySource::Height(1));
    assert_eq!(plan.t2, 2);
    assert_eq!(plan.moisture, MoistureSource::SpecificHumidity(3));
    assert_eq!((plan.u10, plan.v10), (4, 5));
    assert_eq!(plan.native_cape.surface_based, Some(6));
    assert_eq!(plan.native_cape.mixed_layer, None);
    assert_eq!(plan.native_pblh, None);
    let none: Vec<Result<Vec<i32>, String>> = Vec::new();
    assert_eq!(
        plan_surface_decode(&[], &table(5), &none, levels),
        Err("surface family GRIB had no messages".to_string())
    );
    assert_eq!(
        plan_surface_decode(&messages[1..], &table(5), &planes(6), levels),
        Err("missing GRIB message for requested candidates".to_string())
    );
}

fn surface(nx: usize, ny: usize) -> SurfaceFields<f64, u8> {
    let plane: Vec<f64> = (0..nx * ny).map(|value| value as f64).collect();
    SurfaceFields {
        lat: plane.clone(),
        lon: plane.clone(),
        nx,
        ny,
        projection: None,
        psfc_pa: plane.clone(),
        orog_m: plane.clone(),
        orog_is_proxy: false,
        t2_k: plane.clone(),
        q2_kgkg: plane.clone(),
        u10_ms: plane.clone(),
        v10_ms: plane,
        native_sbcape_jkg: None,
        native_mlcape_jkg: None,
        native_mucape_jkg: None,
        native_pblh_m: None,
    }
}

fn pressure(levels: usize, len: usize) -> PressureFields<f64> {
    let volume: Vec<f64> = (0..len).map(|value| 100.0 + value as f64).collect();
    PressureFields {
        pressure_levels_hpa: (0..levels).map(|level| 1000.0 - 100.0 * level as f64).collect(),
        pressure_3d_pa: None,
        temperature_c_3d: volume.clone(),
        qvapor_kgkg_3d: volume.clone(),
        u_ms_3d: volume.clone(),
        v_ms_3d: volume.clone(),
        gh_m_3d: volume,
        omega_pa_s_3d: None,
        absolute_vorticity_s_3d: None,
        cloud_liquid_kgkg_3d: None,
        cloud_ice_kgkg_3d: None,
        rain_kgkg_3d: None,
        snow_kgkg_3d: None,
        graupel_kgkg_3d: None,
    }
}

#[test]
fn pairs_must_match_their_grid() {
    assert!(validate_store_thermo_pair(&surface(2, 2), &pressure(2, 8), 2, 2).is_ok());
    assert!(validate_store_thermo_pair(&surface(2, 2), &pressure(2, 7), 2, 2).is_err());
    assert!(validate_store_thermo_pair(&surface(2, 1), &pressure(2, 8), 2, 2).is_err());
    let checked = validate_pressure_decode_against_surface(&pressure(2, 8), Some((2, 3)), 2, 2);
    assert_eq!(
        checked,
        Err("pressure decode shape 2x3 did not match surface shape 2x2".to_string())
    );
    assert!(validate_pressure_decode_against_surface(&pressure(2, 8), Some((2, 2)), 2, 2).is_ok());
}

#[test]
fn each_level_is_cut_alike() {
    let values: Vec<u8> = (0..12).collect();
    let crop = GridCrop {
        x_start: 1,
        x_end: 3,
        y_start: 0,
        y_end: 1,
    };
    assert_eq!(crop_3d_values(&values, 3, 2, 2, crop), vec![1, 2, 7, 8]);
    let cut = crop_pressure_fields(&pressure(2, 12), 3, 2, crop).ok().unwrap();
    assert_eq!(cut.gh_m_3d, vec![101.0, 102.0, 107.0, 108.0]);
    assert_eq!(cut.pressure_levels_hpa, vec![1000.0, 900.0]);
    assert!(crop_pressure_fields(&pressure(2, 11), 3, 2, crop).is_err());
}

#[test]
fn heights_are_taken_above_the_ground() {
    let rules = HeightRules {
        above: |height: f64, ground: f64| height - ground,
        raise: |height: f64, below: f64| height.max(below),
        lower: |a: f64, b: f64| a.min(b),
        settle: |height: f64| height.max(0.0),
        to_pa: |level: f64| level * 100.0,
        highest: f64::INFINITY,
    };
    let prepared = prepare_heavy_volume(&surface(2, 1), &pressure(2, 4), true, &rules);
    assert_eq!((prepared.nx, prepared.ny, prepared.nz), (2, 1, 2));
    assert_eq!(prepared.height_agl_3d[0], 100.0);
    assert_eq!(prepared.height_agl_3d[1], 100.0);
    assert_eq!(prepared.pressure_3d_pa, Some(vec![100000.0, 100000.0, 90000.0, 90000.0]));
    assert_eq!(prepared.pressure_input(), &vec![100000.0, 100000.0, 90000.0, 90000.0]);
    let timing = prepared_timing(&prepared, true, 3, 4);
    assert_eq!(timing.pressure_3d_bytes, 32);
    assert_eq!(
        broadcast_levels_pa(&[1000.0, 500.0], 2, &|level: f64| level * 100.0),
        vec![100000.0, 100000.0, 50000.0, 50000.0]
    );
    assert_eq!(
        proxy_orography_from_pressure(
            &[5.0, -3.0, 2.0, 4.0],
            2,
            2,
            f64::INFINITY,
            &|a: f64, b: f64| a.min(b),
            &|height: f64| height.max(0.0),
        ),
        vec![2.0, 0.0]
    );
}

#[test]
fn rows_begin_where_the_longitude_falls() {
    assert_eq!(first_longitude_wrap(&[false, false, true, false]), Some(2));
    assert_eq!(first_longitude_wrap(&[false, false, false]), None);
    let mut values = vec![1, 2, 3, 4, 5, 6];
    rotate_value_rows_left(&mut values, 3, &[1, 0]);
    assert_eq!(values, vec![2, 3, 1, 4, 5, 6]);
    let mut lat = vec![0, 0, 0];
    let mut lon = vec![170, 180, -170];
    let wraps = normalize_longitude_rows(&mut lat, &mut lon, &[false, false, true], 3, 1);
    assert_eq!(wraps, vec![2]);
    assert_eq!(lon, vec![-170, 170, 180]);
}

fn definition(nx: u32) -> GridDefinition {
    GridDefinition {
        template: 30,
        nx,
        ny: 1,
        lat1: 0,
        lon1: 0,
        lat2: 0,
        lon2: 0,
        dx: 0,
        dy: 0,
        latin1: 0,
        latin2: 0,
        lov: 0,
        scan_mode: 0,
        lad: 0,
        projection_center_flag: 0,
        n_parallel: 0,
        south_pole_lat: 0,
        south_pole_lon: 0,
        rotation_angle: 0,
        satellite_lat: 0,
        satellite_lon: 0,
        xp: 0,
        yp: 0,
        altitude: 0,
        pl: Vec::new(),
        is_reduced: false,
        num_data_points: 3,
        shape_of_earth: 6,
        resolution_flags: 0,
    }
}

#[test]
fn wraps_are_kept_for_one_grid() {
    let mut cache = RowWrapCache::new();
    assert!(cache.get(&definition(3)).is_none());
    cache.prime(definition(3), &|grid: &GridDefinition| vec![grid.nx as usize]);
    assert_eq!(cache.get(&definition(3)), Some(&vec![3]));
    assert!(cache.get(&definition(4)).is_none());
    assert!(grid_definitions_identical(&definition(3), &definition(3)));
    assert!(!grid_definitions_identical(&definition(3), &definition(4)));
    assert!(keep_required_records(&pressure_messages()).iter().all(|kept| *kept));
    assert!(row_wrap_sample(&[]).is_err());
}

#[test]
fn one_file_is_fetched_once() {
    match plan_thermo_fetch(ModelId::Gfs, "pgrb2.0p25", "pgrb2.0p25", true) {
        ThermoFetchPlan::Shared { patterns } => assert!(!patterns.is_empty()),
        ThermoFetchPlan::Split { .. } => panic!("both analyses are in one file"),
    }
    match plan_thermo_fetch(ModelId::Hrrr, "sfc", "prs", false) {
        ThermoFetchPlan::Split {
            surface_patterns,
            pressure_patterns,
        } => {
            assert!(!surface_patterns.is_empty());
            assert_eq!(pressure_patterns, vec!["HGT", "TMP", "SPFH", "UGRD", "VGRD"]);
        }
        ThermoFetchPlan::Shared { .. } => panic!("the analyses are in two files"),
    }
}

#[test]
fn cache_files_are_named_by_what_they_hold() {
    assert_ne!(decode_cache_file_name("surface"), decode_cache_file_name("pressure_core"));
    assert!(decode_cache_file_name("surface").contains("surface"));
    let crop = GridCrop {
        x_start: 1,
        x_end: 23,
        y_start: 4,
        y_end: 56,
    };
    let name = cropped_decode_cache_file_name("pressure_core", crop);
    assert!(name.contains("pressure_core"));
    assert_ne!(
        name,
        cropped_decode_cache_file_name("pressure_core", GridCrop { x_end: 24, ..crop })
    );
    assert!(!should_store_decode(false, 1));
    assert!(should_store_decode(true, 1));
    assert!(!should_store_decode(true, usize::MAX));
}

#[test]
fn runs_and_sources_are_resolved() {
    assert!(matches!(resolve_model_run(Some(6)), RunLookup::Pinned { hour_utc: 6 }));
    assert!(matches!(resolve_model_run(None), RunLookup::LatestAtForecastHour));
    match resolve_thermo_pair_run(None, "sfc", "prs") {
        RunLookup::LatestForProducts { products } => {
            assert!(products.contains(&"sfc".to_string()));
            assert!(products.contains(&"prs".to_string()));
        }
        _ => panic!("the latest run with both products is asked for"),
    }
    let info = runtime_info(
        CanonicalBundleDescriptor::SurfaceAnalysis,
        "surface",
        "sfc",
        "sfc",
        None,
        SourceId::Aws,
        "https://example.test/file",
    );
    assert_eq!(info.requested_source, SourceId::Aws);
    match decode_step(true, Some(7u8), "/cache/file") {
        DecodeStep::Cached(cached) => {
            assert_eq!(cached.value, 7);
            assert!(cached.cache_hit);
        }
        DecodeStep::Decode => panic!("the decode was cached"),
    }
    assert!(matches!(decode_step(true, None::<u8>, "/cache/file"), DecodeStep::Decode));
    assert_eq!(
        sizes_to_project(&[(10, 5), (20, 5), (10, 5)]),
        vec![(10, 5), (20, 5)]
    );
}
