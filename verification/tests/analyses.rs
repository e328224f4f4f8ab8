//! Surface and pressure analyses from unpacked messages, and measures of their grid.
use rustwx_products::direct::mesh::{rectilinear_latlon_mesh_for_inverse, MeshRules};
use rustwx_products::gridded::crop::GridCrop;
use rustwx_products::gridded::pressure_fields::{
    decode_pressure_crop, decode_pressure_with_shape_opts, PressureRules,
};
use rustwx_products::gridded::records::{GribRecord, LevelTable};
use rustwx_products::gridded::spacing::{
    estimate_geographic_grid_spacing_deg, estimate_grid_spacing_m, ClosenessRules, SpacingRules,
};
use rustwx_products::gridded::surface::SurfaceLevels;
use rustwx_products::gridded::surface_decode::{
    decode_native_cape_planes, decode_surface, decode_surface_cropped, SurfaceGridLayout,
    SurfaceRules,
};
use rustwx_products::gridded::thermo_pair::{
    decode_store_thermo_pair, decode_store_thermo_pair_owned, OwnedFile, UnpackedFile,
};
use rustwx_products::gridded::volumes::DecodeError;

type Unary = fn(f64) -> f64;
type Binary = fn(f64, f64) -> f64;
type Ternary = fn(f64, f64, f64) -> f64;

/// A table of levels, each of which counts as itself only.
fn table(count: usize) -> LevelTable {
    LevelTable {
        rank: (0..count).collect(),
        near: (0..count)
            .map(|a| (0..count).map(|b| a == b).collect())
            .collect(),
    }
}

fn record(category: u8, number: u8, level_type: u8, level: usize) -> GribRecord {
    GribRecord {
        discipline: 0,
        category,
        number,
        level_type,
        level,
        nx: 2,
        ny: 1,
    }
}

fn levels() -> SurfaceLevels {
    SurfaceLevels {
        surface: 0,
        two_metres: 1,
        ten_metres: 2,
        mixed_layer: 3,
        most_unstable: 4,
    }
}

/// Pressure, temperature, one kind of moisture, winds and a mixed-layer CAPE.
fn surface_messages(moisture: (u8, u8)) -> Vec<GribRecord> {
    vec![
        record(3, 0, 1, 0),
        record(0, 0, 103, 1),
        record(moisture.0, moisture.1, 103, 1),
        record(2, 2, 103, 2),
        record(2, 3, 103, 2),
        record(7, 6, 108, 3),
    ]
}

fn planes(count: usize) -> Vec<Result<Vec<f64>, String>> {
    (0..count)
        .map(|m| Ok(vec![10.0 * m as f64, 10.0 * m as f64 + 1.0]))
        .collect()
}

fn layout() -> SurfaceGridLayout<f64, u8> {
    SurfaceGridLayout {
        lat: vec![30.0, 31.0],
        lon: vec![-100.0, -99.0],
        nx: 2,
        ny: 1,
        projection: Some(7),
    }
}

fn surface_rules() -> SurfaceRules<f64, Unary, Unary, Binary, Ternary> {
    SurfaceRules {
        to_height: |value| value / 2.0,
        from_specific_humidity: |value| value + 0.5,
        from_dewpoint: |psfc, td| psfc * 100.0 + td,
        from_relative_humidity: |psfc, t2, rh| psfc * 10_000.0 + t2 * 100.0 + rh,
        ground: 0.0,
    }
}

#[test]
fn a_surface_analysis_is_decoded() {
    let decode = |moisture| {
        decode_surface(
            &surface_messages(moisture),
            &table(5),
            &planes(6),
            levels(),
            layout(),
            &surface_rules(),
        )
        .expect("all fields are there")
    };
    let fields = decode((1, 0));
    assert_eq!(fields.psfc_pa, vec![0.0, 1.0]);
    assert!(fields.orog_is_proxy);
    assert_eq!(fields.orog_m, vec![0.0, 0.0]);
    assert_eq!(fields.t2_k, vec![10.0, 11.0]);
    assert_eq!(fields.q2_kgkg, vec![20.5, 21.5]);
    assert_eq!(fields.u10_ms, vec![30.0, 31.0]);
    assert_eq!(fields.v10_ms, vec![40.0, 41.0]);
    assert_eq!(fields.native_sbcape_jkg, None);
    assert_eq!(fields.native_mlcape_jkg, Some(vec![50.0, 51.0]));
    assert_eq!(fields.projection, Some(7));

    assert_eq!(decode((0, 6)).q2_kgkg, vec![20.0, 121.0]);
    assert_eq!(decode((1, 1)).q2_kgkg, vec![1020.0, 11_121.0]);
}

#[test]
fn orography_comes_from_height_or_geopotential() {
    let mut messages = surface_messages((1, 0));
    messages.push(record(3, 4, 1, 0));
    let decode = |messages: &[GribRecord]| {
        decode_surface(
            messages,
            &table(5),
            &planes(messages.len()),
            levels(),
            layout(),
            &surface_rules(),
        )
        .expect("all fields are there")
    };
    let fields = decode(&messages);
    assert!(!fields.orog_is_proxy);
    assert_eq!(fields.orog_m, vec![30.0, 30.5]);
    messages.push(record(3, 5, 1, 0));
    assert_eq!(decode(&messages).orog_m, vec![70.0, 71.0]);
}

#[test]
fn a_surface_field_that_is_missing_fails_the_decode() {
    let messages = surface_messages((1, 0));
    let error = decode_surface(
        &messages[1..],
        &table(5),
        &planes(5),
        levels(),
        layout(),
        &surface_rules(),
    )
    .err();
    assert_eq!(
        error,
        Some("missing GRIB message for requested candidates".to_string())
    );
    let mut broken = planes(6);
    broken[2] = Err("bad packing".to_string());
    let error =
        decode_surface(&messages, &table(5), &broken, levels(), layout(), &surface_rules()).err();
    assert_eq!(error, Some("bad packing".to_string()));
}

#[test]
fn a_cropped_surface_keeps_the_window_of_its_grid() {
    let whole = SurfaceGridLayout {
        lat: vec![30.0, 30.0, 30.0, 31.0, 31.0, 31.0],
        lon: vec![-100.0, -99.0, -98.0, -100.0, -99.0, -98.0],
        nx: 3,
        ny: 2,
        projection: Some(7u8),
    };
    let window = GridCrop { x_start: 1, x_end: 3, y_start: 1, y_end: 2 };
    let fields = decode_surface_cropped(
        &surface_messages((1, 0)),
        &table(5),
        &planes(6),
        levels(),
        whole,
        window,
        &surface_rules(),
    )
    .expect("all fields are there");
    assert_eq!((fields.nx, fields.ny), (2, 1));
    assert_eq!(fields.lat, vec![31.0, 31.0]);
    assert_eq!(fields.lon, vec![-99.0, -98.0]);
    assert_eq!(fields.orog_m.len(), 2);
}

#[test]
fn native_cape_planes_are_found_by_their_layer() {
    let (sb, ml, mu) =
        decode_native_cape_planes(&surface_messages((1, 0)), &table(5), &planes(6), levels())
            .expect("the plane was unpacked");
    assert_eq!((sb, ml, mu), (None, Some(vec![50.0, 51.0]), None));
}

/// Temperature, winds, height and one kind of moisture on two levels.
fn pressure_messages(height: u8, moisture: (u8, u8)) -> Vec<GribRecord> {
    let mut messages = Vec::new();
    for (category, number) in [(0, 0), (2, 2), (2, 3), (3, height), moisture] {
        for level in 0..2 {
            messages.push(record(category, number, 100, level));
        }
    }
    messages
}

type LevelHpa = fn(usize) -> f64;

fn pressure_rules() -> PressureRules<LevelHpa, Unary, Unary, Unary, Binary, Ternary> {
    PressureRules {
        level_hpa: |level| 1000.0 - 100.0 * level as f64,
        to_celsius: |kelvin| kelvin - 273.15,
        to_height: |value| value / 2.0,
        from_specific_humidity: |value| value + 0.5,
        from_dewpoint: |hpa, td| hpa * 1000.0 + td,
        from_relative_humidity: |hpa, t, rh| hpa * 1_000_000.0 + t * 1000.0 + rh,
    }
}

#[test]
fn a_pressure_analysis_is_decoded() {
    let (fields, nx, ny) = decode_pressure_with_shape_opts(
        &pressure_messages(5, (1, 0)),
        &table(2),
        &planes(10),
        true,
        &pressure_rules(),
    )
    .ok()
    .expect("all volumes are there");
    assert_eq!((nx, ny), (2, 1));
    assert_eq!(fields.temperature_c_3d.len(), 4);
    let first = if fields.pressure_levels_hpa[0] == 1000.0 { 0 } else { 1 };
    assert_eq!(fields.temperature_c_3d[0], 10.0 * first as f64 - 273.15);
    assert_eq!(fields.u_ms_3d[0], 20.0 + 10.0 * first as f64);
    assert_eq!(fields.gh_m_3d[0], 60.0 + 10.0 * first as f64);
    assert_eq!(fields.qvapor_kgkg_3d[1], 81.5 + 10.0 * first as f64);
    assert_eq!(fields.pressure_3d_pa, None);
    assert_eq!(fields.omega_pa_s_3d, None);
}

#[test]
fn moisture_is_converted_at_the_pressure_of_its_level() {
    let window = GridCrop { x_start: 0, x_end: 2, y_start: 0, y_end: 1 };
    let (dewpoint, _, _) = decode_pressure_crop(
        &pressure_messages(4, (0, 6)),
        &table(2),
        &planes(10),
        window,
        false,
        &pressure_rules(),
    )
    .ok()
    .expect("all volumes are there");
    for k in 0..2 {
        let hpa = dewpoint.pressure_levels_hpa[k];
        let level = ((1000.0 - hpa) / 100.0) as usize;
        let plane = 80.0 + 10.0 * level as f64;
        assert_eq!(dewpoint.qvapor_kgkg_3d[2 * k], hpa * 1000.0 + plane);
        assert_eq!(dewpoint.gh_m_3d[2 * k], (60.0 + 10.0 * level as f64) / 2.0);
    }
    let (humidity, _, _) = decode_pressure_with_shape_opts(
        &pressure_messages(5, (1, 1)),
        &table(2),
        &planes(10),
        false,
        &pressure_rules(),
    )
    .ok()
    .expect("all volumes are there");
    for k in 0..2 {
        let hpa = humidity.pressure_levels_hpa[k];
        let level = ((1000.0 - hpa) / 100.0) as usize;
        let (t, rh) = (10.0 * level as f64, 80.0 + 10.0 * level as f64);
        assert_eq!(
            humidity.qvapor_kgkg_3d[2 * k],
            hpa * 1_000_000.0 + t * 1000.0 + rh
        );
    }
}

#[test]
fn a_pair_of_analyses_is_on_one_grid() {
    let surface = surface_messages((1, 0));
    let mut pressure = pressure_messages(5, (1, 0));
    let surface_planes = planes(6);
    let pressure_planes = planes(10);
    let (five, two) = (table(5), table(2));
    let decode = |pressure: &[GribRecord]| {
        decode_store_thermo_pair(
            UnpackedFile { messages: &surface, table: &five, planes: &surface_planes },
            levels(),
            layout(),
            &surface_rules(),
            UnpackedFile { messages: pressure, table: &two, planes: &pressure_planes },
            &pressure_rules(),
        )
    };
    let (lent, fields) = decode(&pressure).ok().expect("the pair matches");
    assert_eq!(fields.gh_m_3d.len(), 4);
    let (given, own) = decode_store_thermo_pair_owned(
        OwnedFile { messages: surface.clone(), table: table(5), planes: surface_planes.clone() },
        levels(),
        layout(),
        &surface_rules(),
        OwnedFile { messages: pressure.clone(), table: table(2), planes: pressure_planes.clone() },
        &pressure_rules(),
    )
    .ok()
    .expect("the pair matches");
    assert_eq!(own.gh_m_3d, fields.gh_m_3d);
    assert_eq!(own.temperature_c_3d, fields.temperature_c_3d);
    assert_eq!(given.psfc_pa, lent.psfc_pa);
    for message in pressure.iter_mut() {
        message.nx = 1;
        message.ny = 2;
    }
    match decode(&pressure) {
        Err(DecodeError::Message(message)) => assert_eq!(
            message,
            "pressure decode shape 1x2 did not match surface shape 2x1"
        ),
        _ => panic!("the grids differ"),
    }
}

fn spacing_rules() -> SpacingRules<
    f64,
    fn(f64, f64, f64, f64) -> f64,
    fn(f64) -> bool,
    Binary,
    fn(f64, usize) -> f64,
> {
    SpacingRules {
        distance: |lat1, lon1, lat2, lon2| (lat1 - lat2).abs() * 2.0 + (lon1 - lon2).abs(),
        counts: |gap| gap.is_finite() && gap > 0.0,
        sum: |a, b| a + b,
        mean: |sum, count| sum / count as f64,
        nothing: 0.0,
    }
}

#[test]
fn grid_spacing_is_the_mean_of_what_counts() {
    let lat = [30.0, 30.0, 30.0, 31.0, 31.0, 31.0];
    let lon = [0.0, 1.0, 3.0, 0.0, 1.0, f64::NAN];
    let (dx, dy) = estimate_grid_spacing_m(3, 2, &lat, &lon, &spacing_rules())
        .ok()
        .expect("neighbours lie apart");
    assert_eq!(dx, (1.0 + 2.0 + 1.0) / 3.0);
    assert_eq!(dy, 2.0);
    let one = estimate_grid_spacing_m(1, 6, &lat, &lon, &spacing_rules()).err().unwrap();
    assert_eq!((one.field, one.expected, one.actual), ("grid_spacing", 4, 6));
    let same = [1.0; 4];
    let none = estimate_grid_spacing_m(2, 2, &same, &same, &spacing_rules()).err().unwrap();
    assert_eq!((none.expected, none.actual), (2, 0));
}

#[test]
fn geographic_spacing_is_the_smallest_gap() {
    let rules = ClosenessRules {
        lon_gap: |a: f64, b: f64| (a - b).abs(),
        lat_gap: |a: f64, b: f64| (b - a).abs(),
        closer: |gap: f64, best: f64| gap.is_finite() && gap > 0.0 && gap < best,
        found: |gap: f64| gap.is_finite(),
        widest: f64::INFINITY,
    };
    let lat = [30.0, 30.0, 30.0, 30.4, 30.4, 30.4];
    let lon = [0.0, 1.0, 1.5, 0.0, 1.0, 1.5];
    let spacing = estimate_geographic_grid_spacing_deg(3, 2, &lat, &lon, &rules);
    assert!((spacing.unwrap() - 0.4).abs() < 1.0e-9);
    assert_eq!(estimate_geographic_grid_spacing_deg(1, 1, &[1.0], &[1.0], &rules), None);
    let same = [1.0; 4];
    assert_eq!(estimate_geographic_grid_spacing_deg(2, 2, &same, &same, &rules), None);
}

#[test]
fn regular_meshes_are_told_from_others() {
    let rules = MeshRules {
        breaks: |a: f64, b: f64| (a - b).abs() > 1.0e-4,
        off_row: |a: f64, b: f64| (a - b).abs() > 1.0e-3,
        off_column: |a: f64, b: f64| (a - b).abs() > 1.0e-3,
    };
    let mut lat = Vec::new();
    let mut lon = Vec::new();
    for y in 0..3 {
        for x in 0..4 {
            lat.push(30.0 + y as f64);
            lon.push(x as f64);
        }
    }
    assert!(rectilinear_latlon_mesh_for_inverse(&lat, &lon, &rules));
    let mut tilted = lon.clone();
    tilted[11] += 0.5;
    assert!(!rectilinear_latlon_mesh_for_inverse(&lat, &tilted, &rules));
    assert!(!rectilinear_latlon_mesh_for_inverse(&lat, &lon[..11], &rules));
    assert!(!rectilinear_latlon_mesh_for_inverse(&lat[..8], &lon[..8], &rules));
    assert!(!rectilinear_latlon_mesh_for_inverse(&lat[..11], &lon[..11], &rules));
}
