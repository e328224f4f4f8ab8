//! Drawing one direct recipe: its layers, its mask, its panels, and what stops it.
use rustwx_products::derived::types::NativeContourRenderMode;
use rustwx_products::direct::drawing::{
    render_direct_recipe, DirectDrawing, MapSources, MapTexts, ProjectionAsk, RenderFailure,
};
use rustwx_products::direct::mesh::MeshRules;
use rustwx_products::direct::planning::PlannedDirectRecipe;
use rustwx_products::direct::projected::ProjectedSource;
use rustwx_products::direct::recipe::{
    selector_is_spread_product, CanonicalField, FetchPlan, FieldProduct, FieldSelector,
    PlotRecipe, RenderStyle, SelectorBinding,
};
use rustwx_products::direct::render::RenderRefusal;
use rustwx_products::direct::request::{
    build_render_request, native_fill_density, render_filled_field, BoundsBits, ContourLayer,
    DrawCaches, LayerRules, LevelDensity, MapField, MapFrame, MapSettings, ProjectedMap,
    RenderRequest, ScaleSource, WindSizes,
};
use rustwx_products::direct::styling::{convert_filled_field, RasterSampleMode, UnitConvert};
use rustwx_products::direct::types::{
    DirectBatchRequest, HrrrDirectBatchRequest, OUTPUT_HEIGHT, OUTPUT_WIDTH,
};
use rustwx_products::direct::wind::{LayerCache, StreamlineSetting};
use rustwx_products::heavy::DomainSpec;
use rustwx_products::model::{ProductVisualMode, SourceId};

const TEMPERATURE: CanonicalField = CanonicalField::Other(1);
const U_WIND: CanonicalField = CanonicalField::Other(2);
const V_WIND: CanonicalField = CanonicalField::Other(3);
const LOW_CLOUD_COVER: CanonicalField = CanonicalField::Other(6);
const MIDDLE_CLOUD_COVER: CanonicalField = CanonicalField::Other(7);
const HIGH_CLOUD_COVER: CanonicalField = CanonicalField::Other(8);

fn apply(convert: UnitConvert, value: f32) -> f32 {
    match convert {
        UnitConvert::KelvinToCelsius => value - 273.15,
        UnitConvert::PaToHpa => value / 100.0,
        _ => value,
    }
}

fn speed(u: f32, v: f32) -> f32 {
    ((u as f64).powi(2) + (v as f64).powi(2)).sqrt() as f32 * 2.0
}

fn knots(value: f32) -> f32 {
    value * 2.0
}

fn mean(window: Vec<f32>) -> f32 {
    window.iter().sum::<f32>() / window.len() as f32
}

fn lines(_selector: FieldSelector, values: Vec<f32>) -> Option<ContourLayer<f32, u8>> {
    Some(ContourLayer { data: values, style: 7 })
}

fn below(value: f32, level: u16) -> bool {
    value.is_finite() && value < level as f32 * 100.0
}

fn share(cells: usize, target: u32) -> usize {
    (cells as f64 / target as f64).round() as usize
}

fn thin(stride: usize) -> usize {
    stride * 2
}

fn differs(a: f32, b: f32) -> bool {
    (a - b).abs() > 1.0e-3
}

fn inside(lon: f32, lat: f32, bounds: BoundsBits) -> bool {
    lon <= bounds.east as f32 && lat <= bounds.south as f32
}

type Rules = LayerRules<
    fn(UnitConvert, f32) -> f32,
    fn(f32, f32) -> f32,
    fn(f32) -> f32,
    fn(Vec<f32>) -> f32,
    fn(FieldSelector, Vec<f32>) -> Option<ContourLayer<f32, u8>>,
    fn(f32, u16) -> bool,
    fn(usize, u32) -> usize,
    fn(usize) -> usize,
    fn(f32, f32) -> bool,
    fn(f32, f32) -> bool,
    fn(f32, f32) -> bool,
    fn(f32, f32, BoundsBits) -> bool,
>;

fn rules() -> Rules {
    LayerRules {
        apply,
        speed,
        knots,
        mean,
        lines,
        below,
        share,
        thin,
        mesh: MeshRules {
            breaks: differs,
            off_row: differs,
            off_column: differs,
        },
        inside,
    }
}

fn caches() -> DrawCaches<f32, u8> {
    DrawCaches {
        contours: LayerCache::new(),
        streamlines: LayerCache::new(),
        barbs: LayerCache::new(),
        strides: LayerCache::new(),
    }
}

fn settings(streamlines: StreamlineSetting) -> MapSettings<f32> {
    MapSettings {
        smoothing_passes: 0,
        streamlines,
        blank: -1.0,
        contour_mode: NativeContourRenderMode::Automatic,
        level_multiplier: 1,
        raster: RasterSampleMode::Nearest,
        title_suffix: String::new(),
    }
}

fn map_frame() -> MapFrame {
    MapFrame {
        bounds: BoundsBits {
            west: 1,
            east: 2,
            south: 3,
            north: 4,
        },
        targets: (1, 1),
    }
}

fn field(values: &[f32]) -> MapField<f32> {
    MapField {
        nx: 3,
        ny: values.len() / 3,
        lat_deg: (0..values.len()).map(|i| (i / 3) as f32).collect(),
        lon_deg: (0..values.len()).map(|i| (i % 3) as f32).collect(),
        projection: "geographic".to_string(),
        product: "field".to_string(),
        units: "unit".to_string(),
        values: values.to_vec(),
    }
}

fn projected(points: usize) -> ProjectedMap<u8> {
    ProjectedMap {
        handle: 9,
        finite_x: vec![true; points],
        finite_y: vec![true; points],
    }
}

fn recipe(slug: &str, style: RenderStyle, filled: Option<FieldSelector>) -> PlotRecipe {
    PlotRecipe {
        slug: slug.to_string(),
        title: format!("Title of {slug}"),
        style,
        filled: filled.map(|selector| SelectorBinding {
            selector,
            key: slug.to_string(),
        }),
        contours: None,
        barbs_u: None,
        barbs_v: None,
    }
}

fn t500() -> FieldSelector {
    FieldSelector::isobaric(TEMPERATURE, 500)
}

fn winds() -> (FieldSelector, FieldSelector) {
    (
        FieldSelector::isobaric(U_WIND, 500),
        FieldSelector::isobaric(V_WIND, 500),
    )
}

fn pressure() -> FieldSelector {
    FieldSelector::surface(CanonicalField::Pressure)
}

fn temperature_and_winds() -> (PlotRecipe, Vec<(FieldSelector, MapField<f32>)>) {
    let (u, v) = winds();
    let mut recipe = recipe("500mb_temperature", RenderStyle::WeatherTemperature, Some(t500()));
    recipe.barbs_u = Some(Some(u));
    recipe.barbs_v = Some(Some(v));
    recipe.contours = Some(Some(t500()));
    let mut extracted = vec![
        (t500(), field(&[273.15; 15])),
        (u, field(&[3.0; 15])),
        (v, field(&[4.0; 15])),
    ];
    // The ground reaches above 500 hPa at the first point alone.
    let mut surface = [90_000.0; 15];
    surface[0] = 40_000.0;
    extracted.push((pressure(), field(&surface)));
    (recipe, extracted)
}

#[test]
fn what_lies_below_the_ground_is_masked() {
    let (recipe, extracted) = temperature_and_winds();
    let mut caches = caches();
    let request = build_render_request(
        &recipe,
        t500(),
        0,
        &extracted,
        &projected(15),
        map_frame(),
        (640, 480),
        &settings(StreamlineSetting::Enabled),
        &rules(),
        &mut caches,
    )
    .ok()
    .unwrap();
    let masked = [0usize, 1, 3, 4];
    for i in 0..15 {
        let blank = masked.contains(&i);
        assert_eq!(request.field.values[i], if blank { -1.0 } else { 0.0 });
        let contours = request.contours.as_ref().unwrap();
        assert_eq!(contours.data[i], if blank { -1.0 } else { 273.15 });
        let barbs = request.barbs.as_ref().unwrap();
        assert_eq!(barbs.u[i], if blank { -1.0 } else { 6.0 });
        assert_eq!(barbs.v[i], if blank { -1.0 } else { 8.0 });
        assert_eq!(request.streamlines.as_ref().unwrap().u[i], 6.0);
    }
    assert_eq!(request.below_ground, vec![vec![0, 1, 4, 3, 0]]);
    assert_eq!(request.field.units, "degC");
    assert_eq!(request.scale, Some(ScaleSource::Recipe));
    assert_eq!(request.visual_mode, ProductVisualMode::UpperAirAnalysis);
    assert_eq!(request.projected, 9);
    assert_eq!((request.width, request.height), (640, 480));
    let barbs = request.barbs.as_ref().unwrap();
    assert_eq!((barbs.stride_x, barbs.stride_y), (3, 4));
    let streamlines = request.streamlines.as_ref().unwrap();
    assert_eq!((streamlines.stride_x, streamlines.stride_y), (6, 8));
}

#[test]
fn layers_are_made_once() {
    let (recipe, mut extracted) = temperature_and_winds();
    extracted.pop();
    let mut caches = caches();
    let draw = |extracted: &[(FieldSelector, MapField<f32>)], caches: &mut DrawCaches<f32, u8>| {
        build_render_request(
            &recipe,
            t500(),
            0,
            extracted,
            &projected(15),
            map_frame(),
            (640, 480),
            &settings(StreamlineSetting::Auto),
            &rules(),
            caches,
        )
        .ok()
        .unwrap()
    };
    let first = draw(&extracted, &mut caches);
    assert!(first.streamlines.is_none());
    assert!(first.below_ground.is_empty());
    extracted[1].1.values[0] = 50.0;
    extracted[0].1.values[0] = 283.15;
    let second = draw(&extracted, &mut caches);
    assert_eq!(second.barbs.unwrap().u, first.barbs.unwrap().u);
    assert_eq!(second.contours.unwrap().data, first.contours.unwrap().data);
    assert_eq!(second.field.values[0], 10.0);
}

#[test]
fn shared_layers_do_not_show() {
    let (recipe, extracted) = temperature_and_winds();
    let draw = |caches: &mut DrawCaches<f32, u8>| {
        build_render_request(
            &recipe,
            t500(),
            0,
            &extracted,
            &projected(15),
            map_frame(),
            (640, 480),
            &settings(StreamlineSetting::Enabled),
            &rules(),
            caches,
        )
        .ok()
        .unwrap()
    };
    let mut shared = caches();
    draw(&mut shared);
    let kept = draw(&mut shared);
    let fresh = draw(&mut caches());
    assert_eq!(kept.field.values, fresh.field.values);
    assert_eq!(kept.contours.unwrap().data, fresh.contours.unwrap().data);
    assert_eq!(kept.below_ground, fresh.below_ground);
    let (kept_lines, fresh_lines) = (kept.streamlines.unwrap(), fresh.streamlines.unwrap());
    assert_eq!(kept_lines.u, fresh_lines.u);
    assert_eq!(kept_lines.v, fresh_lines.v);
    assert_eq!((kept_lines.stride_x, kept_lines.stride_y), (fresh_lines.stride_x, fresh_lines.stride_y));
    let (kept_barbs, fresh_barbs) = (kept.barbs.unwrap(), fresh.barbs.unwrap());
    assert_eq!(kept_barbs.u, fresh_barbs.u);
    assert_eq!(kept_barbs.v, fresh_barbs.v);
    assert_eq!((kept_barbs.stride_x, kept_barbs.stride_y), (fresh_barbs.stride_x, fresh_barbs.stride_y));
}

#[test]
fn heights_alone_are_drawn_in_lines() {
    let height = FieldSelector::isobaric(CanonicalField::GeopotentialHeight, 500);
    let recipe = recipe("500mb_height", RenderStyle::Other(3), Some(height));
    let extracted = vec![(height, field(&[540.0; 6])), (pressure(), field(&[40_000.0; 6]))];
    let mut caches = caches();
    let request = build_render_request(
        &recipe,
        height,
        0,
        &extracted,
        &projected(6),
        map_frame(),
        (640, 480),
        &settings(StreamlineSetting::Disabled),
        &rules(),
        &mut caches,
    )
    .ok()
    .unwrap();
    assert!(request.overlay_only);
    assert_eq!(request.scale, None);
    assert_eq!(request.visual_mode, ProductVisualMode::OverlayAnalysis);
    assert_eq!(request.contours.unwrap().data, vec![540.0; 6]);
    assert!(request.below_ground.is_empty());
}

#[test]
fn spread_and_shapes_are_asked_for() {
    let spread = FieldSelector {
        product: FieldProduct::EnsembleSpread,
        ..t500()
    };
    let recipe = recipe("spread", RenderStyle::WeatherTemperature, Some(spread));
    let extracted = vec![(spread, field(&[1.5; 6]))];
    let mut drawn = settings(StreamlineSetting::Auto);
    drawn.contour_mode = NativeContourRenderMode::ExperimentalAllProjected;
    drawn.level_multiplier = 3;
    let mut caches = caches();
    let request = build_render_request(
        &recipe,
        spread,
        0,
        &extracted,
        &projected(6),
        map_frame(),
        (640, 480),
        &drawn,
        &rules(),
        &mut caches,
    )
    .ok()
    .unwrap();
    assert_eq!(request.scale, Some(ScaleSource::Spread));
    assert_eq!(request.spread_values, Some(vec![1.5; 6]));
    assert_eq!(request.field.units, "K");
    assert_eq!(request.field.values, vec![-1.0; 6]);
    let fill = request.projected_fill.unwrap();
    assert_eq!(fill.values, vec![1.5; 6]);
    assert_eq!(
        fill.density,
        Some(LevelDensity { multiplier: 3, min_source_level_count: 2 })
    );
}

#[test]
fn one_level_for_each_leaves_the_scale_alone() {
    assert_eq!(native_fill_density(0), None);
    assert_eq!(native_fill_density(1), None);
    assert_eq!(
        native_fill_density(2),
        Some(LevelDensity { multiplier: 2, min_source_level_count: 2 })
    );
    let (recipe, extracted) = temperature_and_winds();
    let shaped = |mode| {
        let mut drawn = settings(StreamlineSetting::Disabled);
        drawn.contour_mode = mode;
        build_render_request(
            &recipe,
            t500(),
            0,
            &extracted,
            &projected(15),
            map_frame(),
            (640, 480),
            &drawn,
            &rules(),
            &mut caches(),
        )
        .ok()
        .unwrap()
    };
    let rastered = shaped(NativeContourRenderMode::Signature);
    assert!(rastered.projected_fill.is_none());
    let request = shaped(NativeContourRenderMode::ExperimentalAllProjected);
    let fill = request.projected_fill.unwrap();
    // What lies below the ground is blank before the shapes are drawn.
    assert_eq!(fill.values, rastered.field.values);
    assert_eq!(fill.values[0], -1.0);
    assert_eq!(fill.density, None);
    assert_eq!(request.field.values, vec![-1.0; 15]);
}

#[test]
fn streamlines_are_left_to_grids_that_are_no_regular_mesh() {
    let (recipe, mut extracted) = temperature_and_winds();
    let has_streamlines = |extracted: &[(FieldSelector, MapField<f32>)], setting| {
        build_render_request(
            &recipe,
            t500(),
            0,
            extracted,
            &projected(15),
            map_frame(),
            (640, 480),
            &settings(setting),
            &rules(),
            &mut caches(),
        )
        .ok()
        .unwrap()
        .streamlines
        .is_some()
    };
    assert!(!has_streamlines(&extracted, StreamlineSetting::Auto));
    assert!(has_streamlines(&extracted, StreamlineSetting::Enabled));
    extracted[1].1.lon_deg[7] += 0.5;
    assert!(has_streamlines(&extracted, StreamlineSetting::Auto));
    assert!(!has_streamlines(&extracted, StreamlineSetting::Disabled));
}

#[test]
fn barbs_are_spaced_by_what_the_map_shows() {
    let (recipe, extracted) = temperature_and_winds();
    let strides = |bounds: BoundsBits| {
        let barbs = build_render_request(
            &recipe,
            t500(),
            0,
            &extracted,
            &projected(15),
            MapFrame { bounds, targets: (1, 1) },
            (640, 480),
            &settings(StreamlineSetting::Disabled),
            &rules(),
            &mut caches(),
        )
        .ok()
        .unwrap()
        .barbs
        .unwrap();
        (barbs.stride_x, barbs.stride_y)
    };
    let bounds = |east, south| BoundsBits { west: 0, east, south, north: 0 };
    assert_eq!(strides(bounds(1, 2)), (2, 3));
    assert_eq!(strides(bounds(0, 4)), (2, 5));
    assert_eq!(strides(bounds(9, 9)), (3, 5));
}

#[test]
fn qmd_stddev_temperature_keeps_spread_units_and_scale() {
    let mut selector = FieldSelector::height_agl(TEMPERATURE, 2);
    selector.product = FieldProduct::EnsembleStandardDeviation;
    let recipe = recipe(
        "nbm_qmd_2m_temperature_stddev",
        RenderStyle::WeatherTemperature,
        Some(selector),
    );
    let converted =
        convert_filled_field(&recipe, selector, "stddev", "K", &[0.0, 1.5, 3.0, 6.0], &apply);
    assert_eq!(converted.units, "K");
    assert_eq!(converted.values, vec![0.0, 1.5, 3.0, 6.0]);
    assert!(selector_is_spread_product(selector));

    let mut read = field(&[0.0, 1.5, 3.0, 6.0]);
    (read.nx, read.ny) = (2, 2);
    let request = build_render_request(
        &recipe,
        selector,
        0,
        &[(selector, read)],
        &projected(4),
        map_frame(),
        (640, 480),
        &settings(StreamlineSetting::Auto),
        &rules(),
        &mut caches(),
    )
    .ok()
    .unwrap();
    assert_eq!(request.scale, Some(ScaleSource::Spread));
    assert_eq!(request.spread_values, Some(vec![0.0, 1.5, 3.0, 6.0]));
    assert_eq!(request.field.values, converted.values);
}

#[test]
fn every_title_ends_in_the_suffix() {
    let t2 = FieldSelector::height_agl(TEMPERATURE, 2);
    let filled = recipe("2m_temperature", RenderStyle::WeatherTemperature, Some(t2));
    let extracted = vec![(t2, field(&[280.0; 6]))];
    let mut drawn = settings(StreamlineSetting::Auto);
    drawn.title_suffix = " | v2".to_string();
    let request = build_render_request(
        &filled,
        t2,
        0,
        &extracted,
        &projected(6),
        map_frame(),
        (640, 480),
        &drawn,
        &rules(),
        &mut caches(),
    )
    .ok()
    .unwrap();
    assert_eq!(request.title, "Title of 2m_temperature | v2");
    match draw_with(&drawn, SourceId::Aws, None, &filled, &plan("sfc", vec![t2]), &[], &extracted) {
        Ok(DirectDrawing::Single { request }) => {
            assert_eq!(request.title, "Title of 2m_temperature | v2")
        }
        _ => panic!("the field was read"),
    }
    let covers = [LOW_CLOUD_COVER, MIDDLE_CLOUD_COVER, HIGH_CLOUD_COVER];
    let slugs = ["low_cloud_cover", "middle_cloud_cover", "high_cloud_cover"];
    let mut components = Vec::new();
    let mut read = Vec::new();
    for (cover, slug) in covers.iter().zip(slugs) {
        let selector = FieldSelector::entire_atmosphere(*cover);
        components.push(recipe(slug, RenderStyle::Other(4), Some(selector)));
        read.push((selector, field(&[10.0; 6])));
    }
    let levels = recipe("cloud_cover_levels", RenderStyle::Other(4), None);
    let sfc = plan("sfc", read.iter().map(|(selector, _)| *selector).collect());
    match draw_with(&drawn, SourceId::Aws, None, &levels, &sfc, &components, &read) {
        Ok(DirectDrawing::Panels { requests, title, .. }) => {
            assert_eq!(title, "Title of cloud_cover_levels | v2");
            assert_eq!(requests[1].title, "Title of middle_cloud_cover | v2");
        }
        _ => panic!("every component was read"),
    }
}

#[test]
fn a_wind_speed_needs_as_much_of_both_components() {
    let (u, v) = winds();
    let height = FieldSelector::isobaric(CanonicalField::GeopotentialHeight, 500);
    let mut recipe = recipe("500mb_height_winds", RenderStyle::WeatherHeight, Some(height));
    recipe.barbs_u = Some(Some(u));
    recipe.barbs_v = Some(Some(v));
    let mut extracted = vec![
        (height, field(&[540.0; 6])),
        (u, field(&[3.0; 6])),
        (v, field(&[4.0; 6])),
    ];
    let all = rules();
    let filled =
        render_filled_field(&recipe, height, &extracted[0].1, &extracted, &all.apply, &all.speed);
    let filled = filled.ok().unwrap();
    assert_eq!(filled.product, "500mb_height_winds_wind_speed");
    assert_eq!(filled.units, "kt");
    assert_eq!(filled.values, vec![10.0; 6]);
    extracted[2].1 = field(&[4.0; 3]);
    let filled =
        render_filled_field(&recipe, height, &extracted[0].1, &extracted, &all.apply, &all.speed);
    assert_eq!(filled.err(), Some(WindSizes { u: 6, v: 3 }));
}

fn request() -> DirectBatchRequest<u8, u8> {
    DirectBatchRequest::from_hrrr_for_planner(HrrrDirectBatchRequest {
        date_yyyymmdd: "20260414".to_string(),
        cycle_override_utc: Some(23),
        forecast_hour: 6,
        source: SourceId::Aws,
        domain: DomainSpec {
            slug: "midwest".to_string(),
            bounds: 0,
        },
        use_cache: false,
        recipe_slugs: Vec::new(),
        contour_mode: NativeContourRenderMode::Automatic,
        native_fill_level_multiplier: 1,
        output_width: OUTPUT_WIDTH,
        output_height: OUTPUT_HEIGHT,
        place_label_overlay: None,
    })
}

fn plan(product: &str, selectors: Vec<FieldSelector>) -> FetchPlan {
    FetchPlan {
        product: product.to_string(),
        selectors,
        variable_patterns: Vec::new(),
    }
}

fn frame(_at: usize, _width: u32, _height: u32, _mode: ProductVisualMode) -> MapFrame {
    map_frame()
}

fn scaled(length: u32, output: u32, usual: u32) -> u32 {
    (length as f64 * output as f64 / usual as f64).round() as u32
}

fn project(ask: ProjectionAsk) -> Result<ProjectedMap<u8>, String> {
    assert_eq!(ask.source, ProjectedSource::Build);
    if ask.field_at == 1 {
        return Err("the grid has no extent".to_string());
    }
    Ok(projected(6))
}

/// Marks a map with the overlay that it is given, unless the overlay is the last one.
fn label(
    overlay: u8,
    at: usize,
    mut request: RenderRequest<f32, u8, u8>,
) -> Result<RenderRequest<f32, u8, u8>, String> {
    if overlay == u8::MAX {
        return Err("the overlay has no places".to_string());
    }
    request.title = format!("{} with overlay {overlay} of field {at}", request.title);
    Ok(request)
}

fn draw(
    recipe: &PlotRecipe,
    plan: &FetchPlan,
    components: &[PlotRecipe],
    extracted: &[(FieldSelector, MapField<f32>)],
) -> Result<DirectDrawing<f32, u8, u8>, RenderFailure> {
    draw_from(SourceId::Aws, None, recipe, plan, components, extracted)
}

fn draw_from(
    source: SourceId,
    overlay: Option<u8>,
    recipe: &PlotRecipe,
    plan: &FetchPlan,
    components: &[PlotRecipe],
    extracted: &[(FieldSelector, MapField<f32>)],
) -> Result<DirectDrawing<f32, u8, u8>, RenderFailure> {
    let settings = settings(StreamlineSetting::Auto);
    draw_with(&settings, source, overlay, recipe, plan, components, extracted)
}

fn draw_with(
    settings: &MapSettings<f32>,
    source: SourceId,
    overlay: Option<u8>,
    recipe: &PlotRecipe,
    plan: &FetchPlan,
    components: &[PlotRecipe],
    extracted: &[(FieldSelector, MapField<f32>)],
) -> Result<DirectDrawing<f32, u8, u8>, RenderFailure> {
    let fetches = vec![("sfc".to_string(), 1u8), ("prs".to_string(), 2)];
    let shared = Vec::new();
    let mut caches = caches();
    let mut request = request();
    request.place_label_overlay = overlay;
    render_direct_recipe(
        &request,
        &MapTexts {
            model: "hrrr",
            source,
            run_subtitle: "run",
            source_subtitle: "source",
        },
        PlannedDirectRecipe { recipe, plan },
        components,
        extracted,
        &fetches,
        &MapSources {
            shared: &shared,
            prepared: &[],
            cached: &[],
        },
        settings,
        &scaled,
        &project,
        &frame,
        &label,
        &rules(),
        &mut caches,
    )
}

fn refusal(drawn: Result<DirectDrawing<f32, u8, u8>, RenderFailure>) -> RenderRefusal {
    match drawn {
        Err(RenderFailure::Refused { refusal }) => refusal,
        _ => panic!("the recipe is refused"),
    }
}

#[test]
fn a_read_field_is_drawn() {
    let t2 = FieldSelector::height_agl(TEMPERATURE, 2);
    let filled = recipe("2m_temperature", RenderStyle::WeatherTemperature, Some(t2));
    let unbound = recipe("2m_temperature", RenderStyle::WeatherTemperature, None);
    let sfc = plan("sfc", vec![t2]);
    let extracted = vec![(t2, field(&[280.0; 6]))];
    match draw(&filled, &sfc, &[], &extracted) {
        Ok(DirectDrawing::Single { request }) => {
            assert_eq!(request.title, "Title of 2m_temperature");
            assert_eq!(
                request.subtitles,
                Some(("run".to_string(), "source".to_string()))
            );
            assert_eq!(request.visual_mode, ProductVisualMode::FilledMeteorology);
            assert_eq!((request.width, request.height), (OUTPUT_WIDTH, OUTPUT_HEIGHT));
            assert_eq!(request.field.units, "degF");
        }
        _ => panic!("the field was read"),
    }
    match refusal(draw(&filled, &plan("subh", vec![t2]), &[], &extracted)) {
        RenderRefusal::UnknownFetch { product } => assert_eq!(product, "subh"),
        _ => panic!("the family was not fetched"),
    }
    assert!(matches!(
        refusal(draw(&unbound, &sfc, &[], &extracted)),
        RenderRefusal::NoFilledBinding
    ));
    let other = vec![(t500(), field(&[280.0; 6]))];
    assert!(matches!(
        refusal(draw(&filled, &sfc, &[], &other)),
        RenderRefusal::FilledNotRead { selector } if selector == t2
    ));
    let second = vec![(t500(), field(&[280.0; 6])), (t2, field(&[280.0; 6]))];
    match draw(&filled, &sfc, &[], &second) {
        Err(RenderFailure::Projection { message }) => {
            assert_eq!(message, "the grid has no extent")
        }
        _ => panic!("the grid is not projected"),
    }
}

#[test]
fn panels_share_one_projection() {
    let low = FieldSelector::entire_atmosphere(LOW_CLOUD_COVER);
    let middle = FieldSelector::entire_atmosphere(MIDDLE_CLOUD_COVER);
    let high = FieldSelector::entire_atmosphere(HIGH_CLOUD_COVER);
    let cloud = |slug: &str, selector| recipe(slug, RenderStyle::Other(4), Some(selector));
    let components = vec![
        cloud("low_cloud_cover", low),
        cloud("middle_cloud_cover", middle),
        cloud("high_cloud_cover", high),
    ];
    let levels = recipe("cloud_cover_levels", RenderStyle::Other(4), None);
    let sfc = plan("sfc", vec![low, middle, high]);
    let extracted = vec![
        (low, field(&[10.0; 6])),
        (middle, field(&[20.0; 6])),
        (high, field(&[30.0; 6])),
    ];
    match draw(&levels, &sfc, &components, &extracted) {
        Ok(DirectDrawing::Panels {
            layout,
            requests,
            title,
            subtitle,
        }) => {
            assert_eq!((layout.rows, layout.columns), (1, 3));
            assert_eq!((layout.panel_width, layout.panel_height), (420, 320));
            assert_eq!(title, "Title of cloud_cover_levels");
            assert_eq!(subtitle, "run | source");
            let shown: Vec<f32> = requests
                .iter()
                .map(|request: &RenderRequest<f32, u8, u8>| request.field.values[0])
                .collect();
            assert_eq!(shown, vec![10.0, 20.0, 30.0]);
            for request in &requests {
                assert_eq!(request.visual_mode, ProductVisualMode::PanelMember);
                assert_eq!(request.subtitles, None);
                assert_eq!((request.width, request.height), (420, 320));
            }
            assert_eq!(requests[1].title, "Title of middle_cloud_cover");
        }
        _ => panic!("every component was read"),
    }
    assert!(matches!(
        refusal(draw(&levels, &sfc, &components[1..], &extracted)),
        RenderRefusal::NoComponent { slug } if slug == "low_cloud_cover"
    ));
    assert!(matches!(
        refusal(draw(&levels, &sfc, &components, &extracted[0..2])),
        RenderRefusal::ComponentNotRead { selector } if selector == high
    ));
    // The first field is projected before the other components are looked for.
    let turned = vec![(high, field(&[30.0; 6])), (low, field(&[10.0; 6]))];
    assert!(matches!(
        draw(&levels, &sfc, &components, &turned),
        Err(RenderFailure::Projection { .. })
    ));
}

#[test]
fn labels_and_the_raster_policy_are_applied_to_each_map() {
    let t2 = FieldSelector::height_agl(TEMPERATURE, 2);
    let filled = recipe("2m_temperature", RenderStyle::WeatherTemperature, Some(t2));
    let sfc = plan("sfc", vec![t2]);
    let extracted = vec![(t2, field(&[280.0; 6]))];
    match draw_from(SourceId::Aws, Some(7), &filled, &sfc, &[], &extracted) {
        Ok(DirectDrawing::Single { request }) => {
            assert_eq!(request.title, "Title of 2m_temperature with overlay 7 of field 0");
            assert_eq!(request.raster, RasterSampleMode::Nearest);
        }
        _ => panic!("the field was read"),
    }
    match draw_from(SourceId::AifsInference, None, &filled, &sfc, &[], &extracted) {
        Ok(DirectDrawing::Single { request }) => {
            assert_eq!(request.title, "Title of 2m_temperature");
            assert_eq!(request.raster, RasterSampleMode::Linear);
        }
        _ => panic!("the field was read"),
    }
    assert!(matches!(
        draw_from(SourceId::Aws, Some(u8::MAX), &filled, &sfc, &[], &extracted),
        Err(RenderFailure::Labels { message }) if message == "the overlay has no places"
    ));

    let covers = [LOW_CLOUD_COVER, MIDDLE_CLOUD_COVER, HIGH_CLOUD_COVER];
    let slugs = ["low_cloud_cover", "middle_cloud_cover", "high_cloud_cover"];
    let mut components = Vec::new();
    let mut read = Vec::new();
    for (cover, slug) in covers.iter().zip(slugs) {
        let selector = FieldSelector::entire_atmosphere(*cover);
        components.push(recipe(slug, RenderStyle::Other(4), Some(selector)));
        read.push((selector, field(&[10.0; 6])));
    }
    let levels = recipe("cloud_cover_levels", RenderStyle::Other(4), None);
    let sfc = plan("sfc", read.iter().map(|(selector, _)| *selector).collect());
    match draw_from(SourceId::AifsInference, Some(3), &levels, &sfc, &components, &read) {
        Ok(DirectDrawing::Panels { requests, .. }) => {
            assert_eq!(requests[2].title, "Title of high_cloud_cover with overlay 3 of field 2");
            assert!(requests.iter().all(|map| map.raster == RasterSampleMode::Linear));
        }
        _ => panic!("every component was read"),
    }
    assert!(matches!(
        draw_from(SourceId::Aws, Some(u8::MAX), &levels, &sfc, &components, &read),
        Err(RenderFailure::Labels { .. })
    ));
}
