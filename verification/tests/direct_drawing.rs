//! Cropping, projecting, styling and scheduling of direct maps.
use rustwx_products::derived::types::NativeContourRenderMode;
use rustwx_products::direct::chunks::{chunk_script, next_chunk_step, ChunkAction, ChunkStep};
use rustwx_products::direct::composite::composite_panel_spec;
use rustwx_products::direct::domain::{
    circular_crop_for_hit_columns, crop_for_direct_grid, crop_selected_field,
    crop_values_for_direct, direct_domain_crop_pad_cells_for_field, field_cut,
    inverse_raster_crop_pad_cells, should_normalize_periodic_direct_crop_longitudes,
    visible_grid_span, DirectGridCrop, FieldCut,
};
use rustwx_products::direct::masks::{
    apply_below_ground_mask, below_ground_mask, dilate_mask, masked_cell_rings,
    smooth_contour_values,
};
use rustwx_products::direct::planning::{plan_direct_recipes, PlannedDirectRecipe, RecipeLookup};
use rustwx_products::direct::projected::{
    plan_projected_maps, projected_map_cache_key, projected_sample_selector, projected_source,
    visual_mode_cache_key, visual_mode_for_key, FieldShape, ProjectedSource,
};
use rustwx_products::direct::projection::{
    barb_target_columns_rows, basemap_detail_for_bounds, fixed_projection,
    full_domain_projected_frame_default, full_domain_projected_frame_enabled,
    inverse_raster_projection,
    presentation_pad_thousandths, presentation_projection_for_bounds,
    projection_presentation_variant, rectilinear_mesh_samples, rectilinear_mesh_shape,
    reference_latitude_for_projection, stretches_frame, BasemapDetail, DomainTraits,
    FixedProjection, NativeProjection, PresentationProjection, ProjectionPresentationVariant,
};
use rustwx_products::direct::recipe::{
    CanonicalField, FetchPlan, FieldProduct, FieldSelector, PlotRecipe, RenderStyle,
    SelectorBinding,
};
use rustwx_products::direct::schedule::{
    bounds_recipe_of_fields, bounds_recipe_of_plan, collect_rendered, direct_render_chunk_size,
    missing_selected_fields, render_chunks, render_worker_count, selectors_to_load, worker_failure,
};
use rustwx_products::direct::styling::{
    apply_source_raster_policy, companion_wind_fields, companion_wind_speed_fill,
    convert_filled_field, direct_recipe_render_controls, should_render_overlay_only, visual_mode_for_direct_recipe, LegendMode,
    RasterSampleMode, RenderField, UnitConvert,
};
use rustwx_products::direct::types::{DirectBatchRequest, OUTPUT_HEIGHT, OUTPUT_WIDTH};
use rustwx_products::direct::wind::{
    barb_halo_width, barb_strides, barb_width, pressure_contour_smoothing_passes,
    streamline_setting, streamline_strides, streamlines_enabled_for_grid, LayerCache, LayerKey,
    StreamlineSetting,
};
use rustwx_products::gridded::crop::GridCrop;
use rustwx_products::heavy::DomainSpec;
use rustwx_products::model::{ModelId, ProductVisualMode, SourceId};

type Bounds = (f64, f64, f64, f64);

const CONUS: Bounds = (-127.0, -66.0, 23.0, 51.5);
const GLOBE: Bounds = (-180.0, 179.999, -90.0, 90.0);
const NORTH_AMERICA: Bounds = (-170.0, -50.0, 5.0, 84.0);
const EUROPE: Bounds = (-25.0, 45.0, 34.0, 72.0);

const TEMPERATURE: CanonicalField = CanonicalField::Other(1);
const U_WIND: CanonicalField = CanonicalField::Other(2);
const V_WIND: CanonicalField = CanonicalField::Other(3);
const LOW_CLOUD_COVER: CanonicalField = CanonicalField::Other(6);
const MIDDLE_CLOUD_COVER: CanonicalField = CanonicalField::Other(7);
const HIGH_CLOUD_COVER: CanonicalField = CanonicalField::Other(8);

fn normalized(lon: f64) -> f64 {
    let mut lon = lon % 360.0;
    if lon > 180.0 {
        lon -= 360.0;
    } else if lon <= -180.0 {
        lon += 360.0;
    }
    lon
}

fn lon_span(bounds: Bounds) -> f64 {
    let raw = (bounds.1 - bounds.0).abs();
    if raw >= 359.0 {
        return raw.min(360.0);
    }
    let (west, east) = (normalized(bounds.0), normalized(bounds.1));
    if west <= east {
        east - west
    } else {
        east + 360.0 - west
    }
}

fn in_bounds(lon: f64, lat: f64, bounds: Bounds) -> bool {
    if lat < bounds.2 || lat > bounds.3 {
        return false;
    }
    if lon_span(bounds) >= 359.0 {
        return true;
    }
    let (west, east, lon) = (normalized(bounds.0), normalized(bounds.1), normalized(lon));
    if west <= east {
        lon >= west && lon <= east
    } else {
        lon >= west || lon <= east
    }
}

fn traits_of(bounds: Bounds) -> DomainTraits {
    let lat = (bounds.3 - bounds.2).abs();
    let lon = lon_span(bounds);
    let (west, east) = (normalized(bounds.0), normalized(bounds.1));
    DomainTraits {
        global: lon >= 300.0 && lat >= 120.0,
        wide: lat >= 25.0 || lon >= 45.0,
        broad: lat >= 45.0 || lon >= 65.0,
        continental: lat >= 50.0 || lon >= 90.0,
        local: lat <= 12.0 && lon <= 20.0,
        conus: west <= east
            && bounds.2 >= 20.0
            && bounds.3 <= 56.0
            && west >= -132.0
            && east <= -60.0
            && lat >= 5.0
            && lat <= 38.0
            && lon >= 8.0
            && lon <= 75.0,
        north_america: west <= east
            && bounds.2 >= -5.0
            && bounds.3 <= 88.0
            && west >= -180.0
            && east <= -35.0
            && lat >= 45.0
            && lon >= 80.0
            && lon <= 155.0,
        south_polar: bounds.3 <= -55.0,
        north_polar: bounds.2 >= 55.0,
        tropical: bounds.2 < -25.0 && bounds.3 > 25.0,
    }
}

/// Whether a mesh is one of rows and columns, by the samples that decide it.
fn rectilinear(lat_deg: &[f32], lon_deg: &[f32]) -> bool {
    let breaks: Vec<bool> = lat_deg
        .iter()
        .map(|lat| (lat - lat_deg[0]).abs() > 1.0e-4)
        .collect();
    let (nx, ny) = match rectilinear_mesh_shape(lat_deg.len(), lon_deg.len(), &breaks) {
        Some(shape) => shape,
        None => return false,
    };
    let samples = rectilinear_mesh_samples(nx, ny);
    samples
        .in_rows
        .iter()
        .all(|(at, first)| (lat_deg[*at] - lat_deg[*first]).abs() <= 1.0e-3)
        && samples
            .in_columns
            .iter()
            .all(|(at, first)| (lon_deg[*at] - lon_deg[*first]).abs() <= 1.0e-3)
}

fn regular_geographic_grid_3x3() -> (Vec<f32>, Vec<f32>) {
    (
        vec![34.0, 34.0, 34.0, 35.0, 35.0, 35.0, 36.0, 36.0, 36.0],
        vec![
            -101.0, -100.0, -99.0, -101.0, -100.0, -99.0, -101.0, -100.0, -99.0,
        ],
    )
}

fn skewed_geographic_grid_3x3() -> (Vec<f32>, Vec<f32>) {
    (
        vec![34.0, 34.1, 34.2, 35.0, 35.1, 35.2, 36.0, 36.1, 36.2],
        vec![
            -101.0, -100.0, -99.0, -100.8, -99.8, -98.8, -100.6, -99.6, -98.6,
        ],
    )
}

fn periodic_global_grid() -> (Vec<f32>, Vec<f32>) {
    let mut lat = Vec::new();
    let mut lon = Vec::new();
    for row_lat in [-10.0_f32, 0.0, 10.0] {
        for x in 0..36 {
            lat.push(row_lat);
            lon.push((x as f32) * 10.0);
        }
    }
    (lat, lon)
}

fn marks(grid: &(Vec<f32>, Vec<f32>), bounds: Bounds) -> Vec<bool> {
    (0..grid.0.len())
        .map(|i| in_bounds(grid.1[i] as f64, grid.0[i] as f64, bounds))
        .collect()
}

fn sample_direct_request(model: ModelId) -> DirectBatchRequest<Bounds, u8> {
    DirectBatchRequest {
        model,
        date_yyyymmdd: "20260414".to_string(),
        cycle_override_utc: Some(23),
        forecast_hour: 6,
        source: SourceId::Nomads,
        domain: DomainSpec {
            slug: "midwest".to_string(),
            bounds: (-105.0, -80.0, 30.0, 50.0),
        },
        use_cache: false,
        recipe_slugs: Vec::new(),
        product_overrides: Vec::new(),
        contour_mode: NativeContourRenderMode::Automatic,
        native_fill_level_multiplier: 1,
        output_width: OUTPUT_WIDTH,
        output_height: OUTPUT_HEIGHT,
        output_suffix: None,
        subtitle_left_override: None,
        subtitle_right_override: None,
        place_label_overlay: None,
    }
}

fn recipe(slug: &str, style: RenderStyle, filled: Option<FieldSelector>) -> PlotRecipe {
    PlotRecipe {
        slug: slug.to_string(),
        title: slug.replace('_', " "),
        style,
        filled: filled.map(|selector| SelectorBinding {
            selector,
            key: format!("{slug}_key"),
        }),
        contours: None,
        barbs_u: None,
        barbs_v: None,
    }
}

fn lookup(recipe: PlotRecipe, selectors: Vec<FieldSelector>) -> RecipeLookup {
    RecipeLookup {
        slug: recipe.slug.clone(),
        recipe: Some(recipe),
        plan: Ok(FetchPlan {
            product: "sfc".to_string(),
            selectors,
            variable_patterns: Vec::new(),
        }),
    }
}

fn scaled(length: u32, output: u32, usual: u32) -> u32 {
    (length as f64 * (output as f64 / usual as f64)).round().max(1.0) as u32
}

#[test]
fn barb_density_targets_thin_operational_synoptic_domains() {
    assert_eq!(barb_target_columns_rows(traits_of(CONUS)), (23, 14));
    assert_eq!(barb_target_columns_rows(traits_of(NORTH_AMERICA)), (26, 13));
    assert_eq!(barb_target_columns_rows(traits_of(GLOBE)), (34, 16));
    assert_eq!(
        barb_target_columns_rows(traits_of((-124.0, -122.0, 44.5, 46.0))),
        (28, 18)
    );
}

#[test]
fn empty_renderable_batch_returns_without_projected_map_failure() {
    let request = sample_direct_request(ModelId::Hrrr);
    let planned: Vec<PlannedDirectRecipe> = Vec::new();
    let extracted: Vec<(FieldSelector, FieldShape)> = Vec::new();
    assert!(plan_projected_maps(&request, &planned, &[], &[], &extracted, &[]).is_empty());
    let rendered: Vec<u8> = collect_rendered(0, Vec::new())
        .expect("empty renderable batches should not fail projected-map prep");
    assert!(rendered.is_empty());
}

#[test]
fn prepared_projected_maps_use_composite_components_as_projection_sample() {
    let request = sample_direct_request(ModelId::Hrrr);
    let covers = [LOW_CLOUD_COVER, MIDDLE_CLOUD_COVER, HIGH_CLOUD_COVER];
    let selectors: Vec<FieldSelector> = covers
        .iter()
        .map(|field| FieldSelector::entire_atmosphere(*field))
        .collect();
    let components: Vec<PlotRecipe> = ["low_cloud_cover", "middle_cloud_cover", "high_cloud_cover"]
        .iter()
        .zip(&selectors)
        .map(|(slug, selector)| recipe(slug, RenderStyle::Other(0), Some(*selector)))
        .collect();
    let lookups = vec![lookup(
        recipe("cloud_cover_levels", RenderStyle::Other(0), None),
        selectors.clone(),
    )];
    let planned = plan_direct_recipes("HRRR", &lookups).unwrap();
    let extracted: Vec<(FieldSelector, FieldShape)> = selectors
        .iter()
        .map(|selector| {
            (
                *selector,
                FieldShape {
                    nx: 2,
                    ny: 2,
                    projection: "none".to_string(),
                },
            )
        })
        .collect();

    let spec = composite_panel_spec("cloud_cover_levels")
        .expect("cloud-cover recipe should be a composite panel")
        .scaled_for_output(request.output_width, request.output_height, &scaled);
    let prepared = plan_projected_maps(
        &request,
        &planned,
        &[Some((spec.panel_width, spec.panel_height))],
        &components,
        &extracted,
        &[],
    );
    let sample_selector = projected_sample_selector(planned[0].recipe, &components)
        .expect("composite panel should expose a selector");
    let sample_field = &extracted
        .iter()
        .find(|(selector, _)| *selector == sample_selector)
        .expect("sample selector should have an extracted field")
        .1;

    let key = projected_map_cache_key(
        spec.panel_width,
        spec.panel_height,
        visual_mode_cache_key(ProductVisualMode::PanelMember),
        sample_field,
    );
    assert!(prepared.iter().any(|map| map.key.same(&key)));
    assert_eq!((spec.panel_width, spec.panel_height, spec.top_padding), (420, 320, 64));
}

#[test]
fn panels_scale_with_the_output() {
    let spec = composite_panel_spec("precipitation_type")
        .unwrap()
        .scaled_for_output(800, 450, &scaled);
    assert_eq!((spec.rows, spec.columns), (2, 2));
    assert_eq!((spec.panel_width, spec.panel_height, spec.top_padding), (300, 208, 35));
    assert_eq!(spec.component_slugs.len(), 4);
    assert!(composite_panel_spec("2m_temperature").is_none());
}

#[test]
fn periodic_global_crop_wraps_regional_domains_across_greenwich() {
    let grid = periodic_global_grid();
    let hits = marks(&grid, (-12.0, 12.0, -2.0, 2.0));

    let crop = crop_for_direct_grid(&hits, 36, 3, 1, true, true)
        .expect("regional Greenwich crop should trim the periodic axis");

    assert_eq!(
        crop,
        DirectGridCrop::Wrapped {
            x_start: 34,
            x_end: 3,
            y_start: 0,
            y_end: 3,
        }
    );

    let lon_deg = crop_values_for_direct(&grid.1, 36, 3, crop);
    assert_eq!(crop.width(36), 5);
    assert_eq!(crop.height(), 3);
    assert_eq!(&lon_deg[0..5], &[340.0, 350.0, 0.0, 10.0, 20.0]);
}

#[test]
fn periodic_global_direct_crop_normalizes_longitudes_near_domain_center() {
    let grid = periodic_global_grid();
    let bounds = (-12.0, 12.0, -2.0, 2.0);
    let values: Vec<f32> = (0..36 * 3).map(|value| value as f32).collect();
    let crop = crop_for_direct_grid(&marks(&grid, bounds), 36, 3, 1, true, true).unwrap();
    let normalizes = should_normalize_periodic_direct_crop_longitudes(
        true,
        lon_span(bounds) < 359.0,
        rectilinear(&grid.0, &grid.1),
    );
    let center = 0.0_f64;
    let recenter = |lon: f32| {
        let mut value = lon as f64;
        while value - center > 180.0 {
            value -= 360.0;
        }
        while value - center < -180.0 {
            value += 360.0;
        }
        value as f32
    };

    let cropped = crop_selected_field(
        &grid.0, &grid.1, &values, 36, 3, crop, normalizes, &recenter,
    );

    assert_eq!(cropped.nx, 5);
    assert_eq!(cropped.ny, 3);
    assert_eq!(&cropped.lon_deg[0..5], &[-20.0, -10.0, 0.0, 10.0, 20.0]);
    assert_eq!(&cropped.values[0..5], &[34.0, 35.0, 0.0, 1.0, 2.0]);
}

#[test]
fn hit_columns_are_cut_round_the_widest_gap() {
    let hits = [false, true, true, false, false, false, false, false];
    assert_eq!(
        circular_crop_for_hit_columns(&hits, 0, 2, 1),
        Some(DirectGridCrop::Contiguous(GridCrop {
            x_start: 0,
            x_end: 4,
            y_start: 0,
            y_end: 2,
        }))
    );
    assert_eq!(
        circular_crop_for_hit_columns(&hits, 0, 2, 3),
        Some(DirectGridCrop::Contiguous(GridCrop {
            x_start: 0,
            x_end: 8,
            y_start: 0,
            y_end: 2,
        }))
    );
    assert_eq!(circular_crop_for_hit_columns(&[false; 4], 0, 2, 1), None);
}

#[test]
fn a_part_that_is_the_whole_grid_is_not_cut() {
    assert_eq!(crop_for_direct_grid(&[true; 6], 3, 2, 0, false, false), None);
    assert_eq!(crop_for_direct_grid(&[false; 6], 3, 2, 0, false, false), None);
    assert_eq!(
        crop_for_direct_grid(
            &[false, false, false, false, true, false, false, false, false, false, false, false],
            4,
            3,
            0,
            false,
            false,
        ),
        Some(DirectGridCrop::Contiguous(GridCrop {
            x_start: 0,
            x_end: 1,
            y_start: 1,
            y_end: 2,
        }))
    );
    assert_eq!(visible_grid_span(&[false, true, true, false], 2, 2), (2, 2));
}

#[test]
fn crop_padding_follows_settings_and_projection() {
    assert_eq!(direct_domain_crop_pad_cells_for_field(None, true, false, None), 24);
    assert_eq!(direct_domain_crop_pad_cells_for_field(Some("40"), true, false, None), 40);
    assert_eq!(direct_domain_crop_pad_cells_for_field(Some(" 40 "), true, false, None), 24);
    assert_eq!(direct_domain_crop_pad_cells_for_field(None, false, false, Some(5)), 128);
    assert_eq!(direct_domain_crop_pad_cells_for_field(None, true, false, Some(5)), 12);
    assert_eq!(direct_domain_crop_pad_cells_for_field(None, true, false, Some(500)), 96);
    assert_eq!(direct_domain_crop_pad_cells_for_field(None, true, true, Some(500)), 128);
    assert_eq!(inverse_raster_crop_pad_cells(Some("7")), 7);
    let cut: FieldCut = field_cut(3, 9, true, false);
    assert_eq!(cut.pad_cells, 9);
    assert!(!cut.preserve_full_longitude_axis);
    assert_eq!(field_cut(3, 9, false, true).pad_cells, 3);
}

#[test]
fn streamline_auto_mode_disables_regular_latlon_grids() {
    let grid = periodic_global_grid();
    assert!(!streamlines_enabled_for_grid(
        StreamlineSetting::Auto,
        rectilinear(&grid.0, &grid.1)
    ));
    assert!(streamlines_enabled_for_grid(
        StreamlineSetting::Enabled,
        rectilinear(&grid.0, &grid.1)
    ));
}

#[test]
fn inverse_raster_latlon_maps_clip_regional_bounds() {
    let bounds = (110.0, 180.0, -50.0, 0.0);
    let grid = regular_geographic_grid_3x3();
    let inverse = inverse_raster_projection(
        NativeProjection::Geographic,
        rectilinear(&grid.0, &grid.1),
        traits_of(bounds),
        projection_presentation_variant(None),
        None,
    )
    .expect("regional regular lat/lon maps should use inverse raster");

    assert!(inverse.clips_bounds);
    assert!(inverse.centers_longitude);
}

#[test]
fn inverse_raster_requires_rectilinear_geographic_mesh() {
    let grid = skewed_geographic_grid_3x3();

    let inverse = inverse_raster_projection(
        NativeProjection::Geographic,
        rectilinear(&grid.0, &grid.1),
        traits_of(CONUS),
        projection_presentation_variant(None),
        None,
    );

    assert!(
        inverse.is_none(),
        "rotated or curvilinear grids tagged geographic must not use regular-axis inverse raster"
    );
}

#[test]
fn inverse_raster_does_not_geo_clip_projected_conus_frames() {
    let inverse = inverse_raster_projection(
        NativeProjection::Geographic,
        true,
        traits_of(CONUS),
        ProjectionPresentationVariant::PivotalLambert,
        None,
    )
    .expect("a regular mesh is drawn by inverse raster");
    assert_eq!(inverse.projection, PresentationProjection::LambertConus);
    assert!(!inverse.clips_bounds);
}

#[test]
fn broad_native_projected_grids_use_full_domain_frame_by_default() {
    let conus_bounds = traits_of(CONUS);
    let local_bounds = traits_of((-124.0, -122.0, 44.5, 46.0));

    assert!(full_domain_projected_frame_default(
        NativeProjection::Projected,
        conus_bounds
    ));
    assert!(!full_domain_projected_frame_default(
        NativeProjection::Projected,
        local_bounds
    ));
    assert!(!full_domain_projected_frame_default(
        NativeProjection::Geographic,
        conus_bounds,
    ));
    assert!(!full_domain_projected_frame_default(
        NativeProjection::Unknown,
        conus_bounds
    ));
}

#[test]
fn frame_settings_override_the_default() {
    let conus = traits_of(CONUS);
    let framed = |setting| {
        full_domain_projected_frame_enabled(setting, NativeProjection::Projected, conus)
    };
    assert!(framed(None));
    assert!(framed(Some(" AUTO ")));
    assert!(framed(Some("native_domain")));
    assert!(!framed(Some("Requested")));
    assert!(!framed(Some("map-bounds")));
    assert!(framed(Some("yes")));
    assert!(!framed(Some("perhaps")));
}

fn presented(
    bounds: (f64, f64, f64, f64),
    variant: ProjectionPresentationVariant,
) -> PresentationProjection {
    presentation_projection_for_bounds(NativeProjection::Geographic, traits_of(bounds), variant)
}

#[test]
fn pivotal_lambert_variant_uses_fixed_conus_projection_for_geographic_grids() {
    let bounds = (-127.0, -66.0, 23.0, 51.5);
    let projection = presented(bounds, ProjectionPresentationVariant::PivotalLambert);
    assert_eq!(
        fixed_projection(projection),
        Some(FixedProjection::LambertConformal {
            standard_parallel_1: 330,
            standard_parallel_2: 450,
            central_meridian_west: 960,
        })
    );
    assert_eq!(
        reference_latitude_for_projection(NativeProjection::Geographic, traits_of(bounds)),
        Some(39)
    );
}

#[test]
fn pivotal_lambert_variant_keeps_global_geographic_grids_on_robinson() {
    let bounds = (-180.0, 179.999, -90.0, 90.0);
    assert_eq!(
        presented(bounds, ProjectionPresentationVariant::PivotalLambert),
        PresentationProjection::Robinson
    );
    assert_eq!(
        reference_latitude_for_projection(NativeProjection::Geographic, traits_of(bounds)),
        None
    );
}

#[test]
fn albers_variant_uses_conus_equal_area_regionally_and_robinson_globally() {
    let conus_bounds = (-127.0, -66.0, 23.0, 51.5);
    let conus_projection = presented(conus_bounds, ProjectionPresentationVariant::AlbersEqualArea);
    assert_eq!(
        fixed_projection(conus_projection),
        Some(FixedProjection::AlbersEqualArea {
            standard_parallel_1: 295,
            standard_parallel_2: 455,
            central_meridian_west: 960,
            latitude_of_origin: 230,
        })
    );
    assert_eq!(
        presented(
            (-180.0, 179.999, -90.0, 90.0),
            ProjectionPresentationVariant::AlbersEqualArea
        ),
        PresentationProjection::Robinson
    );
}

#[test]
fn mercator_variant_uses_mercator_regionally_and_robinson_globally() {
    let conus_bounds = (-127.0, -66.0, 23.0, 51.5);
    assert_eq!(
        presented(conus_bounds, ProjectionPresentationVariant::Mercator),
        PresentationProjection::Mercator
    );
    assert_eq!(
        presented((-180.0, 179.999, -90.0, 90.0), ProjectionPresentationVariant::Mercator),
        PresentationProjection::Robinson
    );
}

#[test]
fn rectangular_variant_uses_geographic_regionally_and_robinson_globally() {
    let europe_bounds = (-25.0, 45.0, 34.0, 72.0);
    assert_eq!(
        presented(europe_bounds, ProjectionPresentationVariant::RectangularGeographic),
        PresentationProjection::Geographic
    );
    assert_eq!(
        presented(
            (-180.0, 179.999, -90.0, 90.0),
            ProjectionPresentationVariant::RectangularGeographic
        ),
        PresentationProjection::Robinson
    );
}

#[test]
fn adaptive_geographic_regions_use_presentation_projections() {
    let adaptive = ProjectionPresentationVariant::Adaptive;
    assert_eq!(
        presented((-180.0, 179.999, -90.0, 90.0), adaptive),
        PresentationProjection::Robinson
    );
    assert_eq!(
        presented((-127.0, -66.0, 23.0, 51.5), adaptive),
        PresentationProjection::LambertRegional
    );
    assert_eq!(
        presented((-25.0, 45.0, 34.0, 72.0), adaptive),
        PresentationProjection::LambertRegional
    );
    let north_america_projection = presented((-170.0, -50.0, 5.0, 84.0), adaptive);
    assert_eq!(
        fixed_projection(north_america_projection),
        Some(FixedProjection::LambertConformal {
            standard_parallel_1: 250,
            standard_parallel_2: 600,
            central_meridian_west: 1000,
        })
    );
    assert_eq!(
        presented((-180.0, 179.999, -90.0, -60.0), adaptive),
        PresentationProjection::PolarSouth
    );
}

#[test]
fn projected_grids_keep_their_own_projection() {
    let adaptive = ProjectionPresentationVariant::Adaptive;
    let native =
        presentation_projection_for_bounds(NativeProjection::Projected, traits_of(CONUS), adaptive);
    assert_eq!(native, PresentationProjection::Native);
    assert_eq!(fixed_projection(native), None);
    assert!(stretches_frame(PresentationProjection::Geographic, traits_of(EUROPE)));
    assert!(!stretches_frame(PresentationProjection::Mercator, traits_of(EUROPE)));
}

#[test]
fn projection_settings_are_read_loosely() {
    assert_eq!(
        projection_presentation_variant(Some(" Pivotal-Lambert ")),
        ProjectionPresentationVariant::PivotalLambert
    );
    assert_eq!(
        projection_presentation_variant(Some("PLATE_CARREE")),
        ProjectionPresentationVariant::RectangularGeographic
    );
    assert_eq!(
        projection_presentation_variant(Some("web_mercator")),
        ProjectionPresentationVariant::Mercator
    );
    assert_eq!(
        projection_presentation_variant(Some("aea")),
        ProjectionPresentationVariant::AlbersEqualArea
    );
    assert_eq!(
        projection_presentation_variant(Some("atlas")),
        ProjectionPresentationVariant::Robinson
    );
    assert_eq!(
        projection_presentation_variant(Some("something")),
        ProjectionPresentationVariant::Adaptive
    );
}

#[test]
fn land_and_padding_follow_the_scale() {
    assert_eq!(basemap_detail_for_bounds(traits_of(GLOBE)), BasemapDetail::Global);
    assert_eq!(basemap_detail_for_bounds(traits_of(NORTH_AMERICA)), BasemapDetail::Broad);
    assert_eq!(basemap_detail_for_bounds(traits_of(CONUS)), BasemapDetail::Regional);
    assert_eq!(presentation_pad_thousandths(traits_of(GLOBE)), 60);
    assert_eq!(presentation_pad_thousandths(traits_of(NORTH_AMERICA)), 45);
    assert_eq!(presentation_pad_thousandths(traits_of(CONUS)), 25);
}

fn convert(convert: UnitConvert, value: f32) -> f32 {
    match convert {
        UnitConvert::Keep => value,
        UnitConvert::KelvinToCelsius => value - 273.15,
        UnitConvert::KelvinToFahrenheit => (value - 273.15) * 9.0 / 5.0 + 32.0,
        UnitConvert::KgM2ToMgM2 => value * 1.0e6,
        UnitConvert::KgM3ToUgM3 => value * 1.0e9,
        UnitConvert::MetersToMiles => value / 1609.344,
        UnitConvert::MmToInches => value / 25.4,
        UnitConvert::MsToKnots => value * 1.943_844_5,
        UnitConvert::PaToHpa => value / 100.0,
        UnitConvert::PerSecondToE5PerSecond => value * 1.0e5,
    }
}

fn converted(
    slug: &str,
    style: RenderStyle,
    selector: FieldSelector,
    units: &str,
    value: f32,
) -> RenderField<f32> {
    let recipe = recipe(slug, style, Some(selector));
    convert_filled_field(&recipe, selector, slug, units, &[value; 4], &convert)
}

#[test]
fn convert_filled_field_applies_operational_unit_transforms() {
    let converted_pressure = converted(
        "mslp_10m_winds",
        RenderStyle::Other(1),
        FieldSelector::mean_sea_level(CanonicalField::PressureReducedToMeanSeaLevel),
        "Pa",
        100000.0,
    );
    assert_eq!(converted_pressure.units, "hPa");
    assert_eq!(converted_pressure.values[0], 1000.0);

    let converted_pwat = converted(
        "precipitable_water",
        RenderStyle::Other(1),
        FieldSelector::entire_atmosphere(CanonicalField::PrecipitableWater),
        "kg/m^2",
        25.4,
    );
    assert_eq!(converted_pwat.units, "in");
    assert!((converted_pwat.values[0] - 1.0).abs() < 1.0e-6);

    let converted_vis = converted(
        "visibility",
        RenderStyle::Other(1),
        FieldSelector::surface(CanonicalField::Visibility),
        "m",
        1609.344,
    );
    assert_eq!(converted_vis.units, "mi");
    assert!((converted_vis.values[0] - 1.0).abs() < 1.0e-4);

    let converted_vort = converted(
        "500mb_absolute_vorticity_height_winds",
        RenderStyle::Other(1),
        FieldSelector::isobaric(CanonicalField::AbsoluteVorticity, 500),
        "s^-1",
        0.0002,
    );
    assert_eq!(converted_vort.units, "10^-5 s^-1");
    assert!((converted_vort.values[0] - 20.0).abs() < 1.0e-5);

    let converted_temp = converted(
        "2m_temperature",
        RenderStyle::WeatherTemperature,
        FieldSelector::height_agl(TEMPERATURE, 2),
        "K",
        273.15,
    );
    assert_eq!(converted_temp.units, "degF");
    assert!((converted_temp.values[0] - 32.0).abs() < 1.0e-5);

    let converted_upper_temp = converted(
        "500mb_temperature_height_winds",
        RenderStyle::WeatherTemperature,
        FieldSelector::isobaric(TEMPERATURE, 500),
        "K",
        253.15,
    );
    assert_eq!(converted_upper_temp.units, "degC");
    assert!((converted_upper_temp.values[0] + 20.0).abs() < 1.0e-5);

    let mut wind_speed = FieldSelector::height_agl(CanonicalField::WindSpeed, 10);
    wind_speed.product = FieldProduct::Percentile(50);
    let converted_wind_speed = converted(
        "nbm_qmd_10m_wind_speed_p50",
        RenderStyle::Other(1),
        wind_speed,
        "m/s",
        10.0,
    );
    assert_eq!(converted_wind_speed.units, "kt");
    assert!((converted_wind_speed.values[0] - 19.438_445).abs() < 1.0e-5);
}

#[test]
fn smoke_is_shown_in_small_units() {
    let density = converted(
        "smoke",
        RenderStyle::Other(1),
        FieldSelector::height_agl(CanonicalField::SmokeMassDensity, 8),
        "kg/m^3",
        1.0e-9,
    );
    assert_eq!(density.units, "ug/m^3");
    let column = converted(
        "smoke_column",
        RenderStyle::Other(1),
        FieldSelector::entire_atmosphere(CanonicalField::ColumnIntegratedSmoke),
        "kg/m^2",
        1.0e-6,
    );
    assert_eq!(column.units, "mg/m^2");
    let other = converted(
        "anything",
        RenderStyle::Other(1),
        FieldSelector::surface(CanonicalField::Other(40)),
        "1",
        3.0,
    );
    assert_eq!(other.units, "1");
    assert_eq!(other.values, vec![3.0; 4]);
}

#[test]
fn overlay_only_rule_only_catches_height_products() {
    assert!(should_render_overlay_only(
        FieldSelector::isobaric(CanonicalField::GeopotentialHeight, 500),
        false
    ));
    assert!(!should_render_overlay_only(
        FieldSelector::mean_sea_level(CanonicalField::PressureReducedToMeanSeaLevel),
        false
    ));
    assert!(!should_render_overlay_only(
        FieldSelector::isobaric(TEMPERATURE, 500),
        true
    ));
    assert!(!should_render_overlay_only(
        FieldSelector::surface(CanonicalField::Visibility),
        false
    ));
}

#[test]
fn height_winds_fill_uses_derived_wind_speed_in_knots() {
    let filled = FieldSelector::isobaric(CanonicalField::GeopotentialHeight, 500);
    let u = FieldSelector::isobaric(U_WIND, 500);
    let v = FieldSelector::isobaric(V_WIND, 500);
    let mut recipe = recipe("500mb_height_winds", RenderStyle::WeatherHeight, Some(filled));
    recipe.barbs_u = Some(Some(u));
    recipe.barbs_v = Some(Some(v));
    let extracted: Vec<(FieldSelector, Vec<f64>)> = vec![
        (filled, vec![540.0, 543.0, 546.0, 549.0]),
        (u, vec![10.0, 0.0, 3.0, 4.0]),
        (v, vec![0.0, 10.0, 4.0, 3.0]),
    ];
    let (u_at, v_at) = companion_wind_fields(&recipe, filled, &extracted).unwrap();
    assert_eq!((u_at, v_at), (1, 2));

    let speed = |u: f64, v: f64| (u * u + v * v).sqrt() * 1.943_844_5;
    let render_field =
        companion_wind_speed_fill(&recipe, &extracted[u_at].1, &extracted[v_at].1, &speed);

    assert_eq!(render_field.units, "kt");
    assert_eq!(render_field.product, "500mb_height_winds_wind_speed");
    assert!((render_field.values[0] - 19.438_445).abs() < 0.01);
    assert!((render_field.values[1] - 19.438_445).abs() < 0.01);
    assert!((render_field.values[2] - 9.719_223).abs() < 0.01);
    assert!((render_field.values[3] - 9.719_223).abs() < 0.01);
}

#[test]
fn aifs_inference_direct_policy_uses_interpolated_raster_sampling() {
    let mode = RasterSampleMode::Linear;
    assert_eq!(mode, RasterSampleMode::Linear);

    let applied = apply_source_raster_policy(SourceId::AifsInference, mode);

    assert_eq!(applied, RasterSampleMode::Linear);
}

#[test]
fn colour_bars_and_styles_follow_the_recipe() {
    let dewpoint = FieldSelector::height_agl(CanonicalField::Other(9), 2);
    let recipe_dewpoint = recipe("2m_dewpoint", RenderStyle::WeatherDewpoint, Some(dewpoint));
    let controls = direct_recipe_render_controls(&recipe_dewpoint, dewpoint);
    assert_eq!(controls.legend_mode, Some(LegendMode::Stepped));
    assert_eq!(controls.tick_step, Some(10));
    let severe = recipe("sbcape", RenderStyle::Other(1), None);
    assert_eq!(
        visual_mode_for_direct_recipe(&severe, FieldSelector::surface(TEMPERATURE), false),
        ProductVisualMode::SevereDiagnostic
    );
    assert_eq!(
        visual_mode_for_direct_recipe(&severe, FieldSelector::surface(TEMPERATURE), true),
        ProductVisualMode::OverlayAnalysis
    );
}

#[test]
fn drawing_modes_are_found_back_by_their_number() {
    for mode in [
        ProductVisualMode::FilledMeteorology,
        ProductVisualMode::UpperAirAnalysis,
        ProductVisualMode::OverlayAnalysis,
        ProductVisualMode::SevereDiagnostic,
        ProductVisualMode::PanelMember,
        ProductVisualMode::ComparisonPanel,
    ] {
        assert_eq!(visual_mode_for_key(visual_mode_cache_key(mode)), mode);
    }
}

#[test]
fn a_map_comes_from_the_first_place_that_has_it() {
    let shape = FieldShape {
        nx: 2,
        ny: 2,
        projection: "none".to_string(),
    };
    let key = projected_map_cache_key(1600, 900, 0, &shape);
    let same = projected_map_cache_key(1600, 900, 0, &shape);
    let other = projected_map_cache_key(800, 450, 0, &shape);
    assert_eq!(projected_source(true, &[], &[], &key), ProjectedSource::Shared);
    let prepared = [other, same];
    assert_eq!(
        projected_source(false, &prepared, &[], &key),
        ProjectedSource::Prepared(1)
    );
    assert_eq!(
        projected_source(false, &[], &prepared, &key),
        ProjectedSource::Cached(1)
    );
    assert_eq!(projected_source(false, &[], &[], &key), ProjectedSource::Build);
}

#[test]
fn masks_grow_by_one_cell_and_keep_their_marks() {
    let mask = [
        false, false, false, false, //
        false, true, false, false, //
        false, false, false, false,
    ];
    let wider = dilate_mask(&mask, 4, 3);
    assert_eq!(
        wider,
        vec![
            true, true, true, false, //
            true, true, true, false, //
            true, true, true, false,
        ]
    );
    let mut values: Vec<i32> = (0..12).collect();
    apply_below_ground_mask(&mask, &mut values, -1);
    assert_eq!(values[5], -1);
    assert_eq!(values[6], 6);
}

#[test]
fn marked_runs_of_cells_become_rings() {
    let below = [true, true, true, true, false, false];
    let finite = [true; 6];
    let rings = masked_cell_rings(&below, 2, 3, &finite);
    assert!(!rings.is_empty());
    for ring in &rings {
        for at in ring {
            assert!(*at < 6);
        }
    }
    assert!(below_ground_mask(&[false; 6], 2, 3, 6, 6, &finite).is_none());
}

#[test]
fn contours_are_smoothed_pass_by_pass() {
    let values = [0.0, 0.0, 0.0, 0.0, 9.0, 0.0, 0.0, 0.0, 0.0];
    let mean = |window: Vec<f64>| window.iter().sum::<f64>() / window.len() as f64;
    assert_eq!(smooth_contour_values(&values, 3, 3, 0, &mean), values.to_vec());
    let once = smooth_contour_values(&values, 3, 3, 1, &mean);
    assert_eq!(once.len(), 9);
    assert_eq!(once[4], 1.0);
}

#[test]
fn recipes_are_drawn_in_portions() {
    assert_eq!(render_chunks(5, 2), vec![(0, 2), (2, 4), (4, 5)]);
    assert!(render_chunks(0, 2).is_empty());
    assert_eq!(direct_render_chunk_size(Some("3")), 3);
    assert_eq!(direct_render_chunk_size(Some("0")), 16);
    assert_eq!(direct_render_chunk_size(None), 16);
    let lookups = vec![
        lookup(
            recipe(
                "2m_temperature",
                RenderStyle::WeatherTemperature,
                Some(FieldSelector::height_agl(TEMPERATURE, 2)),
            ),
            vec![FieldSelector::height_agl(TEMPERATURE, 2)],
        ),
        lookup(
            recipe(
                "10m_winds",
                RenderStyle::Other(1),
                Some(FieldSelector::height_agl(U_WIND, 10)),
            ),
            vec![
                FieldSelector::height_agl(U_WIND, 10),
                FieldSelector::height_agl(TEMPERATURE, 2),
            ],
        ),
    ];
    let planned = plan_direct_recipes("HRRR", &lookups).unwrap();
    assert_eq!(
        selectors_to_load(&planned),
        vec![
            FieldSelector::height_agl(TEMPERATURE, 2),
            FieldSelector::height_agl(U_WIND, 10),
        ]
    );
    let extracted = vec![(FieldSelector::height_agl(U_WIND, 10), 0u8)];
    assert_eq!(bounds_recipe_of_fields(&planned, &extracted), Some((1, 0)));
    assert_eq!(
        bounds_recipe_of_plan(&planned),
        Some((0, FieldSelector::height_agl(TEMPERATURE, 2)))
    );
    assert_eq!(
        missing_selected_fields(&planned, &extracted),
        vec![FieldSelector::height_agl(TEMPERATURE, 2)]
    );
}

#[test]
fn every_portion_is_let_through_before_it_loads() {
    let t2 = FieldSelector::height_agl(TEMPERATURE, 2);
    let u10 = FieldSelector::height_agl(U_WIND, 10);
    let one = |slug: &str, selector| {
        lookup(recipe(slug, RenderStyle::Other(1), Some(selector)), vec![selector])
    };
    let lookups = vec![one("a", t2), one("b", u10), one("c", t2)];
    let planned = plan_direct_recipes("HRRR", &lookups).unwrap();
    let script = chunk_script(&planned, 2, true);
    assert_eq!(
        script,
        vec![
            ChunkAction::LoadBounds {
                recipe_at: 0,
                selector: t2
            },
            ChunkAction::Gate,
            ChunkAction::Load { selector: t2 },
            ChunkAction::Load { selector: u10 },
            ChunkAction::Draw { from: 0, to: 2 },
            ChunkAction::Gate,
            ChunkAction::Load { selector: t2 },
            ChunkAction::Draw { from: 2, to: 3 },
        ]
    );
    let ungated = chunk_script(&planned, 2, false);
    assert!(!ungated.contains(&ChunkAction::Gate));
    assert!(chunk_script(&[], 2, true).is_empty());
    assert!(matches!(
        next_chunk_step(&script, 1, None),
        ChunkStep::Do { action: ChunkAction::Gate }
    ));
    assert!(matches!(next_chunk_step(&script, 8, None), ChunkStep::Finished));
    assert!(matches!(
        next_chunk_step(&script, 3, Some("no field".to_string())),
        ChunkStep::Stopped { message } if message == "no field"
    ));
}

#[test]
fn workers_hand_back_results_in_their_places() {
    assert_eq!(
        collect_rendered(3, vec![(2, 'c'), (0, 'a'), (1, 'b')]),
        Ok(vec!['a', 'b', 'c'])
    );
    assert!(collect_rendered(2, vec![(1, 'b')]).is_err());
    let count = render_worker_count(Some("8"), Some(4), 3);
    assert!(1 <= count && count <= 3);
    assert!(worker_failure("2m_temperature", "disk full").contains("2m_temperature"));
}

#[test]
fn wind_settings_have_defaults() {
    assert_eq!(streamline_setting(None), StreamlineSetting::Auto);
    assert!(!streamlines_enabled_for_grid(StreamlineSetting::Disabled, false));
    assert!(streamlines_enabled_for_grid(StreamlineSetting::Auto, false));
    assert_eq!(barb_width(Some("2")), 2);
    assert_eq!(barb_halo_width(Some("0")), barb_halo_width(Some("0")));
    assert_eq!(pressure_contour_smoothing_passes(Some("2")), 2);
    let share = |cells: usize, target: u32| cells / target as usize;
    let strides = barb_strides((230, 140), (23, 14), &share);
    assert_eq!(strides, (10, 10));
    let thin = |stride: usize| stride * 2;
    assert_eq!(streamline_strides(strides, &thin), (20, 20));
}

#[test]
fn layers_are_kept_by_their_key() {
    let key = LayerKey::Contour {
        selector: FieldSelector::surface(TEMPERATURE),
        nx: 2,
        ny: 2,
    };
    let other = LayerKey::Contour {
        selector: FieldSelector::surface(U_WIND),
        nx: 2,
        ny: 2,
    };
    let mut cache: LayerCache<u8> = LayerCache::new();
    assert!(cache.get(key).is_none());
    cache.keep(key, 7);
    assert_eq!(cache.get(key), Some(&7));
    assert!(cache.get(other).is_none());
}
