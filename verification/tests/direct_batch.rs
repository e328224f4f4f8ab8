//! Whole batches of direct maps: what was read, what is drawn, what is reported.
use rustwx_products::derived::types::NativeContourRenderMode;
use rustwx_products::direct::batch::{
    direct_batch_report, find_fetch, prepare_direct_batch, GroupOutcome,
};
use rustwx_products::direct::fetch::{
    complete_extraction, find_loaded_bytes_for_group, group_fetch_timing, group_runtime_info,
    split_by_cache, without_cache, FetchFailure, FetchMeasurement,
};
use rustwx_products::direct::grouping::{group_direct_fetches, FetchGroup, PlotRecipeFetchMode};
use rustwx_products::direct::planning::{plan_direct_recipes, RecipeLookup};
use rustwx_products::direct::recipe::{
    CanonicalField, FetchPlan, FieldSelector, PlotRecipe, RenderStyle, SelectorBinding,
};
use rustwx_products::direct::render::{
    composite_header, direct_map_file_name, direct_rendered_recipe, direct_subtitles,
    fetch_truth_for_groups, panel_build_timing, plan_panel, DirectRequestBuildTiming,
    ImageTiming, RenderMeasurement, RenderRefusal,
};
use rustwx_products::direct::sampling::{prepare_direct_samples, sample_direct_batch};
use rustwx_products::direct::types::{
    sampling_direct_request, DirectBatchRequest, HrrrDirectBatchRequest, OUTPUT_HEIGHT,
    OUTPUT_WIDTH,
};
use rustwx_products::heavy::DomainSpec;
use rustwx_products::model::{ModelId, ProductSourceRoute, SourceId};

const TEMPERATURE: CanonicalField = CanonicalField::Other(1);
const LOW_CLOUD_COVER: CanonicalField = CanonicalField::Other(6);

fn request() -> DirectBatchRequest<u8, u8> {
    DirectBatchRequest::from_hrrr_for_planner(HrrrDirectBatchRequest {
        date_yyyymmdd: "20260414".to_string(),
        cycle_override_utc: Some(23),
        forecast_hour: 6,
        source: SourceId::Aws,
        domain: DomainSpec {
            slug: "midwest".to_string(),
            bounds: 0,
        },
        use_cache: false,
        recipe_slugs: vec!["2m_temperature".to_string()],
        contour_mode: NativeContourRenderMode::Automatic,
        native_fill_level_multiplier: 1,
        output_width: OUTPUT_WIDTH,
        output_height: OUTPUT_HEIGHT,
        place_label_overlay: None,
    })
}

fn t2() -> FieldSelector {
    FieldSelector::height_agl(TEMPERATURE, 2)
}

fn t500() -> FieldSelector {
    FieldSelector::isobaric(TEMPERATURE, 500)
}

fn recipe(slug: &str, filled: Option<FieldSelector>) -> PlotRecipe {
    PlotRecipe {
        slug: slug.to_string(),
        title: format!("Title of {slug}"),
        style: RenderStyle::WeatherTemperature,
        filled: filled.map(|selector| SelectorBinding {
            selector,
            key: format!("{slug}_key"),
        }),
        contours: None,
        barbs_u: None,
        barbs_v: None,
    }
}

fn lookup(slug: &str, product: &str, selector: FieldSelector) -> RecipeLookup {
    RecipeLookup {
        slug: slug.to_string(),
        recipe: Some(recipe(slug, Some(selector))),
        plan: Ok(FetchPlan {
            product: product.to_string(),
            selectors: vec![selector],
            variable_patterns: Vec::new(),
        }),
    }
}

fn lookups() -> Vec<RecipeLookup> {
    vec![
        lookup("2m_temperature", "sfc", t2()),
        lookup("500mb_temperature", "prs", t500()),
    ]
}

fn read(selector: FieldSelector, value: u8) -> GroupOutcome<u8, &'static str> {
    GroupOutcome::Read {
        fields: vec![(selector, value)],
        unmatched: Vec::new(),
        info: "fetched",
    }
}

fn position(groups: &[FetchGroup], product: &str) -> usize {
    groups.iter().position(|group| group.product == product).unwrap()
}

#[test]
fn a_group_that_fails_blocks_only_its_recipes() {
    let lookups = lookups();
    let planned = plan_direct_recipes("HRRR", &lookups).unwrap();
    let groups = group_direct_fetches(&request(), &planned);
    let outcomes = groups
        .iter()
        .map(|group| {
            if group.product == "prs" {
                GroupOutcome::NotLoaded {
                    reason: "no such file".to_string(),
                }
            } else {
                read(t2(), 7)
            }
        })
        .collect();
    let batch = prepare_direct_batch(&planned, &[], &groups, outcomes);
    assert_eq!(batch.renderable.len(), 1);
    assert_eq!(batch.renderable[0].recipe.slug, "2m_temperature");
    assert_eq!(batch.extracted, vec![(t2(), 7)]);
    assert_eq!(batch.missing, vec![t500()]);
    assert_eq!(batch.blockers[0].recipe_slug, "500mb_temperature");
    assert_eq!(batch.blockers[0].reason, "no such file");
    assert_eq!(find_fetch(&batch.fetches, "sfc"), Some(&"fetched"));
    assert_eq!(find_fetch(&batch.fetches, "prs"), None);
}

#[test]
fn a_file_that_cannot_be_read_ends_a_sampling_run() {
    let lookups = lookups();
    let planned = plan_direct_recipes("HRRR", &lookups).unwrap();
    let groups = group_direct_fetches(&request(), &planned);
    let outcomes: Vec<GroupOutcome<u8, u8>> = groups
        .iter()
        .map(|_| GroupOutcome::NotRead {
            reason: "bad bytes".to_string(),
        })
        .collect();
    assert_eq!(
        prepare_direct_samples(&planned, &[], &groups, outcomes).err(),
        Some("bad bytes".to_string())
    );
}

#[test]
fn drawable_recipes_are_sampled() {
    let lookups = lookups();
    let planned = plan_direct_recipes("HRRR", &lookups).unwrap();
    let sampling: DirectBatchRequest<u8, u8> =
        sampling_direct_request(ModelId::Hrrr, SourceId::Aws, 6, true, 0u8);
    assert_eq!(sampling.domain.slug, "sampling");
    let groups = group_direct_fetches(&sampling, &planned);
    let outcomes = groups
        .iter()
        .map(|group| {
            if group.product == "prs" {
                read(t500(), 5)
            } else {
                read(t2(), 2)
            }
        })
        .collect();
    let batch = prepare_direct_samples(&planned, &[], &groups, outcomes).ok().unwrap();
    let extracted = batch.extracted.clone();
    let set = sample_direct_batch(&sampling, batch);
    assert_eq!(set.fields.len(), 2);
    assert!(set.blockers.is_empty());
    for field in &set.fields {
        assert_eq!(extracted[field.field_at].0, field.field_selector);
        assert!(field.fetched);
    }
}

#[test]
fn loaded_files_are_found_by_their_family() {
    let loaded = ["sfc".to_string(), "prs".to_string()];
    assert_eq!(find_loaded_bytes_for_group(&loaded, &[], "prs"), Ok(1));
    let failures = [FetchFailure {
        product: "nat".to_string(),
        source: "aws".to_string(),
        reason: "not found".to_string(),
    }];
    assert_eq!(
        find_loaded_bytes_for_group(&loaded, &failures, "nat"),
        Err("direct fetch failed for canonical family 'nat' from aws: not found".to_string())
    );
    assert_eq!(
        find_loaded_bytes_for_group(&loaded, &failures, "subh"),
        Err("direct planner missed fetch for canonical family 'subh'".to_string())
    );
}

#[test]
fn cached_fields_are_not_read_again() {
    let fields = split_by_cache(&[t2(), t500()], vec![Some('a'), None]);
    assert_eq!(fields.extracted, vec!['a']);
    assert_eq!(fields.missing, vec![t500()]);
    let extraction = complete_extraction(fields, vec!['b'], Vec::new());
    assert_eq!(extraction.extracted, vec!['a', 'b']);
    assert_eq!(extraction.extract_cache_hits, 1);
    assert_eq!(extraction.extract_cache_misses, 1);
    let fields = without_cache::<char>(&[t2()]);
    assert_eq!(fields.missing, vec![t2()]);
    let extraction = complete_extraction(fields, Vec::new(), vec![t2()]);
    assert_eq!(extraction.extract_cache_misses, 0);
    assert_eq!(extraction.unmatched, vec![t2()]);

    let group = FetchGroup {
        product: "sfc".to_string(),
        fetch_mode: PlotRecipeFetchMode::WholeFileStructuredExtract,
        variable_patterns: Vec::new(),
        selectors: vec![t2()],
        planned_family_aliases: vec!["nat".to_string()],
    };
    let info = group_runtime_info(&group, "key", "sfc", None, SourceId::Aws, "url");
    assert_eq!(info.requested_source, SourceId::Aws);
    let measured = FetchMeasurement {
        fetch_ms: 1,
        parse_ms: 2,
        extract_ms: 3,
        total_ms: 6,
        fetch_cache_hit: true,
    };
    let timing = group_fetch_timing(&group, &extraction, measured, info);
    assert_eq!(timing.product, "sfc");
    assert_eq!(timing.total_ms, 6);
    assert_eq!(timing.runtime_fetch.planned_family_aliases, vec!["nat".to_string()]);
}

#[test]
fn panels_are_drawn_from_their_components() {
    let low = FieldSelector::entire_atmosphere(LOW_CLOUD_COVER);
    let components = vec![recipe("low_cloud_cover", Some(low)), recipe("high_cloud_cover", None)];
    let extracted = vec![(low, 0u8)];
    let panel = plan_panel("low_cloud_cover", &components, &extracted).ok().unwrap();
    assert_eq!(panel.recipe.slug, "low_cloud_cover");
    assert_eq!(panel.field_at, 0);
    assert!(matches!(
        plan_panel("middle_cloud_cover", &components, &extracted).err(),
        Some(RenderRefusal::NoComponent { .. })
    ));
    assert!(matches!(
        plan_panel("high_cloud_cover", &components, &extracted).err(),
        Some(RenderRefusal::ComponentUnbound)
    ));
    let none: Vec<(FieldSelector, u8)> = Vec::new();
    let refusal = plan_panel("low_cloud_cover", &components, &none).err().unwrap();
    assert!(matches!(refusal, RenderRefusal::ComponentNotRead { selector } if selector == low));
    assert!(!refusal.message("LCDC").is_empty());
}

#[test]
fn maps_and_subtitles_are_named() {
    let mut request = request();
    assert_eq!(
        direct_map_file_name(&request, "hrrr", 23, "2m_temperature"),
        "rustwx_hrrr_20260414_23z_f006_midwest_2m_temperature.png"
    );
    assert_eq!(
        direct_subtitles(&request, "run", "source"),
        ("run".to_string(), "source".to_string())
    );
    request.output_suffix = Some("a b".to_string());
    request.subtitle_left_override = Some("left".to_string());
    assert!(direct_map_file_name(&request, "hrrr", 23, "2m_temperature").ends_with("_a_b.png"));
    assert_eq!(direct_subtitles(&request, "run", "source").0, "left");
    let (title, _) = composite_header(&request, "HRRR", "Cloud Cover", " | v2", "run", "source");
    assert!(title.ends_with("Cloud Cover | v2"));
}

#[test]
fn times_of_panels_are_added() {
    let panel = |a, b, c| DirectRequestBuildTiming {
        field_prepare_ms: a,
        contour_prepare_ms: b,
        barb_prepare_ms: c,
    };
    assert_eq!(
        panel_build_timing(&[panel(1, 2, 3), panel(10, 20, 30)]),
        panel(11, 22, 33)
    );
    assert_eq!(panel_build_timing(&[]), DirectRequestBuildTiming::default());
}

#[test]
fn a_drawn_recipe_reports_its_fetch() {
    let lookups = lookups();
    let planned = plan_direct_recipes("HRRR", &lookups).unwrap();
    let request = request();
    let groups = group_direct_fetches(&request, &planned);
    let truth = fetch_truth_for_groups(&request, SourceId::Aws, &groups, "stored", "url", "key");
    assert_eq!(truth.len(), groups.len());
    let (product, _) = &truth[position(&groups, "sfc")];
    assert_eq!(product, "sfc");
    let measured = RenderMeasurement {
        project_ms: 1,
        build: DirectRequestBuildTiming {
            field_prepare_ms: 2,
            contour_prepare_ms: 3,
            barb_prepare_ms: 4,
        },
        request_build_ms: 5,
        render_state_prep_ms: 6,
        png_encode_ms: 7,
        file_write_ms: 8,
        total_ms: 40,
        image: ImageTiming::of_panels(9),
    };
    let rendered = direct_rendered_recipe(
        &request,
        "HRRR",
        " | v2",
        23,
        planned[0],
        &truth,
        ProductSourceRoute::NativeExact,
        'c',
        measured,
    )
    .ok()
    .unwrap();
    assert_eq!(rendered.recipe_slug, "2m_temperature");
    assert!(rendered.title.ends_with(" | v2"));
    assert_eq!(rendered.grib_product, "sfc");
    assert_eq!(rendered.fetched_grib_product, "stored");
    assert_eq!(rendered.input_fetch_keys, vec!["key".to_string()]);
    assert_eq!(rendered.timing.total_ms, 40);
    let unknown = direct_rendered_recipe(
        &request,
        "HRRR",
        " | v2",
        23,
        planned[0],
        &[],
        ProductSourceRoute::NativeExact,
        'c',
        measured,
    );
    assert!(matches!(
        unknown.err(),
        Some(RenderRefusal::UnknownFetch { product }) if product == "sfc"
    ));
    let report =
        direct_batch_report(request, 23, SourceId::Aws, vec![1u8], vec!['r'], Vec::new(), 99);
    assert_eq!(report.model, ModelId::Hrrr);
    assert_eq!(report.cycle_utc, 23);
    assert_eq!(report.recipes, vec!['r']);
    assert_eq!(report.total_ms, 99);
}
