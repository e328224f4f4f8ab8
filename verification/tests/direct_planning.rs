//! Planning, grouping and titling of direct maps.
use rustwx_products::derived::types::NativeContourRenderMode;
use rustwx_products::direct::grouping::{
    build_direct_execution_plan, canonical_fetch_product, group_direct_fetches,
    plan_direct_fetch_groups, required_direct_fetch_products, should_attach_direct_idx_patterns,
    FetchGroup, PlotRecipeFetchMode,
};
use rustwx_products::direct::planning::{
    partition_recipes_by_selector_availability, plan_direct_recipes,
    recipe_slugs_depending_on_group, supported_direct_recipe_slugs, PlanFailure, RecipeLookup,
};
use rustwx_products::direct::recipe::{
    CanonicalField, FetchPlan, FieldSelector, PlotRecipe, RenderStyle, SelectorBinding,
};
use rustwx_products::direct::titles::{
    apply_native_stat_title_prefix, direct_title_for_planned_product, native_stat_label_for_request,
    native_stat_label_from_product,
};
use rustwx_products::direct::types::{
    DirectBatchRequest, DirectFetchRuntimeInfo, OUTPUT_HEIGHT, OUTPUT_WIDTH,
};
use rustwx_products::heavy::DomainSpec;
use rustwx_products::model::{ModelId, SourceId};

type Bounds = (f64, f64, f64, f64);

const TEMPERATURE: CanonicalField = CanonicalField::Other(1);
const U_WIND: CanonicalField = CanonicalField::Other(2);
const V_WIND: CanonicalField = CanonicalField::Other(3);
const RELATIVE_HUMIDITY: CanonicalField = CanonicalField::Other(4);
const COMPOSITE_REFLECTIVITY: CanonicalField = CanonicalField::Other(5);
const LOW_CLOUD_COVER: CanonicalField = CanonicalField::Other(6);
const CATEGORICAL_SNOW: CanonicalField = CanonicalField::Other(7);
const PROBABILITY_OF_PRECIPITATION: CanonicalField = CanonicalField::Other(8);

fn sample_direct_request(model: ModelId, source: SourceId) -> DirectBatchRequest<Bounds, u8> {
    DirectBatchRequest {
        model,
        date_yyyymmdd: "20260414".to_string(),
        cycle_override_utc: Some(23),
        forecast_hour: 6,
        source,
        domain: DomainSpec {
            slug: "midwest".to_string(),
            bounds: (-105.0, -80.0, 30.0, 50.0),
        },
        use_cache: false,
        recipe_slugs: Vec::new(),
        product_overrides: Vec::new(),
        contour_mode: NativeContourRenderMode::Automatic,
        native_fill_level_multiplier: 1,
        output_width: OUTPUT_WIDTH,
        output_height: OUTPUT_HEIGHT,
        output_suffix: None,
        subtitle_left_override: None,
        subtitle_right_override: None,
        place_label_overlay: None,
    }
}

fn recipe(slug: &str, filled: Option<FieldSelector>) -> PlotRecipe {
    PlotRecipe {
        slug: slug.to_string(),
        title: slug.replace('_', " "),
        style: RenderStyle::Other(0),
        filled: filled.map(|selector| SelectorBinding {
            selector,
            key: format!("{slug}_key"),
        }),
        contours: None,
        barbs_u: None,
        barbs_v: None,
    }
}

fn lookup(
    asked: &str,
    slug: &str,
    product: &str,
    selectors: Vec<FieldSelector>,
    patterns: &[&str],
) -> RecipeLookup {
    RecipeLookup {
        slug: asked.to_string(),
        recipe: Some(recipe(slug, selectors.first().copied())),
        plan: Ok(FetchPlan {
            product: product.to_string(),
            selectors,
            variable_patterns: patterns.iter().map(|pattern| pattern.to_string()).collect(),
        }),
    }
}

/// The temperature, height and wind map of a pressure level.
fn upper_air(asked: &str, level_hpa: u16, product: &str) -> RecipeLookup {
    lookup(
        asked,
        &format!("{level_hpa}mb_temperature_height_winds"),
        product,
        vec![
            FieldSelector::isobaric(TEMPERATURE, level_hpa),
            FieldSelector::isobaric(CanonicalField::GeopotentialHeight, level_hpa),
            FieldSelector::isobaric(U_WIND, level_hpa),
            FieldSelector::isobaric(V_WIND, level_hpa),
        ],
        &[
            &format!("TMP:{level_hpa} mb"),
            &format!("HGT:{level_hpa} mb"),
            &format!("UGRD:{level_hpa} mb"),
            &format!("VGRD:{level_hpa} mb"),
        ],
    )
}

fn surface_winds() -> RecipeLookup {
    lookup(
        "2m_temperature_10m_winds",
        "2m_temperature_10m_winds",
        "sfc",
        vec![
            FieldSelector::height_agl(TEMPERATURE, 2),
            FieldSelector::height_agl(U_WIND, 10),
            FieldSelector::height_agl(V_WIND, 10),
        ],
        &["TMP:2 m above ground", "UGRD:10 m above ground"],
    )
}

fn reflectivity() -> RecipeLookup {
    lookup(
        "composite_reflectivity",
        "composite_reflectivity",
        "nat",
        vec![FieldSelector::entire_atmosphere(COMPOSITE_REFLECTIVITY)],
        &["REFC:entire atmosphere"],
    )
}

fn group(product: String, selector: FieldSelector, alias: &str, patterns: &[&str]) -> FetchGroup {
    FetchGroup {
        product,
        fetch_mode: PlotRecipeFetchMode::WholeFileStructuredExtract,
        variable_patterns: patterns.iter().map(|pattern| pattern.to_string()).collect(),
        selectors: vec![selector],
        planned_family_aliases: vec![alias.to_string()],
    }
}

/// The patterns that a fetch of a group from a source carries.
fn fetched_patterns(source: SourceId, group: &FetchGroup) -> Vec<String> {
    if should_attach_direct_idx_patterns(source) {
        group.variable_patterns.clone()
    } else {
        Vec::new()
    }
}

#[test]
fn partition_blocks_recipe_whose_filled_selector_is_missing() {
    let lookups = vec![
        lookup(
            "2m_relative_humidity",
            "2m_relative_humidity",
            "sfc",
            vec![FieldSelector::height_agl(RELATIVE_HUMIDITY, 2)],
            &[],
        ),
        lookup(
            "2m_temperature",
            "2m_temperature",
            "sfc",
            vec![FieldSelector::height_agl(TEMPERATURE, 2)],
            &[],
        ),
    ];
    let planned = plan_direct_recipes("HRRR", &lookups).unwrap();
    let missing = vec![FieldSelector::height_agl(RELATIVE_HUMIDITY, 2)];

    let (renderable, blockers) = partition_recipes_by_selector_availability(&planned, &[], &missing);
    assert_eq!(renderable.len(), 1);
    assert_eq!(renderable[0].recipe.slug, "2m_temperature");
    assert_eq!(blockers.len(), 1);
    assert_eq!(blockers[0].recipe_slug, "2m_relative_humidity");
    assert!(
        blockers[0].reason.contains("filled selector"),
        "blocker reason should mention the missing filled selector; got: {}",
        blockers[0].reason
    );
}

#[test]
fn a_composite_is_blocked_by_a_missing_component() {
    let lookups = vec![lookup(
        "cloud_cover_levels",
        "cloud_cover_levels",
        "sfc",
        vec![FieldSelector::entire_atmosphere(LOW_CLOUD_COVER)],
        &[],
    )];
    let planned = plan_direct_recipes("HRRR", &lookups).unwrap();
    let components = vec![recipe(
        "low_cloud_cover",
        Some(FieldSelector::entire_atmosphere(LOW_CLOUD_COVER)),
    )];
    let missing = vec![FieldSelector::entire_atmosphere(LOW_CLOUD_COVER)];
    let (renderable, blockers) =
        partition_recipes_by_selector_availability(&planned, &components, &missing);
    assert!(renderable.is_empty());
    assert_eq!(
        blockers[0].reason,
        "composite component 'low_cloud_cover' missing selector low_cloud_cover_key"
    );
}

#[test]
fn native_stat_product_overrides_promote_stat_to_static_titles() {
    let mut request = sample_direct_request(ModelId::Sref, SourceId::Nomads);
    request.product_overrides.push((
        "ensprod/pgrb212/mean_3hrly".to_string(),
        "ensprod/pgrb212/p50_3hrly".to_string(),
    ));

    assert_eq!(
        native_stat_label_for_request(&request, Some("ensprod/pgrb212/mean_3hrly")).as_deref(),
        Some("P50")
    );
    let title = direct_title_for_planned_product(
        &request,
        "SREF",
        "ensprod/pgrb212/mean_3hrly",
        "2m Temperature + 10m Winds",
        "",
    );
    assert!(
        title.starts_with("SREF P50 2m Temperature + 10m Winds"),
        "{title}"
    );
}

#[test]
fn native_stat_title_prefix_keeps_existing_model_prefix_first() {
    assert_eq!(
        apply_native_stat_title_prefix("SREF", "Spread", "SREF 2m Dewpoint"),
        "SREF Spread 2m Dewpoint"
    );
    assert_eq!(
        apply_native_stat_title_prefix("SREF", "Mean", "SREF Mean 2m Dewpoint"),
        "SREF Mean 2m Dewpoint"
    );
}

#[test]
fn statistics_are_named_by_the_end_of_a_product() {
    let label = |product: &str| native_stat_label_from_product(product);
    assert_eq!(label("ensprod/conus/sprd").as_deref(), Some("Spread"));
    assert_eq!(label("mean_conus").as_deref(), Some("Mean"));
    assert_eq!(label("stddev_ak").as_deref(), Some("Std Dev"));
    assert_eq!(label("pmmn_hourly").as_deref(), Some("Probability-Matched Mean"));
    assert_eq!(label("p50").as_deref(), Some("P50"));
    assert_eq!(label("p5x"), None);
    assert_eq!(label("prs"), None);
}

#[test]
fn local_wrf_netcdf_titles_omit_gdex_dataset_token() {
    let mut request = sample_direct_request(ModelId::WrfGdex, SourceId::Aws);
    request.subtitle_right_override = Some("source: local WRF NetCDF".to_string());

    let title = direct_title_for_planned_product(
        &request,
        "WRF GDEX",
        "d612005-hist2d",
        "Composite Reflectivity / UH",
        "",
    );

    assert!(title.starts_with("Composite Reflectivity / UH"), "{title}");
    assert!(!title.contains("d612005"), "{title}");
}

#[test]
fn planning_hrrr_direct_batch_dedupes_recipe_aliases() {
    let lookups = vec![
        upper_air("500mb_temperature_height_winds", 500, "prs"),
        upper_air("500mb temperature height winds", 500, "prs"),
    ];
    let planned = plan_direct_recipes("HRRR", &lookups).unwrap();
    assert_eq!(planned.len(), 1);
    assert_eq!(planned[0].recipe.slug, "500mb_temperature_height_winds");
    assert_eq!(planned[0].plan.product, "prs");
}

#[test]
fn grouping_preserves_logical_family_aliases_when_nat_reroutes_to_sfc() {
    let lookups = vec![reflectivity(), surface_winds()];
    let planned = plan_direct_recipes("HRRR", &lookups).unwrap();
    let request = sample_direct_request(ModelId::Hrrr, SourceId::Nomads);
    let groups = group_direct_fetches(&request, &planned);
    let sfc_group = groups
        .iter()
        .find(|group| group.product == "sfc")
        .expect("expected a canonical sfc fetch group");
    assert!(sfc_group.planned_family_aliases.contains(&"nat".to_string()));
    assert!(sfc_group.planned_family_aliases.contains(&"sfc".to_string()));
}

#[test]
fn grouping_keeps_shared_prs_selector_union_under_structured_fetches() {
    let lookups = vec![
        upper_air("500mb_temperature_height_winds", 500, "prs"),
        upper_air("700mb_temperature_height_winds", 700, "prs"),
    ];
    let planned = plan_direct_recipes("HRRR", &lookups).unwrap();
    let request = sample_direct_request(ModelId::Hrrr, SourceId::Nomads);
    let groups = group_direct_fetches(&request, &planned);
    assert_eq!(groups.len(), 1);
    assert_eq!(groups[0].product, "prs");
    assert_eq!(
        groups[0].fetch_mode,
        PlotRecipeFetchMode::WholeFileStructuredExtract
    );
    assert!(groups[0]
        .selectors
        .contains(&FieldSelector::isobaric(TEMPERATURE, 500)));
    assert!(groups[0]
        .selectors
        .contains(&FieldSelector::isobaric(TEMPERATURE, 700)));
    assert!(groups[0]
        .variable_patterns
        .iter()
        .any(|pattern| pattern.contains("500 mb")));
    assert!(groups[0]
        .variable_patterns
        .iter()
        .any(|pattern| pattern.contains("700 mb")));
}

#[test]
fn direct_fetch_request_strips_nomads_subset_patterns() {
    let group = group(
        "prs".to_string(),
        FieldSelector::isobaric(TEMPERATURE, 500),
        "prs",
        &["TMP:500 mb"],
    );
    let plan = build_direct_execution_plan(SourceId::Nomads, &[group]);
    assert_eq!(plan[0].product, "prs");
    assert!(plan[0].variable_patterns.is_empty());
}

#[test]
fn native_fetches_share_surface_family_file() {
    let request = sample_direct_request(ModelId::Hrrr, SourceId::Nomads);
    let group = group(
        canonical_fetch_product(&request, "nat"),
        FieldSelector::entire_atmosphere(COMPOSITE_REFLECTIVITY),
        "nat",
        &[],
    );
    let plan = build_direct_execution_plan(SourceId::Aws, &[group]);
    assert_eq!(plan[0].product, "sfc");
}

#[test]
fn smoke_fetches_stay_on_hrrr_wrfnat_family() {
    let lookups = vec![
        lookup(
            "smoke_pm25_native",
            "smoke_pm25_native",
            "nat",
            vec![FieldSelector::height_agl(CanonicalField::SmokeMassDensity, 8)],
            &["MASSDEN:8 m above ground"],
        ),
        surface_winds(),
    ];
    let planned = plan_direct_recipes("HRRR", &lookups).unwrap();
    let request = sample_direct_request(ModelId::Hrrr, SourceId::Nomads);
    let groups = group_direct_fetches(&request, &planned);

    assert!(groups.iter().any(|group| group.product == "nat"));
    assert!(groups.iter().any(|group| group.product == "sfc"));

    let smoke_group = groups
        .iter()
        .find(|group| {
            group.selectors.contains(&FieldSelector::height_agl(
                CanonicalField::SmokeMassDensity,
                8,
            ))
        })
        .expect("expected a dedicated smoke wrfnat group");
    assert_eq!(smoke_group.product, "nat");
    assert_eq!(smoke_group.planned_family_aliases, vec!["nat".to_string()]);
}

#[test]
fn direct_fetch_timing_keeps_planned_vs_actual_family_truth() {
    let request = sample_direct_request(ModelId::Hrrr, SourceId::Nomads);
    let planned_product = "nat";
    let runtime = DirectFetchRuntimeInfo {
        fetch_key: "hrrr/nat".to_string(),
        planned_product: planned_product.to_string(),
        fetched_product: canonical_fetch_product(&request, planned_product),
        planned_family_aliases: vec![planned_product.to_string()],
        requested_source: SourceId::Nomads,
        resolved_source: SourceId::Nomads,
        resolved_url: "https://example.test/hrrr.t23z.wrfsfcf06.grib2".to_string(),
    };
    assert_eq!(runtime.planned_product, "nat");
    assert_eq!(runtime.fetched_product, "sfc");
    assert_eq!(runtime.planned_family_aliases, vec!["nat".to_string()]);
    assert_eq!(runtime.resolved_source, SourceId::Nomads);
    assert!(runtime.resolved_url.contains("wrfsfc"));
}

#[test]
fn nomads_hrrr_direct_fetch_requests_use_full_grib_files() {
    let request = sample_direct_request(ModelId::Hrrr, SourceId::Nomads);
    let lookups = vec![
        upper_air("500mb_temperature_height_winds", 500, "prs"),
        surface_winds(),
        reflectivity(),
    ];
    let planned = plan_direct_recipes("HRRR", &lookups).unwrap();
    let groups = group_direct_fetches(&request, &planned);
    assert_eq!(groups.len(), 2);

    for group in &groups {
        assert_eq!(
            group.fetch_mode,
            PlotRecipeFetchMode::WholeFileStructuredExtract
        );
        assert!(
            fetched_patterns(SourceId::Nomads, group).is_empty(),
            "NOMADS production direct fetches should not carry .idx subset patterns"
        );
    }
}

#[test]
fn aws_hrrr_direct_fetch_requests_keep_idx_patterns_for_fallback() {
    let request = sample_direct_request(ModelId::Hrrr, SourceId::Nomads);
    let lookups = vec![
        upper_air("500mb_temperature_height_winds", 500, "prs"),
        surface_winds(),
    ];
    let planned = plan_direct_recipes("HRRR", &lookups).unwrap();
    let groups = group_direct_fetches(&request, &planned);
    let prs_group = groups
        .iter()
        .find(|group| group.product == "prs")
        .expect("expected a pressure fetch group");
    assert!(!prs_group.variable_patterns.is_empty());

    let fetched = fetched_patterns(SourceId::Aws, prs_group);
    assert_eq!(fetched, prs_group.variable_patterns);
}

#[test]
fn direct_execution_plan_strips_group_subset_patterns_for_nomads() {
    let lookups = vec![
        upper_air("500mb_temperature_height_winds", 500, "prs"),
        upper_air("700mb_temperature_height_winds", 700, "prs"),
    ];
    let planned = plan_direct_recipes("HRRR", &lookups).unwrap();
    let request = sample_direct_request(ModelId::Hrrr, SourceId::Nomads);
    let groups = group_direct_fetches(&request, &planned);
    let plan = build_direct_execution_plan(SourceId::Nomads, &groups);
    assert!(
        plan.iter().any(|bundle| bundle.product == "prs"),
        "expected a planned HRRR pressure bundle"
    );
    let patterns = plan
        .iter()
        .filter(|bundle| bundle.product == "prs")
        .flat_map(|bundle| bundle.variable_patterns.iter())
        .collect::<Vec<_>>();
    assert!(
        patterns.is_empty(),
        "NOMADS production execution should use full GRIB files without .idx subset patterns"
    );
}

#[test]
fn direct_execution_plan_keeps_group_subset_patterns_for_aws_fallback() {
    let lookups = vec![
        upper_air("500mb_temperature_height_winds", 500, "prs"),
        upper_air("700mb_temperature_height_winds", 700, "prs"),
    ];
    let planned = plan_direct_recipes("HRRR", &lookups).unwrap();
    let request = sample_direct_request(ModelId::Hrrr, SourceId::Nomads);
    let groups = group_direct_fetches(&request, &planned);
    let plan = build_direct_execution_plan(SourceId::Aws, &groups);
    assert!(
        plan.iter().any(|bundle| bundle.product == "prs"),
        "expected a planned HRRR pressure bundle"
    );
    let patterns = plan
        .iter()
        .filter(|bundle| bundle.product == "prs")
        .flat_map(|bundle| bundle.variable_patterns.iter())
        .collect::<Vec<_>>();
    assert!(patterns.iter().any(|pattern| pattern.contains("500 mb")));
    assert!(patterns.iter().any(|pattern| pattern.contains("700 mb")));
}

#[test]
fn grouping_splits_prs_and_nat_recipes() {
    let lookups = vec![
        upper_air("500mb_temperature_height_winds", 500, "prs"),
        reflectivity(),
    ];
    let planned = plan_direct_recipes("HRRR", &lookups).unwrap();
    let request = sample_direct_request(ModelId::Hrrr, SourceId::Nomads);
    let groups = group_direct_fetches(&request, &planned);
    assert_eq!(groups.len(), 2);
    assert!(groups.iter().any(|group| group.product == "prs"));
    assert!(groups.iter().any(|group| group.product == "sfc"));
}

#[test]
fn planning_supports_hrrr_direct_composite_layout_recipes() {
    let lookups = vec![
        lookup(
            "cloud_cover_levels",
            "cloud_cover_levels",
            "nat",
            vec![FieldSelector::entire_atmosphere(LOW_CLOUD_COVER)],
            &["LCDC:low cloud layer"],
        ),
        lookup(
            "precipitation_type",
            "precipitation_type",
            "nat",
            vec![FieldSelector::surface(CATEGORICAL_SNOW)],
            &["CSNOW:surface"],
        ),
    ];
    let planned = plan_direct_recipes("HRRR", &lookups).unwrap();
    assert_eq!(planned.len(), 2);

    let request = sample_direct_request(ModelId::Hrrr, SourceId::Nomads);
    let groups = group_direct_fetches(&request, &planned);
    assert_eq!(groups.len(), 1);
    assert_eq!(groups[0].product, "sfc");
    assert!(groups[0]
        .selectors
        .contains(&FieldSelector::entire_atmosphere(LOW_CLOUD_COVER)));
    assert!(groups[0]
        .selectors
        .contains(&FieldSelector::surface(CATEGORICAL_SNOW)));
}

#[test]
fn nbm_pop_direct_recipe_groups_to_core_surface_product() {
    let lookups = vec![lookup(
        "probability_of_precipitation",
        "probability_of_precipitation",
        "core/co",
        vec![FieldSelector::surface(PROBABILITY_OF_PRECIPITATION)],
        &[],
    )];
    let planned = plan_direct_recipes("NBM", &lookups).unwrap();
    let request = sample_direct_request(ModelId::Nbm, SourceId::Nomads);
    let groups = group_direct_fetches(&request, &planned);
    assert_eq!(groups.len(), 1);
    assert_eq!(groups[0].product, "core/co");
    assert!(groups[0]
        .selectors
        .contains(&FieldSelector::surface(PROBABILITY_OF_PRECIPITATION)));
}

#[test]
fn nbm_qmd_direct_recipes_are_explicit_only_for_all_supported() {
    let named = [
        ("nbm_qmd_2m_temperature_p50", "qmd/co"),
        ("sref_prob_2m_temperature_below_273k", "ensprod/pgrb212/prob_3hrly"),
        ("gefs_spr_2m_temperature_stddev", "pgrb2ap5/gespr"),
        ("aigefs_spr_2m_temperature_stddev", "sfc/spr"),
        ("hgefs_spr_2m_temperature_stddev", "sfc/spr"),
        ("href_sprd_2m_temperature", "ensprod/conus/sprd"),
        ("href_prob_2m_temperature_below_273p15k", "ensprod/conus/prob"),
        ("href_mean_2m_temperature", "ensprod/conus/mean"),
        ("refs_sprd_2m_temperature", "sprd-conus"),
        ("refs_prob_2m_temperature_below_273p15k", "prob-conus"),
    ];
    let mut book: Vec<(&str, bool)> = named.iter().map(|(slug, _)| (*slug, true)).collect();
    book.push(("gefs_avg_mslp_10m_winds", true));
    book.push(("2m_temperature", true));
    book.push(("1h_qpf", false));
    assert_eq!(supported_direct_recipe_slugs(&book), vec!["2m_temperature".to_string()]);

    for (slug, product) in named {
        let lookups = vec![lookup(
            slug,
            slug,
            product,
            vec![FieldSelector::height_agl(TEMPERATURE, 2)],
            &[],
        )];
        let planned = plan_direct_recipes("model", &lookups).unwrap();
        assert_eq!(planned[0].plan.product, product);
    }
}

#[test]
fn unsupported_recipe_error_stays_explicit() {
    let lookups = vec![RecipeLookup {
        slug: "1h_qpf".to_string(),
        recipe: Some(recipe("1h_qpf", None)),
        plan: Err(PlanFailure::Unsupported {
            reason: "accumulations are drawn by the windowed lane".to_string(),
        }),
    }];
    let err = match plan_direct_recipes("HRRR", &lookups) {
        Err(err) => err,
        Ok(_) => panic!("the recipe has no plan"),
    };
    assert!(err.contains("windowed lane") || err.contains("not supported"));
    assert_eq!(
        err,
        "plot recipe '1h_qpf' is not supported for HRRR: accumulations are drawn by the windowed lane"
    );
}

#[test]
fn unknown_and_failed_recipes_name_themselves() {
    let unknown = vec![RecipeLookup {
        slug: "no_such_map".to_string(),
        recipe: None,
        plan: Err(PlanFailure::Failed {
            message: "not looked at".to_string(),
        }),
    }];
    assert_eq!(
        plan_direct_recipes("HRRR", &unknown).err(),
        Some("unknown recipe 'no_such_map'".to_string())
    );
    let failed = vec![RecipeLookup {
        slug: "2m_temperature".to_string(),
        recipe: Some(recipe("2m_temperature", None)),
        plan: Err(PlanFailure::Failed {
            message: "no plan could be made".to_string(),
        }),
    }];
    assert_eq!(
        plan_direct_recipes("HRRR", &failed).err(),
        Some("no plan could be made".to_string())
    );
}

#[test]
fn gfs_direct_fetches_are_now_whole_file() {
    let lookups = vec![upper_air("500mb_temperature_height_winds", 500, "pgrb2.0p25")];
    let planned = plan_direct_recipes("GFS", &lookups).unwrap();
    let request = sample_direct_request(ModelId::Gfs, SourceId::Nomads);
    let groups = group_direct_fetches(&request, &planned);
    assert_eq!(groups.len(), 1);
    assert_eq!(
        groups[0].fetch_mode,
        PlotRecipeFetchMode::WholeFileStructuredExtract
    );
    let plan = build_direct_execution_plan(SourceId::Nomads, &groups);
    assert_eq!(plan[0].product, "pgrb2.0p25");
    assert!(plan[0].variable_patterns.is_empty());
}

#[test]
fn rrfs_direct_product_overrides_can_select_na_family() {
    let mut request = sample_direct_request(ModelId::RrfsA, SourceId::Aws);
    request
        .product_overrides
        .push(("prs-conus".to_string(), "prs-na".to_string()));
    let group = group(
        canonical_fetch_product(&request, "prs-conus"),
        FieldSelector::isobaric(TEMPERATURE, 500),
        "prs-conus",
        &[],
    );
    let plan = build_direct_execution_plan(SourceId::Aws, &[group]);
    assert_eq!(plan[0].product, "prs-na");
}

#[test]
fn fetch_groups_and_products_follow_from_the_lookups() {
    let request = sample_direct_request(ModelId::Hrrr, SourceId::Aws);
    let lookups = vec![
        upper_air("500mb_temperature_height_winds", 500, "prs"),
        surface_winds(),
        reflectivity(),
    ];
    let groups = plan_direct_fetch_groups(&request, "HRRR", &lookups).unwrap();
    let mut products: Vec<&str> = groups.iter().map(|group| group.product.as_str()).collect();
    products.sort_unstable();
    assert_eq!(products, vec!["prs", "sfc"]);
    assert_eq!(
        required_direct_fetch_products(&request, "HRRR", &lookups).unwrap(),
        vec!["prs".to_string(), "sfc".to_string()]
    );
}

#[test]
fn recipes_depend_on_the_groups_they_read() {
    let lookups = vec![
        upper_air("500mb_temperature_height_winds", 500, "prs"),
        reflectivity(),
    ];
    let planned = plan_direct_recipes("HRRR", &lookups).unwrap();
    assert_eq!(
        recipe_slugs_depending_on_group(&planned, &[FieldSelector::isobaric(U_WIND, 500)]),
        vec!["500mb_temperature_height_winds".to_string()]
    );
    assert!(recipe_slugs_depending_on_group(&planned, &[]).is_empty());
}
