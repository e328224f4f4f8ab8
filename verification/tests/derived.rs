//! The derived-product recipes: names, inventory, requirements and planning.
use rustwx_products::derived::inventory::{
    blocked_derived_recipe_inventory, supported_derived_recipe_inventory,
    DerivedRecipeInventoryEntry,
};
use rustwx_products::derived::levels::{pressure_level_slice_or_interp, LevelRules};
use rustwx_products::derived::planning::{
    plan_derived_recipes, plan_native_thermo_routes_with_surface_product, resolve_derived_run,
    NativeThermoTable, PlannedNativeDerivedCandidate, RunResolution,
};
use rustwx_products::derived::recipes::DerivedRecipe;
use rustwx_products::derived::requirements::DerivedRequirements;
use rustwx_products::model::{ModelId, NativeSemantics, ProductSourceMode, ProductSourceRoute};

fn entry(slug: &str) -> DerivedRecipeInventoryEntry {
    let found = supported_derived_recipe_inventory()
        .into_iter()
        .find(|recipe| recipe.slug == slug);
    match found {
        Some(recipe) => recipe,
        None => panic!("{slug} inventory entry should exist"),
    }
}

fn candidate(semantics: NativeSemantics, fetch_product: &str) -> PlannedNativeDerivedCandidate {
    PlannedNativeDerivedCandidate {
        label: "native".to_string(),
        semantics,
        auto_eligible: true,
        detail: "published by the model".to_string(),
        fetch_product: fetch_product.to_string(),
    }
}

fn hrrr_table() -> NativeThermoTable {
    let mut table = NativeThermoTable::empty();
    table.sbcape = Some(candidate(NativeSemantics::ExactEquivalent, "sfc"));
    table
}

fn gfs_table() -> NativeThermoTable {
    let mut table = NativeThermoTable::empty();
    table.sbcape = Some(candidate(NativeSemantics::ExactEquivalent, "pgrb2.0p25"));
    table.mlcape = Some(candidate(NativeSemantics::ProxyEquivalent, "pgrb2.0p25"));
    table
}

#[test]
fn canonical_depth_ehi_slugs_are_supported_and_legacy_aliases_canonicalize() {
    assert_eq!(
        DerivedRecipe::parse("scp_mu_0_3km_0_6km_proxy").unwrap(),
        DerivedRecipe::ScpMu03km06kmProxy
    );
    assert_eq!(
        DerivedRecipe::parse("apparent_temperature_2m").unwrap(),
        DerivedRecipe::ApparentTemperature2m
    );
    assert_eq!(
        DerivedRecipe::parse("2m_apparent_temperature").unwrap(),
        DerivedRecipe::ApparentTemperature2m
    );
    assert_eq!(
        DerivedRecipe::parse("2m_vpd").unwrap(),
        DerivedRecipe::Vpd2m
    );
    assert_eq!(
        DerivedRecipe::parse("vapor_pressure_deficit_2m").unwrap(),
        DerivedRecipe::Vpd2m
    );
    assert_eq!(
        DerivedRecipe::parse("2m_dewpoint_depression").unwrap(),
        DerivedRecipe::DewpointDepression2m
    );
    assert_eq!(
        DerivedRecipe::parse("wet_bulb_2m").unwrap(),
        DerivedRecipe::Wetbulb2m
    );
    assert_eq!(
        DerivedRecipe::parse("fire_weather").unwrap(),
        DerivedRecipe::FireWeatherComposite
    );
    assert_eq!(
        DerivedRecipe::parse("ehi_0_1km").unwrap(),
        DerivedRecipe::Ehi01km
    );
    assert_eq!(
        DerivedRecipe::parse("ehi_sb_0_1km_proxy").unwrap(),
        DerivedRecipe::Ehi01km
    );
    assert_eq!(
        DerivedRecipe::parse("ehi_0_3km").unwrap(),
        DerivedRecipe::Ehi03km
    );
    assert_eq!(
        DerivedRecipe::parse("ehi_sb_0_3km_proxy").unwrap(),
        DerivedRecipe::Ehi03km
    );
    assert!(DerivedRecipe::parse("scp").is_err());
    assert!(DerivedRecipe::parse("stp_effective").is_err());
}

#[test]
fn derived_recipe_dedupe_preserves_first_seen_order() {
    let recipes = plan_derived_recipes(&[
        "mlcape".to_string(),
        "sbcape".to_string(),
        "mlcape".to_string(),
    ])
    .unwrap();
    assert_eq!(recipes, vec![DerivedRecipe::Mlcape, DerivedRecipe::Sbcape]);
}

#[test]
fn derived_inventory_stays_in_sync_with_slug_parser() {
    for recipe in supported_derived_recipe_inventory() {
        assert!(
            DerivedRecipe::parse(recipe.slug).is_ok(),
            "supported inventory slug '{}' should parse",
            recipe.slug
        );
    }
    for recipe in blocked_derived_recipe_inventory() {
        assert!(
            DerivedRecipe::parse(recipe.slug).is_err(),
            "blocked inventory slug '{}' should stay blocked",
            recipe.slug
        );
    }
}

#[test]
fn blocked_inventory_is_narrowed_to_effective_layer_products() {
    let blocked = blocked_derived_recipe_inventory()
        .iter()
        .map(|recipe| recipe.slug)
        .collect::<Vec<_>>();
    assert_eq!(blocked, vec!["stp_effective", "scp", "scp_effective"]);
}

#[test]
fn derived_requirements_stay_narrow_for_surface_only_requests() {
    let requirements = DerivedRequirements::from_recipes(&[DerivedRecipe::HeatIndex2m]);
    assert!(requirements.surface_thermo);
    assert!(!requirements.needs_volume());
    assert!(!requirements.needs_height_agl());
    assert!(!requirements.needs_grid_spacing());
}

#[test]
fn apparent_temperature_is_supported_surface_only_inventory_entry() {
    let recipe = entry("apparent_temperature_2m");
    assert_eq!(recipe.title, "2 m Apparent Temperature");
    assert!(!recipe.experimental);

    let requirements = DerivedRequirements::from_recipes(&[DerivedRecipe::ApparentTemperature2m]);
    assert!(requirements.surface_thermo);
    assert!(!requirements.surface_winds);
    assert!(!requirements.needs_volume());
    assert!(!requirements.needs_height_agl());
    assert!(!requirements.needs_grid_spacing());
}

#[test]
fn fire_weather_family_is_supported_surface_only_inventory() {
    let expected = [
        ("vpd_2m", "2 m Vapor Pressure Deficit", DerivedRecipe::Vpd2m),
        (
            "dewpoint_depression_2m",
            "2 m Dewpoint Depression",
            DerivedRecipe::DewpointDepression2m,
        ),
        (
            "wetbulb_2m",
            "2 m Wet-Bulb Temperature",
            DerivedRecipe::Wetbulb2m,
        ),
        (
            "fire_weather_composite",
            "Fire Weather Composite",
            DerivedRecipe::FireWeatherComposite,
        ),
    ];

    for (slug, title, parsed) in expected {
        let recipe = entry(slug);
        assert_eq!(recipe.title, title);
        assert!(!recipe.experimental);
        assert!(!recipe.heavy);
        assert_eq!(DerivedRecipe::parse(slug).unwrap(), parsed);
    }

    let requirements = DerivedRequirements::from_recipes(&[
        DerivedRecipe::Vpd2m,
        DerivedRecipe::DewpointDepression2m,
        DerivedRecipe::Wetbulb2m,
        DerivedRecipe::FireWeatherComposite,
    ]);
    assert!(requirements.surface_thermo);
    assert!(!requirements.surface_winds);
    assert!(!requirements.needs_volume());
    assert!(!requirements.needs_height_agl());
    assert!(!requirements.needs_grid_spacing());
}

#[test]
fn ecape_inventory_entries_are_marked_heavy() {
    let sbecape = entry("sbecape");
    assert!(sbecape.heavy);
    assert!(!sbecape.experimental);

    let ecape_scp = entry("ecape_scp");
    assert!(ecape_scp.heavy);
    assert!(ecape_scp.experimental);
    assert_eq!(
        DerivedRecipe::parse("ecape_scp").unwrap(),
        DerivedRecipe::EcapeScp
    );

    let native_ratio = entry("sb_ecape_native_cape_ratio");
    assert!(native_ratio.heavy);
    assert!(native_ratio.experimental);
    assert_eq!(
        DerivedRecipe::parse("sb_ecape_native_cape_ratio").unwrap(),
        DerivedRecipe::SbEcapeNativeCapeRatio
    );
}

#[test]
fn canonical_mode_keeps_all_supported_recipes_on_canonical_path() {
    let recipes = vec![
        DerivedRecipe::Sbcape,
        DerivedRecipe::LiftedIndex,
        DerivedRecipe::BulkShear06km,
    ];
    let planned = plan_native_thermo_routes_with_surface_product(
        ModelId::Hrrr,
        &recipes,
        ProductSourceMode::Canonical,
        &hrrr_table(),
        "sfc",
    );
    assert_eq!(planned.output_recipes, recipes);
    assert_eq!(planned.compute_recipes, recipes);
    assert!(planned.native_routes.is_empty());
    assert!(planned.blockers.is_empty());
}

#[test]
fn gfs_canonical_mode_uses_exact_native_thermo_routes() {
    let recipes = vec![DerivedRecipe::Sbcape, DerivedRecipe::Mlcape];
    let planned = plan_native_thermo_routes_with_surface_product(
        ModelId::Gfs,
        &recipes,
        ProductSourceMode::Canonical,
        &gfs_table(),
        "pgrb2.0p25",
    );

    assert_eq!(planned.output_recipes, recipes);
    assert_eq!(planned.compute_recipes, vec![DerivedRecipe::Mlcape]);
    assert_eq!(planned.native_routes.len(), 1);
    assert_eq!(planned.native_routes[0].recipe, DerivedRecipe::Sbcape);
    assert_eq!(
        planned.native_routes[0].source_route,
        ProductSourceRoute::NativeExact
    );
}

#[test]
fn canonical_mode_routes_ecape_recipes_through_heavy_path() {
    let planned = plan_native_thermo_routes_with_surface_product(
        ModelId::Hrrr,
        &[DerivedRecipe::Sbecape, DerivedRecipe::EcapeScp],
        ProductSourceMode::Canonical,
        &hrrr_table(),
        "sfc",
    );
    assert_eq!(
        planned.output_recipes,
        vec![DerivedRecipe::Sbecape, DerivedRecipe::EcapeScp]
    );
    assert!(planned.compute_recipes.is_empty());
    assert_eq!(
        planned.heavy_recipes,
        vec![DerivedRecipe::Sbecape, DerivedRecipe::EcapeScp]
    );
    assert!(planned.native_routes.is_empty());
    assert!(planned.blockers.is_empty());
}

#[test]
fn fastest_mode_uses_native_exact_and_blocks_non_fast_recipes() {
    let recipes = vec![DerivedRecipe::Sbcape, DerivedRecipe::BulkShear06km];
    let planned = plan_native_thermo_routes_with_surface_product(
        ModelId::Hrrr,
        &recipes,
        ProductSourceMode::Fastest,
        &hrrr_table(),
        "sfc",
    );
    assert_eq!(planned.output_recipes, vec![DerivedRecipe::Sbcape]);
    assert!(planned.compute_recipes.is_empty());
    assert_eq!(planned.native_routes.len(), 1);
    assert_eq!(planned.native_routes[0].recipe, DerivedRecipe::Sbcape);
    assert_eq!(
        planned.native_routes[0].source_route,
        ProductSourceRoute::NativeExact
    );
    assert_eq!(planned.blockers.len(), 1);
    assert_eq!(planned.blockers[0].recipe_slug, "bulk_shear_0_6km");
    assert_eq!(
        planned.blockers[0].source_route,
        ProductSourceRoute::BlockedNoFastRoute
    );
}

#[test]
fn fastest_mode_keeps_proxy_native_routes_when_labeled() {
    let planned = plan_native_thermo_routes_with_surface_product(
        ModelId::Gfs,
        &[DerivedRecipe::Mlcape],
        ProductSourceMode::Fastest,
        &gfs_table(),
        "pgrb2.0p25",
    );
    assert_eq!(planned.output_recipes, vec![DerivedRecipe::Mlcape]);
    assert_eq!(planned.native_routes.len(), 1);
    assert_eq!(
        planned.native_routes[0].source_route,
        ProductSourceRoute::NativeProxy
    );
    assert!(planned.blockers.is_empty());
}

#[test]
fn fastest_mode_blocks_surface_only_canonical_shortcuts_until_a_true_fast_path_exists() {
    let planned = plan_native_thermo_routes_with_surface_product(
        ModelId::Hrrr,
        &[DerivedRecipe::HeatIndex2m],
        ProductSourceMode::Fastest,
        &hrrr_table(),
        "sfc",
    );
    assert!(planned.output_recipes.is_empty());
    assert!(planned.native_routes.is_empty());
    assert_eq!(planned.blockers.len(), 1);
    assert!(planned.blockers[0]
        .reason
        .contains("will not fall back to canonical-derived compute"));
}

#[test]
fn fastest_mode_blocks_heavy_ecape_recipes() {
    let planned = plan_native_thermo_routes_with_surface_product(
        ModelId::Hrrr,
        &[DerivedRecipe::Sbecape],
        ProductSourceMode::Fastest,
        &hrrr_table(),
        "sfc",
    );
    assert!(planned.output_recipes.is_empty());
    assert!(planned.compute_recipes.is_empty());
    assert!(planned.heavy_recipes.is_empty());
    assert_eq!(planned.blockers.len(), 1);
    assert!(planned.blockers[0]
        .reason
        .contains("cropped heavy ECAPE path"));
}

#[test]
fn wrf_gdex_canonical_mode_prefers_native_d612005_2d_recipes() {
    let recipes = vec![
        DerivedRecipe::Sbcape,
        DerivedRecipe::BulkShear06km,
        DerivedRecipe::Srh03km,
        DerivedRecipe::LiftedIndex,
    ];
    let planned = plan_native_thermo_routes_with_surface_product(
        ModelId::WrfGdex,
        &recipes,
        ProductSourceMode::Canonical,
        &NativeThermoTable::empty(),
        "d612005-future2d",
    );

    assert_eq!(planned.output_recipes, recipes);
    assert_eq!(planned.compute_recipes, vec![DerivedRecipe::LiftedIndex]);
    assert_eq!(planned.native_routes.len(), 3);
    assert_eq!(
        planned.native_routes[0].candidate.fetch_product,
        "d612005-future2d"
    );
    assert_eq!(
        planned
            .native_routes
            .iter()
            .map(|route| route.recipe)
            .collect::<Vec<_>>(),
        vec![
            DerivedRecipe::Sbcape,
            DerivedRecipe::BulkShear06km,
            DerivedRecipe::Srh03km,
        ]
    );
}

#[test]
fn wrf_gdex_non_d612005_products_fall_back_to_compute() {
    let recipes = vec![DerivedRecipe::Sbcape, DerivedRecipe::BulkShear06km];
    let planned = plan_native_thermo_routes_with_surface_product(
        ModelId::WrfGdex,
        &recipes,
        ProductSourceMode::Canonical,
        &NativeThermoTable::empty(),
        "d010047",
    );

    assert_eq!(planned.output_recipes, recipes);
    assert_eq!(planned.compute_recipes, recipes);
    assert!(planned.native_routes.is_empty());
    assert!(planned.blockers.is_empty());
}

#[test]
fn cycle_pinned_fastest_native_only_run_skips_pair_resolution() {
    let planned = plan_native_thermo_routes_with_surface_product(
        ModelId::Hrrr,
        &[DerivedRecipe::Sbcape],
        ProductSourceMode::Fastest,
        &hrrr_table(),
        "sfc",
    );

    let latest = resolve_derived_run(
        Some(12),
        &planned.compute_recipes,
        &planned.heavy_recipes,
        &planned.native_routes,
        "sfc",
        "prs",
    );

    match latest {
        RunResolution::Pinned { hour_utc } => assert_eq!(hour_utc, 12),
        _ => panic!("a pinned native run should not be looked up"),
    }
}

#[test]
fn runs_are_looked_up_by_the_products_they_need() {
    let planned = plan_native_thermo_routes_with_surface_product(
        ModelId::Hrrr,
        &[DerivedRecipe::Sbcape, DerivedRecipe::Sbecape],
        ProductSourceMode::Canonical,
        &hrrr_table(),
        "sfc",
    );
    match resolve_derived_run(
        None,
        &planned.compute_recipes,
        &planned.heavy_recipes,
        &planned.native_routes,
        "sfc",
        "prs",
    ) {
        RunResolution::LatestForProducts { products } => {
            assert_eq!(products, vec!["prs".to_string(), "sfc".to_string()]);
        }
        _ => panic!("the latest run that has both products is asked for"),
    }
    assert!(matches!(
        resolve_derived_run(Some(6), &[DerivedRecipe::Mlcape], &[], &Vec::new(), "sfc", "prs"),
        RunResolution::ThermoPair { hour_utc: 6 }
    ));
    assert!(matches!(
        resolve_derived_run(None, &[DerivedRecipe::Vpd2m], &[], &Vec::new(), "sfc", "prs"),
        RunResolution::LatestAtForecastHour
    ));
}

fn at_level(level_hpa: f64, target_hpa: u64) -> bool {
    (level_hpa - target_hpa as f64).abs() < 0.25
}

fn crosses(below_pa: f64, above_pa: f64, target_hpa: u64) -> bool {
    let (below, above, target) = (below_pa / 100.0, above_pa / 100.0, target_hpa as f64);
    below.is_finite()
        && above.is_finite()
        && below > 0.0
        && above > 0.0
        && ((below >= target && above <= target) || (below <= target && above >= target))
}

fn between(v0: f64, v1: f64, below_pa: f64, above_pa: f64, target_hpa: u64) -> f64 {
    let (log0, log1) = ((below_pa / 100.0).ln(), (above_pa / 100.0).ln());
    let denom = log1 - log0;
    if denom.abs() < 1.0e-12 {
        0.5 * (v0 + v1)
    } else {
        v0 + ((target_hpa as f64).ln() - log0) / denom * (v1 - v0)
    }
}

#[test]
fn pressure_level_slice_or_interp_prefers_exact_isobaric_slice() {
    let rules = LevelRules { at_level, crosses, between, blank: f64::NAN };
    let slice = pressure_level_slice_or_interp(
        &[12.0, 13.0, 1.0, 2.0],
        &[850.0, 700.0],
        None,
        700,
        2,
        &rules,
    )
    .expect("exact 700 mb slice should be available");

    assert_eq!(slice, vec![1.0, 2.0]);
}

#[test]
fn pressure_level_slice_or_interp_interpolates_native_pressure_columns() {
    let rules = LevelRules { at_level, crosses, between, blank: f64::NAN };
    let pressure_3d_pa = vec![90000.0, 90000.0, 60000.0, 60000.0];
    let slice = pressure_level_slice_or_interp(
        &[20.0, 24.0, 0.0, 4.0],
        &[900.0, 600.0],
        Some(&pressure_3d_pa),
        700,
        2,
        &rules,
    )
    .expect("native-pressure interpolation should succeed");

    let log_frac = (700.0_f64.ln() - 900.0_f64.ln()) / (600.0_f64.ln() - 900.0_f64.ln());
    let expected0 = 20.0 + log_frac * (0.0 - 20.0);
    let expected1 = 24.0 + log_frac * (4.0 - 24.0);

    assert!((slice[0] - expected0).abs() < 1.0e-6);
    assert!((slice[1] - expected1).abs() < 1.0e-6);
}

#[test]
fn a_plane_that_is_neither_there_nor_between_levels_is_missing() {
    let rules = LevelRules { at_level, crosses, between, blank: f64::NAN };
    let values = [1.0, 2.0, 3.0, 4.0];
    let levels = [900.0, 600.0];
    assert!(pressure_level_slice_or_interp(&values, &levels, None, 700, 2, &rules).is_none());
    let short = vec![90000.0, 90000.0, 60000.0];
    assert!(
        pressure_level_slice_or_interp(&values, &levels, Some(&short), 700, 2, &rules).is_none()
    );
    let beside = vec![90000.0, 90000.0, 60000.0, 80000.0];
    let plane = pressure_level_slice_or_interp(&values, &levels, Some(&beside), 700, 2, &rules)
        .expect("one column crosses the level");
    assert!(plane[0].is_finite());
    assert!(plane[1].is_nan());
}
