//! The grids that go to a store and are drawn from one.
use rustwx_products::derived::assemble::{
    assemble_derived_outputs, composite_inputs, join_wind_outputs, release_winds, CapeCinOutputs,
    CompositeOutputs, IndependentOutputs, ParcelOutputs, TakenWindVolumes,
};
use rustwx_products::derived::fields::{
    assign_store_values, derived_query_field_from_computed, derived_query_field_take_from_computed,
    missing_computed_field, DerivedComputedFields,
};
use rustwx_products::derived::inventory::supported_derived_recipe_inventory;
use rustwx_products::derived::kernels::{
    composite_kernels, parcel_kernels, plan_surface_only, DerivedKernel,
};
use rustwx_products::derived::planning::{build_derived_execution_plan, BundleRequest};
use rustwx_products::derived::presentation::{
    derived_output_suffix, derived_title_for_model, derived_title_for_request,
    is_gdex_dataset_token, sanitize_output_suffix,
};
use rustwx_products::derived::recipes::DerivedRecipe;
use rustwx_products::derived::requirements::DerivedRequirements;
use rustwx_products::derived::sampling::{
    recipe_failed, required_derived_fetch_products, sample_computed_fields, sampled_recipe,
};
use rustwx_products::derived::store::{
    collect_store_grids, map_heavy_fields, narrow_grids, store_derived_recipe_slugs,
    store_heavy_recipe_slugs, take_store_grids,
};
use rustwx_products::derived::store_drawing::render_derived_recipes_from_store_grids;
use rustwx_products::derived::store_inputs::{restore_winds, take_winds};
use rustwx_products::derived::store_render::{
    heavy_store_field, load_store_grids, load_store_winds, select_store_grids, store_render_crop,
    StoreProductGrid,
};
use rustwx_products::gridded::crop::{GridCrop, ProjectedGridIntersection};
use rustwx_products::gridded::fields::{GridShape, LatLonGrid, PressureFields};
use rustwx_products::heavy_stage::HeavyProjection;
use rustwx_products::direct::projection::{
    model_data_domain_frame_for_projection, NativeProjection,
};
use rustwx_products::gridded::rows::rotate_values_to_normalized_longitude_rows;
use rustwx_products::model::{CanonicalBundleDescriptor, ModelId};
use rustwx_products::panel::{weather_product_for_heavy_recipe, WeatherPanelField};

#[test]
fn heavy_store_slugs_pin_the_sixteen_ecape_recipes() {
    assert_eq!(
        store_heavy_recipe_slugs(),
        vec![
            "sbecape",
            "mlecape",
            "muecape",
            "sb_ecape_derived_cape_ratio",
            "ml_ecape_derived_cape_ratio",
            "mu_ecape_derived_cape_ratio",
            "sb_ecape_native_cape_ratio",
            "ml_ecape_native_cape_ratio",
            "mu_ecape_native_cape_ratio",
            "sbncape",
            "sbecin",
            "mlecin",
            "ecape_scp",
            "ecape_ehi_0_1km",
            "ecape_ehi_0_3km",
            "ecape_stp",
        ]
    );
}

#[test]
fn heavy_and_derived_store_slugs_partition_the_inventory() {
    let mut combined = store_derived_recipe_slugs();
    combined.extend(store_heavy_recipe_slugs());
    combined.sort_unstable();
    let mut inventory: Vec<&str> = supported_derived_recipe_inventory()
        .iter()
        .map(|entry| entry.slug)
        .collect();
    inventory.sort_unstable();
    assert_eq!(combined, inventory);
}

#[test]
fn assign_covers_every_non_heavy_store_slug() {
    for slug in store_derived_recipe_slugs() {
        let recipe = DerivedRecipe::parse(slug).expect("store slug parses");
        let mut computed = DerivedComputedFields::empty();
        assign_store_values(&mut computed, recipe, vec![1.0, 2.0])
            .unwrap_or_else(|err| panic!("assign '{slug}': {err}"));
        let query = derived_query_field_from_computed(2, 1, recipe, &computed)
            .unwrap_or_else(|err| panic!("query '{slug}': {err}"));
        assert_eq!(query.values, vec![1.0, 2.0], "slot mismatch for '{slug}'");
    }
}

#[test]
fn assign_rejects_heavy_recipes() {
    for slug in store_heavy_recipe_slugs() {
        let recipe = DerivedRecipe::parse(slug).expect("heavy slug parses");
        let mut computed = DerivedComputedFields::empty();
        assert!(
            assign_store_values(&mut computed, recipe, vec![0.0]).is_err(),
            "heavy '{slug}' must not assign a computed slot"
        );
    }
}

#[test]
fn heavy_product_mapping_pins_slug_identity() {
    for slug in store_heavy_recipe_slugs() {
        let recipe = DerivedRecipe::parse(slug).expect("heavy slug parses");
        let product = weather_product_for_heavy_recipe(recipe)
            .unwrap_or_else(|err| panic!("mapping '{slug}': {err}"));
        assert_eq!(
            product.slug(),
            slug,
            "WeatherProduct slug must equal the heavy recipe slug"
        );
    }
    let non_heavy = DerivedRecipe::parse("sbcape").unwrap();
    assert!(weather_product_for_heavy_recipe(non_heavy).is_err());
}

fn all_computed() -> DerivedComputedFields<f64> {
    let mut computed = DerivedComputedFields::empty();
    for (i, slug) in store_derived_recipe_slugs().iter().enumerate() {
        let recipe = DerivedRecipe::parse(slug).unwrap();
        computed.put(recipe, Some(vec![i as f64 + 0.25]));
    }
    computed
}

#[test]
fn taking_grids_gives_what_collecting_and_narrowing_gives() {
    let mut computed = all_computed();
    let narrow = |value: f64| value as f32;
    let collected = collect_store_grids(1, 1, &computed).ok().unwrap();
    let narrowed = narrow_grids(&collected, &narrow);
    let taken = take_store_grids(1, 1, &mut computed, &narrow).ok().unwrap();
    assert_eq!(taken.len(), store_derived_recipe_slugs().len());
    for (a, b) in narrowed.iter().zip(&taken) {
        assert_eq!(a.slug, b.slug);
        assert_eq!(a.units, b.units);
        assert_eq!(a.values, b.values);
    }
    assert!(computed.get(DerivedRecipe::Sbcape).is_none());
}

#[test]
fn a_missing_field_fails_the_grids() {
    let computed: DerivedComputedFields<f64> = DerivedComputedFields::empty();
    let message = missing_computed_field(DerivedRecipe::Sbcape);
    assert_eq!(collect_store_grids(1, 1, &computed).err(), Some(message.clone()));
    assert_eq!(
        derived_query_field_from_computed(1, 1, DerivedRecipe::Sbcape, &computed).err(),
        Some(message)
    );
}

#[test]
fn a_taken_field_is_gone() {
    let mut computed = all_computed();
    let field =
        derived_query_field_take_from_computed(1, 1, DerivedRecipe::Mlcape, &mut computed).ok();
    let field = field.unwrap();
    assert_eq!(field.recipe_slug, "mlcape");
    assert_eq!(field.units, "J/kg");
    assert!(computed.get(DerivedRecipe::Mlcape).is_none());
    assert!(computed.get(DerivedRecipe::Sbcape).is_some());
}

fn heavy_fields(skip: &[&str]) -> Vec<WeatherPanelField<f64>> {
    store_heavy_recipe_slugs()
        .into_iter()
        .filter(|slug| !skip.contains(slug))
        .map(|slug| {
            let recipe = DerivedRecipe::parse(slug).unwrap();
            let product = weather_product_for_heavy_recipe(recipe).unwrap();
            WeatherPanelField::new(product, "unit", vec![1.0])
        })
        .collect()
}

#[test]
fn native_ratios_may_be_skipped_and_nothing_else() {
    let mapped = map_heavy_fields(heavy_fields(&["ml_ecape_native_cape_ratio"]), 4).ok().unwrap();
    assert_eq!(mapped.ecape_failure_count, 4);
    assert_eq!(mapped.grids.len(), 15);
    assert_eq!(mapped.skipped.len(), 1);
    assert_eq!(mapped.skipped[0].slug, "ml_ecape_native_cape_ratio");
    assert_eq!(
        mapped.skipped[0].reason,
        "surface inputs carry no native 0-90 mb mixed layer CAPE plane (no matching CAPE message in the surface GRIB)"
    );
    assert_eq!(
        map_heavy_fields(heavy_fields(&["ecape_stp"]), 0).err(),
        Some(
            "heavy recipe 'ecape_stp' missing from the ECAPE field set; this is a wiring bug, not a degradation"
                .to_string()
        )
    );
}

fn grid(slug: &str, values: Vec<f64>) -> StoreProductGrid<f64> {
    StoreProductGrid {
        slug: slug.to_string(),
        units: "J/kg".to_string(),
        values,
    }
}

#[test]
fn grids_are_found_for_each_recipe() {
    let recipes = [DerivedRecipe::Mlcape, DerivedRecipe::Sbcape];
    let grids = [
        grid("sbcape", vec![0.0, 1.0, 2.0, 3.0]),
        grid("mlcape", vec![4.0, 5.0, 6.0, 7.0]),
    ];
    let selected = select_store_grids(&recipes, &grids, 4).unwrap();
    assert_eq!(selected, vec![1, 0]);
    let rect = Some(GridCrop {
        x_start: 1,
        x_end: 2,
        y_start: 0,
        y_end: 2,
    });
    let computed = load_store_grids(&recipes, &selected, &grids, 2, 4, rect);
    assert_eq!(computed.sbcape_jkg, Some(vec![1.0, 3.0]));
    assert_eq!(computed.mlcape_jkg, Some(vec![5.0, 7.0]));
    assert_eq!(
        select_store_grids(&[DerivedRecipe::Mucape], &grids, 4),
        Err("store render requested recipe 'mucape' without its store grid".to_string())
    );
    assert_eq!(
        select_store_grids(&recipes, &grids, 6),
        Err("store grid 'mlcape' holds 4 values, expected 6".to_string())
    );
}

#[test]
fn theta_e_needs_its_winds() {
    let recipes = [DerivedRecipe::ThetaE2m10mWinds];
    let mut computed: DerivedComputedFields<f64> = DerivedComputedFields::empty();
    assert_eq!(
        load_store_winds(&mut computed, &recipes, None, 2, 4, None),
        Err(
            "store render of 'theta_e_2m_10m_winds' needs the stored 10 m u/v planes for its barb overlay"
                .to_string()
        )
    );
    assert_eq!(
        load_store_winds(&mut computed, &recipes, Some((&[1.0], &[1.0])), 2, 4, None),
        Err("store 10 m wind planes do not match the hour grid".to_string())
    );
    let (u, v) = ([1.0, 2.0, 3.0, 4.0], [5.0, 6.0, 7.0, 8.0]);
    assert_eq!(
        load_store_winds(&mut computed, &recipes, Some((&u, &v)), 2, 4, None),
        Ok(())
    );
    assert_eq!(computed.surface_u10_ms, Some(u.to_vec()));
    assert_eq!(computed.surface_v10_ms, Some(v.to_vec()));
}

#[test]
fn an_empty_domain_is_refused() {
    assert_eq!(
        store_render_crop(ProjectedGridIntersection::Empty, "midwest"),
        Err("store render projected crop for domain 'midwest' produced an empty domain".to_string())
    );
    assert_eq!(store_render_crop(ProjectedGridIntersection::Full, "midwest"), Ok(None));
}

#[test]
fn heavy_fields_are_drawn_from_the_store() {
    let stored = grid("sbecape", vec![1.0, 2.0, 3.0, 4.0]);
    let field = heavy_store_field(DerivedRecipe::Sbecape, &stored, 2, None).ok().unwrap();
    assert_eq!(field.product.slug(), "sbecape");
    assert_eq!(field.values, stored.values);
    assert_eq!(
        heavy_store_field(DerivedRecipe::Sbcape, &stored, 2, None).err(),
        Some("recipe 'sbcape' is not a heavy ECAPE-class recipe".to_string())
    );
}

#[test]
fn winds_are_given_back() {
    let mut pressure = PressureFields {
        pressure_levels_hpa: vec![1000.0],
        pressure_3d_pa: None,
        temperature_c_3d: vec![1.0],
        qvapor_kgkg_3d: vec![1.0],
        u_ms_3d: vec![7.0],
        v_ms_3d: vec![8.0],
        gh_m_3d: vec![1.0],
        omega_pa_s_3d: None,
        absolute_vorticity_s_3d: None,
        cloud_liquid_kgkg_3d: None,
        cloud_ice_kgkg_3d: None,
        rain_kgkg_3d: None,
        snow_kgkg_3d: None,
        graupel_kgkg_3d: None,
    };
    let winds = take_winds(&mut pressure);
    assert!(pressure.u_ms_3d.is_empty());
    restore_winds(&mut pressure, Some(winds));
    assert_eq!(pressure.u_ms_3d, vec![7.0]);
    assert_eq!(pressure.v_ms_3d, vec![8.0]);
    let winds: TakenWindVolumes<f64> = TakenWindVolumes {
        u_ms_3d: vec![1.0],
        v_ms_3d: vec![2.0],
    };
    assert!(release_winds(winds, false).is_none());
}

#[test]
fn kernels_run_for_what_is_needed() {
    let needs = DerivedRequirements::from_recipes(&[DerivedRecipe::StpFixed]);
    assert!(parcel_kernels(needs).contains(&DerivedKernel::SbcapeCin));
    assert_eq!(composite_kernels(needs), vec![DerivedKernel::StpFixed]);
    assert!(plan_surface_only(&[DerivedRecipe::Vpd2m]).is_ok());
    assert_eq!(
        plan_surface_only(&[DerivedRecipe::Sbcape]).err(),
        Some("surface-only derived compute received a pressure-dependent recipe".to_string())
    );
}

fn no_outputs() -> IndependentOutputs<f64> {
    IndependentOutputs {
        dcape_jkg: None,
        surface_thermo: None,
        lifted_index_c: None,
        lapse_rate_700_500_cpkm: None,
        lapse_rate_0_3km_cpkm: None,
        shear_01km_ms: None,
        shear_06km_ms: None,
        srh_01km_m2s2: None,
        srh_03km_m2s2: None,
        temperature_advection_700mb_cph: None,
        temperature_advection_850mb_cph: None,
    }
}

#[test]
fn outputs_are_assembled_in_knots() {
    let mut outputs = no_outputs();
    outputs.dcape_jkg = Some(vec![800.0]);
    let mut winds = no_outputs();
    winds.shear_06km_ms = Some(vec![10.0]);
    winds.srh_01km_m2s2 = Some(vec![100.0]);
    let outputs = join_wind_outputs(outputs, winds);
    let parcels = ParcelOutputs {
        sb: Some(CapeCinOutputs {
            cape_jkg: vec![1500.0],
            cin_jkg: vec![-20.0],
            lcl_m: vec![900.0],
        }),
        ml: None,
        mu: None,
    };
    let inputs = composite_inputs(DerivedKernel::StpFixed, &parcels, &outputs).ok().unwrap();
    assert_eq!(inputs.cape_jkg, &vec![1500.0]);
    assert_eq!(inputs.srh_m2s2, &vec![100.0]);
    assert_eq!(inputs.shear_ms, Some(&vec![10.0]));
    assert!(composite_inputs(DerivedKernel::Ehi03km, &parcels, &outputs).is_err());

    let computed = assemble_derived_outputs(
        &[DerivedRecipe::Sbcape, DerivedRecipe::BulkShear06km],
        (&[1.0], &[2.0]),
        parcels,
        outputs,
        CompositeOutputs {
            ehi_01km: None,
            ehi_03km: None,
            stp_fixed: Some(vec![2.0]),
            scp_mu_03km_06km_proxy: None,
        },
        &|value: f64| value * 2.0,
    );
    assert_eq!(computed.sbcape_jkg, Some(vec![1500.0]));
    assert_eq!(computed.shear_06km_kt, Some(vec![20.0]));
    assert_eq!(computed.stp_fixed, Some(vec![2.0]));
    assert_eq!(computed.dcape_jkg, Some(vec![800.0]));
}

#[test]
fn sampling_accounts_for_each_recipe() {
    let mut computed: DerivedComputedFields<f64> = DerivedComputedFields::empty();
    computed.put(DerivedRecipe::Sbcape, Some(vec![1.0]));
    let sampled = sample_computed_fields(
        1,
        1,
        &[DerivedRecipe::Sbcape, DerivedRecipe::Mlcape],
        &computed,
    );
    assert_eq!(sampled.fields.len(), 1);
    assert_eq!(sampled.fields[0].recipe_slug, "sbcape");
    assert_eq!(sampled.blockers.len(), 1);
    assert_eq!(sampled.blockers[0].recipe_slug, "mlcape");
    assert_eq!(
        sampled_recipe("sbecape"),
        Err(
            "heavy derived recipe 'sbecape' is not exposed through the lightweight query path"
                .to_string()
        )
    );
    assert_eq!(
        recipe_failed(DerivedRecipe::Sbcape, "a", "b").reason,
        "shared derived compute failed: a; recipe failed: b"
    );
    assert_eq!(
        required_derived_fetch_products(&["sbcape".to_string()], "sfc", "prs").unwrap(),
        vec!["sfc".to_string(), "prs".to_string()]
    );
    assert!(required_derived_fetch_products(&[], "sfc", "prs").unwrap().is_empty());
    assert!(required_derived_fetch_products(&["nothing".to_string()], "sfc", "prs").is_err());
}

#[test]
fn titles_and_suffixes_are_cleaned() {
    assert_eq!(
        derived_title_for_request(ModelId::WrfGdex, Some("d010047-hist2d"), None, "SBCAPE", ""),
        "SBCAPE (d010047)"
    );
    assert_eq!(
        derived_title_for_request(ModelId::WrfGdex, Some("LOCAL_WRF_NETCDF"), None, "SBCAPE", ""),
        "SBCAPE"
    );
    assert_eq!(
        derived_title_for_request(ModelId::Hrrr, Some("sfc"), None, "SBCAPE", ""),
        "SBCAPE"
    );
    assert_eq!(
        derived_title_for_request(ModelId::WrfGdex, None, Some("d010047-d01"), "SBCAPE", " | v2"),
        "SBCAPE (d010047) | v2"
    );
    let suffix = sanitize_output_suffix("My Run/7");
    assert!(!suffix.contains('/') && !suffix.contains(' '));
    assert_eq!(derived_output_suffix(None), "");
    assert_eq!(derived_output_suffix(Some("My Run/7")), format!("_{suffix}"));
}

fn row_of_eight() -> LatLonGrid<f64> {
    LatLonGrid {
        shape: GridShape { nx: 8, ny: 1 },
        lat_deg: vec![30.0; 8],
        lon_deg: (0..8).map(|x| -100.0 + x as f64).collect(),
    }
}

/// A map that shows the first cell alone.
fn project_west(grid: &LatLonGrid<f64>) -> Result<HeavyProjection<usize>, String> {
    Ok(HeavyProjection {
        handle: grid.shape.nx,
        inside_x: grid.lon_deg.iter().map(|lon| *lon < -99.5).collect(),
        inside_y: vec![true; grid.shape.nx],
    })
}

fn counting(slug: &str, from: f64) -> StoreProductGrid<f64> {
    grid(slug, (0..8).map(|x| from + x as f64).collect())
}

#[test]
fn stored_recipes_are_drawn_on_what_the_map_shows() {
    let slugs = vec!["sbcape".to_string(), "sbecape".to_string(), "theta_e_2m_10m_winds".to_string()];
    let grids = [
        counting("sbecape", 10.0),
        counting("sbcape", 0.0),
        counting("theta_e_2m_10m_winds", 300.0),
    ];
    let (u10, v10) = (vec![1.0; 8], vec![2.0; 8]);
    let drawing = render_derived_recipes_from_store_grids(
        &slugs,
        "west",
        &row_of_eight(),
        &grids,
        Some((&u10[..], &v10[..])),
        &project_west,
    )
    .ok()
    .unwrap()
    .unwrap();
    assert_eq!(drawing.projected, 3);
    let (_, cut) = drawing.cropped.as_ref().unwrap();
    assert_eq!(cut.lon_deg, vec![-100.0, -99.0, -98.0]);
    assert_eq!(drawing.computed.sbcape_jkg, Some(vec![0.0, 1.0, 2.0]));
    assert_eq!(drawing.computed.theta_e_2m_k, Some(vec![300.0, 301.0, 302.0]));
    assert_eq!(drawing.computed.surface_u10_ms, Some(vec![1.0; 3]));
    assert!(drawing.heavy[0].is_none());
    assert_eq!(drawing.heavy[1].as_ref().unwrap().values, vec![10.0, 11.0, 12.0]);
}

#[test]
fn stored_recipes_that_cannot_be_drawn_fail_the_whole() {
    let draw = |slugs: &[&str], grids: &[StoreProductGrid<f64>]| {
        let slugs: Vec<String> = slugs.iter().map(|slug| slug.to_string()).collect();
        render_derived_recipes_from_store_grids(
            &slugs,
            "west",
            &row_of_eight(),
            grids,
            None,
            &project_west,
        )
    };
    assert!(matches!(draw(&[], &[]), Ok(None)));
    assert!(draw(&["no_such_recipe"], &[]).err().unwrap().starts_with("no_such_recipe: "));
    assert_eq!(
        draw(&["sbcape"], &[]).err().unwrap(),
        "store render requested recipe 'sbcape' without its store grid"
    );
    assert_eq!(
        draw(&["sbcape"], &[grid("sbcape", vec![0.0; 7])]).err().unwrap(),
        "store grid 'sbcape' holds 7 values, expected 8"
    );
    assert_eq!(
        draw(
            &["theta_e_2m_10m_winds"],
            &[counting("theta_e_2m_10m_winds", 300.0)]
        )
        .err()
        .unwrap(),
        "store render of 'theta_e_2m_10m_winds' needs the stored 10 m u/v planes for its barb overlay"
    );
    let outside = |grid: &LatLonGrid<f64>| -> Result<HeavyProjection<usize>, String> {
        Ok(HeavyProjection {
            handle: 0,
            inside_x: vec![false; grid.shape.nx],
            inside_y: vec![true; grid.shape.nx],
        })
    };
    assert_eq!(
        render_derived_recipes_from_store_grids(
            &["sbcape".to_string()],
            "west",
            &row_of_eight(),
            &[counting("sbcape", 0.0)],
            None,
            &outside,
        )
        .err()
        .unwrap(),
        "store render projected crop for domain 'west' produced an empty domain"
    );
}

#[test]
fn titles_name_the_data_set_of_gdex_runs() {
    assert!(is_gdex_dataset_token("d010047"));
    assert!(!is_gdex_dataset_token("hrrr"));
    assert_eq!(derived_title_for_model(ModelId::Hrrr, "SBCAPE", " [test]"), "SBCAPE [test]");
    assert_eq!(
        derived_title_for_model(ModelId::WrfGdex, "SBCAPE", " [test]"),
        "SBCAPE (d612005) [test]"
    );
}

#[test]
fn bundles_of_a_derived_batch_are_planned() {
    let alone = build_derived_execution_plan(None, true, "sfc", &Vec::new());
    assert_eq!(alone.len(), 1);
    assert_eq!(alone[0].bundle, CanonicalBundleDescriptor::SurfaceAnalysis);
    assert!(build_derived_execution_plan(None, false, "sfc", &Vec::new()).is_empty());
    let pair = vec![BundleRequest {
        bundle: CanonicalBundleDescriptor::PressureAnalysis,
        native_override: None,
        logical_family: Some("prs".to_string()),
    }];
    let planned = build_derived_execution_plan(Some(pair), true, "sfc", &Vec::new());
    assert_eq!(planned.len(), 1);
    assert_eq!(planned[0].bundle, CanonicalBundleDescriptor::PressureAnalysis);
}

#[test]
fn rows_begin_where_longitudes_fall() {
    let mut values = vec![0, 1, 2, 3, 10, 11, 12, 13];
    let falls = [false, false, true, false, false, false, false, false];
    rotate_values_to_normalized_longitude_rows(&mut values, &falls, 4, 2);
    assert_eq!(values, vec![2, 3, 0, 1, 10, 11, 12, 13]);
    let mut other = vec![0, 1, 2];
    rotate_values_to_normalized_longitude_rows(&mut other, &falls, 4, 2);
    assert_eq!(other, vec![0, 1, 2]);
}

#[test]
fn data_is_framed_by_two_pixels() {
    let frame = model_data_domain_frame_for_projection(NativeProjection::Projected);
    assert_eq!((frame.inset_px, frame.outline_width), (2, 2));
}
