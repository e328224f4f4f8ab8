//! Heavy ECAPE and severe-weather domains, maps and reports.
use rustwx_products::ecape::{
    ecape_cape_ratio, ecape_map_fields, ecape_timing, effective_stp_inputs, ehi_03km_inputs,
    pair_unavailable, ratio_display_parcels, ratio_display_plots, scp_ehi_inputs, EcapeComposites,
    EcapeParcelFields, EcapeRatioDisplayParcel, EcapeTriplet, EffectiveLayerDiagnostics,
    NativeCapePlanes, WindDiagnostics,
};
use rustwx_products::gridded::crop::{GridCrop, ProjectedGridIntersection};
use rustwx_products::gridded::heavy_volume::PreparedHeavyVolumeTiming;
use rustwx_products::heavy::{
    ecape_subtitle_right, guard_heavy_domain, heavy_domain_cell_limit, heavy_domain_stats,
    heavy_groups, heavy_map_file_name, heavy_timing, model_slug, run_subtitle,
    severe_subtitle_right, DomainSpec, HeavyCropKind, HeavyRenderedArtifact,
};
use rustwx_products::heavy_batch::{
    plan_heavy_map_group, plan_ratio_display_group, HeavyFamily, RunNames,
};
use rustwx_products::numbers::{parse_positive, parse_usize};
use rustwx_products::panel::{WeatherPanelField, WeatherProduct};
use rustwx_products::sorted::{comes_before, insert_ordered};
use rustwx_products::text::{
    after_last, contains_str, replace_char, strip_prefix, strip_suffix, to_decimal, to_lowercase,
    to_padded_decimal, to_uppercase, trim,
};

fn domain() -> DomainSpec<()> {
    DomainSpec {
        slug: "midwest".to_string(),
        bounds: (),
    }
}

fn crop() -> GridCrop {
    GridCrop {
        x_start: 1,
        x_end: 3,
        y_start: 0,
        y_end: 2,
    }
}

#[test]
fn large_domains_are_refused_unless_allowed() {
    let stats = heavy_domain_stats(ProjectedGridIntersection::Crop(crop()), 4, 3, 5);
    assert_eq!(stats.full_cells, 12);
    assert_eq!(stats.cropped_cells, 4);
    assert_eq!(stats.crop_kind, HeavyCropKind::Crop);
    assert_eq!(guard_heavy_domain(&stats, &domain(), false, 4), Ok(()));
    assert_eq!(
        guard_heavy_domain(&stats, &domain(), false, 3),
        Err(
            "Refusing heavy ECAPE/severe compute on 4 cells \u{00D7} 5 levels for domain midwest. Use a smaller region or pass --allow-large-heavy-domain."
                .to_string()
        )
    );
    assert_eq!(guard_heavy_domain(&stats, &domain(), true, 3), Ok(()));
    let empty = heavy_domain_stats(ProjectedGridIntersection::Empty, 4, 3, 5);
    assert_eq!(
        guard_heavy_domain(&empty, &domain(), true, 100),
        Err("requested projected crop produced an empty heavy-compute domain".to_string())
    );
    let full = heavy_domain_stats(ProjectedGridIntersection::Full, 4, 3, 5);
    assert_eq!(full.cropped_cells, 12);
}

#[test]
fn the_cell_limit_is_a_positive_setting() {
    let usual = heavy_domain_cell_limit(None);
    assert_eq!(heavy_domain_cell_limit(Some("250")), 250);
    assert_eq!(heavy_domain_cell_limit(Some("0")), usual);
    assert_eq!(heavy_domain_cell_limit(Some("many")), usual);
    assert_eq!(parse_usize("+42"), Some(42));
    assert_eq!(parse_usize("-1"), None);
    assert_eq!(parse_usize(""), None);
    assert_eq!(parse_usize("99999999999999999999999"), None);
    assert_eq!(parse_positive(Some("0")), None);
    assert_eq!(parse_positive(Some("7")), Some(7));
}

#[test]
fn maps_are_named_by_run_and_product() {
    assert_eq!(
        heavy_map_file_name("hrrr", "20260414", 5, 7, "midwest", "ecape", "sbecape"),
        "rustwx_hrrr_20260414_5z_f007_midwest_ecape_sbecape.png"
    );
    assert_eq!(run_subtitle("20260414", 5, 7, "HRRR"), "20260414 5Z F007  HRRR");
    assert_eq!(
        ecape_subtitle_right("sb_ecape_native_cape_ratio", "source: aws"),
        "source: aws | EXP | native"
    );
    assert_eq!(
        ecape_subtitle_right("ml_ecape_derived_cape_ratio", "source: aws"),
        "source: aws | EXP | derived"
    );
    assert_eq!(ecape_subtitle_right("ecape_stp", "s"), "s | experimental");
    assert_eq!(ecape_subtitle_right("sbecape", "s"), "s");
    assert_eq!(severe_subtitle_right("stp_fixed", "s"), "s | fixed-layer composite");
    assert_eq!(severe_subtitle_right("sbcape", "s"), "s");
    assert!(!model_slug("rrfs-a").is_empty());
}

#[test]
fn severe_maps_carry_the_failures() {
    let artifact = |product: &str| HeavyRenderedArtifact {
        product: product.to_string(),
        title: product.to_string(),
        output_path: format!("{product}.png"),
        output_identity: 1u8,
    };
    let (severe, ecape) = heavy_groups(vec![artifact("stp_fixed")], vec![artifact("sbecape")], 3);
    assert_eq!(severe.family, "severe");
    assert_eq!(ecape.family, "ecape");
    assert_eq!(severe.outputs[0].product, "stp_fixed");
    assert_eq!(ecape.outputs[0].product, "sbecape");
    assert_eq!(ecape.failure_count, Some(3));
}

#[test]
fn compute_time_is_the_sum_of_its_steps() {
    let stats = heavy_domain_stats(ProjectedGridIntersection::Full, 4, 3, 5);
    let prepared = PreparedHeavyVolumeTiming {
        prepare_height_agl_ms: 10,
        broadcast_pressure_ms: 20,
        pressure_3d_bytes: 480,
    };
    let timing = heavy_timing(stats, 1, prepared, 100, 200, 7, 400);
    assert_eq!(timing.full_cells, 12);
    assert_eq!(timing.pressure_3d_bytes, 480);
    assert_eq!(timing.ecape_triplet_ms, 100);
    assert_eq!(timing.total_ms, 400);
}

fn parcel(base: f64) -> EcapeParcelFields<f64> {
    EcapeParcelFields {
        ecape_jkg: vec![base],
        ncape_jkg: vec![base + 1.0],
        cape_jkg: vec![base + 2.0],
        cin_jkg: vec![base + 3.0],
    }
}

fn triplet() -> EcapeTriplet<f64> {
    EcapeTriplet {
        sb: parcel(100.0),
        ml: parcel(200.0),
        mu: parcel(300.0),
    }
}

fn winds() -> WindDiagnostics<f64> {
    WindDiagnostics {
        srh_01km_m2s2: vec![1.0],
        srh_03km_m2s2: vec![3.0],
        shear_06km_ms: vec![6.0],
    }
}

#[test]
fn the_effective_composite_reads_the_effective_layer() {
    let triplet = triplet();
    let effective = EffectiveLayerDiagnostics {
        effective_srh_m2s2: vec![178.0],
        effective_bulk_wind_difference_ms: vec![35.0],
    };
    let lcl = vec![900.0];
    let inputs = effective_stp_inputs(&triplet, &lcl, &effective);
    assert_eq!(inputs.mlcape_jkg, &triplet.ml.ecape_jkg);
    assert_eq!(inputs.mlcin_jkg, &triplet.ml.cin_jkg);
    assert_eq!(inputs.ml_lcl_m, &lcl);
    assert_eq!(inputs.effective_srh_m2s2, &vec![178.0]);
    assert_eq!(inputs.effective_bulk_wind_difference_ms, &vec![35.0]);

    let winds = winds();
    let fixed = scp_ehi_inputs(&triplet, &winds);
    assert_eq!(fixed.scp_srh_m2s2, &winds.srh_03km_m2s2);
    assert_eq!(fixed.ehi_srh_m2s2, &winds.srh_01km_m2s2);
    let (_, srh) = ehi_03km_inputs(&triplet, &winds);
    assert_eq!(srh, &winds.srh_03km_m2s2);
}

fn map_fields(with_native: bool) -> Vec<WeatherPanelField<f64>> {
    let composites = EcapeComposites {
        scp: vec![1.0],
        ehi_01km: vec![2.0],
        ehi_03km: vec![3.0],
        stp: vec![4.0],
    };
    let native = vec![50.0];
    let planes = NativeCapePlanes {
        sb: if with_native { Some(&native) } else { None },
        ml: None,
        mu: None,
    };
    ecape_map_fields(&triplet(), &composites, &planes, &|a: f64, b: f64| a / b)
}

#[test]
fn panel_field_keeps_title_override() {
    let field = WeatherPanelField::new(WeatherProduct::StpFixed, "dimensionless", vec![1.0])
        .with_title_override("STP (FIXED)");
    assert_eq!(field.title_override.as_deref(), Some("STP (FIXED)"));
    assert_eq!(field.artifact_slug(), "stp_fixed");
    assert_eq!(field.values, vec![1.0]);
}

#[test]
fn maps_are_published_for_each_field() {
    let fields = map_fields(true);
    let find = |product: WeatherProduct| {
        fields
            .iter()
            .find(|field| field.product == product)
            .map(|field| (field.values[0], field.units.clone()))
    };
    assert_eq!(find(WeatherProduct::Sbecape), Some((100.0, "J/kg".to_string())));
    assert_eq!(find(WeatherProduct::Mlecape), Some((200.0, "J/kg".to_string())));
    assert_eq!(
        find(WeatherProduct::EcapeStpExperimental),
        Some((4.0, "dimensionless".to_string()))
    );
    assert_eq!(
        find(WeatherProduct::SbEcapeNativeCapeRatio),
        Some((2.0, "ratio".to_string()))
    );
    assert_eq!(find(WeatherProduct::MlEcapeNativeCapeRatio), None);
    assert_eq!(map_fields(false).len() + 1, fields.len());
    assert_eq!(
        ecape_cape_ratio(&[8.0, 9.0], &[2.0, 3.0], &|a: f64, b: f64| a / b),
        vec![4.0, 3.0]
    );
    let timing = ecape_timing(1, 2, 3, 4, 5);
    assert_eq!(timing.composites_ms, 8);
}

#[test]
fn ratio_displays_pair_fills_and_contours() {
    let fields = map_fields(false);
    let (ratio_fill, ecape_fill) =
        ratio_display_plots(EcapeRatioDisplayParcel::Sb, &fields, "src").ok().unwrap();
    assert_eq!(ratio_fill.title, "SB ECAPE/CAPE Ratio + Contours");
    assert_eq!(ratio_fill.artifact_slug, "sb_ratio_fill_contours");
    assert_eq!(ecape_fill.title, "SBECAPE + Ratio Contours");
    assert_eq!(ecape_fill.artifact_slug, "sb_ecape_fill_ratio_contours");
    assert_eq!(fields[ratio_fill.fill].artifact_slug(), "sb_ecape_derived_cape_ratio");
    assert_eq!(fields[ecape_fill.fill].artifact_slug(), "sbecape");
    assert_eq!(ratio_display_parcels().len(), 3);
    let none: Vec<WeatherPanelField<f64>> = Vec::new();
    assert!(ratio_display_plots(EcapeRatioDisplayParcel::Mu, &none, "src").is_err());
    assert_eq!(
        pair_unavailable("ECAPE", "no file"),
        "ECAPE surface/pressure pair unavailable: no file"
    );
}

fn run() -> RunNames<'static> {
    RunNames {
        model_slug: "hrrr",
        date_yyyymmdd: "20260414",
        cycle_utc: 5,
        forecast_hour: 7,
        domain_slug: "midwest",
    }
}

#[test]
fn each_field_is_planned_as_a_map() {
    let fields = map_fields(false);
    let plans = plan_heavy_map_group(&fields, HeavyFamily::Ecape, run(), "src");
    assert_eq!(plans.len(), fields.len());
    assert_eq!(
        plans[0].file_name,
        format!(
            "rustwx_hrrr_20260414_5z_f007_midwest_ecape_{}.png",
            fields[0].artifact_slug()
        )
    );
    let maps = plan_ratio_display_group(&fields, run(), "src").ok().unwrap();
    assert_eq!(maps.len(), 6);
    assert_eq!(
        maps[0].file_name,
        "rustwx_hrrr_20260414_5z_f007_midwest_ecape_ratio_display_sb_ratio_fill_contours.png"
    );
}

#[test]
fn texts_are_cut_and_joined() {
    assert_eq!(trim("\t a b \u{2003}"), "a b");
    assert_eq!(to_lowercase("HRRR-Ak"), "hrrr-ak");
    assert_eq!(to_uppercase("p50"), "P50");
    assert_eq!(to_decimal(0), "0");
    assert_eq!(to_decimal(1234567890), "1234567890");
    assert_eq!(to_padded_decimal(7, 3), "007");
    assert_eq!(to_padded_decimal(1234, 3), "1234");
    assert!(contains_str("abcabd", "abd"));
    assert!(!contains_str("abcabc", "abd"));
    assert_eq!(replace_char("a-b-c", '-', '_'), "a_b_c");
    assert_eq!(strip_prefix("SREF Mean", "SREF "), Some("Mean".to_string()));
    assert_eq!(strip_suffix("mean_3hrly", "_3hrly"), Some("mean".to_string()));
    assert_eq!(strip_suffix("mean", "_3hrly"), None);
    assert_eq!(after_last("a/b/c", '/'), "c");
    assert_eq!(after_last("abc", '/'), "abc");
    let mut list = vec!["a".to_string(), "c".to_string()];
    insert_ordered(&mut list, "b".to_string());
    insert_ordered(&mut list, "a".to_string());
    assert_eq!(list, vec!["a".to_string(), "b".to_string(), "c".to_string()]);
    assert!(comes_before("nat", "prs"));
    assert!(!comes_before("prs", "nat"));
}
