//! Batches of HRRR panels.
use rustwx_products::hrrr::{
    build_hrrr_shared_timing, dedupe_products, failed_render_job, hrrr_panel_file_name,
    hrrr_panel_header, hrrr_rendered_product, layouts_to_project, needs_heavy_volume,
    panicked_job, png_render_parallelism, render_schedule, resolve_hrrr_run, BundleFetch,
    HrrrBatchProduct, HrrrFetchRuntimeInfo, HrrrProductMetadata, HrrrProductTiming, HrrrRun,
    LoadedBundle, RenderStep, WeatherPanelLayout,
};
use rustwx_products::model::{ModelId, SourceId};

#[test]
fn explicit_hrrr_cycle_avoids_latest_probe() {
    let latest = resolve_hrrr_run("20260414", Some(19), 0, SourceId::Aws);
    match latest {
        HrrrRun::Pinned {
            model,
            date_yyyymmdd,
            hour_utc,
            source,
        } => {
            assert_eq!(model, ModelId::Hrrr);
            assert_eq!(date_yyyymmdd, "20260414");
            assert_eq!(hour_utc, 19);
            assert_eq!(source, SourceId::Aws);
        }
        HrrrRun::Latest { .. } => panic!("a given cycle is taken as it is"),
    }
}

#[test]
fn a_run_without_a_cycle_is_looked_up() {
    match resolve_hrrr_run("20260414", None, 6, SourceId::Nomads) {
        HrrrRun::Latest {
            model,
            date_yyyymmdd,
            forecast_hour,
            source,
        } => {
            assert_eq!(model, ModelId::Hrrr);
            assert_eq!(date_yyyymmdd, "20260414");
            assert_eq!(forecast_hour, 6);
            assert_eq!(source, SourceId::Nomads);
        }
        HrrrRun::Pinned { .. } => panic!("no cycle was given"),
    }
}

#[test]
fn fetch_runtime_info_keeps_planned_and_actual_fetch_truth() {
    let runtime = HrrrFetchRuntimeInfo {
        planned_product: "nat".to_string(),
        fetched_product: "sfc".to_string(),
        requested_source: SourceId::Nomads,
        resolved_source: SourceId::Nomads,
        resolved_url: "https://example.test/hrrr.t23z.wrfsfcf06.grib2".to_string(),
    };

    assert_eq!(runtime.planned_product, "nat");
    assert_eq!(runtime.fetched_product, "sfc");
    assert_ne!(runtime.planned_product, runtime.fetched_product);
    assert_eq!(runtime.requested_source, SourceId::Nomads);
    assert_eq!(runtime.resolved_source, SourceId::Nomads);
    assert!(runtime.resolved_url.contains("wrfsfc"));
}

#[test]
fn batch_product_dedupe_preserves_first_seen_order() {
    let products = dedupe_products(&[
        HrrrBatchProduct::SevereProofPanel,
        HrrrBatchProduct::SevereProofPanel,
    ]);
    assert_eq!(products, vec![HrrrBatchProduct::SevereProofPanel]);
}

fn bundle(product: &str, fetched: &str) -> LoadedBundle {
    LoadedBundle {
        planned_product: Some(product.to_string()),
        fetched: Some(BundleFetch {
            fetch_ms: 12,
            cache_hit: true,
            fetched_product: fetched.to_string(),
            source_override: None,
            resolved_source: SourceId::Aws,
            resolved_url: "https://example.test/file".to_string(),
        }),
        decode_cache_hit: Some(false),
    }
}

#[test]
fn shared_timing_joins_both_bundles() {
    let timing = build_hrrr_shared_timing(bundle("nat", "sfc"), bundle("prs", "prs")).unwrap();
    assert_eq!(timing.fetch_surface_ms, 12);
    assert!(timing.fetch_pressure_cache_hit);
    assert!(!timing.decode_surface_cache_hit);
    assert_eq!(timing.surface_fetch.planned_product, "nat");
    assert_eq!(timing.surface_fetch.fetched_product, "sfc");
    assert_eq!(timing.pressure_fetch.requested_source, SourceId::Aws);
}

#[test]
fn shared_timing_names_what_is_missing() {
    let message = |surface, pressure| build_hrrr_shared_timing(surface, pressure).unwrap_err();
    let without_plan = |mut bundle: LoadedBundle| {
        bundle.planned_product = None;
        bundle
    };
    let without_fetch = |mut bundle: LoadedBundle| {
        bundle.fetched = None;
        bundle
    };
    let without_decode = |mut bundle: LoadedBundle| {
        bundle.decode_cache_hit = None;
        bundle
    };
    let (sfc, prs) = (|| bundle("sfc", "sfc"), || bundle("prs", "prs"));
    assert_eq!(
        message(without_plan(sfc()), prs()),
        "loaded bundle set missing surface analysis for HRRR shared timing"
    );
    assert_eq!(
        message(sfc(), without_plan(prs())),
        "loaded bundle set missing pressure analysis for HRRR shared timing"
    );
    assert_eq!(
        message(without_fetch(sfc()), prs()),
        "loader missing surface fetch for HRRR shared timing"
    );
    assert_eq!(
        message(sfc(), without_fetch(prs())),
        "loader missing pressure fetch for HRRR shared timing"
    );
    assert_eq!(
        message(without_decode(sfc()), prs()),
        "loader missing surface decode for HRRR shared timing"
    );
    assert_eq!(
        message(sfc(), without_decode(prs())),
        "loader missing pressure decode for HRRR shared timing"
    );
}

#[test]
fn panels_are_named_by_run_and_product() {
    let product = HrrrBatchProduct::SevereProofPanel;
    assert_eq!(product.slug(), "severe_proof_panel");
    assert_eq!(
        hrrr_panel_file_name("20260414", 5, 6, "midwest", product),
        "rustwx_hrrr_20260414_5z_f06_midwest_severe_proof_panel.png"
    );
    let header = hrrr_panel_header(product, "20260414", 5, 6);
    assert_eq!(
        header.title,
        "HRRR Severe Proof Panel  Run: 20260414 05:00 UTC  Forecast Hour: F06"
    );
    assert_eq!(header.subtitle_lines.len(), 2);
    assert!(needs_heavy_volume(&[product]));
    assert!(!needs_heavy_volume(&[]));
}

#[test]
fn drawing_runs_within_its_limit_and_ends_in_order() {
    let steps = render_schedule(4, 2);
    let mut running = 0usize;
    let mut started = Vec::new();
    let mut ended = Vec::new();
    for step in steps {
        match step {
            RenderStep::Start(job) => {
                running += 1;
                assert!(running <= 2);
                started.push(job);
            }
            RenderStep::Join(job) => {
                running -= 1;
                ended.push(job);
            }
        }
    }
    assert_eq!(started, vec![0, 1, 2, 3]);
    assert_eq!(ended, vec![0, 1, 2, 3]);
    assert_eq!(png_render_parallelism(Some("3"), Some(8), 10), 3);
    assert!(png_render_parallelism(None, None, 10) >= 1);
    assert_eq!(panicked_job(Some("index out of range")), "worker panicked: index out of range");
    assert_eq!(panicked_job(None), "worker panicked: unknown panic");
    assert_eq!(failed_render_job("no disk"), "render worker failed: no disk");
}

#[test]
fn layouts_are_projected_once() {
    let usual = WeatherPanelLayout {
        panel_width: 800,
        panel_height: 500,
        top_padding: 40,
    };
    let products = [
        HrrrBatchProduct::SevereProofPanel,
        HrrrBatchProduct::SevereProofPanel,
    ];
    let layouts = layouts_to_project(&products, usual);
    assert_eq!(layouts, vec![HrrrBatchProduct::SevereProofPanel.layout(usual)]);
}

#[test]
fn a_rendered_panel_carries_its_fetch_keys() {
    let timing = HrrrProductTiming {
        project_ms: 1,
        compute_ms: 2,
        render_ms: 3,
        total_ms: 6,
    };
    let rendered = hrrr_rendered_product(
        HrrrBatchProduct::SevereProofPanel,
        "out.png".to_string(),
        timing,
        9u8,
        &["a".to_string(), "b".to_string()],
    );
    assert_eq!(rendered.output_path, "out.png");
    assert_eq!(rendered.timing, timing);
    assert_eq!(rendered.metadata, HrrrProductMetadata::default());
    assert_eq!(rendered.content_identity, Some(9));
    assert_eq!(rendered.input_fetch_keys, vec!["a".to_string(), "b".to_string()]);
}
