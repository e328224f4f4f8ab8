//! Batches of heavy maps: which maps are drawn, under which names, and what is
//! reported of a run.
use crate::ecape;
use crate::ecape::{ratio_display_parcels, ratio_display_plots, RatioDisplayPlot};
use crate::ecape_compute;
use crate::ecape_compute::EcapeAnswer;
use crate::gridded::fields::SurfaceFields;
use crate::gridded::heavy_volume::PreparedHeavyVolumeTiming;
use crate::gridded::runtime::SharedTiming;
use crate::heavy;
use crate::heavy::{
    ecape_subtitle_right, heavy_groups, heavy_map_file_name, heavy_timing, severe_subtitle_right,
    DomainSpec, HeavyComputeTiming, HeavyDomainStats, HeavyRenderedArtifact,
    HeavyRenderedArtifactGroup,
};
use crate::model::{ModelId, SourceId};
use crate::panel;
use crate::panel::WeatherPanelField;
use vstd::prelude::*;
use vstd::string::*;

verus! {

/// A batch of heavy maps. `B` is the type of the domain's bounds.
pub struct EcapeBatchRequest<B> {
    pub model: ModelId,
    pub date_yyyymmdd: String,
    pub cycle_override_utc: Option<u8>,
    pub forecast_hour: u16,
    pub source: SourceId,
    pub domain: DomainSpec<B>,
    pub use_cache: bool,
    pub surface_product_override: Option<String>,
    pub pressure_product_override: Option<String>,
    pub allow_large_heavy_domain: bool,
}

/// The family that heavy maps belong to.
#[derive(Debug, Clone, Copy, PartialEq, Eq, Structural)]
pub enum HeavyFamily {
    Ecape,
    Severe,
}

impl HeavyFamily {
    pub open spec fn spec_slug(self) -> Seq<char> {
        match self {
            HeavyFamily::Ecape => "ecape"@,
            HeavyFamily::Severe => "severe"@,
        }
    }

    /// What is added to the source on the right of a map.
    pub open spec fn note(self, slug: Seq<char>) -> Seq<char> {
        match self {
            HeavyFamily::Ecape => heavy::ecape_note(slug),
            HeavyFamily::Severe => heavy::severe_note(slug),
        }
    }

    /// The name of the family in file names.
    pub fn slug(self) -> (slug: &'static str)
        ensures
            slug@ == self.spec_slug(),
    {
        match self {
            HeavyFamily::Ecape => "ecape",
            HeavyFamily::Severe => "severe",
        }
    }
}

/// The run that maps are drawn from, as their file names give it.
pub struct RunNames<'a> {
    pub model_slug: &'a str,
    pub date_yyyymmdd: &'a str,
    pub cycle_utc: u8,
    pub forecast_hour: u16,
    pub domain_slug: &'a str,
}

impl<'a> RunNames<'a> {
    /// The file name of a map of a family.
    pub open spec fn file_name(self, family: Seq<char>, product: Seq<char>) -> Seq<char> {
        heavy::map_file_name(
            self.model_slug@,
            self.date_yyyymmdd@,
            self.cycle_utc,
            self.forecast_hour,
            self.domain_slug@,
            family,
            product,
        )
    }
}

/// A map that is drawn: its product, its file name and its right subtitle.
pub struct HeavyMapPlan {
    pub product: String,
    pub file_name: String,
    pub subtitle_right: String,
}

/// Whether a plan is that of a field.
pub open spec fn plans_map<'a, T>(
    plan: HeavyMapPlan,
    field: WeatherPanelField<T>,
    family: HeavyFamily,
    run: RunNames<'a>,
    source_label: Seq<char>,
) -> bool {
    let slug = field.spec_artifact_slug();
    &&& plan.product@ == slug
    &&& plan.file_name@ == run.file_name(family.spec_slug(), slug)
    &&& plan.subtitle_right@ == source_label + family.note(slug)
}

/// Plans the maps of a family: one for each field, in order.
pub fn plan_heavy_map_group<'a, T>(
    fields: &Vec<WeatherPanelField<T>>,
    family: HeavyFamily,
    run: RunNames<'a>,
    source_label: &str,
) -> (plans: Vec<HeavyMapPlan>)
    ensures
        plans@.len() == fields@.len(),
        forall|i: int|
            0 <= i < fields@.len() ==> plans_map(
                #[trigger] plans@[i],
                fields@[i],
                family,
                run,
                source_label@,
            ),
{
    let mut plans: Vec<HeavyMapPlan> = Vec::new();
    let mut i: usize = 0;
    while i < fields.len()
        invariant
            i <= fields@.len(),
            plans@.len() == i,
            forall|k: int|
                0 <= k < i ==> plans_map(
                    #[trigger] plans@[k],
                    fields@[k],
                    family,
                    run,
                    source_label@,
                ),
        decreases fields@.len() - i,
    {
        let slug = fields[i].artifact_slug();
        let subtitle_right = match family {
            HeavyFamily::Ecape => ecape_subtitle_right(slug, source_label),
            HeavyFamily::Severe => severe_subtitle_right(slug, source_label),
        };
        plans.push(
            HeavyMapPlan {
                product: slug.to_owned(),
                file_name: heavy_map_file_name(
                    run.model_slug,
                    run.date_yyyymmdd,
                    run.cycle_utc,
                    run.forecast_hour,
                    run.domain_slug,
                    family.slug(),
                    slug,
                ),
                subtitle_right,
            },
        );
        i = i + 1;
    }
    plans
}

/// A ratio map that is drawn, and its file name.
pub struct RatioDisplayMap {
    pub plot: RatioDisplayPlot,
    pub file_name: String,
}

/// The parcels whose ratios are shown, in order.
pub open spec fn shown_parcels() -> Seq<ecape::EcapeRatioDisplayParcel> {
    seq![
        ecape::EcapeRatioDisplayParcel::Sb,
        ecape::EcapeRatioDisplayParcel::Ml,
        ecape::EcapeRatioDisplayParcel::Mu,
    ]
}

/// The slug of the first field that the ratio maps of a parcel miss.
pub open spec fn parcel_gap<T>(
    parcel: ecape::EcapeRatioDisplayParcel,
    fields: Seq<WeatherPanelField<T>>,
) -> Option<Seq<char>> {
    if panel::first_with_slug(fields, parcel.spec_ecape_slug()) is None {
        Some(parcel.spec_ecape_slug())
    } else if panel::first_with_slug(fields, parcel.spec_ratio_slug()) is None {
        Some(parcel.spec_ratio_slug())
    } else {
        None
    }
}

/// Whether maps are the two of each of the first parcels.
pub open spec fn shows_parcels<'a, T>(
    maps: Seq<RatioDisplayMap>,
    count: int,
    fields: Seq<WeatherPanelField<T>>,
    run: RunNames<'a>,
    source_label: Seq<char>,
) -> bool {
    &&& maps.len() == 2 * count
    &&& forall|p: int|
        0 <= p < count ==> #[trigger] shows_parcel(maps, p, fields, run, source_label)
}

/// Whether two maps of a list are those of a parcel.
pub open spec fn shows_parcel<'a, T>(
    maps: Seq<RatioDisplayMap>,
    p: int,
    fields: Seq<WeatherPanelField<T>>,
    run: RunNames<'a>,
    source_label: Seq<char>,
) -> bool {
    let first = maps[2 * p];
    let second = maps[2 * p + 1];
    &&& ecape::plots_of(shown_parcels()[p], fields, source_label, (first.plot, second.plot))
    &&& first.file_name@ == run.file_name("ecape_ratio_display"@, first.plot.artifact_slug@)
    &&& second.file_name@ == run.file_name("ecape_ratio_display"@, second.plot.artifact_slug@)
}

/// Plans the ratio maps: for each parcel the ratio filled and the energy filled. A
/// field that is missing ends the batch.
pub fn plan_ratio_display_group<'a, T>(
    fields: &Vec<WeatherPanelField<T>>,
    run: RunNames<'a>,
    source_label: &str,
) -> (maps: Result<Vec<RatioDisplayMap>, String>)
    ensures
        match maps {
            Ok(maps) => shows_parcels(maps@, 3, fields@, run, source_label@),
            Err(message) => exists|p: int|
                0 <= p < 3 && #[trigger] parcel_gap(shown_parcels()[p], fields@) is Some && message@
                    == ecape::missing_field(parcel_gap(shown_parcels()[p], fields@)->Some_0)
                    && forall|q: int|
                    0 <= q < p ==> parcel_gap(#[trigger] shown_parcels()[q], fields@) is None,
        },
{
    let parcels = ratio_display_parcels();
    let mut maps: Vec<RatioDisplayMap> = Vec::new();
    let mut p: usize = 0;
    while p < 3
        invariant
            p <= 3,
            parcels@ == shown_parcels(),
            shows_parcels(maps@, p as int, fields@, run, source_label@),
            forall|q: int|
                0 <= q < p ==> parcel_gap(#[trigger] shown_parcels()[q], fields@) is None,
        decreases 3 - p,
    {
        let ghost before = maps@;
        match ratio_display_plots(parcels[p], fields, source_label) {
            Ok((first, second)) => {
                let first_name = heavy_map_file_name(
                    run.model_slug,
                    run.date_yyyymmdd,
                    run.cycle_utc,
                    run.forecast_hour,
                    run.domain_slug,
                    "ecape_ratio_display",
                    first.artifact_slug.as_str(),
                );
                let second_name = heavy_map_file_name(
                    run.model_slug,
                    run.date_yyyymmdd,
                    run.cycle_utc,
                    run.forecast_hour,
                    run.domain_slug,
                    "ecape_ratio_display",
                    second.artifact_slug.as_str(),
                );
                maps.push(RatioDisplayMap { plot: first, file_name: first_name });
                maps.push(RatioDisplayMap { plot: second, file_name: second_name });
                proof {
                    assert forall|q: int| 0 <= q < p + 1 implies #[trigger] shows_parcel(
                        maps@,
                        q,
                        fields@,
                        run,
                        source_label@,
                    ) by {
                        if q < p {
                            assert(shows_parcel(before, q, fields@, run, source_label@));
                            assert(maps@[2 * q] == before[2 * q]);
                            assert(maps@[2 * q + 1] == before[2 * q + 1]);
                        }
                    }
                }
            },
            Err(message) => {
                proof {
                    assert(parcel_gap(shown_parcels()[p as int], fields@) is Some);
                }
                return Err(message);
            },
        }
        p = p + 1;
    }
    Ok(maps)
}

/// What is reported of a batch of heavy maps. `I` identifies the content of a
/// file, `X` a fetch, `F` the family of a bundle.
pub struct EcapeBatchReport<B, I, X, F> {
    pub model: ModelId,
    pub date_yyyymmdd: String,
    pub cycle_utc: u8,
    pub forecast_hour: u16,
    pub source: SourceId,
    pub domain: DomainSpec<B>,
    pub outputs: Vec<HeavyRenderedArtifact<I>>,
    pub input_fetches: Vec<X>,
    pub shared_timing: SharedTiming<F>,
    pub heavy_timing: HeavyComputeTiming,
    pub project_ms: u128,
    pub compute_ms: u128,
    pub render_ms: u128,
    pub total_ms: u128,
    pub failure_count: usize,
}

/// The measured times of a heavy run.
#[derive(Debug, Clone, Copy, PartialEq, Eq, Structural)]
pub struct HeavyMeasurement {
    pub crop_ms: u128,
    pub prepared: PreparedHeavyVolumeTiming,
    pub ecape_triplet_ms: u128,
    pub severe_fields_ms: u128,
    pub project_ms: u128,
    pub compute_ms: u128,
    pub render_ms: u128,
    pub total_ms: u128,
}

/// The times of a heavy run beside the sizes of its domain.
pub open spec fn timing_of(stats: HeavyDomainStats, measured: HeavyMeasurement) -> HeavyComputeTiming {
    HeavyComputeTiming {
        full_cells: stats.full_cells,
        cropped_cells: stats.cropped_cells,
        pressure_levels: stats.pressure_levels,
        crop_kind: stats.crop_kind,
        crop_ms: measured.crop_ms,
        prepare_height_agl_ms: measured.prepared.prepare_height_agl_ms,
        broadcast_pressure_ms: measured.prepared.broadcast_pressure_ms,
        pressure_3d_bytes: measured.prepared.pressure_3d_bytes,
        ecape_triplet_ms: measured.ecape_triplet_ms,
        severe_fields_ms: measured.severe_fields_ms,
        render_ms: measured.render_ms,
        total_ms: measured.total_ms,
    }
}

/// Reports a batch of ECAPE maps, which computes no severe fields. The cycle and
/// the source are those of the run that was found.
pub fn ecape_batch_report<B, I, X, F>(
    request: EcapeBatchRequest<B>,
    cycle_utc: u8,
    source: SourceId,
    stats: HeavyDomainStats,
    outputs: Vec<HeavyRenderedArtifact<I>>,
    input_fetches: Vec<X>,
    shared_timing: SharedTiming<F>,
    measured: HeavyMeasurement,
    failure_count: usize,
) -> (report: EcapeBatchReport<B, I, X, F>)
    ensures
        report == (EcapeBatchReport {
            model: request.model,
            date_yyyymmdd: request.date_yyyymmdd,
            cycle_utc,
            forecast_hour: request.forecast_hour,
            source,
            domain: request.domain,
            outputs,
            input_fetches,
            shared_timing,
            heavy_timing: (HeavyComputeTiming { severe_fields_ms: 0, ..timing_of(stats, measured) }),
            project_ms: measured.project_ms,
            compute_ms: measured.compute_ms,
            render_ms: measured.render_ms,
            total_ms: measured.total_ms,
            failure_count,
        }),
{
    EcapeBatchReport {
        model: request.model,
        date_yyyymmdd: request.date_yyyymmdd,
        cycle_utc,
        forecast_hour: request.forecast_hour,
        source,
        domain: request.domain,
        outputs,
        input_fetches,
        shared_timing,
        heavy_timing: heavy_timing(
            stats,
            measured.crop_ms,
            measured.prepared,
            measured.ecape_triplet_ms,
            0,
            measured.render_ms,
            measured.total_ms,
        ),
        project_ms: measured.project_ms,
        compute_ms: measured.compute_ms,
        render_ms: measured.render_ms,
        total_ms: measured.total_ms,
        failure_count,
    }
}

/// What is reported of an hour of heavy panels.
pub struct HeavyPanelHourReport<B, I, X, F> {
    pub model: ModelId,
    pub date_yyyymmdd: String,
    pub cycle_utc: u8,
    pub forecast_hour: u16,
    pub source: SourceId,
    pub domain: DomainSpec<B>,
    pub input_fetches: Vec<X>,
    pub shared_timing: SharedTiming<F>,
    pub project_ms: u128,
    pub compute_ms: u128,
    pub heavy_timing: HeavyComputeTiming,
    pub severe: HeavyRenderedArtifactGroup<I>,
    pub ecape: HeavyRenderedArtifactGroup<I>,
    pub total_ms: u128,
}

/// Reports an hour of heavy panels: both families, drawn one after the other.
pub fn heavy_panel_hour_report<B, I, X, F>(
    request: EcapeBatchRequest<B>,
    cycle_utc: u8,
    source: SourceId,
    stats: HeavyDomainStats,
    ecape_outputs: Vec<HeavyRenderedArtifact<I>>,
    severe_outputs: Vec<HeavyRenderedArtifact<I>>,
    input_fetches: Vec<X>,
    shared_timing: SharedTiming<F>,
    measured: HeavyMeasurement,
    ecape_render_ms: u128,
    severe_render_ms: u128,
    failure_count: usize,
) -> (report: HeavyPanelHourReport<B, I, X, F>)
    requires
        ecape_render_ms + severe_render_ms <= u128::MAX,
    ensures
        report.model == request.model,
        report.date_yyyymmdd == request.date_yyyymmdd,
        report.cycle_utc == cycle_utc,
        report.forecast_hour == request.forecast_hour,
        report.source == source,
        report.domain == request.domain,
        report.input_fetches == input_fetches,
        report.shared_timing == shared_timing,
        report.project_ms == measured.project_ms,
        report.compute_ms == measured.compute_ms,
        report.heavy_timing == (HeavyComputeTiming {
            render_ms: (ecape_render_ms + severe_render_ms) as u128,
            ..timing_of(stats, measured)
        }),
        report.severe.family@ == "severe"@,
        report.severe.outputs == severe_outputs,
        report.severe.failure_count is None,
        report.ecape.family@ == "ecape"@,
        report.ecape.outputs == ecape_outputs,
        report.ecape.failure_count == Some(failure_count),
        report.total_ms == measured.total_ms,
{
    let render_ms: u128 = ecape_render_ms + severe_render_ms;
    let (severe, ecape) = heavy_groups(severe_outputs, ecape_outputs, failure_count);
    HeavyPanelHourReport {
        model: request.model,
        date_yyyymmdd: request.date_yyyymmdd,
        cycle_utc,
        forecast_hour: request.forecast_hour,
        source,
        domain: request.domain,
        input_fetches,
        shared_timing,
        project_ms: measured.project_ms,
        compute_ms: measured.compute_ms,
        heavy_timing: heavy_timing(
            stats,
            measured.crop_ms,
            measured.prepared,
            measured.ecape_triplet_ms,
            measured.severe_fields_ms,
            render_ms,
            measured.total_ms,
        ),
        severe,
        ecape,
        total_ms: measured.total_ms,
    }
}

/// The ratio maps find their fields among the published ECAPE fields.
pub proof fn law_ratio_maps_find_their_fields<T, P, R: Fn(T, T) -> T>(
    surface: SurfaceFields<T, P>,
    answers: Seq<EcapeAnswer<T>>,
    ratio: R,
    fields: Seq<WeatherPanelField<T>>,
    p: int,
)
    requires
        ecape_compute::published(surface, answers, ratio, fields),
        0 <= p < shown_parcels().len(),
    ensures
        parcel_gap(shown_parcels()[p], fields) is None,
{
    let products = ecape::published_products(
        surface.native_sbcape_jkg is Some,
        surface.native_mlcape_jkg is Some,
        surface.native_mucape_jkg is Some,
    );
    let parcel = shown_parcels()[p];
    panel::lemma_first_with_slug(fields, parcel.spec_ecape_slug());
    panel::lemma_first_with_slug(fields, parcel.spec_ratio_slug());
    assert(products[p] == ecape::standard_products()[p]);
    assert(products[p + 3] == ecape::standard_products()[p + 3]);
    assert(fields[p].product == products[p]);
    assert(fields[p + 3].product == products[p + 3]);
    assert(fields[p].spec_artifact_slug() == parcel.spec_ecape_slug());
    assert(fields[p + 3].spec_artifact_slug() == parcel.spec_ratio_slug());
}

} // verus!
