//! Batches of panels of the HRRR model: what is drawn, in which order the drawing
//! jobs run, and what is reported.
use crate::derived::presentation;
use crate::heavy::DomainSpec;
use crate::model::{ModelId, SourceId};
use crate::numbers;
use crate::numbers::parse_positive;
use crate::text;
use crate::text::{copy_strings, to_decimal, to_padded_decimal};
use vstd::prelude::*;
use vstd::string::*;

verus! {

/// A product of a batch.
#[derive(Debug, Clone, Copy, PartialEq, Eq, Structural)]
pub enum HrrrBatchProduct {
    SevereProofPanel,
}

/// The size of the panels of a product and of the space above them.
#[derive(Debug, Clone, Copy, PartialEq, Eq, Structural)]
pub struct WeatherPanelLayout {
    pub panel_width: u32,
    pub panel_height: u32,
    pub top_padding: u32,
}

impl HrrrBatchProduct {
    /// The name of a product in file names.
    pub open spec fn spec_slug(self) -> Seq<char> {
        match self {
            HrrrBatchProduct::SevereProofPanel => "severe_proof_panel"@,
        }
    }

    /// The name of a product in file names.
    pub fn slug(self) -> (slug: &'static str)
        ensures
            slug@ == self.spec_slug(),
    {
        match self {
            HrrrBatchProduct::SevereProofPanel => "severe_proof_panel",
        }
    }

    /// The layout of a product: the usual one with more space above the panels.
    pub open spec fn spec_layout(self, usual: WeatherPanelLayout) -> WeatherPanelLayout {
        match self {
            HrrrBatchProduct::SevereProofPanel => WeatherPanelLayout { top_padding: 86, ..usual },
        }
    }

    /// The layout of a product: the usual one with more space above the panels.
    pub fn layout(self, usual: WeatherPanelLayout) -> (layout: WeatherPanelLayout)
        ensures
            layout == self.spec_layout(usual),
    {
        match self {
            HrrrBatchProduct::SevereProofPanel => WeatherPanelLayout {
                panel_width: usual.panel_width,
                panel_height: usual.panel_height,
                top_padding: 86,
            },
        }
    }
}

/// A batch of panels. `B` is the type of the domain's bounds.
pub struct HrrrBatchRequest<B> {
    pub date_yyyymmdd: String,
    pub cycle_override_utc: Option<u8>,
    pub forecast_hour: u16,
    pub source: SourceId,
    pub domain: DomainSpec<B>,
    pub use_cache: bool,
    pub products: Vec<HrrrBatchProduct>,
    pub allow_large_heavy_domain: bool,
}

/// What was planned and what was fetched for one bundle.
#[derive(Debug)]
pub struct HrrrFetchRuntimeInfo {
    pub planned_product: String,
    pub fetched_product: String,
    pub requested_source: SourceId,
    pub resolved_source: SourceId,
    pub resolved_url: String,
}

/// The times of a load, and what came from a cache.
#[derive(Debug)]
pub struct HrrrSharedTiming {
    pub fetch_surface_ms: u128,
    pub fetch_pressure_ms: u128,
    pub decode_surface_ms: u128,
    pub decode_pressure_ms: u128,
    pub fetch_surface_cache_hit: bool,
    pub fetch_pressure_cache_hit: bool,
    pub decode_surface_cache_hit: bool,
    pub decode_pressure_cache_hit: bool,
    pub surface_fetch: HrrrFetchRuntimeInfo,
    pub pressure_fetch: HrrrFetchRuntimeInfo,
}

/// The times of a product.
#[derive(Debug, Clone, Copy, PartialEq, Eq, Structural)]
pub struct HrrrProductTiming {
    pub project_ms: u128,
    pub compute_ms: u128,
    pub render_ms: u128,
    pub total_ms: u128,
}

/// What is noted of a product beside its times.
#[derive(Debug, Clone, Copy, PartialEq, Eq, Structural)]
pub struct HrrrProductMetadata {
    pub failure_count: Option<usize>,
}

impl Default for HrrrProductMetadata {
    fn default() -> (metadata: Self)
        ensures
            metadata.failure_count is None,
    {
        HrrrProductMetadata { failure_count: None }
    }
}

/// A product that was drawn. `I` identifies the content of its file.
pub struct HrrrRenderedProduct<I> {
    pub product: HrrrBatchProduct,
    pub output_path: String,
    pub timing: HrrrProductTiming,
    pub metadata: HrrrProductMetadata,
    pub content_identity: Option<I>,
    pub input_fetch_keys: Vec<String>,
}

/// Which run a batch is drawn from: the one that it names, or the latest that has
/// the forecast hour.
#[derive(Debug)]
pub enum HrrrRun {
    Pinned { model: ModelId, date_yyyymmdd: String, hour_utc: u8, source: SourceId },
    Latest { model: ModelId, date_yyyymmdd: String, forecast_hour: u16, source: SourceId },
}

/// Which run a batch is drawn from. A batch that names its cycle needs no search.
pub fn resolve_hrrr_run(
    date: &str,
    cycle_override: Option<u8>,
    forecast_hour: u16,
    source: SourceId,
) -> (run: HrrrRun)
    ensures
        match cycle_override {
            Some(hour) => run is Pinned && run->Pinned_model == ModelId::Hrrr
                && run->Pinned_date_yyyymmdd@ == date@ && run->hour_utc == hour
                && run->Pinned_source == source,
            None => run is Latest && run->Latest_model == ModelId::Hrrr
                && run->Latest_date_yyyymmdd@ == date@ && run->forecast_hour == forecast_hour
                && run->Latest_source == source,
        },
{
    match cycle_override {
        Some(hour_utc) => HrrrRun::Pinned {
            model: ModelId::Hrrr,
            date_yyyymmdd: date.to_owned(),
            hour_utc,
            source,
        },
        None => HrrrRun::Latest {
            model: ModelId::Hrrr,
            date_yyyymmdd: date.to_owned(),
            forecast_hour,
            source,
        },
    }
}

/// The products of a list, each once, in the order in which they came first.
pub fn dedupe_products(products: &[HrrrBatchProduct]) -> (unique: Vec<HrrrBatchProduct>)
    ensures
        unique@ == text::with_all_distinct(Seq::empty(), products@),
{
    let mut unique: Vec<HrrrBatchProduct> = Vec::new();
    let mut i: usize = 0;
    proof {
        assert(products@.take(0) =~= Seq::empty());
    }
    while i < products.len()
        invariant
            i <= products@.len(),
            unique@ == text::with_all_distinct(
                Seq::<HrrrBatchProduct>::empty(),
                products@.take(i as int),
            ),
        decreases products@.len() - i,
    {
        proof {
            assert(products@.take(i + 1).drop_last() == products@.take(i as int));
        }
        if !contains_product(unique.as_slice(), products[i]) {
            unique.push(products[i]);
        }
        i = i + 1;
    }
    proof {
        assert(products@.take(i as int) == products@);
    }
    unique
}

fn contains_product(list: &[HrrrBatchProduct], product: HrrrBatchProduct) -> (found: bool)
    ensures
        found == list@.contains(product),
{
    let mut i: usize = 0;
    while i < list.len()
        invariant
            i <= list@.len(),
            forall|k: int| 0 <= k < i ==> list@[k] != product,
        decreases list@.len() - i,
    {
        if list[i] == product {
            return true;
        }
        i = i + 1;
    }
    false
}

/// Whether any product of a batch needs the volume of the heavy computations.
pub fn needs_heavy_volume(products: &[HrrrBatchProduct]) -> (yes: bool)
    ensures
        yes == products@.contains(HrrrBatchProduct::SevereProofPanel),
{
    contains_product(products, HrrrBatchProduct::SevereProofPanel)
}

/// The title and the lines above the panels of a product.
#[derive(Debug)]
pub struct WeatherPanelHeader {
    pub title: String,
    pub subtitle_lines: Vec<String>,
}

/// The title above the panels of a severe-weather product.
pub open spec fn severe_title(date: Seq<char>, cycle_utc: u8, forecast_hour: u16) -> Seq<char> {
    "HRRR Severe Proof Panel  Run: "@ + date + " "@ + text::zero_padded(
        text::decimal(cycle_utc as nat),
        2,
    ) + ":00 UTC  Forecast Hour: F"@ + text::zero_padded(text::decimal(forecast_hour as nat), 2)
}

/// The lines above the panels of a severe-weather product.
pub open spec fn severe_notes() -> Seq<Seq<char>> {
    seq![
        "STP is fixed-layer only: sbCAPE + sbLCL + 0-1 km SRH + 0-6 km bulk shear."@,
        "SCP stays a fixed-depth proxy here: muCAPE + 0-3 km SRH + 0-6 km shear. EHI 0-1 km uses sbCAPE + 0-1 km SRH. Effective-layer derivation is not wired yet."@,
    ]
}

/// The title and the lines above the panels of a product.
pub fn hrrr_panel_header(
    product: HrrrBatchProduct,
    date_yyyymmdd: &str,
    cycle_utc: u8,
    forecast_hour: u16,
) -> (header: WeatherPanelHeader)
    ensures
        header.title@ == severe_title(date_yyyymmdd@, cycle_utc, forecast_hour),
        text::texts(header.subtitle_lines@) == severe_notes(),
{
    match product {
        HrrrBatchProduct::SevereProofPanel => {
            let title = "HRRR Severe Proof Panel  Run: ".to_owned().concat(date_yyyymmdd).concat(
                " ",
            ).concat(to_padded_decimal(cycle_utc as u64, 2).as_str()).concat(
                ":00 UTC  Forecast Hour: F",
            ).concat(to_padded_decimal(forecast_hour as u64, 2).as_str());
            let subtitle_lines: Vec<String> = vec![
                "STP is fixed-layer only: sbCAPE + sbLCL + 0-1 km SRH + 0-6 km bulk shear.".to_owned(),
                "SCP stays a fixed-depth proxy here: muCAPE + 0-3 km SRH + 0-6 km shear. EHI 0-1 km uses sbCAPE + 0-1 km SRH. Effective-layer derivation is not wired yet.".to_owned(),
            ];
            proof {
                assert(text::texts(subtitle_lines@) =~= severe_notes());
            }
            WeatherPanelHeader { title, subtitle_lines }
        },
    }
}

/// The file name of a product.
pub open spec fn panel_file_name(
    date: Seq<char>,
    cycle_utc: u8,
    forecast_hour: u16,
    domain_slug: Seq<char>,
    product: HrrrBatchProduct,
) -> Seq<char> {
    "rustwx_hrrr_"@ + date + "_"@ + text::decimal(cycle_utc as nat) + "z_f"@ + text::zero_padded(
        text::decimal(forecast_hour as nat),
        2,
    ) + "_"@ + domain_slug + "_"@ + product.spec_slug() + ".png"@
}

/// The file name of a product.
pub fn hrrr_panel_file_name(
    date_yyyymmdd: &str,
    cycle_utc: u8,
    forecast_hour: u16,
    domain_slug: &str,
    product: HrrrBatchProduct,
) -> (name: String)
    ensures
        name@ == panel_file_name(date_yyyymmdd@, cycle_utc, forecast_hour, domain_slug@, product),
{
    "rustwx_hrrr_".to_owned().concat(date_yyyymmdd).concat("_").concat(
        to_decimal(cycle_utc as u64).as_str(),
    ).concat("z_f").concat(to_padded_decimal(forecast_hour as u64, 2).as_str()).concat("_").concat(
        domain_slug,
    ).concat("_").concat(product.slug()).concat(".png")
}

/// How many jobs run at once: as many as the setting says, or half as many as the
/// machine runs, but no more than there are jobs, and at least one. Without a count
/// of what the machine runs there is one.
pub open spec fn parallelism(
    setting: Option<Seq<char>>,
    available: Option<usize>,
    job_count: int,
) -> int {
    let wanted = match available {
        Some(count) => numbers::positive_setting(
            setting,
            if count / 2 < 1 {
                1
            } else {
                (count / 2) as int
            },
        ),
        None => 1,
    };
    let most = if job_count < 1 {
        1
    } else {
        job_count
    };
    if wanted < most {
        wanted
    } else {
        most
    }
}

/// How many jobs run at once.
pub fn png_render_parallelism(
    setting: Option<&str>,
    available: Option<usize>,
    job_count: usize,
) -> (jobs: usize)
    ensures
        jobs == parallelism(presentation::optional(setting), available, job_count as int),
        jobs >= 1,
{
    let wanted: usize = match available {
        Some(count) => match parse_positive(setting) {
            Some(threads) => threads,
            None => if count / 2 < 1 {
                1
            } else {
                count / 2
            },
        },
        None => 1,
    };
    let most: usize = if job_count < 1 {
        1
    } else {
        job_count
    };
    if wanted < most {
        wanted
    } else {
        most
    }
}

/// A step of the drawing of a batch: a job is started, or its end is waited for.
#[derive(Debug, Clone, Copy, PartialEq, Eq, Structural)]
pub enum RenderStep {
    Start(usize),
    Join(usize),
}

/// The steps until a number of jobs has been started: the oldest job is waited for
/// as soon as as many run as may.
pub open spec fn starting(jobs: int, at_once: int) -> Seq<RenderStep>
    decreases jobs,
{
    if jobs <= 0 {
        Seq::empty()
    } else {
        let started = starting(jobs - 1, at_once).push(RenderStep::Start((jobs - 1) as usize));
        if jobs >= at_once {
            started.push(RenderStep::Join((jobs - at_once) as usize))
        } else {
            started
        }
    }
}

/// The steps that wait for jobs one after another.
pub open spec fn draining(from: int, to: int) -> Seq<RenderStep>
    decreases to - from,
{
    if from >= to {
        Seq::empty()
    } else {
        draining(from, to - 1).push(RenderStep::Join((to - 1) as usize))
    }
}

/// How many of a number of jobs have been waited for once all are started.
pub open spec fn joined_early(jobs: int, at_once: int) -> int {
    if jobs >= at_once {
        jobs - at_once + 1
    } else {
        0
    }
}

/// The steps of the drawing of a batch.
pub open spec fn schedule(jobs: int, at_once: int) -> Seq<RenderStep> {
    starting(jobs, at_once) + draining(joined_early(jobs, at_once), jobs)
}

/// The steps of the drawing of a batch.
pub fn render_schedule(job_count: usize, render_parallelism: usize) -> (steps: Vec<RenderStep>)
    requires
        render_parallelism >= 1,
    ensures
        steps@ == schedule(job_count as int, render_parallelism as int),
{
    let mut steps: Vec<RenderStep> = Vec::new();
    let mut joined: usize = 0;
    let mut job: usize = 0;
    while job < job_count
        invariant
            job <= job_count,
            render_parallelism >= 1,
            joined == joined_early(job as int, render_parallelism as int),
            steps@ == starting(job as int, render_parallelism as int),
        decreases job_count - job,
    {
        steps.push(RenderStep::Start(job));
        job = job + 1;
        if job - joined >= render_parallelism {
            steps.push(RenderStep::Join(joined));
            joined = joined + 1;
        }
    }
    let ghost early = joined as int;
    proof {
        assert(steps@ =~= starting(job_count as int, render_parallelism as int) + draining(
            early,
            early,
        ));
    }
    while joined < job_count
        invariant
            early <= joined <= job_count,
            steps@ == starting(job_count as int, render_parallelism as int) + draining(
                early,
                joined as int,
            ),
        decreases job_count - joined,
    {
        let ghost before = draining(early, joined as int);
        steps.push(RenderStep::Join(joined));
        joined = joined + 1;
        proof {
            assert(steps@ =~= starting(job_count as int, render_parallelism as int) + before.push(
                RenderStep::Join((joined - 1) as usize),
            ));
        }
    }
    steps
}

/// The jobs that are waited for, in order.
pub open spec fn joins(steps: Seq<RenderStep>) -> Seq<int>
    decreases steps.len(),
{
    if steps.len() == 0 {
        Seq::empty()
    } else {
        match steps.last() {
            RenderStep::Join(job) => joins(steps.drop_last()).push(job as int),
            RenderStep::Start(_) => joins(steps.drop_last()),
        }
    }
}

/// How many jobs run after some steps.
pub open spec fn running(steps: Seq<RenderStep>) -> int
    decreases steps.len(),
{
    if steps.len() == 0 {
        0
    } else {
        match steps.last() {
            RenderStep::Join(_) => running(steps.drop_last()) - 1,
            RenderStep::Start(_) => running(steps.drop_last()) + 1,
        }
    }
}

/// The first numbers.
pub open spec fn first_numbers(count: int) -> Seq<int> {
    Seq::new(count as nat, |i: int| i)
}

proof fn lemma_starting_joins(jobs: int, at_once: int)
    requires
        0 <= jobs <= usize::MAX,
        at_once >= 1,
    ensures
        joins(starting(jobs, at_once)) == first_numbers(joined_early(jobs, at_once)),
        running(starting(jobs, at_once)) == jobs - joined_early(jobs, at_once),
    decreases jobs,
{
    if jobs > 0 {
        lemma_starting_joins(jobs - 1, at_once);
        let before = starting(jobs - 1, at_once);
        let started = before.push(RenderStep::Start((jobs - 1) as usize));
        assert(started.drop_last() =~= before);
        assert(joins(started) == joins(before));
        assert(running(started) == running(before) + 1);
        if jobs >= at_once {
            let after = started.push(RenderStep::Join((jobs - at_once) as usize));
            assert(after.drop_last() =~= started);
            assert(joins(after) == joins(started).push(jobs - at_once));
            assert(running(after) == running(started) - 1);
            assert(first_numbers(joined_early(jobs - 1, at_once)).push(jobs - at_once)
                =~= first_numbers(joined_early(jobs, at_once)));
        }
    } else {
        assert(first_numbers(0) =~= Seq::empty());
    }
}

proof fn lemma_draining_joins(steps: Seq<RenderStep>, from: int, to: int)
    requires
        0 <= from <= to <= usize::MAX,
        joins(steps) == first_numbers(from),
    ensures
        joins(steps + draining(from, to)) == first_numbers(to),
        running(steps + draining(from, to)) == running(steps) - (to - from),
    decreases to - from,
{
    if from < to {
        lemma_draining_joins(steps, from, to - 1);
        let before = steps + draining(from, to - 1);
        let after = steps + draining(from, to);
        assert(after.drop_last() =~= before);
        assert(after.last() == RenderStep::Join((to - 1) as usize));
        assert(first_numbers(to - 1).push(to - 1) =~= first_numbers(to));
    } else {
        assert(steps + draining(from, to) =~= steps);
    }
}

/// The jobs of a batch end in the order in which they were started, every job is
/// waited for, and none runs at the end.
pub proof fn law_jobs_end_in_order(jobs: int, at_once: int)
    requires
        0 <= jobs <= usize::MAX,
        at_once >= 1,
    ensures
        joins(schedule(jobs, at_once)) == first_numbers(jobs),
        running(schedule(jobs, at_once)) == 0,
{
    lemma_starting_joins(jobs, at_once);
    lemma_draining_joins(starting(jobs, at_once), joined_early(jobs, at_once), jobs);
}

proof fn lemma_starting_bounded(jobs: int, at_once: int, len: int)
    requires
        0 <= jobs <= usize::MAX,
        at_once >= 1,
        0 <= len <= starting(jobs, at_once).len(),
    ensures
        running(starting(jobs, at_once).take(len)) <= at_once,
    decreases jobs,
{
    let steps = starting(jobs, at_once);
    if jobs > 0 {
        let before = starting(jobs - 1, at_once);
        let started = before.push(RenderStep::Start((jobs - 1) as usize));
        lemma_starting_joins(jobs - 1, at_once);
        lemma_starting_joins(jobs, at_once);
        if len <= before.len() {
            lemma_starting_bounded(jobs - 1, at_once, len);
            assert(steps.take(len) =~= before.take(len));
        } else if len == started.len() {
            assert(steps.take(len) =~= started);
            assert(started.drop_last() =~= before);
        } else {
            assert(steps.take(len) =~= steps);
        }
    } else {
        assert(steps.take(len) =~= Seq::empty());
    }
}

/// At no point do more jobs run than may.
pub proof fn law_jobs_run_within_the_limit(jobs: int, at_once: int, len: int)
    requires
        0 <= jobs <= usize::MAX,
        at_once >= 1,
        0 <= len <= schedule(jobs, at_once).len(),
    ensures
        running(schedule(jobs, at_once).take(len)) <= at_once,
{
    let first = starting(jobs, at_once);
    let early = joined_early(jobs, at_once);
    if len <= first.len() {
        lemma_starting_bounded(jobs, at_once, len);
        assert(schedule(jobs, at_once).take(len) =~= first.take(len));
    } else {
        let drained = len - first.len();
        lemma_starting_joins(jobs, at_once);
        lemma_draining_len(early, jobs);
        lemma_draining_prefix(early, jobs, drained);
        assert(schedule(jobs, at_once).take(len) =~= first + draining(early, early + drained));
        lemma_draining_joins(first, early, early + drained);
    }
}

proof fn lemma_draining_len(from: int, to: int)
    requires
        from <= to,
    ensures
        draining(from, to).len() == to - from,
    decreases to - from,
{
    if from < to {
        lemma_draining_len(from, to - 1);
    }
}

proof fn lemma_draining_prefix(from: int, to: int, len: int)
    requires
        from <= to,
        0 <= len <= to - from,
    ensures
        draining(from, to).take(len) == draining(from, from + len),
    decreases to - from,
{
    lemma_draining_len(from, to);
    if len < to - from {
        lemma_draining_len(from, to - 1);
        lemma_draining_prefix(from, to - 1, len);
        assert(draining(from, to).take(len) =~= draining(from, to - 1).take(len));
    } else {
        assert(draining(from, to).take(len) =~= draining(from, to));
    }
}

/// The message of a job that panicked. A panic without a message is unknown.
pub fn panicked_job(message: Option<&str>) -> (text: String)
    ensures
        text@ == "worker panicked: "@ + (match presentation::optional(message) {
            Some(message) => message,
            None => "unknown panic"@,
        }),
{
    match message {
        Some(message) => "worker panicked: ".to_owned().concat(message),
        None => "worker panicked: ".to_owned().concat("unknown panic"),
    }
}

/// The message of a drawing job that failed.
pub fn failed_render_job(err: &str) -> (text: String)
    ensures
        text@ == "render worker failed: "@ + err@,
{
    "render worker failed: ".to_owned().concat(err)
}

/// The fetch of one bundle.
#[derive(Debug)]
pub struct BundleFetch {
    pub fetch_ms: u128,
    pub cache_hit: bool,
    pub fetched_product: String,
    pub source_override: Option<SourceId>,
    pub resolved_source: SourceId,
    pub resolved_url: String,
}

/// What a load gave for one bundle: the product that was planned, its fetch, and
/// whether its decoded fields came from a cache. Each may be missing.
#[derive(Debug)]
pub struct LoadedBundle {
    pub planned_product: Option<String>,
    pub fetched: Option<BundleFetch>,
    pub decode_cache_hit: Option<bool>,
}

/// What is missing from a load, in the order in which it is looked for.
pub open spec fn load_gap(surface: LoadedBundle, pressure: LoadedBundle) -> Option<Seq<char>> {
    if surface.planned_product is None {
        Some("loaded bundle set missing surface analysis for HRRR shared timing"@)
    } else if pressure.planned_product is None {
        Some("loaded bundle set missing pressure analysis for HRRR shared timing"@)
    } else if surface.fetched is None {
        Some("loader missing surface fetch for HRRR shared timing"@)
    } else if pressure.fetched is None {
        Some("loader missing pressure fetch for HRRR shared timing"@)
    } else if surface.decode_cache_hit is None {
        Some("loader missing surface decode for HRRR shared timing"@)
    } else if pressure.decode_cache_hit is None {
        Some("loader missing pressure decode for HRRR shared timing"@)
    } else {
        None
    }
}

/// Whether what is known of a fetch is that of a bundle.
pub open spec fn describes(
    info: HrrrFetchRuntimeInfo,
    planned_product: String,
    fetched: BundleFetch,
) -> bool {
    &&& info.planned_product == planned_product
    &&& info.fetched_product == fetched.fetched_product
    &&& info.requested_source == (match fetched.source_override {
        Some(source) => source,
        None => fetched.resolved_source,
    })
    &&& info.resolved_source == fetched.resolved_source
    &&& info.resolved_url == fetched.resolved_url
}

fn fetch_info(planned_product: String, fetched: BundleFetch) -> (info: HrrrFetchRuntimeInfo)
    ensures
        describes(info, planned_product, fetched),
{
    HrrrFetchRuntimeInfo {
        planned_product,
        fetched_product: fetched.fetched_product,
        requested_source: match fetched.source_override {
            Some(source) => source,
            None => fetched.resolved_source,
        },
        resolved_source: fetched.resolved_source,
        resolved_url: fetched.resolved_url,
    }
}

/// Whether the times of a load are those of its bundles. Decoding is not timed.
pub open spec fn times_load(
    surface: LoadedBundle,
    pressure: LoadedBundle,
    timing: HrrrSharedTiming,
) -> bool {
    &&& timing.fetch_surface_ms == surface.fetched->Some_0.fetch_ms
    &&& timing.fetch_pressure_ms == pressure.fetched->Some_0.fetch_ms
    &&& timing.decode_surface_ms == 0
    &&& timing.decode_pressure_ms == 0
    &&& timing.fetch_surface_cache_hit == surface.fetched->Some_0.cache_hit
    &&& timing.fetch_pressure_cache_hit == pressure.fetched->Some_0.cache_hit
    &&& timing.decode_surface_cache_hit == surface.decode_cache_hit->Some_0
    &&& timing.decode_pressure_cache_hit == pressure.decode_cache_hit->Some_0
    &&& describes(
        timing.surface_fetch,
        surface.planned_product->Some_0,
        surface.fetched->Some_0,
    )
    &&& describes(
        timing.pressure_fetch,
        pressure.planned_product->Some_0,
        pressure.fetched->Some_0,
    )
}

/// The times of a load, or what is missing from it. Decoding is not timed.
pub fn build_hrrr_shared_timing(surface: LoadedBundle, pressure: LoadedBundle) -> (timing: Result<
    HrrrSharedTiming,
    String,
>)
    ensures
        match timing {
            Ok(timing) => {
                &&& load_gap(surface, pressure) is None
                &&& times_load(surface, pressure, timing)
            },
            Err(message) => load_gap(surface, pressure) == Some(message@),
        },
{
    let surface_planned = match surface.planned_product {
        Some(product) => product,
        None => {
            return Err(
                "loaded bundle set missing surface analysis for HRRR shared timing".to_owned(),
            );
        },
    };
    let pressure_planned = match pressure.planned_product {
        Some(product) => product,
        None => {
            return Err(
                "loaded bundle set missing pressure analysis for HRRR shared timing".to_owned(),
            );
        },
    };
    let surface_fetched = match surface.fetched {
        Some(fetched) => fetched,
        None => {
            return Err("loader missing surface fetch for HRRR shared timing".to_owned());
        },
    };
    let pressure_fetched = match pressure.fetched {
        Some(fetched) => fetched,
        None => {
            return Err("loader missing pressure fetch for HRRR shared timing".to_owned());
        },
    };
    let surface_hit = match surface.decode_cache_hit {
        Some(hit) => hit,
        None => {
            return Err("loader missing surface decode for HRRR shared timing".to_owned());
        },
    };
    let pressure_hit = match pressure.decode_cache_hit {
        Some(hit) => hit,
        None => {
            return Err("loader missing pressure decode for HRRR shared timing".to_owned());
        },
    };
    Ok(
        HrrrSharedTiming {
            fetch_surface_ms: surface_fetched.fetch_ms,
            fetch_pressure_ms: pressure_fetched.fetch_ms,
            decode_surface_ms: 0,
            decode_pressure_ms: 0,
            fetch_surface_cache_hit: surface_fetched.cache_hit,
            fetch_pressure_cache_hit: pressure_fetched.cache_hit,
            decode_surface_cache_hit: surface_hit,
            decode_pressure_cache_hit: pressure_hit,
            surface_fetch: fetch_info(surface_planned, surface_fetched),
            pressure_fetch: fetch_info(pressure_planned, pressure_fetched),
        },
    )
}

/// Whether a layout is in a list.
fn contains_layout(list: &[WeatherPanelLayout], layout: WeatherPanelLayout) -> (found: bool)
    ensures
        found == list@.contains(layout),
{
    let mut i: usize = 0;
    while i < list.len()
        invariant
            i <= list@.len(),
            forall|k: int| 0 <= k < i ==> list@[k] != layout,
        decreases list@.len() - i,
    {
        if list[i] == layout {
            return true;
        }
        i = i + 1;
    }
    false
}

/// The layouts of some products.
pub open spec fn layouts(products: Seq<HrrrBatchProduct>, usual: WeatherPanelLayout) -> Seq<
    WeatherPanelLayout,
> {
    products.map_values(|product: HrrrBatchProduct| product.spec_layout(usual))
}

/// The layouts that a map is projected for: those of the products, each once.
pub fn layouts_to_project(products: &[HrrrBatchProduct], usual: WeatherPanelLayout) -> (list: Vec<
    WeatherPanelLayout,
>)
    ensures
        list@ == text::with_all_distinct(Seq::empty(), layouts(products@, usual)),
{
    let ghost all = layouts(products@, usual);
    let mut list: Vec<WeatherPanelLayout> = Vec::new();
    let mut i: usize = 0;
    proof {
        assert(all.take(0) =~= Seq::empty());
    }
    while i < products.len()
        invariant
            i <= products@.len(),
            all == layouts(products@, usual),
            list@ == text::with_all_distinct(
                Seq::<WeatherPanelLayout>::empty(),
                all.take(i as int),
            ),
        decreases products@.len() - i,
    {
        proof {
            assert(all.take(i + 1).drop_last() == all.take(i as int));
        }
        let layout = products[i].layout(usual);
        if !contains_layout(list.as_slice(), layout) {
            list.push(layout);
        }
        i = i + 1;
    }
    proof {
        assert(all.take(i as int) == all);
    }
    list
}

/// Reports a product that was drawn.
pub fn hrrr_rendered_product<I>(
    product: HrrrBatchProduct,
    output_path: String,
    timing: HrrrProductTiming,
    content_identity: I,
    input_fetch_keys: &[String],
) -> (rendered: HrrrRenderedProduct<I>)
    ensures
        rendered.product == product,
        rendered.output_path == output_path,
        rendered.timing == timing,
        rendered.metadata.failure_count is None,
        rendered.content_identity == Some(content_identity),
        text::texts(rendered.input_fetch_keys@) == text::texts(input_fetch_keys@),
{
    HrrrRenderedProduct {
        product,
        output_path,
        timing,
        metadata: HrrrProductMetadata { failure_count: None },
        content_identity: Some(content_identity),
        input_fetch_keys: copy_strings(input_fetch_keys),
    }
}

/// The products of a batch are drawn once each: none is left out and none is
/// repeated.
pub proof fn law_products_are_drawn_once(products: Seq<HrrrBatchProduct>)
    ensures
        text::with_all_distinct(Seq::<HrrrBatchProduct>::empty(), products).no_duplicates(),
        forall|product: HrrrBatchProduct|
            text::with_all_distinct(Seq::<HrrrBatchProduct>::empty(), products).contains(product)
                <==> products.contains(product),
{
    text::lemma_with_all_distinct(Seq::<HrrrBatchProduct>::empty(), products);
}

} // verus!
