//! A batch of HRRR panels, from a loaded pair of analyses to the products that were
//! drawn: the domain is cropped and guarded, a map is projected for each layout, the
//! volume is prepared once, and the panels are computed and drawn in the order of the
//! schedule.
//!
//! The projection of a grid, the kernels and the drawing come as functions.
use crate::derived::presentation;
use crate::ecape_compute;
use crate::gridded::domain::CroppedHeavyDomain;
use crate::gridded::fields::{PressureFields, SurfaceFields};
use crate::gridded::heavy_volume;
use crate::gridded::heavy_volume::{prepare_heavy_volume, HeightRules, PreparedHeavyVolume};
use crate::heavy::{DomainSpec, HeavyDomainStats};
use crate::heavy_panel::SevereCall;
use crate::heavy_stage;
use crate::heavy_stage::{crop_projected_domain, HeavyProjection};
use crate::hrrr;
use crate::hrrr::{
    build_hrrr_shared_timing, dedupe_products, failed_render_job, hrrr_panel_file_name,
    hrrr_panel_header, hrrr_rendered_product, layouts_to_project, needs_heavy_volume,
    png_render_parallelism, render_schedule, HrrrBatchProduct, HrrrBatchRequest,
    HrrrProductTiming, HrrrRenderedProduct, HrrrSharedTiming, LoadedBundle, RenderStep,
    WeatherPanelHeader, WeatherPanelLayout,
};
use crate::model::SourceId;
use crate::panel::WeatherPanelField;
use crate::text;
use vstd::prelude::*;

verus! {

/// A panel that is ready to be drawn. The map that it is drawn on is given by its
/// place among the projected maps.
pub struct HrrrPanel<T> {
    pub product: HrrrBatchProduct,
    pub file_name: String,
    pub header: WeatherPanelHeader,
    pub fields: Vec<WeatherPanelField<T>>,
    pub layout: WeatherPanelLayout,
    pub map_index: usize,
}

/// What one panel is drawn from.
pub struct HrrrDrawing<'a, T, P, M> {
    pub surface: &'a SurfaceFields<T, P>,
    pub map: &'a M,
    pub panel: &'a HrrrPanel<T>,
}

/// What is known of a panel that was drawn. `I` identifies the content of its file.
pub struct HrrrDrawn<I> {
    pub output_path: String,
    pub timing: HrrrProductTiming,
    pub content_identity: I,
}

/// The run that panels are drawn from, as their titles and file names give it.
pub struct HrrrRunNames<'a> {
    pub date_yyyymmdd: &'a str,
    pub cycle_utc: u8,
    pub forecast_hour: u16,
    pub domain_slug: &'a str,
}

/// What all panels of a batch share.
pub struct PanelGround<'a, T, P, M> {
    pub names: HrrrRunNames<'a>,
    pub surface: &'a SurfaceFields<T, P>,
    pub pressure: &'a PressureFields<T>,
    pub usual: WeatherPanelLayout,
    pub layouts: &'a [WeatherPanelLayout],
    pub maps: &'a [M],
    pub fetch_keys: &'a [String],
}

/// Whether a panel is that of a product, under the names of its run, with the map of
/// its layout.
pub open spec fn shapes_panel<'a, T, P, M>(
    ground: PanelGround<'a, T, P, M>,
    product: HrrrBatchProduct,
    panel: HrrrPanel<T>,
) -> bool {
    let names = ground.names;
    &&& panel.product == product
    &&& panel.file_name@ == hrrr::panel_file_name(
        names.date_yyyymmdd@,
        names.cycle_utc,
        names.forecast_hour,
        names.domain_slug@,
        product,
    )
    &&& panel.header.title@ == hrrr::severe_title(
        names.date_yyyymmdd@,
        names.cycle_utc,
        names.forecast_hour,
    )
    &&& text::texts(panel.header.subtitle_lines@) == hrrr::severe_notes()
    &&& panel.layout == product.spec_layout(ground.usual)
    &&& panel.map_index < ground.layouts@.len()
    &&& ground.layouts@[panel.map_index as int] == panel.layout
}

/// What the severe fields of a batch are computed from.
pub open spec fn severe_call<'a, T, P, M>(
    ground: PanelGround<'a, T, P, M>,
    prepared: PreparedHeavyVolume<T>,
) -> SevereCall<'a, T, P> {
    SevereCall { surface: ground.surface, pressure: ground.pressure, prepared: &prepared }
}

/// What a panel of a batch is drawn from.
pub open spec fn drawing_of<'a, T, P, M>(
    ground: PanelGround<'a, T, P, M>,
    panel: HrrrPanel<T>,
) -> HrrrDrawing<'a, T, P, M> {
    HrrrDrawing {
        surface: ground.surface,
        map: &ground.maps@[panel.map_index as int],
        panel: &panel,
    }
}

/// Whether a product is reported as its panel was drawn.
pub open spec fn reports_drawn<'a, T, P, M, I>(
    ground: PanelGround<'a, T, P, M>,
    panel: HrrrPanel<T>,
    drawn: HrrrDrawn<I>,
    rendered: HrrrRenderedProduct<I>,
) -> bool {
    &&& rendered.product == panel.product
    &&& rendered.output_path == drawn.output_path
    &&& rendered.timing == drawn.timing
    &&& rendered.metadata.failure_count is None
    &&& rendered.content_identity == Some(drawn.content_identity)
    &&& text::texts(rendered.input_fetch_keys@) == text::texts(ground.fetch_keys@)
}

/// Whether a panel was computed for a product.
pub open spec fn panel_computed<
    'a,
    T,
    P,
    M,
    W: for<'b> Fn(SevereCall<'b, T, P>) -> Result<Vec<WeatherPanelField<T>>, String>,
>(
    ground: PanelGround<'a, T, P, M>,
    prepared: PreparedHeavyVolume<T>,
    product: HrrrBatchProduct,
    severe: W,
    panel: HrrrPanel<T>,
) -> bool {
    &&& call_ensures(severe, (severe_call(ground, prepared),), Ok(panel.fields))
    &&& shapes_panel(ground, product, panel)
}

/// Whether a panel was drawn and is reported.
pub open spec fn panel_drawn<
    'a,
    T,
    P,
    M,
    I,
    D: for<'b> Fn(HrrrDrawing<'b, T, P, M>) -> Result<HrrrDrawn<I>, String>,
>(
    ground: PanelGround<'a, T, P, M>,
    panel: HrrrPanel<T>,
    draw: D,
    rendered: HrrrRenderedProduct<I>,
) -> bool {
    exists|drawn: HrrrDrawn<I>|
        #[trigger] reports_drawn(ground, panel, drawn, rendered) && call_ensures(
            draw,
            (drawing_of(ground, panel),),
            Ok(drawn),
        )
}

/// How many jobs some steps start.
pub open spec fn starts(steps: Seq<RenderStep>) -> int
    decreases steps.len(),
{
    if steps.len() == 0 {
        0
    } else {
        starts(steps.drop_last()) + if steps.last() is Start {
            1int
        } else {
            0
        }
    }
}

/// How many jobs some steps wait for.
pub open spec fn ends(steps: Seq<RenderStep>) -> int
    decreases steps.len(),
{
    if steps.len() == 0 {
        0
    } else {
        ends(steps.drop_last()) + if steps.last() is Join {
            1int
        } else {
            0
        }
    }
}

/// Whether each step starts the next job, or waits for the oldest one that runs.
pub open spec fn orderly(steps: Seq<RenderStep>) -> bool {
    forall|k: int|
        0 <= k < steps.len() ==> match #[trigger] steps[k] {
            RenderStep::Start(job) => job == starts(steps.take(k)),
            RenderStep::Join(job) => job == ends(steps.take(k)) && job < starts(steps.take(k)),
        }
}

proof fn lemma_push_keeps_order(steps: Seq<RenderStep>, step: RenderStep)
    requires
        orderly(steps),
        match step {
            RenderStep::Start(job) => job == starts(steps),
            RenderStep::Join(job) => job == ends(steps) && job < starts(steps),
        },
    ensures
        orderly(steps.push(step)),
        starts(steps.push(step)) == starts(steps) + if step is Start {
            1int
        } else {
            0
        },
        ends(steps.push(step)) == ends(steps) + if step is Join {
            1int
        } else {
            0
        },
{
    let after = steps.push(step);
    assert(after.drop_last() =~= steps);
    assert forall|k: int| 0 <= k < after.len() implies match #[trigger] after[k] {
        RenderStep::Start(job) => job == starts(after.take(k)),
        RenderStep::Join(job) => job == ends(after.take(k)) && job < starts(after.take(k)),
    } by {
        assert(after.take(k) =~= steps.take(k));
        if k == steps.len() {
            assert(steps.take(k) =~= steps);
        } else {
            assert(after[k] == steps[k]);
        }
    }
}

proof fn lemma_starting_is_orderly(jobs: int, at_once: int)
    requires
        0 <= jobs <= usize::MAX,
        at_once >= 1,
    ensures
        orderly(hrrr::starting(jobs, at_once)),
        starts(hrrr::starting(jobs, at_once)) == jobs,
        ends(hrrr::starting(jobs, at_once)) == hrrr::joined_early(jobs, at_once),
    decreases jobs,
{
    if jobs > 0 {
        lemma_starting_is_orderly(jobs - 1, at_once);
        let before = hrrr::starting(jobs - 1, at_once);
        let start = RenderStep::Start((jobs - 1) as usize);
        lemma_push_keeps_order(before, start);
        if jobs >= at_once {
            lemma_push_keeps_order(before.push(start), RenderStep::Join((jobs - at_once) as usize));
        }
    }
}

proof fn lemma_draining_is_orderly(steps: Seq<RenderStep>, from: int, to: int)
    requires
        0 <= from <= to <= usize::MAX,
        orderly(steps),
        ends(steps) == from,
        to <= starts(steps),
    ensures
        orderly(steps + hrrr::draining(from, to)),
        starts(steps + hrrr::draining(from, to)) == starts(steps),
        ends(steps + hrrr::draining(from, to)) == to,
    decreases to - from,
{
    if from < to {
        lemma_draining_is_orderly(steps, from, to - 1);
        let step = RenderStep::Join((to - 1) as usize);
        lemma_push_keeps_order(steps + hrrr::draining(from, to - 1), step);
        assert(steps + hrrr::draining(from, to) =~= (steps + hrrr::draining(from, to - 1)).push(
            step,
        ));
    } else {
        assert(steps + hrrr::draining(from, to) =~= steps);
    }
}

/// The steps of a batch start every job in order and wait for every job in order.
pub proof fn law_schedule_is_orderly(jobs: int, at_once: int)
    requires
        0 <= jobs <= usize::MAX,
        at_once >= 1,
    ensures
        orderly(hrrr::schedule(jobs, at_once)),
        starts(hrrr::schedule(jobs, at_once)) == jobs,
        ends(hrrr::schedule(jobs, at_once)) == jobs,
{
    lemma_starting_is_orderly(jobs, at_once);
    lemma_draining_is_orderly(
        hrrr::starting(jobs, at_once),
        hrrr::joined_early(jobs, at_once),
        jobs,
    );
}

proof fn lemma_step_counts(steps: Seq<RenderStep>, k: int)
    requires
        0 <= k < steps.len(),
    ensures
        starts(steps.take(k + 1)) == starts(steps.take(k)) + if steps[k] is Start {
            1int
        } else {
            0
        },
        ends(steps.take(k + 1)) == ends(steps.take(k)) + if steps[k] is Join {
            1int
        } else {
            0
        },
{
    assert(steps.take(k + 1).drop_last() =~= steps.take(k));
}

proof fn lemma_starts_grow(steps: Seq<RenderStep>, k: int)
    requires
        0 <= k <= steps.len(),
    ensures
        0 <= starts(steps.take(k)) <= starts(steps),
    decreases steps.len(),
{
    if k < steps.len() {
        lemma_starts_grow(steps.drop_last(), k);
        assert(steps.drop_last().take(k) =~= steps.take(k));
    } else {
        assert(steps.take(k) =~= steps);
        if steps.len() > 0 {
            lemma_starts_grow(steps.drop_last(), steps.len() - 1);
            assert(steps.drop_last().take(steps.len() - 1) =~= steps.drop_last());
        }
    }
}

/// Whether the panels that some steps start were computed, and those that they wait
/// for were drawn.
pub open spec fn walked<
    'a,
    T,
    P,
    M,
    I,
    W: for<'b> Fn(SevereCall<'b, T, P>) -> Result<Vec<WeatherPanelField<T>>, String>,
    D: for<'b> Fn(HrrrDrawing<'b, T, P, M>) -> Result<HrrrDrawn<I>, String>,
>(
    ground: PanelGround<'a, T, P, M>,
    prepared: Option<PreparedHeavyVolume<T>>,
    products: Seq<HrrrBatchProduct>,
    severe: W,
    draw: D,
    steps: Seq<RenderStep>,
    panels: Seq<HrrrPanel<T>>,
    rendered: Seq<HrrrRenderedProduct<I>>,
) -> bool {
    &&& panels.len() == starts(steps)
    &&& rendered.len() == ends(steps)
    &&& forall|i: int|
        0 <= i < panels.len() ==> panel_computed(
            ground,
            prepared->Some_0,
            products[i],
            severe,
            #[trigger] panels[i],
        )
    &&& forall|i: int|
        0 <= i < rendered.len() ==> panel_drawn(ground, panels[i], draw, #[trigger] rendered[i])
}

/// Whether a step ends a batch: the fields of the panel that it starts, or the drawing
/// of the panel that it waits for, fail.
pub open spec fn stops<
    'a,
    T,
    P,
    M,
    I,
    W: for<'b> Fn(SevereCall<'b, T, P>) -> Result<Vec<WeatherPanelField<T>>, String>,
    D: for<'b> Fn(HrrrDrawing<'b, T, P, M>) -> Result<HrrrDrawn<I>, String>,
>(
    ground: PanelGround<'a, T, P, M>,
    prepared: Option<PreparedHeavyVolume<T>>,
    severe: W,
    draw: D,
    panels: Seq<HrrrPanel<T>>,
    step: RenderStep,
    told: String,
) -> bool {
    match step {
        RenderStep::Start(_) => call_ensures(
            severe,
            (severe_call(ground, prepared->Some_0),),
            Err::<Vec<WeatherPanelField<T>>, String>(told),
        ),
        RenderStep::Join(job) => exists|message: String|
            #[trigger] call_ensures(
                draw,
                (drawing_of(ground, panels[job as int]),),
                Err::<HrrrDrawn<I>, String>(message),
            ) && told@ == "render worker failed: "@ + message@,
    }
}

/// Whether the panels of a batch end as drawn: every step is taken, or the batch ends
/// with the first step that fails.
pub open spec fn panels_end<
    'a,
    T,
    P,
    M,
    I,
    W: for<'b> Fn(SevereCall<'b, T, P>) -> Result<Vec<WeatherPanelField<T>>, String>,
    D: for<'b> Fn(HrrrDrawing<'b, T, P, M>) -> Result<HrrrDrawn<I>, String>,
>(
    ground: PanelGround<'a, T, P, M>,
    prepared: Option<PreparedHeavyVolume<T>>,
    products: Seq<HrrrBatchProduct>,
    severe: W,
    draw: D,
    steps: Seq<RenderStep>,
    result: Result<Vec<HrrrRenderedProduct<I>>, String>,
) -> bool {
    match result {
        Ok(rendered) => exists|panels: Seq<HrrrPanel<T>>|
            #[trigger] walked(
                ground,
                prepared,
                products,
                severe,
                draw,
                steps,
                panels,
                rendered@,
            ),
        Err(told) => exists|
            k: int,
            panels: Seq<HrrrPanel<T>>,
            rendered: Seq<HrrrRenderedProduct<I>>,
        |
            0 <= k < steps.len() && #[trigger] walked(
                ground,
                prepared,
                products,
                severe,
                draw,
                steps.take(k),
                panels,
                rendered,
            ) && stops(ground, prepared, severe, draw, panels, steps[k], told),
    }
}

fn layout_index(layouts: &[WeatherPanelLayout], layout: WeatherPanelLayout) -> (index: usize)
    requires
        layouts@.contains(layout),
    ensures
        index < layouts@.len(),
        layouts@[index as int] == layout,
{
    let mut i: usize = 0;
    while i < layouts.len()
        invariant
            i <= layouts@.len(),
            layouts@.contains(layout),
            forall|k: int| 0 <= k < i ==> layouts@[k] != layout,
        decreases layouts@.len() - i,
    {
        if layouts[i] == layout {
            return i;
        }
        i = i + 1;
    }
    proof {
        let k = choose|k: int| 0 <= k < layouts@.len() && layouts@[k] == layout;
        assert(layouts@[k] != layout);
    }
    0
}

fn compute_hrrr_batch_product<
    'a,
    T,
    P,
    M,
    W: for<'b> Fn(SevereCall<'b, T, P>) -> Result<Vec<WeatherPanelField<T>>, String>,
>(
    ground: &PanelGround<'a, T, P, M>,
    prepared: &PreparedHeavyVolume<T>,
    product: HrrrBatchProduct,
    severe: &W,
) -> (result: Result<HrrrPanel<T>, String>)
    requires
        ground.layouts@.contains(product.spec_layout(ground.usual)),
        forall|call: SevereCall<T, P>| #[trigger] call_requires(*severe, (call,)),
    ensures
        match result {
            Ok(panel) => panel_computed(*ground, *prepared, product, *severe, panel),
            Err(message) => call_ensures(
                *severe,
                (severe_call(*ground, *prepared),),
                Err::<Vec<WeatherPanelField<T>>, String>(message),
            ),
        },
{
    let fields = match severe(
        SevereCall { surface: ground.surface, pressure: ground.pressure, prepared },
    ) {
        Ok(fields) => fields,
        Err(message) => {
            return Err(message);
        },
    };
    let names = &ground.names;
    let layout = product.layout(ground.usual);
    let map_index: usize = layout_index(ground.layouts, layout);
    Ok(
        HrrrPanel {
            product,
            file_name: hrrr_panel_file_name(
                names.date_yyyymmdd,
                names.cycle_utc,
                names.forecast_hour,
                names.domain_slug,
                product,
            ),
            header: hrrr_panel_header(
                product,
                names.date_yyyymmdd,
                names.cycle_utc,
                names.forecast_hour,
            ),
            fields,
            layout,
            map_index,
        },
    )
}

fn draw_panel<
    'a,
    T,
    P,
    M,
    I,
    D: for<'b> Fn(HrrrDrawing<'b, T, P, M>) -> Result<HrrrDrawn<I>, String>,
>(ground: &PanelGround<'a, T, P, M>, panel: &HrrrPanel<T>, draw: &D) -> (result: Result<
    HrrrRenderedProduct<I>,
    String,
>)
    requires
        panel.map_index < ground.maps@.len(),
        forall|drawing: HrrrDrawing<T, P, M>| #[trigger] call_requires(*draw, (drawing,)),
    ensures
        match result {
            Ok(rendered) => panel_drawn(*ground, *panel, *draw, rendered),
            Err(told) => exists|message: String|
                #[trigger] call_ensures(
                    *draw,
                    (drawing_of(*ground, *panel),),
                    Err::<HrrrDrawn<I>, String>(message),
                ) && told@ == "render worker failed: "@ + message@,
        },
{
    let map = &ground.maps[panel.map_index];
    let answer = draw(HrrrDrawing { surface: ground.surface, map, panel });
    let ghost told = answer;
    proof {
        assert(call_ensures(*draw, (drawing_of(*ground, *panel),), told));
    }
    match answer {
        Ok(drawn) => {
            let ghost known = drawn;
            let rendered = hrrr_rendered_product(
                panel.product,
                drawn.output_path,
                drawn.timing,
                drawn.content_identity,
                ground.fetch_keys,
            );
            proof {
                assert(reports_drawn(*ground, *panel, known, rendered));
            }
            Ok(rendered)
        },
        Err(message) => {
            let failed = failed_render_job(message.as_str());
            Err(failed)
        },
    }
}

/// Computes and draws the panels of a batch in the order of a schedule.
pub fn draw_hrrr_panels<
    'a,
    T,
    P,
    M,
    I,
    W: for<'b> Fn(SevereCall<'b, T, P>) -> Result<Vec<WeatherPanelField<T>>, String>,
    D: for<'b> Fn(HrrrDrawing<'b, T, P, M>) -> Result<HrrrDrawn<I>, String>,
>(
    ground: &PanelGround<'a, T, P, M>,
    prepared: &Option<PreparedHeavyVolume<T>>,
    products: &[HrrrBatchProduct],
    render_parallelism: usize,
    severe: &W,
    draw: &D,
) -> (result: Result<Vec<HrrrRenderedProduct<I>>, String>)
    requires
        render_parallelism >= 1,
        products@.len() > 0 ==> *prepared is Some,
        ground.maps@.len() == ground.layouts@.len(),
        forall|i: int|
            0 <= i < products@.len() ==> ground.layouts@.contains(
                (#[trigger] products@[i]).spec_layout(ground.usual),
            ),
        forall|call: SevereCall<T, P>| #[trigger] call_requires(*severe, (call,)),
        forall|drawing: HrrrDrawing<T, P, M>| #[trigger] call_requires(*draw, (drawing,)),
    ensures
        panels_end(
            *ground,
            *prepared,
            products@,
            *severe,
            *draw,
            hrrr::schedule(products@.len() as int, render_parallelism as int),
            result,
        ),
{
    let steps = render_schedule(products.len(), render_parallelism);
    proof {
        law_schedule_is_orderly(products@.len() as int, render_parallelism as int);
    }
    let mut panels: Vec<HrrrPanel<T>> = Vec::new();
    let mut rendered: Vec<HrrrRenderedProduct<I>> = Vec::new();
    let mut k: usize = 0;
    while k < steps.len()
        invariant
            k <= steps@.len(),
            steps@ == hrrr::schedule(products@.len() as int, render_parallelism as int),
            orderly(steps@),
            starts(steps@) == products@.len(),
            products@.len() > 0 ==> *prepared is Some,
            ground.maps@.len() == ground.layouts@.len(),
            forall|i: int|
                0 <= i < products@.len() ==> ground.layouts@.contains(
                    (#[trigger] products@[i]).spec_layout(ground.usual),
                ),
            forall|call: SevereCall<T, P>| #[trigger] call_requires(*severe, (call,)),
            forall|drawing: HrrrDrawing<T, P, M>| #[trigger] call_requires(*draw, (drawing,)),
            walked(
                *ground,
                *prepared,
                products@,
                *severe,
                *draw,
                steps@.take(k as int),
                panels@,
                rendered@,
            ),
            rendered@.len() <= panels@.len(),
        decreases steps@.len() - k,
    {
        let ghost before = panels@;
        let ghost drawn = rendered@;
        proof {
            lemma_step_counts(steps@, k as int);
            lemma_starts_grow(steps@, k + 1);
            assert(walked(
                *ground,
                *prepared,
                products@,
                *severe,
                *draw,
                steps@.take(k as int),
                before,
                drawn,
            ));
        }
        match (steps[k], prepared) {
            (RenderStep::Start(job), Some(volume)) => {
                match compute_hrrr_batch_product(ground, volume, products[job], severe) {
                    Ok(panel) => {
                        panels.push(panel);
                    },
                    Err(message) => {
                        proof {
                            assert(stops(
                                *ground,
                                *prepared,
                                *severe,
                                *draw,
                                before,
                                steps@[k as int],
                                message,
                            ));
                        }
                        return Err(message);
                    },
                }
            },
            (RenderStep::Start(_), None) => {
                assert(false);
            },
            (RenderStep::Join(job), _) => {
                assert(panel_computed(
                    *ground,
                    (*prepared)->Some_0,
                    products@[job as int],
                    *severe,
                    panels@[job as int],
                ));
                match draw_panel(ground, &panels[job], draw) {
                    Ok(product) => {
                        rendered.push(product);
                    },
                    Err(message) => {
                        proof {
                            assert(stops(
                                *ground,
                                *prepared,
                                *severe,
                                *draw,
                                before,
                                steps@[k as int],
                                message,
                            ));
                        }
                        return Err(message);
                    },
                }
            },
        }
        k = k + 1;
        proof {
            assert forall|i: int| 0 <= i < panels@.len() implies panel_computed(
                *ground,
                (*prepared)->Some_0,
                products@[i],
                *severe,
                #[trigger] panels@[i],
            ) by {
                if i < before.len() {
                    assert(panels@[i] == before[i]);
                }
            }
            assert forall|i: int| 0 <= i < rendered@.len() implies panel_drawn(
                *ground,
                panels@[i],
                *draw,
                #[trigger] rendered@[i],
            ) by {
                assert(panels@[i] == before[i]);
                if i < drawn.len() {
                    assert(rendered@[i] == drawn[i]);
                }
            }
        }
    }
    let ghost all = panels@;
    let ghost listed = rendered@;
    let result: Result<Vec<HrrrRenderedProduct<I>>, String> = Ok(rendered);
    proof {
        assert(steps@.take(k as int) =~= steps@);
        assert(result is Ok && result->Ok_0@ == listed);
        assert(walked(
            *ground,
            *prepared,
            products@,
            *severe,
            *draw,
            hrrr::schedule(products@.len() as int, render_parallelism as int),
            all,
            result->Ok_0@,
        ));
        assert(panels_end(
            *ground,
            *prepared,
            products@,
            *severe,
            *draw,
            hrrr::schedule(products@.len() as int, render_parallelism as int),
            result,
        ));
    }
    result
}

/// Whether a map can be projected for each of some layouts.
pub open spec fn projects_all<
    T,
    P,
    M,
    Q: for<'b> Fn(&'b SurfaceFields<T, P>, WeatherPanelLayout) -> Result<M, String>,
>(
    surface: SurfaceFields<T, P>,
    layouts: Seq<WeatherPanelLayout>,
    project: Q,
    maps: Seq<M>,
) -> bool {
    &&& maps.len() == layouts.len()
    &&& forall|i: int|
        0 <= i < maps.len() ==> call_ensures(
            project,
            (&surface, layouts[i]),
            Ok::<M, String>(#[trigger] maps[i]),
        )
}

/// Whether the maps of some layouts end as projected: one for each layout in order, or
/// the failure of the first that fails.
pub open spec fn maps_end<
    T,
    P,
    M,
    Q: for<'b> Fn(&'b SurfaceFields<T, P>, WeatherPanelLayout) -> Result<M, String>,
>(
    surface: SurfaceFields<T, P>,
    layouts: Seq<WeatherPanelLayout>,
    project: Q,
    result: Result<Vec<M>, String>,
) -> bool {
    match result {
        Ok(maps) => projects_all(surface, layouts, project, maps@),
        Err(message) => exists|k: int, maps: Seq<M>|
            0 <= k < layouts.len() && #[trigger] projects_all(
                surface,
                layouts.take(k),
                project,
                maps,
            ) && call_ensures(project, (&surface, layouts[k]), Err::<M, String>(message)),
    }
}

/// Projects a map for each of some layouts.
pub fn project_layouts<
    T,
    P,
    M,
    Q: for<'b> Fn(&'b SurfaceFields<T, P>, WeatherPanelLayout) -> Result<M, String>,
>(surface: &SurfaceFields<T, P>, layouts: &[WeatherPanelLayout], project: &Q) -> (result: Result<
    Vec<M>,
    String,
>)
    requires
        forall|s: SurfaceFields<T, P>, layout: WeatherPanelLayout|
            #[trigger] call_requires(*project, (&s, layout)),
    ensures
        maps_end(*surface, layouts@, *project, result),
{
    let mut maps: Vec<M> = Vec::new();
    let mut i: usize = 0;
    while i < layouts.len()
        invariant
            i <= layouts@.len(),
            forall|s: SurfaceFields<T, P>, layout: WeatherPanelLayout|
                #[trigger] call_requires(*project, (&s, layout)),
            projects_all(*surface, layouts@.take(i as int), *project, maps@),
        decreases layouts@.len() - i,
    {
        match project(surface, layouts[i]) {
            Ok(map) => {
                maps.push(map);
            },
            Err(message) => {
                return Err(message);
            },
        }
        i = i + 1;
    }
    proof {
        assert(layouts@.take(i as int) =~= layouts@);
    }
    Ok(maps)
}

/// Whether the domain of a batch ends as cropped and guarded: its whole grid is
/// projected first, for all layouts together.
pub open spec fn domain_ends<
    T,
    P,
    H,
    B,
    J: for<'b> Fn(&'b SurfaceFields<T, P>, &'b Vec<WeatherPanelLayout>) -> Result<
        HeavyProjection<H>,
        String,
    >,
>(
    request: HrrrBatchRequest<B>,
    surface: SurfaceFields<T, P>,
    pressure: PressureFields<T>,
    layouts: Seq<WeatherPanelLayout>,
    limit: int,
    project_whole: J,
    outcome: Result<(Option<CroppedHeavyDomain<T, P>>, HeavyDomainStats), String>,
) -> bool {
    exists|list: Vec<WeatherPanelLayout>, answer: Result<HeavyProjection<H>, String>|
        list@ == layouts && #[trigger] call_ensures(project_whole, (&surface, &list), answer)
            && match answer {
            Err(message) => outcome is Err && outcome->Err_0 == message,
            Ok(whole) => heavy_stage::guards(
                surface,
                pressure,
                whole,
                request.domain,
                request.allow_large_heavy_domain,
                limit,
                outcome,
            ),
        }
}

/// The volume of a batch: it is prepared where a product needs it.
pub open spec fn prepares<
    T,
    P,
    A: Fn(T, T) -> T,
    S: Fn(T, T) -> T,
    L: Fn(T, T) -> T,
    E: Fn(T) -> T,
    C: Fn(T) -> T,
>(
    products: Seq<HrrrBatchProduct>,
    surface: SurfaceFields<T, P>,
    pressure: PressureFields<T>,
    heights: HeightRules<T, A, S, L, E, C>,
    prepared: Option<PreparedHeavyVolume<T>>,
) -> bool {
    match prepared {
        Some(volume) => products.contains(HrrrBatchProduct::SevereProofPanel)
            && ecape_compute::prepared_from(surface, pressure, heights, volume),
        None => !products.contains(HrrrBatchProduct::SevereProofPanel),
    }
}

/// The names of the run of a request.
pub open spec fn names_request<'a, B>(
    request: HrrrBatchRequest<B>,
    cycle_utc: u8,
    names: HrrrRunNames<'a>,
) -> bool {
    &&& names.date_yyyymmdd@ == request.date_yyyymmdd@
    &&& names.cycle_utc == cycle_utc
    &&& names.forecast_hour == request.forecast_hour
    &&& names.domain_slug@ == request.domain.slug@
}

/// The panels of a batch that were drawn, and the times of its load.
pub struct HrrrBatch<I> {
    pub products: Vec<HrrrRenderedProduct<I>>,
    pub shared_timing: HrrrSharedTiming,
}

/// The products of a request, each once.
pub open spec fn unique_products<B>(request: HrrrBatchRequest<B>) -> Seq<HrrrBatchProduct> {
    text::with_all_distinct(Seq::<HrrrBatchProduct>::empty(), request.products@)
}

/// The layouts of the products of a request, each once.
pub open spec fn unique_layouts<B>(request: HrrrBatchRequest<B>, usual: WeatherPanelLayout) -> Seq<
    WeatherPanelLayout,
> {
    text::with_all_distinct(
        Seq::<WeatherPanelLayout>::empty(),
        hrrr::layouts(unique_products(request), usual),
    )
}

/// The functions that a batch draws with: `project` projects the map of a layout,
/// `severe` computes the fields of a panel, and `draw` draws it.
pub struct PanelRules<'a, Q, W, D> {
    pub project: &'a Q,
    pub severe: &'a W,
    pub draw: &'a D,
}

/// Whether the panels of a batch end as drawn on maps that were projected for their
/// layouts.
pub open spec fn drawn_on_maps<
    'a,
    T,
    P,
    M,
    I,
    B,
    Q: for<'b> Fn(&'b SurfaceFields<T, P>, WeatherPanelLayout) -> Result<M, String>,
    W: for<'b> Fn(SevereCall<'b, T, P>) -> Result<Vec<WeatherPanelField<T>>, String>,
    D: for<'b> Fn(HrrrDrawing<'b, T, P, M>) -> Result<HrrrDrawn<I>, String>,
    A: Fn(T, T) -> T,
    S: Fn(T, T) -> T,
    L: Fn(T, T) -> T,
    E: Fn(T) -> T,
    C: Fn(T) -> T,
>(
    request: HrrrBatchRequest<B>,
    cycle_utc: u8,
    ground: PanelGround<'a, T, P, M>,
    loaded: (LoadedBundle, LoadedBundle),
    at_once: int,
    rules: PanelRules<'a, Q, W, D>,
    heights: HeightRules<T, A, S, L, E, C>,
    result: Result<HrrrBatch<I>, String>,
) -> bool {
    let products = unique_products(request);
    &&& names_request(request, cycle_utc, ground.names)
    &&& match hrrr::load_gap(loaded.0, loaded.1) {
        Some(gap) => result matches Err(message) && message@ == gap,
        None => exists|
            prepared: Option<PreparedHeavyVolume<T>>,
            drawn: Result<Vec<HrrrRenderedProduct<I>>, String>,
        |
            #[trigger] panels_end(
                ground,
                prepared,
                products,
                *rules.severe,
                *rules.draw,
                hrrr::schedule(products.len() as int, at_once),
                drawn,
            ) && prepares(products, *ground.surface, *ground.pressure, heights, prepared)
                && match drawn {
                Err(message) => result is Err && result->Err_0 == message,
                Ok(rendered) => {
                    &&& result is Ok
                    &&& result->Ok_0.products == rendered
                    &&& hrrr::times_load(loaded.0, loaded.1, result->Ok_0.shared_timing)
                },
            },
    }
}

/// Whether the panels of a batch end as drawn on a domain: the maps of their layouts
/// are projected first.
pub open spec fn drawn_on_domain<
    'a,
    T,
    P,
    M,
    I,
    B,
    Q: for<'b> Fn(&'b SurfaceFields<T, P>, WeatherPanelLayout) -> Result<M, String>,
    W: for<'b> Fn(SevereCall<'b, T, P>) -> Result<Vec<WeatherPanelField<T>>, String>,
    D: for<'b> Fn(HrrrDrawing<'b, T, P, M>) -> Result<HrrrDrawn<I>, String>,
    A: Fn(T, T) -> T,
    S: Fn(T, T) -> T,
    L: Fn(T, T) -> T,
    E: Fn(T) -> T,
    C: Fn(T) -> T,
>(
    request: HrrrBatchRequest<B>,
    cycle_utc: u8,
    surface: SurfaceFields<T, P>,
    pressure: PressureFields<T>,
    usual: WeatherPanelLayout,
    fetch_keys: Seq<Seq<char>>,
    loaded: (LoadedBundle, LoadedBundle),
    at_once: int,
    rules: PanelRules<'a, Q, W, D>,
    heights: HeightRules<T, A, S, L, E, C>,
    result: Result<HrrrBatch<I>, String>,
) -> bool {
    let layouts = unique_layouts(request, usual);
    exists|maps: Result<Vec<M>, String>|
        #[trigger] maps_end(surface, layouts, *rules.project, maps) && match maps {
            Err(message) => result is Err && result->Err_0 == message,
            Ok(maps) => exists|ground: PanelGround<'a, T, P, M>|
                #[trigger] drawn_on_maps(
                    request,
                    cycle_utc,
                    ground,
                    loaded,
                    at_once,
                    rules,
                    heights,
                    result,
                ) && ground.surface == surface && ground.pressure == pressure && ground.usual
                    == usual && ground.layouts@ == layouts && ground.maps@ == maps@
                    && text::texts(ground.fetch_keys@) == fetch_keys,
        }
}

fn draw_on_domain<
    'a,
    T: Copy,
    P,
    M,
    I,
    B,
    Q: for<'b> Fn(&'b SurfaceFields<T, P>, WeatherPanelLayout) -> Result<M, String>,
    W: for<'b> Fn(SevereCall<'b, T, P>) -> Result<Vec<WeatherPanelField<T>>, String>,
    D: for<'b> Fn(HrrrDrawing<'b, T, P, M>) -> Result<HrrrDrawn<I>, String>,
    A: Fn(T, T) -> T,
    S: Fn(T, T) -> T,
    L: Fn(T, T) -> T,
    E: Fn(T) -> T,
    C: Fn(T) -> T,
>(
    request: &HrrrBatchRequest<B>,
    cycle_utc: u8,
    surface: &SurfaceFields<T, P>,
    pressure: &PressureFields<T>,
    products: &[HrrrBatchProduct],
    layouts: &[WeatherPanelLayout],
    usual: WeatherPanelLayout,
    fetch_keys: &[String],
    loaded: (LoadedBundle, LoadedBundle),
    at_once: usize,
    rules: &PanelRules<'a, Q, W, D>,
    heights: &HeightRules<T, A, S, L, E, C>,
) -> (result: Result<HrrrBatch<I>, String>)
    requires
        at_once >= 1,
        products@ == unique_products(*request),
        layouts@ == unique_layouts(*request, usual),
        products@.len() > 0 ==> heavy_volume::has_heights(*surface, *pressure),
        rules_usable::<T, P, M, I, Q, W, D>(*rules),
        heights_usable(*heights),
    ensures
        drawn_on_domain(
            *request,
            cycle_utc,
            *surface,
            *pressure,
            usual,
            text::texts(fetch_keys@),
            loaded,
            at_once as int,
            *rules,
            *heights,
            result,
        ),
{
    let maps = project_layouts(surface, layouts, rules.project);
    let ghost told = maps;
    proof {
        assert(maps_end(*surface, layouts@, *rules.project, told));
    }
    let maps = match maps {
        Ok(maps) => maps,
        Err(message) => {
            return Err(message);
        },
    };
    let names = HrrrRunNames {
        date_yyyymmdd: request.date_yyyymmdd.as_str(),
        cycle_utc,
        forecast_hour: request.forecast_hour,
        domain_slug: request.domain.slug.as_str(),
    };
    let ground = PanelGround {
        names,
        surface,
        pressure,
        usual,
        layouts,
        maps: maps.as_slice(),
        fetch_keys,
    };
    let prepared = if needs_heavy_volume(products) {
        Some(prepare_heavy_volume(surface, pressure, false, heights))
    } else {
        None
    };
    proof {
        assert(prepares(products@, *surface, *pressure, *heights, prepared));
    }
    let timing = match build_hrrr_shared_timing(loaded.0, loaded.1) {
        Ok(timing) => timing,
        Err(message) => {
            let ghost ended = Err::<HrrrBatch<I>, String>(message);
            proof {
                assert(drawn_on_maps(
                    *request,
                    cycle_utc,
                    ground,
                    loaded,
                    at_once as int,
                    *rules,
                    *heights,
                    ended,
                ));
            }
            return Err(message);
        },
    };
    proof {
        let all = hrrr::layouts(products@, usual);
        text::lemma_with_all_distinct(Seq::<WeatherPanelLayout>::empty(), all);
        assert forall|i: int| 0 <= i < products@.len() implies layouts@.contains(
            (#[trigger] products@[i]).spec_layout(usual),
        ) by {
            assert(all[i] == products@[i].spec_layout(usual));
            assert(all.contains(all[i]));
        }
        if products@.len() > 0 {
            assert(products@[0] == HrrrBatchProduct::SevereProofPanel);
        }
    }
    let drawn = draw_hrrr_panels(
        &ground,
        &prepared,
        products,
        at_once,
        rules.severe,
        rules.draw,
    );
    let ghost shown = drawn;
    let result = match drawn {
        Ok(products) => Ok(HrrrBatch { products, shared_timing: timing }),
        Err(message) => Err(message),
    };
    proof {
        assert(panels_end(
            ground,
            prepared,
            products@,
            *rules.severe,
            *rules.draw,
            hrrr::schedule(products@.len() as int, at_once as int),
            shown,
        ));
        assert(drawn_on_maps(
            *request,
            cycle_utc,
            ground,
            loaded,
            at_once as int,
            *rules,
            *heights,
            result,
        ));
    }
    result
}

/// Whether the functions of a batch can be called on anything.
pub open spec fn rules_usable<
    'a,
    T,
    P,
    M,
    I,
    Q: for<'b> Fn(&'b SurfaceFields<T, P>, WeatherPanelLayout) -> Result<M, String>,
    W: for<'b> Fn(SevereCall<'b, T, P>) -> Result<Vec<WeatherPanelField<T>>, String>,
    D: for<'b> Fn(HrrrDrawing<'b, T, P, M>) -> Result<HrrrDrawn<I>, String>,
>(rules: PanelRules<'a, Q, W, D>) -> bool {
    &&& forall|s: SurfaceFields<T, P>, layout: WeatherPanelLayout|
        #[trigger] call_requires(*rules.project, (&s, layout))
    &&& forall|call: SevereCall<T, P>| #[trigger] call_requires(*rules.severe, (call,))
    &&& forall|drawing: HrrrDrawing<T, P, M>| #[trigger] call_requires(*rules.draw, (drawing,))
}

/// Whether the rules of heights can be called on anything.
pub open spec fn heights_usable<
    T,
    A: Fn(T, T) -> T,
    S: Fn(T, T) -> T,
    L: Fn(T, T) -> T,
    E: Fn(T) -> T,
    C: Fn(T) -> T,
>(heights: HeightRules<T, A, S, L, E, C>) -> bool {
    &&& forall|a: T, b: T| #[trigger] call_requires(heights.above, (a, b))
    &&& forall|a: T, b: T| #[trigger] call_requires(heights.raise, (a, b))
    &&& forall|a: T, b: T| #[trigger] call_requires(heights.lower, (a, b))
    &&& forall|a: T| #[trigger] call_requires(heights.settle, (a,))
    &&& forall|a: T| #[trigger] call_requires(heights.to_pa, (a,))
}

/// Whether a batch ends as drawn from a pair of analyses: its domain is cropped and
/// guarded first, and the panels are drawn on what is left of it.
pub open spec fn batch_ends<
    'a,
    T,
    P,
    H,
    M,
    I,
    B,
    J: for<'b> Fn(&'b SurfaceFields<T, P>, &'b Vec<WeatherPanelLayout>) -> Result<
        HeavyProjection<H>,
        String,
    >,
    Q: for<'b> Fn(&'b SurfaceFields<T, P>, WeatherPanelLayout) -> Result<M, String>,
    W: for<'b> Fn(SevereCall<'b, T, P>) -> Result<Vec<WeatherPanelField<T>>, String>,
    D: for<'b> Fn(HrrrDrawing<'b, T, P, M>) -> Result<HrrrDrawn<I>, String>,
    A: Fn(T, T) -> T,
    S: Fn(T, T) -> T,
    L: Fn(T, T) -> T,
    E: Fn(T) -> T,
    C: Fn(T) -> T,
>(
    request: HrrrBatchRequest<B>,
    cycle_utc: u8,
    surface: SurfaceFields<T, P>,
    pressure: PressureFields<T>,
    usual: WeatherPanelLayout,
    fetch_keys: Seq<Seq<char>>,
    loaded: (LoadedBundle, LoadedBundle),
    limit: int,
    at_once: int,
    project_whole: J,
    rules: PanelRules<'a, Q, W, D>,
    heights: HeightRules<T, A, S, L, E, C>,
    result: Result<HrrrBatch<I>, String>,
) -> bool {
    exists|outcome: Result<(Option<CroppedHeavyDomain<T, P>>, HeavyDomainStats), String>|
        #[trigger] domain_ends(
            request,
            surface,
            pressure,
            hrrr::layouts(unique_products(request), usual),
            limit,
            project_whole,
            outcome,
        ) && match outcome {
            Err(message) => result is Err && result->Err_0 == message,
            Ok((Some(cropped), _)) => drawn_on_domain(
                request,
                cycle_utc,
                cropped.surface,
                cropped.pressure,
                usual,
                fetch_keys,
                loaded,
                at_once,
                rules,
                heights,
                result,
            ),
            Ok((None, _)) => drawn_on_domain(
                request,
                cycle_utc,
                surface,
                pressure,
                usual,
                fetch_keys,
                loaded,
                at_once,
                rules,
                heights,
                result,
            ),
        }
}

fn product_layouts(products: &[HrrrBatchProduct], usual: WeatherPanelLayout) -> (list: Vec<
    WeatherPanelLayout,
>)
    ensures
        list@ == hrrr::layouts(products@, usual),
{
    let mut list: Vec<WeatherPanelLayout> = Vec::new();
    let mut i: usize = 0;
    while i < products.len()
        invariant
            i <= products@.len(),
            list@ == hrrr::layouts(products@, usual).take(i as int),
        decreases products@.len() - i,
    {
        list.push(products[i].layout(usual));
        i = i + 1;
        assert(hrrr::layouts(products@, usual).take(i as int) =~= hrrr::layouts(
            products@,
            usual,
        ).take(i - 1).push(products@[i - 1].spec_layout(usual)));
    }
    assert(hrrr::layouts(products@, usual).take(i as int) =~= hrrr::layouts(products@, usual));
    list
}

/// Draws a batch of HRRR panels from what was loaded for it. A load without both
/// analyses draws nothing.
pub fn run_hrrr_batch_from_loaded<
    'a,
    T: Copy,
    P: Copy,
    H,
    M,
    I,
    B,
    J: for<'b> Fn(&'b SurfaceFields<T, P>, &'b Vec<WeatherPanelLayout>) -> Result<
        HeavyProjection<H>,
        String,
    >,
    Q: for<'b> Fn(&'b SurfaceFields<T, P>, WeatherPanelLayout) -> Result<M, String>,
    W: for<'b> Fn(SevereCall<'b, T, P>) -> Result<Vec<WeatherPanelField<T>>, String>,
    D: for<'b> Fn(HrrrDrawing<'b, T, P, M>) -> Result<HrrrDrawn<I>, String>,
    A: Fn(T, T) -> T,
    S: Fn(T, T) -> T,
    L: Fn(T, T) -> T,
    E: Fn(T) -> T,
    C: Fn(T) -> T,
>(
    request: &HrrrBatchRequest<B>,
    cycle_utc: u8,
    pair: Option<(&SurfaceFields<T, P>, &PressureFields<T>)>,
    loaded: (LoadedBundle, LoadedBundle),
    fetch_keys: &[String],
    usual: WeatherPanelLayout,
    cell_limit: usize,
    threads: Option<&str>,
    available: Option<usize>,
    project_whole: &J,
    rules: &PanelRules<'a, Q, W, D>,
    heights: &HeightRules<T, A, S, L, E, C>,
) -> (result: Result<HrrrBatch<I>, String>)
    requires
        pair matches Some((surface, pressure)) ==> heavy_stage::fills_grid(*surface) && (
        request.products@.len() > 0 ==> heavy_volume::has_heights(*surface, *pressure)),
        forall|s: SurfaceFields<T, P>, list: Vec<WeatherPanelLayout>|
            #[trigger] call_requires(*project_whole, (&s, &list)),
        rules_usable::<T, P, M, I, Q, W, D>(*rules),
        heights_usable(*heights),
    ensures
        match pair {
            None => result matches Err(message) && message@
                == "HRRR batch planner missed surface or pressure bundle"@,
            Some((surface, pressure)) => batch_ends(
                *request,
                cycle_utc,
                *surface,
                *pressure,
                usual,
                text::texts(fetch_keys@),
                loaded,
                cell_limit as int,
                hrrr::parallelism(
                    presentation::optional(threads),
                    available,
                    unique_products(*request).len() as int,
                ),
                *project_whole,
                *rules,
                *heights,
                result,
            ),
        },
{
    let (surface, pressure) = match pair {
        Some(pair) => pair,
        None => {
            return Err("HRRR batch planner missed surface or pressure bundle".to_owned());
        },
    };
    let products = dedupe_products(request.products.as_slice());
    proof {
        hrrr::law_products_are_drawn_once(request.products@);
        if products@.len() > 0 {
            assert(products@.contains(products@[0]));
            assert(request.products@.contains(products@[0]));
        }
    }
    let every = product_layouts(products.as_slice(), usual);
    let answer = project_whole(surface, &every);
    let ghost told = answer;
    let whole = match answer {
        Ok(whole) => whole,
        Err(message) => {
            let ghost ended = Err::<
                (Option<CroppedHeavyDomain<T, P>>, HeavyDomainStats),
                String,
            >(message);
            proof {
                assert(call_ensures(*project_whole, (surface, &every), told));
                assert(domain_ends(
                    *request,
                    *surface,
                    *pressure,
                    hrrr::layouts(unique_products(*request), usual),
                    cell_limit as int,
                    *project_whole,
                    ended,
                ));
            }
            return Err(message);
        },
    };
    let outcome = crop_projected_domain(
        surface,
        pressure,
        &whole,
        &request.domain,
        request.allow_large_heavy_domain,
        cell_limit,
    );
    let ghost found = outcome;
    proof {
        assert(call_ensures(*project_whole, (surface, &every), told));
        assert(domain_ends(
            *request,
            *surface,
            *pressure,
            hrrr::layouts(unique_products(*request), usual),
            cell_limit as int,
            *project_whole,
            found,
        ));
    }
    let layouts = layouts_to_project(products.as_slice(), usual);
    let at_once: usize = png_render_parallelism(threads, available, products.len());
    match outcome {
        Err(message) => Err(message),
        Ok((Some(cropped), _)) => draw_on_domain(
            request,
            cycle_utc,
            &cropped.surface,
            &cropped.pressure,
            products.as_slice(),
            layouts.as_slice(),
            usual,
            fetch_keys,
            loaded,
            at_once,
            rules,
            heights,
        ),
        Ok((None, _)) => draw_on_domain(
            request,
            cycle_utc,
            surface,
            pressure,
            products.as_slice(),
            layouts.as_slice(),
            usual,
            fetch_keys,
            loaded,
            at_once,
            rules,
            heights,
        ),
    }
}

/// What is reported of a batch. `X` is what is published of a fetch.
pub struct HrrrBatchReport<B, X, I> {
    pub date_yyyymmdd: String,
    pub cycle_utc: u8,
    pub forecast_hour: u16,
    pub source: SourceId,
    pub domain: DomainSpec<B>,
    pub input_fetches: Vec<X>,
    pub products: Vec<HrrrRenderedProduct<I>>,
    pub shared_timing: HrrrSharedTiming,
    pub total_ms: u128,
}

/// Reports a batch that was drawn, with the source that its run was found at.
pub fn hrrr_batch_report<B: Copy, X, I>(
    request: &HrrrBatchRequest<B>,
    cycle_utc: u8,
    source: SourceId,
    input_fetches: Vec<X>,
    batch: HrrrBatch<I>,
    total_ms: u128,
) -> (report: HrrrBatchReport<B, X, I>)
    ensures
        report.date_yyyymmdd@ == request.date_yyyymmdd@,
        report.cycle_utc == cycle_utc,
        report.forecast_hour == request.forecast_hour,
        report.source == source,
        report.domain.slug@ == request.domain.slug@,
        report.domain.bounds == request.domain.bounds,
        report.input_fetches == input_fetches,
        report.products == batch.products,
        report.shared_timing == batch.shared_timing,
        report.total_ms == total_ms,
{
    HrrrBatchReport {
        date_yyyymmdd: request.date_yyyymmdd.as_str().to_owned(),
        cycle_utc,
        forecast_hour: request.forecast_hour,
        source,
        domain: DomainSpec {
            slug: request.domain.slug.as_str().to_owned(),
            bounds: request.domain.bounds,
        },
        input_fetches,
        products: batch.products,
        shared_timing: batch.shared_timing,
        total_ms,
    }
}

} // verus!
