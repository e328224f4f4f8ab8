//! What is drawn for one recipe of a direct batch, and what is reported of it.
use crate::derived::presentation;
use crate::derived::presentation::sanitize_output_suffix;
use crate::direct::batch;
use crate::direct::batch::find_fetch;
use crate::direct::composite;
use crate::direct::composite::composite_panel_spec;
use crate::direct::fetch::group_runtime_info;
use crate::direct::grouping;
use crate::direct::grouping::{canonical_fetch_product_for_selectors, FetchGroup};
use crate::direct::planning;
use crate::direct::planning::{find_recipe, PlannedDirectRecipe};
use crate::direct::recipe;
use crate::direct::recipe::{find_field, FieldSelector, PlotRecipe};
use crate::direct::titles;
use crate::direct::titles::{direct_panel_title_for_request, direct_title_for_planned_product};
use crate::direct::types::{DirectBatchRequest, DirectFetchRuntimeInfo};
use crate::heavy;
use crate::heavy::model_slug;
use crate::model::{ProductSourceRoute, SourceId};
use crate::text;
use crate::text::{to_chars, to_decimal, to_padded_decimal, trim};
use vstd::prelude::*;
use vstd::string::*;

verus! {

/// What is put behind the name of a file: an underscore and the suffix, unless the
/// suffix is blank.
pub open spec fn name_suffix(value: Option<Seq<char>>) -> Seq<char> {
    match value {
        Some(value) => if text::trimmed(value).len() > 0 {
            "_"@ + presentation::sanitized(value)
        } else {
            ""@
        },
        None => ""@,
    }
}

fn direct_output_suffix(output_suffix: &Option<String>) -> (suffix: String)
    ensures
        suffix@ == name_suffix(text::optional_view(*output_suffix)),
{
    match output_suffix {
        Some(value) => {
            let trimmed = trim(value.as_str());
            let chars = to_chars(trimmed.as_str());
            if chars.len() > 0 {
                "_".to_owned().concat(sanitize_output_suffix(value.as_str()).as_str())
            } else {
                "".to_owned()
            }
        },
        None => "".to_owned(),
    }
}

/// The file name of a map.
pub open spec fn direct_file_name<B, O>(
    request: DirectBatchRequest<B, O>,
    model: Seq<char>,
    cycle_utc: u8,
    slug: Seq<char>,
) -> Seq<char> {
    "rustwx_"@ + heavy::underscored(model) + "_"@ + request.date_yyyymmdd@ + "_"@ + text::decimal(
        cycle_utc as nat,
    ) + "z_f"@ + text::zero_padded(text::decimal(request.forecast_hour as nat), 3) + "_"@
        + request.domain.slug@ + "_"@ + slug + name_suffix(
        text::optional_view(request.output_suffix),
    ) + ".png"@
}

/// The file name of a map.
pub fn direct_map_file_name<B, O>(
    request: &DirectBatchRequest<B, O>,
    model: &str,
    cycle_utc: u8,
    slug: &str,
) -> (name: String)
    ensures
        name@ == direct_file_name(*request, model@, cycle_utc, slug@),
{
    let suffix = direct_output_suffix(&request.output_suffix);
    "rustwx_".to_owned().concat(model_slug(model).as_str()).concat("_").concat(
        request.date_yyyymmdd.as_str(),
    ).concat("_").concat(to_decimal(cycle_utc as u64).as_str()).concat("z_f").concat(
        to_padded_decimal(request.forecast_hour as u64, 3).as_str(),
    ).concat("_").concat(request.domain.slug.as_str()).concat("_").concat(slug).concat(
        suffix.as_str(),
    ).concat(".png")
}

/// What is known of the fetches of fields that were read before: one fetch for the
/// families of every group.
pub fn fetch_truth_for_groups<B, O>(
    request: &DirectBatchRequest<B, O>,
    latest_source: SourceId,
    groups: &[FetchGroup],
    fetched_product: &str,
    resolved_url: &str,
    fetch_key: &str,
) -> (truth: Vec<(String, DirectFetchRuntimeInfo)>)
    ensures
        truth@.len() == groups@.len(),
        forall|i: int|
            0 <= i < groups@.len() ==> {
                let entry = #[trigger] truth@[i];
                &&& entry.0@ == groups@[i].product@
                &&& entry.1.fetch_key@ == fetch_key@
                &&& entry.1.planned_product@ == groups@[i].product@
                &&& entry.1.fetched_product@ == fetched_product@
                &&& text::texts(entry.1.planned_family_aliases@) == text::texts(
                    groups@[i].planned_family_aliases@,
                )
                &&& entry.1.requested_source == request.source
                &&& entry.1.resolved_source == latest_source
                &&& entry.1.resolved_url@ == resolved_url@
            },
{
    let mut truth: Vec<(String, DirectFetchRuntimeInfo)> = Vec::new();
    let mut i: usize = 0;
    while i < groups.len()
        invariant
            i <= groups@.len(),
            truth@.len() == i,
            forall|k: int|
                0 <= k < i ==> {
                    let entry = #[trigger] truth@[k];
                    &&& entry.0@ == groups@[k].product@
                    &&& entry.1.fetch_key@ == fetch_key@
                    &&& entry.1.planned_product@ == groups@[k].product@
                    &&& entry.1.fetched_product@ == fetched_product@
                    &&& text::texts(entry.1.planned_family_aliases@) == text::texts(
                        groups@[k].planned_family_aliases@,
                    )
                    &&& entry.1.requested_source == request.source
                    &&& entry.1.resolved_source == latest_source
                    &&& entry.1.resolved_url@ == resolved_url@
                },
        decreases groups@.len() - i,
    {
        let group = &groups[i];
        let info = group_runtime_info(
            group,
            fetch_key,
            fetched_product,
            Some(request.source),
            latest_source,
            resolved_url,
        );
        truth.push((group.product.clone(), info));
        i = i + 1;
    }
    truth
}

/// Why a recipe is not drawn.
#[derive(Debug)]
pub enum RenderRefusal {
    UnknownFetch { product: String },
    NoFilledBinding,
    FilledNotRead { selector: FieldSelector },
    NoComponent { slug: String },
    ComponentUnbound,
    ComponentNotRead { selector: FieldSelector },
}

/// Why a recipe is not drawn, as the contracts speak of it.
pub enum Refusal {
    UnknownFetch { product: Seq<char> },
    NoFilledBinding,
    FilledNotRead { selector: FieldSelector },
    NoComponent { slug: Seq<char> },
    ComponentUnbound,
    ComponentNotRead { selector: FieldSelector },
}

impl View for RenderRefusal {
    type V = Refusal;

    open spec fn view(&self) -> Refusal {
        match *self {
            RenderRefusal::UnknownFetch { product } => Refusal::UnknownFetch { product: product@ },
            RenderRefusal::NoFilledBinding => Refusal::NoFilledBinding,
            RenderRefusal::FilledNotRead { selector } => Refusal::FilledNotRead { selector },
            RenderRefusal::NoComponent { slug } => Refusal::NoComponent { slug: slug@ },
            RenderRefusal::ComponentUnbound => Refusal::ComponentUnbound,
            RenderRefusal::ComponentNotRead { selector } => Refusal::ComponentNotRead { selector },
        }
    }
}

impl Refusal {
    /// What is said of a refusal. `selector` is how the selector is written.
    pub open spec fn text(self, selector: Seq<char>) -> Seq<char> {
        match self {
            Refusal::UnknownFetch { product } => {
                "missing direct fetch runtime truth for canonical family '"@ + product + "'"@
            },
            Refusal::NoFilledBinding => "recipe filled field missing selector binding"@,
            Refusal::FilledNotRead { .. } => "missing filled selector "@ + selector,
            Refusal::NoComponent { slug } => "missing component recipe '"@ + slug + "'"@,
            Refusal::ComponentUnbound => {
                "component recipe filled field missing selector binding"@
            },
            Refusal::ComponentNotRead { .. } => "missing component selector "@ + selector,
        }
    }
}

impl RenderRefusal {
    /// What is said of a refusal. `selector` is how the selector is written.
    pub fn message(&self, selector: &str) -> (message: String)
        ensures
            message@ == self@.text(selector@),
    {
        match self {
            RenderRefusal::UnknownFetch { product } => {
                "missing direct fetch runtime truth for canonical family '".to_owned().concat(
                    product.as_str(),
                ).concat("'")
            },
            RenderRefusal::NoFilledBinding => {
                "recipe filled field missing selector binding".to_owned()
            },
            RenderRefusal::FilledNotRead { .. } => {
                "missing filled selector ".to_owned().concat(selector)
            },
            RenderRefusal::NoComponent { slug } => {
                "missing component recipe '".to_owned().concat(slug.as_str()).concat("'")
            },
            RenderRefusal::ComponentUnbound => {
                "component recipe filled field missing selector binding".to_owned()
            },
            RenderRefusal::ComponentNotRead { .. } => {
                "missing component selector ".to_owned().concat(selector)
            },
        }
    }
}

/// One panel of a composite map: the recipe that it draws and its field.
pub struct PanelWork<'a> {
    pub recipe: &'a PlotRecipe,
    pub selector: FieldSelector,
    pub field_at: usize,
}

/// One panel as the contracts speak of it.
pub struct PanelView {
    pub recipe: PlotRecipe,
    pub selector: FieldSelector,
    pub field_at: int,
}

impl<'a> View for PanelWork<'a> {
    type V = PanelView;

    open spec fn view(&self) -> PanelView {
        PanelView {
            recipe: *self.recipe,
            selector: self.selector,
            field_at: self.field_at as int,
        }
    }
}

/// The panel that a component draws, or why it cannot.
pub open spec fn component_panel<F>(
    slug: Seq<char>,
    components: Seq<PlotRecipe>,
    extracted: Seq<(FieldSelector, F)>,
) -> Result<PanelView, Refusal> {
    match planning::recipe_named(components, slug) {
        None => Err(Refusal::NoComponent { slug }),
        Some(component) => match component.spec_filled() {
            None => Err(Refusal::ComponentUnbound),
            Some(selector) => match recipe::position(extracted, selector) {
                None => Err(Refusal::ComponentNotRead { selector }),
                Some(at) => Ok(PanelView { recipe: component, selector, field_at: at }),
            },
        },
    }
}

/// The panel that a component draws, or why it cannot.
pub fn plan_panel<'a, F>(
    slug: &str,
    components: &'a [PlotRecipe],
    extracted: &[(FieldSelector, F)],
) -> (panel: Result<PanelWork<'a>, RenderRefusal>)
    ensures
        match panel {
            Ok(panel) => component_panel(slug@, components@, extracted@) == Ok::<
                PanelView,
                Refusal,
            >(panel@),
            Err(refusal) => component_panel(slug@, components@, extracted@) == Err::<
                PanelView,
                Refusal,
            >(refusal@),
        },
{
    match find_recipe(components, slug) {
        None => Err(RenderRefusal::NoComponent { slug: slug.to_owned() }),
        Some(component) => match component.filled_selector() {
            None => Err(RenderRefusal::ComponentUnbound),
            Some(selector) => match find_field(extracted, selector) {
                None => Err(RenderRefusal::ComponentNotRead { selector }),
                Some(at) => Ok(PanelWork { recipe: component, selector, field_at: at }),
            },
        },
    }
}

/// The line on the left under a title: the one that the request gives, or else that
/// of the run.
pub open spec fn left_line<B, O>(request: DirectBatchRequest<B, O>, run: Seq<char>) -> Seq<char> {
    match request.subtitle_left_override {
        Some(line) => line@,
        None => run,
    }
}

/// The line on the right under a title: the one that the request gives, or else
/// that of the source.
pub open spec fn right_line<B, O>(request: DirectBatchRequest<B, O>, source: Seq<char>) -> Seq<char> {
    match request.subtitle_right_override {
        Some(line) => line@,
        None => source,
    }
}

/// The two lines under the title of a map.
pub fn direct_subtitles<B, O>(
    request: &DirectBatchRequest<B, O>,
    run_subtitle: &str,
    source_subtitle: &str,
) -> (lines: (String, String))
    ensures
        lines.0@ == left_line(*request, run_subtitle@),
        lines.1@ == right_line(*request, source_subtitle@),
{
    let left = match &request.subtitle_left_override {
        Some(line) => line.clone(),
        None => run_subtitle.to_owned(),
    };
    let right = match &request.subtitle_right_override {
        Some(line) => line.clone(),
        None => source_subtitle.to_owned(),
    };
    (left, right)
}

/// The header of a composite map: its title, and the line under it.
pub fn composite_header<B, O>(
    request: &DirectBatchRequest<B, O>,
    model: &str,
    base_title: &str,
    title_suffix: &str,
    run_subtitle: &str,
    source_subtitle: &str,
) -> (header: (String, String))
    ensures
        header.0@ == titles::map_title(*request, model@, None, base_title@, title_suffix@),
        header.1@ == left_line(*request, run_subtitle@) + " | "@ + right_line(
            *request,
            source_subtitle@,
        ),
{
    let title = direct_panel_title_for_request(request, model, base_title, title_suffix);
    let (left, right) = direct_subtitles(request, run_subtitle, source_subtitle);
    (title, left.concat(" | ").concat(right.as_str()))
}

/// The times of the parts of a request for a map.
#[derive(Debug, Clone, Copy, PartialEq, Eq, Structural)]
pub struct DirectRequestBuildTiming {
    pub field_prepare_ms: u128,
    pub contour_prepare_ms: u128,
    pub barb_prepare_ms: u128,
}

impl Default for DirectRequestBuildTiming {
    fn default() -> (timing: Self)
        ensures
            timing == (DirectRequestBuildTiming {
                field_prepare_ms: 0,
                contour_prepare_ms: 0,
                barb_prepare_ms: 0,
            }),
    {
        DirectRequestBuildTiming { field_prepare_ms: 0, contour_prepare_ms: 0, barb_prepare_ms: 0 }
    }
}

/// The sum of some times.
pub open spec fn total(times: Seq<u128>) -> int
    decreases times.len(),
{
    if times.len() == 0 {
        0
    } else {
        total(times.drop_last()) + times.last()
    }
}

proof fn lemma_total_grows(times: Seq<u128>, len: int)
    requires
        0 <= len <= times.len(),
    ensures
        0 <= total(times.take(len)) <= total(times),
    decreases times.len(),
{
    if len < times.len() {
        lemma_total_grows(times.drop_last(), len);
        assert(times.drop_last().take(len) =~= times.take(len));
    } else {
        assert(times.take(len) =~= times);
        lemma_total_is_positive(times);
    }
}

proof fn lemma_total_is_positive(times: Seq<u128>)
    ensures
        0 <= total(times),
    decreases times.len(),
{
    if times.len() > 0 {
        lemma_total_is_positive(times.drop_last());
    }
}

/// The times that the fields of the panels took.
pub open spec fn field_times(panels: Seq<DirectRequestBuildTiming>) -> Seq<u128> {
    Seq::new(panels.len(), |i: int| panels[i].field_prepare_ms)
}

/// The times that the contours of the panels took.
pub open spec fn contour_times(panels: Seq<DirectRequestBuildTiming>) -> Seq<u128> {
    Seq::new(panels.len(), |i: int| panels[i].contour_prepare_ms)
}

/// The times that the barbs of the panels took.
pub open spec fn barb_times(panels: Seq<DirectRequestBuildTiming>) -> Seq<u128> {
    Seq::new(panels.len(), |i: int| panels[i].barb_prepare_ms)
}

/// The times of a composite map: those of its panels together.
pub fn panel_build_timing(panels: &[DirectRequestBuildTiming]) -> (timing: DirectRequestBuildTiming)
    requires
        total(field_times(panels@)) <= u128::MAX,
        total(contour_times(panels@)) <= u128::MAX,
        total(barb_times(panels@)) <= u128::MAX,
    ensures
        timing.field_prepare_ms == total(field_times(panels@)),
        timing.contour_prepare_ms == total(contour_times(panels@)),
        timing.barb_prepare_ms == total(barb_times(panels@)),
{
    let ghost fields = field_times(panels@);
    let ghost contours = contour_times(panels@);
    let ghost barbs = barb_times(panels@);
    let mut field_prepare_ms: u128 = 0;
    let mut contour_prepare_ms: u128 = 0;
    let mut barb_prepare_ms: u128 = 0;
    let mut i: usize = 0;
    proof {
        assert(fields.take(0) =~= Seq::empty());
        assert(contours.take(0) =~= Seq::empty());
        assert(barbs.take(0) =~= Seq::empty());
    }
    while i < panels.len()
        invariant
            i <= panels@.len(),
            fields == field_times(panels@),
            contours == contour_times(panels@),
            barbs == barb_times(panels@),
            total(fields) <= u128::MAX,
            total(contours) <= u128::MAX,
            total(barbs) <= u128::MAX,
            field_prepare_ms == total(fields.take(i as int)),
            contour_prepare_ms == total(contours.take(i as int)),
            barb_prepare_ms == total(barbs.take(i as int)),
        decreases panels@.len() - i,
    {
        proof {
            lemma_total_grows(fields, i + 1);
            lemma_total_grows(contours, i + 1);
            lemma_total_grows(barbs, i + 1);
            assert(fields.take(i + 1).drop_last() =~= fields.take(i as int));
            assert(contours.take(i + 1).drop_last() =~= contours.take(i as int));
            assert(barbs.take(i + 1).drop_last() =~= barbs.take(i as int));
        }
        field_prepare_ms = field_prepare_ms + panels[i].field_prepare_ms;
        contour_prepare_ms = contour_prepare_ms + panels[i].contour_prepare_ms;
        barb_prepare_ms = barb_prepare_ms + panels[i].barb_prepare_ms;
        i = i + 1;
    }
    proof {
        assert(fields.take(i as int) =~= fields);
        assert(contours.take(i as int) =~= contours);
        assert(barbs.take(i as int) =~= barbs);
    }
    DirectRequestBuildTiming { field_prepare_ms, contour_prepare_ms, barb_prepare_ms }
}

/// The times of the parts of an image.
#[derive(Debug, Clone, Copy, PartialEq, Eq, Structural)]
pub struct ImageTiming {
    pub polygon_fill_ms: u128,
    pub projected_pixel_ms: u128,
    pub rasterize_ms: u128,
    pub raster_blit_ms: u128,
    pub linework_ms: u128,
    pub contour_ms: u128,
    pub barb_ms: u128,
    pub total_ms: u128,
}

impl ImageTiming {
    /// The time that the data took.
    pub open spec fn data_ms(self) -> int {
        self.polygon_fill_ms + self.projected_pixel_ms + self.rasterize_ms + self.raster_blit_ms
    }

    /// The time that the lines over the data took.
    pub open spec fn overlay_ms(self) -> int {
        self.linework_ms + self.contour_ms + self.barb_ms
    }

    /// The times of the image of a composite map: only its whole is known.
    pub fn of_panels(render_ms: u128) -> (timing: ImageTiming)
        ensures
            timing.total_ms == render_ms,
            timing.data_ms() == 0,
            timing.overlay_ms() == 0,
    {
        ImageTiming {
            polygon_fill_ms: 0,
            projected_pixel_ms: 0,
            rasterize_ms: 0,
            raster_blit_ms: 0,
            linework_ms: 0,
            contour_ms: 0,
            barb_ms: 0,
            total_ms: render_ms,
        }
    }
}

/// The measured times of a map.
#[derive(Debug, Clone, Copy, PartialEq, Eq, Structural)]
pub struct RenderMeasurement {
    pub project_ms: u128,
    pub build: DirectRequestBuildTiming,
    pub request_build_ms: u128,
    pub render_state_prep_ms: u128,
    pub png_encode_ms: u128,
    pub file_write_ms: u128,
    pub total_ms: u128,
    pub image: ImageTiming,
}

/// The reported times of a map.
#[derive(Debug, Clone, Copy, PartialEq, Eq, Structural)]
pub struct DirectRecipeTiming {
    pub project_ms: u128,
    pub field_prepare_ms: u128,
    pub contour_prepare_ms: u128,
    pub barb_prepare_ms: u128,
    pub render_to_image_ms: u128,
    pub data_layer_draw_ms: u128,
    pub overlay_draw_ms: u128,
    pub panel_compose_ms: u128,
    pub request_build_ms: u128,
    pub render_state_prep_ms: u128,
    pub png_encode_ms: u128,
    pub file_write_ms: u128,
    pub render_ms: u128,
    pub total_ms: u128,
    pub image_timing: ImageTiming,
}

/// The times that are reported of a map. Only a composite map is composed of
/// panels.
pub open spec fn reported(measured: RenderMeasurement, composed: bool) -> DirectRecipeTiming {
    DirectRecipeTiming {
        project_ms: measured.project_ms,
        field_prepare_ms: measured.build.field_prepare_ms,
        contour_prepare_ms: measured.build.contour_prepare_ms,
        barb_prepare_ms: measured.build.barb_prepare_ms,
        render_to_image_ms: measured.image.total_ms,
        data_layer_draw_ms: measured.image.data_ms() as u128,
        overlay_draw_ms: measured.image.overlay_ms() as u128,
        panel_compose_ms: if composed {
            measured.image.total_ms
        } else {
            0
        },
        request_build_ms: measured.request_build_ms,
        render_state_prep_ms: measured.render_state_prep_ms,
        png_encode_ms: measured.png_encode_ms,
        file_write_ms: measured.file_write_ms,
        render_ms: (if measured.total_ms >= measured.project_ms {
            measured.total_ms - measured.project_ms
        } else {
            0
        }) as u128,
        total_ms: measured.total_ms,
        image_timing: measured.image,
    }
}

/// The times that are reported of a map.
pub fn direct_recipe_timing(measured: RenderMeasurement, composed: bool) -> (timing:
    DirectRecipeTiming)
    requires
        measured.image.data_ms() <= u128::MAX,
        measured.image.overlay_ms() <= u128::MAX,
    ensures
        timing == reported(measured, composed),
{
    let image = measured.image;
    DirectRecipeTiming {
        project_ms: measured.project_ms,
        field_prepare_ms: measured.build.field_prepare_ms,
        contour_prepare_ms: measured.build.contour_prepare_ms,
        barb_prepare_ms: measured.build.barb_prepare_ms,
        render_to_image_ms: image.total_ms,
        data_layer_draw_ms: image.polygon_fill_ms + image.projected_pixel_ms + image.rasterize_ms
            + image.raster_blit_ms,
        overlay_draw_ms: image.linework_ms + image.contour_ms + image.barb_ms,
        panel_compose_ms: if composed {
            image.total_ms
        } else {
            0
        },
        request_build_ms: measured.request_build_ms,
        render_state_prep_ms: measured.render_state_prep_ms,
        png_encode_ms: measured.png_encode_ms,
        file_write_ms: measured.file_write_ms,
        render_ms: measured.total_ms.saturating_sub(measured.project_ms),
        total_ms: measured.total_ms,
        image_timing: image,
    }
}

/// A map that was drawn. `C` identifies the content of its file.
pub struct DirectRenderedRecipe<C> {
    pub recipe_slug: String,
    pub title: String,
    pub source_route: ProductSourceRoute,
    pub grib_product: String,
    pub fetched_grib_product: String,
    pub resolved_source: SourceId,
    pub resolved_url: String,
    pub file_name: String,
    pub content_identity: C,
    pub input_fetch_keys: Vec<String>,
    pub timing: DirectRecipeTiming,
}

/// Whether a report is that of a map that was drawn, given what is known of its fetch.
pub open spec fn reports_map<'a, B, O, C>(
    request: DirectBatchRequest<B, O>,
    model: Seq<char>,
    title_suffix: Seq<char>,
    cycle_utc: u8,
    item: PlannedDirectRecipe<'a>,
    fetch: DirectFetchRuntimeInfo,
    source_route: ProductSourceRoute,
    content_identity: C,
    measured: RenderMeasurement,
    rendered: DirectRenderedRecipe<C>,
) -> bool {
    &&& rendered.recipe_slug@ == item.recipe.slug@
    &&& rendered.title@ == titles::map_title(
        request,
        model,
        Some(item.plan.product@),
        item.recipe.title@,
        title_suffix,
    )
    &&& rendered.source_route == source_route
    &&& rendered.grib_product@ == item.plan.product@
    &&& rendered.fetched_grib_product@ == fetch.fetched_product@
    &&& rendered.resolved_source == fetch.resolved_source
    &&& rendered.resolved_url@ == fetch.resolved_url@
    &&& rendered.file_name@ == direct_file_name(request, model, cycle_utc, item.recipe.slug@)
    &&& rendered.content_identity == content_identity
    &&& text::texts(rendered.input_fetch_keys@) == seq![fetch.fetch_key@]
    &&& rendered.timing == reported(measured, composite::panels_of(item.recipe.slug@) is Some)
}

/// Reports a map that was drawn. What is known of its fetch is that of the family that
/// its product is fetched as.
pub fn direct_rendered_recipe<'a, B, O, C>(
    request: &DirectBatchRequest<B, O>,
    model: &str,
    title_suffix: &str,
    cycle_utc: u8,
    item: PlannedDirectRecipe<'a>,
    fetches: &[(String, DirectFetchRuntimeInfo)],
    source_route: ProductSourceRoute,
    content_identity: C,
    measured: RenderMeasurement,
) -> (rendered: Result<DirectRenderedRecipe<C>, RenderRefusal>)
    requires
        measured.image.data_ms() <= u128::MAX,
        measured.image.overlay_ms() <= u128::MAX,
    ensures
        ({
            let product = grouping::canonical(
                request.model,
                request.product_overrides@,
                item.plan.product@,
                item.plan.selectors@,
            );
            match (batch::fetch_of(batch::fetch_views(fetches@), product), rendered) {
                (Some(fetch), Ok(rendered)) => reports_map(
                    *request,
                    model@,
                    title_suffix@,
                    cycle_utc,
                    item,
                    fetch,
                    source_route,
                    content_identity,
                    measured,
                    rendered,
                ),
                (None, Err(refusal)) => refusal@ == (Refusal::UnknownFetch { product }),
                _ => false,
            }
        }),
{
    let product = canonical_fetch_product_for_selectors(
        request,
        item.plan.product.as_str(),
        item.plan.selectors.as_slice(),
    );
    let runtime_fetch = match find_fetch(fetches, product.as_str()) {
        Some(fetch) => fetch,
        None => {
            return Err(RenderRefusal::UnknownFetch { product });
        },
    };
    let composed = composite_panel_spec(item.recipe.slug.as_str()).is_some();
    let keys: Vec<String> = vec![runtime_fetch.fetch_key.clone()];
    proof {
        assert(text::texts(keys@) =~= seq![runtime_fetch.fetch_key@]);
    }
    Ok(
        DirectRenderedRecipe {
            recipe_slug: item.recipe.slug.clone(),
            title: direct_title_for_planned_product(
                request,
                model,
                item.plan.product.as_str(),
                item.recipe.title.as_str(),
                title_suffix,
            ),
            source_route,
            grib_product: item.plan.product.clone(),
            fetched_grib_product: runtime_fetch.fetched_product.clone(),
            resolved_source: runtime_fetch.resolved_source,
            resolved_url: runtime_fetch.resolved_url.clone(),
            file_name: direct_map_file_name(request, model, cycle_utc, item.recipe.slug.as_str()),
            content_identity,
            input_fetch_keys: keys,
            timing: direct_recipe_timing(measured, composed),
        },
    )
}

} // verus!
