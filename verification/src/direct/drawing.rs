//! Drawing one recipe of a direct batch: a map of one field, or a grid of panels.
use crate::direct::batch;
use crate::direct::batch::find_fetch;
use crate::direct::composite;
use crate::direct::composite::{composite_panel_spec, CompositePanelSpec};
use crate::direct::grouping;
use crate::direct::grouping::canonical_fetch_product_for_selectors;
use crate::direct::planning::PlannedDirectRecipe;
use crate::direct::projected;
use crate::direct::projected::{
    projected_map_cache_key, projected_source, visual_mode_cache_key, FieldShape, ProjectedMapKey,
    ProjectedSource,
};
use crate::direct::recipe;
use crate::direct::recipe::{find_field, FieldSelector, PlotRecipe};
use crate::direct::render;
use crate::direct::render::{
    composite_header, direct_subtitles, plan_panel, PanelView, Refusal, RenderRefusal,
};
use crate::direct::request;
use crate::direct::request::{
    build_render_request, BoundsBits, ContourLayer, DrawCaches, LayerRules, MapField, MapFrame,
    MapSettings, ProjectedMap, RenderRequest, WindSizes,
};
use crate::direct::styling;
use crate::direct::styling::{
    apply_source_raster_policy, mode_of_recipe, RenderField, UnitConvert,
};
use crate::direct::titles;
use crate::direct::titles::direct_title_for_planned_product;
use crate::direct::types::{DirectBatchRequest, OUTPUT_HEIGHT, OUTPUT_WIDTH};
use crate::gridded::runtime::has_size;
use crate::model::{ProductVisualMode, SourceId};
use crate::text;
use vstd::prelude::*;

verus! {

/// A projected map that is asked for: of which field, in which size and mode, and
/// where it is taken from.
#[derive(Debug, Clone, Copy, PartialEq, Eq, Structural)]
pub struct ProjectionAsk {
    pub field_at: usize,
    pub width: u32,
    pub height: u32,
    pub visual_mode: ProductVisualMode,
    pub source: ProjectedSource,
}

/// The projected maps at hand: the sizes that the context of the batch has, those
/// prepared ahead, and those of earlier recipes.
pub struct MapSources<'a> {
    pub shared: &'a Vec<(u32, u32)>,
    pub prepared: &'a [ProjectedMapKey],
    pub cached: &'a [ProjectedMapKey],
}

/// Whether a projected map of a field is what is asked for.
pub open spec fn asks_for<'a, T>(
    field: MapField<T>,
    field_at: int,
    size: (u32, u32),
    mode: ProductVisualMode,
    sources: MapSources<'a>,
    ask: ProjectionAsk,
) -> bool {
    &&& ask.field_at == field_at
    &&& (ask.width, ask.height) == size
    &&& ask.visual_mode == mode
    &&& projected::found_at(
        sources.shared@.contains(size),
        sources.prepared@,
        sources.cached@,
        projected::MapKey {
            width: size.0,
            height: size.1,
            mode_key: projected::mode_number(mode),
            nx: field.nx,
            ny: field.ny,
            projection: field.projection@,
        },
        ask.source,
    )
}

fn ask_for<'a, T>(
    field: &MapField<T>,
    field_at: usize,
    size: (u32, u32),
    mode: ProductVisualMode,
    sources: &MapSources<'a>,
) -> (ask: ProjectionAsk)
    ensures
        asks_for(*field, field_at as int, size, mode, *sources, ask),
{
    let shape = FieldShape { nx: field.nx, ny: field.ny, projection: field.projection.clone() };
    let key = projected_map_cache_key(size.0, size.1, visual_mode_cache_key(mode), &shape);
    let shared = has_size(sources.shared, size.0, size.1);
    ProjectionAsk {
        field_at,
        width: size.0,
        height: size.1,
        visual_mode: mode,
        source: projected_source(shared, sources.prepared, sources.cached, &key),
    }
}

/// Why a recipe is not drawn: something that it needs was not read, its grid was not
/// projected, the components of a wind differ in size, or its places were not labelled.
#[derive(Debug)]
pub enum RenderFailure {
    Refused { refusal: RenderRefusal },
    Projection { message: String },
    Winds { sizes: WindSizes },
    Labels { message: String },
}

/// What is drawn for a recipe.
pub enum DirectDrawing<T, Y, P> {
    Single { request: RenderRequest<T, Y, P> },
    Panels {
        layout: CompositePanelSpec,
        requests: Vec<RenderRequest<T, Y, P>>,
        title: String,
        subtitle: String,
    },
}

/// Whether a request is the one of a map of a field in a mode, whose frame `frame`
/// gives.
pub open spec fn map_composed<
    T,
    Y,
    P,
    C: Fn(UnitConvert, T) -> T,
    S: Fn(T, T) -> T,
    K: Fn(T) -> T,
    M: Fn(Vec<T>) -> T,
    L: Fn(FieldSelector, Vec<T>) -> Option<ContourLayer<T, Y>>,
    B: Fn(T, u16) -> bool,
    R: Fn(usize, u32) -> usize,
    H: Fn(usize) -> usize,
    G: Fn(T, T) -> bool,
    GR: Fn(T, T) -> bool,
    GC: Fn(T, T) -> bool,
    V: Fn(T, T, BoundsBits) -> bool,
    E: Fn(usize, u32, u32, ProductVisualMode) -> MapFrame,
>(
    recipe: PlotRecipe,
    selector: FieldSelector,
    field_at: int,
    mode: ProductVisualMode,
    extracted: Seq<(FieldSelector, MapField<T>)>,
    projected: ProjectedMap<P>,
    size: (u32, u32),
    settings: MapSettings<T>,
    frame: E,
    rules: LayerRules<C, S, K, M, L, B, R, H, G, GR, GC, V>,
    before: DrawCaches<T, Y>,
    after: DrawCaches<T, Y>,
    request: RenderRequest<T, Y, P>,
) -> bool {
    exists|shown: MapFrame|
        #[trigger] call_ensures(frame, (field_at as usize, size.0, size.1, mode), shown)
            && request::composed(
            recipe,
            selector,
            field_at,
            extracted,
            projected,
            shown,
            size,
            settings,
            rules,
            before,
            after,
            request,
        )
}

/// Whether a map cannot be filled for the sizes of its winds.
pub open spec fn winds_differ<T, C: Fn(UnitConvert, T) -> T, S: Fn(T, T) -> T>(
    recipe: PlotRecipe,
    selector: FieldSelector,
    field: MapField<T>,
    extracted: Seq<(FieldSelector, MapField<T>)>,
    apply: C,
    speed: S,
    failure: RenderFailure,
) -> bool {
    failure is Winds && request::fills(
        recipe,
        selector,
        field,
        extracted,
        apply,
        speed,
        Err::<RenderField<T>, WindSizes>(failure->sizes),
    )
}

fn compose_map<
    T: Copy,
    Y: Copy,
    P: Copy,
    C: Fn(UnitConvert, T) -> T,
    S: Fn(T, T) -> T,
    K: Fn(T) -> T,
    M: Fn(Vec<T>) -> T,
    L: Fn(FieldSelector, Vec<T>) -> Option<ContourLayer<T, Y>>,
    B: Fn(T, u16) -> bool,
    R: Fn(usize, u32) -> usize,
    H: Fn(usize) -> usize,
    G: Fn(T, T) -> bool,
    GR: Fn(T, T) -> bool,
    GC: Fn(T, T) -> bool,
    V: Fn(T, T, BoundsBits) -> bool,
    E: Fn(usize, u32, u32, ProductVisualMode) -> MapFrame,
>(
    recipe: &PlotRecipe,
    selector: FieldSelector,
    field_at: usize,
    mode: ProductVisualMode,
    extracted: &[(FieldSelector, MapField<T>)],
    projected: &ProjectedMap<P>,
    size: (u32, u32),
    settings: &MapSettings<T>,
    frame: &E,
    rules: &LayerRules<C, S, K, M, L, B, R, H, G, GR, GC, V>,
    caches: &mut DrawCaches<T, Y>,
) -> (request: Result<RenderRequest<T, Y, P>, RenderFailure>)
    requires
        request::callable::<T, Y, C, S, K, M, L, B, R, H, G, GR, GC, V>(*rules),
        forall|at: usize, width: u32, height: u32, m: ProductVisualMode| #[trigger]
            call_requires(*frame, (at, width, height, m)),
        field_at < extracted@.len(),
        request::all_sized(extracted@),
    ensures
        match request {
            Ok(request) => map_composed(
                *recipe,
                selector,
                field_at as int,
                mode,
                extracted@,
                *projected,
                size,
                *settings,
                *frame,
                *rules,
                *old(caches),
                *final(caches),
                request,
            ),
            Err(failure) => request::all_unchanged(*old(caches), *final(caches)) && winds_differ(
                *recipe,
                selector,
                extracted@[field_at as int].1,
                extracted@,
                rules.apply,
                rules.speed,
                failure,
            ),
        },
{
    let shown: MapFrame = frame(field_at, size.0, size.1, mode);
    match build_render_request(
        recipe,
        selector,
        field_at,
        extracted,
        projected,
        shown,
        size,
        settings,
        rules,
        caches,
    ) {
        Ok(request) => {
            proof {
                assert((field_at as int) as usize == field_at);
                assert(call_ensures(
                    *frame,
                    ((field_at as int) as usize, size.0, size.1, mode),
                    shown,
                ));
            }
            Ok(request)
        },
        Err(sizes) => Err(RenderFailure::Winds { sizes }),
    }
}

/// Whether the places of a map are labelled, where an overlay asks for it. `label`
/// takes the overlay, the place of the field and the request.
pub open spec fn labelled<
    T,
    Y,
    P,
    O,
    W: Fn(O, usize, RenderRequest<T, Y, P>) -> Result<RenderRequest<T, Y, P>, String>,
>(
    overlay: Option<O>,
    field_at: int,
    label: W,
    plain: RenderRequest<T, Y, P>,
    result: Result<RenderRequest<T, Y, P>, String>,
) -> bool {
    match overlay {
        Some(overlay) => call_ensures(label, (overlay, field_at as usize, plain), result),
        None => result == Ok::<RenderRequest<T, Y, P>, String>(plain),
    }
}

fn label_map<
    T,
    Y,
    P,
    O: Copy,
    W: Fn(O, usize, RenderRequest<T, Y, P>) -> Result<RenderRequest<T, Y, P>, String>,
>(overlay: Option<O>, field_at: usize, label: &W, plain: RenderRequest<T, Y, P>) -> (result: Result<
    RenderRequest<T, Y, P>,
    String,
>)
    requires
        forall|o: O, at: usize, r: RenderRequest<T, Y, P>| #[trigger]
            call_requires(*label, (o, at, r)),
    ensures
        labelled(overlay, field_at as int, *label, plain, result),
{
    match overlay {
        Some(overlay) => label(overlay, field_at, plain),
        None => Ok(plain),
    }
}

/// The request of a panel before its places are labelled: that of its map, in the mode
/// of panels, read as the source has it.
pub open spec fn as_panel<T, Y, P>(
    source: SourceId,
    plain: RenderRequest<T, Y, P>,
) -> RenderRequest<T, Y, P> {
    RenderRequest {
        visual_mode: ProductVisualMode::PanelMember,
        raster: styling::sampled_by(source, plain.raster),
        ..plain
    }
}

/// Whether a panel ends as drawn: the map of its component, in the mode of panels,
/// with its places labelled.
pub open spec fn panel_drawn<
    T,
    Y,
    P,
    C: Fn(UnitConvert, T) -> T,
    S: Fn(T, T) -> T,
    K: Fn(T) -> T,
    M: Fn(Vec<T>) -> T,
    L: Fn(FieldSelector, Vec<T>) -> Option<ContourLayer<T, Y>>,
    B: Fn(T, u16) -> bool,
    R: Fn(usize, u32) -> usize,
    H: Fn(usize) -> usize,
    G: Fn(T, T) -> bool,
    GR: Fn(T, T) -> bool,
    GC: Fn(T, T) -> bool,
    V: Fn(T, T, BoundsBits) -> bool,
    E: Fn(usize, u32, u32, ProductVisualMode) -> MapFrame,
    O,
    W: Fn(O, usize, RenderRequest<T, Y, P>) -> Result<RenderRequest<T, Y, P>, String>,
>(
    panel: PanelView,
    extracted: Seq<(FieldSelector, MapField<T>)>,
    projected: ProjectedMap<P>,
    size: (u32, u32),
    settings: MapSettings<T>,
    frame: E,
    source: SourceId,
    overlay: Option<O>,
    label: W,
    rules: LayerRules<C, S, K, M, L, B, R, H, G, GR, GC, V>,
    before: DrawCaches<T, Y>,
    after: DrawCaches<T, Y>,
    request: Result<RenderRequest<T, Y, P>, String>,
) -> bool {
    exists|plain: RenderRequest<T, Y, P>|
        #[trigger] map_composed(
            panel.recipe,
            panel.selector,
            panel.field_at,
            ProductVisualMode::PanelMember,
            extracted,
            projected,
            size,
            settings,
            frame,
            rules,
            before,
            after,
            plain,
        ) && labelled(overlay, panel.field_at, label, as_panel(source, plain), request)
}

/// Whether a request is that of the panel of a component, which can be drawn.
pub open spec fn component_drawn<
    T,
    Y,
    P,
    C: Fn(UnitConvert, T) -> T,
    S: Fn(T, T) -> T,
    K: Fn(T) -> T,
    M: Fn(Vec<T>) -> T,
    L: Fn(FieldSelector, Vec<T>) -> Option<ContourLayer<T, Y>>,
    B: Fn(T, u16) -> bool,
    R: Fn(usize, u32) -> usize,
    H: Fn(usize) -> usize,
    G: Fn(T, T) -> bool,
    GR: Fn(T, T) -> bool,
    GC: Fn(T, T) -> bool,
    V: Fn(T, T, BoundsBits) -> bool,
    E: Fn(usize, u32, u32, ProductVisualMode) -> MapFrame,
    O,
    W: Fn(O, usize, RenderRequest<T, Y, P>) -> Result<RenderRequest<T, Y, P>, String>,
>(
    slug: Seq<char>,
    components: Seq<PlotRecipe>,
    extracted: Seq<(FieldSelector, MapField<T>)>,
    projected: ProjectedMap<P>,
    size: (u32, u32),
    settings: MapSettings<T>,
    frame: E,
    source: SourceId,
    overlay: Option<O>,
    label: W,
    rules: LayerRules<C, S, K, M, L, B, R, H, G, GR, GC, V>,
    before: DrawCaches<T, Y>,
    after: DrawCaches<T, Y>,
    request: RenderRequest<T, Y, P>,
) -> bool {
    match render::component_panel(slug, components, extracted) {
        Ok(panel) => panel_drawn(
            panel,
            extracted,
            projected,
            size,
            settings,
            frame,
            source,
            overlay,
            label,
            rules,
            before,
            after,
            Ok::<RenderRequest<T, Y, P>, String>(request),
        ),
        Err(_) => false,
    }
}

/// Whether requests are those of the first panels of a list. Each is drawn with what
/// the caches held after the one before.
pub open spec fn panels_drawn<
    T,
    Y,
    P,
    C: Fn(UnitConvert, T) -> T,
    S: Fn(T, T) -> T,
    K: Fn(T) -> T,
    M: Fn(Vec<T>) -> T,
    L: Fn(FieldSelector, Vec<T>) -> Option<ContourLayer<T, Y>>,
    B: Fn(T, u16) -> bool,
    R: Fn(usize, u32) -> usize,
    H: Fn(usize) -> usize,
    G: Fn(T, T) -> bool,
    GR: Fn(T, T) -> bool,
    GC: Fn(T, T) -> bool,
    V: Fn(T, T, BoundsBits) -> bool,
    E: Fn(usize, u32, u32, ProductVisualMode) -> MapFrame,
    O,
    W: Fn(O, usize, RenderRequest<T, Y, P>) -> Result<RenderRequest<T, Y, P>, String>,
>(
    slugs: Seq<Seq<char>>,
    components: Seq<PlotRecipe>,
    extracted: Seq<(FieldSelector, MapField<T>)>,
    projected: ProjectedMap<P>,
    size: (u32, u32),
    settings: MapSettings<T>,
    frame: E,
    source: SourceId,
    overlay: Option<O>,
    label: W,
    rules: LayerRules<C, S, K, M, L, B, R, H, G, GR, GC, V>,
    states: Seq<DrawCaches<T, Y>>,
    requests: Seq<RenderRequest<T, Y, P>>,
) -> bool {
    &&& states.len() == requests.len() + 1
    &&& requests.len() <= slugs.len()
    &&& forall|i: int|
        0 <= i < requests.len() ==> component_drawn(
            slugs[i],
            components,
            extracted,
            projected,
            size,
            settings,
            frame,
            source,
            overlay,
            label,
            rules,
            states[i],
            states[i + 1],
            #[trigger] requests[i],
        )
}

/// Whether a layout is a grid of panels scaled to the size of the output.
pub open spec fn scaled_layout<X: Fn(u32, u32, u32) -> u32>(
    panels: composite::Panels,
    output: (u32, u32),
    scaled: X,
    layout: CompositePanelSpec,
) -> bool {
    &&& layout.rows == panels.rows
    &&& layout.columns == panels.columns
    &&& layout@.component_slugs == panels.component_slugs
    &&& call_ensures(scaled, (panels.panel_width, output.0, OUTPUT_WIDTH), layout.panel_width)
    &&& call_ensures(scaled, (panels.panel_height, output.1, OUTPUT_HEIGHT), layout.panel_height)
    &&& call_ensures(scaled, (panels.top_padding, output.1, OUTPUT_HEIGHT), layout.top_padding)
}

/// Whether panels end as drawn on a projected map: all of them, in order, or else
/// with the reason why the first that was not drawn was not.
pub open spec fn panels_end<
    T,
    Y,
    P,
    C: Fn(UnitConvert, T) -> T,
    S: Fn(T, T) -> T,
    K: Fn(T) -> T,
    M: Fn(Vec<T>) -> T,
    L: Fn(FieldSelector, Vec<T>) -> Option<ContourLayer<T, Y>>,
    B: Fn(T, u16) -> bool,
    R: Fn(usize, u32) -> usize,
    H: Fn(usize) -> usize,
    G: Fn(T, T) -> bool,
    GR: Fn(T, T) -> bool,
    GC: Fn(T, T) -> bool,
    V: Fn(T, T, BoundsBits) -> bool,
    E: Fn(usize, u32, u32, ProductVisualMode) -> MapFrame,
    O,
    W: Fn(O, usize, RenderRequest<T, Y, P>) -> Result<RenderRequest<T, Y, P>, String>,
>(
    slugs: Seq<Seq<char>>,
    components: Seq<PlotRecipe>,
    extracted: Seq<(FieldSelector, MapField<T>)>,
    projected: ProjectedMap<P>,
    size: (u32, u32),
    settings: MapSettings<T>,
    frame: E,
    source: SourceId,
    overlay: Option<O>,
    label: W,
    rules: LayerRules<C, S, K, M, L, B, R, H, G, GR, GC, V>,
    before: DrawCaches<T, Y>,
    after: DrawCaches<T, Y>,
    drawn: Result<Seq<RenderRequest<T, Y, P>>, RenderFailure>,
) -> bool {
    exists|states: Seq<DrawCaches<T, Y>>, requests: Seq<RenderRequest<T, Y, P>>|
        #[trigger] panels_drawn(
            slugs,
            components,
            extracted,
            projected,
            size,
            settings,
            frame,
            source,
            overlay,
            label,
            rules,
            states,
            requests,
        ) && states[0] == before && match drawn {
            Ok(list) => requests == list && list.len() == slugs.len() && request::all_unchanged(
                states.last(),
                after,
            ),
            Err(failure) => requests.len() < slugs.len() && match render::component_panel(
                slugs[requests.len() as int],
                components,
                extracted,
            ) {
                Err(refusal) => failure is Refused && failure->refusal@ == refusal
                    && request::all_unchanged(states.last(), after),
                Ok(panel) => {
                    ||| request::all_unchanged(states.last(), after) && winds_differ(
                        panel.recipe,
                        panel.selector,
                        extracted[panel.field_at].1,
                        extracted,
                        rules.apply,
                        rules.speed,
                        failure,
                    )
                    ||| failure is Labels && panel_drawn(
                        panel,
                        extracted,
                        projected,
                        size,
                        settings,
                        frame,
                        source,
                        overlay,
                        label,
                        rules,
                        states.last(),
                        after,
                        Err::<RenderRequest<T, Y, P>, String>(failure->Labels_message),
                    )
                },
            },
        }
}

/// What requests and a failure are to the contracts.
pub open spec fn request_list<T, Y, P>(
    drawn: Result<Vec<RenderRequest<T, Y, P>>, RenderFailure>,
) -> Result<Seq<RenderRequest<T, Y, P>>, RenderFailure> {
    match drawn {
        Ok(list) => Ok(list@),
        Err(failure) => Err(failure),
    }
}

fn draw_panels<
    T: Copy,
    Y: Copy,
    P: Copy,
    C: Fn(UnitConvert, T) -> T,
    S: Fn(T, T) -> T,
    K: Fn(T) -> T,
    M: Fn(Vec<T>) -> T,
    L: Fn(FieldSelector, Vec<T>) -> Option<ContourLayer<T, Y>>,
    B: Fn(T, u16) -> bool,
    R: Fn(usize, u32) -> usize,
    H: Fn(usize) -> usize,
    G: Fn(T, T) -> bool,
    GR: Fn(T, T) -> bool,
    GC: Fn(T, T) -> bool,
    V: Fn(T, T, BoundsBits) -> bool,
    E: Fn(usize, u32, u32, ProductVisualMode) -> MapFrame,
    O: Copy,
    W: Fn(O, usize, RenderRequest<T, Y, P>) -> Result<RenderRequest<T, Y, P>, String>,
>(
    slugs: &[&'static str],
    components: &[PlotRecipe],
    extracted: &[(FieldSelector, MapField<T>)],
    projected: &ProjectedMap<P>,
    size: (u32, u32),
    settings: &MapSettings<T>,
    frame: &E,
    source: SourceId,
    overlay: Option<O>,
    label: &W,
    rules: &LayerRules<C, S, K, M, L, B, R, H, G, GR, GC, V>,
    caches: &mut DrawCaches<T, Y>,
) -> (drawn: Result<Vec<RenderRequest<T, Y, P>>, RenderFailure>)
    requires
        request::callable::<T, Y, C, S, K, M, L, B, R, H, G, GR, GC, V>(*rules),
        forall|at: usize, width: u32, height: u32, m: ProductVisualMode| #[trigger]
            call_requires(*frame, (at, width, height, m)),
        forall|o: O, at: usize, r: RenderRequest<T, Y, P>| #[trigger]
            call_requires(*label, (o, at, r)),
        request::all_sized(extracted@),
    ensures
        panels_end(
            text::str_texts(slugs@),
            components@,
            extracted@,
            *projected,
            size,
            *settings,
            *frame,
            source,
            overlay,
            *label,
            *rules,
            *old(caches),
            *final(caches),
            request_list(drawn),
        ),
{
    let ghost names = text::str_texts(slugs@);
    let ghost before = *caches;
    let ghost mut states: Seq<DrawCaches<T, Y>> = seq![*caches];
    let mut requests: Vec<RenderRequest<T, Y, P>> = Vec::new();
    let mut i: usize = 0;
    while i < slugs.len()
        invariant
            i <= slugs@.len(),
            names == text::str_texts(slugs@),
            requests@.len() == i,
            states.len() == i + 1,
            before == *old(caches),
            states[0] == before,
            states.last() == *caches,
            request::callable::<T, Y, C, S, K, M, L, B, R, H, G, GR, GC, V>(*rules),
            forall|at: usize, width: u32, height: u32, m: ProductVisualMode| #[trigger]
                call_requires(*frame, (at, width, height, m)),
            forall|o: O, at: usize, r: RenderRequest<T, Y, P>| #[trigger]
                call_requires(*label, (o, at, r)),
            request::all_sized(extracted@),
            panels_drawn(
                names,
                components@,
                extracted@,
                *projected,
                size,
                *settings,
                *frame,
                source,
                overlay,
                *label,
                *rules,
                states,
                requests@,
            ),
        decreases slugs@.len() - i,
    {
        let panel = match plan_panel(slugs[i], components, extracted) {
            Ok(panel) => panel,
            Err(refusal) => {
                proof {
                    assert(names[i as int] == slugs@[i as int]@);
                }
                return Err(RenderFailure::Refused { refusal });
            },
        };
        let ghost shown = panel@;
        proof {
            assert(names[i as int] == slugs@[i as int]@);
            recipe::lemma_position(extracted@, panel.selector);
        }
        match compose_map(
            panel.recipe,
            panel.selector,
            panel.field_at,
            ProductVisualMode::PanelMember,
            extracted,
            projected,
            size,
            settings,
            frame,
            rules,
            caches,
        ) {
            Ok(plain) => {
                let ghost base = plain;
                let raster = apply_source_raster_policy(source, plain.raster);
                let panelled = RenderRequest {
                    visual_mode: ProductVisualMode::PanelMember,
                    raster,
                    ..plain
                };
                let labelled_map = label_map(overlay, panel.field_at, label, panelled);
                proof {
                    assert(panelled == as_panel(source, base));
                    assert(map_composed(
                        shown.recipe,
                        shown.selector,
                        shown.field_at,
                        ProductVisualMode::PanelMember,
                        extracted@,
                        *projected,
                        size,
                        *settings,
                        *frame,
                        *rules,
                        states[i as int],
                        *caches,
                        base,
                    ));
                    assert(panel_drawn(
                        shown,
                        extracted@,
                        *projected,
                        size,
                        *settings,
                        *frame,
                        source,
                        overlay,
                        *label,
                        *rules,
                        states[i as int],
                        *caches,
                        labelled_map,
                    ));
                }
                let request = match labelled_map {
                    Ok(request) => request,
                    Err(message) => {
                        return Err(RenderFailure::Labels { message });
                    },
                };
                let ghost held = requests@;
                let ghost earlier = states;
                requests.push(request);
                proof {
                    states = states.push(*caches);
                    assert(component_drawn(
                        names[i as int],
                        components@,
                        extracted@,
                        *projected,
                        size,
                        *settings,
                        *frame,
                        source,
                        overlay,
                        *label,
                        *rules,
                        states[i as int],
                        states[i + 1],
                        request,
                    ));
                    assert forall|k: int| 0 <= k < requests@.len() implies component_drawn(
                        names[k],
                        components@,
                        extracted@,
                        *projected,
                        size,
                        *settings,
                        *frame,
                        source,
                        overlay,
                        *label,
                        *rules,
                        states[k],
                        states[k + 1],
                        #[trigger] requests@[k],
                    ) by {
                        if k < i {
                            assert(requests@[k] == held[k]);
                            assert(states[k] == earlier[k]);
                            assert(states[k + 1] == earlier[k + 1]);
                        }
                    }
                }
            },
            Err(failure) => {
                return Err(failure);
            },
        }
        i = i + 1;
    }
    Ok(requests)
}

/// The run of a batch: the name of its model, its source, and the lines of its run and
/// source.
pub struct MapTexts<'a> {
    pub model: &'a str,
    pub source: SourceId,
    pub run_subtitle: &'a str,
    pub source_subtitle: &'a str,
}

/// The requests of the panels that were drawn, or why they were not.
pub open spec fn panel_requests<T, Y, P>(
    drawn: Result<DirectDrawing<T, Y, P>, RenderFailure>,
) -> Result<Seq<RenderRequest<T, Y, P>>, RenderFailure> {
    match drawn {
        Ok(drawing) => Ok(drawing->requests@),
        Err(failure) => Err(failure),
    }
}

/// Whether nothing was drawn for a refusal.
pub open spec fn refused<T, Y, P>(
    refusal: Refusal,
    before: DrawCaches<T, Y>,
    after: DrawCaches<T, Y>,
    drawn: Result<DirectDrawing<T, Y, P>, RenderFailure>,
) -> bool {
    &&& drawn is Err
    &&& drawn->Err_0 is Refused
    &&& drawn->Err_0->refusal@ == refusal
    &&& request::all_unchanged(before, after)
}

/// Whether panels are drawn once their grid has a layout and an answer came for its
/// projection. The header names the map, the run and the source.
pub open spec fn panels_answered<
    'a,
    T,
    Y,
    P,
    C: Fn(UnitConvert, T) -> T,
    S: Fn(T, T) -> T,
    K: Fn(T) -> T,
    M: Fn(Vec<T>) -> T,
    L: Fn(FieldSelector, Vec<T>) -> Option<ContourLayer<T, Y>>,
    B: Fn(T, u16) -> bool,
    R: Fn(usize, u32) -> usize,
    H: Fn(usize) -> usize,
    G: Fn(T, T) -> bool,
    GR: Fn(T, T) -> bool,
    GC: Fn(T, T) -> bool,
    V: Fn(T, T, BoundsBits) -> bool,
    E: Fn(usize, u32, u32, ProductVisualMode) -> MapFrame,
    O,
    W: Fn(O, usize, RenderRequest<T, Y, P>) -> Result<RenderRequest<T, Y, P>, String>,
    Q,
>(
    request: DirectBatchRequest<Q, O>,
    texts: MapTexts<'a>,
    title: Seq<char>,
    layout: CompositePanelSpec,
    answer: Result<ProjectedMap<P>, String>,
    components: Seq<PlotRecipe>,
    extracted: Seq<(FieldSelector, MapField<T>)>,
    settings: MapSettings<T>,
    frame: E,
    label: W,
    rules: LayerRules<C, S, K, M, L, B, R, H, G, GR, GC, V>,
    before: DrawCaches<T, Y>,
    after: DrawCaches<T, Y>,
    drawn: Result<DirectDrawing<T, Y, P>, RenderFailure>,
) -> bool {
    match answer {
        Err(message) => drawn == Err::<DirectDrawing<T, Y, P>, RenderFailure>(
            RenderFailure::Projection { message },
        ) && request::all_unchanged(before, after),
        Ok(projected) => {
            &&& panels_end(
                layout@.component_slugs,
                components,
                extracted,
                projected,
                (layout.panel_width, layout.panel_height),
                settings,
                frame,
                texts.source,
                request.place_label_overlay,
                label,
                rules,
                before,
                after,
                panel_requests(drawn),
            )
            &&& match drawn {
                Ok(drawing) => {
                    &&& drawing is Panels
                    &&& drawing->layout == layout
                    &&& drawing->title@ == titles::map_title(
                        request,
                        texts.model@,
                        None,
                        title,
                        settings.title_suffix@,
                    )
                    &&& drawing->subtitle@ == render::left_line(request, texts.run_subtitle@)
                        + " | "@ + render::right_line(request, texts.source_subtitle@)
                },
                Err(_) => true,
            }
        },
    }
}

/// Whether a composite map ends as drawn. The first component is looked for before
/// anything is projected, and all panels share the projection of its field.
pub open spec fn composite_drawn<
    'a,
    T,
    Y,
    P,
    C: Fn(UnitConvert, T) -> T,
    S: Fn(T, T) -> T,
    K: Fn(T) -> T,
    M: Fn(Vec<T>) -> T,
    L: Fn(FieldSelector, Vec<T>) -> Option<ContourLayer<T, Y>>,
    B: Fn(T, u16) -> bool,
    R: Fn(usize, u32) -> usize,
    H: Fn(usize) -> usize,
    G: Fn(T, T) -> bool,
    GR: Fn(T, T) -> bool,
    GC: Fn(T, T) -> bool,
    V: Fn(T, T, BoundsBits) -> bool,
    E: Fn(usize, u32, u32, ProductVisualMode) -> MapFrame,
    O,
    W: Fn(O, usize, RenderRequest<T, Y, P>) -> Result<RenderRequest<T, Y, P>, String>,
    J: Fn(ProjectionAsk) -> Result<ProjectedMap<P>, String>,
    X: Fn(u32, u32, u32) -> u32,
    Q,
>(
    request: DirectBatchRequest<Q, O>,
    texts: MapTexts<'a>,
    title: Seq<char>,
    panels: composite::Panels,
    components: Seq<PlotRecipe>,
    extracted: Seq<(FieldSelector, MapField<T>)>,
    sources: MapSources<'a>,
    settings: MapSettings<T>,
    scaled: X,
    project: J,
    frame: E,
    label: W,
    rules: LayerRules<C, S, K, M, L, B, R, H, G, GR, GC, V>,
    before: DrawCaches<T, Y>,
    after: DrawCaches<T, Y>,
    drawn: Result<DirectDrawing<T, Y, P>, RenderFailure>,
) -> bool {
    match render::component_panel(panels.component_slugs[0], components, extracted) {
        Err(refusal) => refused(refusal, before, after, drawn),
        Ok(first) => exists|
            layout: CompositePanelSpec,
            ask: ProjectionAsk,
            answer: Result<ProjectedMap<P>, String>,
        |
            #[trigger] call_ensures(project, (ask,), answer) && #[trigger] scaled_layout(
                panels,
                (request.output_width, request.output_height),
                scaled,
                layout,
            ) && asks_for(
                extracted[first.field_at].1,
                first.field_at,
                (layout.panel_width, layout.panel_height),
                ProductVisualMode::PanelMember,
                sources,
                ask,
            ) && panels_answered(
                request,
                texts,
                title,
                layout,
                answer,
                components,
                extracted,
                settings,
                frame,
                label,
                rules,
                before,
                after,
                drawn,
            ),
    }
}

/// Draws the panels of a composite map, in order.
pub fn render_direct_composite_panel<
    'a,
    T: Copy,
    Y: Copy,
    P: Copy,
    C: Fn(UnitConvert, T) -> T,
    S: Fn(T, T) -> T,
    K: Fn(T) -> T,
    M: Fn(Vec<T>) -> T,
    L: Fn(FieldSelector, Vec<T>) -> Option<ContourLayer<T, Y>>,
    B: Fn(T, u16) -> bool,
    R: Fn(usize, u32) -> usize,
    H: Fn(usize) -> usize,
    G: Fn(T, T) -> bool,
    GR: Fn(T, T) -> bool,
    GC: Fn(T, T) -> bool,
    V: Fn(T, T, BoundsBits) -> bool,
    E: Fn(usize, u32, u32, ProductVisualMode) -> MapFrame,
    O: Copy,
    W: Fn(O, usize, RenderRequest<T, Y, P>) -> Result<RenderRequest<T, Y, P>, String>,
    J: Fn(ProjectionAsk) -> Result<ProjectedMap<P>, String>,
    X: Fn(u32, u32, u32) -> u32,
    Q,
>(
    request: &DirectBatchRequest<Q, O>,
    texts: &MapTexts<'a>,
    title: &str,
    spec: CompositePanelSpec,
    components: &[PlotRecipe],
    extracted: &[(FieldSelector, MapField<T>)],
    sources: &MapSources<'a>,
    settings: &MapSettings<T>,
    scaled: &X,
    project: &J,
    frame: &E,
    label: &W,
    rules: &LayerRules<C, S, K, M, L, B, R, H, G, GR, GC, V>,
    caches: &mut DrawCaches<T, Y>,
) -> (drawn: Result<DirectDrawing<T, Y, P>, RenderFailure>)
    requires
        spec.component_slugs@.len() > 0,
        request::callable::<T, Y, C, S, K, M, L, B, R, H, G, GR, GC, V>(*rules),
        forall|at: usize, width: u32, height: u32, m: ProductVisualMode| #[trigger]
            call_requires(*frame, (at, width, height, m)),
        forall|o: O, at: usize, r: RenderRequest<T, Y, P>| #[trigger]
            call_requires(*label, (o, at, r)),
        forall|ask: ProjectionAsk| #[trigger] call_requires(*project, (ask,)),
        forall|length: u32, output: u32, usual: u32| #[trigger]
            call_requires(*scaled, (length, output, usual)),
        request::all_sized(extracted@),
    ensures
        composite_drawn(
            *request,
            *texts,
            title@,
            spec@,
            components@,
            extracted@,
            *sources,
            *settings,
            *scaled,
            *project,
            *frame,
            *label,
            *rules,
            *old(caches),
            *final(caches),
            drawn,
        ),
{
    let ghost panels = spec@;
    let ghost before = *caches;
    let first = match plan_panel(spec.component_slugs[0], components, extracted) {
        Ok(first) => first,
        Err(refusal) => {
            proof {
                assert(panels.component_slugs[0] == spec.component_slugs@[0]@);
            }
            return Err(RenderFailure::Refused { refusal });
        },
    };
    proof {
        assert(panels.component_slugs[0] == spec.component_slugs@[0]@);
        recipe::lemma_position(extracted@, first.selector);
    }
    let layout = spec.scaled_for_output(request.output_width, request.output_height, scaled);
    proof {
        assert(scaled_layout(
            panels,
            (request.output_width, request.output_height),
            *scaled,
            layout,
        ));
    }
    let size = (layout.panel_width, layout.panel_height);
    let ask = ask_for(
        &extracted[first.field_at].1,
        first.field_at,
        size,
        ProductVisualMode::PanelMember,
        sources,
    );
    let answer = project(ask);
    let ghost told = answer;
    let projected = match answer {
        Ok(projected) => projected,
        Err(message) => {
            let drawn = Err(RenderFailure::Projection { message });
            proof {
                assert(panels_answered(
                    *request,
                    *texts,
                    title@,
                    layout,
                    told,
                    components@,
                    extracted@,
                    *settings,
                    *frame,
                    *label,
                    *rules,
                    before,
                    *caches,
                    drawn,
                ));
            }
            return drawn;
        },
    };
    let listed = draw_panels(
        layout.component_slugs.as_slice(),
        components,
        extracted,
        &projected,
        size,
        settings,
        frame,
        texts.source,
        request.place_label_overlay,
        label,
        rules,
        caches,
    );
    let ghost laid = layout;
    let drawn = match listed {
        Ok(requests) => {
            let (title, subtitle) = composite_header(
                request,
                texts.model,
                title,
                settings.title_suffix.as_str(),
                texts.run_subtitle,
                texts.source_subtitle,
            );
            Ok(DirectDrawing::Panels { layout, requests, title, subtitle })
        },
        Err(failure) => Err(failure),
    };
    proof {
        assert(panels_answered(
            *request,
            *texts,
            title@,
            laid,
            told,
            components@,
            extracted@,
            *settings,
            *frame,
            *label,
            *rules,
            before,
            *caches,
            drawn,
        ));
    }
    drawn
}

/// Whether a request is another with its title and the lines under it, read as the
/// source has it.
pub open spec fn titled<T, Y, P>(
    source: SourceId,
    plain: RenderRequest<T, Y, P>,
    title: Seq<char>,
    left: Seq<char>,
    right: Seq<char>,
    request: RenderRequest<T, Y, P>,
) -> bool {
    &&& request.title@ == title
    &&& match request.subtitles {
        Some((a, b)) => a@ == left && b@ == right,
        None => false,
    }
    &&& request == (RenderRequest {
        title: request.title,
        subtitles: request.subtitles,
        raster: styling::sampled_by(source, plain.raster),
        ..plain
    })
}

/// Whether the map of one field ends as finished: with its title, the lines under it
/// and its places labelled.
pub open spec fn map_finished<
    'a,
    T,
    Y,
    P,
    C: Fn(UnitConvert, T) -> T,
    S: Fn(T, T) -> T,
    K: Fn(T) -> T,
    M: Fn(Vec<T>) -> T,
    L: Fn(FieldSelector, Vec<T>) -> Option<ContourLayer<T, Y>>,
    B: Fn(T, u16) -> bool,
    R: Fn(usize, u32) -> usize,
    H: Fn(usize) -> usize,
    G: Fn(T, T) -> bool,
    GR: Fn(T, T) -> bool,
    GC: Fn(T, T) -> bool,
    V: Fn(T, T, BoundsBits) -> bool,
    E: Fn(usize, u32, u32, ProductVisualMode) -> MapFrame,
    O,
    W: Fn(O, usize, RenderRequest<T, Y, P>) -> Result<RenderRequest<T, Y, P>, String>,
    Q,
>(
    request: DirectBatchRequest<Q, O>,
    texts: MapTexts<'a>,
    item: PlannedDirectRecipe<'a>,
    selector: FieldSelector,
    field_at: int,
    projected: ProjectedMap<P>,
    extracted: Seq<(FieldSelector, MapField<T>)>,
    settings: MapSettings<T>,
    frame: E,
    label: W,
    rules: LayerRules<C, S, K, M, L, B, R, H, G, GR, GC, V>,
    before: DrawCaches<T, Y>,
    after: DrawCaches<T, Y>,
    result: Result<RenderRequest<T, Y, P>, String>,
) -> bool {
    exists|plain: RenderRequest<T, Y, P>, shown: RenderRequest<T, Y, P>|
        #[trigger] titled(
            texts.source,
            plain,
            titles::map_title(
                request,
                texts.model@,
                Some(item.plan.product@),
                item.recipe.title@,
                settings.title_suffix@,
            ),
            render::left_line(request, texts.run_subtitle@),
            render::right_line(request, texts.source_subtitle@),
            shown,
        ) && map_composed(
            *item.recipe,
            selector,
            field_at,
            styling::recipe_mode(*item.recipe, selector),
            extracted,
            projected,
            (request.output_width, request.output_height),
            settings,
            frame,
            rules,
            before,
            after,
            plain,
        ) && labelled(request.place_label_overlay, field_at, label, shown, result)
}

/// Whether the map of one field is drawn once an answer came for its projection.
pub open spec fn map_answered<
    'a,
    T,
    Y,
    P,
    C: Fn(UnitConvert, T) -> T,
    S: Fn(T, T) -> T,
    K: Fn(T) -> T,
    M: Fn(Vec<T>) -> T,
    L: Fn(FieldSelector, Vec<T>) -> Option<ContourLayer<T, Y>>,
    B: Fn(T, u16) -> bool,
    R: Fn(usize, u32) -> usize,
    H: Fn(usize) -> usize,
    G: Fn(T, T) -> bool,
    GR: Fn(T, T) -> bool,
    GC: Fn(T, T) -> bool,
    V: Fn(T, T, BoundsBits) -> bool,
    E: Fn(usize, u32, u32, ProductVisualMode) -> MapFrame,
    O,
    W: Fn(O, usize, RenderRequest<T, Y, P>) -> Result<RenderRequest<T, Y, P>, String>,
    Q,
>(
    request: DirectBatchRequest<Q, O>,
    texts: MapTexts<'a>,
    item: PlannedDirectRecipe<'a>,
    selector: FieldSelector,
    field_at: int,
    answer: Result<ProjectedMap<P>, String>,
    extracted: Seq<(FieldSelector, MapField<T>)>,
    settings: MapSettings<T>,
    frame: E,
    label: W,
    rules: LayerRules<C, S, K, M, L, B, R, H, G, GR, GC, V>,
    before: DrawCaches<T, Y>,
    after: DrawCaches<T, Y>,
    drawn: Result<DirectDrawing<T, Y, P>, RenderFailure>,
) -> bool {
    match answer {
        Err(message) => drawn == Err::<DirectDrawing<T, Y, P>, RenderFailure>(
            RenderFailure::Projection { message },
        ) && request::all_unchanged(before, after),
        Ok(projected) => match drawn {
            Ok(drawing) => drawing is Single && map_finished(
                request,
                texts,
                item,
                selector,
                field_at,
                projected,
                extracted,
                settings,
                frame,
                label,
                rules,
                before,
                after,
                Ok::<RenderRequest<T, Y, P>, String>(drawing->request),
            ),
            Err(failure) => {
                ||| request::all_unchanged(before, after) && winds_differ(
                    *item.recipe,
                    selector,
                    extracted[field_at].1,
                    extracted,
                    rules.apply,
                    rules.speed,
                    failure,
                )
                ||| failure is Labels && map_finished(
                    request,
                    texts,
                    item,
                    selector,
                    field_at,
                    projected,
                    extracted,
                    settings,
                    frame,
                    label,
                    rules,
                    before,
                    after,
                    Err::<RenderRequest<T, Y, P>, String>(failure->Labels_message),
                )
            },
        },
    }
}

/// Whether the map of one field ends as drawn.
pub open spec fn map_drawn<
    'a,
    T,
    Y,
    P,
    C: Fn(UnitConvert, T) -> T,
    S: Fn(T, T) -> T,
    K: Fn(T) -> T,
    M: Fn(Vec<T>) -> T,
    L: Fn(FieldSelector, Vec<T>) -> Option<ContourLayer<T, Y>>,
    B: Fn(T, u16) -> bool,
    R: Fn(usize, u32) -> usize,
    H: Fn(usize) -> usize,
    G: Fn(T, T) -> bool,
    GR: Fn(T, T) -> bool,
    GC: Fn(T, T) -> bool,
    V: Fn(T, T, BoundsBits) -> bool,
    E: Fn(usize, u32, u32, ProductVisualMode) -> MapFrame,
    O,
    W: Fn(O, usize, RenderRequest<T, Y, P>) -> Result<RenderRequest<T, Y, P>, String>,
    J: Fn(ProjectionAsk) -> Result<ProjectedMap<P>, String>,
    Q,
>(
    request: DirectBatchRequest<Q, O>,
    texts: MapTexts<'a>,
    item: PlannedDirectRecipe<'a>,
    selector: FieldSelector,
    field_at: int,
    extracted: Seq<(FieldSelector, MapField<T>)>,
    sources: MapSources<'a>,
    settings: MapSettings<T>,
    project: J,
    frame: E,
    label: W,
    rules: LayerRules<C, S, K, M, L, B, R, H, G, GR, GC, V>,
    before: DrawCaches<T, Y>,
    after: DrawCaches<T, Y>,
    drawn: Result<DirectDrawing<T, Y, P>, RenderFailure>,
) -> bool {
    exists|ask: ProjectionAsk, answer: Result<ProjectedMap<P>, String>|
        #[trigger] call_ensures(project, (ask,), answer) && asks_for(
            extracted[field_at].1,
            field_at,
            (request.output_width, request.output_height),
            styling::recipe_mode(*item.recipe, selector),
            sources,
            ask,
        ) && map_answered(
            request,
            texts,
            item,
            selector,
            field_at,
            answer,
            extracted,
            settings,
            frame,
            label,
            rules,
            before,
            after,
            drawn,
        )
}

/// Whether a recipe ends as drawn. What is known of its fetch is looked for first.
pub open spec fn recipe_drawn<
    'a,
    T,
    Y,
    P,
    C: Fn(UnitConvert, T) -> T,
    S: Fn(T, T) -> T,
    K: Fn(T) -> T,
    M: Fn(Vec<T>) -> T,
    L: Fn(FieldSelector, Vec<T>) -> Option<ContourLayer<T, Y>>,
    B: Fn(T, u16) -> bool,
    R: Fn(usize, u32) -> usize,
    H: Fn(usize) -> usize,
    G: Fn(T, T) -> bool,
    GR: Fn(T, T) -> bool,
    GC: Fn(T, T) -> bool,
    V: Fn(T, T, BoundsBits) -> bool,
    E: Fn(usize, u32, u32, ProductVisualMode) -> MapFrame,
    O,
    W: Fn(O, usize, RenderRequest<T, Y, P>) -> Result<RenderRequest<T, Y, P>, String>,
    J: Fn(ProjectionAsk) -> Result<ProjectedMap<P>, String>,
    X: Fn(u32, u32, u32) -> u32,
    Q,
    I,
>(
    request: DirectBatchRequest<Q, O>,
    texts: MapTexts<'a>,
    item: PlannedDirectRecipe<'a>,
    components: Seq<PlotRecipe>,
    extracted: Seq<(FieldSelector, MapField<T>)>,
    fetches: Seq<(Seq<char>, I)>,
    sources: MapSources<'a>,
    settings: MapSettings<T>,
    scaled: X,
    project: J,
    frame: E,
    label: W,
    rules: LayerRules<C, S, K, M, L, B, R, H, G, GR, GC, V>,
    before: DrawCaches<T, Y>,
    after: DrawCaches<T, Y>,
    drawn: Result<DirectDrawing<T, Y, P>, RenderFailure>,
) -> bool {
    let product = grouping::canonical(
        request.model,
        request.product_overrides@,
        item.plan.product@,
        item.plan.selectors@,
    );
    if batch::fetch_of(fetches, product) is None {
        refused(Refusal::UnknownFetch { product }, before, after, drawn)
    } else {
        match composite::panels_of(item.recipe.slug@) {
            Some(panels) => composite_drawn(
                request,
                texts,
                item.recipe.title@,
                panels,
                components,
                extracted,
                sources,
                settings,
                scaled,
                project,
                frame,
                label,
                rules,
                before,
                after,
                drawn,
            ),
            None => match item.recipe.spec_filled() {
                None => refused(Refusal::NoFilledBinding, before, after, drawn),
                Some(selector) => match recipe::position(extracted, selector) {
                    None => refused(Refusal::FilledNotRead { selector }, before, after, drawn),
                    Some(at) => map_drawn(
                        request,
                        texts,
                        item,
                        selector,
                        at,
                        extracted,
                        sources,
                        settings,
                        project,
                        frame,
                        label,
                        rules,
                        before,
                        after,
                        drawn,
                    ),
                },
            },
        }
    }
}

/// Draws a recipe: the panels of a composite map, or a map of one field.
pub fn render_direct_recipe<
    'a,
    T: Copy,
    Y: Copy,
    P: Copy,
    C: Fn(UnitConvert, T) -> T,
    S: Fn(T, T) -> T,
    K: Fn(T) -> T,
    M: Fn(Vec<T>) -> T,
    L: Fn(FieldSelector, Vec<T>) -> Option<ContourLayer<T, Y>>,
    B: Fn(T, u16) -> bool,
    R: Fn(usize, u32) -> usize,
    H: Fn(usize) -> usize,
    G: Fn(T, T) -> bool,
    GR: Fn(T, T) -> bool,
    GC: Fn(T, T) -> bool,
    V: Fn(T, T, BoundsBits) -> bool,
    E: Fn(usize, u32, u32, ProductVisualMode) -> MapFrame,
    O: Copy,
    W: Fn(O, usize, RenderRequest<T, Y, P>) -> Result<RenderRequest<T, Y, P>, String>,
    J: Fn(ProjectionAsk) -> Result<ProjectedMap<P>, String>,
    X: Fn(u32, u32, u32) -> u32,
    Q,
    I,
>(
    request: &DirectBatchRequest<Q, O>,
    texts: &MapTexts<'a>,
    item: PlannedDirectRecipe<'a>,
    components: &[PlotRecipe],
    extracted: &[(FieldSelector, MapField<T>)],
    fetches: &[(String, I)],
    sources: &MapSources<'a>,
    settings: &MapSettings<T>,
    scaled: &X,
    project: &J,
    frame: &E,
    label: &W,
    rules: &LayerRules<C, S, K, M, L, B, R, H, G, GR, GC, V>,
    caches: &mut DrawCaches<T, Y>,
) -> (drawn: Result<DirectDrawing<T, Y, P>, RenderFailure>)
    requires
        request::callable::<T, Y, C, S, K, M, L, B, R, H, G, GR, GC, V>(*rules),
        forall|at: usize, width: u32, height: u32, m: ProductVisualMode| #[trigger]
            call_requires(*frame, (at, width, height, m)),
        forall|o: O, at: usize, r: RenderRequest<T, Y, P>| #[trigger]
            call_requires(*label, (o, at, r)),
        forall|ask: ProjectionAsk| #[trigger] call_requires(*project, (ask,)),
        forall|length: u32, output: u32, usual: u32| #[trigger]
            call_requires(*scaled, (length, output, usual)),
        request::all_sized(extracted@),
    ensures
        recipe_drawn(
            *request,
            *texts,
            item,
            components@,
            extracted@,
            batch::fetch_views(fetches@),
            *sources,
            *settings,
            *scaled,
            *project,
            *frame,
            *label,
            *rules,
            *old(caches),
            *final(caches),
            drawn,
        ),
{
    let ghost before = *caches;
    let product = canonical_fetch_product_for_selectors(
        request,
        item.plan.product.as_str(),
        item.plan.selectors.as_slice(),
    );
    if find_fetch(fetches, product.as_str()).is_none() {
        return Err(RenderFailure::Refused { refusal: RenderRefusal::UnknownFetch { product } });
    }
    if let Some(spec) = composite_panel_spec(item.recipe.slug.as_str()) {
        proof {
            composite::lemma_panels_have_components(item.recipe.slug@);
            assert(spec.component_slugs@.len() == spec@.component_slugs.len());
        }
        return render_direct_composite_panel(
            request,
            texts,
            item.recipe.title.as_str(),
            spec,
            components,
            extracted,
            sources,
            settings,
            scaled,
            project,
            frame,
            label,
            rules,
            caches,
        );
    }
    let selector = match item.recipe.filled_selector() {
        Some(selector) => selector,
        None => {
            return Err(RenderFailure::Refused { refusal: RenderRefusal::NoFilledBinding });
        },
    };
    let at: usize = match find_field(extracted, selector) {
        Some(at) => at,
        None => {
            return Err(
                RenderFailure::Refused { refusal: RenderRefusal::FilledNotRead { selector } },
            );
        },
    };
    let mode = mode_of_recipe(item.recipe, selector);
    let size = (request.output_width, request.output_height);
    let ask = ask_for(&extracted[at].1, at, size, mode, sources);
    let answer = project(ask);
    let ghost told = answer;
    let drawn = match answer {
        Ok(projected) => match compose_map(
            item.recipe,
            selector,
            at,
            mode,
            extracted,
            &projected,
            size,
            settings,
            frame,
            rules,
            caches,
        ) {
            Ok(plain) => {
                let ghost base = plain;
                let title = direct_title_for_planned_product(
                    request,
                    texts.model,
                    item.plan.product.as_str(),
                    item.recipe.title.as_str(),
                    settings.title_suffix.as_str(),
                );
                let lines = direct_subtitles(request, texts.run_subtitle, texts.source_subtitle);
                let raster = apply_source_raster_policy(texts.source, plain.raster);
                let shown = RenderRequest { title, subtitles: Some(lines), raster, ..plain };
                let ghost named = shown;
                let labelled_map = label_map(request.place_label_overlay, at, label, shown);
                proof {
                    assert(titled(
                        texts.source,
                        base,
                        titles::map_title(
                            *request,
                            texts.model@,
                            Some(item.plan.product@),
                            item.recipe.title@,
                            settings.title_suffix@,
                        ),
                        render::left_line(*request, texts.run_subtitle@),
                        render::right_line(*request, texts.source_subtitle@),
                        named,
                    ));
                    assert(map_finished(
                        *request,
                        *texts,
                        item,
                        selector,
                        at as int,
                        projected,
                        extracted@,
                        *settings,
                        *frame,
                        *label,
                        *rules,
                        before,
                        *caches,
                        labelled_map,
                    ));
                }
                match labelled_map {
                    Ok(request) => Ok(DirectDrawing::Single { request }),
                    Err(message) => Err(RenderFailure::Labels { message }),
                }
            },
            Err(failure) => Err(failure),
        },
        Err(message) => Err(RenderFailure::Projection { message }),
    };
    proof {
        assert(map_answered(
            *request,
            *texts,
            item,
            selector,
            at as int,
            told,
            extracted@,
            *settings,
            *frame,
            *label,
            *rules,
            before,
            *caches,
            drawn,
        ));
    }
    drawn
}

/// A recipe without panels is never refused if its filled field was read and its
/// fetch is known.
pub proof fn law_read_fields_are_not_refused<
    'a,
    T,
    Y,
    P,
    C: Fn(UnitConvert, T) -> T,
    S: Fn(T, T) -> T,
    K: Fn(T) -> T,
    M: Fn(Vec<T>) -> T,
    L: Fn(FieldSelector, Vec<T>) -> Option<ContourLayer<T, Y>>,
    B: Fn(T, u16) -> bool,
    R: Fn(usize, u32) -> usize,
    H: Fn(usize) -> usize,
    G: Fn(T, T) -> bool,
    GR: Fn(T, T) -> bool,
    GC: Fn(T, T) -> bool,
    V: Fn(T, T, BoundsBits) -> bool,
    E: Fn(usize, u32, u32, ProductVisualMode) -> MapFrame,
    O,
    W: Fn(O, usize, RenderRequest<T, Y, P>) -> Result<RenderRequest<T, Y, P>, String>,
    J: Fn(ProjectionAsk) -> Result<ProjectedMap<P>, String>,
    X: Fn(u32, u32, u32) -> u32,
    Q,
    I,
>(
    request: DirectBatchRequest<Q, O>,
    texts: MapTexts<'a>,
    item: PlannedDirectRecipe<'a>,
    components: Seq<PlotRecipe>,
    extracted: Seq<(FieldSelector, MapField<T>)>,
    fetches: Seq<(Seq<char>, I)>,
    sources: MapSources<'a>,
    settings: MapSettings<T>,
    scaled: X,
    project: J,
    frame: E,
    label: W,
    rules: LayerRules<C, S, K, M, L, B, R, H, G, GR, GC, V>,
    before: DrawCaches<T, Y>,
    after: DrawCaches<T, Y>,
    drawn: Result<DirectDrawing<T, Y, P>, RenderFailure>,
)
    requires
        recipe_drawn(
            request,
            texts,
            item,
            components,
            extracted,
            fetches,
            sources,
            settings,
            scaled,
            project,
            frame,
            label,
            rules,
            before,
            after,
            drawn,
        ),
        composite::panels_of(item.recipe.slug@) is None,
        item.recipe.spec_filled() is Some,
        recipe::position(extracted, item.recipe.spec_filled()->Some_0) is Some,
        batch::fetch_of(
            fetches,
            grouping::canonical(
                request.model,
                request.product_overrides@,
                item.plan.product@,
                item.plan.selectors@,
            ),
        ) is Some,
    ensures
        drawn is Err ==> !(drawn->Err_0 is Refused),
{
}

} // verus!
