//! Which projected maps a batch needs, and where a map is taken from.
use crate::direct::composite;
use crate::direct::composite::composite_panel_spec;
use crate::direct::planning;
use crate::direct::planning::{find_recipe, PlannedDirectRecipe};
use crate::direct::recipe;
use crate::direct::recipe::{find_field, FieldSelector, PlotRecipe};
use crate::direct::styling;
use crate::direct::styling::mode_of_recipe;
use crate::direct::types::DirectBatchRequest;
use crate::model::ProductVisualMode;
use crate::text::str_eq;
use vstd::prelude::*;
use vstd::string::*;

verus! {

/// The number that stands for a drawing style.
pub open spec fn mode_number(mode: ProductVisualMode) -> u8 {
    match mode {
        ProductVisualMode::FilledMeteorology => 0,
        ProductVisualMode::UpperAirAnalysis => 1,
        ProductVisualMode::OverlayAnalysis => 2,
        ProductVisualMode::SevereDiagnostic => 3,
        ProductVisualMode::PanelMember => 4,
        ProductVisualMode::ComparisonPanel => 5,
    }
}

/// The number that stands for a drawing style.
pub fn visual_mode_cache_key(mode: ProductVisualMode) -> (key: u8)
    ensures
        key == mode_number(mode),
{
    match mode {
        ProductVisualMode::FilledMeteorology => 0,
        ProductVisualMode::UpperAirAnalysis => 1,
        ProductVisualMode::OverlayAnalysis => 2,
        ProductVisualMode::SevereDiagnostic => 3,
        ProductVisualMode::PanelMember => 4,
        ProductVisualMode::ComparisonPanel => 5,
    }
}

/// The drawing style that a number stands for.
pub open spec fn numbered_mode(key: u8) -> ProductVisualMode {
    if key == 1 {
        ProductVisualMode::UpperAirAnalysis
    } else if key == 2 {
        ProductVisualMode::OverlayAnalysis
    } else if key == 3 {
        ProductVisualMode::SevereDiagnostic
    } else if key == 4 {
        ProductVisualMode::PanelMember
    } else if key == 5 {
        ProductVisualMode::ComparisonPanel
    } else {
        ProductVisualMode::FilledMeteorology
    }
}

/// The drawing style that a number stands for.
pub fn visual_mode_for_key(mode_key: u8) -> (mode: ProductVisualMode)
    ensures
        mode == numbered_mode(mode_key),
{
    match mode_key {
        1 => ProductVisualMode::UpperAirAnalysis,
        2 => ProductVisualMode::OverlayAnalysis,
        3 => ProductVisualMode::SevereDiagnostic,
        4 => ProductVisualMode::PanelMember,
        5 => ProductVisualMode::ComparisonPanel,
        _ => ProductVisualMode::FilledMeteorology,
    }
}

/// A drawing style is found back from its number.
pub proof fn law_modes_are_found_back(mode: ProductVisualMode)
    ensures
        numbered_mode(mode_number(mode)) == mode,
{
}

/// The size of a field's grid and the name of its projection.
#[derive(Debug)]
pub struct FieldShape {
    pub nx: usize,
    pub ny: usize,
    pub projection: String,
}

/// What a projected map depends on.
#[derive(Debug)]
pub struct ProjectedMapKey {
    pub width: u32,
    pub height: u32,
    pub mode_key: u8,
    pub nx: usize,
    pub ny: usize,
    pub projection: String,
}

/// What a projected map depends on, as the contracts speak of it.
pub struct MapKey {
    pub width: u32,
    pub height: u32,
    pub mode_key: u8,
    pub nx: usize,
    pub ny: usize,
    pub projection: Seq<char>,
}

impl View for ProjectedMapKey {
    type V = MapKey;

    open spec fn view(&self) -> MapKey {
        MapKey {
            width: self.width,
            height: self.height,
            mode_key: self.mode_key,
            nx: self.nx,
            ny: self.ny,
            projection: self.projection@,
        }
    }
}

/// What a map of a field depends on.
pub open spec fn map_key(width: u32, height: u32, mode_key: u8, field: FieldShape) -> MapKey {
    MapKey { width, height, mode_key, nx: field.nx, ny: field.ny, projection: field.projection@ }
}

/// What a map of a field depends on.
pub fn projected_map_cache_key(width: u32, height: u32, mode_key: u8, field: &FieldShape) -> (key:
    ProjectedMapKey)
    ensures
        key@ == map_key(width, height, mode_key, *field),
{
    ProjectedMapKey {
        width,
        height,
        mode_key,
        nx: field.nx,
        ny: field.ny,
        projection: field.projection.clone(),
    }
}

impl ProjectedMapKey {
    /// Whether two maps are the same.
    pub fn same(&self, other: &ProjectedMapKey) -> (yes: bool)
        ensures
            yes == (self@ == other@),
    {
        self.width == other.width && self.height == other.height && self.mode_key == other.mode_key
            && self.nx == other.nx && self.ny == other.ny && str_eq(
            self.projection.as_str(),
            other.projection.as_str(),
        )
    }
}

/// What the maps of a list depend on.
pub open spec fn map_keys(list: Seq<ProjectedMapKey>) -> Seq<MapKey> {
    Seq::new(list.len(), |i: int| list[i]@)
}

fn find_key(list: &[ProjectedMapKey], key: &ProjectedMapKey) -> (at: Option<usize>)
    ensures
        match at {
            Some(at) => at < list@.len() && list@[at as int]@ == key@ && forall|k: int|
                0 <= k < at ==> #[trigger] list@[k]@ != key@,
            None => !map_keys(list@).contains(key@),
        },
{
    let mut i: usize = 0;
    while i < list.len()
        invariant
            i <= list@.len(),
            forall|k: int| 0 <= k < i ==> #[trigger] list@[k]@ != key@,
        decreases list@.len() - i,
    {
        if list[i].same(key) {
            return Some(i);
        }
        i = i + 1;
    }
    proof {
        assert forall|k: int| 0 <= k < map_keys(list@).len() implies map_keys(list@)[k]
            != key@ by {
            assert(list@[k]@ != key@);
        }
    }
    None
}

/// The size and drawing style of the map of a recipe that is not made of panels.
pub fn standard_projected_key<B, O>(request: &DirectBatchRequest<B, O>, recipe: &PlotRecipe) -> (key: Option<
    (u32, u32, u8),
>)
    ensures
        key == (match recipe.spec_filled() {
            Some(selector) => Some(
                (
                    request.output_width,
                    request.output_height,
                    mode_number(styling::recipe_mode(*recipe, selector)),
                ),
            ),
            None => None,
        }),
{
    match recipe.filled_selector() {
        Some(selector) => Some(
            (
                request.output_width,
                request.output_height,
                visual_mode_cache_key(mode_of_recipe(recipe, selector)),
            ),
        ),
        None => None,
    }
}

/// The first selector that a component of a composite map fills.
pub open spec fn first_component_selector(
    slugs: Seq<Seq<char>>,
    components: Seq<PlotRecipe>,
) -> Option<FieldSelector>
    decreases slugs.len(),
{
    if slugs.len() == 0 {
        None
    } else {
        let found = match planning::recipe_named(components, slugs[0]) {
            Some(component) => component.spec_filled(),
            None => None,
        };
        match found {
            Some(selector) => Some(selector),
            None => first_component_selector(slugs.drop_first(), components),
        }
    }
}

/// The selector whose field a map is projected by: the filled one, or the first
/// that a component fills.
pub open spec fn sample_selector(recipe: PlotRecipe, components: Seq<PlotRecipe>) -> Option<
    FieldSelector,
> {
    match recipe.spec_filled() {
        Some(selector) => Some(selector),
        None => match composite::panels_of(recipe.slug@) {
            Some(panels) => first_component_selector(panels.component_slugs, components),
            None => None,
        },
    }
}

/// The selector whose field a map is projected by.
pub fn projected_sample_selector(recipe: &PlotRecipe, components: &[PlotRecipe]) -> (selector: Option<
    FieldSelector,
>)
    ensures
        selector == sample_selector(*recipe, components@),
{
    if let Some(selector) = recipe.filled_selector() {
        return Some(selector);
    }
    match composite_panel_spec(recipe.slug.as_str()) {
        Some(spec) => {
            let ghost slugs = spec@.component_slugs;
            let mut i: usize = 0;
            proof {
                assert(slugs.skip(0) == slugs);
            }
            while i < spec.component_slugs.len()
                invariant
                    i <= spec.component_slugs@.len(),
                    slugs == crate::text::str_texts(spec.component_slugs@),
                    first_component_selector(slugs, components@) == first_component_selector(
                        slugs.skip(i as int),
                        components@,
                    ),
                    sample_selector(*recipe, components@) == first_component_selector(
                        slugs,
                        components@,
                    ),
                decreases spec.component_slugs@.len() - i,
            {
                let slug = spec.component_slugs[i];
                proof {
                    assert(slugs.skip(i as int)[0] == slug@);
                    assert(slugs.skip(i as int).drop_first() == slugs.skip(i + 1));
                }
                if let Some(component) = find_recipe(components, slug) {
                    if let Some(selector) = component.filled_selector() {
                        return Some(selector);
                    }
                }
                i = i + 1;
            }
            None
        },
        None => None,
    }
}

/// A map that a batch needs: what it depends on, its drawing style and where the
/// field stands that it is projected by.
#[derive(Debug)]
pub struct WantedMap {
    pub key: ProjectedMapKey,
    pub visual_mode: ProductVisualMode,
    pub field_at: usize,
}

/// A map that a batch needs, as the contracts speak of it.
pub struct Wanted {
    pub key: MapKey,
    pub visual_mode: ProductVisualMode,
    pub field_at: int,
}

impl View for WantedMap {
    type V = Wanted;

    open spec fn view(&self) -> Wanted {
        Wanted {
            key: self.key@,
            visual_mode: self.visual_mode,
            field_at: self.field_at as int,
        }
    }
}

/// The maps of a list as the contracts speak of them.
pub open spec fn wanted_views(list: Seq<WantedMap>) -> Seq<Wanted> {
    Seq::new(list.len(), |i: int| list[i]@)
}

/// The map that a recipe needs, if its field was read. `panel` is the size of its
/// panels if it is made of panels.
pub open spec fn wanted_map<'a, B, O>(
    request: DirectBatchRequest<B, O>,
    item: PlannedDirectRecipe<'a>,
    panel: Option<(u32, u32)>,
    components: Seq<PlotRecipe>,
    extracted: Seq<(FieldSelector, FieldShape)>,
) -> Option<Wanted> {
    let (sample, size, mode) = match panel {
        Some(size) => (
            sample_selector(*item.recipe, components),
            size,
            ProductVisualMode::PanelMember,
        ),
        None => (
            item.recipe.spec_filled(),
            (request.output_width, request.output_height),
            match item.recipe.spec_filled() {
                Some(selector) => styling::recipe_mode(*item.recipe, selector),
                None => ProductVisualMode::FilledMeteorology,
            },
        ),
    };
    match sample {
        Some(selector) => match recipe::position(extracted, selector) {
            Some(at) => Some(
                Wanted {
                    key: map_key(size.0, size.1, mode_number(mode), extracted[at].1),
                    visual_mode: mode,
                    field_at: at,
                },
            ),
            None => None,
        },
        None => None,
    }
}

fn want_map<'a, B, O>(
    request: &DirectBatchRequest<B, O>,
    item: PlannedDirectRecipe<'a>,
    panel: Option<(u32, u32)>,
    components: &[PlotRecipe],
    extracted: &[(FieldSelector, FieldShape)],
) -> (wanted: Option<WantedMap>)
    ensures
        match wanted {
            Some(wanted) => wanted_map(*request, item, panel, components@, extracted@) == Some(
                wanted@,
            ),
            None => wanted_map(*request, item, panel, components@, extracted@) is None,
        },
{
    match panel {
        Some((width, height)) => {
            let selector = match projected_sample_selector(item.recipe, components) {
                Some(selector) => selector,
                None => {
                    return None;
                },
            };
            match find_field(extracted, selector) {
                Some(at) => {
                    let mode = ProductVisualMode::PanelMember;
                    Some(
                        WantedMap {
                            key: projected_map_cache_key(
                                width,
                                height,
                                visual_mode_cache_key(mode),
                                &extracted[at].1,
                            ),
                            visual_mode: mode,
                            field_at: at,
                        },
                    )
                },
                None => None,
            }
        },
        None => {
            let selector = match item.recipe.filled_selector() {
                Some(selector) => selector,
                None => {
                    return None;
                },
            };
            match standard_projected_key(request, item.recipe) {
                Some((width, height, mode_key)) => match find_field(extracted, selector) {
                    Some(at) => {
                        proof {
                            law_modes_are_found_back(
                                styling::recipe_mode(*item.recipe, selector),
                            );
                        }
                        Some(
                            WantedMap {
                                key: projected_map_cache_key(
                                    width,
                                    height,
                                    mode_key,
                                    &extracted[at].1,
                                ),
                                visual_mode: visual_mode_for_key(mode_key),
                                field_at: at,
                            },
                        )
                    },
                    None => None,
                },
                None => None,
            }
        },
    }
}

/// Whether a map of a list depends on the same as another.
pub open spec fn wants_key(list: Seq<Wanted>, key: MapKey) -> bool {
    exists|k: int| 0 <= k < list.len() && (#[trigger] list[k]).key == key
}

/// The maps that the first recipes of a plan need and that are not there yet, each
/// once.
pub open spec fn maps_to_build<'a, B, O>(
    request: DirectBatchRequest<B, O>,
    planned: Seq<PlannedDirectRecipe<'a>>,
    panels: Seq<Option<(u32, u32)>>,
    components: Seq<PlotRecipe>,
    extracted: Seq<(FieldSelector, FieldShape)>,
    prepared: Seq<MapKey>,
) -> Seq<Wanted>
    decreases planned.len(),
{
    if planned.len() == 0 {
        Seq::empty()
    } else {
        let before = maps_to_build(
            request,
            planned.drop_last(),
            panels,
            components,
            extracted,
            prepared,
        );
        match wanted_map(
            request,
            planned.last(),
            panels[planned.len() - 1],
            components,
            extracted,
        ) {
            Some(wanted) => if prepared.contains(wanted.key) || wants_key(before, wanted.key) {
                before
            } else {
                before.push(wanted)
            },
            None => before,
        }
    }
}

fn is_wanted(list: &[WantedMap], key: &ProjectedMapKey) -> (yes: bool)
    ensures
        yes == wants_key(wanted_views(list@), key@),
{
    let mut i: usize = 0;
    while i < list.len()
        invariant
            i <= list@.len(),
            forall|k: int| 0 <= k < i ==> (#[trigger] wanted_views(list@)[k]).key != key@,
        decreases list@.len() - i,
    {
        proof {
            assert(wanted_views(list@)[i as int] == list@[i as int]@);
        }
        if list[i].key.same(key) {
            return true;
        }
        i = i + 1;
    }
    false
}

/// The maps that have to be built for a plan: those that its recipes need and that
/// are not prepared yet, each once, in the order of the plan.
pub fn plan_projected_maps<'a, B, O>(
    request: &DirectBatchRequest<B, O>,
    planned: &[PlannedDirectRecipe<'a>],
    panels: &[Option<(u32, u32)>],
    components: &[PlotRecipe],
    extracted: &[(FieldSelector, FieldShape)],
    prepared: &[ProjectedMapKey],
) -> (list: Vec<WantedMap>)
    requires
        panels@.len() == planned@.len(),
    ensures
        wanted_views(list@) == maps_to_build(
            *request,
            planned@,
            panels@,
            components@,
            extracted@,
            map_keys(prepared@),
        ),
{
    let mut list: Vec<WantedMap> = Vec::new();
    let mut i: usize = 0;
    let ghost keys = map_keys(prepared@);
    proof {
        assert(wanted_views(list@) =~= maps_to_build(
            *request,
            planned@.take(0),
            panels@,
            components@,
            extracted@,
            keys,
        ));
    }
    while i < planned.len()
        invariant
            i <= planned@.len(),
            panels@.len() == planned@.len(),
            keys == map_keys(prepared@),
            wanted_views(list@) == maps_to_build(
                *request,
                planned@.take(i as int),
                panels@,
                components@,
                extracted@,
                keys,
            ),
        decreases planned@.len() - i,
    {
        proof {
            assert(planned@.take(i + 1).drop_last() == planned@.take(i as int));
            assert(planned@.take(i + 1).last() == planned@[i as int]);
        }
        if let Some(wanted) = want_map(request, planned[i], panels[i], components, extracted) {
            let ghost shown = wanted@;
            let there = find_key(prepared, &wanted.key).is_some();
            proof {
                if there {
                    let k = choose|k: int| 0 <= k < prepared@.len() && prepared@[k]@ == shown.key;
                    assert(keys[k] == shown.key);
                }
            }
            if !there && !is_wanted(list.as_slice(), &wanted.key) {
                let ghost held = wanted_views(list@);
                list.push(wanted);
                proof {
                    assert(wanted_views(list@) =~= held.push(shown));
                }
            }
        }
        i = i + 1;
    }
    proof {
        assert(planned@.take(i as int) == planned@);
    }
    list
}

/// Where a projected map is taken from.
#[derive(Debug, Clone, Copy, PartialEq, Eq, Structural)]
pub enum ProjectedSource {
    Shared,
    Prepared(usize),
    Cached(usize),
    Build,
}

/// Whether a projected map is taken from a source: the context of the batch, then the
/// maps prepared ahead, then those of earlier recipes. Else it is built.
pub open spec fn found_at(
    shared: bool,
    prepared: Seq<ProjectedMapKey>,
    cached: Seq<ProjectedMapKey>,
    key: MapKey,
    source: ProjectedSource,
) -> bool {
    match source {
        ProjectedSource::Shared => shared,
        ProjectedSource::Prepared(at) => {
            &&& !shared
            &&& at < prepared.len()
            &&& prepared[at as int]@ == key
            &&& forall|k: int| 0 <= k < at ==> #[trigger] prepared[k]@ != key
        },
        ProjectedSource::Cached(at) => {
            &&& !shared
            &&& !map_keys(prepared).contains(key)
            &&& at < cached.len()
            &&& cached[at as int]@ == key
            &&& forall|k: int| 0 <= k < at ==> #[trigger] cached[k]@ != key
        },
        ProjectedSource::Build => {
            &&& !shared
            &&& !map_keys(prepared).contains(key)
            &&& !map_keys(cached).contains(key)
        },
    }
}

/// Where a projected map is taken from: a shared one first, then one that was
/// prepared, then one that was built on the way, and else it is built.
pub fn projected_source(
    shared: bool,
    prepared: &[ProjectedMapKey],
    cached: &[ProjectedMapKey],
    key: &ProjectedMapKey,
) -> (source: ProjectedSource)
    ensures
        found_at(shared, prepared@, cached@, key@, source),
{
    if shared {
        return ProjectedSource::Shared;
    }
    if let Some(at) = find_key(prepared, key) {
        return ProjectedSource::Prepared(at);
    }
    if let Some(at) = find_key(cached, key) {
        return ProjectedSource::Cached(at);
    }
    ProjectedSource::Build
}

/// Once the maps of a plan are built, every recipe whose field was read finds its
/// map among those that are prepared.
pub proof fn law_every_wanted_map_is_prepared<'a, B, O>(
    request: DirectBatchRequest<B, O>,
    planned: Seq<PlannedDirectRecipe<'a>>,
    panels: Seq<Option<(u32, u32)>>,
    components: Seq<PlotRecipe>,
    extracted: Seq<(FieldSelector, FieldShape)>,
    prepared: Seq<MapKey>,
    item: int,
)
    requires
        panels.len() == planned.len(),
        0 <= item < planned.len(),
    ensures
        match wanted_map(request, planned[item], panels[item], components, extracted) {
            Some(wanted) => prepared.contains(wanted.key) || wants_key(
                maps_to_build(request, planned, panels, components, extracted, prepared),
                wanted.key,
            ),
            None => true,
        },
{
    lemma_wanted_is_prepared(request, planned, panels, components, extracted, prepared, item);
}

proof fn lemma_wanted_is_prepared<'a, B, O>(
    request: DirectBatchRequest<B, O>,
    planned: Seq<PlannedDirectRecipe<'a>>,
    panels: Seq<Option<(u32, u32)>>,
    components: Seq<PlotRecipe>,
    extracted: Seq<(FieldSelector, FieldShape)>,
    prepared: Seq<MapKey>,
    item: int,
)
    requires
        0 <= item < planned.len() <= panels.len(),
    ensures
        match wanted_map(request, planned[item], panels[item], components, extracted) {
            Some(wanted) => prepared.contains(wanted.key) || wants_key(
                maps_to_build(request, planned, panels, components, extracted, prepared),
                wanted.key,
            ),
            None => true,
        },
    decreases planned.len(),
{
    let init = planned.drop_last();
    let before = maps_to_build(request, init, panels, components, extracted, prepared);
    let after = maps_to_build(request, planned, panels, components, extracted, prepared);
    match wanted_map(request, planned[item], panels[item], components, extracted) {
        Some(wanted) => {
            if item < init.len() {
                assert(init[item] == planned[item]);
                lemma_wanted_is_prepared(
                    request,
                    init,
                    panels,
                    components,
                    extracted,
                    prepared,
                    item,
                );
                if wants_key(before, wanted.key) {
                    let k = choose|k: int|
                        0 <= k < before.len() && (#[trigger] before[k]).key == wanted.key;
                    assert(after[k].key == wanted.key);
                }
            } else {
                if !prepared.contains(wanted.key) && !wants_key(before, wanted.key) {
                    assert(after[before.len() as int].key == wanted.key);
                }
            }
        },
        None => {},
    }
}

} // verus!
