//! The request of one map: its filled field, contours, streamlines and wind barbs,
//! and what is masked below the ground.
use crate::derived::types::NativeContourRenderMode;
use crate::direct::domain;
use crate::direct::domain::visible_grid_span;
use crate::direct::masks;
use crate::direct::masks::{apply_below_ground_mask, below_ground_mask, smooth_contour_values, BelowGround};
use crate::direct::mesh;
use crate::direct::mesh::{rectilinear_latlon_mesh_for_inverse, MeshRules};
use crate::direct::recipe;
use crate::direct::recipe::{
    find_field, selector_is_spread_product, CanonicalField, FieldSelector, PlotRecipe,
    VerticalSelector,
};
use crate::direct::styling;
use crate::direct::styling::{
    companion_wind_fields, companion_wind_speed_fill, convert_filled_field,
    direct_recipe_render_controls, find_winds, should_render_overlay_only,
    visual_mode_for_direct_recipe, RasterSampleMode, RenderControls, RenderField, UnitConvert,
};
use crate::direct::wind;
use crate::direct::wind::{
    barb_strides, streamline_strides, streamlines_enabled_for_grid, LayerCache, LayerKey,
    StreamlineSetting,
};
use crate::model::ProductVisualMode;
use vstd::prelude::*;

verus! {

/// A field on a grid, as it was read.
pub struct MapField<T> {
    pub nx: usize,
    pub ny: usize,
    pub lat_deg: Vec<T>,
    pub lon_deg: Vec<T>,
    pub projection: String,
    pub product: String,
    pub units: String,
    pub values: Vec<T>,
}

impl<T> MapField<T> {
    /// Whether the field has one value, and one position, per point of its grid.
    pub open spec fn sized(self) -> bool {
        &&& self.nx * self.ny == self.values@.len()
        &&& self.nx * self.ny == self.lat_deg@.len()
        &&& self.nx * self.ny == self.lon_deg@.len()
    }
}

/// Whether every field of a list has one value and one position per point of its grid.
pub open spec fn all_sized<T>(fields: Seq<(FieldSelector, MapField<T>)>) -> bool {
    forall|i: int| 0 <= i < fields.len() ==> (#[trigger] fields[i]).1.sized()
}

/// Contours of a field. What they look like is known by a handle.
pub struct ContourLayer<T, Y> {
    pub data: Vec<T>,
    pub style: Y,
}

/// Streamlines of a wind in knots, begun every so many cells.
pub struct StreamlineLayer<T> {
    pub u: Vec<T>,
    pub v: Vec<T>,
    pub stride_x: usize,
    pub stride_y: usize,
}

/// Wind barbs of a wind in knots, drawn every so many cells.
pub struct BarbLayer<T> {
    pub u: Vec<T>,
    pub v: Vec<T>,
    pub stride_x: usize,
    pub stride_y: usize,
}

/// Layers that were built for earlier maps of a batch.
pub struct DrawCaches<T, Y> {
    pub contours: LayerCache<Option<ContourLayer<T, Y>>>,
    pub streamlines: LayerCache<StreamlineLayer<T>>,
    pub barbs: LayerCache<BarbLayer<T>>,
    pub strides: LayerCache<(usize, usize)>,
}

/// The bounds of a map, by the bits of their numbers.
#[derive(Debug, Clone, Copy, PartialEq, Eq, Structural)]
pub struct BoundsBits {
    pub west: u64,
    pub east: u64,
    pub south: u64,
    pub north: u64,
}

/// What a map shows of the earth, and how many columns and rows of wind barbs it
/// should have.
#[derive(Debug, Clone, Copy)]
pub struct MapFrame {
    pub bounds: BoundsBits,
    pub targets: (u32, u32),
}

/// Whether two caches hold the same layers.
pub open spec fn unchanged<V>(before: LayerCache<V>, after: LayerCache<V>) -> bool {
    forall|key: LayerKey| #[trigger] after.layer(key) == before.layer(key)
}

/// Whether the layer of a key was looked up: a cached one stays, and one that was
/// not there is made and kept. No other layer changes.
pub open spec fn looked_up<V>(
    before: LayerCache<V>,
    after: LayerCache<V>,
    key: LayerKey,
    made: spec_fn(V) -> bool,
) -> bool {
    &&& after.layer(key) is Some
    &&& match before.layer(key) {
        Some(kept) => after.layer(key) == Some(kept),
        None => made(after.layer(key)->0),
    }
    &&& forall|other: LayerKey|
        other != key ==> #[trigger] after.layer(other) == before.layer(other)
}

/// A layer that was looked up once is the one found from then on.
pub proof fn law_layers_are_made_once<V>(
    first: LayerCache<V>,
    second: LayerCache<V>,
    third: LayerCache<V>,
    key: LayerKey,
    made: spec_fn(V) -> bool,
    made_again: spec_fn(V) -> bool,
)
    requires
        looked_up(first, second, key, made),
        looked_up(second, third, key, made_again),
    ensures
        unchanged(second, third),
{
    assert forall|other: LayerKey| #[trigger] third.layer(other) == second.layer(other) by {
        if other != key {
            assert(third.layer(other) == second.layer(other));
        }
    }
}

fn copy_values<T: Copy>(values: &[T]) -> (copy: Vec<T>)
    ensures
        copy@ == values@,
{
    let mut copy: Vec<T> = Vec::new();
    let mut i: usize = 0;
    while i < values.len()
        invariant
            i <= values@.len(),
            copy@ == values@.take(i as int),
        decreases values@.len() - i,
    {
        copy.push(values[i]);
        i = i + 1;
        assert(values@.take(i as int) =~= values@.take(i - 1).push(values@[i - 1]));
    }
    assert(values@.take(i as int) =~= values@);
    copy
}

/// The two winds of a pair have sizes that no speed can be taken of: the second is
/// the smaller one.
#[derive(Debug, Clone, Copy, PartialEq, Eq, Structural)]
pub struct WindSizes {
    pub u: usize,
    pub v: usize,
}

/// Whether a field is what a map is filled with: the speed of the wind that belongs
/// to the recipe, where it fills with it and both components were read, or else the
/// field itself in the units that are shown.
pub open spec fn fills<T, C: Fn(UnitConvert, T) -> T, S: Fn(T, T) -> T>(
    recipe: PlotRecipe,
    selector: FieldSelector,
    field: MapField<T>,
    extracted: Seq<(FieldSelector, MapField<T>)>,
    apply: C,
    speed: S,
    filled: Result<RenderField<T>, WindSizes>,
) -> bool {
    match styling::companion_winds(recipe, selector, extracted) {
        Some((u_at, v_at)) => {
            let u = extracted[u_at].1.values@;
            let v = extracted[v_at].1.values@;
            match filled {
                Ok(filled) => {
                    &&& u.len() <= v.len()
                    &&& filled.product@ == recipe.slug@ + "_wind_speed"@
                    &&& filled.units@ == "kt"@
                    &&& filled.values@.len() == u.len()
                    &&& forall|k: int|
                        0 <= k < u.len() ==> call_ensures(
                            speed,
                            (u[k], v[k]),
                            #[trigger] filled.values@[k],
                        )
                },
                Err(sizes) => u.len() > v.len() && sizes == (WindSizes {
                    u: u.len() as usize,
                    v: v.len() as usize,
                }),
            }
        },
        None => {
            &&& filled is Ok
            &&& filled->Ok_0.product@ == field.product@
            &&& filled->Ok_0.units@ == styling::shown_units(recipe, selector, field.units@)
            &&& styling::converted(
                field.values@,
                styling::fill_conversion(recipe.style, selector).0,
                apply,
                filled->Ok_0.values@,
            )
        },
    }
}

/// What a map is filled with.
pub fn render_filled_field<T: Copy, C: Fn(UnitConvert, T) -> T, S: Fn(T, T) -> T>(
    recipe: &PlotRecipe,
    selector: FieldSelector,
    field: &MapField<T>,
    extracted: &[(FieldSelector, MapField<T>)],
    apply: &C,
    speed: &S,
) -> (filled: Result<RenderField<T>, WindSizes>)
    requires
        forall|convert: UnitConvert, value: T| #[trigger] call_requires(*apply, (convert, value)),
        forall|u: T, v: T| #[trigger] call_requires(*speed, (u, v)),
    ensures
        fills(*recipe, selector, *field, extracted@, *apply, *speed, filled),
{
    match companion_wind_fields(recipe, selector, extracted) {
        Some((u_at, v_at)) => {
            let u = &extracted[u_at].1.values;
            let v = &extracted[v_at].1.values;
            if u.len() > v.len() {
                return Err(WindSizes { u: u.len(), v: v.len() });
            }
            Ok(companion_wind_speed_fill(recipe, u.as_slice(), v.as_slice(), speed))
        },
        None => Ok(
            convert_filled_field(
                recipe,
                selector,
                field.product.as_str(),
                field.units.as_str(),
                field.values.as_slice(),
                apply,
            ),
        ),
    }
}

/// Whether values are what contours of a field are drawn from: those of the field,
/// smoothed some number of times where it is the pressure at sea level.
pub open spec fn contoured<T, M: Fn(Vec<T>) -> T>(
    selector: FieldSelector,
    field: MapField<T>,
    passes: usize,
    mean: M,
    values: Seq<T>,
) -> bool {
    if !(selector.field is PressureReducedToMeanSeaLevel) || passes == 0 || field.nx < 3 || field.ny
        < 3 || field.values@.len() != field.nx * field.ny {
        values == field.values@
    } else {
        exists|states: Seq<Seq<T>>|
            #[trigger] masks::smoothing_passes(states, field.nx as int, field.ny as int, mean)
                && states.len() == passes + 1 && states[0] == field.values@ && states.last()
                == values
    }
}

/// The values that contours of a field are drawn from.
pub fn contour_values_for_render<T: Copy, M: Fn(Vec<T>) -> T>(
    selector: FieldSelector,
    field: &MapField<T>,
    passes: usize,
    mean: &M,
) -> (values: Vec<T>)
    requires
        forall|window: Vec<T>| #[trigger] call_requires(*mean, (window,)),
    ensures
        contoured(selector, *field, passes, *mean, values@),
{
    if matches!(selector.field, CanonicalField::PressureReducedToMeanSeaLevel) {
        smooth_contour_values(field.values.as_slice(), field.nx, field.ny, passes, mean)
    } else {
        copy_values(field.values.as_slice())
    }
}

/// Whether contours, if any, are those of a field. `lines` styles them.
pub open spec fn made_contours<T, Y, M: Fn(Vec<T>) -> T, L: Fn(FieldSelector, Vec<T>) -> Option<
    ContourLayer<T, Y>,
>>(
    selector: FieldSelector,
    field: MapField<T>,
    passes: usize,
    mean: M,
    lines: L,
    layer: Option<ContourLayer<T, Y>>,
) -> bool {
    exists|values: Vec<T>|
        #[trigger] call_ensures(lines, (selector, values), layer) && contoured(
            selector,
            field,
            passes,
            mean,
            values@,
        )
}

/// What contours show: their values and their style.
pub open spec fn contour_view<T, Y>(layer: Option<ContourLayer<T, Y>>) -> Option<(Seq<T>, Y)> {
    match layer {
        Some(layer) => Some((layer.data@, layer.style)),
        None => None,
    }
}

/// What contours of a field depend on.
pub open spec fn contour_key<T>(selector: FieldSelector, field: MapField<T>) -> LayerKey {
    LayerKey::Contour { selector, nx: field.nx, ny: field.ny }
}

fn copy_contours<T: Copy, Y: Copy>(layer: &Option<ContourLayer<T, Y>>) -> (copy: Option<
    ContourLayer<T, Y>,
>)
    ensures
        contour_view(copy) == contour_view(*layer),
{
    match layer {
        Some(layer) => Some(
            ContourLayer { data: copy_values(layer.data.as_slice()), style: layer.style },
        ),
        None => None,
    }
}

/// The contours of a field, which are made once for each field and size of grid.
pub fn cached_contour_layer<
    T: Copy,
    Y: Copy,
    M: Fn(Vec<T>) -> T,
    L: Fn(FieldSelector, Vec<T>) -> Option<ContourLayer<T, Y>>,
>(
    selector: FieldSelector,
    field: &MapField<T>,
    passes: usize,
    mean: &M,
    lines: &L,
    cache: &mut LayerCache<Option<ContourLayer<T, Y>>>,
) -> (layer: Option<ContourLayer<T, Y>>)
    requires
        forall|window: Vec<T>| #[trigger] call_requires(*mean, (window,)),
        forall|s: FieldSelector, values: Vec<T>| #[trigger] call_requires(*lines, (s, values)),
    ensures
        looked_up(
            *old(cache),
            *final(cache),
            contour_key(selector, *field),
            |made: Option<ContourLayer<T, Y>>|
                made_contours(selector, *field, passes, *mean, *lines, made),
        ),
        contour_view(layer) == contour_view(
            final(cache).layer(contour_key(selector, *field))->0,
        ),
{
    let key = LayerKey::Contour { selector, nx: field.nx, ny: field.ny };
    match cache.get(key) {
        Some(kept) => {
            return copy_contours(kept);
        },
        None => {},
    }
    let values = contour_values_for_render(selector, field, passes, mean);
    let layer = lines(selector, values);
    proof {
        assert(made_contours(selector, *field, passes, *mean, *lines, layer));
    }
    let shown = copy_contours(&layer);
    cache.keep(key, layer);
    shown
}

/// Whether the points of a field's grid that lie in some bounds are marked.
pub open spec fn marks_inside<T, V: Fn(T, T, BoundsBits) -> bool>(
    field: MapField<T>,
    bounds: BoundsBits,
    inside: V,
    marks: Seq<bool>,
) -> bool {
    &&& marks.len() == field.nx * field.ny
    &&& forall|k: int|
        0 <= k < marks.len() ==> call_ensures(
            inside,
            (field.lon_deg@[k], field.lat_deg@[k], bounds),
            #[trigger] marks[k],
        )
}

/// Whether strides are those of wind barbs on the grid of a field, of which the columns
/// and rows count that have points in the bounds of a map. `inside` says whether a
/// longitude and a latitude lie in bounds.
pub open spec fn made_strides<T, V: Fn(T, T, BoundsBits) -> bool, R: Fn(usize, u32) -> usize>(
    field: MapField<T>,
    frame: MapFrame,
    inside: V,
    share: R,
    strides: (usize, usize),
) -> bool {
    exists|marks: Seq<bool>, span: (usize, usize)|
        #[trigger] marks_inside(field, frame.bounds, inside, marks)
            && #[trigger] domain::is_visible_span(marks, field.nx as int, field.ny as int, span)
            && wind::is_stride(share, span.0, frame.targets.0, 128, strides.0) && wind::is_stride(
            share,
            span.1,
            frame.targets.1,
            96,
            strides.1,
        )
}

/// The strides of wind barbs, which are made once for each wind and bounds.
pub fn cached_barb_strides<T: Copy, V: Fn(T, T, BoundsBits) -> bool, R: Fn(usize, u32) -> usize>(
    key: LayerKey,
    field: &MapField<T>,
    frame: MapFrame,
    inside: &V,
    share: &R,
    cache: &mut LayerCache<(usize, usize)>,
) -> (strides: (usize, usize))
    requires
        field.sized(),
        forall|lon: T, lat: T, shown: BoundsBits| #[trigger]
            call_requires(*inside, (lon, lat, shown)),
        forall|cells: usize, target: u32| #[trigger] call_requires(*share, (cells, target)),
    ensures
        looked_up(
            *old(cache),
            *final(cache),
            key,
            |made: (usize, usize)| made_strides(*field, frame, *inside, *share, made),
        ),
        final(cache).layer(key) == Some(strides),
{
    match cache.get(key) {
        Some(kept) => {
            return *kept;
        },
        None => {},
    }
    let mut marks: Vec<bool> = Vec::new();
    let mut i: usize = 0;
    while i < field.lat_deg.len()
        invariant
            i <= field.lat_deg@.len(),
            field.sized(),
            marks@.len() == i,
            forall|lon: T, lat: T, shown: BoundsBits| #[trigger]
                call_requires(*inside, (lon, lat, shown)),
            forall|k: int|
                0 <= k < i ==> call_ensures(
                    *inside,
                    (field.lon_deg@[k], field.lat_deg@[k], frame.bounds),
                    #[trigger] marks@[k],
                ),
        decreases field.lat_deg@.len() - i,
    {
        marks.push(inside(field.lon_deg[i], field.lat_deg[i], frame.bounds));
        i = i + 1;
    }
    let span = visible_grid_span(marks.as_slice(), field.nx, field.ny);
    let strides = barb_strides(span, frame.targets, share);
    proof {
        assert(marks_inside(*field, frame.bounds, *inside, marks@));
        assert(made_strides(*field, frame, *inside, *share, strides));
    }
    cache.keep(key, strides);
    strides
}

/// Whether values are others in knots.
pub open spec fn in_knots<T, K: Fn(T) -> T>(values: Seq<T>, knots: K, result: Seq<T>) -> bool {
    &&& result.len() == values.len()
    &&& forall|k: int|
        0 <= k < values.len() ==> call_ensures(knots, (values[k],), #[trigger] result[k])
}

fn to_knots<T: Copy, K: Fn(T) -> T>(values: &[T], knots: &K) -> (result: Vec<T>)
    requires
        forall|value: T| #[trigger] call_requires(*knots, (value,)),
    ensures
        in_knots(values@, *knots, result@),
{
    let mut result: Vec<T> = Vec::new();
    let mut i: usize = 0;
    while i < values.len()
        invariant
            i <= values@.len(),
            result@.len() == i,
            forall|value: T| #[trigger] call_requires(*knots, (value,)),
            forall|k: int|
                0 <= k < i ==> call_ensures(*knots, (values@[k],), #[trigger] result@[k]),
        decreases values@.len() - i,
    {
        result.push(knots(values[i]));
        i = i + 1;
    }
    result
}

/// What the streamlines and barbs of a wind depend on.
pub open spec fn wind_key(winds: (FieldSelector, FieldSelector), bounds: BoundsBits) -> LayerKey {
    LayerKey::Wind {
        u_selector: winds.0,
        v_selector: winds.1,
        west_bits: bounds.west,
        east_bits: bounds.east,
        south_bits: bounds.south,
        north_bits: bounds.north,
    }
}

fn make_wind_key(winds: (FieldSelector, FieldSelector), bounds: BoundsBits) -> (key: LayerKey)
    ensures
        key == wind_key(winds, bounds),
{
    LayerKey::Wind {
        u_selector: winds.0,
        v_selector: winds.1,
        west_bits: bounds.west,
        east_bits: bounds.east,
        south_bits: bounds.south,
        north_bits: bounds.north,
    }
}

/// What a layer of wind shows: its components and its strides.
pub struct WindView<T> {
    pub u: Seq<T>,
    pub v: Seq<T>,
    pub stride_x: usize,
    pub stride_y: usize,
}

impl<T> View for StreamlineLayer<T> {
    type V = WindView<T>;

    open spec fn view(&self) -> WindView<T> {
        WindView {
            u: self.u@,
            v: self.v@,
            stride_x: self.stride_x,
            stride_y: self.stride_y,
        }
    }
}

impl<T> View for BarbLayer<T> {
    type V = WindView<T>;

    open spec fn view(&self) -> WindView<T> {
        WindView {
            u: self.u@,
            v: self.v@,
            stride_x: self.stride_x,
            stride_y: self.stride_y,
        }
    }
}

/// Whether a layer shows two winds in knots.
pub open spec fn shows_winds<T, K: Fn(T) -> T>(
    u: MapField<T>,
    v: MapField<T>,
    knots: K,
    layer: WindView<T>,
) -> bool {
    in_knots(u.values@, knots, layer.u) && in_knots(v.values@, knots, layer.v)
}

/// Whether streamlines are those of two winds, given the strides of their barbs.
pub open spec fn made_streamlines<T, K: Fn(T) -> T, H: Fn(usize) -> usize>(
    u: MapField<T>,
    v: MapField<T>,
    knots: K,
    thin: H,
    strides: (usize, usize),
    layer: StreamlineLayer<T>,
) -> bool {
    &&& shows_winds(u, v, knots, layer@)
    &&& wind::is_thinned(thin, strides.0, 96, layer.stride_x)
    &&& wind::is_thinned(thin, strides.1, 64, layer.stride_y)
}

/// Whether barbs are those of two winds, with the strides given.
pub open spec fn made_barbs<T, K: Fn(T) -> T>(
    u: MapField<T>,
    v: MapField<T>,
    knots: K,
    strides: (usize, usize),
    layer: BarbLayer<T>,
) -> bool {
    &&& shows_winds(u, v, knots, layer@)
    &&& (layer.stride_x, layer.stride_y) == strides
}

/// What the layers of a map are made with. `apply` changes the unit of a value,
/// `speed` gives the speed of two winds and `knots` one of them, in knots. `mean` is
/// the mean of a window, and `lines` styles contours. `below` says whether a surface
/// pressure is less than that of a level. `share` and `thin` give strides, `mesh` tells
/// coordinates apart, and `inside` says whether a longitude and a latitude lie in the
/// bounds of a map.
pub struct LayerRules<C, S, K, M, L, B, R, H, G, GR, GC, V> {
    pub apply: C,
    pub speed: S,
    pub knots: K,
    pub mean: M,
    pub lines: L,
    pub below: B,
    pub share: R,
    pub thin: H,
    pub mesh: MeshRules<G, GR, GC>,
    pub inside: V,
}

/// Whether the rules of layers take every argument.
pub open spec fn callable<
    T,
    Y,
    C: Fn(UnitConvert, T) -> T,
    S: Fn(T, T) -> T,
    K: Fn(T) -> T,
    M: Fn(Vec<T>) -> T,
    L: Fn(FieldSelector, Vec<T>) -> Option<ContourLayer<T, Y>>,
    B: Fn(T, u16) -> bool,
    R: Fn(usize, u32) -> usize,
    H: Fn(usize) -> usize,
    G: Fn(T, T) -> bool,
    GR: Fn(T, T) -> bool,
    GC: Fn(T, T) -> bool,
    V: Fn(T, T, BoundsBits) -> bool,
>(rules: LayerRules<C, S, K, M, L, B, R, H, G, GR, GC, V>) -> bool {
    &&& forall|convert: UnitConvert, value: T| #[trigger]
        call_requires(rules.apply, (convert, value))
    &&& forall|u: T, v: T| #[trigger] call_requires(rules.speed, (u, v))
    &&& forall|value: T| #[trigger] call_requires(rules.knots, (value,))
    &&& forall|window: Vec<T>| #[trigger] call_requires(rules.mean, (window,))
    &&& forall|s: FieldSelector, values: Vec<T>| #[trigger] call_requires(rules.lines, (s, values))
    &&& forall|value: T, level: u16| #[trigger] call_requires(rules.below, (value, level))
    &&& forall|cells: usize, target: u32| #[trigger] call_requires(rules.share, (cells, target))
    &&& forall|stride: usize| #[trigger] call_requires(rules.thin, (stride,))
    &&& forall|a: T, b: T| #[trigger] call_requires(rules.mesh.breaks, (a, b))
    &&& forall|a: T, b: T| #[trigger] call_requires(rules.mesh.off_row, (a, b))
    &&& forall|a: T, b: T| #[trigger] call_requires(rules.mesh.off_column, (a, b))
    &&& forall|lon: T, lat: T, shown: BoundsBits| #[trigger]
        call_requires(rules.inside, (lon, lat, shown))
}

/// How the layers of a map are drawn: how often the pressure is smoothed, whether
/// streamlines are asked for, which value is blank, how rasters are sampled before the
/// source has a say, how fills are drawn, and what all titles end in.
pub struct MapSettings<T> {
    pub smoothing_passes: usize,
    pub streamlines: StreamlineSetting,
    pub blank: T,
    pub raster: RasterSampleMode,
    pub contour_mode: NativeContourRenderMode,
    pub level_multiplier: usize,
    pub title_suffix: String,
}

/// Whether a map has streamlines of the winds at two places, if it draws any, and
/// the caches were asked for them. Only streamlines that are made need the strides
/// of barbs.
pub open spec fn streamlines_drawn<
    T,
    Y,
    C: Fn(UnitConvert, T) -> T,
    S: Fn(T, T) -> T,
    K: Fn(T) -> T,
    M: Fn(Vec<T>) -> T,
    L: Fn(FieldSelector, Vec<T>) -> Option<ContourLayer<T, Y>>,
    B: Fn(T, u16) -> bool,
    R: Fn(usize, u32) -> usize,
    H: Fn(usize) -> usize,
    G: Fn(T, T) -> bool,
    GR: Fn(T, T) -> bool,
    GC: Fn(T, T) -> bool,
    V: Fn(T, T, BoundsBits) -> bool,
>(
    winds: (FieldSelector, FieldSelector),
    u_at: int,
    v_at: int,
    extracted: Seq<(FieldSelector, MapField<T>)>,
    frame: MapFrame,
    rules: LayerRules<C, S, K, M, L, B, R, H, G, GR, GC, V>,
    draws: bool,
    before: DrawCaches<T, Y>,
    after: DrawCaches<T, Y>,
    layer: Option<StreamlineLayer<T>>,
) -> bool {
    if draws {
        let key = wind_key(winds, frame.bounds);
        let strides = after.strides.layer(key)->0;
        &&& layer is Some
        &&& layer->0@ == (after.streamlines.layer(key)->0)@
        &&& looked_up(
            before.streamlines,
            after.streamlines,
            key,
            |made: StreamlineLayer<T>|
                made_streamlines(
                    extracted[u_at].1,
                    extracted[v_at].1,
                    rules.knots,
                    rules.thin,
                    strides,
                    made,
                ),
        )
        &&& if before.streamlines.layer(key) is Some {
            unchanged(before.strides, after.strides)
        } else {
            looked_up(
                before.strides,
                after.strides,
                key,
                |made: (usize, usize)|
                    made_strides(extracted[u_at].1, frame, rules.inside, rules.share, made),
            )
        }
    } else {
        layer is None && unchanged(before.streamlines, after.streamlines) && unchanged(
            before.strides,
            after.strides,
        )
    }
}

/// Whether a map has the streamlines of its recipe. Left open, they are drawn unless
/// the grid of the wind is a regular mesh.
pub open spec fn has_streamlines<
    T,
    Y,
    C: Fn(UnitConvert, T) -> T,
    S: Fn(T, T) -> T,
    K: Fn(T) -> T,
    M: Fn(Vec<T>) -> T,
    L: Fn(FieldSelector, Vec<T>) -> Option<ContourLayer<T, Y>>,
    B: Fn(T, u16) -> bool,
    R: Fn(usize, u32) -> usize,
    H: Fn(usize) -> usize,
    G: Fn(T, T) -> bool,
    GR: Fn(T, T) -> bool,
    GC: Fn(T, T) -> bool,
    V: Fn(T, T, BoundsBits) -> bool,
>(
    recipe: PlotRecipe,
    extracted: Seq<(FieldSelector, MapField<T>)>,
    frame: MapFrame,
    settings: MapSettings<T>,
    rules: LayerRules<C, S, K, M, L, B, R, H, G, GR, GC, V>,
    before: DrawCaches<T, Y>,
    after: DrawCaches<T, Y>,
    layer: Option<StreamlineLayer<T>>,
) -> bool {
    match styling::winds_at(recipe, extracted) {
        None => layer is None && unchanged(before.streamlines, after.streamlines) && unchanged(
            before.strides,
            after.strides,
        ),
        Some((u_at, v_at)) => {
            let winds = recipe.spec_winds()->0;
            let u = extracted[u_at].1;
            ||| mesh::is_mesh(u.lat_deg@, u.lon_deg@, rules.mesh, true) && streamlines_drawn(
                winds,
                u_at,
                v_at,
                extracted,
                frame,
                rules,
                settings.streamlines is Enabled,
                before,
                after,
                layer,
            )
            ||| mesh::is_mesh(u.lat_deg@, u.lon_deg@, rules.mesh, false) && streamlines_drawn(
                winds,
                u_at,
                v_at,
                extracted,
                frame,
                rules,
                !(settings.streamlines is Disabled),
                before,
                after,
                layer,
            )
        },
    }
}

/// Whether a map has the barbs of its recipe, and the caches were asked for them.
pub open spec fn has_barbs<
    T,
    Y,
    C: Fn(UnitConvert, T) -> T,
    S: Fn(T, T) -> T,
    K: Fn(T) -> T,
    M: Fn(Vec<T>) -> T,
    L: Fn(FieldSelector, Vec<T>) -> Option<ContourLayer<T, Y>>,
    B: Fn(T, u16) -> bool,
    R: Fn(usize, u32) -> usize,
    H: Fn(usize) -> usize,
    G: Fn(T, T) -> bool,
    GR: Fn(T, T) -> bool,
    GC: Fn(T, T) -> bool,
    V: Fn(T, T, BoundsBits) -> bool,
>(
    recipe: PlotRecipe,
    extracted: Seq<(FieldSelector, MapField<T>)>,
    frame: MapFrame,
    settings: MapSettings<T>,
    rules: LayerRules<C, S, K, M, L, B, R, H, G, GR, GC, V>,
    before: DrawCaches<T, Y>,
    after: DrawCaches<T, Y>,
    layer: Option<BarbLayer<T>>,
) -> bool {
    match styling::winds_at(recipe, extracted) {
        None => layer is None && unchanged(before.barbs, after.barbs) && unchanged(
            before.strides,
            after.strides,
        ),
        Some((u_at, v_at)) => {
            let winds = recipe.spec_winds()->0;
            let key = wind_key(winds, frame.bounds);
            let strides = after.strides.layer(key)->0;
            &&& layer is Some
            &&& layer->0@ == (after.barbs.layer(key)->0)@
            &&& looked_up(
                before.barbs,
                after.barbs,
                key,
                |made: BarbLayer<T>|
                    made_barbs(extracted[u_at].1, extracted[v_at].1, rules.knots, strides, made),
            )
            &&& if before.barbs.layer(key) is Some {
                unchanged(before.strides, after.strides)
            } else {
                looked_up(
                    before.strides,
                    after.strides,
                    key,
                    |made: (usize, usize)|
                        made_strides(
                            extracted[u_at].1,
                            frame,
                            rules.inside,
                            rules.share,
                            made,
                        ),
                )
            }
        },
    }
}

/// The streamlines of the wind of a recipe, which are made once for each wind and
/// bounds.
pub fn build_streamline_layers<
    T: Copy,
    Y: Copy,
    C: Fn(UnitConvert, T) -> T,
    S: Fn(T, T) -> T,
    K: Fn(T) -> T,
    M: Fn(Vec<T>) -> T,
    L: Fn(FieldSelector, Vec<T>) -> Option<ContourLayer<T, Y>>,
    B: Fn(T, u16) -> bool,
    R: Fn(usize, u32) -> usize,
    H: Fn(usize) -> usize,
    G: Fn(T, T) -> bool,
    GR: Fn(T, T) -> bool,
    GC: Fn(T, T) -> bool,
    V: Fn(T, T, BoundsBits) -> bool,
>(
    recipe: &PlotRecipe,
    extracted: &[(FieldSelector, MapField<T>)],
    frame: MapFrame,
    settings: &MapSettings<T>,
    rules: &LayerRules<C, S, K, M, L, B, R, H, G, GR, GC, V>,
    caches: &mut DrawCaches<T, Y>,
) -> (layer: Option<StreamlineLayer<T>>)
    requires
        callable::<T, Y, C, S, K, M, L, B, R, H, G, GR, GC, V>(*rules),
        all_sized(extracted@),
    ensures
        has_streamlines(
            *recipe,
            extracted@,
            frame,
            *settings,
            *rules,
            *old(caches),
            *final(caches),
            layer,
        ),
        final(caches).contours == old(caches).contours,
        final(caches).barbs == old(caches).barbs,
{
    let (winds, (u_at, v_at)) = match (recipe.winds(), find_winds(recipe, extracted)) {
        (Some(winds), Some(places)) => (winds, places),
        _ => {
            return None;
        },
    };
    let wind = &extracted[u_at].1;
    let regular = rectilinear_latlon_mesh_for_inverse(
        wind.lat_deg.as_slice(),
        wind.lon_deg.as_slice(),
        &rules.mesh,
    );
    if !streamlines_enabled_for_grid(settings.streamlines, regular) {
        return None;
    }
    let key = make_wind_key(winds, frame.bounds);
    match caches.streamlines.get(key) {
        Some(kept) => {
            return Some(
                StreamlineLayer {
                    u: copy_values(kept.u.as_slice()),
                    v: copy_values(kept.v.as_slice()),
                    stride_x: kept.stride_x,
                    stride_y: kept.stride_y,
                },
            );
        },
        None => {},
    }
    let strides = cached_barb_strides(
        key,
        &extracted[u_at].1,
        frame,
        &rules.inside,
        &rules.share,
        &mut caches.strides,
    );
    let (stride_x, stride_y) = streamline_strides(strides, &rules.thin);
    let u = to_knots(extracted[u_at].1.values.as_slice(), &rules.knots);
    let v = to_knots(extracted[v_at].1.values.as_slice(), &rules.knots);
    let shown = StreamlineLayer {
        u: copy_values(u.as_slice()),
        v: copy_values(v.as_slice()),
        stride_x,
        stride_y,
    };
    let layer = StreamlineLayer { u, v, stride_x, stride_y };
    caches.streamlines.keep(key, layer);
    Some(shown)
}

/// The barbs of the wind of a recipe, which are made once for each wind and bounds.
pub fn build_barb_layers<
    T: Copy,
    Y: Copy,
    C: Fn(UnitConvert, T) -> T,
    S: Fn(T, T) -> T,
    K: Fn(T) -> T,
    M: Fn(Vec<T>) -> T,
    L: Fn(FieldSelector, Vec<T>) -> Option<ContourLayer<T, Y>>,
    B: Fn(T, u16) -> bool,
    R: Fn(usize, u32) -> usize,
    H: Fn(usize) -> usize,
    G: Fn(T, T) -> bool,
    GR: Fn(T, T) -> bool,
    GC: Fn(T, T) -> bool,
    V: Fn(T, T, BoundsBits) -> bool,
>(
    recipe: &PlotRecipe,
    extracted: &[(FieldSelector, MapField<T>)],
    frame: MapFrame,
    settings: &MapSettings<T>,
    rules: &LayerRules<C, S, K, M, L, B, R, H, G, GR, GC, V>,
    caches: &mut DrawCaches<T, Y>,
) -> (layer: Option<BarbLayer<T>>)
    requires
        callable::<T, Y, C, S, K, M, L, B, R, H, G, GR, GC, V>(*rules),
        all_sized(extracted@),
    ensures
        has_barbs(
            *recipe,
            extracted@,
            frame,
            *settings,
            *rules,
            *old(caches),
            *final(caches),
            layer,
        ),
        final(caches).contours == old(caches).contours,
        final(caches).streamlines == old(caches).streamlines,
{
    let (winds, (u_at, v_at)) = match (recipe.winds(), find_winds(recipe, extracted)) {
        (Some(winds), Some(places)) => (winds, places),
        _ => {
            return None;
        },
    };
    let key = make_wind_key(winds, frame.bounds);
    match caches.barbs.get(key) {
        Some(kept) => {
            return Some(
                BarbLayer {
                    u: copy_values(kept.u.as_slice()),
                    v: copy_values(kept.v.as_slice()),
                    stride_x: kept.stride_x,
                    stride_y: kept.stride_y,
                },
            );
        },
        None => {},
    }
    let (stride_x, stride_y) = cached_barb_strides(
        key,
        &extracted[u_at].1,
        frame,
        &rules.inside,
        &rules.share,
        &mut caches.strides,
    );
    let u = to_knots(extracted[u_at].1.values.as_slice(), &rules.knots);
    let v = to_knots(extracted[v_at].1.values.as_slice(), &rules.knots);
    let shown = BarbLayer {
        u: copy_values(u.as_slice()),
        v: copy_values(v.as_slice()),
        stride_x,
        stride_y,
    };
    let layer = BarbLayer { u, v, stride_x, stride_y };
    caches.barbs.keep(key, layer);
    Some(shown)
}

/// A projected grid: a handle by which it is known, and for each point whether its
/// coordinates are finite.
pub struct ProjectedMap<P> {
    pub handle: P,
    pub finite_x: Vec<bool>,
    pub finite_y: Vec<bool>,
}

impl<P> ProjectedMap<P> {
    /// Which points have two finite coordinates.
    pub open spec fn finite(self) -> Seq<bool> {
        Seq::new(
            self.finite_x@.len(),
            |i: int| self.finite_x@[i] && i < self.finite_y@.len() && self.finite_y@[i],
        )
    }
}

fn finite_points<P>(projected: &ProjectedMap<P>) -> (finite: Vec<bool>)
    ensures
        finite@ == projected.finite(),
{
    let mut finite: Vec<bool> = Vec::new();
    let mut i: usize = 0;
    while i < projected.finite_x.len()
        invariant
            i <= projected.finite_x@.len(),
            finite@ == projected.finite().take(i as int),
        decreases projected.finite_x@.len() - i,
    {
        finite.push(
            projected.finite_x[i] && i < projected.finite_y.len() && projected.finite_y[i],
        );
        i = i + 1;
        assert(projected.finite().take(i as int) =~= projected.finite().take(i - 1).push(
            projected.finite()[i - 1],
        ));
    }
    assert(projected.finite().take(i as int) =~= projected.finite());
    finite
}

/// Whether marks say which points are below the ground at a level.
pub open spec fn marks_below<T, B: Fn(T, u16) -> bool>(
    pressures: Seq<T>,
    level: u16,
    below: B,
    marks: Seq<bool>,
) -> bool {
    &&& marks.len() == pressures.len()
    &&& forall|k: int|
        0 <= k < pressures.len() ==> call_ensures(below, (pressures[k], level), #[trigger] marks[k])
}

/// Which values of a map are blanked, if any.
pub open spec fn mask_view(ground: Option<BelowGround>) -> Option<Seq<bool>> {
    match ground {
        Some(ground) => Some(ground.mask@),
        None => None,
    }
}

/// The outlines of what is masked on a map.
pub open spec fn ring_view(ground: Option<BelowGround>) -> Seq<Seq<int>> {
    match ground {
        Some(ground) => masks::ring_views(ground.rings@),
        None => Seq::empty(),
    }
}

/// Whether what is masked on a map follows from the points below the ground. Nothing
/// is masked on a grid of less than two rows or columns, on one that the projected
/// points do not match, or where no point is below the ground.
pub open spec fn masks_marked<P>(
    marks: Seq<bool>,
    nx: int,
    ny: int,
    projected: ProjectedMap<P>,
    ground: Option<BelowGround>,
) -> bool {
    let masked = nx >= 2 && ny >= 2 && projected.finite_x@.len() == nx * ny
        && projected.finite_y@.len() == nx * ny && marks.contains(true);
    &&& (ground is Some) == masked
    &&& masked ==> masks::dilated(marks, nx, ny, mask_view(ground)->0)
    &&& masked ==> ring_view(ground) == masks::rings(
        mask_view(ground)->0,
        nx,
        ny - 1,
        projected.finite(),
    )
}

/// Whether what is masked on a map is what lies below the ground at a level, given
/// the surface pressure.
pub open spec fn masks_at_level<T, P, B: Fn(T, u16) -> bool>(
    pressure: MapField<T>,
    level: u16,
    projected: ProjectedMap<P>,
    below: B,
    ground: Option<BelowGround>,
) -> bool {
    exists|marks: Seq<bool>|
        #[trigger] marks_below(pressure.values@, level, below, marks) && masks_marked(
            marks,
            pressure.nx as int,
            pressure.ny as int,
            projected,
            ground,
        )
}

/// Whether what is masked on a map is what lies below the ground at the level of its
/// field, as far as it has one and the surface pressure was read.
pub open spec fn masks_below<T, P, B: Fn(T, u16) -> bool>(
    selector: FieldSelector,
    extracted: Seq<(FieldSelector, MapField<T>)>,
    projected: ProjectedMap<P>,
    below: B,
    ground: Option<BelowGround>,
) -> bool {
    match styling::below_ground(selector, extracted) {
        None => ground is None,
        Some((level, at)) => masks_at_level(extracted[at].1, level, projected, below, ground),
    }
}

/// What is masked below the ground on a map of a field.
pub fn below_ground_overlay<T: Copy, P, B: Fn(T, u16) -> bool>(
    selector: FieldSelector,
    extracted: &[(FieldSelector, MapField<T>)],
    projected: &ProjectedMap<P>,
    below: &B,
) -> (ground: Option<BelowGround>)
    requires
        all_sized(extracted@),
        forall|value: T, level: u16| #[trigger] call_requires(*below, (value, level)),
    ensures
        masks_below(selector, extracted@, *projected, *below, ground),
{
    let level: u16 = match selector.vertical {
        VerticalSelector::IsobaricHpa(level) => level,
        _ => {
            return None;
        },
    };
    let at: usize = match find_field(extracted, FieldSelector::surface(CanonicalField::Pressure)) {
        Some(at) => at,
        None => {
            return None;
        },
    };
    let field = &extracted[at].1;
    let mut marks: Vec<bool> = Vec::new();
    let mut i: usize = 0;
    while i < field.values.len()
        invariant
            i <= field.values@.len(),
            marks@.len() == i,
            forall|value: T, l: u16| #[trigger] call_requires(*below, (value, l)),
            forall|k: int|
                0 <= k < i ==> call_ensures(
                    *below,
                    (field.values@[k], level),
                    #[trigger] marks@[k],
                ),
        decreases field.values@.len() - i,
    {
        marks.push(below(field.values[i], level));
        i = i + 1;
    }
    proof {
        assert(extracted@[at as int].1.sized());
    }
    let finite = finite_points(projected);
    let ground = below_ground_mask(
        marks.as_slice(),
        field.nx,
        field.ny,
        projected.finite_x.len(),
        projected.finite_y.len(),
        finite.as_slice(),
    );
    proof {
        assert(masks_marked(marks@, field.nx as int, field.ny as int, *projected, ground));
        assert(styling::below_ground(selector, extracted@) == Some((level, at as int)));
        assert(marks_below(field.values@, level, *below, marks@));
        assert(masks_at_level(extracted@[at as int].1, level, *projected, *below, ground));
    }
    ground
}

/// Values of a map with those below the ground blanked. Values of another number
/// than those of the mask are left alone.
pub open spec fn blanked<T>(ground: Option<BelowGround>, blank: T, values: Seq<T>) -> Seq<T> {
    match ground {
        Some(ground) => if ground.mask@.len() == values.len() {
            Seq::new(
                values.len(),
                |i: int|
                    if ground.mask@[i] {
                        blank
                    } else {
                        values[i]
                    },
            )
        } else {
            values
        },
        None => values,
    }
}

fn blank_below<T: Copy>(ground: &Option<BelowGround>, blank: T, values: &mut Vec<T>)
    ensures
        final(values)@ == blanked(*ground, blank, old(values)@),
{
    match ground {
        Some(ground) => apply_below_ground_mask(ground.mask.as_slice(), values, blank),
        None => {},
    }
}

/// What the colours of a fill are chosen by: the spread of its values, or the recipe.
#[derive(Debug, Clone, Copy, PartialEq, Eq, Structural)]
pub enum ScaleSource {
    Spread,
    Recipe,
}

/// How the levels of a colour scale are multiplied: so many for each one, in scales
/// that have at least so many.
#[derive(Debug, Clone, Copy, PartialEq, Eq, Structural)]
pub struct LevelDensity {
    pub multiplier: usize,
    pub min_source_level_count: usize,
}

/// A fill that is drawn as shapes: the values that the shapes go round, and how the
/// levels of the scale are multiplied, if they are.
#[derive(Debug)]
pub struct ProjectedFill<T> {
    pub values: Vec<T>,
    pub density: Option<LevelDensity>,
}

/// What is drawn for one map. A map of lines alone has no colour scale. The colours of a
/// spread follow its values as they were filled in, whatever is masked later. The outlines
/// of what is masked below the ground are lists of points of the grid. A fill that is
/// drawn as shapes leaves nothing for the raster to show.
pub struct RenderRequest<T, Y, P> {
    pub overlay_only: bool,
    pub visual_mode: ProductVisualMode,
    pub field: RenderField<T>,
    pub scale: Option<ScaleSource>,
    pub spread_values: Option<Vec<T>>,
    pub raster: RasterSampleMode,
    pub controls: RenderControls,
    pub title: String,
    pub subtitles: Option<(String, String)>,
    pub width: u32,
    pub height: u32,
    pub projected: P,
    pub contours: Option<ContourLayer<T, Y>>,
    pub streamlines: Option<StreamlineLayer<T>>,
    pub barbs: Option<BarbLayer<T>>,
    pub below_ground: Vec<Vec<usize>>,
    pub projected_fill: Option<ProjectedFill<T>>,
}

/// Which field the contours of a map are drawn from: the filled one on a map of lines
/// alone, or else that of the recipe, if it was read.
pub open spec fn contour_source<T>(
    recipe: PlotRecipe,
    selector: FieldSelector,
    field_at: int,
    extracted: Seq<(FieldSelector, MapField<T>)>,
) -> Option<(FieldSelector, int)> {
    if styling::lines_only(selector, recipe.contours is Some) {
        Some((selector, field_at))
    } else {
        match styling::contours_at(recipe, extracted) {
            Some(at) => Some((recipe.contours->0->0, at)),
            None => None,
        }
    }
}

/// Whether a map has the contours of its recipe, and the cache was asked for them.
pub open spec fn has_contours<
    T,
    Y,
    C: Fn(UnitConvert, T) -> T,
    S: Fn(T, T) -> T,
    K: Fn(T) -> T,
    M: Fn(Vec<T>) -> T,
    L: Fn(FieldSelector, Vec<T>) -> Option<ContourLayer<T, Y>>,
    B: Fn(T, u16) -> bool,
    R: Fn(usize, u32) -> usize,
    H: Fn(usize) -> usize,
    G: Fn(T, T) -> bool,
    GR: Fn(T, T) -> bool,
    GC: Fn(T, T) -> bool,
    V: Fn(T, T, BoundsBits) -> bool,
>(
    source: Option<(FieldSelector, int)>,
    extracted: Seq<(FieldSelector, MapField<T>)>,
    passes: usize,
    rules: LayerRules<C, S, K, M, L, B, R, H, G, GR, GC, V>,
    before: DrawCaches<T, Y>,
    after: DrawCaches<T, Y>,
    layer: Option<ContourLayer<T, Y>>,
) -> bool {
    match source {
        None => layer is None && unchanged(before.contours, after.contours),
        Some((selector, at)) => {
            let field = extracted[at].1;
            let key = contour_key(selector, field);
            &&& looked_up(
                before.contours,
                after.contours,
                key,
                |made: Option<ContourLayer<T, Y>>|
                    made_contours(selector, field, passes, rules.mean, rules.lines, made),
            )
            &&& contour_view(layer) == contour_view(after.contours.layer(key)->0)
        },
    }
}

/// The contours of a map, if it has any.
pub fn build_contour_layers<
    T: Copy,
    Y: Copy,
    C: Fn(UnitConvert, T) -> T,
    S: Fn(T, T) -> T,
    K: Fn(T) -> T,
    M: Fn(Vec<T>) -> T,
    L: Fn(FieldSelector, Vec<T>) -> Option<ContourLayer<T, Y>>,
    B: Fn(T, u16) -> bool,
    R: Fn(usize, u32) -> usize,
    H: Fn(usize) -> usize,
    G: Fn(T, T) -> bool,
    GR: Fn(T, T) -> bool,
    GC: Fn(T, T) -> bool,
    V: Fn(T, T, BoundsBits) -> bool,
>(
    recipe: &PlotRecipe,
    selector: FieldSelector,
    field_at: usize,
    extracted: &[(FieldSelector, MapField<T>)],
    passes: usize,
    rules: &LayerRules<C, S, K, M, L, B, R, H, G, GR, GC, V>,
    caches: &mut DrawCaches<T, Y>,
) -> (layer: Option<ContourLayer<T, Y>>)
    requires
        callable::<T, Y, C, S, K, M, L, B, R, H, G, GR, GC, V>(*rules),
        field_at < extracted@.len(),
    ensures
        has_contours(
            contour_source(*recipe, selector, field_at as int, extracted@),
            extracted@,
            passes,
            *rules,
            *old(caches),
            *final(caches),
            layer,
        ),
        final(caches).streamlines == old(caches).streamlines,
        final(caches).barbs == old(caches).barbs,
        final(caches).strides == old(caches).strides,
{
    if should_render_overlay_only(selector, recipe.contours.is_some()) {
        return cached_contour_layer(
            selector,
            &extracted[field_at].1,
            passes,
            &rules.mean,
            &rules.lines,
            &mut caches.contours,
        );
    }
    match recipe.contours {
        Some(Some(wanted)) => match find_field(extracted, wanted) {
            Some(at) => cached_contour_layer(
                wanted,
                &extracted[at].1,
                passes,
                &rules.mean,
                &rules.lines,
                &mut caches.contours,
            ),
            None => None,
        },
        _ => None,
    }
}

/// Whether a request is the one of a map before what lies below the ground is
/// masked, and the caches were asked for its layers.
pub open spec fn drafted<
    T,
    Y,
    P,
    C: Fn(UnitConvert, T) -> T,
    S: Fn(T, T) -> T,
    K: Fn(T) -> T,
    M: Fn(Vec<T>) -> T,
    L: Fn(FieldSelector, Vec<T>) -> Option<ContourLayer<T, Y>>,
    B: Fn(T, u16) -> bool,
    R: Fn(usize, u32) -> usize,
    H: Fn(usize) -> usize,
    G: Fn(T, T) -> bool,
    GR: Fn(T, T) -> bool,
    GC: Fn(T, T) -> bool,
    V: Fn(T, T, BoundsBits) -> bool,
>(
    recipe: PlotRecipe,
    selector: FieldSelector,
    field_at: int,
    extracted: Seq<(FieldSelector, MapField<T>)>,
    projected: ProjectedMap<P>,
    frame: MapFrame,
    size: (u32, u32),
    settings: MapSettings<T>,
    rules: LayerRules<C, S, K, M, L, B, R, H, G, GR, GC, V>,
    before: DrawCaches<T, Y>,
    after: DrawCaches<T, Y>,
    draft: RenderRequest<T, Y, P>,
) -> bool {
    let lines_only = styling::lines_only(selector, recipe.contours is Some);
    &&& draft.overlay_only == lines_only
    &&& draft.visual_mode == styling::recipe_mode(recipe, selector)
    &&& fills(
        recipe,
        selector,
        extracted[field_at].1,
        extracted,
        rules.apply,
        rules.speed,
        Ok::<RenderField<T>, WindSizes>(draft.field),
    )
    &&& draft.scale == (if lines_only {
        None
    } else if selector.spread() {
        Some(ScaleSource::Spread)
    } else {
        Some(ScaleSource::Recipe)
    })
    &&& spread_view(draft.spread_values) == (if !lines_only && selector.spread() {
        Some(draft.field.values@)
    } else {
        None
    })
    &&& draft.raster == settings.raster
    &&& draft.controls == styling::controls(recipe.style, selector)
    &&& draft.title@ == recipe.title@ + settings.title_suffix@
    &&& draft.subtitles is None
    &&& (draft.width, draft.height) == size
    &&& draft.projected == projected.handle
    &&& has_contours(
        contour_source(recipe, selector, field_at, extracted),
        extracted,
        settings.smoothing_passes,
        rules,
        before,
        after,
        draft.contours,
    )
    &&& has_winds(
        recipe,
        extracted,
        frame,
        settings,
        rules,
        before,
        after,
        draft.streamlines,
        draft.barbs,
    )
    &&& draft.below_ground@.len() == 0
    &&& draft.projected_fill is None
}

/// Whether a map has the streamlines and then the barbs of its recipe.
pub open spec fn has_winds<
    T,
    Y,
    C: Fn(UnitConvert, T) -> T,
    S: Fn(T, T) -> T,
    K: Fn(T) -> T,
    M: Fn(Vec<T>) -> T,
    L: Fn(FieldSelector, Vec<T>) -> Option<ContourLayer<T, Y>>,
    B: Fn(T, u16) -> bool,
    R: Fn(usize, u32) -> usize,
    H: Fn(usize) -> usize,
    G: Fn(T, T) -> bool,
    GR: Fn(T, T) -> bool,
    GC: Fn(T, T) -> bool,
    V: Fn(T, T, BoundsBits) -> bool,
>(
    recipe: PlotRecipe,
    extracted: Seq<(FieldSelector, MapField<T>)>,
    frame: MapFrame,
    settings: MapSettings<T>,
    rules: LayerRules<C, S, K, M, L, B, R, H, G, GR, GC, V>,
    before: DrawCaches<T, Y>,
    after: DrawCaches<T, Y>,
    streamlines: Option<StreamlineLayer<T>>,
    barbs: Option<BarbLayer<T>>,
) -> bool {
    exists|between: DrawCaches<T, Y>|
        #[trigger] has_barbs(recipe, extracted, frame, settings, rules, between, after, barbs)
            && has_streamlines(
            recipe,
            extracted,
            frame,
            settings,
            rules,
            before,
            between,
            streamlines,
        ) && unchanged(before.barbs, between.barbs) && unchanged(
            between.streamlines,
            after.streamlines,
        )
}

/// Whether a request is a draft with what lies below the ground masked in its field,
/// its contours and its barbs. Streamlines are drawn everywhere.
pub open spec fn masked<T, Y, P>(
    draft: RenderRequest<T, Y, P>,
    ground: Option<BelowGround>,
    blank: T,
    request: RenderRequest<T, Y, P>,
) -> bool {
    &&& request.overlay_only == draft.overlay_only
    &&& request.visual_mode == draft.visual_mode
    &&& request.field.product@ == draft.field.product@
    &&& request.field.units@ == draft.field.units@
    &&& request.field.values@ == blanked(ground, blank, draft.field.values@)
    &&& request.scale == draft.scale
    &&& request.spread_values == draft.spread_values
    &&& request.raster == draft.raster
    &&& request.controls == draft.controls
    &&& request.title@ == draft.title@
    &&& request.subtitles == draft.subtitles
    &&& request.width == draft.width
    &&& request.height == draft.height
    &&& request.projected == draft.projected
    &&& contour_view(request.contours) == (match draft.contours {
        Some(layer) => Some((blanked(ground, blank, layer.data@), layer.style)),
        None => None,
    })
    &&& request.streamlines == draft.streamlines
    &&& match (draft.barbs, request.barbs) {
        (Some(plain), Some(layer)) => layer@ == (WindView {
            u: blanked(ground, blank, plain.u@),
            v: blanked(ground, blank, plain.v@),
            stride_x: plain.stride_x,
            stride_y: plain.stride_y,
        }),
        (None, None) => true,
        _ => false,
    }
    &&& masks::ring_views(request.below_ground@) == ring_view(ground)
    &&& request.projected_fill == draft.projected_fill
}

fn mask_request<T: Copy, Y: Copy, P: Copy>(
    draft: RenderRequest<T, Y, P>,
    ground: Option<BelowGround>,
    blank: T,
) -> (request: RenderRequest<T, Y, P>)
    requires
        draft.below_ground@.len() == 0,
    ensures
        masked(draft, ground, blank, request),
{
    let ghost given = draft;
    let ghost seen = ground;
    let RenderRequest {
        overlay_only,
        visual_mode,
        field,
        scale,
        spread_values,
        raster,
        controls,
        title,
        subtitles,
        width,
        height,
        projected,
        contours,
        streamlines,
        barbs,
        below_ground: _,
        projected_fill,
    } = draft;
    let mut values = field.values;
    blank_below(&ground, blank, &mut values);
    let contours = match contours {
        Some(layer) => {
            let mut data = layer.data;
            blank_below(&ground, blank, &mut data);
            Some(ContourLayer { data, style: layer.style })
        },
        None => None,
    };
    let barbs = match barbs {
        Some(layer) => {
            let mut u = layer.u;
            let mut v = layer.v;
            blank_below(&ground, blank, &mut u);
            blank_below(&ground, blank, &mut v);
            Some(BarbLayer { u, v, stride_x: layer.stride_x, stride_y: layer.stride_y })
        },
        None => None,
    };
    let rings: Vec<Vec<usize>> = match ground {
        Some(ground) => ground.rings,
        None => Vec::new(),
    };
    proof {
        assert(masks::ring_views(rings@) =~= ring_view(seen));
    }
    RenderRequest {
        overlay_only,
        visual_mode,
        field: RenderField { product: field.product, units: field.units, values },
        scale,
        spread_values,
        raster,
        controls,
        title,
        subtitles,
        width,
        height,
        projected,
        contours,
        streamlines,
        barbs,
        below_ground: rings,
        projected_fill,
    }
}

/// Whether fills are drawn as shapes: in one way of drawing contours, and on no map of
/// lines alone.
pub open spec fn shapes_fill(overlay_only: bool, contour_mode: NativeContourRenderMode) -> bool {
    !overlay_only && contour_mode is ExperimentalAllProjected
}

/// How the levels of a fill's scale are multiplied: not at all by one or by nothing.
pub open spec fn level_density(multiplier: usize) -> Option<LevelDensity> {
    if multiplier <= 1 {
        None
    } else {
        Some(LevelDensity { multiplier, min_source_level_count: 2 })
    }
}

/// How the levels of a fill's scale are multiplied. A multiplier of one or of nothing
/// leaves the scale alone.
pub fn native_fill_density(multiplier: usize) -> (density: Option<LevelDensity>)
    ensures
        density == level_density(multiplier),
{
    if multiplier <= 1 {
        None
    } else {
        Some(LevelDensity { multiplier, min_source_level_count: 2 })
    }
}

/// The values that the colours of a spread follow, if a map shows one.
pub open spec fn spread_view<T>(values: Option<Vec<T>>) -> Option<Seq<T>> {
    match values {
        Some(values) => Some(values@),
        None => None,
    }
}

/// What a fill that is drawn as shapes goes round, and how its levels are multiplied.
pub open spec fn fill_view<T>(fill: Option<ProjectedFill<T>>) -> Option<
    (Seq<T>, Option<LevelDensity>),
> {
    match fill {
        Some(fill) => Some((fill.values@, fill.density)),
        None => None,
    }
}

/// Whether a request is another one with its fill drawn as shapes, where fills are. The
/// shapes go round the values that the raster showed, and every value of the raster is
/// blank once they are drawn.
pub open spec fn shaped<T, Y, P>(
    plain: RenderRequest<T, Y, P>,
    contour_mode: NativeContourRenderMode,
    multiplier: usize,
    blank: T,
    request: RenderRequest<T, Y, P>,
) -> bool {
    let shapes = shapes_fill(plain.overlay_only, contour_mode);
    &&& request.overlay_only == plain.overlay_only
    &&& request.visual_mode == plain.visual_mode
    &&& request.field.product@ == plain.field.product@
    &&& request.field.units@ == plain.field.units@
    &&& request.field.values@ == (if shapes {
        Seq::new(plain.field.values@.len(), |i: int| blank)
    } else {
        plain.field.values@
    })
    &&& request.scale == plain.scale
    &&& request.spread_values == plain.spread_values
    &&& request.raster == plain.raster
    &&& request.controls == plain.controls
    &&& request.title@ == plain.title@
    &&& request.subtitles == plain.subtitles
    &&& request.width == plain.width
    &&& request.height == plain.height
    &&& request.projected == plain.projected
    &&& request.contours == plain.contours
    &&& request.streamlines == plain.streamlines
    &&& request.barbs == plain.barbs
    &&& request.below_ground == plain.below_ground
    &&& fill_view(request.projected_fill) == (if shapes {
        Some((plain.field.values@, level_density(multiplier)))
    } else {
        fill_view(plain.projected_fill)
    })
}

/// Draws the fill of a map as shapes, where fills are drawn so.
pub fn apply_projected_fill<T: Copy, Y, P>(
    plain: RenderRequest<T, Y, P>,
    contour_mode: NativeContourRenderMode,
    multiplier: usize,
    blank: T,
) -> (request: RenderRequest<T, Y, P>)
    ensures
        shaped(plain, contour_mode, multiplier, blank, request),
{
    if plain.overlay_only || !matches!(
        contour_mode,
        NativeContourRenderMode::ExperimentalAllProjected
    ) {
        return plain;
    }
    let RenderField { product, units, values } = plain.field;
    let mut raster: Vec<T> = Vec::new();
    let mut i: usize = 0;
    while i < values.len()
        invariant
            i <= values@.len(),
            raster@ == Seq::new(i as nat, |k: int| blank),
        decreases values@.len() - i,
    {
        raster.push(blank);
        i = i + 1;
        proof {
            assert(raster@ =~= Seq::new(i as nat, |k: int| blank));
        }
    }
    RenderRequest {
        field: RenderField { product, units, values: raster },
        projected_fill: Some(ProjectedFill { values, density: native_fill_density(multiplier) }),
        ..plain
    }
}

/// Whether a request is the one of a map: its draft, with what lies below the ground
/// masked unless the map is one of lines alone, and then with its fill drawn as shapes,
/// where fills are.
pub open spec fn composed<
    T,
    Y,
    P,
    C: Fn(UnitConvert, T) -> T,
    S: Fn(T, T) -> T,
    K: Fn(T) -> T,
    M: Fn(Vec<T>) -> T,
    L: Fn(FieldSelector, Vec<T>) -> Option<ContourLayer<T, Y>>,
    B: Fn(T, u16) -> bool,
    R: Fn(usize, u32) -> usize,
    H: Fn(usize) -> usize,
    G: Fn(T, T) -> bool,
    GR: Fn(T, T) -> bool,
    GC: Fn(T, T) -> bool,
    V: Fn(T, T, BoundsBits) -> bool,
>(
    recipe: PlotRecipe,
    selector: FieldSelector,
    field_at: int,
    extracted: Seq<(FieldSelector, MapField<T>)>,
    projected: ProjectedMap<P>,
    frame: MapFrame,
    size: (u32, u32),
    settings: MapSettings<T>,
    rules: LayerRules<C, S, K, M, L, B, R, H, G, GR, GC, V>,
    before: DrawCaches<T, Y>,
    after: DrawCaches<T, Y>,
    request: RenderRequest<T, Y, P>,
) -> bool {
    exists|
        draft: RenderRequest<T, Y, P>,
        ground: Option<BelowGround>,
        plain: RenderRequest<T, Y, P>,
    |
        #[trigger] masked(draft, ground, settings.blank, plain) && #[trigger] shaped(
            plain,
            settings.contour_mode,
            settings.level_multiplier,
            settings.blank,
            request,
        ) && drafted(
            recipe,
            selector,
            field_at,
            extracted,
            projected,
            frame,
            size,
            settings,
            rules,
            before,
            after,
            draft,
        ) && if draft.overlay_only {
            ground is None
        } else {
            masks_below(selector, extracted, projected, rules.below, ground)
        }
}

/// Whether two sets of caches hold the same layers.
pub open spec fn all_unchanged<T, Y>(before: DrawCaches<T, Y>, after: DrawCaches<T, Y>) -> bool {
    &&& unchanged(before.contours, after.contours)
    &&& unchanged(before.streamlines, after.streamlines)
    &&& unchanged(before.barbs, after.barbs)
    &&& unchanged(before.strides, after.strides)
}

/// Builds the request of the map of one field. It fails only where the map is filled
/// with the speed of a wind whose components differ in size, and then no layer is
/// made.
pub fn build_render_request<
    T: Copy,
    Y: Copy,
    P: Copy,
    C: Fn(UnitConvert, T) -> T,
    S: Fn(T, T) -> T,
    K: Fn(T) -> T,
    M: Fn(Vec<T>) -> T,
    L: Fn(FieldSelector, Vec<T>) -> Option<ContourLayer<T, Y>>,
    B: Fn(T, u16) -> bool,
    R: Fn(usize, u32) -> usize,
    H: Fn(usize) -> usize,
    G: Fn(T, T) -> bool,
    GR: Fn(T, T) -> bool,
    GC: Fn(T, T) -> bool,
    V: Fn(T, T, BoundsBits) -> bool,
>(
    recipe: &PlotRecipe,
    selector: FieldSelector,
    field_at: usize,
    extracted: &[(FieldSelector, MapField<T>)],
    projected: &ProjectedMap<P>,
    frame: MapFrame,
    size: (u32, u32),
    settings: &MapSettings<T>,
    rules: &LayerRules<C, S, K, M, L, B, R, H, G, GR, GC, V>,
    caches: &mut DrawCaches<T, Y>,
) -> (request: Result<RenderRequest<T, Y, P>, WindSizes>)
    requires
        callable::<T, Y, C, S, K, M, L, B, R, H, G, GR, GC, V>(*rules),
        field_at < extracted@.len(),
        all_sized(extracted@),
    ensures
        match request {
            Ok(request) => composed(
                *recipe,
                selector,
                field_at as int,
                extracted@,
                *projected,
                frame,
                size,
                *settings,
                *rules,
                *old(caches),
                *final(caches),
                request,
            ),
            Err(sizes) => all_unchanged(*old(caches), *final(caches)) && fills(
                *recipe,
                selector,
                extracted@[field_at as int].1,
                extracted@,
                rules.apply,
                rules.speed,
                Err::<RenderField<T>, WindSizes>(sizes),
            ),
        },
{
    let ghost before = *caches;
    let filled = render_filled_field(
        recipe,
        selector,
        &extracted[field_at].1,
        extracted,
        &rules.apply,
        &rules.speed,
    );
    let field = match filled {
        Ok(field) => field,
        Err(sizes) => {
            return Err(sizes);
        },
    };
    let overlay_only = should_render_overlay_only(selector, recipe.contours.is_some());
    let visual_mode = visual_mode_for_direct_recipe(recipe, selector, overlay_only);
    let scale: Option<ScaleSource> = if overlay_only {
        None
    } else if selector_is_spread_product(selector) {
        Some(ScaleSource::Spread)
    } else {
        Some(ScaleSource::Recipe)
    };
    let spread_values: Option<Vec<T>> = match scale {
        Some(ScaleSource::Spread) => Some(copy_values(field.values.as_slice())),
        _ => None,
    };
    let contours = build_contour_layers(
        recipe,
        selector,
        field_at,
        extracted,
        settings.smoothing_passes,
        rules,
        caches,
    );
    let ghost contoured = *caches;
    let streamlines = build_streamline_layers(recipe, extracted, frame, settings, rules, caches);
    let ghost between = *caches;
    let barbs = build_barb_layers(recipe, extracted, frame, settings, rules, caches);
    let draft = RenderRequest {
        overlay_only,
        visual_mode,
        field,
        scale,
        spread_values,
        raster: settings.raster,
        controls: direct_recipe_render_controls(recipe, selector),
        title: recipe.title.clone().concat(settings.title_suffix.as_str()),
        subtitles: None,
        width: size.0,
        height: size.1,
        projected: projected.handle,
        contours,
        streamlines,
        barbs,
        below_ground: Vec::new(),
        projected_fill: None,
    };
    proof {
        assert(has_streamlines(
            *recipe,
            extracted@,
            frame,
            *settings,
            *rules,
            before,
            between,
            streamlines,
        ));
        assert(has_winds(
            *recipe,
            extracted@,
            frame,
            *settings,
            *rules,
            before,
            *caches,
            streamlines,
            barbs,
        ));
        assert(drafted(
            *recipe,
            selector,
            field_at as int,
            extracted@,
            *projected,
            frame,
            size,
            *settings,
            *rules,
            before,
            *caches,
            draft,
        ));
    }
    let ground: Option<BelowGround> = if overlay_only {
        None
    } else {
        below_ground_overlay(selector, extracted, projected, &rules.below)
    };
    let ghost seen = ground;
    let ghost plain = draft;
    let masked_map = mask_request(draft, ground, settings.blank);
    let ghost shown = masked_map;
    let request = apply_projected_fill(
        masked_map,
        settings.contour_mode,
        settings.level_multiplier,
        settings.blank,
    );
    proof {
        assert(masked(plain, seen, settings.blank, shown));
        assert(shaped(
            shown,
            settings.contour_mode,
            settings.level_multiplier,
            settings.blank,
            request,
        ));
    }
    Ok(request)
}

/// On a masked map every point below the ground is blank, and every other point
/// shows what it showed before.
pub proof fn law_below_ground_is_blank<T, Y, P>(
    draft: RenderRequest<T, Y, P>,
    ground: BelowGround,
    blank: T,
    request: RenderRequest<T, Y, P>,
    i: int,
)
    requires
        masked(draft, Some(ground), blank, request),
        ground.mask@.len() == draft.field.values@.len(),
        0 <= i < ground.mask@.len(),
    ensures
        request.field.values@.len() == draft.field.values@.len(),
        ground.mask@[i] ==> request.field.values@[i] == blank,
        !ground.mask@[i] ==> request.field.values@[i] == draft.field.values@[i],
{
}

} // verus!
