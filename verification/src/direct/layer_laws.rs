//! Which of the fields that were read the layers of a map show.
use crate::direct::recipe;
use crate::direct::recipe::{CanonicalField, FieldProduct, FieldSelector, PlotRecipe, VerticalSelector};
use crate::direct::masks::BelowGround;
use crate::direct::request;
use crate::direct::request::{
    BarbLayer, BoundsBits, ContourLayer, DrawCaches, LayerRules, MapField, MapFrame, MapSettings,
    ProjectedMap, StreamlineLayer, WindSizes,
};
use crate::direct::styling::{RenderField, UnitConvert};
use crate::direct::wind::LayerKey;
use vstd::prelude::*;

verus! {

/// Whether a field is the first that was read for a selector.
pub open spec fn is_first_read<F>(
    extracted: Seq<(FieldSelector, F)>,
    selector: FieldSelector,
    at: int,
) -> bool {
    &&& 0 <= at < extracted.len()
    &&& extracted[at].0 == selector
    &&& forall|k: int| 0 <= k < at ==> (#[trigger] extracted[k]).0 != selector
}

proof fn lemma_first_read_is_found<F>(
    extracted: Seq<(FieldSelector, F)>,
    selector: FieldSelector,
    at: int,
)
    requires
        is_first_read(extracted, selector, at),
    ensures
        recipe::position(extracted, selector) == Some(at),
{
    recipe::lemma_position(extracted, selector);
    match recipe::position(extracted, selector) {
        Some(found) => {
            if found < at {
                assert(extracted[found].0 != selector);
            }
            if at < found {
                assert(extracted[at].0 != selector);
            }
        },
        None => {
            assert(extracted[at].0 != selector);
        },
    }
}

/// Whether no layer was drawn yet.
pub open spec fn nothing_drawn<T, Y>(caches: DrawCaches<T, Y>) -> bool {
    &&& forall|key: LayerKey| (#[trigger] caches.contours.layer(key)) is None
    &&& forall|key: LayerKey| (#[trigger] caches.streamlines.layer(key)) is None
    &&& forall|key: LayerKey| (#[trigger] caches.barbs.layer(key)) is None
    &&& forall|key: LayerKey| (#[trigger] caches.strides.layer(key)) is None
}

/// Whether values are those of a field, each in knots.
pub open spec fn is_in_knots<T, K: Fn(T) -> T>(
    shown: Seq<T>,
    field: MapField<T>,
    knots: K,
) -> bool {
    &&& shown.len() == field.values@.len()
    &&& forall|k: int|
        0 <= k < shown.len() ==> call_ensures(knots, (field.values@[k],), #[trigger] shown[k])
}

/// The barbs and streamlines of a map show the wind that its recipe binds: the first
/// component is that of the field read for the first selector, the second that of the
/// second, both in knots. Barbs stand between two and a hundred and a quarter cells apart,
/// streamlines begin no farther apart than the barbs may stand.
pub proof fn law_wind_layers_show_the_winds_of_the_recipe<
    T,
    Y,
    C: Fn(UnitConvert, T) -> T,
    S: Fn(T, T) -> T,
    K: Fn(T) -> T,
    M: Fn(Vec<T>) -> T,
    L: Fn(FieldSelector, Vec<T>) -> Option<ContourLayer<T, Y>>,
    B: Fn(T, u16) -> bool,
    R: Fn(usize, u32) -> usize,
    H: Fn(usize) -> usize,
    G: Fn(T, T) -> bool,
    GR: Fn(T, T) -> bool,
    GC: Fn(T, T) -> bool,
    V: Fn(T, T, BoundsBits) -> bool,
>(
    recipe: PlotRecipe,
    u: FieldSelector,
    v: FieldSelector,
    u_at: int,
    v_at: int,
    extracted: Seq<(FieldSelector, MapField<T>)>,
    frame: MapFrame,
    settings: MapSettings<T>,
    rules: LayerRules<C, S, K, M, L, B, R, H, G, GR, GC, V>,
    before: DrawCaches<T, Y>,
    after: DrawCaches<T, Y>,
    streamlines: Option<StreamlineLayer<T>>,
    barbs: Option<BarbLayer<T>>,
)
    requires
        recipe.barbs_u == Some(Some(u)),
        recipe.barbs_v == Some(Some(v)),
        is_first_read(extracted, u, u_at),
        is_first_read(extracted, v, v_at),
        nothing_drawn(before),
        request::has_winds(
            recipe,
            extracted,
            frame,
            settings,
            rules,
            before,
            after,
            streamlines,
            barbs,
        ),
    ensures
        barbs is Some,
        is_in_knots(barbs->Some_0.u@, extracted[u_at].1, rules.knots),
        is_in_knots(barbs->Some_0.v@, extracted[v_at].1, rules.knots),
        2 <= barbs->Some_0.stride_x <= 128,
        2 <= barbs->Some_0.stride_y <= 96,
        streamlines matches Some(layer) ==> {
            &&& is_in_knots(layer.u@, extracted[u_at].1, rules.knots)
            &&& is_in_knots(layer.v@, extracted[v_at].1, rules.knots)
            &&& 2 <= layer.stride_x <= 96
            &&& 2 <= layer.stride_y <= 64
        },
        settings.streamlines is Enabled ==> streamlines is Some,
        settings.streamlines is Disabled ==> streamlines is None,
{
    lemma_first_read_is_found(extracted, u, u_at);
    lemma_first_read_is_found(extracted, v, v_at);
    let key = request::wind_key((u, v), frame.bounds);
    let between = choose|between: DrawCaches<T, Y>|
        #[trigger] request::has_barbs(
            recipe,
            extracted,
            frame,
            settings,
            rules,
            between,
            after,
            barbs,
        ) && request::has_streamlines(
            recipe,
            extracted,
            frame,
            settings,
            rules,
            before,
            between,
            streamlines,
        ) && request::unchanged(before.barbs, between.barbs) && request::unchanged(
            between.streamlines,
            after.streamlines,
        );
    assert(before.barbs.layer(key) is None);
    assert(between.barbs.layer(key) is None);
    assert(before.streamlines.layer(key) is None);
    assert(before.strides.layer(key) is None);
}

/// A map of sea-level pressure with winds, or of heights, is filled with the speed of the
/// wind that its recipe binds, in knots; any other map is filled with its own field.
pub proof fn law_maps_are_filled_with_their_own_field_or_wind<
    T,
    C: Fn(UnitConvert, T) -> T,
    S: Fn(T, T) -> T,
>(
    recipe: PlotRecipe,
    selector: FieldSelector,
    field: MapField<T>,
    u: FieldSelector,
    v: FieldSelector,
    u_at: int,
    v_at: int,
    extracted: Seq<(FieldSelector, MapField<T>)>,
    apply: C,
    speed: S,
    filled: RenderField<T>,
)
    requires
        recipe.barbs_u == Some(Some(u)),
        recipe.barbs_v == Some(Some(v)),
        is_first_read(extracted, u, u_at),
        is_first_read(extracted, v, v_at),
        request::fills(
            recipe,
            selector,
            field,
            extracted,
            apply,
            speed,
            Ok::<RenderField<T>, WindSizes>(filled),
        ),
    ensures
        recipe.slug@ == "mslp_10m_winds"@ || recipe.slug@ == "gefs_avg_mslp_10m_winds"@ || (
        recipe.style is WeatherHeight && selector.field is GeopotentialHeight) ==> {
            &&& filled.units@ == "kt"@
            &&& filled.values@.len() == extracted[u_at].1.values@.len()
            &&& forall|k: int|
                0 <= k < filled.values@.len() ==> call_ensures(
                    speed,
                    (extracted[u_at].1.values@[k], extracted[v_at].1.values@[k]),
                    #[trigger] filled.values@[k],
                )
        },
        !(recipe.slug@ == "mslp_10m_winds"@ || recipe.slug@ == "gefs_avg_mslp_10m_winds"@ || (
        recipe.style is WeatherHeight && selector.field is GeopotentialHeight)) ==> {
            &&& filled.product@ == field.product@
            &&& filled.values@.len() == field.values@.len()
        },
{
    lemma_first_read_is_found(extracted, u, u_at);
    lemma_first_read_is_found(extracted, v, v_at);
}

/// Whether lines come from a field: the one that was read for the recipe's contours, or the
/// map's own where it is one of heights and the recipe has no contours.
pub open spec fn lines_come_from<F>(
    recipe: PlotRecipe,
    selector: FieldSelector,
    field_at: int,
    extracted: Seq<(FieldSelector, F)>,
    contour: FieldSelector,
    at: int,
) -> bool {
    ||| recipe.contours == Some(Some(contour)) && is_first_read(extracted, contour, at)
    ||| recipe.contours is None && selector.field is GeopotentialHeight && contour == selector && at
        == field_at
}

/// Contours are drawn from the field that was read for the recipe's contour selector, and,
/// but for sea-level pressure, from its values as they are. A map of lines alone draws
/// them from its own field.
pub proof fn law_contours_are_drawn_from_the_field_of_the_recipe<
    T,
    Y,
    C: Fn(UnitConvert, T) -> T,
    S: Fn(T, T) -> T,
    K: Fn(T) -> T,
    M: Fn(Vec<T>) -> T,
    L: Fn(FieldSelector, Vec<T>) -> Option<ContourLayer<T, Y>>,
    B: Fn(T, u16) -> bool,
    R: Fn(usize, u32) -> usize,
    H: Fn(usize) -> usize,
    G: Fn(T, T) -> bool,
    GR: Fn(T, T) -> bool,
    GC: Fn(T, T) -> bool,
    V: Fn(T, T, BoundsBits) -> bool,
>(
    recipe: PlotRecipe,
    selector: FieldSelector,
    field_at: int,
    contour: FieldSelector,
    at: int,
    extracted: Seq<(FieldSelector, MapField<T>)>,
    passes: usize,
    rules: LayerRules<C, S, K, M, L, B, R, H, G, GR, GC, V>,
    before: DrawCaches<T, Y>,
    after: DrawCaches<T, Y>,
    layer: Option<ContourLayer<T, Y>>,
) -> (values: Vec<T>)
    requires
        nothing_drawn(before),
        0 <= field_at < extracted.len(),
        lines_come_from(recipe, selector, field_at, extracted, contour, at),
        request::has_contours(
            request::contour_source(recipe, selector, field_at, extracted),
            extracted,
            passes,
            rules,
            before,
            after,
            layer,
        ),
    ensures
        exists|styled: Option<ContourLayer<T, Y>>|
            #[trigger] call_ensures(rules.lines, (contour, values), styled)
                && request::contour_view(styled) == request::contour_view(layer),
        !(contour.field is PressureReducedToMeanSeaLevel) || passes == 0 ==> values@
            == extracted[at].1.values@,
{
    if recipe.contours is Some {
        lemma_first_read_is_found(extracted, contour, at);
    }
    let field = extracted[at].1;
    let key = request::contour_key(contour, field);
    assert(before.contours.layer(key) is None);
    let made = after.contours.layer(key)->0;
    assert(request::made_contours(contour, field, passes, rules.mean, rules.lines, made));
    let values = choose|values: Vec<T>|
        #[trigger] call_ensures(rules.lines, (contour, values), made) && request::contoured(
            contour,
            field,
            passes,
            rules.mean,
            values@,
        );
    values
}

/// A recipe without contours draws none, unless it is a map of lines alone.
pub proof fn law_no_contours_without_a_contour_field<
    T,
    Y,
    C: Fn(UnitConvert, T) -> T,
    S: Fn(T, T) -> T,
    K: Fn(T) -> T,
    M: Fn(Vec<T>) -> T,
    L: Fn(FieldSelector, Vec<T>) -> Option<ContourLayer<T, Y>>,
    B: Fn(T, u16) -> bool,
    R: Fn(usize, u32) -> usize,
    H: Fn(usize) -> usize,
    G: Fn(T, T) -> bool,
    GR: Fn(T, T) -> bool,
    GC: Fn(T, T) -> bool,
    V: Fn(T, T, BoundsBits) -> bool,
>(
    recipe: PlotRecipe,
    selector: FieldSelector,
    field_at: int,
    extracted: Seq<(FieldSelector, MapField<T>)>,
    passes: usize,
    rules: LayerRules<C, S, K, M, L, B, R, H, G, GR, GC, V>,
    before: DrawCaches<T, Y>,
    after: DrawCaches<T, Y>,
    layer: Option<ContourLayer<T, Y>>,
)
    requires
        request::has_contours(
            request::contour_source(recipe, selector, field_at, extracted),
            extracted,
            passes,
            rules,
            before,
            after,
            layer,
        ),
        recipe.contours is None,
        !(selector.field is GeopotentialHeight),
    ensures
        layer is None,
{
}

/// A map on a pressure level is masked where the surface pressure that was read is less
/// than that of its own level, and a map elsewhere is not masked.
pub proof fn law_maps_are_masked_below_their_own_level<T, P, B: Fn(T, u16) -> bool>(
    selector: FieldSelector,
    extracted: Seq<(FieldSelector, MapField<T>)>,
    projected: ProjectedMap<P>,
    below: B,
    ground: Option<BelowGround>,
    at: int,
    k: int,
)
    requires
        request::masks_below(selector, extracted, projected, below, ground),
        is_first_read(
            extracted,
            (FieldSelector {
                field: CanonicalField::Pressure,
                vertical: VerticalSelector::Surface,
                product: FieldProduct::Deterministic,
            }),
            at,
        ),
    ensures
        !(selector.vertical is IsobaricHpa) ==> ground is None,
        selector.vertical matches VerticalSelector::IsobaricHpa(level) ==> exists|
            marks: Seq<bool>,
        |
            #[trigger] is_below(extracted[at].1, level, below, marks) && (ground is Some
                ==> marks.contains(true)),
{
    lemma_first_read_is_found(
        extracted,
        FieldSelector {
            field: CanonicalField::Pressure,
            vertical: VerticalSelector::Surface,
            product: FieldProduct::Deterministic,
        },
        at,
    );
    if let VerticalSelector::IsobaricHpa(level) = selector.vertical {
        let pressure = extracted[at].1;
        let marks = choose|marks: Seq<bool>|
            #[trigger] request::marks_below(pressure.values@, level, below, marks)
                && request::masks_marked(
                marks,
                pressure.nx as int,
                pressure.ny as int,
                projected,
                ground,
            );
        assert(is_below(pressure, level, below, marks));
    }
}

/// Whether the cells are marked whose surface pressure is less than that of a level.
pub open spec fn is_below<T, B: Fn(T, u16) -> bool>(
    pressure: MapField<T>,
    level: u16,
    below: B,
    marks: Seq<bool>,
) -> bool {
    &&& marks.len() == pressure.values@.len()
    &&& forall|k: int|
        0 <= k < marks.len() ==> call_ensures(
            below,
            (pressure.values@[k], level),
            #[trigger] marks[k],
        )
}

} // verus!
