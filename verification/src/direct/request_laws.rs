//! Laws of drawing with shared layers: a layer that was built for an earlier map is
//! the one that would be built anew, so sharing decides when a layer is built and
//! never what a map shows.
use crate::direct::domain;
use crate::direct::masks;
use crate::direct::masks::BelowGround;
use crate::direct::mesh;
use crate::direct::recipe;
use crate::direct::recipe::{CanonicalField, FieldSelector, PlotRecipe};
use crate::direct::request;
use crate::direct::request::{
    BarbLayer, BoundsBits, ContourLayer, DrawCaches, LayerRules, MapField, MapFrame, MapSettings,
    ProjectedMap, RenderRequest, StreamlineLayer, WindSizes, WindView,
};
use crate::direct::styling;
use crate::direct::styling::{RenderField, UnitConvert};
use crate::direct::wind;
use crate::direct::wind::LayerKey;
use crate::gridded::bounds;
use vstd::prelude::*;

verus! {

/// Whether every rule answers by its arguments alone.
pub open spec fn settled<
    T,
    Y,
    C: Fn(UnitConvert, T) -> T,
    S: Fn(T, T) -> T,
    K: Fn(T) -> T,
    M: Fn(Vec<T>) -> T,
    L: Fn(FieldSelector, Vec<T>) -> Option<ContourLayer<T, Y>>,
    B: Fn(T, u16) -> bool,
    R: Fn(usize, u32) -> usize,
    H: Fn(usize) -> usize,
    G: Fn(T, T) -> bool,
    GR: Fn(T, T) -> bool,
    GC: Fn(T, T) -> bool,
    V: Fn(T, T, BoundsBits) -> bool,
>(rules: LayerRules<C, S, K, M, L, B, R, H, G, GR, GC, V>) -> bool {
    &&& forall|c: UnitConvert, v: T, a: T, b: T|
        #![trigger call_ensures(rules.apply, (c, v), a), call_ensures(rules.apply, (c, v), b)]
        call_ensures(rules.apply, (c, v), a) && call_ensures(rules.apply, (c, v), b) ==> a == b
    &&& forall|u: T, v: T, a: T, b: T|
        #![trigger call_ensures(rules.speed, (u, v), a), call_ensures(rules.speed, (u, v), b)]
        call_ensures(rules.speed, (u, v), a) && call_ensures(rules.speed, (u, v), b) ==> a == b
    &&& forall|v: T, a: T, b: T|
        #![trigger call_ensures(rules.knots, (v,), a), call_ensures(rules.knots, (v,), b)]
        call_ensures(rules.knots, (v,), a) && call_ensures(rules.knots, (v,), b) ==> a == b
    &&& forall|v: Vec<T>, w: Vec<T>, a: T, b: T|
        #![trigger call_ensures(rules.mean, (v,), a), call_ensures(rules.mean, (w,), b)]
        v@ == w@ && call_ensures(rules.mean, (v,), a) && call_ensures(rules.mean, (w,), b) ==> a
            == b
    &&& forall|
        s: FieldSelector,
        v: Vec<T>,
        w: Vec<T>,
        a: Option<ContourLayer<T, Y>>,
        b: Option<ContourLayer<T, Y>>,
    |
        #![trigger call_ensures(rules.lines, (s, v), a), call_ensures(rules.lines, (s, w), b)]
        v@ == w@ && call_ensures(rules.lines, (s, v), a) && call_ensures(rules.lines, (s, w), b)
            ==> request::contour_view(a) == request::contour_view(b)
    &&& forall|v: T, l: u16, a: bool, b: bool|
        #![trigger call_ensures(rules.below, (v, l), a), call_ensures(rules.below, (v, l), b)]
        call_ensures(rules.below, (v, l), a) && call_ensures(rules.below, (v, l), b) ==> a == b
    &&& forall|n: usize, t: u32, a: usize, b: usize|
        #![trigger call_ensures(rules.share, (n, t), a), call_ensures(rules.share, (n, t), b)]
        call_ensures(rules.share, (n, t), a) && call_ensures(rules.share, (n, t), b) ==> a == b
    &&& forall|n: usize, a: usize, b: usize|
        #![trigger call_ensures(rules.thin, (n,), a), call_ensures(rules.thin, (n,), b)]
        call_ensures(rules.thin, (n,), a) && call_ensures(rules.thin, (n,), b) ==> a == b
    &&& mesh::told_once(rules.mesh.breaks)
    &&& mesh::told_once(rules.mesh.off_row)
    &&& mesh::told_once(rules.mesh.off_column)
    &&& forall|x: T, y: T, f: BoundsBits, a: bool, b: bool|
        #![trigger call_ensures(rules.inside, (x, y, f), a), call_ensures(rules.inside, (x, y, f), b)]
        call_ensures(rules.inside, (x, y, f), a) && call_ensures(rules.inside, (x, y, f), b) ==> a
            == b
}

/// Whether the fields of a list are those of a batch.
pub open spec fn drawn_from<T>(
    extracted: Seq<(FieldSelector, MapField<T>)>,
    source: spec_fn(FieldSelector) -> MapField<T>,
) -> bool {
    forall|i: int| 0 <= i < extracted.len() ==> (#[trigger] extracted[i]).1 == source(extracted[i].0)
}

/// The frame of a batch that has some bounds.
pub open spec fn frame_of(
    bounds: BoundsBits,
    targets: spec_fn(BoundsBits) -> (u32, u32),
) -> MapFrame {
    MapFrame { bounds, targets: targets(bounds) }
}

/// Whether barbs are what would be built for two winds.
pub open spec fn fresh_barbs<
    T,
    Y,
    C: Fn(UnitConvert, T) -> T,
    S: Fn(T, T) -> T,
    K: Fn(T) -> T,
    M: Fn(Vec<T>) -> T,
    L: Fn(FieldSelector, Vec<T>) -> Option<ContourLayer<T, Y>>,
    B: Fn(T, u16) -> bool,
    R: Fn(usize, u32) -> usize,
    H: Fn(usize) -> usize,
    G: Fn(T, T) -> bool,
    GR: Fn(T, T) -> bool,
    GC: Fn(T, T) -> bool,
    V: Fn(T, T, BoundsBits) -> bool,
>(
    winds: (FieldSelector, FieldSelector),
    frame: MapFrame,
    source: spec_fn(FieldSelector) -> MapField<T>,
    rules: LayerRules<C, S, K, M, L, B, R, H, G, GR, GC, V>,
    layer: BarbLayer<T>,
) -> bool {
    exists|strides: (usize, usize)|
        #[trigger] request::made_strides(source(winds.0), frame, rules.inside, rules.share, strides)
            && request::made_barbs(source(winds.0), source(winds.1), rules.knots, strides, layer)
}

/// Whether streamlines are what would be built for two winds.
pub open spec fn fresh_streamlines<
    T,
    Y,
    C: Fn(UnitConvert, T) -> T,
    S: Fn(T, T) -> T,
    K: Fn(T) -> T,
    M: Fn(Vec<T>) -> T,
    L: Fn(FieldSelector, Vec<T>) -> Option<ContourLayer<T, Y>>,
    B: Fn(T, u16) -> bool,
    R: Fn(usize, u32) -> usize,
    H: Fn(usize) -> usize,
    G: Fn(T, T) -> bool,
    GR: Fn(T, T) -> bool,
    GC: Fn(T, T) -> bool,
    V: Fn(T, T, BoundsBits) -> bool,
>(
    winds: (FieldSelector, FieldSelector),
    frame: MapFrame,
    source: spec_fn(FieldSelector) -> MapField<T>,
    rules: LayerRules<C, S, K, M, L, B, R, H, G, GR, GC, V>,
    layer: StreamlineLayer<T>,
) -> bool {
    exists|strides: (usize, usize)|
        #[trigger] request::made_strides(source(winds.0), frame, rules.inside, rules.share, strides)
            && request::made_streamlines(
            source(winds.0),
            source(winds.1),
            rules.knots,
            rules.thin,
            strides,
            layer,
        )
}

/// Whether the contours in the caches of a batch are what would be built.
pub open spec fn faithful_contours<
    T,
    Y,
    C: Fn(UnitConvert, T) -> T,
    S: Fn(T, T) -> T,
    K: Fn(T) -> T,
    M: Fn(Vec<T>) -> T,
    L: Fn(FieldSelector, Vec<T>) -> Option<ContourLayer<T, Y>>,
    B: Fn(T, u16) -> bool,
    R: Fn(usize, u32) -> usize,
    H: Fn(usize) -> usize,
    G: Fn(T, T) -> bool,
    GR: Fn(T, T) -> bool,
    GC: Fn(T, T) -> bool,
    V: Fn(T, T, BoundsBits) -> bool,
>(
    caches: DrawCaches<T, Y>,
    source: spec_fn(FieldSelector) -> MapField<T>,
    passes: usize,
    rules: LayerRules<C, S, K, M, L, B, R, H, G, GR, GC, V>,
) -> bool {
    forall|s: FieldSelector|
        (#[trigger] caches.contours.layer(request::contour_key(s, source(s)))) matches Some(layer)
            ==> request::made_contours(s, source(s), passes, rules.mean, rules.lines, layer)
}

/// Whether the layers of winds in the caches of a batch are what would be built.
pub open spec fn faithful_winds<
    T,
    Y,
    C: Fn(UnitConvert, T) -> T,
    S: Fn(T, T) -> T,
    K: Fn(T) -> T,
    M: Fn(Vec<T>) -> T,
    L: Fn(FieldSelector, Vec<T>) -> Option<ContourLayer<T, Y>>,
    B: Fn(T, u16) -> bool,
    R: Fn(usize, u32) -> usize,
    H: Fn(usize) -> usize,
    G: Fn(T, T) -> bool,
    GR: Fn(T, T) -> bool,
    GC: Fn(T, T) -> bool,
    V: Fn(T, T, BoundsBits) -> bool,
>(
    caches: DrawCaches<T, Y>,
    source: spec_fn(FieldSelector) -> MapField<T>,
    targets: spec_fn(BoundsBits) -> (u32, u32),
    rules: LayerRules<C, S, K, M, L, B, R, H, G, GR, GC, V>,
) -> bool {
    &&& forall|w: (FieldSelector, FieldSelector), b: BoundsBits|
        (#[trigger] caches.strides.layer(request::wind_key(w, b))) matches Some(strides)
            ==> request::made_strides(
            source(w.0),
            frame_of(b, targets),
            rules.inside,
            rules.share,
            strides,
        )
    &&& forall|w: (FieldSelector, FieldSelector), b: BoundsBits|
        (#[trigger] caches.barbs.layer(request::wind_key(w, b))) matches Some(layer)
            ==> fresh_barbs::<T, Y, C, S, K, M, L, B, R, H, G, GR, GC, V>(w, frame_of(b, targets), source, rules, layer)
    &&& forall|w: (FieldSelector, FieldSelector), b: BoundsBits|
        (#[trigger] caches.streamlines.layer(request::wind_key(w, b))) matches Some(layer)
            ==> fresh_streamlines::<T, Y, C, S, K, M, L, B, R, H, G, GR, GC, V>(w, frame_of(b, targets), source, rules, layer)
}

/// Whether every layer in the caches of a batch is what would be built for its key.
pub open spec fn faithful<
    T,
    Y,
    C: Fn(UnitConvert, T) -> T,
    S: Fn(T, T) -> T,
    K: Fn(T) -> T,
    M: Fn(Vec<T>) -> T,
    L: Fn(FieldSelector, Vec<T>) -> Option<ContourLayer<T, Y>>,
    B: Fn(T, u16) -> bool,
    R: Fn(usize, u32) -> usize,
    H: Fn(usize) -> usize,
    G: Fn(T, T) -> bool,
    GR: Fn(T, T) -> bool,
    GC: Fn(T, T) -> bool,
    V: Fn(T, T, BoundsBits) -> bool,
>(
    caches: DrawCaches<T, Y>,
    source: spec_fn(FieldSelector) -> MapField<T>,
    targets: spec_fn(BoundsBits) -> (u32, u32),
    passes: usize,
    rules: LayerRules<C, S, K, M, L, B, R, H, G, GR, GC, V>,
) -> bool {
    &&& faithful_contours(caches, source, passes, rules)
    &&& faithful_winds(caches, source, targets, rules)
}

/// Caches without layers hold what would be built.
pub proof fn law_empty_caches_are_faithful<
    T,
    Y,
    C: Fn(UnitConvert, T) -> T,
    S: Fn(T, T) -> T,
    K: Fn(T) -> T,
    M: Fn(Vec<T>) -> T,
    L: Fn(FieldSelector, Vec<T>) -> Option<ContourLayer<T, Y>>,
    B: Fn(T, u16) -> bool,
    R: Fn(usize, u32) -> usize,
    H: Fn(usize) -> usize,
    G: Fn(T, T) -> bool,
    GR: Fn(T, T) -> bool,
    GC: Fn(T, T) -> bool,
    V: Fn(T, T, BoundsBits) -> bool,
>(
    caches: DrawCaches<T, Y>,
    source: spec_fn(FieldSelector) -> MapField<T>,
    targets: spec_fn(BoundsBits) -> (u32, u32),
    passes: usize,
    rules: LayerRules<C, S, K, M, L, B, R, H, G, GR, GC, V>,
)
    requires
        forall|key: LayerKey| #[trigger] caches.contours.layer(key) is None,
        forall|key: LayerKey| #[trigger] caches.streamlines.layer(key) is None,
        forall|key: LayerKey| #[trigger] caches.barbs.layer(key) is None,
        forall|key: LayerKey| #[trigger] caches.strides.layer(key) is None,
    ensures
        faithful(caches, source, targets, passes, rules),
{
}

proof fn lemma_read_field<T>(
    extracted: Seq<(FieldSelector, MapField<T>)>,
    source: spec_fn(FieldSelector) -> MapField<T>,
    selector: FieldSelector,
)
    requires
        drawn_from(extracted, source),
    ensures
        recipe::position(extracted, selector) matches Some(at) ==> 0 <= at < extracted.len()
            && extracted[at].0 == selector && extracted[at].1 == source(selector),
{
    recipe::lemma_position(extracted, selector);
    if recipe::position(extracted, selector) is Some {
        let at = recipe::position(extracted, selector)->0;
        assert(extracted[at].1 == source(extracted[at].0));
    }
}

proof fn lemma_streamlines_stay_faithful<
    T,
    Y,
    C: Fn(UnitConvert, T) -> T,
    S: Fn(T, T) -> T,
    K: Fn(T) -> T,
    M: Fn(Vec<T>) -> T,
    L: Fn(FieldSelector, Vec<T>) -> Option<ContourLayer<T, Y>>,
    B: Fn(T, u16) -> bool,
    R: Fn(usize, u32) -> usize,
    H: Fn(usize) -> usize,
    G: Fn(T, T) -> bool,
    GR: Fn(T, T) -> bool,
    GC: Fn(T, T) -> bool,
    V: Fn(T, T, BoundsBits) -> bool,
>(
    recipe: PlotRecipe,
    extracted: Seq<(FieldSelector, MapField<T>)>,
    source: spec_fn(FieldSelector) -> MapField<T>,
    targets: spec_fn(BoundsBits) -> (u32, u32),
    frame: MapFrame,
    settings: MapSettings<T>,
    rules: LayerRules<C, S, K, M, L, B, R, H, G, GR, GC, V>,
    before: DrawCaches<T, Y>,
    after: DrawCaches<T, Y>,
    layer: Option<StreamlineLayer<T>>,
)
    requires
        drawn_from(extracted, source),
        frame == frame_of(frame.bounds, targets),
        faithful_winds(before, source, targets, rules),
        request::has_streamlines(
            recipe,
            extracted,
            frame,
            settings,
            rules,
            before,
            after,
            layer,
        ),
        request::unchanged(before.barbs, after.barbs),
    ensures
        faithful_winds(after, source, targets, rules),
{
    if styling::winds_at(recipe, extracted) is Some {
        let winds = recipe.spec_winds()->0;
        lemma_read_field(extracted, source, winds.0);
        lemma_read_field(extracted, source, winds.1);
        let key = request::wind_key(winds, frame.bounds);
        assert forall|w: (FieldSelector, FieldSelector), b: BoundsBits|
            (#[trigger] after.strides.layer(request::wind_key(w, b))) matches Some(strides)
            implies request::made_strides(
            source(w.0),
            frame_of(b, targets),
            rules.inside,
            rules.share,
            after.strides.layer(request::wind_key(w, b))->0,
        ) by {
            if request::wind_key(w, b) == key {
                assert(w == winds && b == frame.bounds);
            }
            assert(before.strides.layer(request::wind_key(w, b)) is Some
                || request::wind_key(w, b) == key);
        }
        assert forall|w: (FieldSelector, FieldSelector), b: BoundsBits|
            (#[trigger] after.streamlines.layer(request::wind_key(w, b))) matches Some(l)
            implies fresh_streamlines::<T, Y, C, S, K, M, L, B, R, H, G, GR, GC, V>(
            w,
            frame_of(b, targets),
            source,
            rules,
            after.streamlines.layer(request::wind_key(w, b))->0,
        ) by {
            if request::wind_key(w, b) == key {
                assert(w == winds && b == frame.bounds);
                if before.streamlines.layer(key) is None {
                    let strides = after.strides.layer(key)->0;
                    assert(request::made_strides(
                        source(w.0),
                        frame,
                        rules.inside,
                        rules.share,
                        strides,
                    ));
                }
            }
        }
    }
    assert forall|w: (FieldSelector, FieldSelector), b: BoundsBits|
        (#[trigger] after.barbs.layer(request::wind_key(w, b))) matches Some(l) implies fresh_barbs::<
        T,
        Y,
        C, S, K, M, L, B, R, H, G, GR, GC, V,
    >(w, frame_of(b, targets), source, rules, after.barbs.layer(request::wind_key(w, b))->0) by {
        assert(before.barbs.layer(request::wind_key(w, b)) is Some);
    }
}

proof fn lemma_barbs_stay_faithful<
    T,
    Y,
    C: Fn(UnitConvert, T) -> T,
    S: Fn(T, T) -> T,
    K: Fn(T) -> T,
    M: Fn(Vec<T>) -> T,
    L: Fn(FieldSelector, Vec<T>) -> Option<ContourLayer<T, Y>>,
    B: Fn(T, u16) -> bool,
    R: Fn(usize, u32) -> usize,
    H: Fn(usize) -> usize,
    G: Fn(T, T) -> bool,
    GR: Fn(T, T) -> bool,
    GC: Fn(T, T) -> bool,
    V: Fn(T, T, BoundsBits) -> bool,
>(
    recipe: PlotRecipe,
    extracted: Seq<(FieldSelector, MapField<T>)>,
    source: spec_fn(FieldSelector) -> MapField<T>,
    targets: spec_fn(BoundsBits) -> (u32, u32),
    frame: MapFrame,
    settings: MapSettings<T>,
    rules: LayerRules<C, S, K, M, L, B, R, H, G, GR, GC, V>,
    before: DrawCaches<T, Y>,
    after: DrawCaches<T, Y>,
    layer: Option<BarbLayer<T>>,
)
    requires
        drawn_from(extracted, source),
        frame == frame_of(frame.bounds, targets),
        faithful_winds(before, source, targets, rules),
        request::has_barbs(recipe, extracted, frame, settings, rules, before, after, layer),
        request::unchanged(before.streamlines, after.streamlines),
    ensures
        faithful_winds(after, source, targets, rules),
{
    if styling::winds_at(recipe, extracted) is Some {
        let winds = recipe.spec_winds()->0;
        lemma_read_field(extracted, source, winds.0);
        lemma_read_field(extracted, source, winds.1);
        let key = request::wind_key(winds, frame.bounds);
        assert forall|w: (FieldSelector, FieldSelector), b: BoundsBits|
            (#[trigger] after.strides.layer(request::wind_key(w, b))) matches Some(strides)
            implies request::made_strides(
            source(w.0),
            frame_of(b, targets),
            rules.inside,
            rules.share,
            after.strides.layer(request::wind_key(w, b))->0,
        ) by {
            if request::wind_key(w, b) == key {
                assert(w == winds && b == frame.bounds);
            }
            assert(before.strides.layer(request::wind_key(w, b)) is Some
                || request::wind_key(w, b) == key);
        }
        assert forall|w: (FieldSelector, FieldSelector), b: BoundsBits|
            (#[trigger] after.barbs.layer(request::wind_key(w, b))) matches Some(l)
            implies fresh_barbs::<T, Y, C, S, K, M, L, B, R, H, G, GR, GC, V>(
            w,
            frame_of(b, targets),
            source,
            rules,
            after.barbs.layer(request::wind_key(w, b))->0,
        ) by {
            if request::wind_key(w, b) == key {
                assert(w == winds && b == frame.bounds);
                if before.barbs.layer(key) is None {
                    let strides = after.strides.layer(key)->0;
                    assert(request::made_strides(
                        source(w.0),
                        frame,
                        rules.inside,
                        rules.share,
                        strides,
                    ));
                }
            }
        }
    }
    assert forall|w: (FieldSelector, FieldSelector), b: BoundsBits|
        (#[trigger] after.streamlines.layer(request::wind_key(w, b))) matches Some(l)
        implies fresh_streamlines::<T, Y, C, S, K, M, L, B, R, H, G, GR, GC, V>(
        w,
        frame_of(b, targets),
        source,
        rules,
        after.streamlines.layer(request::wind_key(w, b))->0,
    ) by {
        assert(before.streamlines.layer(request::wind_key(w, b)) is Some);
    }
}

proof fn lemma_contours_stay_faithful<
    T,
    Y,
    C: Fn(UnitConvert, T) -> T,
    S: Fn(T, T) -> T,
    K: Fn(T) -> T,
    M: Fn(Vec<T>) -> T,
    L: Fn(FieldSelector, Vec<T>) -> Option<ContourLayer<T, Y>>,
    B: Fn(T, u16) -> bool,
    R: Fn(usize, u32) -> usize,
    H: Fn(usize) -> usize,
    G: Fn(T, T) -> bool,
    GR: Fn(T, T) -> bool,
    GC: Fn(T, T) -> bool,
    V: Fn(T, T, BoundsBits) -> bool,
>(
    origin: Option<(FieldSelector, int)>,
    extracted: Seq<(FieldSelector, MapField<T>)>,
    source: spec_fn(FieldSelector) -> MapField<T>,
    passes: usize,
    rules: LayerRules<C, S, K, M, L, B, R, H, G, GR, GC, V>,
    before: DrawCaches<T, Y>,
    after: DrawCaches<T, Y>,
    layer: Option<ContourLayer<T, Y>>,
)
    requires
        origin matches Some((selector, at)) ==> extracted[at].1 == source(selector),
        faithful_contours(before, source, passes, rules),
        request::has_contours(origin, extracted, passes, rules, before, after, layer),
    ensures
        faithful_contours(after, source, passes, rules),
{
    assert forall|s: FieldSelector|
        (#[trigger] after.contours.layer(request::contour_key(s, source(s)))) matches Some(l)
        implies request::made_contours(
        s,
        source(s),
        passes,
        rules.mean,
        rules.lines,
        after.contours.layer(request::contour_key(s, source(s)))->0,
    ) by {
        let own = request::contour_key(s, source(s));
        if origin is Some {
            let (selector, at) = origin->0;
            let key = request::contour_key(selector, extracted[at].1);
            if own != key {
                assert(after.contours.layer(own) == before.contours.layer(own));
            } else {
                assert(s == selector);
            }
        } else {
            assert(after.contours.layer(own) == before.contours.layer(own));
        }
    }
}

/// Which field contours are drawn from is a field of the batch.
proof fn lemma_contour_source<T>(
    recipe: PlotRecipe,
    selector: FieldSelector,
    field_at: int,
    extracted: Seq<(FieldSelector, MapField<T>)>,
    source: spec_fn(FieldSelector) -> MapField<T>,
)
    requires
        drawn_from(extracted, source),
        0 <= field_at < extracted.len(),
        extracted[field_at].0 == selector,
    ensures
        request::contour_source(recipe, selector, field_at, extracted) matches Some((s, at))
            ==> extracted[at].1 == source(s),
{
    if !styling::lines_only(selector, recipe.contours is Some) && styling::contours_at(
        recipe,
        extracted,
    ) is Some {
        lemma_read_field(extracted, source, recipe.contours->0->0);
    }
}

/// Drawing a map leaves only layers in the caches that would be built anew.
pub proof fn law_maps_keep_caches_faithful<
    T,
    Y,
    P,
    C: Fn(UnitConvert, T) -> T,
    S: Fn(T, T) -> T,
    K: Fn(T) -> T,
    M: Fn(Vec<T>) -> T,
    L: Fn(FieldSelector, Vec<T>) -> Option<ContourLayer<T, Y>>,
    B: Fn(T, u16) -> bool,
    R: Fn(usize, u32) -> usize,
    H: Fn(usize) -> usize,
    G: Fn(T, T) -> bool,
    GR: Fn(T, T) -> bool,
    GC: Fn(T, T) -> bool,
    V: Fn(T, T, BoundsBits) -> bool,
>(
    recipe: PlotRecipe,
    selector: FieldSelector,
    field_at: int,
    extracted: Seq<(FieldSelector, MapField<T>)>,
    source: spec_fn(FieldSelector) -> MapField<T>,
    targets: spec_fn(BoundsBits) -> (u32, u32),
    projected: ProjectedMap<P>,
    frame: MapFrame,
    size: (u32, u32),
    settings: MapSettings<T>,
    rules: LayerRules<C, S, K, M, L, B, R, H, G, GR, GC, V>,
    before: DrawCaches<T, Y>,
    after: DrawCaches<T, Y>,
    request: RenderRequest<T, Y, P>,
)
    requires
        drawn_from(extracted, source),
        0 <= field_at < extracted.len(),
        extracted[field_at].0 == selector,
        frame == frame_of(frame.bounds, targets),
        faithful(before, source, targets, settings.smoothing_passes, rules),
        request::composed(
            recipe,
            selector,
            field_at,
            extracted,
            projected,
            frame,
            size,
            settings,
            rules,
            before,
            after,
            request,
        ),
    ensures
        faithful(after, source, targets, settings.smoothing_passes, rules),
{
    let (draft, ground, plain) = choose|
        draft: RenderRequest<T, Y, P>,
        ground: Option<BelowGround>,
        plain: RenderRequest<T, Y, P>,
    |
        #[trigger] request::masked(draft, ground, settings.blank, plain)
            && #[trigger] request::shaped(
            plain,
            settings.contour_mode,
            settings.level_multiplier,
            settings.blank,
            request,
        ) && request::drafted(
            recipe,
            selector,
            field_at,
            extracted,
            projected,
            frame,
            size,
            settings,
            rules,
            before,
            after,
            draft,
        );
    lemma_contour_source(recipe, selector, field_at, extracted, source);
    lemma_contours_stay_faithful(
        request::contour_source(recipe, selector, field_at, extracted),
        extracted,
        source,
        settings.smoothing_passes,
        rules,
        before,
        after,
        draft.contours,
    );
    let between = choose|between: DrawCaches<T, Y>|
        #[trigger] request::has_barbs(
            recipe,
            extracted,
            frame,
            settings,
            rules,
            between,
            after,
            draft.barbs,
        ) && request::has_streamlines(
            recipe,
            extracted,
            frame,
            settings,
            rules,
            before,
            between,
            draft.streamlines,
        ) && request::unchanged(before.barbs, between.barbs) && request::unchanged(
            between.streamlines,
            after.streamlines,
        );
    lemma_streamlines_stay_faithful(
        recipe,
        extracted,
        source,
        targets,
        frame,
        settings,
        rules,
        before,
        between,
        draft.streamlines,
    );
    lemma_barbs_stay_faithful(
        recipe,
        extracted,
        source,
        targets,
        frame,
        settings,
        rules,
        between,
        after,
        draft.barbs,
    );
}

proof fn lemma_cell(i: int, nx: int, ny: int)
    requires
        0 <= i < nx * ny,
        0 < nx,
    ensures
        0 <= i % nx < nx,
        0 <= i / nx < ny,
        i == (i / nx) * nx + i % nx,
{
    vstd::arithmetic::div_mod::lemma_fundamental_div_mod(i, nx);
    vstd::arithmetic::div_mod::lemma_mod_bound(i, nx);
    let y = i / nx;
    assert(0 <= y < ny) by (nonlinear_arith)
        requires
            i == nx * y + i % nx,
            0 <= i % nx < nx,
            0 <= i < nx * ny,
            0 < nx,
    ;
    assert(nx * y == y * nx) by (nonlinear_arith);
}

/// Whether the mean of a window depends on its values alone.
pub open spec fn mean_settled<T, M: Fn(Vec<T>) -> T>(mean: M) -> bool {
    forall|v: Vec<T>, w: Vec<T>, a: T, b: T|
        #![trigger call_ensures(mean, (v,), a), call_ensures(mean, (w,), b)]
        v@ == w@ && call_ensures(mean, (v,), a) && call_ensures(mean, (w,), b) ==> a == b
}

proof fn lemma_smoothed_once<T, M: Fn(Vec<T>) -> T>(
    values: Seq<T>,
    nx: int,
    ny: int,
    mean: M,
    a: Seq<T>,
    b: Seq<T>,
)
    requires
        0 < nx,
        values.len() == nx * ny,
        mean_settled(mean),
        masks::smoothed(values, nx, ny, mean, a),
        masks::smoothed(values, nx, ny, mean, b),
    ensures
        a == b,
{
    assert forall|i: int| 0 <= i < a.len() implies a[i] == b[i] by {
        lemma_cell(i, nx, ny);
        let x = i % nx;
        let y = i / nx;
        assert(masks::averages(values, nx, ny, mean, a, x, y));
        assert(masks::averages(values, nx, ny, mean, b, x, y));
    }
    assert(a =~= b);
}

proof fn lemma_passes_once<T, M: Fn(Vec<T>) -> T>(
    a: Seq<Seq<T>>,
    b: Seq<Seq<T>>,
    nx: int,
    ny: int,
    mean: M,
    p: int,
)
    requires
        0 < nx,
        a.len() == b.len(),
        0 <= p < a.len(),
        a[0] == b[0],
        a[0].len() == nx * ny,
        mean_settled(mean),
        masks::smoothing_passes(a, nx, ny, mean),
        masks::smoothing_passes(b, nx, ny, mean),
    ensures
        a[p] == b[p],
        a[p].len() == nx * ny,
    decreases p,
{
    if p > 0 {
        lemma_passes_once(a, b, nx, ny, mean, p - 1);
        assert(masks::smoothed(a[p - 1], nx, ny, mean, a[p - 1 + 1]));
        assert(masks::smoothed(b[p - 1], nx, ny, mean, b[p - 1 + 1]));
        lemma_smoothed_once(a[p - 1], nx, ny, mean, a[p], b[p]);
    }
}

proof fn lemma_contoured_once<T, M: Fn(Vec<T>) -> T>(
    selector: FieldSelector,
    field: MapField<T>,
    passes: usize,
    mean: M,
    a: Seq<T>,
    b: Seq<T>,
)
    requires
        mean_settled(mean),
        request::contoured(selector, field, passes, mean, a),
        request::contoured(selector, field, passes, mean, b),
    ensures
        a == b,
{
    let nx = field.nx as int;
    let ny = field.ny as int;
    if selector.field is PressureReducedToMeanSeaLevel && passes > 0 && nx >= 3 && ny >= 3
        && field.values@.len() == nx * ny {
        let p = choose|states: Seq<Seq<T>>|
            #[trigger] masks::smoothing_passes(states, nx, ny, mean) && states.len() == passes + 1
                && states[0] == field.values@ && states.last() == a;
        let q = choose|states: Seq<Seq<T>>|
            #[trigger] masks::smoothing_passes(states, nx, ny, mean) && states.len() == passes + 1
                && states[0] == field.values@ && states.last() == b;
        lemma_passes_once(p, q, nx, ny, mean, passes as int);
    }
}

proof fn lemma_contours_once<
    T,
    Y,
    C: Fn(UnitConvert, T) -> T,
    S: Fn(T, T) -> T,
    K: Fn(T) -> T,
    M: Fn(Vec<T>) -> T,
    L: Fn(FieldSelector, Vec<T>) -> Option<ContourLayer<T, Y>>,
    B: Fn(T, u16) -> bool,
    R: Fn(usize, u32) -> usize,
    H: Fn(usize) -> usize,
    G: Fn(T, T) -> bool,
    GR: Fn(T, T) -> bool,
    GC: Fn(T, T) -> bool,
    V: Fn(T, T, BoundsBits) -> bool,
>(
    selector: FieldSelector,
    field: MapField<T>,
    passes: usize,
    rules: LayerRules<C, S, K, M, L, B, R, H, G, GR, GC, V>,
    a: Option<ContourLayer<T, Y>>,
    b: Option<ContourLayer<T, Y>>,
)
    requires
        settled(rules),
        request::made_contours(selector, field, passes, rules.mean, rules.lines, a),
        request::made_contours(selector, field, passes, rules.mean, rules.lines, b),
    ensures
        request::contour_view(a) == request::contour_view(b),
{
    let v = choose|values: Vec<T>|
        #[trigger] call_ensures(rules.lines, (selector, values), a) && request::contoured(
            selector,
            field,
            passes,
            rules.mean,
            values@,
        );
    let w = choose|values: Vec<T>|
        #[trigger] call_ensures(rules.lines, (selector, values), b) && request::contoured(
            selector,
            field,
            passes,
            rules.mean,
            values@,
        );
    assert(mean_settled(rules.mean));
    lemma_contoured_once(selector, field, passes, rules.mean, v@, w@);
}

proof fn lemma_strides_once<
    T,
    Y,
    C: Fn(UnitConvert, T) -> T,
    S: Fn(T, T) -> T,
    K: Fn(T) -> T,
    M: Fn(Vec<T>) -> T,
    L: Fn(FieldSelector, Vec<T>) -> Option<ContourLayer<T, Y>>,
    B: Fn(T, u16) -> bool,
    R: Fn(usize, u32) -> usize,
    H: Fn(usize) -> usize,
    G: Fn(T, T) -> bool,
    GR: Fn(T, T) -> bool,
    GC: Fn(T, T) -> bool,
    V: Fn(T, T, BoundsBits) -> bool,
>(
    field: MapField<T>,
    frame: MapFrame,
    rules: LayerRules<C, S, K, M, L, B, R, H, G, GR, GC, V>,
    a: (usize, usize),
    b: (usize, usize),
)
    requires
        settled::<T, Y, C, S, K, M, L, B, R, H, G, GR, GC, V>(rules),
        request::made_strides(field, frame, rules.inside, rules.share, a),
        request::made_strides(field, frame, rules.inside, rules.share, b),
    ensures
        a == b,
{
    let nx = field.nx as int;
    let ny = field.ny as int;
    let (m, p) = choose|marks: Seq<bool>, span: (usize, usize)|
        #[trigger] request::marks_inside(field, frame.bounds, rules.inside, marks)
            && #[trigger] domain::is_visible_span(marks, nx, ny, span) && wind::is_stride(
            rules.share,
            span.0,
            frame.targets.0,
            128,
            a.0,
        ) && wind::is_stride(rules.share, span.1, frame.targets.1, 96, a.1);
    let (n, q) = choose|marks: Seq<bool>, span: (usize, usize)|
        #[trigger] request::marks_inside(field, frame.bounds, rules.inside, marks)
            && #[trigger] domain::is_visible_span(marks, nx, ny, span) && wind::is_stride(
            rules.share,
            span.0,
            frame.targets.0,
            128,
            b.0,
        ) && wind::is_stride(rules.share, span.1, frame.targets.1, 96, b.1);
    assert forall|k: int| 0 <= k < m.len() implies m[k] == n[k] by {
        assert(call_ensures(
            rules.inside,
            (field.lon_deg@[k], field.lat_deg@[k], frame.bounds),
            m[k],
        ));
        assert(call_ensures(
            rules.inside,
            (field.lon_deg@[k], field.lat_deg@[k], frame.bounds),
            n[k],
        ));
    }
    assert(m =~= n);
    domain::law_visible_span_is_unique(m, nx, ny, p, q);
}

proof fn lemma_knots_once<T, K: Fn(T) -> T>(values: Seq<T>, knots: K, a: Seq<T>, b: Seq<T>)
    requires
        forall|v: T, x: T, y: T|
            #![trigger call_ensures(knots, (v,), x), call_ensures(knots, (v,), y)]
            call_ensures(knots, (v,), x) && call_ensures(knots, (v,), y) ==> x == y,
        request::in_knots(values, knots, a),
        request::in_knots(values, knots, b),
    ensures
        a == b,
{
    assert forall|k: int| 0 <= k < a.len() implies a[k] == b[k] by {
        assert(call_ensures(knots, (values[k],), a[k]));
        assert(call_ensures(knots, (values[k],), b[k]));
    }
    assert(a =~= b);
}

proof fn lemma_barbs_once<
    T,
    Y,
    C: Fn(UnitConvert, T) -> T,
    S: Fn(T, T) -> T,
    K: Fn(T) -> T,
    M: Fn(Vec<T>) -> T,
    L: Fn(FieldSelector, Vec<T>) -> Option<ContourLayer<T, Y>>,
    B: Fn(T, u16) -> bool,
    R: Fn(usize, u32) -> usize,
    H: Fn(usize) -> usize,
    G: Fn(T, T) -> bool,
    GR: Fn(T, T) -> bool,
    GC: Fn(T, T) -> bool,
    V: Fn(T, T, BoundsBits) -> bool,
>(
    winds: (FieldSelector, FieldSelector),
    frame: MapFrame,
    source: spec_fn(FieldSelector) -> MapField<T>,
    rules: LayerRules<C, S, K, M, L, B, R, H, G, GR, GC, V>,
    a: BarbLayer<T>,
    b: BarbLayer<T>,
)
    requires
        settled::<T, Y, C, S, K, M, L, B, R, H, G, GR, GC, V>(rules),
        fresh_barbs::<T, Y, C, S, K, M, L, B, R, H, G, GR, GC, V>(winds, frame, source, rules, a),
        fresh_barbs::<T, Y, C, S, K, M, L, B, R, H, G, GR, GC, V>(winds, frame, source, rules, b),
    ensures
        a@ == b@,
{
    let s = choose|strides: (usize, usize)|
        #[trigger] request::made_strides(source(winds.0), frame, rules.inside, rules.share, strides)
            && request::made_barbs(source(winds.0), source(winds.1), rules.knots, strides, a);
    let t = choose|strides: (usize, usize)|
        #[trigger] request::made_strides(source(winds.0), frame, rules.inside, rules.share, strides)
            && request::made_barbs(source(winds.0), source(winds.1), rules.knots, strides, b);
    lemma_strides_once::<T, Y, C, S, K, M, L, B, R, H, G, GR, GC, V>(source(winds.0), frame, rules, s, t);
    lemma_knots_once(source(winds.0).values@, rules.knots, a.u@, b.u@);
    lemma_knots_once(source(winds.1).values@, rules.knots, a.v@, b.v@);
}

proof fn lemma_streamlines_once<
    T,
    Y,
    C: Fn(UnitConvert, T) -> T,
    S: Fn(T, T) -> T,
    K: Fn(T) -> T,
    M: Fn(Vec<T>) -> T,
    L: Fn(FieldSelector, Vec<T>) -> Option<ContourLayer<T, Y>>,
    B: Fn(T, u16) -> bool,
    R: Fn(usize, u32) -> usize,
    H: Fn(usize) -> usize,
    G: Fn(T, T) -> bool,
    GR: Fn(T, T) -> bool,
    GC: Fn(T, T) -> bool,
    V: Fn(T, T, BoundsBits) -> bool,
>(
    winds: (FieldSelector, FieldSelector),
    frame: MapFrame,
    source: spec_fn(FieldSelector) -> MapField<T>,
    rules: LayerRules<C, S, K, M, L, B, R, H, G, GR, GC, V>,
    a: StreamlineLayer<T>,
    b: StreamlineLayer<T>,
)
    requires
        settled::<T, Y, C, S, K, M, L, B, R, H, G, GR, GC, V>(rules),
        fresh_streamlines::<T, Y, C, S, K, M, L, B, R, H, G, GR, GC, V>(winds, frame, source, rules, a),
        fresh_streamlines::<T, Y, C, S, K, M, L, B, R, H, G, GR, GC, V>(winds, frame, source, rules, b),
    ensures
        a@ == b@,
{
    let s = choose|strides: (usize, usize)|
        #[trigger] request::made_strides(source(winds.0), frame, rules.inside, rules.share, strides)
            && request::made_streamlines(
            source(winds.0),
            source(winds.1),
            rules.knots,
            rules.thin,
            strides,
            a,
        );
    let t = choose|strides: (usize, usize)|
        #[trigger] request::made_strides(source(winds.0), frame, rules.inside, rules.share, strides)
            && request::made_streamlines(
            source(winds.0),
            source(winds.1),
            rules.knots,
            rules.thin,
            strides,
            b,
        );
    lemma_strides_once::<T, Y, C, S, K, M, L, B, R, H, G, GR, GC, V>(source(winds.0), frame, rules, s, t);
    lemma_knots_once(source(winds.0).values@, rules.knots, a.u@, b.u@);
    lemma_knots_once(source(winds.1).values@, rules.knots, a.v@, b.v@);
}

proof fn lemma_dilated_once(mask: Seq<bool>, nx: int, ny: int, a: Seq<bool>, b: Seq<bool>)
    requires
        0 < nx,
        mask.len() == nx * ny,
        masks::dilated(mask, nx, ny, a),
        masks::dilated(mask, nx, ny, b),
    ensures
        a == b,
{
    assert forall|i: int| 0 <= i < a.len() implies a[i] == b[i] by {
        lemma_cell(i, nx, ny);
        assert(bounds::marked(a, nx, i % nx, i / nx) == bounds::marked(b, nx, i % nx, i / nx));
    }
    assert(a =~= b);
}

proof fn lemma_mask_once<T, P, B: Fn(T, u16) -> bool>(
    pressure: MapField<T>,
    level: u16,
    projected: ProjectedMap<P>,
    below: B,
    a: Option<BelowGround>,
    b: Option<BelowGround>,
)
    requires
        pressure.sized(),
        forall|v: T, l: u16, x: bool, y: bool|
            #![trigger call_ensures(below, (v, l), x), call_ensures(below, (v, l), y)]
            call_ensures(below, (v, l), x) && call_ensures(below, (v, l), y) ==> x == y,
        request::masks_at_level(pressure, level, projected, below, a),
        request::masks_at_level(pressure, level, projected, below, b),
    ensures
        request::mask_view(a) == request::mask_view(b),
        request::ring_view(a) == request::ring_view(b),
{
    let nx = pressure.nx as int;
    let ny = pressure.ny as int;
    let m = choose|marks: Seq<bool>|
        #[trigger] request::marks_below(pressure.values@, level, below, marks)
            && request::masks_marked(marks, nx, ny, projected, a);
    let n = choose|marks: Seq<bool>|
        #[trigger] request::marks_below(pressure.values@, level, below, marks)
            && request::masks_marked(marks, nx, ny, projected, b);
    assert forall|k: int| 0 <= k < m.len() implies m[k] == n[k] by {
        assert(call_ensures(below, (pressure.values@[k], level), m[k]));
        assert(call_ensures(below, (pressure.values@[k], level), n[k]));
    }
    assert(m =~= n);
    if a is Some {
        lemma_dilated_once(
            m,
            nx,
            ny,
            request::mask_view(a)->0,
            request::mask_view(b)->0,
        );
    }
}

/// Whether a map of a recipe may show a field besides the one it is filled with.
pub open spec fn may_show(recipe: PlotRecipe, selector: FieldSelector) -> bool {
    ||| recipe.spec_winds() matches Some(winds) && (selector == winds.0 || selector == winds.1)
    ||| recipe.contours == Some(Some(selector))
    ||| selector == FieldSelector::spec_surface(CanonicalField::Pressure)
}

/// Whether of the fields that a map of a recipe may show the same ones were read.
pub open spec fn reads_alike<T>(
    recipe: PlotRecipe,
    first: Seq<(FieldSelector, MapField<T>)>,
    second: Seq<(FieldSelector, MapField<T>)>,
) -> bool {
    forall|s: FieldSelector|
        may_show(recipe, s) ==> (#[trigger] recipe::position(first, s) is Some) == (
        recipe::position(second, s) is Some)
}

/// What streamlines show, if there are any.
pub open spec fn streamline_view<T>(layer: Option<StreamlineLayer<T>>) -> Option<WindView<T>> {
    match layer {
        Some(layer) => Some(layer@),
        None => None,
    }
}

/// What barbs show, if there are any.
pub open spec fn barb_view<T>(layer: Option<BarbLayer<T>>) -> Option<WindView<T>> {
    match layer {
        Some(layer) => Some(layer@),
        None => None,
    }
}

/// Whether two requests show the same map.
pub open spec fn same_map<T, Y, P>(a: RenderRequest<T, Y, P>, b: RenderRequest<T, Y, P>) -> bool {
    &&& a.overlay_only == b.overlay_only
    &&& a.visual_mode == b.visual_mode
    &&& a.field.product@ == b.field.product@
    &&& a.field.units@ == b.field.units@
    &&& a.field.values@ == b.field.values@
    &&& a.scale == b.scale
    &&& request::spread_view(a.spread_values) == request::spread_view(b.spread_values)
    &&& a.raster == b.raster
    &&& a.controls == b.controls
    &&& a.title@ == b.title@
    &&& a.subtitles == b.subtitles
    &&& (a.width, a.height) == (b.width, b.height)
    &&& a.projected == b.projected
    &&& request::contour_view(a.contours) == request::contour_view(b.contours)
    &&& streamline_view(a.streamlines) == streamline_view(b.streamlines)
    &&& barb_view(a.barbs) == barb_view(b.barbs)
    &&& masks::ring_views(a.below_ground@) == masks::ring_views(b.below_ground@)
    &&& request::fill_view(a.projected_fill) == request::fill_view(b.projected_fill)
}

proof fn lemma_same_winds_read<T>(
    recipe: PlotRecipe,
    first: Seq<(FieldSelector, MapField<T>)>,
    second: Seq<(FieldSelector, MapField<T>)>,
    source: spec_fn(FieldSelector) -> MapField<T>,
)
    requires
        drawn_from(first, source),
        drawn_from(second, source),
        reads_alike(recipe, first, second),
    ensures
        (styling::winds_at(recipe, first) is Some) == (styling::winds_at(recipe, second) is Some),
        styling::winds_at(recipe, first) matches Some((u, v)) ==> recipe.spec_winds() is Some
            && first[u].1 == source((recipe.spec_winds()->0).0) && first[v].1 == source(
            (recipe.spec_winds()->0).1,
        ),
        styling::winds_at(recipe, second) matches Some((u, v)) ==> second[u].1 == source(
            (recipe.spec_winds()->0).0,
        ) && second[v].1 == source((recipe.spec_winds()->0).1),
{
    if recipe.spec_winds() is Some {
        let winds = recipe.spec_winds()->0;
        assert(may_show(recipe, winds.0));
        assert(may_show(recipe, winds.1));
        assert(recipe::position(first, winds.0) is Some == recipe::position(second, winds.0) is Some);
        assert(recipe::position(first, winds.1) is Some == recipe::position(second, winds.1) is Some);
        lemma_read_field(first, source, winds.0);
        lemma_read_field(first, source, winds.1);
        lemma_read_field(second, source, winds.0);
        lemma_read_field(second, source, winds.1);
    }
}

proof fn lemma_fill_once<
    T,
    Y,
    C: Fn(UnitConvert, T) -> T,
    S: Fn(T, T) -> T,
    K: Fn(T) -> T,
    M: Fn(Vec<T>) -> T,
    L: Fn(FieldSelector, Vec<T>) -> Option<ContourLayer<T, Y>>,
    B: Fn(T, u16) -> bool,
    R: Fn(usize, u32) -> usize,
    H: Fn(usize) -> usize,
    G: Fn(T, T) -> bool,
    GR: Fn(T, T) -> bool,
    GC: Fn(T, T) -> bool,
    V: Fn(T, T, BoundsBits) -> bool,
>(
    recipe: PlotRecipe,
    selector: FieldSelector,
    first: Seq<(FieldSelector, MapField<T>)>,
    second: Seq<(FieldSelector, MapField<T>)>,
    source: spec_fn(FieldSelector) -> MapField<T>,
    rules: LayerRules<C, S, K, M, L, B, R, H, G, GR, GC, V>,
    a: RenderField<T>,
    b: RenderField<T>,
)
    requires
        settled::<T, Y, C, S, K, M, L, B, R, H, G, GR, GC, V>(rules),
        drawn_from(first, source),
        drawn_from(second, source),
        reads_alike(recipe, first, second),
        request::fills(
            recipe,
            selector,
            source(selector),
            first,
            rules.apply,
            rules.speed,
            Ok::<RenderField<T>, WindSizes>(a),
        ),
        request::fills(
            recipe,
            selector,
            source(selector),
            second,
            rules.apply,
            rules.speed,
            Ok::<RenderField<T>, WindSizes>(b),
        ),
    ensures
        a.product@ == b.product@,
        a.units@ == b.units@,
        a.values@ == b.values@,
{
    lemma_same_winds_read(recipe, first, second, source);
    match styling::companion_winds(recipe, selector, first) {
        Some((u_at, v_at)) => {
            let u = first[u_at].1.values@;
            let v = first[v_at].1.values@;
            assert forall|k: int| 0 <= k < u.len() implies a.values@[k] == b.values@[k] by {
                assert(call_ensures(rules.speed, (u[k], v[k]), a.values@[k]));
                assert(call_ensures(rules.speed, (u[k], v[k]), b.values@[k]));
            }
        },
        None => {
            let values = source(selector).values@;
            let convert = styling::fill_conversion(recipe.style, selector).0;
            if !(convert is Keep) {
                assert forall|k: int| 0 <= k < values.len() implies a.values@[k] == b.values@[k] by {
                    assert(call_ensures(rules.apply, (convert, values[k]), a.values@[k]));
                    assert(call_ensures(rules.apply, (convert, values[k]), b.values@[k]));
                }
            }
        },
    }
    assert(a.values@ =~= b.values@);
}

proof fn lemma_blanked_once<T>(
    a: Option<BelowGround>,
    b: Option<BelowGround>,
    blank: T,
    values: Seq<T>,
)
    requires
        request::mask_view(a) == request::mask_view(b),
    ensures
        request::blanked(a, blank, values) == request::blanked(b, blank, values),
{
    assert(request::blanked(a, blank, values) =~= request::blanked(b, blank, values));
}

proof fn lemma_ground_once<
    T,
    Y,
    P,
    C: Fn(UnitConvert, T) -> T,
    S: Fn(T, T) -> T,
    K: Fn(T) -> T,
    M: Fn(Vec<T>) -> T,
    L: Fn(FieldSelector, Vec<T>) -> Option<ContourLayer<T, Y>>,
    B: Fn(T, u16) -> bool,
    R: Fn(usize, u32) -> usize,
    H: Fn(usize) -> usize,
    G: Fn(T, T) -> bool,
    GR: Fn(T, T) -> bool,
    GC: Fn(T, T) -> bool,
    V: Fn(T, T, BoundsBits) -> bool,
>(
    recipe: PlotRecipe,
    selector: FieldSelector,
    first: Seq<(FieldSelector, MapField<T>)>,
    second: Seq<(FieldSelector, MapField<T>)>,
    source: spec_fn(FieldSelector) -> MapField<T>,
    projected: ProjectedMap<P>,
    rules: LayerRules<C, S, K, M, L, B, R, H, G, GR, GC, V>,
    a: Option<BelowGround>,
    b: Option<BelowGround>,
)
    requires
        settled::<T, Y, C, S, K, M, L, B, R, H, G, GR, GC, V>(rules),
        drawn_from(first, source),
        drawn_from(second, source),
        request::all_sized(first),
        reads_alike(recipe, first, second),
        request::masks_below(selector, first, projected, rules.below, a),
        request::masks_below(selector, second, projected, rules.below, b),
    ensures
        request::mask_view(a) == request::mask_view(b),
        request::ring_view(a) == request::ring_view(b),
{
    let surface = FieldSelector::spec_surface(CanonicalField::Pressure);
    assert(may_show(recipe, surface));
    assert(recipe::position(first, surface) is Some == recipe::position(second, surface) is Some);
    lemma_read_field(first, source, surface);
    lemma_read_field(second, source, surface);
    match styling::below_ground(selector, first) {
        Some((level, at)) => {
            assert(first[at].1.sized());
            lemma_mask_once(source(surface), level, projected, rules.below, a, b);
        },
        None => {},
    }
}

proof fn lemma_same_contours<
    T,
    Y,
    C: Fn(UnitConvert, T) -> T,
    S: Fn(T, T) -> T,
    K: Fn(T) -> T,
    M: Fn(Vec<T>) -> T,
    L: Fn(FieldSelector, Vec<T>) -> Option<ContourLayer<T, Y>>,
    B: Fn(T, u16) -> bool,
    R: Fn(usize, u32) -> usize,
    H: Fn(usize) -> usize,
    G: Fn(T, T) -> bool,
    GR: Fn(T, T) -> bool,
    GC: Fn(T, T) -> bool,
    V: Fn(T, T, BoundsBits) -> bool,
>(
    recipe: PlotRecipe,
    selector: FieldSelector,
    places: (int, int),
    first: Seq<(FieldSelector, MapField<T>)>,
    second: Seq<(FieldSelector, MapField<T>)>,
    source: spec_fn(FieldSelector) -> MapField<T>,
    passes: usize,
    rules: LayerRules<C, S, K, M, L, B, R, H, G, GR, GC, V>,
    before: (DrawCaches<T, Y>, DrawCaches<T, Y>),
    after: (DrawCaches<T, Y>, DrawCaches<T, Y>),
    a: Option<ContourLayer<T, Y>>,
    b: Option<ContourLayer<T, Y>>,
)
    requires
        settled(rules),
        drawn_from(first, source),
        drawn_from(second, source),
        reads_alike(recipe, first, second),
        0 <= places.0 < first.len(),
        0 <= places.1 < second.len(),
        first[places.0].0 == selector,
        second[places.1].0 == selector,
        faithful_contours(after.0, source, passes, rules),
        faithful_contours(after.1, source, passes, rules),
        request::has_contours(
            request::contour_source(recipe, selector, places.0, first),
            first,
            passes,
            rules,
            before.0,
            after.0,
            a,
        ),
        request::has_contours(
            request::contour_source(recipe, selector, places.1, second),
            second,
            passes,
            rules,
            before.1,
            after.1,
            b,
        ),
    ensures
        request::contour_view(a) == request::contour_view(b),
{
    lemma_contour_source(recipe, selector, places.0, first, source);
    lemma_contour_source(recipe, selector, places.1, second, source);
    if recipe.contours is Some && recipe.contours->0 is Some {
        let wanted = recipe.contours->0->0;
        assert(may_show(recipe, wanted));
        assert(recipe::position(first, wanted) is Some == recipe::position(second, wanted) is Some);
    }
    match request::contour_source(recipe, selector, places.0, first) {
        Some((s, at)) => {
            let key = request::contour_key(s, source(s));
            assert(first[at].1 == source(s));
            assert(request::contour_source(recipe, selector, places.1, second) is Some);
            let l = after.0.contours.layer(key)->0;
            let m = after.1.contours.layer(key)->0;
            assert(request::made_contours(s, source(s), passes, rules.mean, rules.lines, l));
            assert(request::made_contours(s, source(s), passes, rules.mean, rules.lines, m));
            lemma_contours_once(s, source(s), passes, rules, l, m);
        },
        None => {},
    }
}

proof fn lemma_same_streamlines<
    T,
    Y,
    C: Fn(UnitConvert, T) -> T,
    S: Fn(T, T) -> T,
    K: Fn(T) -> T,
    M: Fn(Vec<T>) -> T,
    L: Fn(FieldSelector, Vec<T>) -> Option<ContourLayer<T, Y>>,
    B: Fn(T, u16) -> bool,
    R: Fn(usize, u32) -> usize,
    H: Fn(usize) -> usize,
    G: Fn(T, T) -> bool,
    GR: Fn(T, T) -> bool,
    GC: Fn(T, T) -> bool,
    V: Fn(T, T, BoundsBits) -> bool,
>(
    recipe: PlotRecipe,
    first: Seq<(FieldSelector, MapField<T>)>,
    second: Seq<(FieldSelector, MapField<T>)>,
    source: spec_fn(FieldSelector) -> MapField<T>,
    targets: spec_fn(BoundsBits) -> (u32, u32),
    frame: MapFrame,
    settings: MapSettings<T>,
    rules: LayerRules<C, S, K, M, L, B, R, H, G, GR, GC, V>,
    before: (DrawCaches<T, Y>, DrawCaches<T, Y>),
    after: (DrawCaches<T, Y>, DrawCaches<T, Y>),
    a: Option<StreamlineLayer<T>>,
    b: Option<StreamlineLayer<T>>,
)
    requires
        settled::<T, Y, C, S, K, M, L, B, R, H, G, GR, GC, V>(rules),
        drawn_from(first, source),
        drawn_from(second, source),
        reads_alike(recipe, first, second),
        frame == frame_of(frame.bounds, targets),
        faithful_winds(after.0, source, targets, rules),
        faithful_winds(after.1, source, targets, rules),
        request::has_streamlines(recipe, first, frame, settings, rules, before.0, after.0, a),
        request::has_streamlines(recipe, second, frame, settings, rules, before.1, after.1, b),
    ensures
        streamline_view(a) == streamline_view(b),
{
    lemma_same_winds_read(recipe, first, second, source);
    if styling::winds_at(recipe, first) is Some {
        let winds = recipe.spec_winds()->0;
        let key = request::wind_key(winds, frame.bounds);
        mesh::law_mesh_is_judged_once(
            source(winds.0).lat_deg@,
            source(winds.0).lon_deg@,
            rules.mesh,
        );
        assert((a is Some) == (b is Some));
        if a is Some {
            let l = after.0.streamlines.layer(key)->0;
            let m = after.1.streamlines.layer(key)->0;
            lemma_streamlines_once::<T, Y, C, S, K, M, L, B, R, H, G, GR, GC, V>(winds, frame, source, rules, l, m);
        }
    }
}

proof fn lemma_same_barbs<
    T,
    Y,
    C: Fn(UnitConvert, T) -> T,
    S: Fn(T, T) -> T,
    K: Fn(T) -> T,
    M: Fn(Vec<T>) -> T,
    L: Fn(FieldSelector, Vec<T>) -> Option<ContourLayer<T, Y>>,
    B: Fn(T, u16) -> bool,
    R: Fn(usize, u32) -> usize,
    H: Fn(usize) -> usize,
    G: Fn(T, T) -> bool,
    GR: Fn(T, T) -> bool,
    GC: Fn(T, T) -> bool,
    V: Fn(T, T, BoundsBits) -> bool,
>(
    recipe: PlotRecipe,
    first: Seq<(FieldSelector, MapField<T>)>,
    second: Seq<(FieldSelector, MapField<T>)>,
    source: spec_fn(FieldSelector) -> MapField<T>,
    targets: spec_fn(BoundsBits) -> (u32, u32),
    frame: MapFrame,
    settings: MapSettings<T>,
    rules: LayerRules<C, S, K, M, L, B, R, H, G, GR, GC, V>,
    before: (DrawCaches<T, Y>, DrawCaches<T, Y>),
    after: (DrawCaches<T, Y>, DrawCaches<T, Y>),
    a: Option<BarbLayer<T>>,
    b: Option<BarbLayer<T>>,
)
    requires
        settled::<T, Y, C, S, K, M, L, B, R, H, G, GR, GC, V>(rules),
        drawn_from(first, source),
        drawn_from(second, source),
        reads_alike(recipe, first, second),
        frame == frame_of(frame.bounds, targets),
        faithful_winds(after.0, source, targets, rules),
        faithful_winds(after.1, source, targets, rules),
        request::has_barbs(recipe, first, frame, settings, rules, before.0, after.0, a),
        request::has_barbs(recipe, second, frame, settings, rules, before.1, after.1, b),
    ensures
        barb_view(a) == barb_view(b),
{
    lemma_same_winds_read(recipe, first, second, source);
    if styling::winds_at(recipe, first) is Some {
        let winds = recipe.spec_winds()->0;
        let key = request::wind_key(winds, frame.bounds);
        let l = after.0.barbs.layer(key)->0;
        let m = after.1.barbs.layer(key)->0;
        lemma_barbs_once::<T, Y, C, S, K, M, L, B, R, H, G, GR, GC, V>(winds, frame, source, rules, l, m);
    }
}

proof fn lemma_same_winds<
    T,
    Y,
    C: Fn(UnitConvert, T) -> T,
    S: Fn(T, T) -> T,
    K: Fn(T) -> T,
    M: Fn(Vec<T>) -> T,
    L: Fn(FieldSelector, Vec<T>) -> Option<ContourLayer<T, Y>>,
    B: Fn(T, u16) -> bool,
    R: Fn(usize, u32) -> usize,
    H: Fn(usize) -> usize,
    G: Fn(T, T) -> bool,
    GR: Fn(T, T) -> bool,
    GC: Fn(T, T) -> bool,
    V: Fn(T, T, BoundsBits) -> bool,
>(
    recipe: PlotRecipe,
    first: Seq<(FieldSelector, MapField<T>)>,
    second: Seq<(FieldSelector, MapField<T>)>,
    source: spec_fn(FieldSelector) -> MapField<T>,
    targets: spec_fn(BoundsBits) -> (u32, u32),
    frame: MapFrame,
    settings: MapSettings<T>,
    rules: LayerRules<C, S, K, M, L, B, R, H, G, GR, GC, V>,
    before: (DrawCaches<T, Y>, DrawCaches<T, Y>),
    after: (DrawCaches<T, Y>, DrawCaches<T, Y>),
    a: (Option<StreamlineLayer<T>>, Option<BarbLayer<T>>),
    b: (Option<StreamlineLayer<T>>, Option<BarbLayer<T>>),
)
    requires
        settled::<T, Y, C, S, K, M, L, B, R, H, G, GR, GC, V>(rules),
        drawn_from(first, source),
        drawn_from(second, source),
        reads_alike(recipe, first, second),
        frame == frame_of(frame.bounds, targets),
        faithful_winds(before.0, source, targets, rules),
        faithful_winds(before.1, source, targets, rules),
        request::has_winds(recipe, first, frame, settings, rules, before.0, after.0, a.0, a.1),
        request::has_winds(recipe, second, frame, settings, rules, before.1, after.1, b.0, b.1),
    ensures
        streamline_view(a.0) == streamline_view(b.0),
        barb_view(a.1) == barb_view(b.1),
{
    let x = choose|between: DrawCaches<T, Y>|
        #[trigger] request::has_barbs(
            recipe,
            first,
            frame,
            settings,
            rules,
            between,
            after.0,
            a.1,
        ) && request::has_streamlines(
            recipe,
            first,
            frame,
            settings,
            rules,
            before.0,
            between,
            a.0,
        ) && request::unchanged(before.0.barbs, between.barbs) && request::unchanged(
            between.streamlines,
            after.0.streamlines,
        );
    let y = choose|between: DrawCaches<T, Y>|
        #[trigger] request::has_barbs(
            recipe,
            second,
            frame,
            settings,
            rules,
            between,
            after.1,
            b.1,
        ) && request::has_streamlines(
            recipe,
            second,
            frame,
            settings,
            rules,
            before.1,
            between,
            b.0,
        ) && request::unchanged(before.1.barbs, between.barbs) && request::unchanged(
            between.streamlines,
            after.1.streamlines,
        );
    lemma_streamlines_stay_faithful(
        recipe,
        first,
        source,
        targets,
        frame,
        settings,
        rules,
        before.0,
        x,
        a.0,
    );
    lemma_streamlines_stay_faithful(
        recipe,
        second,
        source,
        targets,
        frame,
        settings,
        rules,
        before.1,
        y,
        b.0,
    );
    lemma_barbs_stay_faithful(
        recipe,
        first,
        source,
        targets,
        frame,
        settings,
        rules,
        x,
        after.0,
        a.1,
    );
    lemma_barbs_stay_faithful(
        recipe,
        second,
        source,
        targets,
        frame,
        settings,
        rules,
        y,
        after.1,
        b.1,
    );
    lemma_same_streamlines(
        recipe,
        first,
        second,
        source,
        targets,
        frame,
        settings,
        rules,
        before,
        (x, y),
        a.0,
        b.0,
    );
    lemma_same_barbs(
        recipe,
        first,
        second,
        source,
        targets,
        frame,
        settings,
        rules,
        (x, y),
        after,
        a.1,
        b.1,
    );
}

proof fn lemma_masked_alike<T, Y, P>(
    draft: (RenderRequest<T, Y, P>, RenderRequest<T, Y, P>),
    ground: (Option<BelowGround>, Option<BelowGround>),
    blank: T,
    a: RenderRequest<T, Y, P>,
    b: RenderRequest<T, Y, P>,
)
    requires
        same_map(draft.0, draft.1),
        request::mask_view(ground.0) == request::mask_view(ground.1),
        request::ring_view(ground.0) == request::ring_view(ground.1),
        request::masked(draft.0, ground.0, blank, a),
        request::masked(draft.1, ground.1, blank, b),
    ensures
        same_map(a, b),
{
    lemma_blanked_once(ground.0, ground.1, blank, draft.0.field.values@);
    if draft.0.contours is Some {
        assert(request::contour_view(draft.1.contours) is Some);
        lemma_blanked_once(ground.0, ground.1, blank, draft.0.contours->0.data@);
    }
    if draft.0.barbs is Some {
        assert(barb_view(draft.1.barbs) is Some);
        assert(draft.0.barbs->0@ == draft.1.barbs->0@);
        lemma_blanked_once(ground.0, ground.1, blank, draft.0.barbs->0.u@);
        lemma_blanked_once(ground.0, ground.1, blank, draft.0.barbs->0.v@);
    }
}

/// Maps of one recipe and one batch show the same whatever layers were built before,
/// so a pass in parts draws what one pass over all draws. Of the fields that the map
/// may show the same ones have to have been read: a surface pressure that was read
/// for another map of the part is masked by.
pub proof fn law_shared_layers_do_not_show<
    T,
    Y,
    P,
    C: Fn(UnitConvert, T) -> T,
    S: Fn(T, T) -> T,
    K: Fn(T) -> T,
    M: Fn(Vec<T>) -> T,
    L: Fn(FieldSelector, Vec<T>) -> Option<ContourLayer<T, Y>>,
    B: Fn(T, u16) -> bool,
    R: Fn(usize, u32) -> usize,
    H: Fn(usize) -> usize,
    G: Fn(T, T) -> bool,
    GR: Fn(T, T) -> bool,
    GC: Fn(T, T) -> bool,
    V: Fn(T, T, BoundsBits) -> bool,
>(
    recipe: PlotRecipe,
    selector: FieldSelector,
    places: (int, int),
    first: Seq<(FieldSelector, MapField<T>)>,
    second: Seq<(FieldSelector, MapField<T>)>,
    source: spec_fn(FieldSelector) -> MapField<T>,
    targets: spec_fn(BoundsBits) -> (u32, u32),
    projected: ProjectedMap<P>,
    frame: MapFrame,
    size: (u32, u32),
    settings: MapSettings<T>,
    rules: LayerRules<C, S, K, M, L, B, R, H, G, GR, GC, V>,
    before: (DrawCaches<T, Y>, DrawCaches<T, Y>),
    after: (DrawCaches<T, Y>, DrawCaches<T, Y>),
    a: RenderRequest<T, Y, P>,
    b: RenderRequest<T, Y, P>,
)
    requires
        settled(rules),
        drawn_from(first, source),
        drawn_from(second, source),
        request::all_sized(first),
        reads_alike(recipe, first, second),
        0 <= places.0 < first.len(),
        0 <= places.1 < second.len(),
        first[places.0].0 == selector,
        second[places.1].0 == selector,
        frame == frame_of(frame.bounds, targets),
        faithful(before.0, source, targets, settings.smoothing_passes, rules),
        faithful(before.1, source, targets, settings.smoothing_passes, rules),
        request::composed(
            recipe,
            selector,
            places.0,
            first,
            projected,
            frame,
            size,
            settings,
            rules,
            before.0,
            after.0,
            a,
        ),
        request::composed(
            recipe,
            selector,
            places.1,
            second,
            projected,
            frame,
            size,
            settings,
            rules,
            before.1,
            after.1,
            b,
        ),
    ensures
        same_map(a, b),
{
    let (d, g, c) = choose|
        draft: RenderRequest<T, Y, P>,
        ground: Option<BelowGround>,
        plain: RenderRequest<T, Y, P>,
    |
        #[trigger] request::masked(draft, ground, settings.blank, plain)
            && #[trigger] request::shaped(
            plain,
            settings.contour_mode,
            settings.level_multiplier,
            settings.blank,
            a,
        ) && request::drafted(
            recipe,
            selector,
            places.0,
            first,
            projected,
            frame,
            size,
            settings,
            rules,
            before.0,
            after.0,
            draft,
        ) && if draft.overlay_only {
            ground is None
        } else {
            request::masks_below(selector, first, projected, rules.below, ground)
        };
    let (e, h, f) = choose|
        draft: RenderRequest<T, Y, P>,
        ground: Option<BelowGround>,
        plain: RenderRequest<T, Y, P>,
    |
        #[trigger] request::masked(draft, ground, settings.blank, plain)
            && #[trigger] request::shaped(
            plain,
            settings.contour_mode,
            settings.level_multiplier,
            settings.blank,
            b,
        ) && request::drafted(
            recipe,
            selector,
            places.1,
            second,
            projected,
            frame,
            size,
            settings,
            rules,
            before.1,
            after.1,
            draft,
        ) && if draft.overlay_only {
            ground is None
        } else {
            request::masks_below(selector, second, projected, rules.below, ground)
        };
    law_maps_keep_caches_faithful(
        recipe,
        selector,
        places.0,
        first,
        source,
        targets,
        projected,
        frame,
        size,
        settings,
        rules,
        before.0,
        after.0,
        a,
    );
    law_maps_keep_caches_faithful(
        recipe,
        selector,
        places.1,
        second,
        source,
        targets,
        projected,
        frame,
        size,
        settings,
        rules,
        before.1,
        after.1,
        b,
    );
    assert(first[places.0].1 == source(selector));
    assert(second[places.1].1 == source(selector));
    lemma_fill_once::<T, Y, C, S, K, M, L, B, R, H, G, GR, GC, V>(
        recipe,
        selector,
        first,
        second,
        source,
        rules,
        d.field,
        e.field,
    );
    lemma_same_contours(
        recipe,
        selector,
        places,
        first,
        second,
        source,
        settings.smoothing_passes,
        rules,
        before,
        after,
        d.contours,
        e.contours,
    );
    lemma_same_winds(
        recipe,
        first,
        second,
        source,
        targets,
        frame,
        settings,
        rules,
        before,
        after,
        (d.streamlines, d.barbs),
        (e.streamlines, e.barbs),
    );
    if !d.overlay_only {
        lemma_ground_once::<T, Y, P, C, S, K, M, L, B, R, H, G, GR, GC, V>(
            recipe,
            selector,
            first,
            second,
            source,
            projected,
            rules,
            g,
            h,
        );
    }
    assert(masks::ring_views(d.below_ground@) =~= masks::ring_views(e.below_ground@));
    lemma_masked_alike((d, e), (g, h), settings.blank, c, f);
}

} // verus!
