//! Which messages the fields of a surface analysis come from, told by what the
//! messages themselves are about.
use crate::gridded::fields::SurfaceFields;
use crate::gridded::records::{GribRecord, LevelTable};
use crate::gridded::surface;
use crate::gridded::surface::{
    Candidate, MoistureSource, NativeCapePlan, OrographySource, SurfaceLevels, SurfacePlan,
};
use crate::gridded::surface_decode;
use crate::gridded::surface_decode::{SurfaceGridLayout, SurfaceRules};
use crate::gridded::volumes;
use vstd::prelude::*;

verus! {

/// Whether a message is about a meteorological quantity on a type of level, and at
/// a level where one is given.
pub open spec fn is_about(
    message: GribRecord,
    table: LevelTable,
    category: u8,
    number: u8,
    level_type: u8,
    level: Option<usize>,
) -> bool {
    &&& message.discipline == 0
    &&& message.category == category
    &&& message.number == number
    &&& message.level_type == level_type
    &&& level matches Some(level) ==> table.counts_as(message.level as int, level as int)
}

/// Whether a message is the first that is about a quantity.
pub open spec fn is_first(
    messages: Seq<GribRecord>,
    table: LevelTable,
    category: u8,
    number: u8,
    level_type: u8,
    level: Option<usize>,
    m: int,
) -> bool {
    &&& 0 <= m < messages.len()
    &&& is_about(messages[m], table, category, number, level_type, level)
    &&& forall|k: int|
        0 <= k < m ==> !is_about(
            #[trigger] messages[k],
            table,
            category,
            number,
            level_type,
            level,
        )
}

/// Whether no message is about a quantity.
pub open spec fn has_none(
    messages: Seq<GribRecord>,
    table: LevelTable,
    category: u8,
    number: u8,
    level_type: u8,
    level: Option<usize>,
) -> bool {
    forall|k: int|
        0 <= k < messages.len() ==> !is_about(
            #[trigger] messages[k],
            table,
            category,
            number,
            level_type,
            level,
        )
}

/// Whether a message is the first about a quantity at the surface, or, where there is
/// none at the surface, the first on that type of level.
pub open spec fn is_first_at_surface(
    messages: Seq<GribRecord>,
    table: LevelTable,
    category: u8,
    number: u8,
    surface: usize,
    m: int,
) -> bool {
    ||| is_first(messages, table, category, number, 1, Some(surface), m)
    ||| has_none(messages, table, category, number, 1, Some(surface)) && is_first(
        messages,
        table,
        category,
        number,
        1,
        None,
        m,
    )
}

proof fn lemma_first_suiting(
    messages: Seq<GribRecord>,
    table: LevelTable,
    candidate: Candidate,
    from: int,
)
    requires
        0 <= from,
    ensures
        match surface::first_suiting(messages, table, candidate, from) {
            Some(m) => {
                &&& from <= m < messages.len()
                &&& surface::suits(messages[m], table, candidate)
                &&& forall|k: int|
                    from <= k < m ==> !surface::suits(#[trigger] messages[k], table, candidate)
            },
            None => forall|k: int|
                from <= k < messages.len() ==> !surface::suits(
                    #[trigger] messages[k],
                    table,
                    candidate,
                ),
        },
    decreases messages.len() - from,
{
    if from < messages.len() {
        lemma_first_suiting(messages, table, candidate, from + 1);
    }
}

/// What is found for a single candidate is the first message about its quantity.
proof fn lemma_found_for_one(
    messages: Seq<GribRecord>,
    table: LevelTable,
    candidates: Seq<Candidate>,
    category: u8,
    number: u8,
    level_type: u8,
    level: Option<usize>,
)
    requires
        candidates.len() == 1,
        candidates[0].id.discipline == 0,
        candidates[0].id.category == category,
        candidates[0].id.number == number,
        candidates[0].id.level_type == level_type,
        candidates[0].level == level,
    ensures
        match surface::found(messages, table, candidates) {
            Some(m) => is_first(messages, table, category, number, level_type, level, m),
            None => has_none(messages, table, category, number, level_type, level),
        },
{
    lemma_first_suiting(messages, table, candidates[0], 0);
    assert(surface::found(messages, table, candidates.drop_first()) is None);
    assert forall|k: int| 0 <= k < messages.len() implies surface::suits(
        #[trigger] messages[k],
        table,
        candidates[0],
    ) == is_about(messages[k], table, category, number, level_type, level) by {}
}

/// What is found at the surface, or anywhere on that type of level.
proof fn lemma_found_at_surface(
    messages: Seq<GribRecord>,
    table: LevelTable,
    candidates: Seq<Candidate>,
    category: u8,
    number: u8,
    surface: usize,
)
    requires
        candidates.len() == 2,
        candidates[0].id.discipline == 0,
        candidates[0].id.category == category,
        candidates[0].id.number == number,
        candidates[0].id.level_type == 1,
        candidates[0].level == Some(surface),
        candidates[1].id.discipline == 0,
        candidates[1].id.category == category,
        candidates[1].id.number == number,
        candidates[1].id.level_type == 1,
        candidates[1].level is None,
    ensures
        match surface::found(messages, table, candidates) {
            Some(m) => is_first_at_surface(messages, table, category, number, surface, m),
            None => has_none(messages, table, category, number, 1, None),
        },
{
    let first = candidates.take(1);
    let rest = candidates.drop_first();
    lemma_found_for_one(messages, table, first, category, number, 1, Some(surface));
    lemma_found_for_one(messages, table, rest, category, number, 1, None);
    assert(surface::found(messages, table, first.drop_first()) is None);
    assert(first[0] == candidates[0]);
}

/// No two messages are the first about a quantity.
proof fn lemma_first_is_unique(
    messages: Seq<GribRecord>,
    table: LevelTable,
    category: u8,
    number: u8,
    level_type: u8,
    level: Option<usize>,
    a: int,
    b: int,
)
    requires
        is_first(messages, table, category, number, level_type, level, a),
        is_first(messages, table, category, number, level_type, level, b),
    ensures
        a == b,
{
    if a < b {
        assert(!is_about(messages[a], table, category, number, level_type, level));
    }
    if b < a {
        assert(!is_about(messages[b], table, category, number, level_type, level));
    }
}

/// No two messages are the first at the surface or on that type of level.
proof fn lemma_first_at_surface_is_unique(
    messages: Seq<GribRecord>,
    table: LevelTable,
    category: u8,
    number: u8,
    surface: usize,
    a: int,
    b: int,
)
    requires
        is_first_at_surface(messages, table, category, number, surface, a),
        is_first_at_surface(messages, table, category, number, surface, b),
    ensures
        a == b,
{
    if is_first(messages, table, category, number, 1, Some(surface), a) {
        assert(is_about(messages[a], table, category, number, 1, Some(surface)));
        lemma_first_is_unique(messages, table, category, number, 1, Some(surface), a, b);
    } else if is_first(messages, table, category, number, 1, Some(surface), b) {
        assert(is_about(messages[b], table, category, number, 1, Some(surface)));
    } else {
        lemma_first_is_unique(messages, table, category, number, 1, None, a, b);
    }
}

/// The native CAPE of a parcel comes from the first message that is about CAPE on the
/// type of level and at the level of that parcel: at the surface for the surface-based
/// one, at the two heights of pressure above the ground for the others. A file that
/// holds such a message gives the plane, and one that holds none gives none.
pub proof fn law_native_cape_comes_from_its_own_message(
    messages: Seq<GribRecord>,
    table: LevelTable,
    planes: Seq<Result<nat, Seq<char>>>,
    levels: SurfaceLevels,
    plan: NativeCapePlan,
)
    requires
        messages.len() <= usize::MAX,
        surface::native_cape_plan(messages, table, planes, levels) == Ok::<
            NativeCapePlan,
            Seq<char>,
        >(plan),
    ensures
        match plan.surface_based {
            Some(m) => {
                &&& is_first(messages, table, 7, 6, 1, Some(levels.surface), m as int)
                &&& planes[m as int] is Ok
            },
            None => has_none(messages, table, 7, 6, 1, Some(levels.surface)),
        },
        match plan.mixed_layer {
            Some(m) => {
                &&& is_first(messages, table, 7, 6, 108, Some(levels.mixed_layer), m as int)
                &&& planes[m as int] is Ok
            },
            None => has_none(messages, table, 7, 6, 108, Some(levels.mixed_layer)),
        },
        match plan.most_unstable {
            Some(m) => {
                &&& is_first(messages, table, 7, 6, 108, Some(levels.most_unstable), m as int)
                &&& planes[m as int] is Ok
            },
            None => has_none(messages, table, 7, 6, 108, Some(levels.most_unstable)),
        },
{
    lemma_found_for_one(
        messages,
        table,
        surface::cape_candidates(surface::NativeCapeLayer::Surface, levels),
        7,
        6,
        1,
        Some(levels.surface),
    );
    lemma_found_for_one(
        messages,
        table,
        surface::cape_candidates(surface::NativeCapeLayer::MixedLayer, levels),
        7,
        6,
        108,
        Some(levels.mixed_layer),
    );
    lemma_found_for_one(
        messages,
        table,
        surface::cape_candidates(surface::NativeCapeLayer::MostUnstable, levels),
        7,
        6,
        108,
        Some(levels.most_unstable),
    );
}

/// Where no level counts as both the mixed layer and the most-unstable one, the native
/// CAPE planes come from different messages.
pub proof fn law_native_capes_share_no_message(
    messages: Seq<GribRecord>,
    table: LevelTable,
    planes: Seq<Result<nat, Seq<char>>>,
    levels: SurfaceLevels,
    plan: NativeCapePlan,
)
    requires
        messages.len() <= usize::MAX,
        surface::native_cape_plan(messages, table, planes, levels) == Ok::<
            NativeCapePlan,
            Seq<char>,
        >(plan),
        forall|level: int|
            !(#[trigger] table.counts_as(level, levels.mixed_layer as int) && table.counts_as(
                level,
                levels.most_unstable as int,
            )),
    ensures
        plan.surface_based is Some ==> plan.surface_based != plan.mixed_layer
            && plan.surface_based != plan.most_unstable,
        plan.mixed_layer is Some ==> plan.mixed_layer != plan.most_unstable,
{
    law_native_cape_comes_from_its_own_message(messages, table, planes, levels, plan);
}

/// Each field of a surface analysis comes from the first message that is about its
/// quantity at its level. Surface pressure, orography and boundary-layer height are
/// looked for at the surface and then on that type of level; moisture is the first of
/// specific humidity, dewpoint and relative humidity that there is a message for.
pub proof fn law_surface_fields_come_from_their_own_messages(
    messages: Seq<GribRecord>,
    table: LevelTable,
    planes: Seq<Result<nat, Seq<char>>>,
    levels: SurfaceLevels,
    plan: SurfacePlan,
)
    requires
        messages.len() <= usize::MAX,
        surface::surface_plan(messages, table, planes, levels) == Ok::<SurfacePlan, Seq<char>>(
            plan,
        ),
    ensures
        is_first_at_surface(messages, table, 3, 0, levels.surface, plan.psfc as int),
        is_first(messages, table, 0, 0, 103, Some(levels.two_metres), plan.t2 as int),
        is_first(messages, table, 2, 2, 103, Some(levels.ten_metres), plan.u10 as int),
        is_first(messages, table, 2, 3, 103, Some(levels.ten_metres), plan.v10 as int),
        match plan.moisture {
            MoistureSource::SpecificHumidity(m) => is_first(
                messages,
                table,
                1,
                0,
                103,
                Some(levels.two_metres),
                m as int,
            ),
            MoistureSource::Dewpoint(m) => {
                &&& has_none(messages, table, 1, 0, 103, Some(levels.two_metres))
                &&& is_first(messages, table, 0, 6, 103, Some(levels.two_metres), m as int)
            },
            MoistureSource::RelativeHumidity(m) => {
                &&& has_none(messages, table, 1, 0, 103, Some(levels.two_metres))
                &&& has_none(messages, table, 0, 6, 103, Some(levels.two_metres))
                &&& is_first(messages, table, 1, 1, 103, Some(levels.two_metres), m as int)
            },
        },
        match plan.orography {
            OrographySource::Height(m) => is_first_at_surface(
                messages,
                table,
                3,
                5,
                levels.surface,
                m as int,
            ),
            OrographySource::Geopotential(m) => {
                &&& has_none(messages, table, 3, 5, 1, None)
                &&& is_first_at_surface(messages, table, 3, 4, levels.surface, m as int)
            },
            OrographySource::Proxy => forall|m: int|
                {
                    ||| #[trigger] is_first_at_surface(messages, table, 3, 5, levels.surface, m)
                    ||| has_none(messages, table, 3, 5, 1, None) && is_first_at_surface(
                        messages,
                        table,
                        3,
                        4,
                        levels.surface,
                        m,
                    )
                } ==> planes[m] is Err,
        },
        match plan.native_pblh {
            Some(m) => {
                ||| is_first_at_surface(messages, table, 3, 18, levels.surface, m as int)
                ||| has_none(messages, table, 3, 18, 1, None) && is_first_at_surface(
                    messages,
                    table,
                    3,
                    196,
                    levels.surface,
                    m as int,
                )
            },
            None => has_none(messages, table, 3, 18, 1, None) && has_none(
                messages,
                table,
                3,
                196,
                1,
                None,
            ),
        },
        surface::native_cape_plan(messages, table, planes, levels) == Ok::<
            NativeCapePlan,
            Seq<char>,
        >(plan.native_cape),
{
    let two = Some(levels.two_metres);
    let ten = Some(levels.ten_metres);
    lemma_found_at_surface(
        messages,
        table,
        surface::at_surface(3, 0, levels),
        3,
        0,
        levels.surface,
    );
    lemma_found_at_surface(
        messages,
        table,
        surface::at_surface(3, 5, levels),
        3,
        5,
        levels.surface,
    );
    lemma_found_at_surface(
        messages,
        table,
        surface::at_surface(3, 4, levels),
        3,
        4,
        levels.surface,
    );
    lemma_found_for_one(
        messages,
        table,
        surface::above_ground(0, 0, levels.two_metres),
        0,
        0,
        103,
        two,
    );
    lemma_found_for_one(
        messages,
        table,
        surface::above_ground(1, 0, levels.two_metres),
        1,
        0,
        103,
        two,
    );
    lemma_found_for_one(
        messages,
        table,
        surface::above_ground(0, 6, levels.two_metres),
        0,
        6,
        103,
        two,
    );
    lemma_found_for_one(
        messages,
        table,
        surface::above_ground(1, 1, levels.two_metres),
        1,
        1,
        103,
        two,
    );
    lemma_found_for_one(
        messages,
        table,
        surface::above_ground(2, 2, levels.ten_metres),
        2,
        2,
        103,
        ten,
    );
    lemma_found_for_one(
        messages,
        table,
        surface::above_ground(2, 3, levels.ten_metres),
        2,
        3,
        103,
        ten,
    );
    lemma_found_boundary_layer(messages, table, levels);
    if plan.orography is Proxy {
        assert forall|m: int|
            {
                ||| #[trigger] is_first_at_surface(messages, table, 3, 5, levels.surface, m)
                ||| has_none(messages, table, 3, 5, 1, None) && is_first_at_surface(
                    messages,
                    table,
                    3,
                    4,
                    levels.surface,
                    m,
                )
            } implies planes[m] is Err by {
            match surface::found(messages, table, surface::at_surface(3, 5, levels)) {
                Some(h) => {
                    assert(is_about(messages[h], table, 3, 5, 1, None));
                    lemma_first_at_surface_is_unique(messages, table, 3, 5, levels.surface, h, m);
                },
                None => {
                    if is_first_at_surface(messages, table, 3, 5, levels.surface, m) {
                        assert(is_about(messages[m], table, 3, 5, 1, None));
                    }
                    match surface::found(messages, table, surface::at_surface(3, 4, levels)) {
                        Some(g) => {
                            lemma_first_at_surface_is_unique(
                                messages,
                                table,
                                3,
                                4,
                                levels.surface,
                                g,
                                m,
                            );
                        },
                        None => {
                            assert(is_about(messages[m], table, 3, 4, 1, None));
                        },
                    }
                },
            }
        }
    }
}

proof fn lemma_found_boundary_layer(
    messages: Seq<GribRecord>,
    table: LevelTable,
    levels: SurfaceLevels,
)
    ensures
        match surface::found(messages, table, surface::pblh_candidates(levels)) {
            Some(m) => {
                ||| is_first_at_surface(messages, table, 3, 18, levels.surface, m)
                ||| has_none(messages, table, 3, 18, 1, None) && is_first_at_surface(
                    messages,
                    table,
                    3,
                    196,
                    levels.surface,
                    m,
                )
            },
            None => has_none(messages, table, 3, 18, 1, None) && has_none(
                messages,
                table,
                3,
                196,
                1,
                None,
            ),
        },
{
    reveal_with_fuel(surface::found, 5);
    let all = surface::pblh_candidates(levels);
    let first = all.take(2);
    let rest = all.drop_first().drop_first();
    lemma_found_at_surface(messages, table, first, 3, 18, levels.surface);
    lemma_found_at_surface(messages, table, rest, 3, 196, levels.surface);
    assert(first[0] == all[0]);
    assert(first.drop_first()[0] == all.drop_first()[0]);
    assert(surface::found(messages, table, first.drop_first().drop_first()) is None);
}

/// The planes of a decoded surface analysis are those of the messages about their
/// quantities: pressure, temperature, the two components of the wind, and the native
/// CAPE of each parcel, which is there exactly when its message is.
pub proof fn law_decoded_planes_are_those_of_their_messages<
    T,
    P,
    G: Fn(T) -> T,
    Q: Fn(T) -> T,
    D: Fn(T, T) -> T,
    H: Fn(T, T, T) -> T,
>(
    messages: Seq<GribRecord>,
    table: LevelTable,
    levels: SurfaceLevels,
    plan: SurfacePlan,
    planes: Seq<Result<Vec<T>, String>>,
    layout: SurfaceGridLayout<T, P>,
    rules: SurfaceRules<T, G, Q, D, H>,
    fields: SurfaceFields<T, P>,
    m: int,
)
    requires
        messages.len() == planes.len(),
        messages.len() <= usize::MAX,
        surface::surface_plan(messages, table, volumes::outcomes(planes), levels) == Ok::<
            SurfacePlan,
            Seq<char>,
        >(plan),
        surface_decode::decodes(plan, planes, layout, rules, fields),
    ensures
        is_first_at_surface(messages, table, 3, 0, levels.surface, m) ==> fields.psfc_pa@
            == volumes::plane_of(planes, m),
        is_first(messages, table, 0, 0, 103, Some(levels.two_metres), m) ==> fields.t2_k@
            == volumes::plane_of(planes, m),
        is_first(messages, table, 2, 2, 103, Some(levels.ten_metres), m) ==> fields.u10_ms@
            == volumes::plane_of(planes, m),
        is_first(messages, table, 2, 3, 103, Some(levels.ten_metres), m) ==> fields.v10_ms@
            == volumes::plane_of(planes, m),
        is_first(messages, table, 7, 6, 1, Some(levels.surface), m) ==> (
        fields.native_sbcape_jkg matches Some(plane) && plane@ == volumes::plane_of(planes, m)),
        is_first(messages, table, 7, 6, 108, Some(levels.mixed_layer), m) ==> (
        fields.native_mlcape_jkg matches Some(plane) && plane@ == volumes::plane_of(planes, m)),
        is_first(messages, table, 7, 6, 108, Some(levels.most_unstable), m) ==> (
        fields.native_mucape_jkg matches Some(plane) && plane@ == volumes::plane_of(planes, m)),
        has_none(messages, table, 7, 6, 1, Some(levels.surface)) ==> fields.native_sbcape_jkg
            is None,
        has_none(messages, table, 7, 6, 108, Some(levels.mixed_layer))
            ==> fields.native_mlcape_jkg is None,
        has_none(messages, table, 7, 6, 108, Some(levels.most_unstable))
            ==> fields.native_mucape_jkg is None,
        is_first_at_surface(messages, table, 3, 18, levels.surface, m) ==> (
        fields.native_pblh_m matches Some(plane) && plane@ == volumes::plane_of(planes, m)),
{
    let outcomes = volumes::outcomes(planes);
    law_surface_fields_come_from_their_own_messages(messages, table, outcomes, levels, plan);
    law_native_cape_comes_from_its_own_message(
        messages,
        table,
        outcomes,
        levels,
        plan.native_cape,
    );
    if is_first_at_surface(messages, table, 3, 0, levels.surface, m) {
        lemma_first_at_surface_is_unique(
            messages,
            table,
            3,
            0,
            levels.surface,
            plan.psfc as int,
            m,
        );
    }
    if let Some(found) = plan.native_pblh {
        if is_first_at_surface(messages, table, 3, 18, levels.surface, m) {
            assert(is_about(messages[m], table, 3, 18, 1, None));
            lemma_first_at_surface_is_unique(
                messages,
                table,
                3,
                18,
                levels.surface,
                found as int,
                m,
            );
        }
    } else if is_first_at_surface(messages, table, 3, 18, levels.surface, m) {
        assert(is_about(messages[m], table, 3, 18, 1, None));
    }
}

/// The mixing ratios of a decoded surface analysis are had from the moisture that there
/// is a message for, and its heights from the orography that there is one for.
pub proof fn law_decoded_moisture_and_heights_are_those_of_their_messages<
    T,
    P,
    G: Fn(T) -> T,
    Q: Fn(T) -> T,
    D: Fn(T, T) -> T,
    H: Fn(T, T, T) -> T,
>(
    messages: Seq<GribRecord>,
    table: LevelTable,
    levels: SurfaceLevels,
    plan: SurfacePlan,
    planes: Seq<Result<Vec<T>, String>>,
    layout: SurfaceGridLayout<T, P>,
    rules: SurfaceRules<T, G, Q, D, H>,
    fields: SurfaceFields<T, P>,
    m: int,
    i: int,
)
    requires
        messages.len() == planes.len(),
        messages.len() <= usize::MAX,
        surface::surface_plan(messages, table, volumes::outcomes(planes), levels) == Ok::<
            SurfacePlan,
            Seq<char>,
        >(plan),
        surface_decode::decodes(plan, planes, layout, rules, fields),
        0 <= i < fields.q2_kgkg@.len(),
        0 <= i < fields.orog_m@.len(),
    ensures
        is_first(messages, table, 1, 0, 103, Some(levels.two_metres), m) ==> call_ensures(
            rules.from_specific_humidity,
            (volumes::plane_of(planes, m)[i],),
            fields.q2_kgkg@[i],
        ),
        has_none(messages, table, 1, 0, 103, Some(levels.two_metres)) && is_first(
            messages,
            table,
            0,
            6,
            103,
            Some(levels.two_metres),
            m,
        ) ==> call_ensures(
            rules.from_dewpoint,
            (fields.psfc_pa@[i], volumes::plane_of(planes, m)[i]),
            fields.q2_kgkg@[i],
        ),
        has_none(messages, table, 1, 0, 103, Some(levels.two_metres)) && has_none(
            messages,
            table,
            0,
            6,
            103,
            Some(levels.two_metres),
        ) && is_first(messages, table, 1, 1, 103, Some(levels.two_metres), m) ==> call_ensures(
            rules.from_relative_humidity,
            (fields.psfc_pa@[i], fields.t2_k@[i], volumes::plane_of(planes, m)[i]),
            fields.q2_kgkg@[i],
        ),
        is_first_at_surface(messages, table, 3, 5, levels.surface, m) && planes[m] is Ok ==> {
            &&& !fields.orog_is_proxy
            &&& fields.orog_m@[i] == volumes::plane_of(planes, m)[i]
        },
        has_none(messages, table, 3, 5, 1, None) && is_first_at_surface(
            messages,
            table,
            3,
            4,
            levels.surface,
            m,
        ) && planes[m] is Ok ==> {
            &&& !fields.orog_is_proxy
            &&& call_ensures(
                rules.to_height,
                (volumes::plane_of(planes, m)[i],),
                fields.orog_m@[i],
            )
        },
        has_none(messages, table, 3, 5, 1, None) && has_none(messages, table, 3, 4, 1, None) ==> {
            &&& fields.orog_is_proxy
            &&& fields.orog_m@[i] == rules.ground
        },
{
    let outcomes = volumes::outcomes(planes);
    let two = Some(levels.two_metres);
    law_surface_fields_come_from_their_own_messages(messages, table, outcomes, levels, plan);
    match plan.moisture {
        MoistureSource::SpecificHumidity(s) => {
            assert(is_about(messages[s as int], table, 1, 0, 103, two));
        },
        MoistureSource::Dewpoint(s) => {
            assert(is_about(messages[s as int], table, 0, 6, 103, two));
        },
        MoistureSource::RelativeHumidity(s) => {
            assert(is_about(messages[s as int], table, 1, 1, 103, two));
        },
    }
    if 0 <= m < messages.len() {
        assert((outcomes[m] is Err) == (planes[m] is Err));
    }
    match plan.orography {
        OrographySource::Height(s) => {
            assert(is_about(messages[s as int], table, 3, 5, 1, None));
            assert(!has_none(messages, table, 3, 5, 1, None));
            if is_first_at_surface(messages, table, 3, 5, levels.surface, m) {
                lemma_first_at_surface_is_unique(
                    messages,
                    table,
                    3,
                    5,
                    levels.surface,
                    s as int,
                    m,
                );
            }
        },
        OrographySource::Geopotential(s) => {
            assert(is_about(messages[s as int], table, 3, 4, 1, None));
            if is_first_at_surface(messages, table, 3, 5, levels.surface, m) {
                assert(is_about(messages[m], table, 3, 5, 1, None));
            }
            if is_first_at_surface(messages, table, 3, 4, levels.surface, m) {
                lemma_first_at_surface_is_unique(
                    messages,
                    table,
                    3,
                    4,
                    levels.surface,
                    s as int,
                    m,
                );
            }
        },
        OrographySource::Proxy => {},
    }
}

} // verus!
