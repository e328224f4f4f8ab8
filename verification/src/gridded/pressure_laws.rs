//! Which messages the volumes of a pressure analysis come from, told by what the
//! messages themselves are about.
use crate::gridded::collect;
use crate::gridded::collect::OptionalVolumes;
use crate::gridded::crop_laws;
use crate::gridded::decode;
use crate::gridded::decode::{DecodedRequiredVolumes, Failures, FieldRecordsView, RequiredPlan};
use crate::gridded::decode_laws;
use crate::gridded::fields::PressureFields;
use crate::gridded::pressure_fields;
use crate::gridded::pressure_fields::PressureRules;
use crate::gridded::records;
use crate::gridded::records::{FieldId, GribRecord, LevelRecord, LevelTable};
use crate::gridded::surface_laws;
use crate::gridded::volumes;
use crate::gridded::volumes::{DecodeErrorView, HeightBranch, MoistureBranch};
use vstd::prelude::*;

verus! {

/// Whether a message holds a quantity on a pressure level, in a plane of a size.
pub open spec fn holds(
    messages: Seq<GribRecord>,
    table: LevelTable,
    planes: Seq<Result<nat, Seq<char>>>,
    expected: int,
    category: u8,
    number: u8,
    level: usize,
    m: usize,
) -> bool {
    &&& m < messages.len()
    &&& surface_laws::is_about(messages[m as int], table, category, number, 100, Some(level))
    &&& planes[m as int] is Ok
    &&& planes[m as int]->Ok_0 == expected
}

proof fn lemma_slot(
    messages: Seq<GribRecord>,
    table: LevelTable,
    planes: Seq<Result<nat, Seq<char>>>,
    expected: int,
    id: FieldId,
    levels: Seq<usize>,
    k: int,
)
    requires
        messages.len() <= usize::MAX,
        0 <= k < levels.len(),
        id.discipline == 0,
        id.level_type == 100,
        volumes::at_level(
            records::records_of(messages, table, id),
            table,
            levels[k] as int,
        ),
        volumes::volume_error(
            records::records_of(messages, table, id),
            table,
            levels,
            planes,
            expected,
            0,
        ) is None,
    ensures
        holds(
            messages,
            table,
            planes,
            expected,
            id.category,
            id.number,
            levels[k],
            volumes::slot_messages(records::records_of(messages, table, id), table, levels)[k],
        ),
{
    let recs = records::records_of(messages, table, id);
    records::lemma_records_point_at(messages, table, id, messages.len() as int);
    records::lemma_first_at_level(recs, table, levels[k] as int);
    let r = records::first_at_level(recs, table, levels[k] as int)->0;
    assert(volumes::is_selected(recs, table, levels, r));
    decode::lemma_no_record_error(recs, table, levels, planes, expected, 0, r);
}

/// The records that a plan was made from.
proof fn lemma_plan_has_fields(
    messages: Seq<GribRecord>,
    table: LevelTable,
    planes: Seq<Result<nat, Seq<char>>>,
    expected: int,
    failures: Failures,
    plan: RequiredPlan,
) -> (at: (Failures, FieldRecordsView))
    requires
        decode::decode_plan(messages, table, planes, expected, failures) == Ok::<
            RequiredPlan,
            DecodeErrorView,
        >(plan),
    ensures
        decode::select_fields(messages, table, at.0) == Ok::<FieldRecordsView, DecodeErrorView>(
            at.1,
        ),
        plan == decode::plan_of(at.1, table, decode::shared_levels(at.1, table)),
        volumes::volume_error(at.1.temperature, table, plan.levels, planes, expected, 0) is None,
        volumes::volume_error(at.1.u_wind, table, plan.levels, planes, expected, 0) is None,
        volumes::volume_error(at.1.v_wind, table, plan.levels, planes, expected, 0) is None,
        volumes::volume_error(at.1.height, table, plan.levels, planes, expected, 0) is None,
        volumes::volume_error(at.1.moisture, table, plan.levels, planes, expected, 0) is None,
        volumes::planes_suffice(planes, plan.moisture_temperature, expected),
    decreases failures.left(),
{
    let fields = decode::select_fields(messages, table, failures)->Ok_0;
    let levels = decode::shared_levels(fields, table);
    if volumes::volume_error(fields.height, table, levels, planes, expected, 0) is Some {
        lemma_plan_has_fields(messages, table, planes, expected, failures.with_height(), plan)
    } else if decode::moisture_fails(fields, table, levels, planes, expected) {
        lemma_plan_has_fields(
            messages,
            table,
            planes,
            expected,
            failures.with_moisture(fields.moisture_branch),
            plan,
        )
    } else {
        (failures, fields)
    }
}

/// Each level of a decoded file has its temperature, winds, height and moisture from
/// messages that are about them at that level. The branch that was taken tells whether
/// heights or geopotentials were read, and which of the three kinds of moisture.
pub proof fn law_required_volumes_come_from_their_own_messages(
    messages: Seq<GribRecord>,
    table: LevelTable,
    planes: Seq<Result<nat, Seq<char>>>,
    expected: int,
    failures: Failures,
    plan: RequiredPlan,
    k: int,
)
    requires
        messages.len() <= usize::MAX,
        planes.len() == messages.len(),
        table.consistent(),
        records::levels_known(messages, table),
        decode::decode_plan(messages, table, planes, expected, failures) == Ok::<
            RequiredPlan,
            DecodeErrorView,
        >(plan),
        0 <= k < plan.levels.len(),
    ensures
        plan.temperature.len() == plan.levels.len(),
        plan.u_wind.len() == plan.levels.len(),
        plan.v_wind.len() == plan.levels.len(),
        plan.height.len() == plan.levels.len(),
        plan.moisture.len() == plan.levels.len(),
        holds(messages, table, planes, expected, 0, 0, plan.levels[k], plan.temperature[k]),
        holds(messages, table, planes, expected, 2, 2, plan.levels[k], plan.u_wind[k]),
        holds(messages, table, planes, expected, 2, 3, plan.levels[k], plan.v_wind[k]),
        match plan.height_branch {
            HeightBranch::Height => holds(
                messages,
                table,
                planes,
                expected,
                3,
                5,
                plan.levels[k],
                plan.height[k],
            ),
            HeightBranch::Geopotential => holds(
                messages,
                table,
                planes,
                expected,
                3,
                4,
                plan.levels[k],
                plan.height[k],
            ),
        },
        match plan.moisture_branch {
            MoistureBranch::SpecificHumidity => holds(
                messages,
                table,
                planes,
                expected,
                1,
                0,
                plan.levels[k],
                plan.moisture[k],
            ),
            MoistureBranch::Dewpoint => holds(
                messages,
                table,
                planes,
                expected,
                0,
                6,
                plan.levels[k],
                plan.moisture[k],
            ),
            MoistureBranch::RelativeHumidity => holds(
                messages,
                table,
                planes,
                expected,
                1,
                1,
                plan.levels[k],
                plan.moisture[k],
            ),
        },
        plan.moisture_levels.len() == plan.levels.len(),
        plan.moisture_levels[k] == messages[plan.moisture[k] as int].level,
        plan.moisture_branch is RelativeHumidity ==> {
            &&& plan.moisture_temperature.len() == plan.levels.len()
            &&& plan.moisture_temperature[k] < messages.len()
            &&& surface_laws::is_about(
                messages[plan.moisture_temperature[k] as int],
                table,
                0,
                0,
                100,
                Some(plan.moisture_levels[k]),
            )
        },
{
    let (at, fields) = lemma_plan_has_fields(messages, table, planes, expected, failures, plan);
    let levels = plan.levels;
    decode_laws::lemma_selected_records(messages, table, at, fields);
    decode_laws::lemma_common_levels_have_all(
        fields.temperature,
        fields.moisture,
        fields.u_wind,
        fields.v_wind,
        fields.height,
        table,
        fields.temperature.len() as int,
    );
    decode::lemma_common_levels_are_base_levels(
        fields.temperature,
        fields.moisture,
        fields.u_wind,
        fields.v_wind,
        fields.height,
        table,
        fields.temperature.len() as int,
    );
    let hid = decode_laws::height_branch_id(fields.height_branch);
    let mid = decode_laws::moisture_id(fields.moisture_branch);
    assert(volumes::at_level(fields.temperature, table, levels[k] as int));
    assert(volumes::at_level(fields.u_wind, table, levels[k] as int));
    lemma_slot(messages, table, planes, expected, decode::temperature_id(), levels, k);
    lemma_slot(messages, table, planes, expected, decode::u_wind_id(), levels, k);
    lemma_slot(messages, table, planes, expected, decode::v_wind_id(), levels, k);
    lemma_slot(messages, table, planes, expected, hid, levels, k);
    lemma_slot(messages, table, planes, expected, mid, levels, k);
    records::lemma_records_point_at(messages, table, mid, messages.len() as int);
    records::lemma_first_at_level(fields.moisture, table, levels[k] as int);
    if fields.moisture_branch is RelativeHumidity {
        let own = plan.moisture_levels;
        assert forall|i: int| 0 <= i < own.len() implies decode::is_level_of(
            fields.moisture,
            #[trigger] own[i],
        ) by {
            assert(volumes::at_level(fields.moisture, table, levels[i] as int));
            records::lemma_first_at_level(fields.moisture, table, levels[i] as int);
        }
        decode::lemma_moisture_levels_have_temperature(fields, table, own);
        assert(volumes::at_level(fields.temperature, table, own[k] as int));
        records::lemma_first_at_level(fields.temperature, table, own[k] as int);
        records::lemma_records_point_at(
            messages,
            table,
            decode::temperature_id(),
            messages.len() as int,
        );
    }
}

/// Where heights were read they are taken before geopotentials, and moisture is the
/// first kind that the file has, unless a branch failed.
pub proof fn law_first_branches_are_taken_first(
    messages: Seq<GribRecord>,
    table: LevelTable,
    failures: Failures,
    fields: FieldRecordsView,
)
    requires
        messages.len() <= usize::MAX,
        records::levels_known(messages, table),
        decode::select_fields(messages, table, failures) == Ok::<FieldRecordsView, DecodeErrorView>(
            fields,
        ),
    ensures
        fields.height_branch is Geopotential && !failures.height ==> surface_laws::has_none(
            messages,
            table,
            3,
            5,
            100,
            None,
        ),
        !(fields.moisture_branch is SpecificHumidity) && !failures.specific_humidity
            ==> surface_laws::has_none(messages, table, 1, 0, 100, None),
        fields.moisture_branch is RelativeHumidity && !failures.dewpoint
            ==> surface_laws::has_none(messages, table, 0, 6, 100, None),
{
    lemma_no_records_no_message(messages, table, decode::height_id());
    lemma_no_records_no_message(messages, table, decode::specific_humidity_id());
    lemma_no_records_no_message(messages, table, decode::dewpoint_id());
}

proof fn lemma_no_records_no_message(messages: Seq<GribRecord>, table: LevelTable, id: FieldId)
    requires
        messages.len() <= usize::MAX,
        id.discipline == 0,
        id.level_type == 100,
    ensures
        records::records_of(messages, table, id).len() == 0 ==> surface_laws::has_none(
            messages,
            table,
            id.category,
            id.number,
            100,
            None,
        ),
{
    if records::records_of(messages, table, id).len() == 0 {
        assert forall|k: int| 0 <= k < messages.len() implies !surface_laws::is_about(
            #[trigger] messages[k],
            table,
            id.category,
            id.number,
            100,
            None,
        ) by {
            if records::holds_field(messages[k], id) {
                lemma_record_is_listed(messages, table, id, messages.len() as int, k);
            }
        }
    }
}

proof fn lemma_record_is_listed(
    messages: Seq<GribRecord>,
    table: LevelTable,
    id: FieldId,
    count: int,
    k: int,
)
    requires
        0 <= k < count <= messages.len(),
        records::holds_field(messages[k], id),
    ensures
        records::records_among(messages, table, id, count).len() > 0,
    decreases count,
{
    let before = records::records_among(messages, table, id, count - 1);
    if records::holds_field(messages[count - 1], id) {
        records::lemma_place_bounds(
            before,
            table,
            table.rank@[messages[count - 1].level as int] as int,
        );
    } else {
        lemma_record_is_listed(messages, table, id, count - 1, k);
    }
}

/// A pressure analysis has each of its values from the message about its quantity at
/// its level: the winds as they are, the temperature in degrees Celsius, the height as
/// it is or from geopotential, and the mixing ratio from the kind of moisture that was
/// read.
pub proof fn law_pressure_values_are_those_of_their_messages<
    T,
    V: Fn(usize) -> T,
    C: Fn(T) -> T,
    G: Fn(T) -> T,
    Q: Fn(T) -> T,
    D: Fn(T, T) -> T,
    H: Fn(T, T, T) -> T,
>(
    messages: Seq<GribRecord>,
    table: LevelTable,
    planes: Seq<Result<Vec<T>, String>>,
    want_optional: bool,
    cells: int,
    failures: Failures,
    plan: RequiredPlan,
    rules: PressureRules<V, C, G, Q, D, H>,
    fields: PressureFields<T>,
    k: int,
    j: int,
)
    requires
        messages.len() <= usize::MAX,
        planes.len() == messages.len(),
        table.consistent(),
        records::levels_known(messages, table),
        decode::decode_plan(messages, table, volumes::outcomes(planes), cells, failures) == Ok::<
            RequiredPlan,
            DecodeErrorView,
        >(plan),
        pressure_fields::planned_analysis(
            plan,
            messages,
            table,
            planes,
            want_optional,
            cells,
            rules,
            fields,
        ),
        0 <= k < plan.levels.len(),
        0 <= j < cells,
    ensures
        ({
            let at = k * cells + j;
            let outcomes = volumes::outcomes(planes);
            &&& call_ensures(rules.level_hpa, (plan.levels[k],), fields.pressure_levels_hpa@[k])
            &&& exists|t: usize|
                #[trigger] holds(messages, table, outcomes, cells, 0, 0, plan.levels[k], t)
                    && call_ensures(
                    rules.to_celsius,
                    (volumes::plane_of(planes, t as int)[j],),
                    fields.temperature_c_3d@[at],
                )
            &&& exists|u: usize|
                #[trigger] holds(messages, table, outcomes, cells, 2, 2, plan.levels[k], u)
                    && fields.u_ms_3d@[at] == volumes::plane_of(planes, u as int)[j]
            &&& exists|v: usize|
                #[trigger] holds(messages, table, outcomes, cells, 2, 3, plan.levels[k], v)
                    && fields.v_ms_3d@[at] == volumes::plane_of(planes, v as int)[j]
            &&& exists|h: usize|
                {
                    ||| #[trigger] holds(messages, table, outcomes, cells, 3, 5, plan.levels[k], h)
                        && fields.gh_m_3d@[at] == volumes::plane_of(planes, h as int)[j]
                    ||| holds(messages, table, outcomes, cells, 3, 4, plan.levels[k], h)
                        && call_ensures(
                        rules.to_height,
                        (volumes::plane_of(planes, h as int)[j],),
                        fields.gh_m_3d@[at],
                    )
                }
            &&& plan.moisture_branch is SpecificHumidity ==> exists|q: usize|
                #[trigger] holds(messages, table, outcomes, cells, 1, 0, plan.levels[k], q)
                    && call_ensures(
                    rules.from_specific_humidity,
                    (volumes::plane_of(planes, q as int)[j],),
                    fields.qvapor_kgkg_3d@[at],
                )
            &&& plan.moisture_branch is Dewpoint ==> exists|q: usize, p: T|
                #[trigger] holds(messages, table, outcomes, cells, 0, 6, plan.levels[k], q)
                    && #[trigger] call_ensures(
                    rules.level_hpa,
                    (messages[q as int].level,),
                    p,
                ) && call_ensures(
                    rules.from_dewpoint,
                    (p, volumes::plane_of(planes, q as int)[j]),
                    fields.qvapor_kgkg_3d@[at],
                )
            &&& plan.moisture_branch is RelativeHumidity ==> exists|q: usize, p: T, t: usize|
                #[trigger] holds(messages, table, outcomes, cells, 1, 1, plan.levels[k], q)
                    && #[trigger] call_ensures(
                    rules.level_hpa,
                    (messages[q as int].level,),
                    p,
                ) && surface_laws::is_about(
                    #[trigger] messages[t as int],
                    table,
                    0,
                    0,
                    100,
                    Some(messages[q as int].level),
                ) && call_ensures(
                    rules.from_relative_humidity,
                    (
                        p,
                        volumes::plane_of(planes, t as int)[j],
                        volumes::plane_of(planes, q as int)[j],
                    ),
                    fields.qvapor_kgkg_3d@[at],
                )
        }),
{
    let outcomes = volumes::outcomes(planes);
    let at = k * cells + j;
    law_required_volumes_come_from_their_own_messages(
        messages,
        table,
        outcomes,
        cells,
        failures,
        plan,
        k,
    );
    let (volumes, optional) = choose|
        volumes: DecodedRequiredVolumes<T>,
        optional: OptionalVolumes<T>,
    |
        decode::gathered_by(volumes, plan, planes, cells) && decode::sized(volumes, cells)
            && collect::are_optional_volumes(
            optional,
            want_optional,
            messages,
            table,
            planes,
            volumes.levels@,
            cells,
        ) && #[trigger] pressure_fields::analyses(volumes, optional, cells, rules, fields);
    lemma_plan_planes_suffice(messages, table, outcomes, cells, failures, plan);
    crop_laws::lemma_gathered_cell(planes, plan.temperature, cells, k, j);
    crop_laws::lemma_gathered_cell(planes, plan.u_wind, cells, k, j);
    crop_laws::lemma_gathered_cell(planes, plan.v_wind, cells, k, j);
    crop_laws::lemma_gathered_cell(planes, plan.height, cells, k, j);
    crop_laws::lemma_gathered_cell(planes, plan.moisture, cells, k, j);
    assert(0 <= at < plan.levels.len() * cells && at / cells == k) by (nonlinear_arith)
        requires
            0 <= k < plan.levels.len(),
            0 <= j < cells,
            at == k * cells + j,
    ;
    assert(volumes.temperature_k_3d@.len() == plan.levels.len() * cells);
    assert(holds(messages, table, outcomes, cells, 0, 0, plan.levels[k], plan.temperature[k]));
    assert(holds(messages, table, outcomes, cells, 2, 2, plan.levels[k], plan.u_wind[k]));
    assert(holds(messages, table, outcomes, cells, 2, 3, plan.levels[k], plan.v_wind[k]));
    let pressures = choose|pressures: Seq<T>|
        #[trigger] pressure_fields::are_ratios(
            volumes,
            cells,
            pressures,
            rules,
            fields.qvapor_kgkg_3d@,
        );
    assert(fields.qvapor_kgkg_3d@.len() == volumes.moisture_3d@.len());
    let ratio = fields.qvapor_kgkg_3d@[at];
    let temperature = fields.temperature_c_3d@[at];
    let height = fields.gh_m_3d@[at];
    let m = plan.moisture[k];
    match plan.height_branch {
        HeightBranch::Height => {
            assert(holds(messages, table, outcomes, cells, 3, 5, plan.levels[k], plan.height[k]));
        },
        HeightBranch::Geopotential => {
            assert(holds(messages, table, outcomes, cells, 3, 4, plan.levels[k], plan.height[k])
                && call_ensures(
                rules.to_height,
                (volumes::plane_of(planes, plan.height[k] as int)[j],),
                height,
            ));
            assert(!holds(messages, table, outcomes, cells, 3, 5, plan.levels[k], plan.height[k]));
        },
    }
    match plan.moisture_branch {
        MoistureBranch::SpecificHumidity => {
            assert(holds(messages, table, outcomes, cells, 1, 0, plan.levels[k], m));
        },
        MoistureBranch::Dewpoint => {
            assert(holds(messages, table, outcomes, cells, 0, 6, plan.levels[k], m));
            assert(call_ensures(rules.level_hpa, (messages[m as int].level,), pressures[k]));
        },
        MoistureBranch::RelativeHumidity => {
            let t = plan.moisture_temperature[k];
            crop_laws::lemma_gathered_cell(planes, plan.moisture_temperature, cells, k, j);
            assert(holds(messages, table, outcomes, cells, 1, 1, plan.levels[k], m));
            assert(call_ensures(rules.level_hpa, (messages[m as int].level,), pressures[k]));
            assert(surface_laws::is_about(
                messages[t as int],
                table,
                0,
                0,
                100,
                Some(messages[m as int].level),
            ));
            assert(call_ensures(
                rules.from_relative_humidity,
                (
                    pressures[k],
                    volumes::plane_of(planes, t as int)[j],
                    volumes::plane_of(planes, m as int)[j],
                ),
                ratio,
            ));
        },
    }
}

/// Whether a value is that of a message about a quantity at a level.
pub open spec fn read_at<T>(
    value: T,
    messages: Seq<GribRecord>,
    table: LevelTable,
    planes: Seq<Result<Vec<T>, String>>,
    level: usize,
    cells: int,
    category: u8,
    number: u8,
    j: int,
) -> bool {
    exists|m: usize|
        #[trigger] holds(
            messages,
            table,
            volumes::outcomes(planes),
            cells,
            category,
            number,
            level,
            m,
        ) && value == volumes::plane_of(planes, m as int)[j]
}

proof fn lemma_collected_is_some_candidate(
    messages: Seq<GribRecord>,
    table: LevelTable,
    planes: Seq<Result<nat, Seq<char>>>,
    candidates: Seq<FieldId>,
    recs: Seq<LevelRecord>,
) -> (c: int)
    requires
        collect::collected_any(messages, table, planes, candidates) == Some(recs),
    ensures
        0 <= c < candidates.len(),
        recs == records::records_of(messages, table, candidates[c]),
    decreases candidates.len(),
{
    if collect::collected(messages, table, planes, candidates[0]) is Ok {
        0
    } else {
        1 + lemma_collected_is_some_candidate(
            messages,
            table,
            planes,
            candidates.drop_first(),
            recs,
        )
    }
}

proof fn lemma_optional_cell<T>(
    messages: Seq<GribRecord>,
    table: LevelTable,
    planes: Seq<Result<Vec<T>, String>>,
    candidates: Seq<FieldId>,
    levels: Seq<usize>,
    cells: int,
    values: Seq<T>,
    k: int,
    j: int,
) -> (c: int)
    requires
        messages.len() <= usize::MAX,
        planes.len() == messages.len(),
        records::levels_known(messages, table),
        collect::optional_volume(messages, table, planes, candidates, levels, cells) == Some(values),
        forall|c: int|
            0 <= c < candidates.len() ==> (#[trigger] candidates[c]).discipline == 0
                && candidates[c].level_type == 100,
        0 <= k < levels.len(),
        0 <= j < cells,
    ensures
        0 <= c < candidates.len(),
        read_at(
            values[k * cells + j],
            messages,
            table,
            planes,
            levels[k],
            cells,
            candidates[c].category,
            candidates[c].number,
            j,
        ),
{
    let outcomes = volumes::outcomes(planes);
    let recs = collect::collected_any(messages, table, outcomes, candidates)->Some_0;
    let c = lemma_collected_is_some_candidate(messages, table, outcomes, candidates, recs);
    let id = candidates[c];
    records::lemma_records_point_at(messages, table, id, messages.len() as int);
    decode::lemma_usable(recs, messages, table, id);
    collect::lemma_filled_levels_suffice(recs, table, levels, outcomes, cells);
    let slots = volumes::slot_messages(recs, table, levels);
    crop_laws::lemma_gathered_cell(planes, slots, cells, k, j);
    assert(volumes::at_level(recs, table, levels[k] as int));
    records::lemma_first_at_level(recs, table, levels[k] as int);
    assert(holds(messages, table, outcomes, cells, id.category, id.number, levels[k], slots[k]));
    c
}

/// An optional volume of a pressure analysis is there only where it is wanted, and has
/// each of its values from a message about its quantity at its level.
pub proof fn law_optional_values_are_those_of_their_messages<
    T,
    V: Fn(usize) -> T,
    C: Fn(T) -> T,
    G: Fn(T) -> T,
    Q: Fn(T) -> T,
    D: Fn(T, T) -> T,
    H: Fn(T, T, T) -> T,
>(
    messages: Seq<GribRecord>,
    table: LevelTable,
    planes: Seq<Result<Vec<T>, String>>,
    want_optional: bool,
    cells: int,
    plan: RequiredPlan,
    rules: PressureRules<V, C, G, Q, D, H>,
    fields: PressureFields<T>,
    k: int,
    j: int,
)
    requires
        messages.len() <= usize::MAX,
        planes.len() == messages.len(),
        records::levels_known(messages, table),
        pressure_fields::planned_analysis(
            plan,
            messages,
            table,
            planes,
            want_optional,
            cells,
            rules,
            fields,
        ),
        0 <= k < plan.levels.len(),
        0 <= j < cells,
    ensures
        ({
            let at = k * cells + j;
            &&& fields.omega_pa_s_3d matches Some(values) ==> want_optional && read_at(values@[at], messages, table, planes, plan.levels[k], cells, 2, 8, j)
            &&& fields.absolute_vorticity_s_3d matches Some(values) ==> want_optional && read_at(values@[at], messages, table, planes, plan.levels[k], cells, 2, 10, j)
            &&& fields.cloud_liquid_kgkg_3d matches Some(values) ==> want_optional && read_at(values@[at], messages, table, planes, plan.levels[k], cells, 1, 22, j)
            &&& fields.cloud_ice_kgkg_3d matches Some(values) ==> want_optional && (read_at(values@[at], messages, table, planes, plan.levels[k], cells, 1, 82, j) || read_at(values@[at], messages, table, planes, plan.levels[k], cells, 1, 23, j))
            &&& fields.rain_kgkg_3d matches Some(values) ==> want_optional && read_at(values@[at], messages, table, planes, plan.levels[k], cells, 1, 24, j)
            &&& fields.snow_kgkg_3d matches Some(values) ==> want_optional && read_at(values@[at], messages, table, planes, plan.levels[k], cells, 1, 25, j)
            &&& fields.graupel_kgkg_3d matches Some(values) ==> want_optional && (read_at(values@[at], messages, table, planes, plan.levels[k], cells, 1, 32, j) || read_at(values@[at], messages, table, planes, plan.levels[k], cells, 1, 74, j))
        }),
{
    let levels = plan.levels;
    let (volumes, optional) = choose|
        volumes: DecodedRequiredVolumes<T>,
        optional: OptionalVolumes<T>,
    |
        decode::gathered_by(volumes, plan, planes, cells) && decode::sized(volumes, cells)
            && collect::are_optional_volumes(
            optional,
            want_optional,
            messages,
            table,
            planes,
            volumes.levels@,
            cells,
        ) && #[trigger] pressure_fields::analyses(volumes, optional, cells, rules, fields);
    if let Some(values) = optional.omega_pa_s_3d {
        let c = lemma_optional_cell(
            messages,
            table,
            planes,
            seq![volumes::isobaric(2, 8)],
            levels,
            cells,
            values@,
            k,
            j,
        );
    }
    if let Some(values) = optional.absolute_vorticity_s_3d {
        let c = lemma_optional_cell(
            messages,
            table,
            planes,
            seq![volumes::isobaric(2, 10)],
            levels,
            cells,
            values@,
            k,
            j,
        );
    }
    if let Some(values) = optional.cloud_liquid_kgkg_3d {
        let c = lemma_optional_cell(
            messages,
            table,
            planes,
            seq![volumes::isobaric(1, 22)],
            levels,
            cells,
            values@,
            k,
            j,
        );
    }
    if let Some(values) = optional.cloud_ice_kgkg_3d {
        let c = lemma_optional_cell(
            messages,
            table,
            planes,
            seq![volumes::isobaric(1, 82), volumes::isobaric(1, 23)],
            levels,
            cells,
            values@,
            k,
            j,
        );
    }
    if let Some(values) = optional.rain_kgkg_3d {
        let c = lemma_optional_cell(
            messages,
            table,
            planes,
            seq![volumes::isobaric(1, 24)],
            levels,
            cells,
            values@,
            k,
            j,
        );
    }
    if let Some(values) = optional.snow_kgkg_3d {
        let c = lemma_optional_cell(
            messages,
            table,
            planes,
            seq![volumes::isobaric(1, 25)],
            levels,
            cells,
            values@,
            k,
            j,
        );
    }
    if let Some(values) = optional.graupel_kgkg_3d {
        let c = lemma_optional_cell(
            messages,
            table,
            planes,
            seq![volumes::isobaric(1, 32), volumes::isobaric(1, 74)],
            levels,
            cells,
            values@,
            k,
            j,
        );
    }
}

/// The planes that a plan gathers were unpacked.
proof fn lemma_plan_planes_suffice(
    messages: Seq<GribRecord>,
    table: LevelTable,
    planes: Seq<Result<nat, Seq<char>>>,
    expected: int,
    failures: Failures,
    plan: RequiredPlan,
)
    requires
        messages.len() <= usize::MAX,
        planes.len() == messages.len(),
        table.consistent(),
        records::levels_known(messages, table),
        decode::decode_plan(messages, table, planes, expected, failures) == Ok::<
            RequiredPlan,
            DecodeErrorView,
        >(plan),
    ensures
        volumes::planes_suffice(planes, plan.temperature, expected),
        volumes::planes_suffice(planes, plan.u_wind, expected),
        volumes::planes_suffice(planes, plan.v_wind, expected),
        volumes::planes_suffice(planes, plan.height, expected),
        volumes::planes_suffice(planes, plan.moisture, expected),
        volumes::planes_suffice(planes, plan.moisture_temperature, expected),
{
    let (at, fields) = lemma_plan_has_fields(messages, table, planes, expected, failures, plan);
    decode_laws::lemma_selected_records(messages, table, at, fields);
    decode_laws::lemma_common_levels_have_all(
        fields.temperature,
        fields.moisture,
        fields.u_wind,
        fields.v_wind,
        fields.height,
        table,
        fields.temperature.len() as int,
    );
    decode::lemma_common_levels_are_base_levels(
        fields.temperature,
        fields.moisture,
        fields.u_wind,
        fields.v_wind,
        fields.height,
        table,
        fields.temperature.len() as int,
    );
    let levels = plan.levels;
    decode::lemma_sound_volume_suffices(fields.temperature, table, levels, planes, expected);
    decode::lemma_sound_volume_suffices(fields.u_wind, table, levels, planes, expected);
    decode::lemma_sound_volume_suffices(fields.v_wind, table, levels, planes, expected);
    decode::lemma_sound_volume_suffices(fields.height, table, levels, planes, expected);
    decode::lemma_sound_volume_suffices(fields.moisture, table, levels, planes, expected);
}

} // verus!
