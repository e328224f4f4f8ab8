//! Laws of decoding: the direct decode and the collecting decode agree.
use crate::gridded::collect;
use crate::gridded::cropped_decode;
use crate::gridded::decode;
use crate::gridded::decode::{Failures, FieldRecordsView, RequiredPlan};
use crate::gridded::records;
use crate::gridded::records::{FieldId, GribRecord, LevelRecord, LevelTable};
use crate::gridded::volumes;
use crate::gridded::volumes::{DecodeErrorView, HeightBranch, MoistureBranch};
use vstd::prelude::*;

verus! {

/// Whether every plane that was unpacked has the size of the grid.
pub open spec fn planes_sized(planes: Seq<Result<nat, Seq<char>>>, expected: int) -> bool {
    forall|m: int| 0 <= m < planes.len() ==> ((#[trigger] planes[m]) matches Ok(len) ==> len == expected)
}

/// What the laws take for granted: a level for each message, a plane for each
/// message, and planes of the size of the grid.
pub open spec fn sound_input(
    messages: Seq<GribRecord>,
    table: LevelTable,
    planes: Seq<Result<nat, Seq<char>>>,
    expected: int,
) -> bool {
    &&& 0 <= expected
    &&& messages.len() <= usize::MAX
    &&& table.wf()
    &&& table.consistent()
    &&& records::levels_known(messages, table)
    &&& planes.len() == messages.len()
    &&& planes_sized(planes, expected)
}

proof fn lemma_failure_of_record(
    messages: Seq<GribRecord>,
    planes: Seq<Result<nat, Seq<char>>>,
    id: FieldId,
    from: int,
    m: int,
)
    requires
        0 <= from <= m < messages.len(),
        records::holds_field(messages[m], id),
        planes[m] is Err,
    ensures
        collect::first_failure(messages, planes, id, from) is Some,
    decreases m - from,
{
    if from < m {
        lemma_failure_of_record(messages, planes, id, from + 1, m);
    }
}

proof fn lemma_failure_has_record(
    messages: Seq<GribRecord>,
    planes: Seq<Result<nat, Seq<char>>>,
    id: FieldId,
    from: int,
) -> (m: int)
    requires
        0 <= from,
        collect::first_failure(messages, planes, id, from) is Some,
    ensures
        from <= m < messages.len(),
        records::holds_field(messages[m], id),
        planes[m] is Err,
    decreases messages.len() - from,
{
    if records::holds_field(messages[from], id) && planes[from] is Err {
        from
    } else {
        lemma_failure_has_record(messages, planes, id, from + 1)
    }
}

proof fn lemma_error_has_record(
    recs: Seq<LevelRecord>,
    table: LevelTable,
    levels: Seq<usize>,
    planes: Seq<Result<nat, Seq<char>>>,
    expected: int,
    from: int,
) -> (r: int)
    requires
        0 <= from,
        volumes::volume_error(recs, table, levels, planes, expected, from) is Some,
    ensures
        from <= r < recs.len(),
        volumes::record_error(recs, table, levels, planes, expected, r) is Some,
    decreases recs.len() - from,
{
    if volumes::record_error(recs, table, levels, planes, expected, from) is Some {
        from
    } else {
        lemma_error_has_record(recs, table, levels, planes, expected, from + 1)
    }
}

/// With planes of the right size, a volume has an error exactly if a message of
/// its field was not unpacked.
proof fn lemma_volume_error_is_failure(
    messages: Seq<GribRecord>,
    table: LevelTable,
    planes: Seq<Result<nat, Seq<char>>>,
    expected: int,
    id: FieldId,
    levels: Seq<usize>,
)
    requires
        sound_input(messages, table, planes, expected),
    ensures
        volumes::volume_error(
            records::records_of(messages, table, id),
            table,
            levels,
            planes,
            expected,
            0,
        ) is Some <==> collect::first_failure(messages, planes, id, 0) is Some,
{
    let recs = records::records_of(messages, table, id);
    records::lemma_records_point_at(messages, table, id, messages.len() as int);
    if volumes::volume_error(recs, table, levels, planes, expected, 0) is Some {
        let r = lemma_error_has_record(recs, table, levels, planes, expected, 0);
        let m = recs[r].message as int;
        assert(planes[m] is Err) by {
            assert(planes[m] matches Ok(len) ==> len == expected);
        }
        lemma_failure_of_record(messages, planes, id, 0, m);
    }
    if collect::first_failure(messages, planes, id, 0) is Some {
        let m = lemma_failure_has_record(messages, planes, id, 0);
        records::law_records_are_complete(messages, table, id, messages.len() as int, m);
        let r = choose|r: int| 0 <= r < recs.len() && (#[trigger] recs[r]).message == m;
        assert(volumes::record_error(recs, table, levels, planes, expected, r) is Some);
        if volumes::volume_error(recs, table, levels, planes, expected, 0) is None {
            decode::lemma_no_record_error(recs, table, levels, planes, expected, 0, r);
        }
    }
}

/// Records that point at unpacked messages of the right size fill their levels.
proof fn lemma_unpacked_records_fill(
    recs: Seq<LevelRecord>,
    table: LevelTable,
    levels: Seq<usize>,
    planes: Seq<Result<nat, Seq<char>>>,
    expected: int,
)
    requires
        0 <= expected,
        planes_sized(planes, expected),
        volumes::records_usable(recs, table, planes.len() as int),
        volumes::volume_error(recs, table, levels, planes, expected, 0) is None,
        forall|k: int|
            0 <= k < levels.len() ==> volumes::at_level(recs, table, #[trigger] levels[k] as int),
    ensures
        collect::levels_filled(recs, table, levels, planes, expected),
{
    assert forall|k: int| 0 <= k < levels.len() implies {
        &&& volumes::at_level(recs, table, #[trigger] levels[k] as int)
        &&& planes[volumes::slot_record(recs, table, levels[k] as int).message as int] == Ok::<
            nat,
            Seq<char>,
        >(expected as nat)
    } by {
        assert(volumes::at_level(recs, table, levels[k] as int));
        records::lemma_first_at_level(recs, table, levels[k] as int);
        let r = records::first_at_level(recs, table, levels[k] as int)->0;
        decode::lemma_no_record_error(recs, table, levels, planes, expected, 0, r);
        let m = recs[r].message as int;
        assert(recs[r].message < planes.len());
        assert(planes[m] matches Ok(len) ==> len == expected);
    }
}

pub proof fn lemma_common_levels_have_all(
    base: Seq<LevelRecord>,
    a: Seq<LevelRecord>,
    b: Seq<LevelRecord>,
    c: Seq<LevelRecord>,
    d: Seq<LevelRecord>,
    table: LevelTable,
    count: int,
)
    requires
        0 <= count <= base.len(),
    ensures
        forall|k: int|
            0 <= k < volumes::common_levels(base, a, b, c, d, table, count).len() ==> {
                let level = #[trigger] volumes::common_levels(
                    base,
                    a,
                    b,
                    c,
                    d,
                    table,
                    count,
                )[k] as int;
                &&& volumes::at_level(a, table, level)
                &&& volumes::at_level(b, table, level)
                &&& volumes::at_level(c, table, level)
                &&& volumes::at_level(d, table, level)
            },
    decreases count,
{
    if count > 0 {
        lemma_common_levels_have_all(base, a, b, c, d, table, count - 1);
        let before = volumes::common_levels(base, a, b, c, d, table, count - 1);
        let after = volumes::common_levels(base, a, b, c, d, table, count);
        assert forall|k: int| 0 <= k < after.len() implies {
            let level = #[trigger] after[k] as int;
            &&& volumes::at_level(a, table, level)
            &&& volumes::at_level(b, table, level)
            &&& volumes::at_level(c, table, level)
            &&& volumes::at_level(d, table, level)
        } by {
            if k < before.len() {
                assert(after[k] == before[k]);
            }
        }
    }
}

/// Whether the failed branches are branches that cannot be collected.
pub open spec fn failures_real(
    messages: Seq<GribRecord>,
    planes: Seq<Result<nat, Seq<char>>>,
    failures: Failures,
) -> bool {
    &&& failures.height ==> collect::first_failure(messages, planes, decode::height_id(), 0) is Some
    &&& failures.specific_humidity ==> collect::first_failure(
        messages,
        planes,
        decode::specific_humidity_id(),
        0,
    ) is Some
    &&& failures.dewpoint ==> collect::first_failure(messages, planes, decode::dewpoint_id(), 0)
        is Some
    &&& failures.relative_humidity ==> collect::first_failure(
        messages,
        planes,
        decode::relative_humidity_id(),
        0,
    ) is Some
}

pub open spec fn moisture_id(branch: MoistureBranch) -> FieldId {
    match branch {
        MoistureBranch::SpecificHumidity => decode::specific_humidity_id(),
        MoistureBranch::Dewpoint => decode::dewpoint_id(),
        MoistureBranch::RelativeHumidity => decode::relative_humidity_id(),
    }
}

pub open spec fn height_branch_id(branch: HeightBranch) -> FieldId {
    match branch {
        HeightBranch::Height => decode::height_id(),
        HeightBranch::Geopotential => decode::geopotential_id(),
    }
}

pub proof fn lemma_selected_records(
    messages: Seq<GribRecord>,
    table: LevelTable,
    failures: Failures,
    fields: FieldRecordsView,
)
    requires
        messages.len() <= usize::MAX,
        records::levels_known(messages, table),
        decode::select_fields(messages, table, failures) == Ok::<FieldRecordsView, DecodeErrorView>(
            fields,
        ),
    ensures
        fields.height == records::records_of(
            messages,
            table,
            height_branch_id(fields.height_branch),
        ),
        fields.moisture == records::records_of(messages, table, moisture_id(fields.moisture_branch)),
        decode::fields_usable(fields, table, messages.len() as int),
        fields.moisture_branch == MoistureBranch::RelativeHumidity
            ==> decode::first_without_temperature(fields.moisture, fields.temperature, table, 0)
            is None,
{
    lemma_records_usable(messages, table, decode::temperature_id());
    lemma_records_usable(messages, table, decode::u_wind_id());
    lemma_records_usable(messages, table, decode::v_wind_id());
    lemma_records_usable(messages, table, height_branch_id(fields.height_branch));
    lemma_records_usable(messages, table, moisture_id(fields.moisture_branch));
}

proof fn lemma_records_usable(messages: Seq<GribRecord>, table: LevelTable, id: FieldId)
    requires
        messages.len() <= usize::MAX,
        records::levels_known(messages, table),
    ensures
        volumes::records_usable(
            records::records_of(messages, table, id),
            table,
            messages.len() as int,
        ),
{
    records::lemma_records_point_at(messages, table, id, messages.len() as int);
    decode::lemma_usable(records::records_of(messages, table, id), messages, table, id);
}

/// The temperature planes that a relative-humidity volume needs are there once
/// the temperatures themselves are.
proof fn lemma_moisture_temperature_suffices(
    fields: FieldRecordsView,
    table: LevelTable,
    levels: Seq<usize>,
    planes: Seq<Result<nat, Seq<char>>>,
    expected: int,
)
    requires
        0 <= expected,
        planes_sized(planes, expected),
        decode::fields_usable(fields, table, planes.len() as int),
        volumes::volume_error(fields.temperature, table, levels, planes, expected, 0) is None,
        forall|k: int|
            0 <= k < levels.len() ==> volumes::at_level(
                fields.moisture,
                table,
                #[trigger] levels[k] as int,
            ),
        fields.moisture_branch == MoistureBranch::RelativeHumidity
            ==> decode::first_without_temperature(fields.moisture, fields.temperature, table, 0)
            is None,
    ensures
        volumes::planes_suffice(
            planes,
            decode::moisture_temperature(fields, table, levels),
            expected,
        ),
        fields.moisture_branch == MoistureBranch::RelativeHumidity ==> forall|k: int|
            0 <= k < levels.len() ==> planes[#[trigger] decode::moisture_temperature(
                fields,
                table,
                levels,
            )[k] as int] == Ok::<nat, Seq<char>>(expected as nat),
{
    let temps = decode::moisture_temperature(fields, table, levels);
    if fields.moisture_branch == MoistureBranch::RelativeHumidity {
        let lv = decode::moisture_levels(fields, table, levels);
        assert forall|k: int| 0 <= k < lv.len() implies decode::is_level_of(
            fields.moisture,
            #[trigger] lv[k],
        ) by {
            assert(volumes::at_level(fields.moisture, table, levels[k] as int));
            records::lemma_first_at_level(fields.moisture, table, levels[k] as int);
            let r = records::first_at_level(fields.moisture, table, levels[k] as int)->0;
            assert(lv[k] == fields.moisture[r].level);
        }
        decode::lemma_moisture_levels_have_temperature(fields, table, lv);
        assert forall|k: int| 0 <= k < temps.len() implies (#[trigger] temps[k]) < planes.len()
            && planes[temps[k] as int] == Ok::<nat, Seq<char>>(expected as nat) by {
            assert(volumes::at_level(fields.temperature, table, lv[k] as int));
            records::lemma_first_at_level(fields.temperature, table, lv[k] as int);
            let r = records::first_at_level(fields.temperature, table, lv[k] as int)->0;
            assert(temps[k] == fields.temperature[r].message);
            assert(fields.temperature[r].message < planes.len());
            decode::lemma_no_record_error(
                fields.temperature,
                table,
                levels,
                planes,
                expected,
                0,
                r,
            );
            assert(planes[temps[k] as int] matches Ok(len) ==> len == expected);
        }
    }
}

/// With the planes of the grid's size, the branches that the direct decode gives
/// up are those that cannot be collected, so that it never decodes to anything
/// but what collecting the levels decodes to.
pub proof fn law_direct_decode_agrees_with_collected(
    messages: Seq<GribRecord>,
    table: LevelTable,
    planes: Seq<Result<nat, Seq<char>>>,
    expected: int,
    plan: RequiredPlan,
)
    requires
        sound_input(messages, table, planes, expected),
        decode::decode_plan(messages, table, planes, expected, decode::no_failures()) == Ok::<
            RequiredPlan,
            DecodeErrorView,
        >(plan),
    ensures
        cropped_decode::cropped_plan(messages, table, planes, expected) == Ok::<
            RequiredPlan,
            DecodeErrorView,
        >(plan),
{
    lemma_direct_decode_agrees(messages, table, planes, expected, decode::no_failures(), plan);
}

proof fn lemma_direct_decode_agrees(
    messages: Seq<GribRecord>,
    table: LevelTable,
    planes: Seq<Result<nat, Seq<char>>>,
    expected: int,
    failures: Failures,
    plan: RequiredPlan,
)
    requires
        sound_input(messages, table, planes, expected),
        failures_real(messages, planes, failures),
        decode::decode_plan(messages, table, planes, expected, failures) == Ok::<
            RequiredPlan,
            DecodeErrorView,
        >(plan),
    ensures
        cropped_decode::cropped_plan(messages, table, planes, expected) == Ok::<
            RequiredPlan,
            DecodeErrorView,
        >(plan),
    decreases failures.left(),
{
    let fields = decode::select_fields(messages, table, failures)->Ok_0;
    lemma_selected_records(messages, table, failures, fields);
    let levels = decode::shared_levels(fields, table);
    let hid = height_branch_id(fields.height_branch);
    let mid = moisture_id(fields.moisture_branch);
    lemma_volume_error_is_failure(messages, table, planes, expected, hid, levels);
    lemma_volume_error_is_failure(messages, table, planes, expected, mid, levels);
    lemma_volume_error_is_failure(
        messages,
        table,
        planes,
        expected,
        decode::temperature_id(),
        levels,
    );
    lemma_volume_error_is_failure(messages, table, planes, expected, decode::u_wind_id(), levels);
    lemma_volume_error_is_failure(messages, table, planes, expected, decode::v_wind_id(), levels);
    lemma_common_levels_have_all(
        fields.temperature,
        fields.moisture,
        fields.u_wind,
        fields.v_wind,
        fields.height,
        table,
        fields.temperature.len() as int,
    );
    lemma_moisture_temperature_suffices(fields, table, levels, planes, expected);
    if volumes::volume_error(fields.height, table, levels, planes, expected, 0) is Some {
        lemma_direct_decode_agrees(
            messages,
            table,
            planes,
            expected,
            failures.with_height(),
            plan,
        );
    } else if decode::moisture_fails(fields, table, levels, planes, expected) {
        lemma_direct_decode_agrees(
            messages,
            table,
            planes,
            expected,
            failures.with_moisture(fields.moisture_branch),
            plan,
        );
    } else {
        lemma_fields_are_collected(messages, table, planes, expected, failures, fields, levels);
        decode::lemma_common_levels_are_base_levels(
            fields.temperature,
            fields.moisture,
            fields.u_wind,
            fields.v_wind,
            fields.height,
            table,
            fields.temperature.len() as int,
        );
        lemma_unpacked_records_fill(fields.temperature, table, levels, planes, expected);
        lemma_unpacked_records_fill(fields.u_wind, table, levels, planes, expected);
        lemma_unpacked_records_fill(fields.v_wind, table, levels, planes, expected);
        lemma_unpacked_records_fill(fields.height, table, levels, planes, expected);
        lemma_unpacked_records_fill(fields.moisture, table, levels, planes, expected);
        lemma_moisture_is_filled(fields, table, levels, planes, expected);
    }
}

proof fn lemma_moisture_is_filled(
    fields: FieldRecordsView,
    table: LevelTable,
    levels: Seq<usize>,
    planes: Seq<Result<nat, Seq<char>>>,
    expected: int,
)
    requires
        0 <= expected,
        collect::levels_filled(fields.moisture, table, levels, planes, expected),
        fields.moisture_branch == MoistureBranch::RelativeHumidity ==> forall|k: int|
            0 <= k < levels.len() ==> planes[#[trigger] decode::moisture_temperature(
                fields,
                table,
                levels,
            )[k] as int] == Ok::<nat, Seq<char>>(expected as nat),
    ensures
        cropped_decode::moisture_filled(fields, table, levels, planes, expected),
{
    if fields.moisture_branch == MoistureBranch::RelativeHumidity {
        let moisture = volumes::slot_messages(fields.moisture, table, levels);
        let temperature = decode::moisture_temperature(fields, table, levels);
        assert forall|k: int| 0 <= k < levels.len() implies cropped_decode::paired_len(
            planes,
            #[trigger] moisture[k],
            temperature[k],
        ) == expected by {
            assert(volumes::at_level(fields.moisture, table, levels[k] as int));
            assert(planes[temperature[k] as int] == Ok::<nat, Seq<char>>(expected as nat));
        }
    }
}

proof fn lemma_fields_are_collected(
    messages: Seq<GribRecord>,
    table: LevelTable,
    planes: Seq<Result<nat, Seq<char>>>,
    expected: int,
    failures: Failures,
    fields: FieldRecordsView,
    levels: Seq<usize>,
)
    requires
        failures_real(messages, planes, failures),
        decode::select_fields(messages, table, failures) == Ok::<FieldRecordsView, DecodeErrorView>(
            fields,
        ),
        collect::first_failure(messages, planes, decode::temperature_id(), 0) is None,
        collect::first_failure(messages, planes, decode::u_wind_id(), 0) is None,
        collect::first_failure(messages, planes, decode::v_wind_id(), 0) is None,
        collect::first_failure(messages, planes, height_branch_id(fields.height_branch), 0) is None,
        collect::first_failure(messages, planes, moisture_id(fields.moisture_branch), 0) is None,
    ensures
        cropped_decode::collected_fields(messages, table, planes) == Ok::<
            FieldRecordsView,
            DecodeErrorView,
        >(fields),
{
}

/// If every message was unpacked to a plane of the grid's size, the direct decode
/// and collecting the levels give the same, plan or error.
pub proof fn law_decodes_agree_without_failures(
    messages: Seq<GribRecord>,
    table: LevelTable,
    planes: Seq<Result<nat, Seq<char>>>,
    expected: int,
)
    requires
        sound_input(messages, table, planes, expected),
        forall|m: int| 0 <= m < planes.len() ==> (#[trigger] planes[m]) is Ok,
    ensures
        decode::decode_plan(messages, table, planes, expected, decode::no_failures())
            == cropped_decode::cropped_plan(messages, table, planes, expected),
{
    let none = decode::no_failures();
    assert forall|id: FieldId|
        #[trigger] collect::first_failure(messages, planes, id, 0) is None by {
        if collect::first_failure(messages, planes, id, 0) is Some {
            let m = lemma_failure_has_record(messages, planes, id, 0);
        }
    }
    match decode::select_fields(messages, table, none) {
        Ok(fields) => {
            lemma_selected_records(messages, table, none, fields);
            let levels = decode::shared_levels(fields, table);
            let hid = height_branch_id(fields.height_branch);
            let mid = moisture_id(fields.moisture_branch);
            lemma_volume_error_is_failure(messages, table, planes, expected, hid, levels);
            lemma_volume_error_is_failure(messages, table, planes, expected, mid, levels);
            lemma_volume_error_is_failure(
                messages,
                table,
                planes,
                expected,
                decode::temperature_id(),
                levels,
            );
            lemma_volume_error_is_failure(
                messages,
                table,
                planes,
                expected,
                decode::u_wind_id(),
                levels,
            );
            lemma_volume_error_is_failure(
                messages,
                table,
                planes,
                expected,
                decode::v_wind_id(),
                levels,
            );
            lemma_common_levels_have_all(
                fields.temperature,
                fields.moisture,
                fields.u_wind,
                fields.v_wind,
                fields.height,
                table,
                fields.temperature.len() as int,
            );
            lemma_moisture_temperature_suffices(fields, table, levels, planes, expected);
            if levels.len() > 0 {
                law_direct_decode_agrees_with_collected(
                    messages,
                    table,
                    planes,
                    expected,
                    decode::plan_of(fields, table, levels),
                );
            } else {
                lemma_fields_are_collected(
                    messages,
                    table,
                    planes,
                    expected,
                    none,
                    fields,
                    levels,
                );
            }
        },
        Err(_) => {},
    }
}

/// The plan of a decode of which every plane was unpacked in its size.
pub open spec fn whole_plan(messages: Seq<GribRecord>, table: LevelTable) -> Result<
    RequiredPlan,
    DecodeErrorView,
> {
    match decode::select_fields(messages, table, decode::no_failures()) {
        Err(error) => Err(error),
        Ok(fields) => {
            let levels = decode::shared_levels(fields, table);
            if levels.len() == 0 {
                Err(
                    DecodeErrorView::Message(
                        "pressure family had no common thermodynamic levels"@,
                    ),
                )
            } else {
                Ok(decode::plan_of(fields, table, levels))
            }
        },
    }
}

/// Whether the planes that a plan gathers are there.
pub open spec fn plan_suffices(
    planes: Seq<Result<nat, Seq<char>>>,
    plan: RequiredPlan,
    expected: int,
) -> bool {
    &&& volumes::planes_suffice(planes, plan.temperature, expected)
    &&& volumes::planes_suffice(planes, plan.u_wind, expected)
    &&& volumes::planes_suffice(planes, plan.v_wind, expected)
    &&& volumes::planes_suffice(planes, plan.height, expected)
    &&& volumes::planes_suffice(planes, plan.moisture, expected)
    &&& volumes::planes_suffice(planes, plan.moisture_temperature, expected)
}

/// Without failures the plan of a decode does not depend on the size of the planes.
pub proof fn lemma_whole_plan(
    messages: Seq<GribRecord>,
    table: LevelTable,
    planes: Seq<Result<nat, Seq<char>>>,
    expected: int,
)
    requires
        sound_input(messages, table, planes, expected),
        forall|m: int| 0 <= m < planes.len() ==> (#[trigger] planes[m]) is Ok,
    ensures
        decode::decode_plan(messages, table, planes, expected, decode::no_failures())
            == whole_plan(messages, table),
        whole_plan(messages, table) matches Ok(plan) ==> plan_suffices(planes, plan, expected),
{
    let none = decode::no_failures();
    assert forall|id: FieldId|
        #[trigger] collect::first_failure(messages, planes, id, 0) is None by {
        if collect::first_failure(messages, planes, id, 0) is Some {
            let m = lemma_failure_has_record(messages, planes, id, 0);
        }
    }
    match decode::select_fields(messages, table, none) {
        Ok(fields) => {
            lemma_selected_records(messages, table, none, fields);
            let levels = decode::shared_levels(fields, table);
            let hid = height_branch_id(fields.height_branch);
            let mid = moisture_id(fields.moisture_branch);
            lemma_volume_error_is_failure(messages, table, planes, expected, hid, levels);
            lemma_volume_error_is_failure(messages, table, planes, expected, mid, levels);
            lemma_volume_error_is_failure(
                messages,
                table,
                planes,
                expected,
                decode::temperature_id(),
                levels,
            );
            lemma_volume_error_is_failure(
                messages,
                table,
                planes,
                expected,
                decode::u_wind_id(),
                levels,
            );
            lemma_volume_error_is_failure(
                messages,
                table,
                planes,
                expected,
                decode::v_wind_id(),
                levels,
            );
            lemma_common_levels_have_all(
                fields.temperature,
                fields.moisture,
                fields.u_wind,
                fields.v_wind,
                fields.height,
                table,
                fields.temperature.len() as int,
            );
            decode::lemma_common_levels_are_base_levels(
                fields.temperature,
                fields.moisture,
                fields.u_wind,
                fields.v_wind,
                fields.height,
                table,
                fields.temperature.len() as int,
            );
            lemma_moisture_temperature_suffices(fields, table, levels, planes, expected);
            lemma_unpacked_records_fill(fields.temperature, table, levels, planes, expected);
            lemma_unpacked_records_fill(fields.u_wind, table, levels, planes, expected);
            lemma_unpacked_records_fill(fields.v_wind, table, levels, planes, expected);
            lemma_unpacked_records_fill(fields.height, table, levels, planes, expected);
            lemma_unpacked_records_fill(fields.moisture, table, levels, planes, expected);
            collect::lemma_filled_levels_suffice(
                fields.temperature,
                table,
                levels,
                planes,
                expected,
            );
            collect::lemma_filled_levels_suffice(fields.u_wind, table, levels, planes, expected);
            collect::lemma_filled_levels_suffice(fields.v_wind, table, levels, planes, expected);
            collect::lemma_filled_levels_suffice(fields.height, table, levels, planes, expected);
            collect::lemma_filled_levels_suffice(fields.moisture, table, levels, planes, expected);
        },
        Err(_) => {},
    }
}

/// Whether each of some levels has a record.
pub open spec fn levels_recorded(
    recs: Seq<LevelRecord>,
    table: LevelTable,
    levels: Seq<usize>,
) -> bool {
    forall|k: int|
        0 <= k < levels.len() ==> volumes::at_level(recs, table, #[trigger] levels[k] as int)
}

/// The records of the first of the candidate fields that a file has.
pub open spec fn recorded_any(
    messages: Seq<GribRecord>,
    table: LevelTable,
    candidates: Seq<FieldId>,
) -> Option<Seq<LevelRecord>>
    decreases candidates.len(),
{
    if candidates.len() == 0 {
        None
    } else {
        let recs = records::records_of(messages, table, candidates[0]);
        if recs.len() > 0 {
            Some(recs)
        } else {
            recorded_any(messages, table, candidates.drop_first())
        }
    }
}

/// Without failures an optional field does not depend on the size of the planes.
pub proof fn lemma_whole_optional(
    messages: Seq<GribRecord>,
    table: LevelTable,
    planes: Seq<Result<nat, Seq<char>>>,
    expected: int,
    candidates: Seq<FieldId>,
    levels: Seq<usize>,
)
    requires
        sound_input(messages, table, planes, expected),
        forall|m: int| 0 <= m < planes.len() ==> (#[trigger] planes[m]) is Ok,
    ensures
        collect::collected_any(messages, table, planes, candidates) == recorded_any(
            messages,
            table,
            candidates,
        ),
        recorded_any(messages, table, candidates) matches Some(recs) ==> {
            &&& collect::levels_filled(recs, table, levels, planes, expected) == levels_recorded(
                recs,
                table,
                levels,
            )
            &&& levels_recorded(recs, table, levels) ==> volumes::planes_suffice(
                planes,
                volumes::slot_messages(recs, table, levels),
                expected,
            )
        },
    decreases candidates.len(),
{
    if candidates.len() > 0 {
        let id = candidates[0];
        let recs = records::records_of(messages, table, id);
        if collect::first_failure(messages, planes, id, 0) is Some {
            let m = lemma_failure_has_record(messages, planes, id, 0);
        }
        if recs.len() > 0 {
            lemma_records_usable(messages, table, id);
            lemma_volume_error_is_failure(messages, table, planes, expected, id, levels);
            if levels_recorded(recs, table, levels) {
                lemma_unpacked_records_fill(recs, table, levels, planes, expected);
                collect::lemma_filled_levels_suffice(recs, table, levels, planes, expected);
            }
        } else {
            lemma_whole_optional(
                messages,
                table,
                planes,
                expected,
                candidates.drop_first(),
                levels,
            );
        }
    }
}

} // verus!
