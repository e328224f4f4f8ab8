//! Decoding the required and optional volumes of a pressure-level file.
use crate::gridded::records;
use crate::gridded::records::{
    find_record, level_records, missing_records_error, FieldId, GribRecord, LevelRecord, LevelTable,
};
use crate::gridded::volumes;
use crate::gridded::volumes::{
    check_volume, common_isobaric_levels, gather_volume, isobaric_id, messages_for_levels,
    DecodeError, DecodeErrorView, HeightBranch, MoistureBranch,
};
use vstd::prelude::*;
use vstd::string::*;

verus! {

/// Which branches have failed so far.
#[derive(Debug, Clone, Copy, PartialEq, Eq, Structural)]
pub struct Failures {
    pub height: bool,
    pub specific_humidity: bool,
    pub dewpoint: bool,
    pub relative_humidity: bool,
}

pub open spec fn one_if(flag: bool) -> nat {
    if flag {
        1
    } else {
        0
    }
}

impl Failures {
    /// How many branches have not failed.
    pub open spec fn left(self) -> nat {
        one_if(!self.height) + one_if(!self.specific_humidity) + one_if(!self.dewpoint) + one_if(
            !self.relative_humidity,
        )
    }

    /// With the branch of the moisture failed.
    pub open spec fn with_moisture(self, branch: MoistureBranch) -> Failures {
        match branch {
            MoistureBranch::SpecificHumidity => Failures { specific_humidity: true, ..self },
            MoistureBranch::Dewpoint => Failures { dewpoint: true, ..self },
            MoistureBranch::RelativeHumidity => Failures { relative_humidity: true, ..self },
        }
    }

    /// With the height branch failed.
    pub open spec fn with_height(self) -> Failures {
        Failures { height: true, ..self }
    }
}

/// No branch has failed.
pub open spec fn no_failures() -> Failures {
    Failures { height: false, specific_humidity: false, dewpoint: false, relative_humidity: false }
}

/// The records of the five required fields, with the branches they come from.
pub struct FieldRecords {
    pub temperature: Vec<LevelRecord>,
    pub u_wind: Vec<LevelRecord>,
    pub v_wind: Vec<LevelRecord>,
    pub height: Vec<LevelRecord>,
    pub height_branch: HeightBranch,
    pub moisture: Vec<LevelRecord>,
    pub moisture_branch: MoistureBranch,
}

/// The records of the five required fields as mathematical values.
pub struct FieldRecordsView {
    pub temperature: Seq<LevelRecord>,
    pub u_wind: Seq<LevelRecord>,
    pub v_wind: Seq<LevelRecord>,
    pub height: Seq<LevelRecord>,
    pub height_branch: HeightBranch,
    pub moisture: Seq<LevelRecord>,
    pub moisture_branch: MoistureBranch,
}

impl View for FieldRecords {
    type V = FieldRecordsView;

    open spec fn view(&self) -> FieldRecordsView {
        FieldRecordsView {
            temperature: self.temperature@,
            u_wind: self.u_wind@,
            v_wind: self.v_wind@,
            height: self.height@,
            height_branch: self.height_branch,
            moisture: self.moisture@,
            moisture_branch: self.moisture_branch,
        }
    }
}

pub open spec fn temperature_id() -> FieldId {
    volumes::isobaric(0, 0)
}

pub open spec fn u_wind_id() -> FieldId {
    volumes::isobaric(2, 2)
}

pub open spec fn v_wind_id() -> FieldId {
    volumes::isobaric(2, 3)
}

pub open spec fn height_id() -> FieldId {
    volumes::isobaric(3, 5)
}

pub open spec fn geopotential_id() -> FieldId {
    volumes::isobaric(3, 4)
}

pub open spec fn specific_humidity_id() -> FieldId {
    volumes::isobaric(1, 0)
}

pub open spec fn dewpoint_id() -> FieldId {
    volumes::isobaric(0, 6)
}

pub open spec fn relative_humidity_id() -> FieldId {
    volumes::isobaric(1, 1)
}

/// The records of a field whose branch has not failed.
pub open spec fn live_records(
    messages: Seq<GribRecord>,
    table: LevelTable,
    id: FieldId,
    failed: bool,
) -> Seq<LevelRecord> {
    if failed {
        Seq::empty()
    } else {
        records::records_of(messages, table, id)
    }
}

/// The height records to use: heights if there are any and they have not failed,
/// else geopotential.
pub open spec fn select_height(
    messages: Seq<GribRecord>,
    table: LevelTable,
    failures: Failures,
) -> Option<(Seq<LevelRecord>, HeightBranch)> {
    let height = live_records(messages, table, height_id(), failures.height);
    let geopotential = records::records_of(messages, table, geopotential_id());
    if height.len() > 0 {
        Some((height, HeightBranch::Height))
    } else if geopotential.len() > 0 {
        Some((geopotential, HeightBranch::Geopotential))
    } else {
        None
    }
}

/// The moisture records to use: the first of specific humidity, dewpoint and
/// relative humidity that there are records of and that has not failed.
pub open spec fn select_moisture(
    messages: Seq<GribRecord>,
    table: LevelTable,
    failures: Failures,
) -> Option<(Seq<LevelRecord>, MoistureBranch)> {
    let q = live_records(messages, table, specific_humidity_id(), failures.specific_humidity);
    let dewpoint = live_records(messages, table, dewpoint_id(), failures.dewpoint);
    let rh = live_records(messages, table, relative_humidity_id(), failures.relative_humidity);
    if q.len() > 0 {
        Some((q, MoistureBranch::SpecificHumidity))
    } else if dewpoint.len() > 0 {
        Some((dewpoint, MoistureBranch::Dewpoint))
    } else if rh.len() > 0 {
        Some((rh, MoistureBranch::RelativeHumidity))
    } else {
        None
    }
}

/// The level of the first moisture record, from `r` on, that no temperature
/// record stands for.
pub open spec fn first_without_temperature(
    moisture: Seq<LevelRecord>,
    temperature: Seq<LevelRecord>,
    table: LevelTable,
    r: int,
) -> Option<usize>
    decreases moisture.len() - r,
{
    if r >= moisture.len() {
        None
    } else if !volumes::at_level(temperature, table, moisture[r].level as int) {
        Some(moisture[r].level)
    } else {
        first_without_temperature(moisture, temperature, table, r + 1)
    }
}

/// The records to decode from, or what is missing.
pub open spec fn select_fields(
    messages: Seq<GribRecord>,
    table: LevelTable,
    failures: Failures,
) -> Result<FieldRecordsView, DecodeErrorView> {
    let temperature = records::records_of(messages, table, temperature_id());
    let u_wind = records::records_of(messages, table, u_wind_id());
    let v_wind = records::records_of(messages, table, v_wind_id());
    if temperature.len() == 0 {
        Err(DecodeErrorView::Message(records::missing_records(temperature_id())))
    } else if u_wind.len() == 0 {
        Err(DecodeErrorView::Message(records::missing_records(u_wind_id())))
    } else if v_wind.len() == 0 {
        Err(DecodeErrorView::Message(records::missing_records(v_wind_id())))
    } else {
        match (
            select_height(messages, table, failures),
            select_moisture(messages, table, failures),
        ) {
            (None, _) => Err(
                DecodeErrorView::Message("missing pressure-level height/geopotential field"@),
            ),
            (Some(_), None) => Err(
                DecodeErrorView::Message(
                    "missing pressure-level specific humidity/dewpoint/RH field for thermodynamics"@,
                ),
            ),
            (Some((height, height_branch)), Some((moisture, moisture_branch))) => if moisture_branch
                == MoistureBranch::RelativeHumidity && first_without_temperature(
                moisture,
                temperature,
                table,
                0,
            ) is Some {
                Err(
                    DecodeErrorView::MissingTemperatureLevel(
                        first_without_temperature(moisture, temperature, table, 0)->0,
                    ),
                )
            } else {
                Ok(
                    FieldRecordsView {
                        temperature,
                        u_wind,
                        v_wind,
                        height,
                        height_branch,
                        moisture,
                        moisture_branch,
                    },
                )
            },
        }
    }
}

/// Which message fills each slot of each volume. There is a slot for each common
/// level.
pub struct RequiredPlan {
    pub levels: Seq<usize>,
    pub temperature: Seq<usize>,
    pub u_wind: Seq<usize>,
    pub v_wind: Seq<usize>,
    pub height: Seq<usize>,
    pub height_branch: HeightBranch,
    pub moisture: Seq<usize>,
    pub moisture_branch: MoistureBranch,
    /// The level of the moisture record of each slot.
    pub moisture_levels: Seq<usize>,
    /// For relative humidity: the temperature message at the level of the
    /// moisture record of each slot.
    pub moisture_temperature: Seq<usize>,
}

/// The levels that all five fields have, in temperature order.
pub open spec fn shared_levels(fields: FieldRecordsView, table: LevelTable) -> Seq<usize> {
    volumes::common_levels(
        fields.temperature,
        fields.moisture,
        fields.u_wind,
        fields.v_wind,
        fields.height,
        table,
        fields.temperature.len() as int,
    )
}

/// The level of the moisture record of each slot.
pub open spec fn moisture_levels(
    fields: FieldRecordsView,
    table: LevelTable,
    levels: Seq<usize>,
) -> Seq<usize> {
    Seq::new(
        levels.len(),
        |k: int| volumes::slot_record(fields.moisture, table, levels[k] as int).level,
    )
}

/// For relative humidity: the temperature message at the level of the moisture
/// record of each slot.
pub open spec fn moisture_temperature(
    fields: FieldRecordsView,
    table: LevelTable,
    levels: Seq<usize>,
) -> Seq<usize> {
    if fields.moisture_branch == MoistureBranch::RelativeHumidity {
        volumes::slot_messages(
            fields.temperature,
            table,
            moisture_levels(fields, table, levels),
        )
    } else {
        Seq::empty()
    }
}

/// The plan that a choice of records gives.
pub open spec fn plan_of(
    fields: FieldRecordsView,
    table: LevelTable,
    levels: Seq<usize>,
) -> RequiredPlan {
    RequiredPlan {
        levels,
        temperature: volumes::slot_messages(fields.temperature, table, levels),
        u_wind: volumes::slot_messages(fields.u_wind, table, levels),
        v_wind: volumes::slot_messages(fields.v_wind, table, levels),
        height: volumes::slot_messages(fields.height, table, levels),
        height_branch: fields.height_branch,
        moisture: volumes::slot_messages(fields.moisture, table, levels),
        moisture_branch: fields.moisture_branch,
        moisture_levels: moisture_levels(fields, table, levels),
        moisture_temperature: moisture_temperature(fields, table, levels),
    }
}

/// Whether the moisture branch fails: a plane does, or a temperature plane that
/// it needs is too short.
pub open spec fn moisture_fails(
    fields: FieldRecordsView,
    table: LevelTable,
    levels: Seq<usize>,
    planes: Seq<Result<nat, Seq<char>>>,
    expected: int,
) -> bool {
    ||| volumes::volume_error(fields.moisture, table, levels, planes, expected, 0) is Some
    ||| !volumes::planes_suffice(planes, moisture_temperature(fields, table, levels), expected)
}

/// The plan to decode by, after the given branches have failed. A branch that
/// fails is given up and the next one tried; temperature and wind have no other
/// branch.
pub open spec fn decode_plan(
    messages: Seq<GribRecord>,
    table: LevelTable,
    planes: Seq<Result<nat, Seq<char>>>,
    expected: int,
    failures: Failures,
) -> Result<RequiredPlan, DecodeErrorView>
    decreases failures.left(),
{
    match select_fields(messages, table, failures) {
        Err(error) => Err(error),
        Ok(fields) => {
            let levels = shared_levels(fields, table);
            let temperature_error = volumes::volume_error(
                fields.temperature,
                table,
                levels,
                planes,
                expected,
                0,
            );
            let u_error = volumes::volume_error(fields.u_wind, table, levels, planes, expected, 0);
            let v_error = volumes::volume_error(fields.v_wind, table, levels, planes, expected, 0);
            let height_error = volumes::volume_error(
                fields.height,
                table,
                levels,
                planes,
                expected,
                0,
            );
            if levels.len() == 0 {
                Err(
                    DecodeErrorView::Message(
                        "pressure family had no common thermodynamic levels"@,
                    ),
                )
            } else if temperature_error is Some {
                Err(DecodeErrorView::Message(temperature_error->0))
            } else if u_error is Some {
                Err(DecodeErrorView::Message(u_error->0))
            } else if v_error is Some {
                Err(DecodeErrorView::Message(v_error->0))
            } else if height_error is Some {
                if fields.height_branch == HeightBranch::Height && !failures.height {
                    decode_plan(messages, table, planes, expected, failures.with_height())
                } else {
                    Err(
                        DecodeErrorView::Message(
                            "missing pressure-level height/geopotential field"@,
                        ),
                    )
                }
            } else if moisture_fails(fields, table, levels, planes, expected) {
                let next = failures.with_moisture(fields.moisture_branch);
                if next != failures {
                    decode_plan(messages, table, planes, expected, next)
                } else {
                    Err(
                        DecodeErrorView::Message(
                            "missing pressure-level specific humidity/dewpoint/RH field for thermodynamics"@,
                        ),
                    )
                }
            } else {
                Ok(plan_of(fields, table, levels))
            }
        },
    }
}

/// The gathered planes of the five required volumes, before conversion.
pub struct DecodedRequiredVolumes<T> {
    /// The common levels, by their places in the level table.
    pub levels: Vec<usize>,
    pub temperature_k_3d: Vec<T>,
    pub u_ms_3d: Vec<T>,
    pub v_ms_3d: Vec<T>,
    pub height_3d: Vec<T>,
    pub height_branch: HeightBranch,
    pub moisture_3d: Vec<T>,
    pub moisture_branch: MoistureBranch,
    /// The level of the moisture record of each slot.
    pub moisture_levels: Vec<usize>,
    /// For relative humidity: the temperatures at the level of each moisture
    /// record.
    pub moisture_temperature_k_3d: Vec<T>,
}

/// Whether volumes were gathered by a plan.
pub open spec fn gathered_by<T>(
    volumes: DecodedRequiredVolumes<T>,
    plan: RequiredPlan,
    planes: Seq<Result<Vec<T>, String>>,
    expected: int,
) -> bool {
    &&& volumes.levels@ == plan.levels
    &&& volumes.temperature_k_3d@ == volumes::gathered(planes, plan.temperature, expected)
    &&& volumes.u_ms_3d@ == volumes::gathered(planes, plan.u_wind, expected)
    &&& volumes.v_ms_3d@ == volumes::gathered(planes, plan.v_wind, expected)
    &&& volumes.height_3d@ == volumes::gathered(planes, plan.height, expected)
    &&& volumes.height_branch == plan.height_branch
    &&& volumes.moisture_3d@ == volumes::gathered(planes, plan.moisture, expected)
    &&& volumes.moisture_branch == plan.moisture_branch
    &&& volumes.moisture_levels@ == plan.moisture_levels
    &&& volumes.moisture_temperature_k_3d@ == volumes::gathered(
        planes,
        plan.moisture_temperature,
        expected,
    )
}

/// Whether volumes hold a plane of a size for each of their levels.
pub open spec fn sized<T>(volumes: DecodedRequiredVolumes<T>, expected: int) -> bool {
    let len = volumes.levels@.len() * expected;
    &&& volumes.temperature_k_3d@.len() == len
    &&& volumes.u_ms_3d@.len() == len
    &&& volumes.v_ms_3d@.len() == len
    &&& volumes.height_3d@.len() == len
    &&& volumes.moisture_3d@.len() == len
    &&& volumes.moisture_levels@.len() == volumes.levels@.len()
    &&& volumes.moisture_branch == MoistureBranch::RelativeHumidity
        ==> volumes.moisture_temperature_k_3d@.len() == len
}

fn live_level_records(
    messages: &[GribRecord],
    table: &LevelTable,
    id: FieldId,
    failed: bool,
) -> (recs: Vec<LevelRecord>)
    requires
        table.wf(),
        records::levels_known(messages@, *table),
    ensures
        recs@ == live_records(messages@, *table, id, failed),
        volumes::records_usable(recs@, *table, messages@.len() as int),
{
    if failed {
        Vec::new()
    } else {
        let recs = level_records(messages, table, id);
        proof {
            lemma_usable(recs@, messages@, *table, id);
        }
        recs
    }
}

pub proof fn lemma_usable(
    recs: Seq<LevelRecord>,
    messages: Seq<GribRecord>,
    table: LevelTable,
    id: FieldId,
)
    requires
        records::levels_known(messages, table),
        records::records_point_at(recs, messages, id, messages.len() as int),
    ensures
        volumes::records_usable(recs, table, messages.len() as int),
{
    assert forall|k: int| 0 <= k < recs.len() implies (#[trigger] recs[k]).level < table.count()
        && recs[k].message < messages.len() by {
        assert(messages[recs[k].message as int].level < table.count());
    }
}

/// Whether all records point at messages and have known levels.
pub open spec fn fields_usable(
    fields: FieldRecordsView,
    table: LevelTable,
    message_count: int,
) -> bool {
    &&& volumes::records_usable(fields.temperature, table, message_count)
    &&& volumes::records_usable(fields.u_wind, table, message_count)
    &&& volumes::records_usable(fields.v_wind, table, message_count)
    &&& volumes::records_usable(fields.height, table, message_count)
    &&& volumes::records_usable(fields.moisture, table, message_count)
}

pub(crate) fn find_without_temperature(
    moisture: &[LevelRecord],
    temperature: &[LevelRecord],
    table: &LevelTable,
) -> (level: Option<usize>)
    requires
        table.wf(),
        records::record_levels_known(moisture@, *table),
        records::record_levels_known(temperature@, *table),
    ensures
        level == first_without_temperature(moisture@, temperature@, *table, 0),
{
    let mut r: usize = 0;
    while r < moisture.len()
        invariant
            r <= moisture@.len(),
            table.wf(),
            records::record_levels_known(moisture@, *table),
            records::record_levels_known(temperature@, *table),
            first_without_temperature(moisture@, temperature@, *table, 0)
                == first_without_temperature(moisture@, temperature@, *table, r as int),
        decreases moisture.len() - r,
    {
        assert(moisture@[r as int].level < table.count());
        if find_record(temperature, table, moisture[r].level).is_none() {
            return Some(moisture[r].level);
        }
        r += 1;
    }
    None
}

fn pick_height(messages: &[GribRecord], table: &LevelTable, failures: Failures) -> (picked: Option<
    (Vec<LevelRecord>, HeightBranch),
>)
    requires
        table.wf(),
        records::levels_known(messages@, *table),
    ensures
        match picked {
            Some((recs, branch)) => {
                &&& select_height(messages@, *table, failures) == Some((recs@, branch))
                &&& volumes::records_usable(recs@, *table, messages@.len() as int)
            },
            None => select_height(messages@, *table, failures) is None,
        },
{
    let height = live_level_records(messages, table, isobaric_id(3, 5), failures.height);
    if height.len() > 0 {
        return Some((height, HeightBranch::Height));
    }
    let geopotential = live_level_records(messages, table, isobaric_id(3, 4), false);
    if geopotential.len() > 0 {
        Some((geopotential, HeightBranch::Geopotential))
    } else {
        None
    }
}

fn pick_moisture(messages: &[GribRecord], table: &LevelTable, failures: Failures) -> (picked:
    Option<(Vec<LevelRecord>, MoistureBranch)>)
    requires
        table.wf(),
        records::levels_known(messages@, *table),
    ensures
        match picked {
            Some((recs, branch)) => {
                &&& select_moisture(messages@, *table, failures) == Some((recs@, branch))
                &&& volumes::records_usable(recs@, *table, messages@.len() as int)
            },
            None => select_moisture(messages@, *table, failures) is None,
        },
{
    let q = live_level_records(messages, table, isobaric_id(1, 0), failures.specific_humidity);
    if q.len() > 0 {
        return Some((q, MoistureBranch::SpecificHumidity));
    }
    let dewpoint = live_level_records(messages, table, isobaric_id(0, 6), failures.dewpoint);
    if dewpoint.len() > 0 {
        return Some((dewpoint, MoistureBranch::Dewpoint));
    }
    let rh = live_level_records(messages, table, isobaric_id(1, 1), failures.relative_humidity);
    if rh.len() > 0 {
        Some((rh, MoistureBranch::RelativeHumidity))
    } else {
        None
    }
}

fn pick_fields(messages: &[GribRecord], table: &LevelTable, failures: Failures) -> (picked: Result<
    FieldRecords,
    DecodeError,
>)
    requires
        table.wf(),
        records::levels_known(messages@, *table),
    ensures
        match picked {
            Ok(fields) => {
                &&& select_fields(messages@, *table, failures) == Ok::<
                    FieldRecordsView,
                    DecodeErrorView,
                >(fields@)
                &&& fields_usable(fields@, *table, messages@.len() as int)
                &&& fields.moisture_branch == MoistureBranch::RelativeHumidity
                    ==> first_without_temperature(
                    fields.moisture@,
                    fields.temperature@,
                    *table,
                    0,
                ) is None
            },
            Err(error) => select_fields(messages@, *table, failures) == Err::<
                FieldRecordsView,
                DecodeErrorView,
            >(error@),
        },
{
    let temperature = live_level_records(messages, table, isobaric_id(0, 0), false);
    if temperature.len() == 0 {
        return Err(DecodeError::Message(missing_records_error(isobaric_id(0, 0))));
    }
    let u_wind = live_level_records(messages, table, isobaric_id(2, 2), false);
    if u_wind.len() == 0 {
        return Err(DecodeError::Message(missing_records_error(isobaric_id(2, 2))));
    }
    let v_wind = live_level_records(messages, table, isobaric_id(2, 3), false);
    if v_wind.len() == 0 {
        return Err(DecodeError::Message(missing_records_error(isobaric_id(2, 3))));
    }
    let (height, height_branch) = match pick_height(messages, table, failures) {
        Some(picked) => picked,
        None => {
            return Err(
                DecodeError::Message(
                    "missing pressure-level height/geopotential field".to_owned(),
                ),
            );
        },
    };
    let (moisture, moisture_branch) = match pick_moisture(messages, table, failures) {
        Some(picked) => picked,
        None => {
            return Err(
                DecodeError::Message(
                    "missing pressure-level specific humidity/dewpoint/RH field for thermodynamics".to_owned(),
                ),
            );
        },
    };
    if moisture_branch == MoistureBranch::RelativeHumidity {
        match find_without_temperature(moisture.as_slice(), temperature.as_slice(), table) {
            Some(level) => {
                return Err(DecodeError::MissingTemperatureLevel(level));
            },
            None => {},
        }
    }
    Ok(
        FieldRecords {
            temperature,
            u_wind,
            v_wind,
            height,
            height_branch,
            moisture,
            moisture_branch,
        },
    )
}

proof fn lemma_temperature_at_moisture_records(
    moisture: Seq<LevelRecord>,
    temperature: Seq<LevelRecord>,
    table: LevelTable,
    from: int,
    r: int,
)
    requires
        0 <= from <= r < moisture.len(),
        first_without_temperature(moisture, temperature, table, from) is None,
    ensures
        volumes::at_level(temperature, table, moisture[r].level as int),
    decreases r - from,
{
    if from < r {
        lemma_temperature_at_moisture_records(moisture, temperature, table, from + 1, r);
    }
}

/// Whether a record stands at a level.
pub open spec fn is_level_of(recs: Seq<LevelRecord>, level: usize) -> bool {
    exists|r: int| 0 <= r < recs.len() && level == (#[trigger] recs[r]).level
}

pub(crate) fn moisture_record_levels(
    recs: &[LevelRecord],
    table: &LevelTable,
    levels: &[usize],
) -> (found: Vec<usize>)
    requires
        table.wf(),
        records::record_levels_known(recs@, *table),
        forall|k: int| 0 <= k < levels@.len() ==> #[trigger] levels@[k] < table.count(),
        forall|k: int|
            0 <= k < levels@.len() ==> volumes::at_level(
                recs@,
                *table,
                #[trigger] levels@[k] as int,
            ),
    ensures
        found@ == Seq::new(
            levels@.len(),
            |k: int| volumes::slot_record(recs@, *table, levels@[k] as int).level,
        ),
        forall|k: int|
            0 <= k < found@.len() ==> is_level_of(recs@, #[trigger] found@[k]),
{
    let mut found: Vec<usize> = Vec::new();
    let mut k: usize = 0;
    while k < levels.len()
        invariant
            k <= levels@.len(),
            found@.len() == k,
            table.wf(),
            records::record_levels_known(recs@, *table),
            forall|k: int| 0 <= k < levels@.len() ==> #[trigger] levels@[k] < table.count(),
            forall|k: int|
                0 <= k < levels@.len() ==> volumes::at_level(
                    recs@,
                    *table,
                    #[trigger] levels@[k] as int,
                ),
            forall|j: int|
                0 <= j < k ==> #[trigger] found@[j] == volumes::slot_record(
                    recs@,
                    *table,
                    levels@[j] as int,
                ).level,
            forall|j: int|
                0 <= j < k ==> is_level_of(recs@, #[trigger] found@[j]),
        decreases levels.len() - k,
    {
        assert(volumes::at_level(recs@, *table, levels@[k as int] as int));
        match find_record(recs, table, levels[k]) {
            Some(r) => {
                found.push(recs[r].level);
                assert(is_level_of(recs@, recs@[r as int].level));
            },
            None => {},
        }
        k += 1;
    }
    assert(found@ =~= Seq::new(
        levels@.len(),
        |k: int| volumes::slot_record(recs@, *table, levels@[k] as int).level,
    ));
    found
}

/// For relative humidity, the levels of the moisture records have temperatures.
pub proof fn lemma_moisture_levels_have_temperature(
    fields: FieldRecordsView,
    table: LevelTable,
    levels: Seq<usize>,
)
    requires
        records::record_levels_known(fields.moisture, table),
        forall|k: int| 0 <= k < levels.len() ==> is_level_of(fields.moisture, #[trigger] levels[k]),
        fields.moisture_branch == MoistureBranch::RelativeHumidity ==> first_without_temperature(
            fields.moisture,
            fields.temperature,
            table,
            0,
        ) is None,
    ensures
        forall|k: int| 0 <= k < levels.len() ==> #[trigger] levels[k] < table.count(),
        fields.moisture_branch == MoistureBranch::RelativeHumidity ==> forall|k: int|
            0 <= k < levels.len() ==> volumes::at_level(
                fields.temperature,
                table,
                #[trigger] levels[k] as int,
            ),
{
    assert forall|k: int| 0 <= k < levels.len() implies #[trigger] levels[k] < table.count() && (
    fields.moisture_branch == MoistureBranch::RelativeHumidity ==> volumes::at_level(
        fields.temperature,
        table,
        levels[k] as int,
    )) by {
        assert(is_level_of(fields.moisture, levels[k]));
        let r = choose|r: int|
            0 <= r < fields.moisture.len() && levels[k] == (#[trigger] fields.moisture[r]).level;
        assert(fields.moisture[r].level < table.count());
        if fields.moisture_branch == MoistureBranch::RelativeHumidity {
            lemma_temperature_at_moisture_records(
                fields.moisture,
                fields.temperature,
                table,
                0,
                r,
            );
        }
    }
}

pub(crate) fn all_planes_suffice<T>(
    planes: &[Result<Vec<T>, String>],
    messages: &[usize],
    expected: usize,
) -> (suffice: bool)
    ensures
        suffice == volumes::planes_suffice(
            volumes::outcomes(planes@),
            messages@,
            expected as int,
        ),
{
    let ghost all = volumes::outcomes(planes@);
    let mut k: usize = 0;
    while k < messages.len()
        invariant
            k <= messages@.len(),
            all == volumes::outcomes(planes@),
            forall|j: int|
                0 <= j < k ==> {
                    &&& (#[trigger] messages@[j]) < all.len()
                    &&& all[messages@[j] as int] is Ok
                    &&& all[messages@[j] as int]->Ok_0 >= expected
                },
        decreases messages.len() - k,
    {
        let message = messages[k];
        if message >= planes.len() {
            assert(!(messages@[k as int] < all.len()));
            return false;
        }
        match &planes[message] {
            Ok(values) => {
                if values.len() < expected {
                    assert(all[messages@[k as int] as int]->Ok_0 < expected);
                    return false;
                }
            },
            Err(_) => {
                assert(all[messages@[k as int] as int] is Err);
                return false;
            },
        }
        k += 1;
    }
    true
}

/// A volume without an error gives enough values for every slot.
pub proof fn lemma_sound_volume_suffices(
    recs: Seq<LevelRecord>,
    table: LevelTable,
    levels: Seq<usize>,
    planes: Seq<Result<nat, Seq<char>>>,
    expected: int,
)
    requires
        volumes::records_usable(recs, table, planes.len() as int),
        volumes::volume_error(recs, table, levels, planes, expected, 0) is None,
        forall|k: int|
            0 <= k < levels.len() ==> volumes::at_level(recs, table, #[trigger] levels[k] as int),
    ensures
        volumes::planes_suffice(planes, volumes::slot_messages(recs, table, levels), expected),
{
    let slots = volumes::slot_messages(recs, table, levels);
    assert forall|k: int| 0 <= k < slots.len() implies {
        &&& (#[trigger] slots[k]) < planes.len()
        &&& planes[slots[k] as int] is Ok
        &&& planes[slots[k] as int]->Ok_0 >= expected
    } by {
        assert(volumes::at_level(recs, table, levels[k] as int));
        records::lemma_first_at_level(recs, table, levels[k] as int);
        let r = records::first_at_level(recs, table, levels[k] as int)->0;
        assert(volumes::is_selected(recs, table, levels, r));
        assert(slots[k] == recs[r].message);
        lemma_no_record_error(recs, table, levels, planes, expected, 0, r);
    }
}

pub proof fn lemma_no_record_error(
    recs: Seq<LevelRecord>,
    table: LevelTable,
    levels: Seq<usize>,
    planes: Seq<Result<nat, Seq<char>>>,
    expected: int,
    from: int,
    r: int,
)
    requires
        0 <= from <= r < recs.len(),
        volumes::volume_error(recs, table, levels, planes, expected, from) is None,
    ensures
        volumes::record_error(recs, table, levels, planes, expected, r) is None,
    decreases r - from,
{
    if from < r {
        lemma_no_record_error(recs, table, levels, planes, expected, from + 1, r);
    }
}

/// The base records stand for the common levels too.
pub proof fn lemma_common_levels_are_base_levels(
    base: Seq<LevelRecord>,
    a: Seq<LevelRecord>,
    b: Seq<LevelRecord>,
    c: Seq<LevelRecord>,
    d: Seq<LevelRecord>,
    table: LevelTable,
    count: int,
)
    requires
        0 <= count <= base.len(),
        table.consistent(),
        records::record_levels_known(base, table),
        records::record_levels_known(a, table),
    ensures
        forall|k: int|
            0 <= k < volumes::common_levels(base, a, b, c, d, table, count).len()
                ==> volumes::at_level(
                base,
                table,
                #[trigger] volumes::common_levels(base, a, b, c, d, table, count)[k] as int,
            ),
    decreases count,
{
    if count > 0 {
        lemma_common_levels_are_base_levels(base, a, b, c, d, table, count - 1);
        let before = volumes::common_levels(base, a, b, c, d, table, count - 1);
        let after = volumes::common_levels(base, a, b, c, d, table, count);
        let level = base[count - 1].level as int;
        records::lemma_first_at_level(base, table, level);
        if volumes::at_level(a, table, level) {
            records::lemma_first_at_level(a, table, level);
            let r = records::first_at_level(a, table, level)->0;
            assert(a[r].level < table.count());
            assert(table.counts_as(a[r].level as int, level));
            assert(table.counts_as(level, level));
        }
        assert forall|k: int| 0 <= k < after.len() implies volumes::at_level(
            base,
            table,
            #[trigger] after[k] as int,
        ) by {
            if k < before.len() {
                assert(after[k] == before[k]);
            }
        }
    }
}

/// Gathers the five required volumes of a pressure-level file on `nx` by `ny`
/// cells, or tells why they cannot be.
pub fn decode_required_volumes<T: Copy>(
    messages: &[GribRecord],
    table: &LevelTable,
    planes: &[Result<Vec<T>, String>],
    nx: usize,
    ny: usize,
) -> (decoded: Result<DecodedRequiredVolumes<T>, DecodeError>)
    requires
        table.wf(),
        table.consistent(),
        records::levels_known(messages@, *table),
        planes@.len() == messages@.len(),
        nx * ny <= usize::MAX,
    ensures
        match decoded {
            Ok(volumes) => {
                let plan = decode_plan(
                    messages@,
                    *table,
                    volumes::outcomes(planes@),
                    nx * ny,
                    no_failures(),
                );
                &&& plan is Ok
                &&& gathered_by(volumes, plan->Ok_0, planes@, nx * ny)
                &&& sized(volumes, nx * ny)
                &&& forall|k: int|
                    0 <= k < volumes.levels@.len() ==> #[trigger] volumes.levels@[k]
                        < table.count()
            },
            Err(error) => decode_plan(
                messages@,
                *table,
                volumes::outcomes(planes@),
                nx * ny,
                no_failures(),
            ) == Err::<RequiredPlan, DecodeErrorView>(error@),
        },
{
    let expected: usize = nx * ny;
    let ghost all = volumes::outcomes(planes@);
    let mut failures = Failures {
        height: false,
        specific_humidity: false,
        dewpoint: false,
        relative_humidity: false,
    };
    loop
        invariant
            table.wf(),
            table.consistent(),
            records::levels_known(messages@, *table),
            planes@.len() == messages@.len(),
            expected == nx * ny,
            all == volumes::outcomes(planes@),
            decode_plan(messages@, *table, all, expected as int, no_failures()) == decode_plan(
                messages@,
                *table,
                all,
                expected as int,
                failures,
            ),
        decreases failures.left(),
    {
        let fields = match pick_fields(messages, table, failures) {
            Ok(fields) => fields,
            Err(error) => {
                return Err(error);
            },
        };
        let levels = common_isobaric_levels(
            fields.temperature.as_slice(),
            fields.moisture.as_slice(),
            fields.u_wind.as_slice(),
            fields.v_wind.as_slice(),
            fields.height.as_slice(),
            table,
        );
        if levels.len() == 0 {
            return Err(
                DecodeError::Message(
                    "pressure family had no common thermodynamic levels".to_owned(),
                ),
            );
        }
        match check_volume(
            fields.temperature.as_slice(),
            table,
            levels.as_slice(),
            planes,
            expected,
        ) {
            Some(message) => {
                return Err(DecodeError::Message(message));
            },
            None => {},
        }
        match check_volume(fields.u_wind.as_slice(), table, levels.as_slice(), planes, expected) {
            Some(message) => {
                return Err(DecodeError::Message(message));
            },
            None => {},
        }
        match check_volume(fields.v_wind.as_slice(), table, levels.as_slice(), planes, expected) {
            Some(message) => {
                return Err(DecodeError::Message(message));
            },
            None => {},
        }
        if check_volume(
            fields.height.as_slice(),
            table,
            levels.as_slice(),
            planes,
            expected,
        ).is_some() {
            if fields.height_branch == HeightBranch::Height {
                failures.height = true;
                continue ;
            }
            return Err(
                DecodeError::Message(
                    "missing pressure-level height/geopotential field".to_owned(),
                ),
            );
        }
        let moisture_error = check_volume(
            fields.moisture.as_slice(),
            table,
            levels.as_slice(),
            planes,
            expected,
        ).is_some();
        let record_levels = moisture_record_levels(
            fields.moisture.as_slice(),
            table,
            levels.as_slice(),
        );
        proof {
            lemma_moisture_levels_have_temperature(fields@, *table, record_levels@);
        }
        let temperature_messages: Vec<usize> = if fields.moisture_branch
            == MoistureBranch::RelativeHumidity {
            messages_for_levels(fields.temperature.as_slice(), table, record_levels.as_slice())
        } else {
            Vec::new()
        };
        assert(temperature_messages@ =~= moisture_temperature(fields@, *table, levels@));
        if moisture_error || !all_planes_suffice(planes, temperature_messages.as_slice(), expected) {
            match fields.moisture_branch {
                MoistureBranch::SpecificHumidity => {
                    failures.specific_humidity = true;
                },
                MoistureBranch::Dewpoint => {
                    failures.dewpoint = true;
                },
                MoistureBranch::RelativeHumidity => {
                    failures.relative_humidity = true;
                },
            }
            continue ;
        }
        proof {
            lemma_common_levels_are_base_levels(
                fields.temperature@,
                fields.moisture@,
                fields.u_wind@,
                fields.v_wind@,
                fields.height@,
                *table,
                fields.temperature@.len() as int,
            );
            lemma_sound_volume_suffices(fields.temperature@, *table, levels@, all, expected as int);
            lemma_sound_volume_suffices(fields.u_wind@, *table, levels@, all, expected as int);
            lemma_sound_volume_suffices(fields.v_wind@, *table, levels@, all, expected as int);
            lemma_sound_volume_suffices(fields.height@, *table, levels@, all, expected as int);
            lemma_sound_volume_suffices(fields.moisture@, *table, levels@, all, expected as int);
        }
        let temperature = messages_for_levels(
            fields.temperature.as_slice(),
            table,
            levels.as_slice(),
        );
        let u_wind = messages_for_levels(fields.u_wind.as_slice(), table, levels.as_slice());
        let v_wind = messages_for_levels(fields.v_wind.as_slice(), table, levels.as_slice());
        let height = messages_for_levels(fields.height.as_slice(), table, levels.as_slice());
        let moisture = messages_for_levels(fields.moisture.as_slice(), table, levels.as_slice());
        return Ok(
            DecodedRequiredVolumes {
                temperature_k_3d: gather_volume(planes, temperature.as_slice(), expected),
                u_ms_3d: gather_volume(planes, u_wind.as_slice(), expected),
                v_ms_3d: gather_volume(planes, v_wind.as_slice(), expected),
                height_3d: gather_volume(planes, height.as_slice(), expected),
                height_branch: fields.height_branch,
                moisture_3d: gather_volume(planes, moisture.as_slice(), expected),
                moisture_branch: fields.moisture_branch,
                moisture_levels: record_levels,
                moisture_temperature_k_3d: gather_volume(
                    planes,
                    temperature_messages.as_slice(),
                    expected,
                ),
                levels,
            },
        );
    }
}

} // verus!
