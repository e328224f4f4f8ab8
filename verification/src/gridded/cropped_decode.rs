//! Decoding a rectangle of a pressure-level file, from planes that are already
//! cropped to it.
use crate::gridded::collect;
use crate::gridded::collect::{
    collect_levels, gather_optional_volumes, pressure_grid_shape_from_messages, OptionalVolumes,
};
use crate::gridded::crop::GridCrop;
use crate::gridded::decode;
use crate::gridded::decode::{
    find_without_temperature, moisture_record_levels, DecodedRequiredVolumes, FieldRecords,
    FieldRecordsView, RequiredPlan,
};
use crate::gridded::records;
use crate::gridded::records::{GribRecord, LevelRecord, LevelTable};
use crate::gridded::volumes;
use crate::gridded::volumes::{
    common_isobaric_levels, gather_volume, isobaric_id, messages_for_levels, DecodeError,
    DecodeErrorView, HeightBranch, MoistureBranch,
};
use vstd::prelude::*;
use vstd::string::*;

verus! {

/// The height records of a cropped decode: heights if they can be collected,
/// else geopotential.
pub open spec fn collected_height(
    messages: Seq<GribRecord>,
    table: LevelTable,
    planes: Seq<Result<nat, Seq<char>>>,
) -> Option<(Seq<LevelRecord>, HeightBranch)> {
    match collect::collected(messages, table, planes, decode::height_id()) {
        Ok(recs) => Some((recs, HeightBranch::Height)),
        Err(_) => match collect::collected(messages, table, planes, decode::geopotential_id()) {
            Ok(recs) => Some((recs, HeightBranch::Geopotential)),
            Err(_) => None,
        },
    }
}

/// The moisture records of a cropped decode: the first of specific humidity,
/// dewpoint and relative humidity that can be collected.
pub open spec fn collected_moisture(
    messages: Seq<GribRecord>,
    table: LevelTable,
    planes: Seq<Result<nat, Seq<char>>>,
) -> Option<(Seq<LevelRecord>, MoistureBranch)> {
    match collect::collected(messages, table, planes, decode::specific_humidity_id()) {
        Ok(recs) => Some((recs, MoistureBranch::SpecificHumidity)),
        Err(_) => match collect::collected(messages, table, planes, decode::dewpoint_id()) {
            Ok(recs) => Some((recs, MoistureBranch::Dewpoint)),
            Err(_) => match collect::collected(
                messages,
                table,
                planes,
                decode::relative_humidity_id(),
            ) {
                Ok(recs) => Some((recs, MoistureBranch::RelativeHumidity)),
                Err(_) => None,
            },
        },
    }
}

/// The records of a cropped decode, or what is missing.
pub open spec fn collected_fields(
    messages: Seq<GribRecord>,
    table: LevelTable,
    planes: Seq<Result<nat, Seq<char>>>,
) -> Result<FieldRecordsView, DecodeErrorView> {
    match (
        collect::collected(messages, table, planes, decode::temperature_id()),
        collect::collected(messages, table, planes, decode::u_wind_id()),
        collect::collected(messages, table, planes, decode::v_wind_id()),
        collected_height(messages, table, planes),
        collected_moisture(messages, table, planes),
    ) {
        (Err(message), _, _, _, _) => Err(DecodeErrorView::Message(message)),
        (Ok(_), Err(message), _, _, _) => Err(DecodeErrorView::Message(message)),
        (Ok(_), Ok(_), Err(message), _, _) => Err(DecodeErrorView::Message(message)),
        (Ok(_), Ok(_), Ok(_), None, _) => Err(
            DecodeErrorView::Message("missing pressure-level height/geopotential field"@),
        ),
        (Ok(_), Ok(_), Ok(_), Some(_), None) => Err(
            DecodeErrorView::Message(
                "missing pressure-level specific humidity/dewpoint/RH field for thermodynamics"@,
            ),
        ),
        (
            Ok(temperature),
            Ok(u_wind),
            Ok(v_wind),
            Some((height, height_branch)),
            Some((moisture, moisture_branch)),
        ) => if moisture_branch == MoistureBranch::RelativeHumidity
            && decode::first_without_temperature(moisture, temperature, table, 0) is Some {
            Err(
                DecodeErrorView::MissingTemperatureLevel(
                    decode::first_without_temperature(moisture, temperature, table, 0)->0,
                ),
            )
        } else {
            Ok(
                FieldRecordsView {
                    temperature,
                    u_wind,
                    v_wind,
                    height,
                    height_branch,
                    moisture,
                    moisture_branch,
                },
            )
        },
    }
}

/// The number of values that a moisture plane and the temperature plane that it
/// is combined with give: that of the shorter one.
pub open spec fn paired_len(
    planes: Seq<Result<nat, Seq<char>>>,
    moisture: usize,
    temperature: usize,
) -> int {
    match (planes[moisture as int], planes[temperature as int]) {
        (Ok(a), Ok(b)) => if a <= b {
            a as int
        } else {
            b as int
        },
        _ => -1,
    }
}

/// Whether every slot of the moisture volume has the size of the crop.
pub open spec fn moisture_filled(
    fields: FieldRecordsView,
    table: LevelTable,
    levels: Seq<usize>,
    planes: Seq<Result<nat, Seq<char>>>,
    expected: int,
) -> bool {
    if fields.moisture_branch == MoistureBranch::RelativeHumidity {
        let moisture = volumes::slot_messages(fields.moisture, table, levels);
        let temperature = decode::moisture_temperature(fields, table, levels);
        forall|k: int|
            0 <= k < levels.len() ==> paired_len(
                planes,
                #[trigger] moisture[k],
                temperature[k],
            ) == expected
    } else {
        collect::levels_filled(fields.moisture, table, levels, planes, expected)
    }
}

/// Whether every slot of every required volume has the size of the crop.
pub open spec fn all_filled(
    fields: FieldRecordsView,
    table: LevelTable,
    levels: Seq<usize>,
    planes: Seq<Result<nat, Seq<char>>>,
    expected: int,
) -> bool {
    &&& collect::levels_filled(fields.temperature, table, levels, planes, expected)
    &&& moisture_filled(fields, table, levels, planes, expected)
    &&& collect::levels_filled(fields.u_wind, table, levels, planes, expected)
    &&& collect::levels_filled(fields.v_wind, table, levels, planes, expected)
    &&& collect::levels_filled(fields.height, table, levels, planes, expected)
}

/// The plan of a cropped decode, or why there is none.
pub open spec fn cropped_plan(
    messages: Seq<GribRecord>,
    table: LevelTable,
    planes: Seq<Result<nat, Seq<char>>>,
    expected: int,
) -> Result<RequiredPlan, DecodeErrorView> {
    match collected_fields(messages, table, planes) {
        Err(error) => Err(error),
        Ok(fields) => {
            let levels = decode::shared_levels(fields, table);
            if levels.len() == 0 {
                Err(
                    DecodeErrorView::Message(
                        "pressure family had no common thermodynamic levels"@,
                    ),
                )
            } else if !all_filled(fields, table, levels, planes, expected) {
                Err(
                    DecodeErrorView::Message(
                        "decoded cropped pressure field had unexpected grid size"@,
                    ),
                )
            } else {
                Ok(decode::plan_of(fields, table, levels))
            }
        },
    }
}

/// Whether all records can be used and point at unpacked messages.
pub open spec fn fields_ready(
    fields: FieldRecordsView,
    table: LevelTable,
    planes: Seq<Result<nat, Seq<char>>>,
) -> bool {
    &&& decode::fields_usable(fields, table, planes.len() as int)
    &&& collect::all_unpacked(fields.temperature, planes)
    &&& collect::all_unpacked(fields.moisture, planes)
}

fn pick_height<T>(
    messages: &[GribRecord],
    table: &LevelTable,
    planes: &[Result<Vec<T>, String>],
) -> (picked: Option<(Vec<LevelRecord>, HeightBranch)>)
    requires
        table.wf(),
        records::levels_known(messages@, *table),
        planes@.len() == messages@.len(),
    ensures
        match picked {
            Some((recs, branch)) => {
                &&& collected_height(messages@, *table, volumes::outcomes(planes@)) == Some(
                    (recs@, branch),
                )
                &&& volumes::records_usable(recs@, *table, messages@.len() as int)
            },
            None => collected_height(messages@, *table, volumes::outcomes(planes@)) is None,
        },
{
    match collect_levels(messages, table, planes, isobaric_id(3, 5)) {
        Ok(recs) => Some((recs, HeightBranch::Height)),
        Err(_) => match collect_levels(messages, table, planes, isobaric_id(3, 4)) {
            Ok(recs) => Some((recs, HeightBranch::Geopotential)),
            Err(_) => None,
        },
    }
}

fn pick_moisture<T>(
    messages: &[GribRecord],
    table: &LevelTable,
    planes: &[Result<Vec<T>, String>],
) -> (picked: Option<(Vec<LevelRecord>, MoistureBranch)>)
    requires
        table.wf(),
        records::levels_known(messages@, *table),
        planes@.len() == messages@.len(),
    ensures
        match picked {
            Some((recs, branch)) => {
                &&& collected_moisture(messages@, *table, volumes::outcomes(planes@)) == Some(
                    (recs@, branch),
                )
                &&& volumes::records_usable(recs@, *table, messages@.len() as int)
                &&& collect::all_unpacked(recs@, volumes::outcomes(planes@))
            },
            None => collected_moisture(messages@, *table, volumes::outcomes(planes@)) is None,
        },
{
    match collect_levels(messages, table, planes, isobaric_id(1, 0)) {
        Ok(recs) => Some((recs, MoistureBranch::SpecificHumidity)),
        Err(_) => match collect_levels(messages, table, planes, isobaric_id(0, 6)) {
            Ok(recs) => Some((recs, MoistureBranch::Dewpoint)),
            Err(_) => match collect_levels(messages, table, planes, isobaric_id(1, 1)) {
                Ok(recs) => Some((recs, MoistureBranch::RelativeHumidity)),
                Err(_) => None,
            },
        },
    }
}

fn pick_fields<T>(
    messages: &[GribRecord],
    table: &LevelTable,
    planes: &[Result<Vec<T>, String>],
) -> (picked: Result<FieldRecords, DecodeError>)
    requires
        table.wf(),
        records::levels_known(messages@, *table),
        planes@.len() == messages@.len(),
    ensures
        match picked {
            Ok(fields) => {
                &&& collected_fields(messages@, *table, volumes::outcomes(planes@)) == Ok::<
                    FieldRecordsView,
                    DecodeErrorView,
                >(fields@)
                &&& fields_ready(fields@, *table, volumes::outcomes(planes@))
                &&& fields.moisture_branch == MoistureBranch::RelativeHumidity
                    ==> decode::first_without_temperature(
                    fields.moisture@,
                    fields.temperature@,
                    *table,
                    0,
                ) is None
            },
            Err(error) => collected_fields(messages@, *table, volumes::outcomes(planes@)) == Err::<
                FieldRecordsView,
                DecodeErrorView,
            >(error@),
        },
{
    let temperature = match collect_levels(messages, table, planes, isobaric_id(0, 0)) {
        Ok(recs) => recs,
        Err(message) => {
            return Err(DecodeError::Message(message));
        },
    };
    let u_wind = match collect_levels(messages, table, planes, isobaric_id(2, 2)) {
        Ok(recs) => recs,
        Err(message) => {
            return Err(DecodeError::Message(message));
        },
    };
    let v_wind = match collect_levels(messages, table, planes, isobaric_id(2, 3)) {
        Ok(recs) => recs,
        Err(message) => {
            return Err(DecodeError::Message(message));
        },
    };
    let (height, height_branch) = match pick_height(messages, table, planes) {
        Some(picked) => picked,
        None => {
            return Err(
                DecodeError::Message(
                    "missing pressure-level height/geopotential field".to_owned(),
                ),
            );
        },
    };
    let (moisture, moisture_branch) = match pick_moisture(messages, table, planes) {
        Some(picked) => picked,
        None => {
            return Err(
                DecodeError::Message(
                    "missing pressure-level specific humidity/dewpoint/RH field for thermodynamics".to_owned(),
                ),
            );
        },
    };
    if moisture_branch == MoistureBranch::RelativeHumidity {
        match find_without_temperature(moisture.as_slice(), temperature.as_slice(), table) {
            Some(level) => {
                return Err(DecodeError::MissingTemperatureLevel(level));
            },
            None => {},
        }
    }
    Ok(
        FieldRecords {
            temperature,
            u_wind,
            v_wind,
            height,
            height_branch,
            moisture,
            moisture_branch,
        },
    )
}

fn pairs_fill<T>(
    planes: &[Result<Vec<T>, String>],
    moisture: &[usize],
    temperature: &[usize],
    expected: usize,
) -> (filled: bool)
    requires
        moisture@.len() == temperature@.len(),
        forall|k: int| 0 <= k < moisture@.len() ==> #[trigger] moisture@[k] < planes@.len(),
        forall|k: int| 0 <= k < temperature@.len() ==> #[trigger] temperature@[k] < planes@.len(),
    ensures
        filled == (forall|k: int|
            0 <= k < moisture@.len() ==> paired_len(
                volumes::outcomes(planes@),
                #[trigger] moisture@[k],
                temperature@[k],
            ) == expected),
{
    let ghost all = volumes::outcomes(planes@);
    let mut k: usize = 0;
    while k < moisture.len()
        invariant
            k <= moisture@.len(),
            all == volumes::outcomes(planes@),
            moisture@.len() == temperature@.len(),
            forall|k: int| 0 <= k < moisture@.len() ==> #[trigger] moisture@[k] < planes@.len(),
            forall|k: int|
                0 <= k < temperature@.len() ==> #[trigger] temperature@[k] < planes@.len(),
            forall|j: int|
                0 <= j < k ==> paired_len(all, #[trigger] moisture@[j], temperature@[j])
                    == expected,
        decreases moisture.len() - k,
    {
        assert(moisture@[k as int] < planes@.len());
        assert(temperature@[k as int] < planes@.len());
        let filled = match (&planes[moisture[k]], &planes[temperature[k]]) {
            (Ok(a), Ok(b)) => {
                let shorter: usize = if a.len() <= b.len() {
                    a.len()
                } else {
                    b.len()
                };
                shorter == expected
            },
            _ => false,
        };
        if !filled {
            assert(paired_len(all, moisture@[k as int], temperature@[k as int]) != expected);
            return false;
        }
        k += 1;
    }
    true
}

/// A decoded rectangle of a pressure-level file, before conversion.
pub struct DecodedPressureCrop<T> {
    pub required: DecodedRequiredVolumes<T>,
    pub optional: OptionalVolumes<T>,
    pub nx: usize,
    pub ny: usize,
}

proof fn lemma_slots_in_range(
    recs: Seq<LevelRecord>,
    table: LevelTable,
    levels: Seq<usize>,
    message_count: int,
)
    requires
        volumes::records_usable(recs, table, message_count),
        forall|k: int|
            0 <= k < levels.len() ==> volumes::at_level(recs, table, #[trigger] levels[k] as int),
    ensures
        forall|k: int|
            0 <= k < levels.len() ==> #[trigger] volumes::slot_messages(recs, table, levels)[k]
                < message_count,
{
    assert forall|k: int| 0 <= k < levels.len() implies #[trigger] volumes::slot_messages(
        recs,
        table,
        levels,
    )[k] < message_count by {
        assert(volumes::at_level(recs, table, levels[k] as int));
        records::lemma_first_at_level(recs, table, levels[k] as int);
        let r = records::first_at_level(recs, table, levels[k] as int)->0;
        assert(recs[r].message < message_count);
    }
}

/// Decodes a rectangle of a pressure-level file from its messages and their
/// cropped planes.
pub fn decode_pressure_cropped_with_shape<T: Copy>(
    messages: &[GribRecord],
    table: &LevelTable,
    planes: &[Result<Vec<T>, String>],
    crop: GridCrop,
    want_optional: bool,
) -> (decoded: Result<DecodedPressureCrop<T>, DecodeError>)
    requires
        table.wf(),
        table.consistent(),
        records::levels_known(messages@, *table),
        planes@.len() == messages@.len(),
        crop.ordered(),
        crop.cell_count() <= usize::MAX,
    ensures
        match (collect::pressure_shape(messages@), decoded) {
            (Err(message), Err(error)) => error@ == DecodeErrorView::Message(message),
            (Err(_), Ok(_)) => false,
            (Ok(_), decoded) => {
                let plan = cropped_plan(
                    messages@,
                    *table,
                    volumes::outcomes(planes@),
                    crop.cell_count(),
                );
                match decoded {
                    Err(error) => plan == Err::<RequiredPlan, DecodeErrorView>(error@),
                    Ok(file) => {
                        &&& plan is Ok
                        &&& file.nx == crop.spec_width()
                        &&& file.ny == crop.spec_height()
                        &&& decode::gathered_by(
                            file.required,
                            plan->Ok_0,
                            planes@,
                            crop.cell_count(),
                        )
                        &&& decode::sized(file.required, crop.cell_count())
                        &&& collect::are_optional_volumes(
                            file.optional,
                            want_optional,
                            messages@,
                            *table,
                            planes@,
                            file.required.levels@,
                            crop.cell_count(),
                        )
                    },
                }
            },
        },
{
    match pressure_grid_shape_from_messages(messages) {
        Ok(_) => {},
        Err(message) => {
            return Err(DecodeError::Message(message));
        },
    }
    let ghost all = volumes::outcomes(planes@);
    let fields = match pick_fields(messages, table, planes) {
        Ok(fields) => fields,
        Err(error) => {
            return Err(error);
        },
    };
    let levels = common_isobaric_levels(
        fields.temperature.as_slice(),
        fields.moisture.as_slice(),
        fields.u_wind.as_slice(),
        fields.v_wind.as_slice(),
        fields.height.as_slice(),
        table,
    );
    if levels.len() == 0 {
        return Err(
            DecodeError::Message("pressure family had no common thermodynamic levels".to_owned()),
        );
    }
    let expected: usize = crop.width() * crop.height();
    proof {
        decode::lemma_common_levels_are_base_levels(
            fields.temperature@,
            fields.moisture@,
            fields.u_wind@,
            fields.v_wind@,
            fields.height@,
            *table,
            fields.temperature@.len() as int,
        );
    }
    let temperature = messages_for_levels(fields.temperature.as_slice(), table, levels.as_slice());
    let moisture = messages_for_levels(fields.moisture.as_slice(), table, levels.as_slice());
    let u_wind = messages_for_levels(fields.u_wind.as_slice(), table, levels.as_slice());
    let v_wind = messages_for_levels(fields.v_wind.as_slice(), table, levels.as_slice());
    let height = messages_for_levels(fields.height.as_slice(), table, levels.as_slice());
    let record_levels = moisture_record_levels(
        fields.moisture.as_slice(),
        table,
        levels.as_slice(),
    );
    let humid = fields.moisture_branch == MoistureBranch::RelativeHumidity;
    proof {
        decode::lemma_moisture_levels_have_temperature(fields@, *table, record_levels@);
        lemma_slots_in_range(fields.moisture@, *table, levels@, planes@.len() as int);
    }
    let temperature_messages: Vec<usize> = if humid {
        proof {
            lemma_slots_in_range(
                fields.temperature@,
                *table,
                record_levels@,
                planes@.len() as int,
            );
        }
        messages_for_levels(fields.temperature.as_slice(), table, record_levels.as_slice())
    } else {
        Vec::new()
    };
    assert(temperature_messages@ =~= decode::moisture_temperature(fields@, *table, levels@));
    let moisture_ok = if humid {
        pairs_fill(planes, moisture.as_slice(), temperature_messages.as_slice(), expected)
    } else {
        collect::fills_levels(
            fields.moisture.as_slice(),
            table,
            levels.as_slice(),
            planes,
            expected,
        )
    };
    assert(moisture_ok == moisture_filled(fields@, *table, levels@, all, expected as int));
    let filled = moisture_ok && collect::fills_levels(
        fields.temperature.as_slice(),
        table,
        levels.as_slice(),
        planes,
        expected,
    ) && collect::fills_levels(
        fields.u_wind.as_slice(),
        table,
        levels.as_slice(),
        planes,
        expected,
    ) && collect::fills_levels(
        fields.v_wind.as_slice(),
        table,
        levels.as_slice(),
        planes,
        expected,
    ) && collect::fills_levels(
        fields.height.as_slice(),
        table,
        levels.as_slice(),
        planes,
        expected,
    );
    if !filled {
        return Err(
            DecodeError::Message(
                "decoded cropped pressure field had unexpected grid size".to_owned(),
            ),
        );
    }
    proof {
        let size = expected as int;
        collect::lemma_filled_levels_suffice(fields.temperature@, *table, levels@, all, size);
        collect::lemma_filled_levels_suffice(fields.u_wind@, *table, levels@, all, size);
        collect::lemma_filled_levels_suffice(fields.v_wind@, *table, levels@, all, size);
        collect::lemma_filled_levels_suffice(fields.height@, *table, levels@, all, size);
        if humid {
            assert forall|k: int| 0 <= k < moisture@.len() implies {
                &&& (#[trigger] moisture@[k]) < all.len()
                &&& all[moisture@[k] as int] is Ok
                &&& all[moisture@[k] as int]->Ok_0 >= size
            } by {
                assert(paired_len(all, moisture@[k], temperature_messages@[k]) == size);
            }
            assert forall|k: int| 0 <= k < temperature_messages@.len() implies {
                &&& (#[trigger] temperature_messages@[k]) < all.len()
                &&& all[temperature_messages@[k] as int] is Ok
                &&& all[temperature_messages@[k] as int]->Ok_0 >= size
            } by {
                assert(paired_len(all, moisture@[k], temperature_messages@[k]) == size);
            }
        } else {
            collect::lemma_filled_levels_suffice(fields.moisture@, *table, levels@, all, size);
        }
    }
    let optional = gather_optional_volumes(
        want_optional,
        messages,
        table,
        planes,
        levels.as_slice(),
        expected,
    );
    Ok(
        DecodedPressureCrop {
            required: DecodedRequiredVolumes {
                temperature_k_3d: gather_volume(planes, temperature.as_slice(), expected),
                u_ms_3d: gather_volume(planes, u_wind.as_slice(), expected),
                v_ms_3d: gather_volume(planes, v_wind.as_slice(), expected),
                height_3d: gather_volume(planes, height.as_slice(), expected),
                height_branch: fields.height_branch,
                moisture_3d: gather_volume(planes, moisture.as_slice(), expected),
                moisture_branch: fields.moisture_branch,
                moisture_levels: record_levels,
                moisture_temperature_k_3d: gather_volume(
                    planes,
                    temperature_messages.as_slice(),
                    expected,
                ),
                levels,
            },
            optional,
            nx: crop.width(),
            ny: crop.height(),
        },
    )
}

} // verus!
