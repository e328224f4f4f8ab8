//! Collecting the levels of a field, and decoding whole pressure-level files
//! from them: required volumes, optional volumes and the grid shape.
use crate::gridded::decode;
use crate::gridded::decode::{decode_required_volumes, DecodedRequiredVolumes};
use crate::gridded::records;
use crate::gridded::records::{
    find_record, level_records, message_holds, missing_records_error, FieldId, GribRecord,
    LevelRecord, LevelTable,
};
use crate::gridded::volumes;
use crate::gridded::volumes::{
    gather_volume, isobaric_id, messages_for_levels, DecodeError, DecodeErrorView, ISOBARIC,
};
use vstd::prelude::*;
use vstd::string::*;

verus! {

/// The error of the first message, from `m` on, that holds a field and was not
/// unpacked.
pub open spec fn first_failure(
    messages: Seq<GribRecord>,
    planes: Seq<Result<nat, Seq<char>>>,
    id: FieldId,
    m: int,
) -> Option<Seq<char>>
    decreases messages.len() - m,
{
    if m >= messages.len() {
        None
    } else if records::holds_field(messages[m], id) && planes[m] is Err {
        Some(planes[m]->Err_0)
    } else {
        first_failure(messages, planes, id, m + 1)
    }
}

/// The records of a field, if every message that holds it was unpacked and there
/// is one.
pub open spec fn collected(
    messages: Seq<GribRecord>,
    table: LevelTable,
    planes: Seq<Result<nat, Seq<char>>>,
    id: FieldId,
) -> Result<Seq<LevelRecord>, Seq<char>> {
    match first_failure(messages, planes, id, 0) {
        Some(message) => Err(message),
        None => {
            let found = records::records_of(messages, table, id);
            if found.len() == 0 {
                Err(records::missing_records(id))
            } else {
                Ok(found)
            }
        },
    }
}

/// Whether every record points at an unpacked message.
pub open spec fn all_unpacked(
    recs: Seq<LevelRecord>,
    planes: Seq<Result<nat, Seq<char>>>,
) -> bool {
    forall|k: int| 0 <= k < recs.len() ==> planes[(#[trigger] recs[k]).message as int] is Ok
}

proof fn lemma_no_failure(
    messages: Seq<GribRecord>,
    planes: Seq<Result<nat, Seq<char>>>,
    id: FieldId,
    from: int,
    m: int,
)
    requires
        0 <= from <= m < messages.len(),
        first_failure(messages, planes, id, from) is None,
        records::holds_field(messages[m], id),
    ensures
        planes[m] is Ok,
    decreases m - from,
{
    if from < m {
        lemma_no_failure(messages, planes, id, from + 1, m);
    }
}

/// The records of a field, if every message that holds it was unpacked and there
/// is one.
pub fn collect_levels<T>(
    messages: &[GribRecord],
    table: &LevelTable,
    planes: &[Result<Vec<T>, String>],
    id: FieldId,
) -> (found: Result<Vec<LevelRecord>, String>)
    requires
        table.wf(),
        records::levels_known(messages@, *table),
        planes@.len() == messages@.len(),
    ensures
        match found {
            Ok(recs) => {
                &&& collected(messages@, *table, volumes::outcomes(planes@), id) == Ok::<
                    Seq<LevelRecord>,
                    Seq<char>,
                >(recs@)
                &&& volumes::records_usable(recs@, *table, messages@.len() as int)
                &&& all_unpacked(recs@, volumes::outcomes(planes@))
            },
            Err(message) => collected(messages@, *table, volumes::outcomes(planes@), id) == Err::<
                Seq<LevelRecord>,
                Seq<char>,
            >(message@),
        },
{
    let ghost all = volumes::outcomes(planes@);
    let mut m: usize = 0;
    while m < messages.len()
        invariant
            m <= messages@.len(),
            planes@.len() == messages@.len(),
            all == volumes::outcomes(planes@),
            first_failure(messages@, all, id, 0) == first_failure(messages@, all, id, m as int),
        decreases messages.len() - m,
    {
        if message_holds(&messages[m], id) {
            match &planes[m] {
                Ok(_) => {},
                Err(message) => {
                    return Err(message.clone());
                },
            }
        }
        m += 1;
    }
    let recs = level_records(messages, table, id);
    if recs.len() == 0 {
        return Err(missing_records_error(id));
    }
    proof {
        decode::lemma_usable(recs@, messages@, *table, id);
        assert forall|k: int| 0 <= k < recs@.len() implies all[(
        #[trigger] recs@[k]).message as int] is Ok by {
            lemma_no_failure(messages@, all, id, 0, recs@[k].message as int);
        }
    }
    Ok(recs)
}

/// The records of the first of the candidate fields that can be collected.
pub open spec fn collected_any(
    messages: Seq<GribRecord>,
    table: LevelTable,
    planes: Seq<Result<nat, Seq<char>>>,
    candidates: Seq<FieldId>,
) -> Option<Seq<LevelRecord>>
    decreases candidates.len(),
{
    if candidates.len() == 0 {
        None
    } else {
        match collected(messages, table, planes, candidates[0]) {
            Ok(recs) => Some(recs),
            Err(_) => collected_any(messages, table, planes, candidates.drop_first()),
        }
    }
}

/// The records of the first of the candidate fields that can be collected.
pub fn collect_optional_levels_any<T>(
    messages: &[GribRecord],
    table: &LevelTable,
    planes: &[Result<Vec<T>, String>],
    candidates: &[FieldId],
) -> (found: Option<Vec<LevelRecord>>)
    requires
        table.wf(),
        records::levels_known(messages@, *table),
        planes@.len() == messages@.len(),
    ensures
        match found {
            Some(recs) => {
                &&& collected_any(messages@, *table, volumes::outcomes(planes@), candidates@)
                    == Some(recs@)
                &&& volumes::records_usable(recs@, *table, messages@.len() as int)
                &&& all_unpacked(recs@, volumes::outcomes(planes@))
            },
            None => collected_any(messages@, *table, volumes::outcomes(planes@), candidates@)
                is None,
        },
{
    let ghost all = volumes::outcomes(planes@);
    let mut c: usize = 0;
    assert(candidates@.skip(0) =~= candidates@);
    while c < candidates.len()
        invariant
            c <= candidates@.len(),
            table.wf(),
            records::levels_known(messages@, *table),
            planes@.len() == messages@.len(),
            all == volumes::outcomes(planes@),
            collected_any(messages@, *table, all, candidates@) == collected_any(
                messages@,
                *table,
                all,
                candidates@.skip(c as int),
            ),
        decreases candidates.len() - c,
    {
        assert(candidates@.skip(c as int)[0] == candidates@[c as int]);
        assert(candidates@.skip(c as int).drop_first() =~= candidates@.skip(c + 1));
        match collect_levels(messages, table, planes, candidates[c]) {
            Ok(recs) => {
                return Some(recs);
            },
            Err(_) => {},
        }
        c += 1;
    }
    None
}

/// Whether each level has a record, and each of these has the size of the grid.
pub open spec fn levels_filled(
    recs: Seq<LevelRecord>,
    table: LevelTable,
    levels: Seq<usize>,
    planes: Seq<Result<nat, Seq<char>>>,
    expected: int,
) -> bool {
    forall|k: int|
        0 <= k < levels.len() ==> {
            &&& volumes::at_level(recs, table, #[trigger] levels[k] as int)
            &&& planes[volumes::slot_record(recs, table, levels[k] as int).message as int] == Ok::<
                nat,
                Seq<char>,
            >(expected as nat)
        }
}

/// The volume of an optional field: there if its records can be collected and
/// fill every level.
pub open spec fn optional_volume<T>(
    messages: Seq<GribRecord>,
    table: LevelTable,
    planes: Seq<Result<Vec<T>, String>>,
    candidates: Seq<FieldId>,
    levels: Seq<usize>,
    expected: int,
) -> Option<Seq<T>> {
    match collected_any(messages, table, volumes::outcomes(planes), candidates) {
        Some(recs) => if levels_filled(recs, table, levels, volumes::outcomes(planes), expected) {
            Some(
                volumes::gathered(planes, volumes::slot_messages(recs, table, levels), expected),
            )
        } else {
            None
        },
        None => None,
    }
}

pub(crate) fn fills_levels<T>(
    recs: &[LevelRecord],
    table: &LevelTable,
    levels: &[usize],
    planes: &[Result<Vec<T>, String>],
    expected: usize,
) -> (filled: bool)
    requires
        table.wf(),
        volumes::records_usable(recs@, *table, planes@.len() as int),
        forall|k: int| 0 <= k < levels@.len() ==> #[trigger] levels@[k] < table.count(),
    ensures
        filled == levels_filled(
            recs@,
            *table,
            levels@,
            volumes::outcomes(planes@),
            expected as int,
        ),
{
    let ghost all = volumes::outcomes(planes@);
    let mut k: usize = 0;
    while k < levels.len()
        invariant
            k <= levels@.len(),
            table.wf(),
            volumes::records_usable(recs@, *table, planes@.len() as int),
            forall|k: int| 0 <= k < levels@.len() ==> #[trigger] levels@[k] < table.count(),
            all == volumes::outcomes(planes@),
            forall|j: int|
                0 <= j < k ==> {
                    &&& volumes::at_level(recs@, *table, #[trigger] levels@[j] as int)
                    &&& all[volumes::slot_record(
                        recs@,
                        *table,
                        levels@[j] as int,
                    ).message as int] == Ok::<nat, Seq<char>>(expected as nat)
                },
        decreases levels.len() - k,
    {
        match find_record(recs, table, levels[k]) {
            None => {
                assert(!volumes::at_level(recs@, *table, levels@[k as int] as int));
                return false;
            },
            Some(r) => {
                assert(recs@[r as int].message < planes@.len());
                let filled = match &planes[recs[r].message] {
                    Ok(values) => values.len() == expected,
                    Err(_) => false,
                };
                if !filled {
                    assert(all[volumes::slot_record(
                        recs@,
                        *table,
                        levels@[k as int] as int,
                    ).message as int] != Ok::<nat, Seq<char>>(expected as nat));
                    return false;
                }
            },
        }
        k += 1;
    }
    true
}

pub proof fn lemma_filled_levels_suffice(
    recs: Seq<LevelRecord>,
    table: LevelTable,
    levels: Seq<usize>,
    planes: Seq<Result<nat, Seq<char>>>,
    expected: int,
)
    requires
        0 <= expected,
        volumes::records_usable(recs, table, planes.len() as int),
        levels_filled(recs, table, levels, planes, expected),
    ensures
        volumes::planes_suffice(planes, volumes::slot_messages(recs, table, levels), expected),
{
    let slots = volumes::slot_messages(recs, table, levels);
    assert forall|k: int| 0 <= k < slots.len() implies {
        &&& (#[trigger] slots[k]) < planes.len()
        &&& planes[slots[k] as int] is Ok
        &&& planes[slots[k] as int]->Ok_0 >= expected
    } by {
        assert(volumes::at_level(recs, table, levels[k] as int));
        records::lemma_first_at_level(recs, table, levels[k] as int);
        let r = records::first_at_level(recs, table, levels[k] as int)->0;
        assert(recs[r].message < planes.len());
    }
}

fn gather_optional<T: Copy>(
    messages: &[GribRecord],
    table: &LevelTable,
    planes: &[Result<Vec<T>, String>],
    candidates: &[FieldId],
    levels: &[usize],
    expected: usize,
) -> (volume: Option<Vec<T>>)
    requires
        table.wf(),
        records::levels_known(messages@, *table),
        planes@.len() == messages@.len(),
        forall|k: int| 0 <= k < levels@.len() ==> #[trigger] levels@[k] < table.count(),
    ensures
        match volume {
            Some(values) => optional_volume(
                messages@,
                *table,
                planes@,
                candidates@,
                levels@,
                expected as int,
            ) == Some(values@),
            None => optional_volume(
                messages@,
                *table,
                planes@,
                candidates@,
                levels@,
                expected as int,
            ) is None,
        },
{
    match collect_optional_levels_any(messages, table, planes, candidates) {
        None => None,
        Some(recs) => {
            if fills_levels(recs.as_slice(), table, levels, planes, expected) {
                proof {
                    lemma_filled_levels_suffice(
                        recs@,
                        *table,
                        levels@,
                        volumes::outcomes(planes@),
                        expected as int,
                    );
                }
                let slots = messages_for_levels(recs.as_slice(), table, levels);
                Some(gather_volume(planes, slots.as_slice(), expected))
            } else {
                None
            }
        },
    }
}

/// The optional volumes of a pressure-level file.
pub struct OptionalVolumes<T> {
    pub omega_pa_s_3d: Option<Vec<T>>,
    pub absolute_vorticity_s_3d: Option<Vec<T>>,
    pub cloud_liquid_kgkg_3d: Option<Vec<T>>,
    pub cloud_ice_kgkg_3d: Option<Vec<T>>,
    pub rain_kgkg_3d: Option<Vec<T>>,
    pub snow_kgkg_3d: Option<Vec<T>>,
    pub graupel_kgkg_3d: Option<Vec<T>>,
}

/// Whether `volume` is the volume of an optional field, or absent if it is not
/// wanted.
pub open spec fn is_optional_volume<T>(
    volume: Option<Vec<T>>,
    wanted: bool,
    messages: Seq<GribRecord>,
    table: LevelTable,
    planes: Seq<Result<Vec<T>, String>>,
    candidates: Seq<FieldId>,
    levels: Seq<usize>,
    expected: int,
) -> bool {
    let found = optional_volume(messages, table, planes, candidates, levels, expected);
    match volume {
        Some(values) => wanted && found == Some(values@),
        None => !wanted || found is None,
    }
}

/// The optional volumes that a file gives on some levels, each absent if it is
/// not wanted.
pub open spec fn are_optional_volumes<T>(
    optional: OptionalVolumes<T>,
    wanted: bool,
    messages: Seq<GribRecord>,
    table: LevelTable,
    planes: Seq<Result<Vec<T>, String>>,
    levels: Seq<usize>,
    expected: int,
) -> bool {
    &&& is_optional_volume(
        optional.omega_pa_s_3d,
        wanted,
        messages,
        table,
        planes,
        seq![volumes::isobaric(2, 8)],
        levels,
        expected,
    )
    &&& is_optional_volume(
        optional.absolute_vorticity_s_3d,
        wanted,
        messages,
        table,
        planes,
        seq![volumes::isobaric(2, 10)],
        levels,
        expected,
    )
    &&& is_optional_volume(
        optional.cloud_liquid_kgkg_3d,
        wanted,
        messages,
        table,
        planes,
        seq![volumes::isobaric(1, 22)],
        levels,
        expected,
    )
    &&& is_optional_volume(
        optional.cloud_ice_kgkg_3d,
        wanted,
        messages,
        table,
        planes,
        seq![volumes::isobaric(1, 82), volumes::isobaric(1, 23)],
        levels,
        expected,
    )
    &&& is_optional_volume(
        optional.rain_kgkg_3d,
        wanted,
        messages,
        table,
        planes,
        seq![volumes::isobaric(1, 24)],
        levels,
        expected,
    )
    &&& is_optional_volume(
        optional.snow_kgkg_3d,
        wanted,
        messages,
        table,
        planes,
        seq![volumes::isobaric(1, 25)],
        levels,
        expected,
    )
    &&& is_optional_volume(
        optional.graupel_kgkg_3d,
        wanted,
        messages,
        table,
        planes,
        seq![volumes::isobaric(1, 32), volumes::isobaric(1, 74)],
        levels,
        expected,
    )
}

fn gather_wanted<T: Copy>(
    wanted: bool,
    messages: &[GribRecord],
    table: &LevelTable,
    planes: &[Result<Vec<T>, String>],
    candidates: &[FieldId],
    levels: &[usize],
    expected: usize,
) -> (volume: Option<Vec<T>>)
    requires
        table.wf(),
        records::levels_known(messages@, *table),
        planes@.len() == messages@.len(),
        forall|k: int| 0 <= k < levels@.len() ==> #[trigger] levels@[k] < table.count(),
    ensures
        is_optional_volume(
            volume,
            wanted,
            messages@,
            *table,
            planes@,
            candidates@,
            levels@,
            expected as int,
        ),
{
    if wanted {
        gather_optional(messages, table, planes, candidates, levels, expected)
    } else {
        None
    }
}

/// Gathers the optional volumes of a file on some levels, if they are wanted.
pub fn gather_optional_volumes<T: Copy>(
    wanted: bool,
    messages: &[GribRecord],
    table: &LevelTable,
    planes: &[Result<Vec<T>, String>],
    levels: &[usize],
    expected: usize,
) -> (optional: OptionalVolumes<T>)
    requires
        table.wf(),
        records::levels_known(messages@, *table),
        planes@.len() == messages@.len(),
        forall|k: int| 0 <= k < levels@.len() ==> #[trigger] levels@[k] < table.count(),
    ensures
        are_optional_volumes(
            optional,
            wanted,
            messages@,
            *table,
            planes@,
            levels@,
            expected as int,
        ),
{
    let omega = vec![isobaric_id(2, 8)];
    let vorticity = vec![isobaric_id(2, 10)];
    let cloud_liquid = vec![isobaric_id(1, 22)];
    let cloud_ice = vec![isobaric_id(1, 82), isobaric_id(1, 23)];
    let rain = vec![isobaric_id(1, 24)];
    let snow = vec![isobaric_id(1, 25)];
    let graupel = vec![isobaric_id(1, 32), isobaric_id(1, 74)];
    assert(omega@ =~= seq![volumes::isobaric(2, 8)]);
    assert(vorticity@ =~= seq![volumes::isobaric(2, 10)]);
    assert(cloud_liquid@ =~= seq![volumes::isobaric(1, 22)]);
    assert(cloud_ice@ =~= seq![volumes::isobaric(1, 82), volumes::isobaric(1, 23)]);
    assert(rain@ =~= seq![volumes::isobaric(1, 24)]);
    assert(snow@ =~= seq![volumes::isobaric(1, 25)]);
    assert(graupel@ =~= seq![volumes::isobaric(1, 32), volumes::isobaric(1, 74)]);
    OptionalVolumes {
        omega_pa_s_3d: gather_wanted(
            wanted,
            messages,
            table,
            planes,
            omega.as_slice(),
            levels,
            expected,
        ),
        absolute_vorticity_s_3d: gather_wanted(
            wanted,
            messages,
            table,
            planes,
            vorticity.as_slice(),
            levels,
            expected,
        ),
        cloud_liquid_kgkg_3d: gather_wanted(
            wanted,
            messages,
            table,
            planes,
            cloud_liquid.as_slice(),
            levels,
            expected,
        ),
        cloud_ice_kgkg_3d: gather_wanted(
            wanted,
            messages,
            table,
            planes,
            cloud_ice.as_slice(),
            levels,
            expected,
        ),
        rain_kgkg_3d: gather_wanted(
            wanted,
            messages,
            table,
            planes,
            rain.as_slice(),
            levels,
            expected,
        ),
        snow_kgkg_3d: gather_wanted(
            wanted,
            messages,
            table,
            planes,
            snow.as_slice(),
            levels,
            expected,
        ),
        graupel_kgkg_3d: gather_wanted(
            wanted,
            messages,
            table,
            planes,
            graupel.as_slice(),
            levels,
            expected,
        ),
    }
}

/// The first isobaric message, from `m` on.
pub open spec fn first_isobaric(messages: Seq<GribRecord>, m: int) -> Option<int>
    decreases messages.len() - m,
{
    if m >= messages.len() {
        None
    } else if messages[m].level_type == ISOBARIC {
        Some(m)
    } else {
        first_isobaric(messages, m + 1)
    }
}

/// Whether every isobaric message is on a grid of `nx` by `ny` cells.
pub open spec fn isobaric_grids_agree(messages: Seq<GribRecord>, nx: int, ny: int) -> bool {
    forall|m: int|
        0 <= m < messages.len() && (#[trigger] messages[m]).level_type == ISOBARIC ==> messages[m].nx
            == nx && messages[m].ny == ny
}

/// The grid shape of a pressure-level file, or why it has none.
pub open spec fn pressure_shape(messages: Seq<GribRecord>) -> Result<(usize, usize), Seq<char>> {
    match first_isobaric(messages, 0) {
        None => Err("pressure family had no isobaric GRIB messages"@),
        Some(m) => if isobaric_grids_agree(messages, messages[m].nx as int, messages[m].ny as int) {
            Ok((messages[m].nx, messages[m].ny))
        } else {
            Err("pressure family contained inconsistent grid shapes"@)
        },
    }
}

/// The grid shape of a pressure-level file, or why it has none.
pub fn pressure_grid_shape_from_messages(messages: &[GribRecord]) -> (shape: Result<
    (usize, usize),
    String,
>)
    ensures
        match shape {
            Ok(shape) => pressure_shape(messages@) == Ok::<(usize, usize), Seq<char>>(shape),
            Err(message) => pressure_shape(messages@) == Err::<(usize, usize), Seq<char>>(message@),
        },
{
    let mut m: usize = 0;
    while m < messages.len() && messages[m].level_type != ISOBARIC
        invariant
            m <= messages@.len(),
            first_isobaric(messages@, 0) == first_isobaric(messages@, m as int),
            forall|j: int| 0 <= j < m ==> (#[trigger] messages@[j]).level_type != ISOBARIC,
        decreases messages.len() - m,
    {
        m += 1;
    }
    if m >= messages.len() {
        return Err("pressure family had no isobaric GRIB messages".to_owned());
    }
    let nx = messages[m].nx;
    let ny = messages[m].ny;
    let mut j: usize = m;
    while j < messages.len()
        invariant
            m <= j <= messages@.len(),
            m < messages@.len(),
            first_isobaric(messages@, 0) == Some(m as int),
            nx == messages@[m as int].nx,
            ny == messages@[m as int].ny,
            forall|i: int|
                0 <= i < j && (#[trigger] messages@[i]).level_type == ISOBARIC ==> messages@[i].nx
                    == nx && messages@[i].ny == ny,
        decreases messages.len() - j,
    {
        if messages[j].level_type == ISOBARIC && (messages[j].nx != nx || messages[j].ny != ny) {
            assert(!isobaric_grids_agree(messages@, nx as int, ny as int)) by {
                assert(messages@[j as int].level_type == ISOBARIC);
            }
            return Err("pressure family contained inconsistent grid shapes".to_owned());
        }
        j += 1;
    }
    Ok((nx, ny))
}

/// A decoded pressure-level file, before conversion.
pub struct DecodedPressureFile<T> {
    pub required: DecodedRequiredVolumes<T>,
    pub optional: OptionalVolumes<T>,
    pub nx: usize,
    pub ny: usize,
}

/// Decodes a pressure-level file from its messages and their planes: the grid
/// shape, the required volumes, and the optional ones if they are wanted.
pub fn decode_pressure_file_with_shape_opts<T: Copy>(
    messages: &[GribRecord],
    table: &LevelTable,
    planes: &[Result<Vec<T>, String>],
    want_optional: bool,
) -> (decoded: Result<DecodedPressureFile<T>, DecodeError>)
    requires
        table.wf(),
        table.consistent(),
        records::levels_known(messages@, *table),
        planes@.len() == messages@.len(),
        pressure_shape(messages@) matches Ok((nx, ny)) ==> nx * ny <= usize::MAX,
    ensures
        match (pressure_shape(messages@), decoded) {
            (Err(message), Err(error)) => error@ == DecodeErrorView::Message(message),
            (Err(_), Ok(_)) => false,
            (Ok((nx, ny)), decoded) => {
                let plan = decode::decode_plan(
                    messages@,
                    *table,
                    volumes::outcomes(planes@),
                    nx * ny,
                    decode::no_failures(),
                );
                match decoded {
                    Err(error) => plan == Err::<decode::RequiredPlan, DecodeErrorView>(error@),
                    Ok(file) => {
                        &&& plan is Ok
                        &&& file.nx == nx
                        &&& file.ny == ny
                        &&& decode::gathered_by(file.required, plan->Ok_0, planes@, nx * ny)
                        &&& decode::sized(file.required, nx * ny)
                        &&& are_optional_volumes(
                            file.optional,
                            want_optional,
                            messages@,
                            *table,
                            planes@,
                            file.required.levels@,
                            nx * ny,
                        )
                    },
                }
            },
        },
{
    let (nx, ny) = match pressure_grid_shape_from_messages(messages) {
        Ok(shape) => shape,
        Err(message) => {
            return Err(DecodeError::Message(message));
        },
    };
    match decode_required_volumes(messages, table, planes, nx, ny) {
        Err(error) => Err(error),
        Ok(required) => {
            let optional = gather_optional_volumes(
                want_optional,
                messages,
                table,
                planes,
                required.levels.as_slice(),
                nx * ny,
            );
            Ok(DecodedPressureFile { required, optional, nx, ny })
        },
    }
}

} // verus!
