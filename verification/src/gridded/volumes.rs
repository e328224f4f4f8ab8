//! Which messages of a pressure-level file make up the decoded volumes.
//!
//! Unpacking a message gives a plane of values or fails. The rules here take the
//! outcome for every message, choose the branches (height or geopotential;
//! specific humidity, dewpoint or relative humidity), align the levels, and
//! gather the planes. Converting the values of a branch is left to the caller.
use crate::gridded::crop;
use crate::gridded::records;
use crate::gridded::records::{find_record, FieldId, LevelRecord, LevelTable};
use vstd::prelude::*;
use vstd::string::*;

verus! {

/// The type of an isobaric level.
pub const ISOBARIC: u8 = 100;

/// Where the heights of a volume come from.
#[derive(Debug, Clone, Copy, PartialEq, Eq, Structural)]
pub enum HeightBranch {
    /// Geopotential heights in metres.
    Height,
    /// Geopotential, to be divided by gravity.
    Geopotential,
}

/// Where the moisture of a volume comes from.
#[derive(Debug, Clone, Copy, PartialEq, Eq, Structural)]
pub enum MoistureBranch {
    SpecificHumidity,
    Dewpoint,
    RelativeHumidity,
}

/// Why a pressure-level file cannot be decoded.
pub enum DecodeError {
    Message(String),
    /// A relative-humidity record stands at a level without a temperature. The
    /// level is given by its place in the level table.
    MissingTemperatureLevel(usize),
}

/// A decode error as a mathematical value.
pub enum DecodeErrorView {
    Message(Seq<char>),
    MissingTemperatureLevel(usize),
}

impl View for DecodeError {
    type V = DecodeErrorView;

    open spec fn view(&self) -> DecodeErrorView {
        match self {
            DecodeError::Message(message) => DecodeErrorView::Message(message@),
            DecodeError::MissingTemperatureLevel(level) => DecodeErrorView::MissingTemperatureLevel(
                *level,
            ),
        }
    }
}

pub open spec fn isobaric(category: u8, number: u8) -> FieldId {
    FieldId { discipline: 0, category, number, level_type: ISOBARIC }
}

pub(crate) fn isobaric_id(category: u8, number: u8) -> (id: FieldId)
    ensures
        id == isobaric(category, number),
{
    FieldId { discipline: 0, category, number, level_type: ISOBARIC }
}

/// How unpacking each message went: the number of values, or the error.
pub open spec fn outcomes<T>(planes: Seq<Result<Vec<T>, String>>) -> Seq<Result<nat, Seq<char>>> {
    Seq::new(
        planes.len(),
        |m: int|
            match planes[m] {
                Ok(values) => Ok(values@.len()),
                Err(message) => Err(message@),
            },
    )
}

/// The values of a message that was unpacked.
pub open spec fn plane_of<T>(planes: Seq<Result<Vec<T>, String>>, message: int) -> Seq<T> {
    match planes[message] {
        Ok(values) => values@,
        Err(_) => Seq::empty(),
    }
}

/// Whether record `r` is the one that stands for one of the levels.
pub open spec fn is_selected(
    records: Seq<LevelRecord>,
    table: LevelTable,
    levels: Seq<usize>,
    r: int,
) -> bool {
    exists|k: int|
        0 <= k < levels.len() && records::first_at_level(
            records,
            table,
            #[trigger] levels[k] as int,
        ) == Some(r)
}

/// What is wrong with record `r`: it was not unpacked, or it stands for a level
/// and has another size than the grid.
pub open spec fn record_error(
    records: Seq<LevelRecord>,
    table: LevelTable,
    levels: Seq<usize>,
    planes: Seq<Result<nat, Seq<char>>>,
    expected: int,
    r: int,
) -> Option<Seq<char>> {
    match planes[records[r].message as int] {
        Err(message) => Some(message),
        Ok(len) => if is_selected(records, table, levels, r) && len != expected {
            Some("decoded pressure field had unexpected grid size"@)
        } else {
            None
        },
    }
}

/// What is wrong with the first of the records from `r` on that something is
/// wrong with.
pub open spec fn volume_error(
    records: Seq<LevelRecord>,
    table: LevelTable,
    levels: Seq<usize>,
    planes: Seq<Result<nat, Seq<char>>>,
    expected: int,
    r: int,
) -> Option<Seq<char>>
    decreases records.len() - r,
{
    if r >= records.len() {
        None
    } else {
        match record_error(records, table, levels, planes, expected, r) {
            Some(message) => Some(message),
            None => volume_error(records, table, levels, planes, expected, r + 1),
        }
    }
}

/// The message that stands for each of the levels.
pub open spec fn slot_messages(
    records: Seq<LevelRecord>,
    table: LevelTable,
    levels: Seq<usize>,
) -> Seq<usize> {
    Seq::new(
        levels.len(),
        |k: int| slot_record(records, table, levels[k] as int).message,
    )
}

/// The record that stands for a level.
pub open spec fn slot_record(
    records: Seq<LevelRecord>,
    table: LevelTable,
    level: int,
) -> LevelRecord {
    records[records::first_at_level(records, table, level)->0]
}

/// Whether one of the records stands for a level.
pub open spec fn at_level(records: Seq<LevelRecord>, table: LevelTable, level: int) -> bool {
    records::first_at_level(records, table, level) is Some
}

/// The levels of the first `count` base records that each of the other fields
/// has a record for.
pub open spec fn common_levels(
    base: Seq<LevelRecord>,
    a: Seq<LevelRecord>,
    b: Seq<LevelRecord>,
    c: Seq<LevelRecord>,
    d: Seq<LevelRecord>,
    table: LevelTable,
    count: int,
) -> Seq<usize>
    decreases count,
{
    if count <= 0 {
        Seq::empty()
    } else {
        let before = common_levels(base, a, b, c, d, table, count - 1);
        let level = base[count - 1].level;
        if at_level(a, table, level as int) && at_level(b, table, level as int) && at_level(
            c,
            table,
            level as int,
        ) && at_level(d, table, level as int) {
            before.push(level)
        } else {
            before
        }
    }
}

/// The levels of the base records that each of the other fields has a record
/// for.
pub fn common_isobaric_levels(
    base: &[LevelRecord],
    a: &[LevelRecord],
    b: &[LevelRecord],
    c: &[LevelRecord],
    d: &[LevelRecord],
    table: &LevelTable,
) -> (levels: Vec<usize>)
    requires
        table.wf(),
        records::record_levels_known(base@, *table),
        records::record_levels_known(a@, *table),
        records::record_levels_known(b@, *table),
        records::record_levels_known(c@, *table),
        records::record_levels_known(d@, *table),
    ensures
        levels@ == common_levels(base@, a@, b@, c@, d@, *table, base@.len() as int),
        forall|k: int| 0 <= k < levels@.len() ==> #[trigger] levels@[k] < table.count(),
        forall|k: int|
            0 <= k < levels@.len() ==> {
                let level = #[trigger] levels@[k] as int;
                &&& at_level(a@, *table, level)
                &&& at_level(b@, *table, level)
                &&& at_level(c@, *table, level)
                &&& at_level(d@, *table, level)
            },
{
    let mut levels: Vec<usize> = Vec::new();
    let mut r: usize = 0;
    while r < base.len()
        invariant
            r <= base@.len(),
            table.wf(),
            records::record_levels_known(base@, *table),
            records::record_levels_known(a@, *table),
            records::record_levels_known(b@, *table),
            records::record_levels_known(c@, *table),
            records::record_levels_known(d@, *table),
            levels@ == common_levels(base@, a@, b@, c@, d@, *table, r as int),
            forall|k: int| 0 <= k < levels@.len() ==> #[trigger] levels@[k] < table.count(),
            forall|k: int|
                0 <= k < levels@.len() ==> {
                    let level = #[trigger] levels@[k] as int;
                    &&& at_level(a@, *table, level)
                    &&& at_level(b@, *table, level)
                    &&& at_level(c@, *table, level)
                    &&& at_level(d@, *table, level)
                },
        decreases base.len() - r,
    {
        let level = base[r].level;
        assert(base@[r as int].level < table.count());
        let has_a = find_record(a, table, level).is_some();
        let has_b = find_record(b, table, level).is_some();
        let has_c = find_record(c, table, level).is_some();
        let has_d = find_record(d, table, level).is_some();
        if has_a && has_b && has_c && has_d {
            levels.push(level);
        }
        r += 1;
    }
    levels
}

/// Whether the records point at unpacked messages and have known levels.
pub open spec fn records_usable(
    records: Seq<LevelRecord>,
    table: LevelTable,
    message_count: int,
) -> bool {
    &&& records::record_levels_known(records, table)
    &&& forall|k: int| 0 <= k < records.len() ==> (#[trigger] records[k]).message < message_count
}

/// What is wrong with the planes of a field, if anything is.
pub(crate) fn check_volume<T>(
    recs: &[LevelRecord],
    table: &LevelTable,
    levels: &[usize],
    planes: &[Result<Vec<T>, String>],
    expected: usize,
) -> (error: Option<String>)
    requires
        table.wf(),
        records_usable(recs@, *table, planes@.len() as int),
        forall|k: int| 0 <= k < levels@.len() ==> #[trigger] levels@[k] < table.count(),
    ensures
        match error {
            Some(message) => volume_error(
                recs@,
                *table,
                levels@,
                outcomes(planes@),
                expected as int,
                0,
            ) == Some(message@),
            None => volume_error(recs@, *table, levels@, outcomes(planes@), expected as int, 0)
                is None,
        },
{
    let mut r: usize = 0;
    while r < recs.len()
        invariant
            r <= recs@.len(),
            table.wf(),
            records_usable(recs@, *table, planes@.len() as int),
            forall|k: int| 0 <= k < levels@.len() ==> #[trigger] levels@[k] < table.count(),
            volume_error(recs@, *table, levels@, outcomes(planes@), expected as int, 0)
                == volume_error(
                recs@,
                *table,
                levels@,
                outcomes(planes@),
                expected as int,
                r as int,
            ),
        decreases recs.len() - r,
    {
        assert(recs@[r as int].message < planes@.len());
        match &planes[recs[r].message] {
            Err(message) => {
                return Some(message.clone());
            },
            Ok(values) => {
                if values.len() != expected && selected(recs, table, levels, r) {
                    return Some("decoded pressure field had unexpected grid size".to_owned());
                }
            },
        }
        r += 1;
    }
    None
}

fn selected(recs: &[LevelRecord], table: &LevelTable, levels: &[usize], r: usize) -> (yes: bool)
    requires
        table.wf(),
        records::record_levels_known(recs@, *table),
        forall|k: int| 0 <= k < levels@.len() ==> #[trigger] levels@[k] < table.count(),
    ensures
        yes == is_selected(recs@, *table, levels@, r as int),
{
    let mut k: usize = 0;
    while k < levels.len()
        invariant
            k <= levels@.len(),
            table.wf(),
            records::record_levels_known(recs@, *table),
            forall|k: int| 0 <= k < levels@.len() ==> #[trigger] levels@[k] < table.count(),
            forall|j: int|
                0 <= j < k ==> records::first_at_level(recs@, *table, #[trigger] levels@[j] as int)
                    != Some(r as int),
        decreases levels.len() - k,
    {
        match find_record(recs, table, levels[k]) {
            Some(found) => {
                if found == r {
                    assert(records::first_at_level(recs@, *table, levels@[k as int] as int) == Some(
                        r as int,
                    ));
                    return true;
                }
            },
            None => {},
        }
        k += 1;
    }
    false
}

/// The message that stands for each of the levels.
pub(crate) fn messages_for_levels(recs: &[LevelRecord], table: &LevelTable, levels: &[usize]) -> (messages:
    Vec<usize>)
    requires
        table.wf(),
        records::record_levels_known(recs@, *table),
        forall|k: int| 0 <= k < levels@.len() ==> #[trigger] levels@[k] < table.count(),
        forall|k: int| 0 <= k < levels@.len() ==> at_level(recs@, *table, #[trigger] levels@[k] as int),
    ensures
        messages@ == slot_messages(recs@, *table, levels@),
{
    let mut messages: Vec<usize> = Vec::new();
    let mut k: usize = 0;
    while k < levels.len()
        invariant
            k <= levels@.len(),
            table.wf(),
            records::record_levels_known(recs@, *table),
            forall|k: int| 0 <= k < levels@.len() ==> #[trigger] levels@[k] < table.count(),
            forall|k: int|
                0 <= k < levels@.len() ==> at_level(recs@, *table, #[trigger] levels@[k] as int),
            messages@ =~= slot_messages(recs@, *table, levels@).take(k as int),
        decreases levels.len() - k,
    {
        assert(at_level(recs@, *table, levels@[k as int] as int));
        match find_record(recs, table, levels[k]) {
            Some(found) => {
                messages.push(recs[found].message);
            },
            None => {},
        }
        k += 1;
    }
    assert(slot_messages(recs@, *table, levels@).take(k as int) =~= slot_messages(
        recs@,
        *table,
        levels@,
    ));
    messages
}

/// Planes of messages one after the other, `expected` values of each.
pub open spec fn gathered<T>(
    planes: Seq<Result<Vec<T>, String>>,
    messages: Seq<usize>,
    expected: int,
) -> Seq<T>
    decreases messages.len(),
{
    if messages.len() == 0 {
        Seq::empty()
    } else {
        gathered(planes, messages.drop_last(), expected) + plane_of(
            planes,
            messages.last() as int,
        ).take(expected)
    }
}

/// Whether each of the messages was unpacked with at least `expected` values.
pub open spec fn planes_suffice(
    planes: Seq<Result<nat, Seq<char>>>,
    messages: Seq<usize>,
    expected: int,
) -> bool {
    forall|k: int|
        0 <= k < messages.len() ==> {
            &&& (#[trigger] messages[k]) < planes.len()
            &&& planes[messages[k] as int] is Ok
            &&& planes[messages[k] as int]->Ok_0 >= expected
        }
}

/// Gathers the planes of messages one after the other, `expected` values of
/// each.
pub fn gather_volume<T: Copy>(
    planes: &[Result<Vec<T>, String>],
    messages: &[usize],
    expected: usize,
) -> (volume: Vec<T>)
    requires
        planes_suffice(outcomes(planes@), messages@, expected as int),
    ensures
        volume@ == gathered(planes@, messages@, expected as int),
        volume@.len() == messages@.len() * expected,
{
    let mut volume: Vec<T> = Vec::new();
    let mut k: usize = 0;
    assert(messages@.take(0) =~= Seq::<usize>::empty());
    while k < messages.len()
        invariant
            k <= messages@.len(),
            planes_suffice(outcomes(planes@), messages@, expected as int),
            volume@ == gathered(planes@, messages@.take(k as int), expected as int),
            volume@.len() == k * expected,
        decreases messages.len() - k,
    {
        let message = messages[k];
        assert(outcomes(planes@)[message as int] is Ok);
        assert(messages@.take(k + 1).drop_last() =~= messages@.take(k as int));
        assert((k + 1) * expected == k * expected + expected) by (nonlinear_arith);
        match &planes[message] {
            Ok(values) => {
                crop::append_range(&mut volume, values.as_slice(), 0, expected);
            },
            Err(_) => {},
        }
        k += 1;
    }
    assert(messages@.take(k as int) =~= messages@);
    volume
}

} // verus!
