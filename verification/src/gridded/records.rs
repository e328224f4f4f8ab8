//! The messages of a decoded GRIB file, as far as choosing among them goes.
//!
//! Levels are real numbers in the file. Here a level is a place in a table of the
//! levels that occur, and the table tells how they are ordered and which of them
//! count as the same level.
use vstd::prelude::*;
use vstd::string::*;

verus! {

/// What a message is about, and on which grid.
#[derive(Debug, Clone, Copy, PartialEq, Eq, Structural)]
pub struct GribRecord {
    pub discipline: u8,
    pub category: u8,
    pub number: u8,
    pub level_type: u8,
    /// The place of the level in the level table.
    pub level: usize,
    pub nx: usize,
    pub ny: usize,
}

/// A kind of field on a type of level.
#[derive(Debug, Clone, Copy, PartialEq, Eq, Structural)]
pub struct FieldId {
    pub discipline: u8,
    pub category: u8,
    pub number: u8,
    pub level_type: u8,
}

/// The table of levels: the order of their values, and which values lie within
/// the tolerance of each other.
pub struct LevelTable {
    /// Levels of equal value have equal rank, and a greater value has a greater
    /// rank.
    pub rank: Vec<usize>,
    /// `near[a][b]` tells whether level `a` counts as level `b`.
    pub near: Vec<Vec<bool>>,
}

impl LevelTable {
    /// Whether the table is square.
    pub open spec fn wf(self) -> bool {
        &&& self.near@.len() == self.rank@.len()
        &&& forall|a: int|
            0 <= a < self.near@.len() ==> (#[trigger] self.near@[a])@.len() == self.rank@.len()
    }

    /// How many levels there are.
    pub open spec fn count(self) -> nat {
        self.rank@.len()
    }

    /// Whether each level that another counts as counts as itself. A level that is
    /// no number counts as none.
    pub open spec fn consistent(self) -> bool {
        forall|a: int, b: int|
            0 <= a < self.count() && 0 <= b < self.count() && #[trigger] self.counts_as(a, b)
                ==> self.counts_as(b, b)
    }

    /// Whether level `candidate` counts as level `level`.
    pub open spec fn counts_as(self, candidate: int, level: int) -> bool {
        self.near@[candidate]@[level]
    }

    /// Whether level `candidate` counts as level `level`.
    pub fn is_near(&self, candidate: usize, level: usize) -> (near: bool)
        requires
            self.wf(),
            candidate < self.count(),
            level < self.count(),
        ensures
            near == self.counts_as(candidate as int, level as int),
    {
        self.near[candidate][level]
    }
}

/// Whether every message has its level in the table.
pub open spec fn levels_known(messages: Seq<GribRecord>, table: LevelTable) -> bool {
    forall|m: int| 0 <= m < messages.len() ==> (#[trigger] messages[m]).level < table.count()
}

/// Whether a message holds a kind of field.
pub open spec fn holds_field(message: GribRecord, id: FieldId) -> bool {
    &&& message.discipline == id.discipline
    &&& message.category == id.category
    &&& message.number == id.number
    &&& message.level_type == id.level_type
}

pub(crate) fn message_holds(message: &GribRecord, id: FieldId) -> (holds: bool)
    ensures
        holds == holds_field(*message, id),
{
    message.discipline == id.discipline && message.category == id.category && message.number
        == id.number && message.level_type == id.level_type
}

/// A level and the message that holds the field there.
#[derive(Debug, Clone, Copy, PartialEq, Eq, Structural)]
pub struct LevelRecord {
    pub level: usize,
    pub message: usize,
}

/// How many of the leading records lie at or above a rank.
pub open spec fn place_for(records: Seq<LevelRecord>, table: LevelTable, rank: int) -> int
    decreases records.len(),
{
    if records.len() == 0 || table.rank@[records[0].level as int] < rank {
        0
    } else {
        1 + place_for(records.drop_first(), table, rank)
    }
}

/// The records of a kind of field among the first `count` messages, from the
/// highest level value to the lowest, in message order where the values are
/// equal.
pub open spec fn records_among(
    messages: Seq<GribRecord>,
    table: LevelTable,
    id: FieldId,
    count: int,
) -> Seq<LevelRecord>
    decreases count,
{
    if count <= 0 {
        Seq::empty()
    } else {
        let before = records_among(messages, table, id, count - 1);
        let message = messages[count - 1];
        if holds_field(message, id) {
            before.insert(
                place_for(before, table, table.rank@[message.level as int] as int),
                LevelRecord { level: message.level, message: (count - 1) as usize },
            )
        } else {
            before
        }
    }
}

/// The records of a kind of field, from the highest level value to the lowest,
/// in message order where the values are equal.
pub open spec fn records_of(
    messages: Seq<GribRecord>,
    table: LevelTable,
    id: FieldId,
) -> Seq<LevelRecord> {
    records_among(messages, table, id, messages.len() as int)
}

/// Whether records point at messages of a kind of field below `count`, with
/// their levels.
pub open spec fn records_point_at(
    records: Seq<LevelRecord>,
    messages: Seq<GribRecord>,
    id: FieldId,
    count: int,
) -> bool {
    forall|k: int|
        0 <= k < records.len() ==> {
            &&& (#[trigger] records[k]).message < count
            &&& holds_field(messages[records[k].message as int], id)
            &&& records[k].level == messages[records[k].message as int].level
        }
}

pub proof fn lemma_place_bounds(records: Seq<LevelRecord>, table: LevelTable, rank: int)
    ensures
        0 <= place_for(records, table, rank) <= records.len(),
        forall|k: int|
            0 <= k < place_for(records, table, rank) ==> table.rank@[(#[trigger] records[k]).level as int]
                >= rank,
        place_for(records, table, rank) < records.len() ==> table.rank@[records[place_for(
            records,
            table,
            rank,
        )].level as int] < rank,
    decreases records.len(),
{
    if records.len() > 0 && table.rank@[records[0].level as int] >= rank {
        let rest = records.drop_first();
        lemma_place_bounds(rest, table, rank);
        assert forall|k: int| 0 <= k < place_for(records, table, rank) implies table.rank@[(
        #[trigger] records[k]).level as int] >= rank by {
            if k > 0 {
                assert(records[k] == rest[k - 1]);
            }
        }
    }
}

proof fn lemma_place_found(records: Seq<LevelRecord>, table: LevelTable, rank: int, at: int)
    requires
        0 <= at <= records.len(),
        forall|k: int| 0 <= k < at ==> table.rank@[(#[trigger] records[k]).level as int] >= rank,
        at < records.len() ==> table.rank@[records[at].level as int] < rank,
    ensures
        place_for(records, table, rank) == at,
    decreases records.len(),
{
    if at > 0 {
        let rest = records.drop_first();
        assert(table.rank@[records[0].level as int] >= rank);
        assert forall|k: int| 0 <= k < at - 1 implies table.rank@[(#[trigger] rest[k]).level as int]
            >= rank by {
            assert(rest[k] == records[k + 1]);
        }
        lemma_place_found(rest, table, rank, at - 1);
    }
}

/// The records of a kind of field point at its messages.
pub proof fn lemma_records_point_at(
    messages: Seq<GribRecord>,
    table: LevelTable,
    id: FieldId,
    count: int,
)
    requires
        0 <= count <= messages.len() <= usize::MAX,
    ensures
        records_point_at(records_among(messages, table, id, count), messages, id, count),
    decreases count,
{
    if count > 0 {
        lemma_records_point_at(messages, table, id, count - 1);
        let before = records_among(messages, table, id, count - 1);
        let message = messages[count - 1];
        if holds_field(message, id) {
            let rank = table.rank@[message.level as int] as int;
            lemma_place_bounds(before, table, rank);
            let at = place_for(before, table, rank);
            let after = records_among(messages, table, id, count);
            assert forall|k: int| 0 <= k < after.len() implies {
                &&& (#[trigger] after[k]).message < count
                &&& holds_field(messages[after[k].message as int], id)
                &&& after[k].level == messages[after[k].message as int].level
            } by {
                if k < at {
                    assert(after[k] == before[k]);
                } else if k > at {
                    assert(after[k] == before[k - 1]);
                }
            }
        } else {
            let after = records_among(messages, table, id, count);
            assert forall|k: int| 0 <= k < after.len() implies {
                &&& (#[trigger] after[k]).message < count
                &&& holds_field(messages[after[k].message as int], id)
                &&& after[k].level == messages[after[k].message as int].level
            } by {
                assert(after[k] == before[k]);
            }
        }
    }
}

/// The records of a kind of field, from the highest level value to the lowest,
/// in message order where the values are equal.
pub fn level_records(messages: &[GribRecord], table: &LevelTable, id: FieldId) -> (records: Vec<
    LevelRecord,
>)
    requires
        table.wf(),
        levels_known(messages@, *table),
    ensures
        records@ == records_of(messages@, *table, id),
        records_point_at(records@, messages@, id, messages@.len() as int),
{
    let mut records: Vec<LevelRecord> = Vec::new();
    let mut m: usize = 0;
    while m < messages.len()
        invariant
            m <= messages@.len(),
            table.wf(),
            levels_known(messages@, *table),
            records@ == records_among(messages@, *table, id, m as int),
            records_point_at(records@, messages@, id, m as int),
        decreases messages.len() - m,
    {
        let message = messages[m];
        assert(message.level < table.count());
        if message_holds(&message, id) {
            let rank: usize = table.rank[message.level];
            let mut at: usize = 0;
            while at < records.len() && table.rank[records[at].level] >= rank
                invariant
                    at <= records@.len(),
                    m < messages@.len(),
                    levels_known(messages@, *table),
                    records_point_at(records@, messages@, id, m as int),
                    forall|k: int|
                        0 <= k < at ==> table.rank@[(#[trigger] records@[k]).level as int] >= rank,
                decreases records.len() - at,
            {
                at += 1;
            }
            proof {
                lemma_place_found(records@, *table, rank as int, at as int);
            }
            records.insert(at, LevelRecord { level: message.level, message: m });
        }
        m += 1;
        proof {
            lemma_records_point_at(messages@, *table, id, m as int);
        }
    }
    records
}

/// The first record whose level counts as `level`.
pub open spec fn first_at_level(
    records: Seq<LevelRecord>,
    table: LevelTable,
    level: int,
) -> Option<int>
    decreases records.len(),
{
    if records.len() == 0 {
        None
    } else if table.counts_as(records[0].level as int, level) {
        Some(0)
    } else {
        match first_at_level(records.drop_first(), table, level) {
            Some(k) => Some(k + 1),
            None => None,
        }
    }
}

pub proof fn lemma_first_at_level(records: Seq<LevelRecord>, table: LevelTable, level: int)
    ensures
        match first_at_level(records, table, level) {
            Some(k) => {
                &&& 0 <= k < records.len()
                &&& table.counts_as(records[k].level as int, level)
                &&& forall|j: int|
                    0 <= j < k ==> !table.counts_as((#[trigger] records[j]).level as int, level)
            },
            None => forall|j: int|
                0 <= j < records.len() ==> !table.counts_as(
                    (#[trigger] records[j]).level as int,
                    level,
                ),
        },
    decreases records.len(),
{
    if records.len() > 0 && !table.counts_as(records[0].level as int, level) {
        let rest = records.drop_first();
        lemma_first_at_level(rest, table, level);
        match first_at_level(rest, table, level) {
            Some(k) => {
                assert forall|j: int| 0 <= j < k + 1 implies !table.counts_as(
                    (#[trigger] records[j]).level as int,
                    level,
                ) by {
                    if j > 0 {
                        assert(records[j] == rest[j - 1]);
                    }
                }
            },
            None => {
                assert forall|j: int| 0 <= j < records.len() implies !table.counts_as(
                    (#[trigger] records[j]).level as int,
                    level,
                ) by {
                    if j > 0 {
                        assert(records[j] == rest[j - 1]);
                    }
                }
            },
        }
    }
}

/// Whether every record has its level in the table.
pub open spec fn record_levels_known(records: Seq<LevelRecord>, table: LevelTable) -> bool {
    forall|k: int| 0 <= k < records.len() ==> (#[trigger] records[k]).level < table.count()
}

/// The place of the first record whose level counts as `level`.
pub fn find_record(records: &[LevelRecord], table: &LevelTable, level: usize) -> (found: Option<
    usize,
>)
    requires
        table.wf(),
        record_levels_known(records@, *table),
        level < table.count(),
    ensures
        match found {
            Some(k) => k < records@.len() && first_at_level(records@, *table, level as int) == Some(
                k as int,
            ),
            None => first_at_level(records@, *table, level as int) is None,
        },
{
    let mut k: usize = 0;
    assert(records@.skip(0) =~= records@);
    while k < records.len()
        invariant
            k <= records@.len(),
            table.wf(),
            record_levels_known(records@, *table),
            level < table.count(),
            first_at_level(records@, *table, level as int) == match first_at_level(
                records@.skip(k as int),
                *table,
                level as int,
            ) {
                Some(j) => Some(j + k),
                None => None,
            },
        decreases records.len() - k,
    {
        assert(records@.skip(k as int)[0] == records@[k as int]);
        assert(records@.skip(k as int).drop_first() =~= records@.skip(k + 1));
        if table.is_near(records[k].level, level) {
            return Some(k);
        }
        k += 1;
    }
    None
}

/// The message for a kind of field that no message holds.
pub open spec fn missing_records(id: FieldId) -> Seq<char> {
    "missing GRIB records for discipline="@ + crate::text::decimal(id.discipline as nat)
        + " category="@ + crate::text::decimal(id.category as nat) + " number="@
        + crate::text::decimal(id.number as nat) + " level_type="@ + crate::text::decimal(
        id.level_type as nat,
    )
}

/// The message for a kind of field that no message holds.
pub fn missing_records_error(id: FieldId) -> (message: String)
    ensures
        message@ == missing_records(id),
{
    let discipline = crate::text::to_decimal(id.discipline as u64);
    let category = crate::text::to_decimal(id.category as u64);
    let number = crate::text::to_decimal(id.number as u64);
    let level_type = crate::text::to_decimal(id.level_type as u64);
    "missing GRIB records for discipline=".to_owned().concat(discipline.as_str()).concat(
        " category=",
    ).concat(category.as_str()).concat(" number=").concat(number.as_str()).concat(
        " level_type=",
    ).concat(level_type.as_str())
}

/// The records of a kind of field are in order: a record stands before another
/// exactly if its level value is greater, or equal with an earlier message.
pub proof fn law_records_are_ordered(
    messages: Seq<GribRecord>,
    table: LevelTable,
    id: FieldId,
    count: int,
)
    requires
        0 <= count <= messages.len() <= usize::MAX,
    ensures
        forall|i: int, j: int|
            0 <= i < j < records_among(messages, table, id, count).len() ==> {
                let a = #[trigger] records_among(messages, table, id, count)[i];
                let b = #[trigger] records_among(messages, table, id, count)[j];
                ||| table.rank@[a.level as int] > table.rank@[b.level as int]
                ||| table.rank@[a.level as int] == table.rank@[b.level as int] && a.message
                    < b.message
            },
    decreases count,
{
    if count > 0 {
        law_records_are_ordered(messages, table, id, count - 1);
        lemma_records_point_at(messages, table, id, count - 1);
        let before = records_among(messages, table, id, count - 1);
        let message = messages[count - 1];
        if holds_field(message, id) {
            let rank = table.rank@[message.level as int] as int;
            lemma_place_bounds(before, table, rank);
            let at = place_for(before, table, rank);
            let after = records_among(messages, table, id, count);
            assert forall|i: int, j: int| 0 <= i < j < after.len() implies {
                let a = #[trigger] after[i];
                let b = #[trigger] after[j];
                ||| table.rank@[a.level as int] > table.rank@[b.level as int]
                ||| table.rank@[a.level as int] == table.rank@[b.level as int] && a.message
                    < b.message
            } by {
                if i < at {
                    assert(after[i] == before[i]);
                } else if i > at {
                    assert(after[i] == before[i - 1]);
                }
                if j < at {
                    assert(after[j] == before[j]);
                } else if j > at {
                    assert(after[j] == before[j - 1]);
                    if i == at {
                        if at < j - 1 {
                            assert(table.rank@[before[at].level as int] >= table.rank@[before[j
                                - 1].level as int]);
                        }
                    }
                }
            }
        }
    }
}

/// The records of a kind of field leave out no message that holds it.
pub proof fn law_records_are_complete(
    messages: Seq<GribRecord>,
    table: LevelTable,
    id: FieldId,
    count: int,
    message: int,
)
    requires
        0 <= message < count <= messages.len() <= usize::MAX,
        holds_field(messages[message], id),
    ensures
        exists|k: int|
            0 <= k < records_among(messages, table, id, count).len()
                && (#[trigger] records_among(messages, table, id, count)[k]).message == message,
    decreases count,
{
    let before = records_among(messages, table, id, count - 1);
    let after = records_among(messages, table, id, count);
    let last = messages[count - 1];
    let rank = table.rank@[last.level as int] as int;
    lemma_place_bounds(before, table, rank);
    let at = place_for(before, table, rank);
    if message < count - 1 {
        law_records_are_complete(messages, table, id, count - 1, message);
        let k = choose|k: int|
            0 <= k < before.len() && (#[trigger] before[k]).message == message;
        if holds_field(last, id) {
            if k < at {
                assert(after[k] == before[k]);
            } else {
                assert(after[k + 1] == before[k]);
            }
        } else {
            assert(after[k] == before[k]);
        }
    } else {
        assert(after[at].message == message);
    }
}

} // verus!
