//! Finding the bytes of a fetch group, and reading its fields from them or from
//! the cache.
use crate::direct::grouping::{FetchGroup, PlotRecipeFetchMode};
use crate::direct::recipe::FieldSelector;
use crate::direct::types::DirectFetchRuntimeInfo;
use crate::model::SourceId;
use crate::text;
use crate::text::{copy_strings, str_eq};
use vstd::prelude::*;
use vstd::string::*;

verus! {

/// A family that could not be fetched, from where, and why.
#[derive(Debug)]
pub struct FetchFailure {
    pub product: String,
    pub source: String,
    pub reason: String,
}

/// Where a family is first named in a list.
pub open spec fn first_of(list: Seq<Seq<char>>, product: Seq<char>, at: int) -> bool {
    &&& 0 <= at < list.len()
    &&& list[at] == product
    &&& forall|k: int| 0 <= k < at ==> list[k] != product
}

/// The families of a list of failures.
pub open spec fn failed_products(failures: Seq<FetchFailure>) -> Seq<Seq<char>> {
    Seq::new(failures.len(), |i: int| failures[i].product@)
}

/// The message for a family that could not be fetched.
pub open spec fn fetch_failed(failure: FetchFailure) -> Seq<char> {
    "direct fetch failed for canonical family '"@ + failure.product@ + "' from "@ + failure.source@
        + ": "@ + failure.reason@
}

/// The message for a family that was never asked for.
pub open spec fn fetch_missed(product: Seq<char>) -> Seq<char> {
    "direct planner missed fetch for canonical family '"@ + product + "'"@
}

/// Finds the loaded file of a group's family, or says why there is none: the
/// failure of its fetch if it has one.
pub fn find_loaded_bytes_for_group(
    loaded: &[String],
    failures: &[FetchFailure],
    product: &str,
) -> (at: Result<usize, String>)
    ensures
        match at {
            Ok(at) => first_of(text::texts(loaded@), product@, at as int),
            Err(message) => {
                &&& !text::texts(loaded@).contains(product@)
                &&& message@ == fetch_missed(product@) && !failed_products(failures@).contains(
                    product@,
                ) || exists|at: int|
                    #[trigger] first_of(failed_products(failures@), product@, at) && message@
                        == fetch_failed(failures@[at])
            },
        },
{
    let mut i: usize = 0;
    while i < loaded.len()
        invariant
            i <= loaded@.len(),
            forall|k: int| 0 <= k < i ==> #[trigger] text::texts(loaded@)[k] != product@,
        decreases loaded@.len() - i,
    {
        if str_eq(loaded[i].as_str(), product) {
            return Ok(i);
        }
        i = i + 1;
    }
    proof {
        assert(!text::texts(loaded@).contains(product@));
    }
    let mut j: usize = 0;
    while j < failures.len()
        invariant
            j <= failures@.len(),
            !text::texts(loaded@).contains(product@),
            forall|k: int| 0 <= k < j ==> #[trigger] failed_products(failures@)[k] != product@,
        decreases failures@.len() - j,
    {
        if str_eq(failures[j].product.as_str(), product) {
            let message = "direct fetch failed for canonical family '".to_owned().concat(
                product,
            ).concat("' from ").concat(failures[j].source.as_str()).concat(": ").concat(
                failures[j].reason.as_str(),
            );
            proof {
                assert(first_of(failed_products(failures@), product@, j as int));
            }
            return Err(message);
        }
        j = j + 1;
    }
    Err("direct planner missed fetch for canonical family '".to_owned().concat(product).concat("'"))
}

/// The fields of a group that the cache held, and the selectors that have to be
/// read from the file.
pub struct CachedFields<F> {
    pub extracted: Vec<F>,
    pub missing: Vec<FieldSelector>,
}

/// The fields that a cache held.
pub open spec fn hits<F>(cached: Seq<Option<F>>) -> Seq<F>
    decreases cached.len(),
{
    if cached.len() == 0 {
        Seq::empty()
    } else {
        match cached.last() {
            Some(field) => hits(cached.drop_last()).push(field),
            None => hits(cached.drop_last()),
        }
    }
}

/// The selectors whose fields a cache did not hold.
pub open spec fn misses<F>(selectors: Seq<FieldSelector>, cached: Seq<Option<F>>) -> Seq<
    FieldSelector,
>
    decreases cached.len(),
{
    if cached.len() == 0 {
        Seq::empty()
    } else if cached.last() is Some {
        misses(selectors, cached.drop_last())
    } else {
        misses(selectors, cached.drop_last()).push(selectors[cached.len() - 1])
    }
}

/// Parts the selectors of a group by what the cache held of them.
pub fn split_by_cache<F>(selectors: &[FieldSelector], cached: Vec<Option<F>>) -> (fields:
    CachedFields<F>)
    requires
        cached@.len() == selectors@.len(),
    ensures
        fields.extracted@ == hits(cached@),
        fields.missing@ == misses(selectors@, cached@),
{
    let mut extracted: Vec<F> = Vec::new();
    let mut missing: Vec<FieldSelector> = Vec::new();
    let ghost all = cached@;
    let mut i: usize = 0;
    proof {
        assert(all.take(0) =~= Seq::empty());
    }
    for field in it: cached
        invariant
            it.seq() == all,
            all.len() == selectors@.len(),
            i == it.index(),
            extracted@ == hits(all.take(i as int)),
            missing@ == misses(selectors@, all.take(i as int)),
    {
        proof {
            assert(all.take(i + 1).drop_last() == all.take(i as int));
            assert(all.take(i + 1).last() == field);
        }
        let selector: FieldSelector = selectors[i];
        match field {
            Some(field) => {
                extracted.push(field);
            },
            None => {
                missing.push(selector);
            },
        }
        i = i + 1;
    }
    proof {
        assert(all.take(i as int) == all);
    }
    CachedFields { extracted, missing }
}

/// The selectors of a group that is read without a cache: all of them have to be
/// read from the file.
pub fn without_cache<F>(selectors: &[FieldSelector]) -> (fields: CachedFields<F>)
    ensures
        fields.extracted@.len() == 0,
        fields.missing@ == selectors@,
{
    CachedFields { extracted: Vec::new(), missing: vstd::slice::slice_to_vec(selectors) }
}

/// The fields of a group and the selectors that the file did not match, with how
/// many fields came from the cache and how many were decoded.
pub struct GroupExtraction<F> {
    pub extracted: Vec<F>,
    pub unmatched: Vec<FieldSelector>,
    pub extract_cache_hits: usize,
    pub extract_cache_misses: usize,
}

/// Completes a group with what was decoded from its file. Nothing is decoded
/// where the cache held every field.
pub fn complete_extraction<F>(
    fields: CachedFields<F>,
    decoded: Vec<F>,
    unmatched: Vec<FieldSelector>,
) -> (group: GroupExtraction<F>)
    requires
        fields.missing@.len() == 0 ==> decoded@.len() == 0 && unmatched@.len() == 0,
    ensures
        group.extracted@ == fields.extracted@ + decoded@,
        group.unmatched@ == unmatched@,
        group.extract_cache_hits == fields.extracted@.len(),
        group.extract_cache_misses == (if fields.missing@.len() >= unmatched@.len() {
            fields.missing@.len() - unmatched@.len()
        } else {
            0
        }),
{
    let hits: usize = fields.extracted.len();
    let extract_cache_misses: usize = fields.missing.len().saturating_sub(unmatched.len());
    let mut extracted = fields.extracted;
    let mut decoded = decoded;
    extracted.append(&mut decoded);
    GroupExtraction { extracted, unmatched, extract_cache_hits: hits, extract_cache_misses }
}

/// What was planned and what was fetched for a group.
pub fn group_runtime_info(
    group: &FetchGroup,
    fetch_key: &str,
    fetched_product: &str,
    source_override: Option<SourceId>,
    resolved_source: SourceId,
    resolved_url: &str,
) -> (info: DirectFetchRuntimeInfo)
    ensures
        info.fetch_key@ == fetch_key@,
        info.planned_product@ == group.product@,
        info.fetched_product@ == fetched_product@,
        text::texts(info.planned_family_aliases@) == text::texts(group.planned_family_aliases@),
        info.requested_source == (match source_override {
            Some(source) => source,
            None => resolved_source,
        }),
        info.resolved_source == resolved_source,
        info.resolved_url@ == resolved_url@,
{
    DirectFetchRuntimeInfo {
        fetch_key: fetch_key.to_owned(),
        planned_product: group.product.clone(),
        fetched_product: fetched_product.to_owned(),
        planned_family_aliases: copy_strings(group.planned_family_aliases.as_slice()),
        requested_source: match source_override {
            Some(source) => source,
            None => resolved_source,
        },
        resolved_source,
        resolved_url: resolved_url.to_owned(),
    }
}

/// The times of a group's fetch, what came from the cache, and what was fetched.
pub struct DirectFetchTiming {
    pub product: String,
    pub fetch_mode: PlotRecipeFetchMode,
    pub fetch_ms: u128,
    pub parse_ms: u128,
    pub extract_ms: u128,
    pub total_ms: u128,
    pub fetch_cache_hit: bool,
    pub extract_cache_hits: usize,
    pub extract_cache_misses: usize,
    pub runtime_fetch: DirectFetchRuntimeInfo,
}

/// The measured times of a group's fetch.
#[derive(Debug, Clone, Copy, PartialEq, Eq, Structural)]
pub struct FetchMeasurement {
    pub fetch_ms: u128,
    pub parse_ms: u128,
    pub extract_ms: u128,
    pub total_ms: u128,
    pub fetch_cache_hit: bool,
}

/// Records the fetch of a group.
pub fn group_fetch_timing<F>(
    group: &FetchGroup,
    extraction: &GroupExtraction<F>,
    measured: FetchMeasurement,
    runtime_fetch: DirectFetchRuntimeInfo,
) -> (timing: DirectFetchTiming)
    ensures
        timing.product@ == group.product@,
        timing.fetch_mode == group.fetch_mode,
        timing.fetch_ms == measured.fetch_ms,
        timing.parse_ms == measured.parse_ms,
        timing.extract_ms == measured.extract_ms,
        timing.total_ms == measured.total_ms,
        timing.fetch_cache_hit == measured.fetch_cache_hit,
        timing.extract_cache_hits == extraction.extract_cache_hits,
        timing.extract_cache_misses == extraction.extract_cache_misses,
        timing.runtime_fetch == runtime_fetch,
{
    DirectFetchTiming {
        product: group.product.clone(),
        fetch_mode: group.fetch_mode,
        fetch_ms: measured.fetch_ms,
        parse_ms: measured.parse_ms,
        extract_ms: measured.extract_ms,
        total_ms: measured.total_ms,
        fetch_cache_hit: measured.fetch_cache_hit,
        extract_cache_hits: extraction.extract_cache_hits,
        extract_cache_misses: extraction.extract_cache_misses,
        runtime_fetch,
    }
}

/// Every selector of a group was held by the cache or has to be read: its field is
/// among the hits or it is among the misses, and there are no more of them.
pub proof fn law_every_selector_is_cached_or_read<F>(
    selectors: Seq<FieldSelector>,
    cached: Seq<Option<F>>,
)
    requires
        cached.len() == selectors.len(),
    ensures
        hits(cached).len() + misses(selectors, cached).len() == selectors.len(),
        forall|i: int|
            0 <= i < cached.len() ==> match #[trigger] cached[i] {
                Some(field) => hits(cached).contains(field),
                None => misses(selectors, cached).contains(selectors[i]),
            },
{
    lemma_hits_and_misses(selectors, cached);
}

proof fn lemma_hits_and_misses<F>(selectors: Seq<FieldSelector>, cached: Seq<Option<F>>)
    ensures
        hits(cached).len() + misses(selectors, cached).len() == cached.len(),
        forall|i: int|
            0 <= i < cached.len() ==> match #[trigger] cached[i] {
                Some(field) => hits(cached).contains(field),
                None => misses(selectors, cached).contains(selectors[i]),
            },
    decreases cached.len(),
{
    if cached.len() > 0 {
        let init = cached.drop_last();
        let last = cached.len() - 1;
        lemma_hits_and_misses(selectors, init);
        assert forall|i: int| 0 <= i < cached.len() implies match #[trigger] cached[i] {
            Some(field) => hits(cached).contains(field),
            None => misses(selectors, cached).contains(selectors[i]),
        } by {
            if i < last {
                assert(init[i] == cached[i]);
                match cached[i] {
                    Some(field) => {
                        let k = choose|k: int| 0 <= k < hits(init).len() && hits(init)[k] == field;
                        assert(hits(cached)[k] == field);
                    },
                    None => {
                        let before = misses(selectors, init);
                        let k = choose|k: int| 0 <= k < before.len() && before[k] == selectors[i];
                        assert(misses(selectors, cached)[k] == selectors[i]);
                    },
                }
            } else {
                match cached[i] {
                    Some(field) => {
                        assert(hits(cached)[hits(init).len() as int] == field);
                    },
                    None => {
                        let at = misses(selectors, init).len() as int;
                        assert(misses(selectors, cached)[at] == selectors[i]);
                    },
                }
            }
        }
    }
}

} // verus!
