//! What a direct batch makes of its fetch groups: the fields that were read, the
//! recipes that can be drawn and those that are blocked.
use crate::direct::grouping::FetchGroup;
use crate::direct::planning;
use crate::direct::planning::{
    partition_recipes_by_selector_availability, recipe_slugs_depending_on_group,
    PlannedDirectRecipe,
};
use crate::direct::recipe;
use crate::direct::recipe::{find_field, FieldSelector, PlotRecipe};
use crate::direct::types;
use crate::direct::types::{Blocked, DirectBatchRequest, DirectRecipeBlocker};
use crate::heavy::DomainSpec;
use crate::model::{ModelId, SourceId};
use crate::text;
use crate::text::str_eq;
use vstd::prelude::*;
use vstd::string::*;

verus! {

/// What became of a fetch group. A group that was not loaded, and one whose file
/// could not be read, have a reason. `F` is a field, `I` what is known of the
/// fetch.
pub enum GroupOutcome<F, I> {
    NotLoaded { reason: String },
    NotRead { reason: String },
    Read { fields: Vec<(FieldSelector, F)>, unmatched: Vec<FieldSelector>, info: I },
}

/// Fields by their selector, with one more: it takes the place of a field with
/// the same selector.
pub open spec fn with_field<F>(
    fields: Seq<(FieldSelector, F)>,
    added: (FieldSelector, F),
) -> Seq<(FieldSelector, F)> {
    match recipe::position(fields, added.0) {
        Some(at) => fields.update(at, added),
        None => fields.push(added),
    }
}

/// Fields by their selector, with others added in order.
pub open spec fn with_fields<F>(
    fields: Seq<(FieldSelector, F)>,
    added: Seq<(FieldSelector, F)>,
) -> Seq<(FieldSelector, F)>
    decreases added.len(),
{
    if added.len() == 0 {
        fields
    } else {
        with_field(with_fields(fields, added.drop_last()), added.last())
    }
}

fn put_fields<F>(fields: &mut Vec<(FieldSelector, F)>, added: Vec<(FieldSelector, F)>)
    ensures
        final(fields)@ == with_fields(old(fields)@, added@),
{
    let ghost before = fields@;
    let ghost all = added@;
    proof {
        assert(all.take(0) =~= Seq::empty());
    }
    for field in it: added
        invariant
            it.seq() == all,
            fields@ == with_fields(before, all.take(it.index() as int)),
    {
        proof {
            assert(all.take(it.index() + 1).drop_last() == all.take(it.index() as int));
            assert(all.take(it.index() + 1).last() == field);
        }
        match find_field(fields.as_slice(), field.0) {
            Some(at) => {
                fields.set(at, field);
            },
            None => {
                fields.push(field);
            },
        }
    }
    proof {
        assert(all.take(all.len() as int) == all);
    }
}

/// What the groups of a batch have given.
pub struct Gathered<F, I> {
    pub extracted: Seq<(FieldSelector, F)>,
    pub missing: Seq<FieldSelector>,
    pub blockers: Seq<Blocked>,
    pub fetches: Seq<(Seq<char>, I)>,
}

/// A blocker with one reason for each recipe of a list.
pub open spec fn blocked_for(slugs: Seq<Seq<char>>, reason: Seq<char>) -> Seq<Blocked> {
    Seq::new(slugs.len(), |i: int| Blocked { recipe_slug: slugs[i], reason })
}

/// What the groups have given once one that failed is counted: its selectors are
/// missing, and every recipe that reads any of them is blocked.
pub open spec fn after_failure<'a, F, I>(
    before: Gathered<F, I>,
    planned: Seq<PlannedDirectRecipe<'a>>,
    group: FetchGroup,
    reason: Seq<char>,
) -> Gathered<F, I> {
    Gathered {
        missing: before.missing + group.selectors@,
        blockers: before.blockers + blocked_for(
            planning::dependents(planned, group.selectors@),
            reason,
        ),
        ..before
    }
}

/// What the groups have given once one more is counted.
pub open spec fn after_group<'a, F, I>(
    before: Gathered<F, I>,
    planned: Seq<PlannedDirectRecipe<'a>>,
    group: FetchGroup,
    outcome: GroupOutcome<F, I>,
) -> Gathered<F, I> {
    match outcome {
        GroupOutcome::NotLoaded { reason } => after_failure(before, planned, group, reason@),
        GroupOutcome::NotRead { reason } => after_failure(before, planned, group, reason@),
        GroupOutcome::Read { fields, unmatched, info } => Gathered {
            extracted: with_fields(before.extracted, fields@),
            missing: before.missing + unmatched@,
            blockers: before.blockers,
            fetches: before.fetches.push((group.product@, info)),
        },
    }
}

/// What the first groups of a batch give.
pub open spec fn gathered<'a, F, I>(
    planned: Seq<PlannedDirectRecipe<'a>>,
    groups: Seq<FetchGroup>,
    outcomes: Seq<GroupOutcome<F, I>>,
) -> Gathered<F, I>
    decreases outcomes.len(),
{
    if outcomes.len() == 0 {
        Gathered {
            extracted: Seq::empty(),
            missing: Seq::empty(),
            blockers: Seq::empty(),
            fetches: Seq::empty(),
        }
    } else {
        after_group(
            gathered(planned, groups, outcomes.drop_last()),
            planned,
            groups[outcomes.len() - 1],
            outcomes.last(),
        )
    }
}

/// A batch whose fields have been read: what can be drawn, from which fields, and
/// what cannot. The fetches stand beside the product family of their group.
pub struct PreparedDirectBatch<'a, F, I> {
    pub renderable: Vec<PlannedDirectRecipe<'a>>,
    pub extracted: Vec<(FieldSelector, F)>,
    pub missing: Vec<FieldSelector>,
    pub fetches: Vec<(String, I)>,
    pub blockers: Vec<DirectRecipeBlocker>,
}

/// The fetches of a list as the contracts speak of them.
pub open spec fn fetch_views<I>(fetches: Seq<(String, I)>) -> Seq<(Seq<char>, I)> {
    Seq::new(fetches.len(), |i: int| (fetches[i].0@, fetches[i].1))
}

fn block_dependents<'a>(
    blockers: &mut Vec<DirectRecipeBlocker>,
    missing: &mut Vec<FieldSelector>,
    planned: &[PlannedDirectRecipe<'a>],
    group: &FetchGroup,
    reason: &str,
)
    ensures
        final(missing)@ == old(missing)@ + group.selectors@,
        types::blocked(final(blockers)@) == types::blocked(old(blockers)@) + blocked_for(
            planning::dependents(planned@, group.selectors@),
            reason@,
        ),
{
    push_selectors(missing, group.selectors.as_slice());
    let slugs = recipe_slugs_depending_on_group(planned, group.selectors.as_slice());
    let ghost before = types::blocked(blockers@);
    let ghost all = blocked_for(text::texts(slugs@), reason@);
    let mut i: usize = 0;
    proof {
        assert(before + all.take(0) =~= before);
    }
    while i < slugs.len()
        invariant
            i <= slugs@.len(),
            all == blocked_for(text::texts(slugs@), reason@),
            types::blocked(blockers@) == before + all.take(i as int),
        decreases slugs@.len() - i,
    {
        let ghost held = types::blocked(blockers@);
        let blocker = DirectRecipeBlocker {
            recipe_slug: slugs[i].clone(),
            reason: reason.to_owned(),
        };
        let ghost shown = blocker@;
        blockers.push(blocker);
        proof {
            assert(shown == all[i as int]);
            assert(types::blocked(blockers@) =~= held.push(shown));
            assert(before + all.take(i + 1) =~= held.push(shown));
        }
        i = i + 1;
    }
    proof {
        assert(all.take(i as int) =~= all);
    }
}

fn push_selectors(list: &mut Vec<FieldSelector>, items: &[FieldSelector])
    ensures
        final(list)@ == old(list)@ + items@,
{
    let mut added = vstd::slice::slice_to_vec(items);
    list.append(&mut added);
}

/// Puts together what the fetch groups of a batch gave. A group that failed
/// blocks the recipes that depend on it and none of the others; then the recipes
/// that lack a field are blocked.
pub fn prepare_direct_batch<'a, F, I>(
    planned: &[PlannedDirectRecipe<'a>],
    components: &[PlotRecipe],
    groups: &[FetchGroup],
    outcomes: Vec<GroupOutcome<F, I>>,
) -> (batch: PreparedDirectBatch<'a, F, I>)
    requires
        outcomes@.len() == groups@.len(),
    ensures
        ({
            let given = gathered(planned@, groups@, outcomes@);
            &&& batch.extracted@ == given.extracted
            &&& batch.missing@ == given.missing
            &&& fetch_views(batch.fetches@) == given.fetches
            &&& batch.renderable@ == planning::drawable(planned@, components@, given.missing)
            &&& types::blocked(batch.blockers@) == given.blockers + planning::lacking(
                planned@,
                components@,
                given.missing,
            )
        }),
{
    let mut extracted: Vec<(FieldSelector, F)> = Vec::new();
    let mut missing: Vec<FieldSelector> = Vec::new();
    let mut fetches: Vec<(String, I)> = Vec::new();
    let mut blockers: Vec<DirectRecipeBlocker> = Vec::new();
    let ghost all = outcomes@;
    let mut i: usize = 0;
    proof {
        assert(all.take(0) =~= Seq::empty());
        assert(types::blocked(blockers@) =~= Seq::empty());
        assert(fetch_views(fetches@) =~= Seq::empty());
    }
    for outcome in it: outcomes
        invariant
            it.seq() == all,
            all.len() == groups@.len(),
            i == it.index(),
            gathered(planned@, groups@, all.take(i as int)) == (Gathered {
                extracted: extracted@,
                missing: missing@,
                blockers: types::blocked(blockers@),
                fetches: fetch_views(fetches@),
            }),
    {
        let group = &groups[i];
        proof {
            assert(all.take(i + 1).drop_last() == all.take(i as int));
            assert(all.take(i + 1).last() == outcome);
        }
        match outcome {
            GroupOutcome::NotLoaded { reason } => {
                block_dependents(&mut blockers, &mut missing, planned, group, reason.as_str());
            },
            GroupOutcome::NotRead { reason } => {
                block_dependents(&mut blockers, &mut missing, planned, group, reason.as_str());
            },
            GroupOutcome::Read { fields, unmatched, info } => {
                put_fields(&mut extracted, fields);
                push_selectors(&mut missing, unmatched.as_slice());
                let ghost held = fetch_views(fetches@);
                fetches.push((group.product.clone(), info));
                proof {
                    assert(fetch_views(fetches@) =~= held.push((group.product@, info)));
                }
            },
        }
        i = i + 1;
    }
    proof {
        assert(all.take(i as int) == all);
    }
    let (renderable, mut lacking) = partition_recipes_by_selector_availability(
        planned,
        components,
        missing.as_slice(),
    );
    let ghost failed = types::blocked(blockers@);
    let ghost gaps = types::blocked(lacking@);
    blockers.append(&mut lacking);
    proof {
        assert(types::blocked(blockers@) =~= failed + gaps);
    }
    PreparedDirectBatch { renderable, extracted, missing, fetches, blockers }
}

/// What is known of the fetch of a product family: the last entry for it.
pub open spec fn fetch_of<I>(fetches: Seq<(Seq<char>, I)>, product: Seq<char>) -> Option<I>
    decreases fetches.len(),
{
    if fetches.len() == 0 {
        None
    } else if fetches.last().0 == product {
        Some(fetches.last().1)
    } else {
        fetch_of(fetches.drop_last(), product)
    }
}

/// Finds what is known of the fetch of a product family.
pub fn find_fetch<'a, I>(fetches: &'a [(String, I)], product: &str) -> (info: Option<&'a I>)
    ensures
        match info {
            Some(info) => fetch_of(fetch_views(fetches@), product@) == Some(*info),
            None => fetch_of(fetch_views(fetches@), product@) is None,
        },
{
    let ghost views = fetch_views(fetches@);
    let mut i: usize = fetches.len();
    proof {
        assert(views.take(i as int) =~= views);
    }
    while i > 0
        invariant
            i <= fetches@.len(),
            views == fetch_views(fetches@),
            fetch_of(views, product@) == fetch_of(views.take(i as int), product@),
        decreases i,
    {
        proof {
            assert(views.take(i as int).drop_last() =~= views.take(i - 1));
            assert(views.take(i as int).last() == views[i - 1]);
        }
        if str_eq(fetches[i - 1].0.as_str(), product) {
            return Some(&fetches[i - 1].1);
        }
        i = i - 1;
    }
    None
}

/// What is reported of a batch. `B` is the type of the domain's bounds, `T` what is
/// known of a fetch, `R` a map that was drawn.
pub struct DirectBatchReport<B, T, R> {
    pub model: ModelId,
    pub date_yyyymmdd: String,
    pub cycle_utc: u8,
    pub forecast_hour: u16,
    pub source: SourceId,
    pub domain: DomainSpec<B>,
    pub fetches: Vec<T>,
    pub recipes: Vec<R>,
    pub blockers: Vec<DirectRecipeBlocker>,
    pub total_ms: u128,
}

/// Reports a batch. The cycle and the source are those of the run that was found.
pub fn direct_batch_report<B, O, T, R>(
    request: DirectBatchRequest<B, O>,
    cycle_utc: u8,
    source: SourceId,
    fetches: Vec<T>,
    recipes: Vec<R>,
    blockers: Vec<DirectRecipeBlocker>,
    total_ms: u128,
) -> (report: DirectBatchReport<B, T, R>)
    ensures
        report == (DirectBatchReport {
            model: request.model,
            date_yyyymmdd: request.date_yyyymmdd,
            cycle_utc,
            forecast_hour: request.forecast_hour,
            source,
            domain: request.domain,
            fetches,
            recipes,
            blockers,
            total_ms,
        }),
{
    DirectBatchReport {
        model: request.model,
        date_yyyymmdd: request.date_yyyymmdd,
        cycle_utc,
        forecast_hour: request.forecast_hour,
        source,
        domain: request.domain,
        fetches,
        recipes,
        blockers,
        total_ms,
    }
}

/// A batch whose groups were all read in full is drawn whole: nothing is missing
/// and nothing is blocked.
pub proof fn law_complete_groups_block_nothing<'a, F, I>(
    planned: Seq<PlannedDirectRecipe<'a>>,
    components: Seq<PlotRecipe>,
    groups: Seq<FetchGroup>,
    outcomes: Seq<GroupOutcome<F, I>>,
)
    requires
        forall|i: int|
            0 <= i < outcomes.len() ==> (#[trigger] outcomes[i]) is Read
                && outcomes[i]->unmatched@.len() == 0,
    ensures
        gathered(planned, groups, outcomes).missing.len() == 0,
        gathered(planned, groups, outcomes).blockers.len() == 0,
        planning::drawable(planned, components, gathered(planned, groups, outcomes).missing)
            == planned,
{
    lemma_complete_groups(planned, groups, outcomes);
    planning::law_missing_fields_block_only_their_recipes(
        planned,
        components,
        gathered(planned, groups, outcomes).missing,
    );
}

proof fn lemma_complete_groups<'a, F, I>(
    planned: Seq<PlannedDirectRecipe<'a>>,
    groups: Seq<FetchGroup>,
    outcomes: Seq<GroupOutcome<F, I>>,
)
    requires
        forall|i: int|
            0 <= i < outcomes.len() ==> (#[trigger] outcomes[i]) is Read
                && outcomes[i]->unmatched@.len() == 0,
    ensures
        gathered(planned, groups, outcomes).missing.len() == 0,
        gathered(planned, groups, outcomes).blockers.len() == 0,
    decreases outcomes.len(),
{
    if outcomes.len() > 0 {
        let init = outcomes.drop_last();
        assert forall|i: int| 0 <= i < init.len() implies (#[trigger] init[i]) is Read
            && init[i]->unmatched@.len() == 0 by {
            assert(init[i] == outcomes[i]);
        }
        lemma_complete_groups(planned, groups, init);
        assert(outcomes[outcomes.len() - 1] is Read);
    }
}

} // verus!
