//! The fields that a direct batch samples without drawing them.
use crate::direct::batch;
use crate::direct::batch::{
    find_fetch, prepare_direct_batch, GroupOutcome, PreparedDirectBatch,
};
use crate::direct::composite;
use crate::direct::composite::composite_panel_spec;
use crate::direct::grouping;
use crate::direct::grouping::{canonical_fetch_product_for_selectors, FetchGroup};
use crate::direct::planning;
use crate::direct::planning::PlannedDirectRecipe;
use crate::direct::recipe;
use crate::direct::recipe::{find_field, FieldSelector, PlotRecipe};
use crate::direct::types;
use crate::direct::types::{Blocked, DirectBatchRequest, DirectRecipeBlocker};
use vstd::prelude::*;
use vstd::string::*;

verus! {

/// Where the first group stands whose file could not be read.
pub open spec fn first_unread<F, I>(outcomes: Seq<GroupOutcome<F, I>>, at: int) -> bool {
    &&& 0 <= at < outcomes.len()
    &&& outcomes[at] is NotRead
    &&& forall|k: int| 0 <= k < at ==> !(#[trigger] outcomes[k] is NotRead)
}

/// What a sampling run makes of its fetch groups. A file that cannot be read ends
/// the run; a file that was not loaded blocks the recipes that depend on it.
pub fn prepare_direct_samples<'a, F, I>(
    planned: &[PlannedDirectRecipe<'a>],
    components: &[PlotRecipe],
    groups: &[FetchGroup],
    outcomes: Vec<GroupOutcome<F, I>>,
) -> (batch: Result<PreparedDirectBatch<'a, F, I>, String>)
    requires
        outcomes@.len() == groups@.len(),
    ensures
        match batch {
            Ok(batch) => {
                let given = batch::gathered(planned@, groups@, outcomes@);
                &&& forall|k: int| 0 <= k < outcomes@.len() ==> !(#[trigger] outcomes@[k] is NotRead)
                &&& batch.extracted@ == given.extracted
                &&& batch.missing@ == given.missing
                &&& batch::fetch_views(batch.fetches@) == given.fetches
                &&& batch.renderable@ == planning::drawable(planned@, components@, given.missing)
                &&& types::blocked(batch.blockers@) == given.blockers + planning::lacking(
                    planned@,
                    components@,
                    given.missing,
                )
            },
            Err(message) => exists|at: int|
                #[trigger] first_unread(outcomes@, at) && outcomes@[at]->NotRead_reason@ == message@,
        },
{
    let mut i: usize = 0;
    while i < outcomes.len()
        invariant
            i <= outcomes@.len(),
            forall|k: int| 0 <= k < i ==> !(#[trigger] outcomes@[k] is NotRead),
        decreases outcomes@.len() - i,
    {
        match &outcomes[i] {
            GroupOutcome::NotRead { reason } => {
                proof {
                    assert(first_unread(outcomes@, i as int));
                }
                return Err(reason.clone());
            },
            _ => {},
        }
        i = i + 1;
    }
    Ok(prepare_direct_batch(planned, components, groups, outcomes))
}

/// A field that is sampled: the recipe, its selector, where the field stands
/// among those that were read, and whether its fetch is known.
pub struct DirectSample<'a> {
    pub recipe: &'a PlotRecipe,
    pub field_selector: FieldSelector,
    pub field_at: usize,
    pub fetched: bool,
}

/// Whether a sample is that of a recipe.
pub open spec fn samples<'a, B, O, F, I>(
    sample: DirectSample<'a>,
    item: PlannedDirectRecipe<'a>,
    request: DirectBatchRequest<B, O>,
    extracted: Seq<(FieldSelector, F)>,
    fetches: Seq<(Seq<char>, I)>,
) -> bool {
    &&& *sample.recipe == *item.recipe
    &&& item.recipe.spec_filled() == Some(sample.field_selector)
    &&& recipe::position(extracted, sample.field_selector) == Some(sample.field_at as int)
    &&& sample.fetched == (batch::fetch_of(
        fetches,
        grouping::canonical(
            request.model,
            request.product_overrides@,
            item.plan.product@,
            item.plan.selectors@,
        ),
    ) is Some)
}

/// Why a recipe gives no sample, if it gives none for want of a field.
pub open spec fn sample_gap<'a, F>(
    item: PlannedDirectRecipe<'a>,
    extracted: Seq<(FieldSelector, F)>,
) -> Option<Seq<char>> {
    match item.recipe.filled {
        None => Some("direct recipe is missing a filled selector binding"@),
        Some(binding) => if recipe::position(extracted, binding.selector) is None {
            Some(
                "direct recipe '"@ + item.recipe.slug@ + "' was renderable but missing selector "@
                    + binding.key@,
            )
        } else {
            None
        },
    }
}

/// The recipes that give a sample. One that is made of panels gives none.
pub open spec fn sampled<'a, F>(
    list: Seq<PlannedDirectRecipe<'a>>,
    extracted: Seq<(FieldSelector, F)>,
) -> Seq<PlannedDirectRecipe<'a>>
    decreases list.len(),
{
    if list.len() == 0 {
        Seq::empty()
    } else {
        let before = sampled(list.drop_last(), extracted);
        if composite::panels_of(list.last().recipe.slug@) is None && sample_gap(
            list.last(),
            extracted,
        ) is None {
            before.push(list.last())
        } else {
            before
        }
    }
}

/// The blockers of the recipes that give no sample for want of a field.
pub open spec fn sample_gaps<'a, F>(
    list: Seq<PlannedDirectRecipe<'a>>,
    extracted: Seq<(FieldSelector, F)>,
) -> Seq<Blocked>
    decreases list.len(),
{
    if list.len() == 0 {
        Seq::empty()
    } else {
        let before = sample_gaps(list.drop_last(), extracted);
        match sample_gap(list.last(), extracted) {
            Some(reason) => if composite::panels_of(list.last().recipe.slug@) is None {
                before.push(Blocked { recipe_slug: list.last().recipe.slug@, reason })
            } else {
                before
            },
            None => before,
        }
    }
}

/// The samples of a run and its blockers.
pub struct DirectSampledProductSet<'a> {
    pub fields: Vec<DirectSample<'a>>,
    pub blockers: Vec<DirectRecipeBlocker>,
}

/// Samples the recipes that can be drawn.
pub fn sample_direct_batch<'a, B, O, F, I>(
    request: &DirectBatchRequest<B, O>,
    batch: PreparedDirectBatch<'a, F, I>,
) -> (set: DirectSampledProductSet<'a>)
    ensures
        ({
            let chosen = sampled(batch.renderable@, batch.extracted@);
            &&& set.fields@.len() == chosen.len()
            &&& forall|k: int|
                0 <= k < chosen.len() ==> samples(
                    #[trigger] set.fields@[k],
                    chosen[k],
                    *request,
                    batch.extracted@,
                    batch::fetch_views(batch.fetches@),
                )
            &&& types::blocked(set.blockers@) == types::blocked(batch.blockers@) + sample_gaps(
                batch.renderable@,
                batch.extracted@,
            )
        }),
{
    let ghost list = batch.renderable@;
    let ghost extracted = batch.extracted@;
    let ghost fetches = batch::fetch_views(batch.fetches@);
    let ghost before = types::blocked(batch.blockers@);
    let mut fields: Vec<DirectSample<'a>> = Vec::new();
    let mut blockers = batch.blockers;
    let mut i: usize = 0;
    proof {
        assert(list.take(0) =~= Seq::empty());
        assert(types::blocked(blockers@) =~= before + sample_gaps(list.take(0), extracted));
    }
    while i < batch.renderable.len()
        invariant
            i <= list.len(),
            list == batch.renderable@,
            extracted == batch.extracted@,
            fetches == batch::fetch_views(batch.fetches@),
            fields@.len() == sampled(list.take(i as int), extracted).len(),
            forall|k: int|
                0 <= k < fields@.len() ==> samples(
                    #[trigger] fields@[k],
                    sampled(list.take(i as int), extracted)[k],
                    *request,
                    extracted,
                    fetches,
                ),
            types::blocked(blockers@) == before + sample_gaps(list.take(i as int), extracted),
        decreases list.len() - i,
    {
        let item = batch.renderable[i];
        proof {
            assert(list.take(i + 1).drop_last() == list.take(i as int));
            assert(list.take(i + 1).last() == item);
        }
        let ghost held = types::blocked(blockers@);
        if composite_panel_spec(item.recipe.slug.as_str()).is_none() {
            match &item.recipe.filled {
                None => {
                    let blocker = DirectRecipeBlocker {
                        recipe_slug: item.recipe.slug.clone(),
                        reason: "direct recipe is missing a filled selector binding".to_owned(),
                    };
                    let ghost shown = blocker@;
                    blockers.push(blocker);
                    proof {
                        assert(types::blocked(blockers@) =~= held.push(shown));
                        assert(held.push(shown) =~= before + sample_gaps(
                            list.take(i + 1),
                            extracted,
                        ));
                    }
                },
                Some(binding) => {
                    match find_field(batch.extracted.as_slice(), binding.selector) {
                        Some(at) => {
                            let product = canonical_fetch_product_for_selectors(
                                request,
                                item.plan.product.as_str(),
                                item.plan.selectors.as_slice(),
                            );
                            let fetched = find_fetch(
                                batch.fetches.as_slice(),
                                product.as_str(),
                            ).is_some();
                            fields.push(
                                DirectSample {
                                    recipe: item.recipe,
                                    field_selector: binding.selector,
                                    field_at: at,
                                    fetched,
                                },
                            );
                        },
                        None => {
                            let blocker = DirectRecipeBlocker {
                                recipe_slug: item.recipe.slug.clone(),
                                reason: "direct recipe '".to_owned().concat(
                                    item.recipe.slug.as_str(),
                                ).concat("' was renderable but missing selector ").concat(
                                    binding.key.as_str(),
                                ),
                            };
                            let ghost shown = blocker@;
                            blockers.push(blocker);
                            proof {
                                assert(types::blocked(blockers@) =~= held.push(shown));
                                assert(held.push(shown) =~= before + sample_gaps(
                                    list.take(i + 1),
                                    extracted,
                                ));
                            }
                        },
                    }
                },
            }
        }
        i = i + 1;
    }
    proof {
        assert(list.take(i as int) == list);
    }
    DirectSampledProductSet { fields, blockers }
}

} // verus!
