//! Which recipes a direct batch draws, and which of them lack a field.
use crate::direct::composite;
use crate::direct::composite::composite_panel_spec;
use crate::direct::recipe::{contains_selector, FetchPlan, FieldSelector, PlotRecipe};
use crate::direct::types;
use crate::direct::types::{Blocked, DirectRecipeBlocker};
use crate::text;
use crate::text::{starts_with, str_eq};
use vstd::prelude::*;
use vstd::string::*;

verus! {

/// Whether recipes of a family are drawn only when they are asked for by name.
pub open spec fn opt_in(slug: Seq<char>) -> bool {
    ||| text::begins_with(slug, "nbm_qmd_"@)
    ||| text::begins_with(slug, "sref_prob_"@)
    ||| text::begins_with(slug, "gefs_avg_"@)
    ||| text::begins_with(slug, "gefs_spr_"@)
    ||| text::begins_with(slug, "aigefs_spr_"@)
    ||| text::begins_with(slug, "hgefs_spr_"@)
    ||| text::begins_with(slug, "href_sprd_"@)
    ||| text::begins_with(slug, "href_prob_"@)
    ||| text::begins_with(slug, "href_mean_"@)
    ||| text::begins_with(slug, "refs_sprd_"@)
    ||| text::begins_with(slug, "refs_prob_"@)
}

/// Whether a recipe is drawn only when it is asked for by name.
pub fn direct_recipe_requires_explicit_opt_in(slug: &str) -> (yes: bool)
    ensures
        yes == opt_in(slug@),
{
    starts_with(slug, "nbm_qmd_") || starts_with(slug, "sref_prob_") || starts_with(
        slug,
        "gefs_avg_",
    ) || starts_with(slug, "gefs_spr_") || starts_with(slug, "aigefs_spr_") || starts_with(
        slug,
        "hgefs_spr_",
    ) || starts_with(slug, "href_sprd_") || starts_with(slug, "href_prob_") || starts_with(
        slug,
        "href_mean_",
    ) || starts_with(slug, "refs_sprd_") || starts_with(slug, "refs_prob_")
}

/// The slugs of the recipes that a model supports, of those that need not be
/// asked for by name. Each recipe of the list goes with whether the model has a
/// plan for it.
pub open spec fn supported(recipes: Seq<(&str, bool)>) -> Seq<Seq<char>>
    decreases recipes.len(),
{
    if recipes.len() == 0 {
        Seq::empty()
    } else {
        let before = supported(recipes.drop_last());
        if recipes.last().1 && !opt_in(recipes.last().0@) {
            before.push(recipes.last().0@)
        } else {
            before
        }
    }
}

/// The slugs of the recipes that a model supports, of those that need not be
/// asked for by name. Each recipe of the list goes with whether the model has a
/// plan for it.
pub fn supported_direct_recipe_slugs(recipes: &[(&str, bool)]) -> (slugs: Vec<String>)
    ensures
        text::texts(slugs@) == supported(recipes@),
{
    let mut slugs: Vec<String> = Vec::new();
    let mut i: usize = 0;
    proof {
        assert(text::texts(slugs@) =~= supported(recipes@.take(0)));
    }
    while i < recipes.len()
        invariant
            i <= recipes@.len(),
            text::texts(slugs@) == supported(recipes@.take(i as int)),
        decreases recipes@.len() - i,
    {
        let (slug, has_plan) = recipes[i];
        proof {
            assert(recipes@.take(i + 1).drop_last() == recipes@.take(i as int));
        }
        if has_plan && !direct_recipe_requires_explicit_opt_in(slug) {
            let ghost before = text::texts(slugs@);
            slugs.push(slug.to_owned());
            proof {
                assert(text::texts(slugs@) =~= before.push(slug@));
            }
        }
        i = i + 1;
    }
    proof {
        assert(recipes@.take(i as int) == recipes@);
    }
    slugs
}

/// Why a model has no plan for a recipe.
#[derive(Debug)]
pub enum PlanFailure {
    Unsupported { reason: String },
    Failed { message: String },
}

/// What the recipe book says of a requested slug: the recipe, if there is one,
/// and the model's plan for it.
#[derive(Debug)]
pub struct RecipeLookup {
    pub slug: String,
    pub recipe: Option<PlotRecipe>,
    pub plan: Result<FetchPlan, PlanFailure>,
}

/// A recipe and what it needs from the model.
#[derive(Clone, Copy)]
pub struct PlannedDirectRecipe<'a> {
    pub recipe: &'a PlotRecipe,
    pub plan: &'a FetchPlan,
}

/// Whether a recipe of a slug is in a plan.
pub open spec fn plans<'a>(planned: Seq<PlannedDirectRecipe<'a>>, slug: Seq<char>) -> bool {
    exists|k: int| 0 <= k < planned.len() && (#[trigger] planned[k]).recipe.slug@ == slug
}

/// The message for a recipe that a model does not support.
pub open spec fn unsupported(slug: Seq<char>, model: Seq<char>, reason: Seq<char>) -> Seq<char> {
    "plot recipe '"@ + slug + "' is not supported for "@ + model + ": "@ + reason
}

/// The recipes of a list of lookups, each once and in the order in which they
/// were first asked for, or the message of the first lookup that fails.
pub open spec fn planned_recipes<'a>(model: Seq<char>, lookups: Seq<RecipeLookup>) -> Result<
    Seq<PlannedDirectRecipe<'a>>,
    Seq<char>,
>
    decreases lookups.len(),
{
    if lookups.len() == 0 {
        Ok(Seq::empty())
    } else {
        match planned_recipes(model, lookups.drop_last()) {
            Err(message) => Err(message),
            Ok(before) => match lookups.last().recipe {
                None => Err("unknown recipe '"@ + lookups.last().slug@ + "'"@),
                Some(recipe) => if plans(before, recipe.slug@) {
                    Ok(before)
                } else {
                    match lookups.last().plan {
                        Ok(plan) => Ok(
                            before.push(PlannedDirectRecipe { recipe: &recipe, plan: &plan }),
                        ),
                        Err(PlanFailure::Unsupported { reason }) => Err(
                            unsupported(recipe.slug@, model, reason@),
                        ),
                        Err(PlanFailure::Failed { message }) => Err(message@),
                    }
                },
            },
        }
    }
}

/// A failed lookup fails every longer list in the same way.
proof fn lemma_failure_stays(model: Seq<char>, lookups: Seq<RecipeLookup>, len: int)
    requires
        0 <= len <= lookups.len(),
        planned_recipes(model, lookups.take(len)) is Err,
    ensures
        planned_recipes(model, lookups) == planned_recipes(model, lookups.take(len)),
    decreases lookups.len() - len,
{
    if len < lookups.len() {
        assert(lookups.take(len + 1).drop_last() == lookups.take(len));
        lemma_failure_stays(model, lookups, len + 1);
    } else {
        assert(lookups.take(len) == lookups);
    }
}

fn plans_slug<'a>(planned: &[PlannedDirectRecipe<'a>], slug: &str) -> (found: bool)
    ensures
        found == plans(planned@, slug@),
{
    let mut i: usize = 0;
    while i < planned.len()
        invariant
            i <= planned@.len(),
            forall|k: int| 0 <= k < i ==> (#[trigger] planned@[k]).recipe.slug@ != slug@,
        decreases planned@.len() - i,
    {
        if str_eq(planned[i].recipe.slug.as_str(), slug) {
            proof {
                assert(planned@[i as int].recipe.slug@ == slug@);
            }
            return true;
        }
        i = i + 1;
    }
    false
}

/// Plans the recipes that were asked for.
pub fn plan_direct_recipes<'a>(model: &str, lookups: &'a [RecipeLookup]) -> (planned: Result<
    Vec<PlannedDirectRecipe<'a>>,
    String,
>)
    ensures
        match planned {
            Ok(planned) => planned_recipes(model@, lookups@) == Ok::<
                Seq<PlannedDirectRecipe<'a>>,
                Seq<char>,
            >(planned@),
            Err(message) => planned_recipes(model@, lookups@) == Err::<
                Seq<PlannedDirectRecipe<'a>>,
                Seq<char>,
            >(message@),
        },
{
    let mut planned: Vec<PlannedDirectRecipe<'a>> = Vec::new();
    let mut i: usize = 0;
    proof {
        assert(lookups@.take(0) =~= Seq::empty());
    }
    while i < lookups.len()
        invariant
            i <= lookups@.len(),
            planned_recipes(model@, lookups@.take(i as int)) == Ok::<
                Seq<PlannedDirectRecipe<'a>>,
                Seq<char>,
            >(planned@),
        decreases lookups@.len() - i,
    {
        let lookup: &'a RecipeLookup = &lookups[i];
        proof {
            assert(lookups@.take(i + 1).drop_last() == lookups@.take(i as int));
            assert(lookups@.take(i + 1).last() == *lookup);
        }
        let ghost before = planned@;
        match &lookup.recipe {
            None => {
                proof {
                    lemma_failure_stays(model@, lookups@, i + 1);
                }
                return Err("unknown recipe '".to_owned().concat(lookup.slug.as_str()).concat("'"));
            },
            Some(recipe) => {
                if !plans_slug(planned.as_slice(), recipe.slug.as_str()) {
                    match &lookup.plan {
                        Ok(plan) => {
                            planned.push(PlannedDirectRecipe { recipe, plan });
                        },
                        Err(PlanFailure::Unsupported { reason }) => {
                            proof {
                                lemma_failure_stays(model@, lookups@, i + 1);
                            }
                            return Err(
                                "plot recipe '".to_owned().concat(recipe.slug.as_str()).concat(
                                    "' is not supported for ",
                                ).concat(model).concat(": ").concat(reason.as_str()),
                            );
                        },
                        Err(PlanFailure::Failed { message }) => {
                            proof {
                                lemma_failure_stays(model@, lookups@, i + 1);
                            }
                            return Err(message.clone());
                        },
                    }
                }
            },
        }
        i = i + 1;
    }
    proof {
        assert(lookups@.take(i as int) == lookups@);
    }
    Ok(planned)
}

/// A plan holds no recipe twice.
pub proof fn law_a_plan_repeats_no_recipe(model: Seq<char>, lookups: Seq<RecipeLookup>)
    ensures
        match planned_recipes(model, lookups) {
            Ok(planned) => forall|i: int, j: int|
                #![trigger planned[i], planned[j]]
                0 <= i < j < planned.len() ==> planned[i].recipe.slug@ != planned[j].recipe.slug@,
            Err(_) => true,
        },
    decreases lookups.len(),
{
    if lookups.len() > 0 {
        law_a_plan_repeats_no_recipe(model, lookups.drop_last());
    }
}

/// Whether any selector of a plan is among those of a group.
pub open spec fn reads_any(plan: FetchPlan, selectors: Seq<FieldSelector>) -> bool {
    exists|k: int|
        0 <= k < plan.selectors@.len() && selectors.contains(#[trigger] plan.selectors@[k])
}

fn plan_reads_any(plan: &FetchPlan, selectors: &[FieldSelector]) -> (yes: bool)
    ensures
        yes == reads_any(*plan, selectors@),
{
    let mut i: usize = 0;
    while i < plan.selectors.len()
        invariant
            i <= plan.selectors@.len(),
            forall|k: int| 0 <= k < i ==> !selectors@.contains(#[trigger] plan.selectors@[k]),
        decreases plan.selectors@.len() - i,
    {
        if contains_selector(selectors, plan.selectors[i]) {
            return true;
        }
        i = i + 1;
    }
    false
}

/// The slugs of the planned recipes that read any of a group's selectors.
pub open spec fn dependents<'a>(
    planned: Seq<PlannedDirectRecipe<'a>>,
    selectors: Seq<FieldSelector>,
) -> Seq<Seq<char>>
    decreases planned.len(),
{
    if planned.len() == 0 {
        Seq::empty()
    } else {
        let before = dependents(planned.drop_last(), selectors);
        if reads_any(*planned.last().plan, selectors) {
            before.push(planned.last().recipe.slug@)
        } else {
            before
        }
    }
}

/// The slugs of the planned recipes that read any of a group's selectors.
pub fn recipe_slugs_depending_on_group<'a>(
    planned: &[PlannedDirectRecipe<'a>],
    selectors: &[FieldSelector],
) -> (slugs: Vec<String>)
    ensures
        text::texts(slugs@) == dependents(planned@, selectors@),
{
    let mut slugs: Vec<String> = Vec::new();
    let mut i: usize = 0;
    proof {
        assert(text::texts(slugs@) =~= dependents(planned@.take(0), selectors@));
    }
    while i < planned.len()
        invariant
            i <= planned@.len(),
            text::texts(slugs@) == dependents(planned@.take(i as int), selectors@),
        decreases planned@.len() - i,
    {
        proof {
            assert(planned@.take(i + 1).drop_last() == planned@.take(i as int));
        }
        if plan_reads_any(planned[i].plan, selectors) {
            let ghost before = text::texts(slugs@);
            slugs.push(planned[i].recipe.slug.clone());
            proof {
                assert(text::texts(slugs@) =~= before.push(planned@[i as int].recipe.slug@));
            }
        }
        i = i + 1;
    }
    proof {
        assert(planned@.take(i as int) == planned@);
    }
    slugs
}

/// The recipe of a slug in a list: the first one.
pub open spec fn recipe_named(recipes: Seq<PlotRecipe>, slug: Seq<char>) -> Option<PlotRecipe>
    decreases recipes.len(),
{
    if recipes.len() == 0 {
        None
    } else if recipes[0].slug@ == slug {
        Some(recipes[0])
    } else {
        recipe_named(recipes.drop_first(), slug)
    }
}

/// Finds a recipe by its slug.
pub fn find_recipe<'a>(recipes: &'a [PlotRecipe], slug: &str) -> (recipe: Option<&'a PlotRecipe>)
    ensures
        match recipe {
            Some(recipe) => recipe_named(recipes@, slug@) == Some(*recipe),
            None => recipe_named(recipes@, slug@) is None,
        },
{
    let mut i: usize = 0;
    proof {
        assert(recipes@.skip(0) == recipes@);
    }
    while i < recipes.len()
        invariant
            i <= recipes@.len(),
            recipe_named(recipes@, slug@) == recipe_named(recipes@.skip(i as int), slug@),
        decreases recipes@.len() - i,
    {
        proof {
            assert(recipes@.skip(i as int).drop_first() == recipes@.skip(i + 1));
        }
        if str_eq(recipes[i].slug.as_str(), slug) {
            return Some(&recipes[i]);
        }
        i = i + 1;
    }
    None
}

/// The first component whose filled field is missing, as a message. A component
/// that is no recipe, or has no filled field, is passed over.
pub open spec fn component_reason(
    slugs: Seq<Seq<char>>,
    components: Seq<PlotRecipe>,
    missing: Seq<FieldSelector>,
) -> Option<Seq<char>>
    decreases slugs.len(),
{
    if slugs.len() == 0 {
        None
    } else {
        let rest = component_reason(slugs.drop_first(), components, missing);
        match recipe_named(components, slugs[0]) {
            Some(component) => match component.filled {
                Some(binding) => if missing.contains(binding.selector) {
                    Some(
                        "composite component '"@ + slugs[0] + "' missing selector "@ + binding.key@,
                    )
                } else {
                    rest
                },
                None => rest,
            },
            None => rest,
        }
    }
}

/// Why a recipe cannot be drawn without the missing fields, if it cannot.
pub open spec fn block_reason(
    recipe: PlotRecipe,
    components: Seq<PlotRecipe>,
    missing: Seq<FieldSelector>,
) -> Option<Seq<char>> {
    match composite::panels_of(recipe.slug@) {
        Some(panels) => component_reason(panels.component_slugs, components, missing),
        None => match recipe.filled {
            Some(binding) => if missing.contains(binding.selector) {
                Some("missing GRIB message for filled selector "@ + binding.key@)
            } else {
                None
            },
            None => None,
        },
    }
}

/// Why a recipe cannot be drawn without the missing fields, if it cannot.
pub fn recipe_block_reason(
    recipe: &PlotRecipe,
    components: &[PlotRecipe],
    missing: &[FieldSelector],
) -> (reason: Option<String>)
    ensures
        text::optional_view(reason) == block_reason(*recipe, components@, missing@),
{
    match composite_panel_spec(recipe.slug.as_str()) {
        Some(spec) => {
            let ghost slugs = spec@.component_slugs;
            let mut i: usize = 0;
            proof {
                assert(slugs.skip(0) == slugs);
            }
            while i < spec.component_slugs.len()
                invariant
                    i <= spec.component_slugs@.len(),
                    slugs == text::str_texts(spec.component_slugs@),
                    component_reason(slugs, components@, missing@) == component_reason(
                        slugs.skip(i as int),
                        components@,
                        missing@,
                    ),
                    block_reason(*recipe, components@, missing@) == component_reason(
                        slugs,
                        components@,
                        missing@,
                    ),
                decreases spec.component_slugs@.len() - i,
            {
                let slug = spec.component_slugs[i];
                proof {
                    assert(slugs.skip(i as int)[0] == slug@);
                    assert(slugs.skip(i as int).drop_first() == slugs.skip(i + 1));
                }
                if let Some(component) = find_recipe(components, slug) {
                    if let Some(binding) = &component.filled {
                        if contains_selector(missing, binding.selector) {
                            return Some(
                                "composite component '".to_owned().concat(slug).concat(
                                    "' missing selector ",
                                ).concat(binding.key.as_str()),
                            );
                        }
                    }
                }
                i = i + 1;
            }
            None
        },
        None => {
            if let Some(binding) = &recipe.filled {
                if contains_selector(missing, binding.selector) {
                    return Some(
                        "missing GRIB message for filled selector ".to_owned().concat(
                            binding.key.as_str(),
                        ),
                    );
                }
            }
            None
        },
    }
}

/// The planned recipes that can be drawn.
pub open spec fn drawable<'a>(
    planned: Seq<PlannedDirectRecipe<'a>>,
    components: Seq<PlotRecipe>,
    missing: Seq<FieldSelector>,
) -> Seq<PlannedDirectRecipe<'a>>
    decreases planned.len(),
{
    if planned.len() == 0 {
        Seq::empty()
    } else {
        let before = drawable(planned.drop_last(), components, missing);
        if block_reason(*planned.last().recipe, components, missing) is None {
            before.push(planned.last())
        } else {
            before
        }
    }
}

/// The planned recipes that cannot be drawn, each with the reason.
pub open spec fn lacking<'a>(
    planned: Seq<PlannedDirectRecipe<'a>>,
    components: Seq<PlotRecipe>,
    missing: Seq<FieldSelector>,
) -> Seq<Blocked>
    decreases planned.len(),
{
    if planned.len() == 0 {
        Seq::empty()
    } else {
        let before = lacking(planned.drop_last(), components, missing);
        match block_reason(*planned.last().recipe, components, missing) {
            Some(reason) => before.push(
                Blocked { recipe_slug: planned.last().recipe.slug@, reason },
            ),
            None => before,
        }
    }
}

/// Parts the planned recipes into those that can be drawn and those that lack a
/// field.
pub fn partition_recipes_by_selector_availability<'a>(
    planned: &[PlannedDirectRecipe<'a>],
    components: &[PlotRecipe],
    missing: &[FieldSelector],
) -> (parts: (Vec<PlannedDirectRecipe<'a>>, Vec<DirectRecipeBlocker>))
    ensures
        parts.0@ == drawable(planned@, components@, missing@),
        types::blocked(parts.1@) == lacking(planned@, components@, missing@),
{
    let mut renderable: Vec<PlannedDirectRecipe<'a>> = Vec::new();
    let mut blockers: Vec<DirectRecipeBlocker> = Vec::new();
    let mut i: usize = 0;
    proof {
        assert(renderable@ =~= drawable(planned@.take(0), components@, missing@));
        assert(types::blocked(blockers@) =~= lacking(planned@.take(0), components@, missing@));
    }
    while i < planned.len()
        invariant
            i <= planned@.len(),
            renderable@ == drawable(planned@.take(i as int), components@, missing@),
            types::blocked(blockers@) == lacking(planned@.take(i as int), components@, missing@),
        decreases planned@.len() - i,
    {
        let item = planned[i];
        proof {
            assert(planned@.take(i + 1).drop_last() == planned@.take(i as int));
            assert(planned@.take(i + 1).last() == item);
        }
        match recipe_block_reason(item.recipe, components, missing) {
            Some(reason) => {
                let ghost before = types::blocked(blockers@);
                let blocker = DirectRecipeBlocker { recipe_slug: item.recipe.slug.clone(), reason };
                let ghost shown = blocker@;
                blockers.push(blocker);
                proof {
                    assert(types::blocked(blockers@) =~= before.push(shown));
                }
            },
            None => {
                renderable.push(item);
            },
        }
        i = i + 1;
    }
    proof {
        assert(planned@.take(i as int) == planned@);
    }
    (renderable, blockers)
}

/// Every planned recipe can be drawn or is blocked, and nothing is blocked when
/// nothing is missing.
pub proof fn law_missing_fields_block_only_their_recipes<'a>(
    planned: Seq<PlannedDirectRecipe<'a>>,
    components: Seq<PlotRecipe>,
    missing: Seq<FieldSelector>,
)
    ensures
        drawable(planned, components, missing).len() + lacking(planned, components, missing).len()
            == planned.len(),
        missing.len() == 0 ==> drawable(planned, components, missing) == planned,
    decreases planned.len(),
{
    if planned.len() > 0 {
        law_missing_fields_block_only_their_recipes(planned.drop_last(), components, missing);
        if missing.len() == 0 {
            let recipe = *planned.last().recipe;
            match composite::panels_of(recipe.slug@) {
                Some(panels) => {
                    lemma_no_component_missing(panels.component_slugs, components, missing);
                },
                None => {},
            }
            assert(planned.drop_last().push(planned.last()) =~= planned);
        }
    } else {
        assert(planned =~= Seq::empty());
    }
}

proof fn lemma_no_component_missing(
    slugs: Seq<Seq<char>>,
    components: Seq<PlotRecipe>,
    missing: Seq<FieldSelector>,
)
    requires
        missing.len() == 0,
    ensures
        component_reason(slugs, components, missing) is None,
    decreases slugs.len(),
{
    if slugs.len() > 0 {
        lemma_no_component_missing(slugs.drop_first(), components, missing);
    }
}

} // verus!
