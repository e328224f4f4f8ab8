//! Derived fields as they are sampled: one field or one blocker for each recipe.
use crate::derived::fields;
use crate::derived::fields::{
    derived_query_field_from_computed, DerivedComputedFields, DerivedQueryField,
};
use crate::derived::planning;
use crate::derived::planning::{plan_derived_recipes, DerivedRecipeBlocker};
use crate::derived::recipes;
use crate::derived::recipes::DerivedRecipe;
use crate::model::ProductSourceRoute;
use crate::text;
use vstd::prelude::*;
use vstd::string::*;

verus! {

/// The products that a list of recipes is fetched from: none for an empty list,
/// and otherwise the surface and the pressure product.
pub fn required_derived_fetch_products(
    recipe_slugs: &[String],
    surface_product: &str,
    pressure_product: &str,
) -> (products: Result<Vec<String>, String>)
    ensures
        match products {
            Ok(products) => {
                &&& forall|k: int|
                    0 <= k < recipe_slugs@.len() ==> planning::named((#[trigger] recipe_slugs@[k])@)
                        is Some
                &&& text::texts(products@) == (if recipe_slugs@.len() == 0 {
                    Seq::empty()
                } else {
                    seq![surface_product@, pressure_product@]
                })
            },
            Err(message) => exists|i: int|
                #[trigger] planning::first_unnamed(recipe_slugs@, i) && message@
                    == planning::unnamed_message(recipe_slugs@[i]@),
        },
{
    let planned = match plan_derived_recipes(recipe_slugs) {
        Ok(planned) => planned,
        Err(message) => {
            return Err(message);
        },
    };
    proof {
        let all = planning::all_named(recipe_slugs@);
        planning::law_first_seen_keeps_every_recipe_once(all);
        if recipe_slugs@.len() > 0 {
            assert(all.contains(all[0]));
            assert(planning::first_seen(all).contains(all[0]));
        }
    }
    let mut products: Vec<String> = Vec::new();
    if planned.len() > 0 {
        products.push(surface_product.to_owned());
        products.push(pressure_product.to_owned());
        proof {
            assert(text::texts(products@) =~= seq![surface_product@, pressure_product@]);
        }
    } else {
        proof {
            assert(text::texts(products@) =~= Seq::empty());
        }
    }
    Ok(products)
}

/// The message for a heavy recipe, which is not sampled.
pub open spec fn heavy_not_sampled(recipe: DerivedRecipe) -> Seq<char> {
    "heavy derived recipe '"@ + recipe.spec_slug()@
        + "' is not exposed through the lightweight query path"@
}

/// The message for a heavy recipe, which is not sampled.
pub(crate) fn heavy_refusal(recipe: DerivedRecipe) -> (message: String)
    ensures
        message@ == heavy_not_sampled(recipe),
{
    "heavy derived recipe '".to_owned().concat(recipe.slug()).concat(
        "' is not exposed through the lightweight query path",
    )
}

/// The recipe that a slug names, if it can be sampled.
pub fn sampled_recipe(recipe_slug: &str) -> (recipe: Result<DerivedRecipe, String>)
    ensures
        match planning::named(recipe_slug@) {
            Some(named) => if named.spec_is_heavy() {
                recipe is Err && recipe->Err_0@ == heavy_not_sampled(named)
            } else {
                recipe == Ok::<DerivedRecipe, String>(named)
            },
            None => recipe is Err && recipe->Err_0@ == recipes::rejection(
                recipes::normalized_slug(recipe_slug@),
            ),
        },
{
    match DerivedRecipe::parse(recipe_slug) {
        Ok(recipe) => {
            if recipe.is_heavy() {
                return Err(heavy_refusal(recipe));
            }
            Ok(recipe)
        },
        Err(message) => Err(message),
    }
}

/// The recipes of a list whose field was computed, or those whose field was not.
pub open spec fn with_field<T>(
    list: Seq<DerivedRecipe>,
    computed: DerivedComputedFields<T>,
    there: bool,
) -> Seq<DerivedRecipe>
    decreases list.len(),
{
    if list.len() == 0 {
        Seq::empty()
    } else {
        let before = with_field(list.drop_last(), computed, there);
        if (computed.slot(list.last()) is Some) == there {
            before.push(list.last())
        } else {
            before
        }
    }
}

/// Whether a field is the computed field of a recipe.
pub open spec fn samples<T>(
    field: DerivedQueryField<T>,
    recipe: DerivedRecipe,
    computed: DerivedComputedFields<T>,
    nx: usize,
    ny: usize,
) -> bool {
    &&& fields::labelled(field, recipe, nx, ny)
    &&& fields::field_view(computed.slot(recipe)) == Some(field.values@)
}

/// Whether a blocker stands for a recipe whose field was not computed. A heavy recipe
/// never has one.
pub open spec fn reports_gap(blocker: DerivedRecipeBlocker, recipe: DerivedRecipe) -> bool {
    &&& blocker.recipe_slug@ == recipe.spec_slug()@
    &&& blocker.source_route == ProductSourceRoute::CanonicalDerived
    &&& blocker.reason@ == (if recipe.spec_is_heavy() {
        heavy_not_sampled(recipe)
    } else {
        fields::not_computed(recipe)
    })
}

/// The sampled fields, and the recipes that could not be sampled.
pub struct DerivedSampledFields<T> {
    pub fields: Vec<DerivedQueryField<T>>,
    pub blockers: Vec<DerivedRecipeBlocker>,
}

/// Samples a list of recipes from computed fields.
pub fn sample_computed_fields<T: Copy>(
    nx: usize,
    ny: usize,
    recipes: &[DerivedRecipe],
    computed: &DerivedComputedFields<T>,
) -> (sampled: DerivedSampledFields<T>)
    ensures
        ({
            let found = with_field(recipes@, *computed, true);
            let absent = with_field(recipes@, *computed, false);
            &&& sampled.fields@.len() == found.len()
            &&& forall|i: int|
                0 <= i < found.len() ==> samples(
                    #[trigger] sampled.fields@[i],
                    found[i],
                    *computed,
                    nx,
                    ny,
                )
            &&& sampled.blockers@.len() == absent.len()
            &&& forall|i: int|
                0 <= i < absent.len() ==> reports_gap(#[trigger] sampled.blockers@[i], absent[i])
        }),
{
    let mut list: Vec<DerivedQueryField<T>> = Vec::new();
    let mut blockers: Vec<DerivedRecipeBlocker> = Vec::new();
    let mut i: usize = 0;
    while i < recipes.len()
        invariant
            i <= recipes@.len(),
            list@.len() == with_field(recipes@.take(i as int), *computed, true).len(),
            forall|k: int|
                0 <= k < list@.len() ==> samples(
                    #[trigger] list@[k],
                    with_field(recipes@.take(i as int), *computed, true)[k],
                    *computed,
                    nx,
                    ny,
                ),
            blockers@.len() == with_field(recipes@.take(i as int), *computed, false).len(),
            forall|k: int|
                0 <= k < blockers@.len() ==> reports_gap(
                    #[trigger] blockers@[k],
                    with_field(recipes@.take(i as int), *computed, false)[k],
                ),
        decreases recipes@.len() - i,
    {
        let recipe = recipes[i];
        proof {
            assert(recipes@.take(i + 1).drop_last() == recipes@.take(i as int));
            assert(recipes@.take(i + 1).last() == recipe);
        }
        let queried = if recipe.is_heavy() {
            Err(heavy_refusal(recipe))
        } else {
            derived_query_field_from_computed(nx, ny, recipe, computed)
        };
        match queried {
            Ok(field) => {
                list.push(field);
            },
            Err(message) => {
                blockers.push(
                    DerivedRecipeBlocker {
                        recipe_slug: recipe.slug().to_owned(),
                        source_route: ProductSourceRoute::CanonicalDerived,
                        reason: message,
                    },
                );
            },
        }
        i = i + 1;
    }
    proof {
        assert(recipes@.take(i as int) == recipes@);
    }
    DerivedSampledFields { fields: list, blockers }
}

/// The blocker of a recipe that was tried by itself after all recipes together
/// had failed, and failed again.
pub fn recipe_failed(recipe: DerivedRecipe, shared_err: &str, err: &str) -> (blocker:
    DerivedRecipeBlocker)
    ensures
        blocker.recipe_slug@ == recipe.spec_slug()@,
        blocker.source_route == ProductSourceRoute::CanonicalDerived,
        blocker.reason@ == "shared derived compute failed: "@ + shared_err@ + "; recipe failed: "@
            + err@,
{
    DerivedRecipeBlocker {
        recipe_slug: recipe.slug().to_owned(),
        source_route: ProductSourceRoute::CanonicalDerived,
        reason: "shared derived compute failed: ".to_owned().concat(shared_err).concat(
            "; recipe failed: ",
        ).concat(err),
    }
}

/// There are as many fields and blockers together as there are recipes in a list.
pub proof fn law_sampling_accounts_for_every_recipe<T>(
    list: Seq<DerivedRecipe>,
    computed: DerivedComputedFields<T>,
)
    ensures
        with_field(list, computed, true).len() + with_field(list, computed, false).len()
            == list.len(),
    decreases list.len(),
{
    if list.len() > 0 {
        law_sampling_accounts_for_every_recipe(list.drop_last(), computed);
    }
}

} // verus!
