//! What mapping panel fields to heavy recipes keeps.
use crate::derived::recipe_laws;
use crate::derived::recipes::DerivedRecipe;
use crate::derived::store;
use crate::ecape;
use crate::panel;
use crate::panel::{WeatherPanelField, WeatherProduct};
use vstd::prelude::*;

verus! {

/// Whether no two fields share an artifact slug.
pub open spec fn distinct_slugs<T>(fields: Seq<WeatherPanelField<T>>) -> bool {
    forall|i: int, j: int|
        #![trigger fields[i], fields[j]]
        0 <= i < j < fields.len() ==> fields[i].spec_artifact_slug()
            != fields[j].spec_artifact_slug()
}

/// Whether some recipe of a list goes by a slug.
pub open spec fn goes_by(recipes: Seq<DerivedRecipe>, slug: Seq<char>) -> bool {
    exists|i: int| 0 <= i < recipes.len() && (#[trigger] recipes[i]).spec_slug()@ == slug
}

proof fn lemma_swap_removed<T>(left: Seq<WeatherPanelField<T>>, index: int)
    requires
        0 <= index < left.len(),
        distinct_slugs(left),
    ensures
        ({
            let rest = left.update(index, left.last()).drop_last();
            &&& distinct_slugs(rest)
            &&& forall|k: int|
                0 <= k < rest.len() ==> left.contains(#[trigger] rest[k])
                    && rest[k].spec_artifact_slug() != left[index].spec_artifact_slug()
            &&& forall|k: int|
                0 <= k < left.len() && k != index ==> rest.contains(#[trigger] left[k])
        }),
{
    let rest = left.update(index, left.last()).drop_last();
    assert forall|k: int| 0 <= k < rest.len() implies left.contains(#[trigger] rest[k])
        && rest[k].spec_artifact_slug() != left[index].spec_artifact_slug() by {
        if k == index {
            assert(rest[k] == left[left.len() - 1]);
        } else {
            assert(rest[k] == left[k]);
        }
    }
    assert forall|k: int| 0 <= k < left.len() && k != index implies rest.contains(
        #[trigger] left[k],
    ) by {
        if k == left.len() - 1 {
            assert(rest[index] == left[k]);
        } else {
            assert(rest[k] == left[k]);
        }
    }
    assert forall|i: int, j: int|
        #![trigger rest[i], rest[j]]
        0 <= i < j < rest.len() implies rest[i].spec_artifact_slug()
        != rest[j].spec_artifact_slug() by {
        let a = if i == index {
            left.len() - 1
        } else {
            i
        };
        let b = if j == index {
            left.len() - 1
        } else {
            j
        };
        assert(rest[i] == left[a]);
        assert(rest[j] == left[b]);
    }
}

proof fn lemma_left_after<T>(recipes: Seq<DerivedRecipe>, fields: Seq<WeatherPanelField<T>>)
    requires
        distinct_slugs(fields),
    ensures
        distinct_slugs(store::left_after(recipes, fields)),
        forall|k: int|
            0 <= k < store::left_after(recipes, fields).len() ==> fields.contains(
                #[trigger] store::left_after(recipes, fields)[k],
            ) && !goes_by(recipes, store::left_after(recipes, fields)[k].spec_artifact_slug()),
        forall|m: int|
            0 <= m < fields.len() && !goes_by(recipes, (#[trigger] fields[m]).spec_artifact_slug())
                ==> store::left_after(recipes, fields).contains(fields[m]),
    decreases recipes.len(),
{
    if recipes.len() > 0 {
        let front = recipes.drop_last();
        let last = recipes.last().spec_slug()@;
        lemma_left_after(front, fields);
        let left = store::left_after(front, fields);
        let rest = store::left_after(recipes, fields);
        panel::lemma_first_with_slug(left, last);
        assert forall|slug: Seq<char>| #[trigger] goes_by(recipes, slug) <==> goes_by(front, slug)
            || slug == last by {
            if goes_by(front, slug) {
                let i = choose|i: int|
                    0 <= i < front.len() && (#[trigger] front[i]).spec_slug()@ == slug;
                assert(recipes[i] == front[i]);
            }
            if goes_by(recipes, slug) && slug != last {
                let i = choose|i: int|
                    0 <= i < recipes.len() && (#[trigger] recipes[i]).spec_slug()@ == slug;
                assert(front[i] == recipes[i]);
            }
            assert(recipes[recipes.len() - 1].spec_slug()@ == last);
        }
        match panel::first_with_slug(left, last) {
            Some(index) => {
                lemma_swap_removed(left, index);
                assert forall|k: int| 0 <= k < rest.len() implies fields.contains(
                    #[trigger] rest[k],
                ) && !goes_by(recipes, rest[k].spec_artifact_slug()) by {
                    assert(left.contains(rest[k]));
                    let j = choose|j: int| 0 <= j < left.len() && left[j] == rest[k];
                    assert(fields.contains(left[j]));
                }
                assert forall|m: int|
                    0 <= m < fields.len() && !goes_by(
                        recipes,
                        (#[trigger] fields[m]).spec_artifact_slug(),
                    ) implies rest.contains(fields[m]) by {
                    assert(left.contains(fields[m]));
                    let j = choose|j: int| 0 <= j < left.len() && left[j] == fields[m];
                    assert(j != index);
                    assert(rest.contains(left[j]));
                }
            },
            None => {},
        }
    } else {
        assert forall|k: int| 0 <= k < fields.len() implies fields.contains(
            #[trigger] fields[k],
        ) by {}
    }
}

/// When no two fields share a slug and no two recipes are the same, each recipe
/// takes the field under its own slug, whatever the others took before.
pub proof fn law_distinct_fields_go_to_their_recipes<T>(
    recipes: Seq<DerivedRecipe>,
    fields: Seq<WeatherPanelField<T>>,
    place: int,
)
    requires
        distinct_slugs(fields),
        recipes.no_duplicates(),
        0 <= place < recipes.len(),
    ensures
        store::taken_at(recipes, fields, place) == match panel::first_with_slug(
            fields,
            recipes[place].spec_slug()@,
        ) {
            Some(index) => Some(fields[index]),
            None => None::<WeatherPanelField<T>>,
        },
{
    let slug = recipes[place].spec_slug()@;
    let before = recipes.take(place);
    let left = store::left_after(before, fields);
    lemma_left_after(before, fields);
    panel::lemma_first_with_slug(fields, slug);
    panel::lemma_first_with_slug(left, slug);
    assert(!goes_by(before, slug)) by {
        if goes_by(before, slug) {
            let i = choose|i: int|
                0 <= i < before.len() && (#[trigger] before[i]).spec_slug()@ == slug;
            assert(recipes[i] == before[i]);
            assert(recipes[i] != recipes[place]);
            recipe_laws::law_slugs_are_distinct(recipes[i], recipes[place]);
        }
    }
    match panel::first_with_slug(fields, slug) {
        Some(index) => {
            assert(left.contains(fields[index]));
            let j = choose|j: int| 0 <= j < left.len() && left[j] == fields[index];
            match panel::first_with_slug(left, slug) {
                Some(k) => {
                    assert(k == j);
                },
                None => {
                    assert(left[j].spec_artifact_slug() != slug);
                },
            }
        },
        None => {
            if let Some(k) = panel::first_with_slug(left, slug) {
                assert(fields.contains(left[k]));
                let m = choose|m: int| 0 <= m < fields.len() && fields[m] == left[k];
                assert(fields[m].spec_artifact_slug() != slug);
            }
        },
    }
}

/// The recipe of a product.
pub open spec fn recipe_of(product: WeatherProduct) -> DerivedRecipe {
    match product {
        WeatherProduct::Sbecape => DerivedRecipe::Sbecape,
        WeatherProduct::Mlecape => DerivedRecipe::Mlecape,
        WeatherProduct::Muecape => DerivedRecipe::Muecape,
        WeatherProduct::SbEcapeDerivedCapeRatio => DerivedRecipe::SbEcapeDerivedCapeRatio,
        WeatherProduct::MlEcapeDerivedCapeRatio => DerivedRecipe::MlEcapeDerivedCapeRatio,
        WeatherProduct::MuEcapeDerivedCapeRatio => DerivedRecipe::MuEcapeDerivedCapeRatio,
        WeatherProduct::SbEcapeNativeCapeRatio => DerivedRecipe::SbEcapeNativeCapeRatio,
        WeatherProduct::MlEcapeNativeCapeRatio => DerivedRecipe::MlEcapeNativeCapeRatio,
        WeatherProduct::MuEcapeNativeCapeRatio => DerivedRecipe::MuEcapeNativeCapeRatio,
        WeatherProduct::Sbncape => DerivedRecipe::Sbncape,
        WeatherProduct::Sbecin => DerivedRecipe::Sbecin,
        WeatherProduct::Mlecin => DerivedRecipe::Mlecin,
        WeatherProduct::EcapeScpExperimental => DerivedRecipe::EcapeScp,
        WeatherProduct::EcapeEhi01kmExperimental => DerivedRecipe::EcapeEhi01km,
        WeatherProduct::EcapeEhi03kmExperimental => DerivedRecipe::EcapeEhi03km,
        WeatherProduct::EcapeStpExperimental => DerivedRecipe::EcapeStp,
        WeatherProduct::StpFixed => DerivedRecipe::StpFixed,
    }
}

/// Whether fields are published under their products' own slugs, product by
/// product.
pub open spec fn shows_products<T>(
    fields: Seq<WeatherPanelField<T>>,
    products: Seq<WeatherProduct>,
) -> bool {
    &&& fields.len() == products.len()
    &&& forall|i: int|
        0 <= i < products.len() ==> (#[trigger] fields[i]).product == products[i]
            && fields[i].artifact_slug is None
}

proof fn lemma_published_products(sb: bool, ml: bool, mu: bool, product: WeatherProduct)
    ensures
        ecape::published_products(sb, ml, mu).no_duplicates(),
        ecape::published_products(sb, ml, mu).contains(product) <==> match product {
            WeatherProduct::SbEcapeNativeCapeRatio => sb,
            WeatherProduct::MlEcapeNativeCapeRatio => ml,
            WeatherProduct::MuEcapeNativeCapeRatio => mu,
            WeatherProduct::StpFixed => false,
            _ => true,
        },
{
    let all = ecape::published_products(sb, ml, mu);
    let ml_at: int = if sb {
        14
    } else {
        13
    };
    let mu_at: int = if ml {
        ml_at + 1
    } else {
        ml_at
    };
    let index: int = match product {
        WeatherProduct::Sbecape => 0,
        WeatherProduct::Mlecape => 1,
        WeatherProduct::Muecape => 2,
        WeatherProduct::SbEcapeDerivedCapeRatio => 3,
        WeatherProduct::MlEcapeDerivedCapeRatio => 4,
        WeatherProduct::MuEcapeDerivedCapeRatio => 5,
        WeatherProduct::Sbncape => 6,
        WeatherProduct::Sbecin => 7,
        WeatherProduct::Mlecin => 8,
        WeatherProduct::EcapeScpExperimental => 9,
        WeatherProduct::EcapeEhi01kmExperimental => 10,
        WeatherProduct::EcapeEhi03kmExperimental => 11,
        WeatherProduct::EcapeStpExperimental => 12,
        WeatherProduct::SbEcapeNativeCapeRatio => 13,
        WeatherProduct::MlEcapeNativeCapeRatio => ml_at,
        WeatherProduct::MuEcapeNativeCapeRatio => mu_at,
        WeatherProduct::StpFixed => -1,
    };
    if match product {
        WeatherProduct::SbEcapeNativeCapeRatio => sb,
        WeatherProduct::MlEcapeNativeCapeRatio => ml,
        WeatherProduct::MuEcapeNativeCapeRatio => mu,
        WeatherProduct::StpFixed => false,
        _ => true,
    } {
        assert(all[index] == product);
    }
}

/// The published ECAPE fields realize every heavy recipe, each with its own
/// product, except for the ratios to native CAPE planes that are not there.
pub proof fn law_ecape_fields_realize_the_heavy_recipes<T>(
    fields: Seq<WeatherPanelField<T>>,
    sb: bool,
    ml: bool,
    mu: bool,
    place: int,
)
    requires
        shows_products(fields, ecape::published_products(sb, ml, mu)),
        0 <= place < store::stored_recipes(true).len(),
    ensures
        ({
            let recipe = store::stored_recipes(true)[place];
            let there = match recipe {
                DerivedRecipe::SbEcapeNativeCapeRatio => sb,
                DerivedRecipe::MlEcapeNativeCapeRatio => ml,
                DerivedRecipe::MuEcapeNativeCapeRatio => mu,
                _ => true,
            };
            match store::taken_at(store::stored_recipes(true), fields, place) {
                Some(field) => there && Some(field.product) == panel::product_of(recipe),
                None => !there && store::native_layer(recipe) is Some,
            }
        }),
{
    let recipes = store::stored_recipes(true);
    let recipe = recipes[place];
    let products = ecape::published_products(sb, ml, mu);
    store::law_stored_recipes_partition_the_inventory(recipe);
    assert(recipes.contains(recipe));
    panel::law_heavy_products_keep_the_recipe_slug(recipe);
    let product = panel::product_of(recipe)->Some_0;
    lemma_published_products(sb, ml, mu, product);
    assert forall|i: int, j: int|
        #![trigger fields[i], fields[j]]
        0 <= i < j < fields.len() implies fields[i].spec_artifact_slug()
        != fields[j].spec_artifact_slug() by {
        let a = recipe_of(products[i]);
        let b = recipe_of(products[j]);
        panel::law_heavy_products_keep_the_recipe_slug(a);
        panel::law_heavy_products_keep_the_recipe_slug(b);
        assert(products[i] != products[j]);
        if a.spec_slug()@ == b.spec_slug()@ {
            recipe_laws::law_slugs_are_distinct(a, b);
        }
    }
    law_distinct_fields_go_to_their_recipes(recipes, fields, place);
    panel::lemma_first_with_slug(fields, recipe.spec_slug()@);
    match panel::first_with_slug(fields, recipe.spec_slug()@) {
        Some(index) => {
            let other = recipe_of(fields[index].product);
            panel::law_heavy_products_keep_the_recipe_slug(other);
            if other != recipe {
                recipe_laws::law_slugs_are_distinct(other, recipe);
            }
            assert(products[index] == product);
            assert(products.contains(product));
        },
        None => {
            if products.contains(product) {
                let i = choose|i: int| 0 <= i < products.len() && products[i] == product;
                assert(fields[i].product == product);
            }
        },
    }
}

} // verus!
