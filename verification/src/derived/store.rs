//! The derived grids that are computed once and stored.
use crate::derived::fields;
use crate::derived::fields::{
    derived_query_field_from_computed, derived_query_field_take_from_computed,
    DerivedComputedFields,
};
use crate::derived::inventory;
use crate::derived::inventory::all_derived_recipes;
use crate::derived::recipes::DerivedRecipe;
use crate::panel;
use crate::panel::{find_by_slug, WeatherPanelField};
use crate::text;
use vstd::prelude::*;
use vstd::string::*;

verus! {

/// One stored grid: the slug of its recipe, the units that it is shown in, and
/// its values row by row.
pub struct StoreDerivedGrid<T> {
    pub slug: &'static str,
    pub units: String,
    pub values: Vec<T>,
}

/// The heavy, or the other, recipes of a list, in the list's order.
pub open spec fn of_weight(recipes: Seq<DerivedRecipe>, heavy: bool) -> Seq<DerivedRecipe>
    decreases recipes.len(),
{
    if recipes.len() == 0 {
        Seq::empty()
    } else {
        let before = of_weight(recipes.drop_last(), heavy);
        if recipes.last().spec_is_heavy() == heavy {
            before.push(recipes.last())
        } else {
            before
        }
    }
}

/// The slugs of a list of recipes.
pub open spec fn slugs_of(recipes: Seq<DerivedRecipe>) -> Seq<Seq<char>> {
    Seq::new(recipes.len(), |i: int| recipes[i].spec_slug()@)
}

/// The stored recipes: the heavy ones, or the others, in inventory order.
pub open spec fn stored_recipes(heavy: bool) -> Seq<DerivedRecipe> {
    of_weight(inventory::all_recipes(), heavy)
}

pub(crate) fn select_recipes(heavy: bool) -> (selected: Vec<DerivedRecipe>)
    ensures
        selected@ == stored_recipes(heavy),
{
    let recipes = all_derived_recipes();
    let mut selected: Vec<DerivedRecipe> = Vec::new();
    let mut i: usize = 0;
    while i < recipes.len()
        invariant
            i <= recipes@.len(),
            selected@ == of_weight(recipes@.take(i as int), heavy),
        decreases recipes@.len() - i,
    {
        proof {
            assert(recipes@.take(i + 1).drop_last() == recipes@.take(i as int));
        }
        if recipes[i].is_heavy() == heavy {
            selected.push(recipes[i]);
        }
        i = i + 1;
    }
    proof {
        assert(recipes@.take(i as int) == recipes@);
    }
    selected
}

fn list_slugs(recipes: &Vec<DerivedRecipe>) -> (slugs: Vec<&'static str>)
    ensures
        text::str_texts(slugs@) == slugs_of(recipes@),
{
    let mut slugs: Vec<&'static str> = Vec::new();
    let mut i: usize = 0;
    while i < recipes.len()
        invariant
            i <= recipes@.len(),
            slugs@.len() == i,
            forall|k: int| 0 <= k < i ==> (#[trigger] slugs@[k])@ == recipes@[k].spec_slug()@,
        decreases recipes@.len() - i,
    {
        slugs.push(recipes[i].slug());
        i = i + 1;
    }
    proof {
        assert(text::str_texts(slugs@) =~= slugs_of(recipes@));
    }
    slugs
}

/// The slugs of all recipes that are not heavy, in inventory order.
pub fn store_derived_recipe_slugs() -> (slugs: Vec<&'static str>)
    ensures
        text::str_texts(slugs@) == slugs_of(stored_recipes(false)),
{
    list_slugs(&select_recipes(false))
}

/// The slugs of all heavy recipes, in inventory order.
pub fn store_heavy_recipe_slugs() -> (slugs: Vec<&'static str>)
    ensures
        text::str_texts(slugs@) == slugs_of(stored_recipes(true)),
{
    list_slugs(&select_recipes(true))
}

pub proof fn lemma_of_weight(recipes: Seq<DerivedRecipe>, heavy: bool)
    ensures
        forall|r: DerivedRecipe|
            #[trigger] of_weight(recipes, heavy).contains(r) <==> recipes.contains(r)
                && r.spec_is_heavy() == heavy,
        of_weight(recipes, heavy).len() <= recipes.len(),
        recipes.no_duplicates() ==> of_weight(recipes, heavy).no_duplicates(),
        of_weight(recipes, heavy).len() + of_weight(recipes, !heavy).len() == recipes.len(),
    decreases recipes.len(),
{
    if recipes.len() > 0 {
        let rest = recipes.drop_last();
        let last = recipes.last();
        lemma_of_weight(rest, heavy);
        lemma_of_weight(rest, !heavy);
        let before = of_weight(rest, heavy);
        let after = of_weight(recipes, heavy);
        assert forall|r: DerivedRecipe| #[trigger] after.contains(r) <==> recipes.contains(r)
            && r.spec_is_heavy() == heavy by {
            if rest.contains(r) {
                let i = choose|i: int| 0 <= i < rest.len() && rest[i] == r;
                assert(recipes[i] == r);
            }
            if recipes.contains(r) && r != last {
                let i = choose|i: int| 0 <= i < recipes.len() && recipes[i] == r;
                assert(rest[i] == r);
            }
            assert(recipes[recipes.len() - 1] == last);
            assert(before.contains(r) <==> rest.contains(r) && r.spec_is_heavy() == heavy);
            if last.spec_is_heavy() == heavy {
                if before.contains(r) {
                    let i = choose|i: int| 0 <= i < before.len() && before[i] == r;
                    assert(after[i] == r);
                }
                assert(after[after.len() - 1] == last);
                if after.contains(r) && r != last {
                    let i = choose|i: int| 0 <= i < after.len() && after[i] == r;
                    assert(before[i] == r);
                }
            }
        }
        if recipes.no_duplicates() {
            assert(rest.no_duplicates()) by {
                assert forall|i: int, j: int|
                    0 <= i < rest.len() && 0 <= j < rest.len() && i != j implies rest[i]
                    != rest[j] by {
                    assert(recipes[i] == rest[i] && recipes[j] == rest[j]);
                }
            }
            if last.spec_is_heavy() == heavy {
                assert(!rest.contains(last)) by {
                    if rest.contains(last) {
                        let i = choose|i: int| 0 <= i < rest.len() && rest[i] == last;
                        assert(recipes[i] == recipes[recipes.len() - 1]);
                    }
                }
                assert(!before.contains(last));
            }
        }
    }
}

/// The heavy recipes and the others partition the inventory: every recipe is
/// stored once, under one of the two.
pub proof fn law_stored_recipes_partition_the_inventory(recipe: DerivedRecipe)
    ensures
        stored_recipes(true).contains(recipe) <==> recipe.spec_is_heavy(),
        stored_recipes(false).contains(recipe) <==> !recipe.spec_is_heavy(),
        stored_recipes(true).no_duplicates(),
        stored_recipes(false).no_duplicates(),
        stored_recipes(true).len() + stored_recipes(false).len() == inventory::all_recipes().len(),
{
    inventory::law_inventory_lists_every_recipe_once(recipe);
    assert(inventory::all_recipes().no_duplicates()) by {
        assert forall|i: int, j: int|
            0 <= i < inventory::all_recipes().len() && 0 <= j < inventory::all_recipes().len() && i
                != j implies inventory::all_recipes()[i] != inventory::all_recipes()[j] by {
            inventory::law_inventory_lists_every_recipe_once(inventory::all_recipes()[i]);
        }
    }
    lemma_of_weight(inventory::all_recipes(), true);
    lemma_of_weight(inventory::all_recipes(), false);
}

/// Whether a stored grid is the computed field of a recipe.
pub open spec fn stores<T>(
    grid: StoreDerivedGrid<T>,
    recipe: DerivedRecipe,
    computed: DerivedComputedFields<T>,
) -> bool {
    &&& grid.slug@ == recipe.spec_slug()@
    &&& grid.units@ == fields::display_units(recipe)
    &&& fields::field_view(computed.slot(recipe)) == Some(grid.values@)
}

/// Whether a recipe is the first of a list whose field was not computed.
pub open spec fn first_gap<T>(
    recipes: Seq<DerivedRecipe>,
    computed: DerivedComputedFields<T>,
    index: int,
) -> bool {
    &&& 0 <= index < recipes.len()
    &&& computed.slot(recipes[index]) is None
    &&& forall|k: int| 0 <= k < index ==> computed.slot(#[trigger] recipes[k]) is Some
}

/// The grids of all recipes that are not heavy, copied from the computed
/// fields. A field that was not computed fails the whole.
pub fn collect_store_grids<T: Copy>(nx: usize, ny: usize, computed: &DerivedComputedFields<T>) -> (grids:
    Result<Vec<StoreDerivedGrid<T>>, String>)
    ensures
        match grids {
            Ok(grids) => {
                &&& grids@.len() == stored_recipes(false).len()
                &&& forall|i: int|
                    0 <= i < grids@.len() ==> stores(
                        #[trigger] grids@[i],
                        stored_recipes(false)[i],
                        *computed,
                    )
            },
            Err(message) => exists|i: int|
                #[trigger] first_gap(stored_recipes(false), *computed, i) && message@
                    == fields::not_computed(stored_recipes(false)[i]),
        },
{
    let recipes = select_recipes(false);
    proof {
        lemma_of_weight(inventory::all_recipes(), false);
    }
    let mut grids: Vec<StoreDerivedGrid<T>> = Vec::new();
    let mut i: usize = 0;
    while i < recipes.len()
        invariant
            i <= recipes@.len(),
            recipes@ == stored_recipes(false),
            forall|r: DerivedRecipe| #[trigger] recipes@.contains(r) ==> !r.spec_is_heavy(),
            grids@.len() == i,
            forall|k: int|
                0 <= k < i ==> stores(#[trigger] grids@[k], recipes@[k], *computed),
        decreases recipes@.len() - i,
    {
        let recipe = recipes[i];
        proof {
            assert(recipes@.contains(recipes@[i as int]));
        }
        match derived_query_field_from_computed(nx, ny, recipe, computed) {
            Ok(query) => {
                grids.push(
                    StoreDerivedGrid {
                        slug: recipe.slug(),
                        units: query.units,
                        values: query.values,
                    },
                );
            },
            Err(message) => {
                proof {
                    assert forall|k: int| 0 <= k < i implies computed.slot(
                        #[trigger] recipes@[k],
                    ) is Some by {
                        assert(stores(grids@[k], recipes@[k], *computed));
                    }
                    assert(first_gap(stored_recipes(false), *computed, i as int));
                }
                return Err(message);
            },
        }
        i = i + 1;
    }
    Ok(grids)
}

/// Whether each value of a grid was converted from the value at its place.
pub open spec fn narrowed<T, U, F: Fn(T) -> U>(values: Seq<T>, narrow: F, narrowed: Seq<U>) -> bool {
    &&& narrowed.len() == values.len()
    &&& forall|i: int|
        0 <= i < values.len() ==> call_ensures(narrow, (values[i],), #[trigger] narrowed[i])
}

fn narrow_values<T: Copy, U, F: Fn(T) -> U>(values: &Vec<T>, narrow: &F) -> (result: Vec<U>)
    requires
        forall|value: T| #[trigger] call_requires(*narrow, (value,)),
    ensures
        narrowed(values@, *narrow, result@),
{
    let mut result: Vec<U> = Vec::new();
    let mut i: usize = 0;
    while i < values.len()
        invariant
            i <= values@.len(),
            result@.len() == i,
            forall|value: T| #[trigger] call_requires(*narrow, (value,)),
            forall|k: int|
                0 <= k < i ==> call_ensures(*narrow, (values@[k],), #[trigger] result@[k]),
        decreases values@.len() - i,
    {
        let value = narrow(values[i]);
        result.push(value);
        i = i + 1;
    }
    result
}

/// Whether a stored grid is the computed field of a recipe, converted value by
/// value.
pub open spec fn stores_narrowed<T, U, F: Fn(T) -> U>(
    grid: StoreDerivedGrid<U>,
    recipe: DerivedRecipe,
    computed: DerivedComputedFields<T>,
    narrow: F,
) -> bool {
    &&& grid.slug@ == recipe.spec_slug()@
    &&& grid.units@ == fields::display_units(recipe)
    &&& computed.slot(recipe) is Some
    &&& narrowed(computed.slot(recipe)->Some_0@, narrow, grid.values@)
}

/// The grids of all recipes that are not heavy, taken out of the computed
/// fields one by one and converted value by value. A field that was not
/// computed fails the whole.
pub fn take_store_grids<T: Copy, U, F: Fn(T) -> U>(
    nx: usize,
    ny: usize,
    computed: &mut DerivedComputedFields<T>,
    narrow: &F,
) -> (grids: Result<Vec<StoreDerivedGrid<U>>, String>)
    requires
        forall|value: T| #[trigger] call_requires(*narrow, (value,)),
    ensures
        match grids {
            Ok(grids) => {
                &&& grids@.len() == stored_recipes(false).len()
                &&& forall|i: int|
                    0 <= i < grids@.len() ==> stores_narrowed(
                        #[trigger] grids@[i],
                        stored_recipes(false)[i],
                        *old(computed),
                        *narrow,
                    )
                &&& forall|r: DerivedRecipe| (#[trigger] final(computed).slot(r)) is None
            },
            Err(message) => exists|i: int|
                #[trigger] first_gap(stored_recipes(false), *old(computed), i) && message@
                    == fields::not_computed(stored_recipes(false)[i]),
        },
        final(computed).surface_u10_ms == old(computed).surface_u10_ms,
        final(computed).surface_v10_ms == old(computed).surface_v10_ms,
{
    let recipes = select_recipes(false);
    proof {
        law_stored_recipes_partition_the_inventory(DerivedRecipe::Sbcape);
        lemma_of_weight(inventory::all_recipes(), false);
    }
    let mut grids: Vec<StoreDerivedGrid<U>> = Vec::new();
    let mut i: usize = 0;
    while i < recipes.len()
        invariant
            i <= recipes@.len(),
            recipes@ == stored_recipes(false),
            recipes@.no_duplicates(),
            forall|r: DerivedRecipe| #[trigger] recipes@.contains(r) ==> !r.spec_is_heavy(),
            forall|value: T| #[trigger] call_requires(*narrow, (value,)),
            grids@.len() == i,
            forall|k: int|
                0 <= k < i ==> stores_narrowed(
                    #[trigger] grids@[k],
                    recipes@[k],
                    *old(computed),
                    *narrow,
                ),
            forall|k: int| 0 <= k < i ==> computed.slot(#[trigger] recipes@[k]) is None,
            forall|k: int|
                i <= k < recipes@.len() ==> computed.slot(#[trigger] recipes@[k]) == old(
                    computed,
                ).slot(recipes@[k]),
            computed.surface_u10_ms == old(computed).surface_u10_ms,
            computed.surface_v10_ms == old(computed).surface_v10_ms,
        decreases recipes@.len() - i,
    {
        let recipe = recipes[i];
        proof {
            assert(recipes@.contains(recipes@[i as int]));
        }
        match derived_query_field_take_from_computed(nx, ny, recipe, computed) {
            Ok(query) => {
                let values = narrow_values(&query.values, narrow);
                grids.push(StoreDerivedGrid { slug: recipe.slug(), units: query.units, values });
            },
            Err(message) => {
                proof {
                    assert forall|k: int| 0 <= k < i implies old(computed).slot(
                        #[trigger] recipes@[k],
                    ) is Some by {
                        assert(stores_narrowed(grids@[k], recipes@[k], *old(computed), *narrow));
                    }
                    assert(first_gap(stored_recipes(false), *old(computed), i as int));
                }
                return Err(message);
            },
        }
        i = i + 1;
    }
    proof {
        assert forall|r: DerivedRecipe| (#[trigger] computed.slot(r)) is None by {
            law_stored_recipes_partition_the_inventory(r);
            if !r.spec_is_heavy() {
                let k = choose|k: int| 0 <= k < recipes@.len() && recipes@[k] == r;
                assert(computed.slot(recipes@[k]) is None);
            }
        }
    }
    Ok(grids)
}

/// A heavy recipe that was left out, and why.
pub struct StoreHeavySkip {
    pub slug: &'static str,
    pub reason: String,
}

/// The layer whose native CAPE plane a heavy recipe is a ratio to.
pub open spec fn native_layer(recipe: DerivedRecipe) -> Option<Seq<char>> {
    match recipe {
        DerivedRecipe::SbEcapeNativeCapeRatio => Some("surface-based (level type 1)"@),
        DerivedRecipe::MlEcapeNativeCapeRatio => Some("0-90 mb mixed layer"@),
        DerivedRecipe::MuEcapeNativeCapeRatio => Some("0-255 mb most-unstable layer"@),
        _ => None,
    }
}

fn native_layer_of(recipe: DerivedRecipe) -> (layer: Option<&'static str>)
    ensures
        match layer {
            Some(layer) => native_layer(recipe) == Some(layer@),
            None => native_layer(recipe) is None,
        },
{
    match recipe {
        DerivedRecipe::SbEcapeNativeCapeRatio => Some("surface-based (level type 1)"),
        DerivedRecipe::MlEcapeNativeCapeRatio => Some("0-90 mb mixed layer"),
        DerivedRecipe::MuEcapeNativeCapeRatio => Some("0-255 mb most-unstable layer"),
        _ => None,
    }
}

/// Why a ratio to a native CAPE plane is left out.
pub open spec fn skip_reason(layer: Seq<char>) -> Seq<char> {
    "surface inputs carry no native "@ + layer
        + " CAPE plane (no matching CAPE message in the surface GRIB)"@
}

/// The message for a heavy recipe that no field is there for.
pub open spec fn wiring_bug(recipe: DerivedRecipe) -> Seq<char> {
    "heavy recipe '"@ + recipe.spec_slug()@
        + "' missing from the ECAPE field set; this is a wiring bug, not a degradation"@
}

/// The panel fields that are left once the recipes of a list have each taken
/// the first field under their slug. The last field takes the place of one
/// that was taken.
pub open spec fn left_after<T>(
    recipes: Seq<DerivedRecipe>,
    panel_fields: Seq<WeatherPanelField<T>>,
) -> Seq<WeatherPanelField<T>>
    decreases recipes.len(),
{
    if recipes.len() == 0 {
        panel_fields
    } else {
        let left = left_after(recipes.drop_last(), panel_fields);
        match panel::first_with_slug(left, recipes.last().spec_slug()@) {
            Some(index) => left.update(index, left.last()).drop_last(),
            None => left,
        }
    }
}

/// The field that the recipe at one place of a list takes.
pub open spec fn taken_at<T>(
    recipes: Seq<DerivedRecipe>,
    panel_fields: Seq<WeatherPanelField<T>>,
    place: int,
) -> Option<WeatherPanelField<T>> {
    let left = left_after(recipes.take(place), panel_fields);
    match panel::first_with_slug(left, recipes[place].spec_slug()@) {
        Some(index) => Some(left[index]),
        None => None,
    }
}

/// The places of a list whose recipes find a field, or those whose recipes
/// find none.
pub open spec fn places<T>(
    recipes: Seq<DerivedRecipe>,
    panel_fields: Seq<WeatherPanelField<T>>,
    found: bool,
    end: int,
) -> Seq<int>
    decreases end,
{
    if end <= 0 {
        Seq::empty()
    } else {
        let before = places(recipes, panel_fields, found, end - 1);
        if (taken_at(recipes, panel_fields, end - 1) is Some) == found {
            before.push(end - 1)
        } else {
            before
        }
    }
}

/// Whether a heavy grid is that of the recipe at one place.
pub open spec fn heavy_grid_at<T>(
    grid: StoreDerivedGrid<T>,
    recipes: Seq<DerivedRecipe>,
    panel_fields: Seq<WeatherPanelField<T>>,
    place: int,
) -> bool {
    &&& taken_at(recipes, panel_fields, place) matches Some(field) && grid.values == field.values
        && grid.units == field.units
    &&& grid.slug@ == recipes[place].spec_slug()@
}

/// Whether a skip is that of the recipe at one place.
pub open spec fn heavy_skip_at(skip: StoreHeavySkip, recipes: Seq<DerivedRecipe>, place: int) -> bool {
    &&& skip.slug@ == recipes[place].spec_slug()@
    &&& native_layer(recipes[place]) matches Some(layer) && skip.reason@ == skip_reason(layer)
}

/// Whether a place is the first of a list whose recipe finds no field and is
/// not a ratio to a native CAPE plane.
pub open spec fn first_wiring_gap<T>(
    recipes: Seq<DerivedRecipe>,
    panel_fields: Seq<WeatherPanelField<T>>,
    place: int,
) -> bool {
    &&& 0 <= place < recipes.len()
    &&& taken_at(recipes, panel_fields, place) is None
    &&& native_layer(recipes[place]) is None
    &&& forall|k: int|
        #![trigger recipes[k]]
        0 <= k < place ==> taken_at(recipes, panel_fields, k) is Some || native_layer(
            recipes[k],
        ) is Some
}

/// The heavy grids that were realized, the recipes that were left out, and the
/// number of columns in which a parcel could not be lifted.
pub struct StoreHeavyGrids<T> {
    pub grids: Vec<StoreDerivedGrid<T>>,
    pub skipped: Vec<StoreHeavySkip>,
    pub ecape_failure_count: usize,
}

/// Whether panel fields are mapped to the heavy recipes, in inventory order. A
/// ratio to a native CAPE plane may be absent and is then recorded as left out;
/// the absence of any other recipe fails the whole.
pub open spec fn maps_heavy_fields<T>(
    panel_fields: Seq<WeatherPanelField<T>>,
    ecape_failure_count: usize,
    mapped: Result<StoreHeavyGrids<T>, String>,
) -> bool {
    let recipes = stored_recipes(true);
    let found = places(recipes, panel_fields, true, recipes.len() as int);
    let absent = places(recipes, panel_fields, false, recipes.len() as int);
    match mapped {
        Ok(mapped) => {
            &&& mapped.ecape_failure_count == ecape_failure_count
            &&& mapped.grids@.len() == found.len()
            &&& forall|i: int|
                0 <= i < found.len() ==> heavy_grid_at(
                    #[trigger] mapped.grids@[i],
                    recipes,
                    panel_fields,
                    found[i],
                )
            &&& mapped.skipped@.len() == absent.len()
            &&& forall|i: int|
                0 <= i < absent.len() ==> heavy_skip_at(
                    #[trigger] mapped.skipped@[i],
                    recipes,
                    absent[i],
                )
        },
        Err(message) => exists|place: int|
            #[trigger] first_wiring_gap(recipes, panel_fields, place) && message@ == wiring_bug(
                recipes[place],
            ),
    }
}

/// Maps the panel fields of the heavy computation to the heavy recipes.
pub fn map_heavy_fields<T>(
    panel_fields: Vec<WeatherPanelField<T>>,
    ecape_failure_count: usize,
) -> (mapped: Result<StoreHeavyGrids<T>, String>)
    ensures
        maps_heavy_fields(panel_fields@, ecape_failure_count, mapped),
{
    let recipes = select_recipes(true);
    let ghost given = panel_fields@;
    let mut left = panel_fields;
    let mut grids: Vec<StoreDerivedGrid<T>> = Vec::new();
    let mut skipped: Vec<StoreHeavySkip> = Vec::new();
    let mut i: usize = 0;
    proof {
        assert(recipes@.take(0) == Seq::<DerivedRecipe>::empty());
    }
    while i < recipes.len()
        invariant
            i <= recipes@.len(),
            recipes@ == stored_recipes(true),
            given == panel_fields@,
            left@ == left_after(recipes@.take(i as int), given),
            grids@.len() == places(recipes@, given, true, i as int).len(),
            forall|k: int|
                0 <= k < grids@.len() ==> heavy_grid_at(
                    #[trigger] grids@[k],
                    recipes@,
                    given,
                    places(recipes@, given, true, i as int)[k],
                ),
            skipped@.len() == places(recipes@, given, false, i as int).len(),
            forall|k: int|
                0 <= k < skipped@.len() ==> heavy_skip_at(
                    #[trigger] skipped@[k],
                    recipes@,
                    places(recipes@, given, false, i as int)[k],
                ),
            forall|k: int|
                #![trigger recipes@[k]]
                0 <= k < i ==> taken_at(recipes@, given, k) is Some || native_layer(
                    recipes@[k],
                ) is Some,
        decreases recipes@.len() - i,
    {
        let recipe = recipes[i];
        proof {
            assert(recipes@.take(i + 1).drop_last() == recipes@.take(i as int));
            assert(recipes@.take(i + 1).last() == recipe);
            panel::lemma_first_with_slug(left@, recipe.spec_slug()@);
        }
        match find_by_slug(&left, recipe.slug()) {
            Some(index) => {
                let field = left.swap_remove(index);
                grids.push(
                    StoreDerivedGrid {
                        slug: recipe.slug(),
                        units: field.units,
                        values: field.values,
                    },
                );
            },
            None => {
                match native_layer_of(recipe) {
                    Some(layer) => {
                        skipped.push(
                            StoreHeavySkip {
                                slug: recipe.slug(),
                                reason: "surface inputs carry no native ".to_owned().concat(
                                    layer,
                                ).concat(
                                    " CAPE plane (no matching CAPE message in the surface GRIB)",
                                ),
                            },
                        );
                    },
                    None => {
                        proof {
                            assert(first_wiring_gap(recipes@, given, i as int));
                        }
                        return Err(
                            "heavy recipe '".to_owned().concat(recipe.slug()).concat(
                                "' missing from the ECAPE field set; this is a wiring bug, not a degradation",
                            ),
                        );
                    },
                }
            },
        }
        i = i + 1;
    }
    proof {
        assert(recipes@.take(i as int) == recipes@);
    }
    Ok(StoreHeavyGrids { grids, skipped, ecape_failure_count })
}

/// Whether one grid is another, converted value by value.
pub open spec fn narrowed_grid<T, U, F: Fn(T) -> U>(
    grid: StoreDerivedGrid<T>,
    narrow: F,
    result: StoreDerivedGrid<U>,
) -> bool {
    &&& result.slug == grid.slug
    &&& result.units@ == grid.units@
    &&& narrowed(grid.values@, narrow, result.values@)
}

/// Converts grids value by value.
pub fn narrow_grids<T: Copy, U, F: Fn(T) -> U>(
    grids: &Vec<StoreDerivedGrid<T>>,
    narrow: &F,
) -> (result: Vec<StoreDerivedGrid<U>>)
    requires
        forall|value: T| #[trigger] call_requires(*narrow, (value,)),
    ensures
        result@.len() == grids@.len(),
        forall|i: int|
            0 <= i < grids@.len() ==> narrowed_grid(grids@[i], *narrow, #[trigger] result@[i]),
{
    let mut result: Vec<StoreDerivedGrid<U>> = Vec::new();
    let mut i: usize = 0;
    while i < grids.len()
        invariant
            i <= grids@.len(),
            result@.len() == i,
            forall|value: T| #[trigger] call_requires(*narrow, (value,)),
            forall|k: int|
                0 <= k < i ==> narrowed_grid(grids@[k], *narrow, #[trigger] result@[k]),
        decreases grids@.len() - i,
    {
        let values = narrow_values(&grids[i].values, narrow);
        result.push(
            StoreDerivedGrid { slug: grids[i].slug, units: grids[i].units.clone(), values },
        );
        i = i + 1;
    }
    result
}

} // verus!
