//! Drawing recipes from grids that were stored: which grids are used, how they
//! are cropped, and which fields they become.
use crate::derived::fields;
use crate::derived::fields::{assign_store_values, DerivedComputedFields};
use crate::derived::recipes::DerivedRecipe;
use crate::gridded::crop;
use crate::gridded::crop::{crop_2d_values, GridCrop, ProjectedGridIntersection};
use crate::panel;
use crate::panel::{weather_product_for_heavy_recipe, WeatherPanelField};
use crate::text;
use crate::text::{str_eq, to_decimal};
use vstd::prelude::*;
use vstd::slice::slice_to_vec;
use vstd::string::*;

verus! {

/// One grid read back from a store.
pub struct StoreProductGrid<T> {
    pub slug: String,
    pub units: String,
    pub values: Vec<T>,
}

/// The last grid with a slug. A later grid takes the place of an earlier one.
pub open spec fn grid_with_slug<T>(grids: Seq<StoreProductGrid<T>>, slug: Seq<char>) -> Option<int>
    decreases grids.len(),
{
    if grids.len() == 0 {
        None
    } else if grids.last().slug@ == slug {
        Some(grids.len() - 1)
    } else {
        grid_with_slug(grids.drop_last(), slug)
    }
}

fn find_grid<T>(grids: &[StoreProductGrid<T>], slug: &str) -> (index: Option<usize>)
    ensures
        match index {
            Some(index) => grid_with_slug(grids@, slug@) == Some(index as int) && index
                < grids@.len(),
            None => grid_with_slug(grids@, slug@) is None,
        },
{
    let mut end: usize = grids.len();
    proof {
        assert(grids@.take(end as int) == grids@);
    }
    while end > 0
        invariant
            end <= grids@.len(),
            grid_with_slug(grids@, slug@) == grid_with_slug(grids@.take(end as int), slug@),
        decreases end,
    {
        proof {
            assert(grids@.take(end as int).drop_last() == grids@.take(end - 1));
        }
        if str_eq(grids[end - 1].slug.as_str(), slug) {
            return Some(end - 1);
        }
        end = end - 1;
    }
    None
}

/// Why a recipe cannot be drawn from the grids.
pub open spec fn grid_error<T>(
    recipe: DerivedRecipe,
    grids: Seq<StoreProductGrid<T>>,
    cells: int,
) -> Option<Seq<char>> {
    match grid_with_slug(grids, recipe.spec_slug()@) {
        None => Some(
            "store render requested recipe '"@ + recipe.spec_slug()@ + "' without its store grid"@,
        ),
        Some(index) => if grids[index].values@.len() != cells {
            Some(
                "store grid '"@ + recipe.spec_slug()@ + "' holds "@ + text::decimal(
                    grids[index].values@.len(),
                ) + " values, expected "@ + text::decimal(cells as nat),
            )
        } else {
            None
        },
    }
}

/// Whether a place is the first of a list whose recipe cannot be drawn.
pub open spec fn first_grid_error<T>(
    recipes: Seq<DerivedRecipe>,
    grids: Seq<StoreProductGrid<T>>,
    cells: int,
    place: int,
) -> bool {
    &&& 0 <= place < recipes.len()
    &&& grid_error(recipes[place], grids, cells) is Some
    &&& forall|k: int|
        0 <= k < place ==> grid_error(#[trigger] recipes[k], grids, cells) is None
}

/// Finds the grid of each recipe and checks that it has a value for each cell.
/// The first recipe without such a grid fails the whole.
pub fn select_store_grids<T>(
    recipes: &[DerivedRecipe],
    grids: &[StoreProductGrid<T>],
    cells: usize,
) -> (selected: Result<Vec<usize>, String>)
    ensures
        match selected {
            Ok(selected) => {
                &&& selected@.len() == recipes@.len()
                &&& forall|i: int|
                    0 <= i < recipes@.len() ==> grid_error(#[trigger] recipes@[i], grids@, cells as int)
                        is None
                &&& forall|i: int|
                    0 <= i < recipes@.len() ==> grid_with_slug(grids@, recipes@[i].spec_slug()@)
                        == Some(#[trigger] selected@[i] as int) && selected@[i] < grids@.len()
            },
            Err(message) => exists|place: int|
                #[trigger] first_grid_error(recipes@, grids@, cells as int, place) && Some(message@)
                    == grid_error(recipes@[place], grids@, cells as int),
        },
{
    let mut selected: Vec<usize> = Vec::new();
    let mut i: usize = 0;
    while i < recipes.len()
        invariant
            i <= recipes@.len(),
            selected@.len() == i,
            forall|k: int|
                0 <= k < i ==> grid_error(#[trigger] recipes@[k], grids@, cells as int) is None,
            forall|k: int|
                0 <= k < i ==> grid_with_slug(grids@, recipes@[k].spec_slug()@) == Some(
                    #[trigger] selected@[k] as int,
                ) && selected@[k] < grids@.len(),
        decreases recipes@.len() - i,
    {
        let slug = recipes[i].slug();
        match find_grid(grids, slug) {
            None => {
                proof {
                    assert(first_grid_error(recipes@, grids@, cells as int, i as int));
                }
                return Err(
                    "store render requested recipe '".to_owned().concat(slug).concat(
                        "' without its store grid",
                    ),
                );
            },
            Some(index) => {
                if grids[index].values.len() != cells {
                    proof {
                        assert(first_grid_error(recipes@, grids@, cells as int, i as int));
                    }
                    return Err(
                        "store grid '".to_owned().concat(slug).concat("' holds ").concat(
                            to_decimal(grids[index].values.len() as u64).as_str(),
                        ).concat(" values, expected ").concat(
                            to_decimal(cells as u64).as_str(),
                        ),
                    );
                }
                selected.push(index);
            },
        }
        i = i + 1;
    }
    Ok(selected)
}

/// The rectangle that stored grids are cropped to, or none where the whole grid
/// is drawn. A domain without cells is refused.
pub fn store_render_crop(
    intersection: ProjectedGridIntersection,
    domain_slug: &str,
) -> (cropped: Result<Option<GridCrop>, String>)
    ensures
        match intersection {
            ProjectedGridIntersection::Empty => cropped is Err && cropped->Err_0@
                == "store render projected crop for domain '"@ + domain_slug@
                + "' produced an empty domain"@,
            ProjectedGridIntersection::Full => cropped == Ok::<Option<GridCrop>, String>(None),
            ProjectedGridIntersection::Crop(rect) => cropped == Ok::<Option<GridCrop>, String>(
                Some(rect),
            ),
        },
{
    match intersection {
        ProjectedGridIntersection::Empty => Err(
            "store render projected crop for domain '".to_owned().concat(domain_slug).concat(
                "' produced an empty domain",
            ),
        ),
        ProjectedGridIntersection::Full => Ok(None),
        ProjectedGridIntersection::Crop(rect) => Ok(Some(rect)),
    }
}

/// The values of a plane in the rectangle that is drawn.
pub open spec fn drawn<T>(values: Seq<T>, nx: int, rect: Option<GridCrop>) -> Seq<T> {
    match rect {
        Some(rect) => crop::cropped(values, nx, rect),
        None => values,
    }
}

/// Whether a rectangle lies on a grid of the given cells.
pub open spec fn drawable(rect: Option<GridCrop>, nx: int, cells: int) -> bool {
    rect matches Some(rect) ==> rect.fits(nx, cells)
}

fn crop_plane<T: Copy>(values: &[T], nx: usize, rect: Option<GridCrop>) -> (plane: Vec<T>)
    requires
        drawable(rect, nx as int, values@.len() as int),
    ensures
        plane@ == drawn(values@, nx as int, rect),
{
    match rect {
        Some(rect) => crop_2d_values(values, nx, rect),
        None => slice_to_vec(values),
    }
}

/// Whether the computed fields hold exactly the drawn grids of the recipes of a
/// list that are not heavy.
pub open spec fn holds_grids<T>(
    computed: DerivedComputedFields<T>,
    recipes: Seq<DerivedRecipe>,
    grids: Seq<StoreProductGrid<T>>,
    nx: int,
    rect: Option<GridCrop>,
) -> bool {
    forall|r: DerivedRecipe|
        !r.spec_is_heavy() ==> if recipes.contains(r) {
            fields::field_view(#[trigger] computed.slot(r)) == Some(
                drawn(grids[grid_with_slug(grids, r.spec_slug()@)->Some_0].values@, nx, rect),
            )
        } else {
            computed.slot(r) is None
        }
}

/// Loads the grids of the recipes that are not heavy into computed fields.
pub fn load_store_grids<T: Copy>(
    recipes: &[DerivedRecipe],
    selected: &Vec<usize>,
    grids: &[StoreProductGrid<T>],
    nx: usize,
    cells: usize,
    rect: Option<GridCrop>,
) -> (computed: DerivedComputedFields<T>)
    requires
        drawable(rect, nx as int, cells as int),
        selected@.len() == recipes@.len(),
        forall|i: int|
            0 <= i < recipes@.len() ==> grid_error(#[trigger] recipes@[i], grids@, cells as int)
                is None,
        forall|i: int|
            0 <= i < recipes@.len() ==> grid_with_slug(grids@, recipes@[i].spec_slug()@) == Some(
                #[trigger] selected@[i] as int,
            ) && selected@[i] < grids@.len(),
    ensures
        holds_grids(computed, recipes@, grids@, nx as int, rect),
        computed.surface_u10_ms is None,
        computed.surface_v10_ms is None,
{
    let mut computed: DerivedComputedFields<T> = DerivedComputedFields::empty();
    let mut i: usize = 0;
    while i < recipes.len()
        invariant
            i <= recipes@.len(),
            drawable(rect, nx as int, cells as int),
            selected@.len() == recipes@.len(),
            forall|k: int|
                0 <= k < recipes@.len() ==> grid_error(#[trigger] recipes@[k], grids@, cells as int)
                    is None,
            forall|k: int|
                0 <= k < recipes@.len() ==> grid_with_slug(grids@, recipes@[k].spec_slug()@)
                    == Some(#[trigger] selected@[k] as int) && selected@[k] < grids@.len(),
            holds_grids(computed, recipes@.take(i as int), grids@, nx as int, rect),
            computed.surface_u10_ms is None,
            computed.surface_v10_ms is None,
        decreases recipes@.len() - i,
    {
        let recipe = recipes[i];
        let ghost now = recipes@.take(i as int);
        let ghost next = recipes@.take(i + 1);
        proof {
            assert forall|r: DerivedRecipe| #[trigger] next.contains(r) <==> now.contains(r) || r
                == recipe by {
                if now.contains(r) {
                    let k = choose|k: int| 0 <= k < now.len() && now[k] == r;
                    assert(next[k] == r);
                }
                assert(next[i as int] == recipe);
                if next.contains(r) && r != recipe {
                    let k = choose|k: int| 0 <= k < next.len() && next[k] == r;
                    assert(now[k] == r);
                }
            }
            assert(grid_error(recipes@[i as int], grids@, cells as int) is None);
            assert(selected@[i as int] < grids@.len());
        }
        let ghost before = computed;
        if !recipe.is_heavy() {
            let plane = crop_plane(grids[selected[i]].values.as_slice(), nx, rect);
            let assigned = assign_store_values(&mut computed, recipe, plane);
            proof {
                assert(assigned is Ok);
                assert forall|r: DerivedRecipe| !r.spec_is_heavy() implies if next.contains(r) {
                    fields::field_view(#[trigger] computed.slot(r)) == Some(
                        drawn(
                            grids@[grid_with_slug(grids@, r.spec_slug()@)->Some_0].values@,
                            nx as int,
                            rect,
                        ),
                    )
                } else {
                    computed.slot(r) is None
                } by {
                    if r != recipe {
                        assert(computed.slot(r) == before.slot(r));
                        assert(next.contains(r) <==> now.contains(r));
                    }
                }
            }
        } else {
            proof {
                assert forall|r: DerivedRecipe| !r.spec_is_heavy() implies if next.contains(r) {
                    fields::field_view(#[trigger] computed.slot(r)) == Some(
                        drawn(
                            grids@[grid_with_slug(grids@, r.spec_slug()@)->Some_0].values@,
                            nx as int,
                            rect,
                        ),
                    )
                } else {
                    computed.slot(r) is None
                } by {
                    assert(next.contains(r) <==> now.contains(r));
                }
            }
        }
        i = i + 1;
    }
    proof {
        assert(recipes@.take(i as int) == recipes@);
    }
    computed
}

/// Why the 10 m winds of a list of recipes cannot be drawn.
pub open spec fn wind_error<T>(
    recipes: Seq<DerivedRecipe>,
    winds: Option<(&[T], &[T])>,
    cells: int,
) -> Option<Seq<char>> {
    if !recipes.contains(DerivedRecipe::ThetaE2m10mWinds) {
        None
    } else {
        match winds {
            None => Some(
                "store render of 'theta_e_2m_10m_winds' needs the stored 10 m u/v planes for its barb overlay"@,
            ),
            Some(winds) => if winds.0@.len() != cells || winds.1@.len() != cells {
                Some("store 10 m wind planes do not match the hour grid"@)
            } else {
                None
            },
        }
    }
}

fn draws_winds(recipes: &[DerivedRecipe]) -> (draws: bool)
    ensures
        draws == recipes@.contains(DerivedRecipe::ThetaE2m10mWinds),
{
    let mut i: usize = 0;
    while i < recipes.len()
        invariant
            i <= recipes@.len(),
            forall|k: int| 0 <= k < i ==> recipes@[k] != DerivedRecipe::ThetaE2m10mWinds,
        decreases recipes@.len() - i,
    {
        if recipes[i] == DerivedRecipe::ThetaE2m10mWinds {
            return true;
        }
        i = i + 1;
    }
    false
}

/// Adds the 10 m winds to computed fields where a recipe draws them.
pub fn load_store_winds<T: Copy>(
    computed: &mut DerivedComputedFields<T>,
    recipes: &[DerivedRecipe],
    winds: Option<(&[T], &[T])>,
    nx: usize,
    cells: usize,
    rect: Option<GridCrop>,
) -> (loaded: Result<(), String>)
    requires
        drawable(rect, nx as int, cells as int),
    ensures
        match loaded {
            Ok(_) => {
                &&& wind_error(recipes@, winds, cells as int) is None
                &&& forall|r: DerivedRecipe| #[trigger]
                    final(computed).slot(r) == old(computed).slot(r)
                &&& if recipes@.contains(DerivedRecipe::ThetaE2m10mWinds) {
                    &&& fields::field_view(final(computed).surface_u10_ms) == Some(
                        drawn(winds->Some_0.0@, nx as int, rect),
                    )
                    &&& fields::field_view(final(computed).surface_v10_ms) == Some(
                        drawn(winds->Some_0.1@, nx as int, rect),
                    )
                } else {
                    *final(computed) == *old(computed)
                }
            },
            Err(message) => {
                &&& wind_error(recipes@, winds, cells as int) == Some(message@)
                &&& *final(computed) == *old(computed)
            },
        },
{
    if !draws_winds(recipes) {
        return Ok(());
    }
    match winds {
        None => Err(
            "store render of 'theta_e_2m_10m_winds' needs the stored 10 m u/v planes for its barb overlay".to_owned(),
        ),
        Some((u10, v10)) => {
            if u10.len() != cells || v10.len() != cells {
                return Err("store 10 m wind planes do not match the hour grid".to_owned());
            }
            computed.surface_u10_ms = Some(crop_plane(u10, nx, rect));
            computed.surface_v10_ms = Some(crop_plane(v10, nx, rect));
            Ok(())
        },
    }
}

/// The panel field of a heavy recipe, from its stored grid.
pub fn heavy_store_field<T: Copy>(
    recipe: DerivedRecipe,
    grid: &StoreProductGrid<T>,
    nx: usize,
    rect: Option<GridCrop>,
) -> (field: Result<WeatherPanelField<T>, String>)
    requires
        drawable(rect, nx as int, grid.values@.len() as int),
    ensures
        match panel::product_of(recipe) {
            Some(product) => field matches Ok(field) && {
                &&& field.product == product
                &&& field.units@ == grid.units@
                &&& field.values@ == drawn(grid.values@, nx as int, rect)
                &&& field.title_override is None
                &&& field.artifact_slug is None
            },
            None => field matches Err(message) && message@ == "recipe '"@ + recipe.spec_slug()@
                + "' is not a heavy ECAPE-class recipe"@,
        },
{
    match weather_product_for_heavy_recipe(recipe) {
        Ok(product) => {
            let values = crop_plane(grid.values.as_slice(), nx, rect);
            Ok(WeatherPanelField::new(product, grid.units.as_str(), values))
        },
        Err(message) => Err(message),
    }
}

/// A value that was stored for a recipe is the one that is read for it: the
/// field drawn from a store grid over the whole domain is that grid.
pub proof fn law_stored_grid_is_drawn_unchanged<T>(
    computed: DerivedComputedFields<T>,
    recipes: Seq<DerivedRecipe>,
    grids: Seq<StoreProductGrid<T>>,
    nx: int,
    recipe: DerivedRecipe,
)
    requires
        holds_grids(computed, recipes, grids, nx, None),
        recipes.contains(recipe),
        !recipe.spec_is_heavy(),
    ensures
        fields::field_view(computed.slot(recipe)) == Some(
            grids[grid_with_slug(grids, recipe.spec_slug()@)->Some_0].values@,
        ),
{
    assert(fields::field_view(computed.slot(recipe)) == Some(
        drawn(grids[grid_with_slug(grids, recipe.spec_slug()@)->Some_0].values@, nx, None),
    ));
}

} // verus!
