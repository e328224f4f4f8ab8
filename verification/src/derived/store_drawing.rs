//! Drawing recipes from stored grids: the grids of the recipes are found, cropped to
//! what the map shows, and put where each recipe is drawn from.
//!
//! The projection of a grid comes as a function.
use crate::derived::fields as computed_fields;
use crate::derived::fields::DerivedComputedFields;
use crate::derived::planning;
use crate::derived::planning::parse_recipes;
use crate::derived::recipes::DerivedRecipe;
use crate::derived::store_render;
use crate::derived::store_render::{
    heavy_store_field, load_store_grids, load_store_winds, select_store_grids, store_render_crop,
    StoreProductGrid,
};
use crate::gridded::bounds;
use crate::gridded::bounds::classify_projected_grid_intersection;
use crate::gridded::crop::{GridCrop, ProjectedGridIntersection};
use crate::gridded::fields;
use crate::gridded::fields::{crop_latlon_grid, LatLonGrid};
use crate::heavy_stage;
use crate::heavy_stage::{cells_inside, HeavyProjection, HEAVY_PAD_CELLS};
use crate::panel;
use crate::panel::WeatherPanelField;
use vstd::prelude::*;

verus! {

/// What recipes are drawn from: the grid that is shown, unless it is the whole one
/// with the rectangle that was cut out, its projection, the fields of the recipes
/// that are not heavy, and for each heavy recipe its field.
pub struct StoreDrawing<T, M> {
    pub recipes: Vec<DerivedRecipe>,
    pub cropped: Option<(GridCrop, LatLonGrid<T>)>,
    pub projected: M,
    pub computed: DerivedComputedFields<T>,
    pub heavy: Vec<Option<WeatherPanelField<T>>>,
}

/// Whether a grid has a position for each of its cells.
pub open spec fn located<T>(grid: LatLonGrid<T>) -> bool {
    let cells = grid.shape.nx * grid.shape.ny;
    cells <= usize::MAX && grid.lat_deg@.len() == cells && grid.lon_deg@.len() == cells
}

/// Whether a list of slugs is read as recipes, or fails at the first that names none.
pub open spec fn reads_as(slugs: Seq<String>, parsed: Result<Vec<DerivedRecipe>, String>) -> bool {
    match parsed {
        Ok(list) => {
            &&& forall|k: int|
                0 <= k < slugs.len() ==> planning::named((#[trigger] slugs[k])@) is Some
            &&& list@ == planning::all_named(slugs)
        },
        Err(message) => exists|i: int|
            #[trigger] planning::first_unnamed(slugs, i) && message@ == planning::unnamed_message(
                slugs[i]@,
            ),
    }
}

/// Whether a map shows a part of a grid, by which cells lie in its extent.
pub open spec fn shows_part(
    inside: Seq<bool>,
    nx: int,
    ny: int,
    part: ProjectedGridIntersection,
) -> bool {
    match part {
        ProjectedGridIntersection::Empty => bounds::no_cell_marked(inside, nx, ny),
        ProjectedGridIntersection::Full => exists|whole: GridCrop|
            #[trigger] bounds::is_padded_box(inside, nx, ny, HEAVY_PAD_CELLS as int, whole)
                && bounds::covers_grid(whole, nx, ny),
        ProjectedGridIntersection::Crop(rect) => bounds::is_padded_box(
            inside,
            nx,
            ny,
            HEAVY_PAD_CELLS as int,
            rect,
        ) && !bounds::covers_grid(rect, nx, ny),
    }
}

/// Whether a field is what a recipe is drawn from, if it is a heavy one.
pub open spec fn heavy_field_of<T>(
    recipe: DerivedRecipe,
    grids: Seq<StoreProductGrid<T>>,
    nx: int,
    rect: Option<GridCrop>,
    field: Option<WeatherPanelField<T>>,
) -> bool {
    match field {
        Some(field) => {
            let grid = grids[store_render::grid_with_slug(grids, recipe.spec_slug()@)->Some_0];
            &&& recipe.spec_is_heavy()
            &&& panel::product_of(recipe) == Some(field.product)
            &&& field.units@ == grid.units@
            &&& field.values@ == store_render::drawn(grid.values@, nx, rect)
            &&& field.title_override is None
            &&& field.artifact_slug is None
        },
        None => !recipe.spec_is_heavy(),
    }
}

/// The rectangle that was cut out of a grid, if any.
pub open spec fn rect_of<T>(cropped: Option<(GridCrop, LatLonGrid<T>)>) -> Option<GridCrop> {
    match cropped {
        Some((rect, _)) => Some(rect),
        None => None,
    }
}

/// Whether recipes end as loaded on the part of a grid that is shown. The 10 m winds
/// may be missing.
pub open spec fn loaded<T, M>(
    recipes: Seq<DerivedRecipe>,
    grids: Seq<StoreProductGrid<T>>,
    winds: Option<(&[T], &[T])>,
    nx: int,
    cells: int,
    cropped: Option<(GridCrop, LatLonGrid<T>)>,
    projected: M,
    result: Result<Option<StoreDrawing<T, M>>, String>,
) -> bool {
    let rect = rect_of(cropped);
    match store_render::wind_error(recipes, winds, cells) {
        Some(message) => result is Err && result->Err_0@ == message,
        None => match result {
            Ok(Some(drawing)) => {
                &&& drawing.recipes@ == recipes
                &&& drawing.cropped == cropped
                &&& drawing.projected == projected
                &&& store_render::holds_grids(drawing.computed, recipes, grids, nx, rect)
                &&& if recipes.contains(DerivedRecipe::ThetaE2m10mWinds) {
                    &&& computed_fields::field_view(drawing.computed.surface_u10_ms) == Some(
                        store_render::drawn(winds->Some_0.0@, nx, rect),
                    )
                    &&& computed_fields::field_view(drawing.computed.surface_v10_ms) == Some(
                        store_render::drawn(winds->Some_0.1@, nx, rect),
                    )
                } else {
                    drawing.computed.surface_u10_ms is None
                        && drawing.computed.surface_v10_ms is None
                }
                &&& drawing.heavy@.len() == recipes.len()
                &&& forall|i: int|
                    0 <= i < recipes.len() ==> heavy_field_of(
                        recipes[i],
                        grids,
                        nx,
                        rect,
                        #[trigger] drawing.heavy@[i],
                    )
            },
            _ => false,
        },
    }
}

fn load_recipes<T: Copy, M>(
    recipes: Vec<DerivedRecipe>,
    selected: &Vec<usize>,
    grids: &[StoreProductGrid<T>],
    winds: Option<(&[T], &[T])>,
    nx: usize,
    cells: usize,
    cropped: Option<(GridCrop, LatLonGrid<T>)>,
    projected: M,
) -> (result: Result<Option<StoreDrawing<T, M>>, String>)
    requires
        store_render::drawable(rect_of(cropped), nx as int, cells as int),
        selected@.len() == recipes@.len(),
        forall|i: int|
            0 <= i < recipes@.len() ==> store_render::grid_error(
                #[trigger] recipes@[i],
                grids@,
                cells as int,
            ) is None,
        forall|i: int|
            0 <= i < recipes@.len() ==> store_render::grid_with_slug(
                grids@,
                recipes@[i].spec_slug()@,
            ) == Some(#[trigger] selected@[i] as int) && selected@[i] < grids@.len(),
    ensures
        loaded(
            recipes@,
            grids@,
            winds,
            nx as int,
            cells as int,
            cropped,
            projected,
            result,
        ),
{
    let ghost listed = recipes@;
    let ghost given = cropped;
    let rect: Option<GridCrop> = match &cropped {
        Some((rect, _)) => Some(*rect),
        None => None,
    };
    let mut computed = load_store_grids(recipes.as_slice(), selected, grids, nx, cells, rect);
    let ghost before = computed;
    match load_store_winds(&mut computed, recipes.as_slice(), winds, nx, cells, rect) {
        Ok(_) => {},
        Err(message) => {
            return Err(message);
        },
    }
    proof {
        assert(store_render::holds_grids(computed, listed, grids@, nx as int, rect)) by {
            assert forall|r: DerivedRecipe| !r.spec_is_heavy() implies if listed.contains(r) {
                computed_fields::field_view(#[trigger] computed.slot(r)) == Some(
                    store_render::drawn(
                        grids@[store_render::grid_with_slug(
                            grids@,
                            r.spec_slug()@,
                        )->Some_0].values@,
                        nx as int,
                        rect,
                    ),
                )
            } else {
                computed.slot(r) is None
            } by {
                assert(computed.slot(r) == before.slot(r));
            }
        }
    }
    let mut heavy: Vec<Option<WeatherPanelField<T>>> = Vec::new();
    let mut i: usize = 0;
    while i < recipes.len()
        invariant
            i <= recipes@.len(),
            recipes@ == listed,
            heavy@.len() == i,
            rect == rect_of(given),
            store_render::drawable(rect, nx as int, cells as int),
            selected@.len() == recipes@.len(),
            forall|k: int|
                0 <= k < recipes@.len() ==> store_render::grid_error(
                    #[trigger] recipes@[k],
                    grids@,
                    cells as int,
                ) is None,
            forall|k: int|
                0 <= k < recipes@.len() ==> store_render::grid_with_slug(
                    grids@,
                    recipes@[k].spec_slug()@,
                ) == Some(#[trigger] selected@[k] as int) && selected@[k] < grids@.len(),
            forall|k: int|
                0 <= k < i ==> heavy_field_of(
                    listed[k],
                    grids@,
                    nx as int,
                    rect,
                    #[trigger] heavy@[k],
                ),
        decreases recipes@.len() - i,
    {
        let recipe = recipes[i];
        let field: Option<WeatherPanelField<T>> = if recipe.is_heavy() {
            proof {
                assert(selected@[i as int] < grids@.len());
                assert(store_render::grid_error(recipes@[i as int], grids@, cells as int) is None);
                panel::law_heavy_products_keep_the_recipe_slug(recipe);
            }
            match heavy_store_field(recipe, &grids[selected[i]], nx, rect) {
                Ok(field) => Some(field),
                Err(_) => None,
            }
        } else {
            None
        };
        heavy.push(field);
        i = i + 1;
    }
    Ok(Some(StoreDrawing { recipes, cropped, projected, computed, heavy }))
}

/// Whether recipes end as drawn once the whole grid is projected.
pub open spec fn drawn_on<
    T,
    M,
    J: for<'a> Fn(&'a LatLonGrid<T>) -> Result<HeavyProjection<M>, String>,
>(
    recipes: Seq<DerivedRecipe>,
    domain_slug: Seq<char>,
    grid: LatLonGrid<T>,
    grids: Seq<StoreProductGrid<T>>,
    winds: Option<(&[T], &[T])>,
    whole: HeavyProjection<M>,
    project: J,
    result: Result<Option<StoreDrawing<T, M>>, String>,
) -> bool {
    let nx = grid.shape.nx as int;
    let ny = grid.shape.ny as int;
    let cells = nx * ny;
    if whole.inside_x@.len() != cells || whole.inside_y@.len() != cells {
        result is Err && result->Err_0@
            == "projected crop inputs did not match surface grid size"@
    } else {
        exists|part: ProjectedGridIntersection|
            #[trigger] shows_part(whole.inside(), nx, ny, part) && match part {
                ProjectedGridIntersection::Empty => result is Err && result->Err_0@
                    == "store render projected crop for domain '"@ + domain_slug
                    + "' produced an empty domain"@,
                ProjectedGridIntersection::Full => loaded(
                    recipes,
                    grids,
                    winds,
                    nx,
                    cells,
                    None,
                    whole.handle,
                    result,
                ),
                ProjectedGridIntersection::Crop(rect) => cut_and_drawn(
                    recipes,
                    grid,
                    grids,
                    winds,
                    rect,
                    project,
                    result,
                ),
            }
    }
}

/// Whether recipes end as drawn on a rectangle of a grid, which is projected anew.
pub open spec fn cut_and_drawn<
    T,
    M,
    J: for<'a> Fn(&'a LatLonGrid<T>) -> Result<HeavyProjection<M>, String>,
>(
    recipes: Seq<DerivedRecipe>,
    grid: LatLonGrid<T>,
    grids: Seq<StoreProductGrid<T>>,
    winds: Option<(&[T], &[T])>,
    rect: GridCrop,
    project: J,
    result: Result<Option<StoreDrawing<T, M>>, String>,
) -> bool {
    exists|cut: LatLonGrid<T>, again: Result<HeavyProjection<M>, String>|
        #[trigger] call_ensures(project, (&cut,), again) && fields::is_grid_crop(grid, rect, cut)
            && match again {
            Err(message) => result == Err::<Option<StoreDrawing<T, M>>, String>(message),
            Ok(projected) => loaded(
                recipes,
                grids,
                winds,
                grid.shape.nx as int,
                grid.shape.nx * grid.shape.ny,
                Some((rect, cut)),
                projected.handle,
                result,
            ),
        }
}

/// Whether recipes end as drawn. Without recipes nothing is drawn. The first recipe
/// without a grid of the right size fails them all before anything is projected.
pub open spec fn recipes_drawn<
    T,
    M,
    J: for<'a> Fn(&'a LatLonGrid<T>) -> Result<HeavyProjection<M>, String>,
>(
    recipes: Seq<DerivedRecipe>,
    domain_slug: Seq<char>,
    grid: LatLonGrid<T>,
    grids: Seq<StoreProductGrid<T>>,
    winds: Option<(&[T], &[T])>,
    project: J,
    result: Result<Option<StoreDrawing<T, M>>, String>,
) -> bool {
    let cells = grid.shape.nx * grid.shape.ny;
    if recipes.len() == 0 {
        result == Ok::<Option<StoreDrawing<T, M>>, String>(None)
    } else if exists|i: int|
        0 <= i < recipes.len() && store_render::grid_error(
            #[trigger] recipes[i],
            grids,
            cells,
        ) is Some {
        exists|place: int|
            #[trigger] store_render::first_grid_error(recipes, grids, cells, place) && result is Err
                && Some(result->Err_0@) == store_render::grid_error(recipes[place], grids, cells)
    } else {
        exists|answer: Result<HeavyProjection<M>, String>|
            #[trigger] call_ensures(project, (&grid,), answer) && match answer {
                Err(message) => result == Err::<Option<StoreDrawing<T, M>>, String>(message),
                Ok(whole) => drawn_on(
                    recipes,
                    domain_slug,
                    grid,
                    grids,
                    winds,
                    whole,
                    project,
                    result,
                ),
            }
    }
}

/// Loads the recipes of a request from stored grids: the values of each are cropped to
/// what the map shows, and put where the recipe is drawn from.
pub fn render_derived_recipes_from_store_grids<
    T: Copy,
    M,
    J: for<'a> Fn(&'a LatLonGrid<T>) -> Result<HeavyProjection<M>, String>,
>(
    recipe_slugs: &[String],
    domain_slug: &str,
    full_grid: &LatLonGrid<T>,
    grids: &[StoreProductGrid<T>],
    surface_winds_10m_ms: Option<(&[T], &[T])>,
    project: &J,
) -> (result: Result<Option<StoreDrawing<T, M>>, String>)
    requires
        located(*full_grid),
        forall|g: LatLonGrid<T>| #[trigger] call_requires(*project, (&g,)),
    ensures
        exists|parsed: Result<Vec<DerivedRecipe>, String>|
            #[trigger] reads_as(recipe_slugs@, parsed) && match parsed {
                Err(message) => result == Err::<Option<StoreDrawing<T, M>>, String>(message),
                Ok(recipes) => recipes_drawn(
                    recipes@,
                    domain_slug@,
                    *full_grid,
                    grids@,
                    surface_winds_10m_ms,
                    *project,
                    result,
                ),
            },
{
    let parsed = parse_recipes(recipe_slugs);
    let ghost told = parsed;
    proof {
        assert(reads_as(recipe_slugs@, told));
    }
    let recipes = match parsed {
        Ok(recipes) => recipes,
        Err(message) => {
            return Err(message);
        },
    };
    let ghost listed = recipes@;
    if recipes.len() == 0 {
        return Ok(None);
    }
    let nx: usize = full_grid.shape.nx;
    let ny: usize = full_grid.shape.ny;
    let cells: usize = nx * ny;
    let selected = match select_store_grids(recipes.as_slice(), grids, cells) {
        Ok(selected) => selected,
        Err(message) => {
            proof {
                let place = choose|place: int|
                    #[trigger] store_render::first_grid_error(
                        listed,
                        grids@,
                        cells as int,
                        place,
                    ) && Some(message@) == store_render::grid_error(
                        listed[place],
                        grids@,
                        cells as int,
                    );
                assert(store_render::grid_error(listed[place], grids@, cells as int) is Some);
            }
            return Err(message);
        },
    };
    let answer = project(full_grid);
    let ghost first_answer = answer;
    let whole = match answer {
        Ok(whole) => whole,
        Err(message) => {
            return Err(message);
        },
    };
    let ghost first = whole;
    let inside = cells_inside(&whole);
    let result = match classify_projected_grid_intersection(
        nx,
        ny,
        whole.inside_x.len(),
        whole.inside_y.len(),
        inside.as_slice(),
        HEAVY_PAD_CELLS,
    ) {
        Err(message) => Err(message),
        Ok(part) => {
            proof {
                assert(shows_part(first.inside(), nx as int, ny as int, part));
            }
            match store_render_crop(part, domain_slug) {
                Err(message) => Err(message),
                Ok(None) => load_recipes(
                    recipes,
                    &selected,
                    grids,
                    surface_winds_10m_ms,
                    nx,
                    cells,
                    None,
                    whole.handle,
                ),
                Ok(Some(rect)) => {
                    proof {
                        bounds::lemma_padded_box_is_within(
                            first.inside(),
                            nx as int,
                            ny as int,
                            HEAVY_PAD_CELLS as int,
                            rect,
                        );
                        heavy_stage::lemma_crop_fits(rect, nx as int, ny as int);
                    }
                    let cut = crop_latlon_grid(full_grid, rect);
                    let again = project(&cut);
                    let ghost second = again;
                    let ghost shown = cut;
                    let result = match again {
                        Err(message) => Err(message),
                        Ok(projected) => load_recipes(
                            recipes,
                            &selected,
                            grids,
                            surface_winds_10m_ms,
                            nx,
                            cells,
                            Some((rect, cut)),
                            projected.handle,
                        ),
                    };
                    proof {
                        assert(call_ensures(*project, (&shown,), second));
                        assert(cut_and_drawn(
                            listed,
                            *full_grid,
                            grids@,
                            surface_winds_10m_ms,
                            rect,
                            *project,
                            result,
                        ));
                    }
                    result
                },
            }
        },
    };
    proof {
        assert(drawn_on(
            listed,
            domain_slug@,
            *full_grid,
            grids@,
            surface_winds_10m_ms,
            first,
            *project,
            result,
        ));
        assert(call_ensures(*project, (full_grid,), first_answer));
        assert(recipes_drawn(
            listed,
            domain_slug@,
            *full_grid,
            grids@,
            surface_winds_10m_ms,
            *project,
            result,
        ));
    }
    result
}

} // verus!
