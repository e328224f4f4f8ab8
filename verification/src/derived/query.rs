//! Derived fields on demand: one recipe, or a list of which each recipe is tried by
//! itself when all of them together fail.
use crate::derived::assemble;
use crate::derived::compute;
use crate::derived::compute::compute_derived_fields_generic;
use crate::derived::compute_laws;
use crate::derived::fields::{
    derived_query_field_from_computed, DerivedComputedFields, DerivedQueryField,
};
use crate::derived::kernel_runs;
use crate::derived::kernel_runs::{ComputeRules, KernelAnswer, KernelCall, KernelContext};
use crate::derived::levels::LengthMismatch;
use crate::derived::planning;
use crate::derived::planning::{plan_derived_recipes, DerivedRecipeBlocker};
use crate::derived::recipes;
use crate::derived::recipes::DerivedRecipe;
use crate::derived::requirements;
use crate::derived::sampling;
use crate::derived::sampling::{
    heavy_refusal, recipe_failed, sample_computed_fields, sampled_recipe, DerivedSampledFields,
};
use crate::derived::store;
use crate::gridded::fields::{PressureFields, SurfaceFields};
use crate::model::ProductSourceRoute;
use vstd::prelude::*;

verus! {

/// Whether the query of one recipe ends with a result: its computed field, or the
/// message with which the computation failed. A heavy recipe is refused.
pub open spec fn queried<
    T,
    P,
    K: for<'a> Fn(KernelCall<'a, T>) -> Result<KernelAnswer<T>, String>,
    A: Fn(T, T) -> T,
    R: Fn(T, T) -> T,
    C: Fn(T) -> T,
    N: Fn(T) -> T,
    L: Fn(T, u64) -> bool,
    X: Fn(T, T, u64) -> bool,
    B: Fn(T, T, T, T, u64) -> T,
    GD: Fn(T, T, T, T) -> T,
    GU: Fn(T) -> bool,
    GS: Fn(T, T) -> T,
    GM: Fn(T, usize) -> T,
    GW: Fn(LengthMismatch) -> String,
>(
    surface: SurfaceFields<T, P>,
    pressure: PressureFields<T>,
    recipe: DerivedRecipe,
    rules: ComputeRules<T, K, A, R, C, N, L, X, B, GD, GU, GS, GM, GW>,
    result: Result<DerivedQueryField<T>, String>,
) -> bool {
    if recipe.spec_is_heavy() {
        result is Err && result->Err_0@ == sampling::heavy_not_sampled(recipe)
    } else {
        match result {
            Ok(field) => exists|computed: DerivedComputedFields<T>|
                compute::computes(
                    surface,
                    pressure,
                    seq![recipe],
                    None,
                    rules,
                    Ok::<DerivedComputedFields<T>, String>(computed),
                ) && #[trigger] sampling::samples(field, recipe, computed, surface.nx, surface.ny),
            Err(message) => compute::computes(
                surface,
                pressure,
                seq![recipe],
                None,
                rules,
                Err::<DerivedComputedFields<T>, String>(message),
            ),
        }
    }
}

proof fn lemma_computed<
    T,
    P,
    K: for<'a> Fn(KernelCall<'a, T>) -> Result<KernelAnswer<T>, String>,
    A: Fn(T, T) -> T,
    R: Fn(T, T) -> T,
    C: Fn(T) -> T,
    N: Fn(T) -> T,
    L: Fn(T, u64) -> bool,
    X: Fn(T, T, u64) -> bool,
    B: Fn(T, T, T, T, u64) -> T,
    GD: Fn(T, T, T, T) -> T,
    GU: Fn(T) -> bool,
    GS: Fn(T, T) -> T,
    GM: Fn(T, usize) -> T,
    GW: Fn(LengthMismatch) -> String,
>(
    surface: SurfaceFields<T, P>,
    pressure: PressureFields<T>,
    list: Seq<DerivedRecipe>,
    rules: ComputeRules<T, K, A, R, C, N, L, X, B, GD, GU, GS, GM, GW>,
    computed: DerivedComputedFields<T>,
    recipe: DerivedRecipe,
)
    requires
        kernel_runs::usable(rules),
        compute::computes(
            surface,
            pressure,
            list,
            None,
            rules,
            Ok::<DerivedComputedFields<T>, String>(computed),
        ),
        list.contains(recipe),
        !recipe.spec_is_heavy(),
    ensures
        computed.slot(recipe) is Some,
{
    let needs = requirements::need_of_all(list);
    let context = choose|context: KernelContext<T>|
        {
            &&& #[trigger] compute::reads(
                context,
                surface,
                pressure,
                pressure.u_ms_3d,
                pressure.v_ms_3d,
                needs,
                None,
                rules,
            )
            &&& *context.volume_u_ms == pressure.u_ms_3d
            &&& *context.volume_v_ms == pressure.v_ms_3d
            &&& compute::outcome(
                context,
                compute::generic_phases(needs),
                list,
                rules,
                Ok::<DerivedComputedFields<T>, String>(computed),
            )
        };
    compute_laws::law_computed_fields_realize_every_recipe(context, list, rules, computed, recipe);
}

fn query_recipe<
    T: Copy + Send + Sync,
    P,
    K: for<'a> Fn(KernelCall<'a, T>) -> Result<KernelAnswer<T>, String> + Sync,
    A: Fn(T, T) -> T + Sync,
    R: Fn(T, T) -> T + Sync,
    C: Fn(T) -> T + Sync,
    N: Fn(T) -> T + Sync,
    L: Fn(T, u64) -> bool + Sync,
    X: Fn(T, T, u64) -> bool + Sync,
    B: Fn(T, T, T, T, u64) -> T + Sync,
    GD: Fn(T, T, T, T) -> T + Sync,
    GU: Fn(T) -> bool + Sync,
    GS: Fn(T, T) -> T + Sync,
    GM: Fn(T, usize) -> T + Sync,
    GW: Fn(LengthMismatch) -> String + Sync,
>(
    surface: &SurfaceFields<T, P>,
    pressure: &PressureFields<T>,
    recipe: DerivedRecipe,
    rules: &ComputeRules<T, K, A, R, C, N, L, X, B, GD, GU, GS, GM, GW>,
) -> (result: Result<DerivedQueryField<T>, String>)
    requires
        kernel_runs::usable(*rules),
        surface.nx * surface.ny <= usize::MAX,
        pressure.pressure_levels_hpa@.len() * (surface.nx * surface.ny) <= usize::MAX,
        compute::inputs_can_be_had(
            *surface,
            *pressure,
            requirements::need_of_all(seq![recipe]),
            false,
            rules.run,
        ),
    ensures
        queried(*surface, *pressure, recipe, *rules, result),
{
    if recipe.is_heavy() {
        return Err(heavy_refusal(recipe));
    }
    let list = [recipe];
    proof {
        assert(list@ =~= seq![recipe]);
        assert(list@[0] == recipe);
    }
    match compute_derived_fields_generic(surface, pressure, &list, rules) {
        Ok(computed) => {
            proof {
                lemma_computed(*surface, *pressure, list@, *rules, computed, recipe);
            }
            let result = derived_query_field_from_computed(
                surface.nx,
                surface.ny,
                recipe,
                &computed,
            );
            proof {
                assert(sampling::samples(
                    result->Ok_0,
                    recipe,
                    computed,
                    surface.nx,
                    surface.ny,
                ));
            }
            result
        },
        Err(message) => Err(message),
    }
}

/// Computes the field of the recipe that a slug names. Heavy recipes are refused.
pub fn compute_derived_query_field<
    T: Copy + Send + Sync,
    P,
    K: for<'a> Fn(KernelCall<'a, T>) -> Result<KernelAnswer<T>, String> + Sync,
    A: Fn(T, T) -> T + Sync,
    R: Fn(T, T) -> T + Sync,
    C: Fn(T) -> T + Sync,
    N: Fn(T) -> T + Sync,
    L: Fn(T, u64) -> bool + Sync,
    X: Fn(T, T, u64) -> bool + Sync,
    B: Fn(T, T, T, T, u64) -> T + Sync,
    GD: Fn(T, T, T, T) -> T + Sync,
    GU: Fn(T) -> bool + Sync,
    GS: Fn(T, T) -> T + Sync,
    GM: Fn(T, usize) -> T + Sync,
    GW: Fn(LengthMismatch) -> String + Sync,
>(
    surface: &SurfaceFields<T, P>,
    pressure: &PressureFields<T>,
    recipe_slug: &str,
    rules: &ComputeRules<T, K, A, R, C, N, L, X, B, GD, GU, GS, GM, GW>,
) -> (result: Result<DerivedQueryField<T>, String>)
    requires
        kernel_runs::usable(*rules),
        surface.nx * surface.ny <= usize::MAX,
        pressure.pressure_levels_hpa@.len() * (surface.nx * surface.ny) <= usize::MAX,
        planning::named(recipe_slug@) matches Some(recipe) ==> compute::inputs_can_be_had(
            *surface,
            *pressure,
            requirements::need_of_all(seq![recipe]),
            false,
            rules.run,
        ),
    ensures
        match planning::named(recipe_slug@) {
            Some(recipe) => queried(*surface, *pressure, recipe, *rules, result),
            None => result is Err && result->Err_0@ == recipes::rejection(
                recipes::normalized_slug(recipe_slug@),
            ),
        },
{
    match sampled_recipe(recipe_slug) {
        Ok(recipe) => query_recipe(surface, pressure, recipe, rules),
        Err(message) => Err(message),
    }
}

/// The fields among some query results, in order.
pub open spec fn fields_of<T>(results: Seq<Result<DerivedQueryField<T>, String>>) -> Seq<
    DerivedQueryField<T>,
>
    decreases results.len(),
{
    if results.len() == 0 {
        Seq::empty()
    } else {
        match results.last() {
            Ok(field) => fields_of(results.drop_last()).push(field),
            Err(_) => fields_of(results.drop_last()),
        }
    }
}

/// The places of the failures among some query results, in order.
pub open spec fn failures_of<T>(results: Seq<Result<DerivedQueryField<T>, String>>) -> Seq<int>
    decreases results.len(),
{
    if results.len() == 0 {
        Seq::empty()
    } else {
        match results.last() {
            Ok(_) => failures_of(results.drop_last()),
            Err(_) => failures_of(results.drop_last()).push(results.len() - 1),
        }
    }
}

/// Whether a blocker tells that a recipe failed by itself as well.
pub open spec fn reports_failure(
    blocker: DerivedRecipeBlocker,
    recipe: DerivedRecipe,
    shared_err: Seq<char>,
    err: Seq<char>,
) -> bool {
    &&& blocker.recipe_slug@ == recipe.spec_slug()@
    &&& blocker.source_route == ProductSourceRoute::CanonicalDerived
    &&& blocker.reason@ == "shared derived compute failed: "@ + shared_err + "; recipe failed: "@
        + err
}

/// Whether each recipe of a list was queried by itself.
pub open spec fn all_queried<
    T,
    P,
    K: for<'a> Fn(KernelCall<'a, T>) -> Result<KernelAnswer<T>, String>,
    A: Fn(T, T) -> T,
    R: Fn(T, T) -> T,
    C: Fn(T) -> T,
    N: Fn(T) -> T,
    L: Fn(T, u64) -> bool,
    X: Fn(T, T, u64) -> bool,
    B: Fn(T, T, T, T, u64) -> T,
    GD: Fn(T, T, T, T) -> T,
    GU: Fn(T) -> bool,
    GS: Fn(T, T) -> T,
    GM: Fn(T, usize) -> T,
    GW: Fn(LengthMismatch) -> String,
>(
    surface: SurfaceFields<T, P>,
    pressure: PressureFields<T>,
    list: Seq<DerivedRecipe>,
    rules: ComputeRules<T, K, A, R, C, N, L, X, B, GD, GU, GS, GM, GW>,
    results: Seq<Result<DerivedQueryField<T>, String>>,
) -> bool {
    &&& results.len() == list.len()
    &&& forall|i: int|
        0 <= i < list.len() ==> queried(surface, pressure, list[i], rules, #[trigger] results[i])
}

/// Whether what was sampled is what the recipes of a list gave when each was
/// tried by itself.
pub open spec fn sampled_singly<T>(
    list: Seq<DerivedRecipe>,
    results: Seq<Result<DerivedQueryField<T>, String>>,
    shared_err: Seq<char>,
    sampled: DerivedSampledFields<T>,
) -> bool {
    let failures = failures_of(results);
    &&& sampled.fields@ == fields_of(results)
    &&& sampled.blockers@.len() == failures.len()
    &&& forall|i: int|
        0 <= i < failures.len() ==> reports_failure_at(
            #[trigger] sampled.blockers@[i],
            list,
            results,
            shared_err,
            failures[i],
        )
}

/// Whether a blocker tells of the failure at one place of a list.
pub open spec fn reports_failure_at<T>(
    blocker: DerivedRecipeBlocker,
    list: Seq<DerivedRecipe>,
    results: Seq<Result<DerivedQueryField<T>, String>>,
    shared_err: Seq<char>,
    place: int,
) -> bool {
    &&& 0 <= place < results.len()
    &&& results[place] is Err
    &&& reports_failure(blocker, list[place], shared_err, results[place]->Err_0@)
}

/// Whether what was sampled is the field of each recipe of a list that is not heavy,
/// and a blocker for each that is.
pub open spec fn sampled_together<T>(
    list: Seq<DerivedRecipe>,
    computed: DerivedComputedFields<T>,
    nx: usize,
    ny: usize,
    sampled: DerivedSampledFields<T>,
) -> bool {
    let light = store::of_weight(list, false);
    let heavy = store::of_weight(list, true);
    &&& sampled.fields@.len() == light.len()
    &&& forall|i: int|
        0 <= i < light.len() ==> sampling::samples(
            #[trigger] sampled.fields@[i],
            light[i],
            computed,
            nx,
            ny,
        )
    &&& sampled.blockers@.len() == heavy.len()
    &&& forall|i: int|
        0 <= i < heavy.len() ==> sampling::reports_gap(
            #[trigger] sampled.blockers@[i],
            heavy[i],
        )
}

/// Whether a list of recipes is sampled: all together, or each by itself after
/// all together have failed.
pub open spec fn samples_list<
    T,
    P,
    K: for<'a> Fn(KernelCall<'a, T>) -> Result<KernelAnswer<T>, String>,
    A: Fn(T, T) -> T,
    R: Fn(T, T) -> T,
    C: Fn(T) -> T,
    N: Fn(T) -> T,
    L: Fn(T, u64) -> bool,
    X: Fn(T, T, u64) -> bool,
    B: Fn(T, T, T, T, u64) -> T,
    GD: Fn(T, T, T, T) -> T,
    GU: Fn(T) -> bool,
    GS: Fn(T, T) -> T,
    GM: Fn(T, usize) -> T,
    GW: Fn(LengthMismatch) -> String,
>(
    surface: SurfaceFields<T, P>,
    pressure: PressureFields<T>,
    list: Seq<DerivedRecipe>,
    rules: ComputeRules<T, K, A, R, C, N, L, X, B, GD, GU, GS, GM, GW>,
    sampled: DerivedSampledFields<T>,
) -> bool {
    ||| exists|computed: DerivedComputedFields<T>|
        compute::computes(
            surface,
            pressure,
            list,
            None,
            rules,
            Ok::<DerivedComputedFields<T>, String>(computed),
        ) && #[trigger] sampled_together(list, computed, surface.nx, surface.ny, sampled)
    ||| exists|shared_err: String, results: Seq<Result<DerivedQueryField<T>, String>>|
        compute::computes(
            surface,
            pressure,
            list,
            None,
            rules,
            Err::<DerivedComputedFields<T>, String>(shared_err),
        ) && all_queried(surface, pressure, list, rules, results) && #[trigger] sampled_singly(
            list,
            results,
            shared_err@,
            sampled,
        )
}

proof fn lemma_all_have_fields<T>(
    list: Seq<DerivedRecipe>,
    computed: DerivedComputedFields<T>,
)
    requires
        forall|i: int|
            0 <= i < list.len() ==> (computed.slot(#[trigger] list[i]) is Some)
                != list[i].spec_is_heavy(),
    ensures
        sampling::with_field(list, computed, true) == store::of_weight(list, false),
        sampling::with_field(list, computed, false) == store::of_weight(list, true),
    decreases list.len(),
{
    if list.len() > 0 {
        let rest = list.drop_last();
        assert forall|i: int| 0 <= i < rest.len() implies (computed.slot(#[trigger] rest[i])
            is Some) != rest[i].spec_is_heavy() by {
            assert(rest[i] == list[i]);
        }
        lemma_all_have_fields(rest, computed);
        assert(list[list.len() - 1] == list.last());
    }
}

proof fn lemma_need_of_one(recipe: DerivedRecipe)
    ensures
        requirements::need_of_all(seq![recipe]) == requirements::need_of(recipe),
{
    let one = seq![recipe];
    assert(one.drop_last() =~= Seq::empty());
    assert(one.last() == recipe);
    assert(requirements::need_of_all(one.drop_last()) == requirements::no_need());
    reveal(requirements::either_need);
}

proof fn lemma_inputs_of_one<
    T,
    P,
    K: for<'a> Fn(KernelCall<'a, T>) -> Result<KernelAnswer<T>, String>,
>(
    surface: SurfaceFields<T, P>,
    pressure: PressureFields<T>,
    list: Seq<DerivedRecipe>,
    recipe: DerivedRecipe,
    run: K,
)
    requires
        list.contains(recipe),
        compute::inputs_can_be_had(surface, pressure, requirements::need_of_all(list), false, run),
    ensures
        compute::inputs_can_be_had(
            surface,
            pressure,
            requirements::need_of_all(seq![recipe]),
            false,
            run,
        ),
{
    assemble::lemma_need_is_covered(list, recipe);
    lemma_need_of_one(recipe);
    let all = requirements::need_of_all(list);
    let part = requirements::need_of(recipe);
    assert(part.spec_needs_height_agl() ==> all.spec_needs_height_agl());
    assert(part.spec_needs_grid_spacing() ==> all.spec_needs_grid_spacing());
}

/// Samples a list of recipes. When the computation of all of them together fails,
/// each is tried by itself, and those that fail again are reported with both
/// messages. Heavy recipes are reported either way.
pub fn sample_recipes<
    T: Copy + Send + Sync,
    P,
    K: for<'a> Fn(KernelCall<'a, T>) -> Result<KernelAnswer<T>, String> + Sync,
    A: Fn(T, T) -> T + Sync,
    R: Fn(T, T) -> T + Sync,
    C: Fn(T) -> T + Sync,
    N: Fn(T) -> T + Sync,
    L: Fn(T, u64) -> bool + Sync,
    X: Fn(T, T, u64) -> bool + Sync,
    B: Fn(T, T, T, T, u64) -> T + Sync,
    GD: Fn(T, T, T, T) -> T + Sync,
    GU: Fn(T) -> bool + Sync,
    GS: Fn(T, T) -> T + Sync,
    GM: Fn(T, usize) -> T + Sync,
    GW: Fn(LengthMismatch) -> String + Sync,
>(
    surface: &SurfaceFields<T, P>,
    pressure: &PressureFields<T>,
    list: &[DerivedRecipe],
    rules: &ComputeRules<T, K, A, R, C, N, L, X, B, GD, GU, GS, GM, GW>,
) -> (sampled: DerivedSampledFields<T>)
    requires
        kernel_runs::usable(*rules),
        surface.nx * surface.ny <= usize::MAX,
        pressure.pressure_levels_hpa@.len() * (surface.nx * surface.ny) <= usize::MAX,
        compute::inputs_can_be_had(
            *surface,
            *pressure,
            requirements::need_of_all(list@),
            false,
            rules.run,
        ),
    ensures
        samples_list(*surface, *pressure, list@, *rules, sampled),
{
    match compute_derived_fields_generic(surface, pressure, list, rules) {
        Ok(computed) => {
            proof {
                assert forall|i: int| 0 <= i < list@.len() implies (computed.slot(
                    #[trigger] list@[i],
                ) is Some) != list@[i].spec_is_heavy() by {
                    assert(list@.contains(list@[i]));
                    if !list@[i].spec_is_heavy() {
                        lemma_computed(*surface, *pressure, list@, *rules, computed, list@[i]);
                    }
                }
                lemma_all_have_fields(list@, computed);
            }
            let sampled = sample_computed_fields(surface.nx, surface.ny, list, &computed);
            proof {
                assert(sampled_together(list@, computed, surface.nx, surface.ny, sampled));
            }
            sampled
        },
        Err(shared_err) => {
            let mut fields: Vec<DerivedQueryField<T>> = Vec::new();
            let mut blockers: Vec<DerivedRecipeBlocker> = Vec::new();
            let ghost mut results: Seq<Result<DerivedQueryField<T>, String>> = Seq::empty();
            let mut i: usize = 0;
            while i < list.len()
                invariant
                    i <= list@.len(),
                    kernel_runs::usable(*rules),
                    surface.nx * surface.ny <= usize::MAX,
                    pressure.pressure_levels_hpa@.len() * (surface.nx * surface.ny) <= usize::MAX,
                    compute::inputs_can_be_had(
                        *surface,
                        *pressure,
                        requirements::need_of_all(list@),
                        false,
                        rules.run,
                    ),
                    results.len() == i,
                    forall|k: int|
                        0 <= k < i ==> queried(
                            *surface,
                            *pressure,
                            list@[k],
                            *rules,
                            #[trigger] results[k],
                        ),
                    fields@ == fields_of(results),
                    blockers@.len() == failures_of(results).len(),
                    forall|k: int|
                        0 <= k < blockers@.len() ==> reports_failure_at(
                            #[trigger] blockers@[k],
                            list@,
                            results,
                            shared_err@,
                            failures_of(results)[k],
                        ),
                decreases list@.len() - i,
            {
                let recipe = list[i];
                proof {
                    assert(list@.contains(list@[i as int]));
                    lemma_inputs_of_one(*surface, *pressure, list@, recipe, rules.run);
                }
                let ghost before = results;
                let ghost blocked = blockers@;
                let result = query_recipe(surface, pressure, recipe, rules);
                proof {
                    results = results.push(result);
                    assert(results.drop_last() =~= before);
                }
                match result {
                    Ok(field) => {
                        fields.push(field);
                    },
                    Err(message) => {
                        blockers.push(
                            recipe_failed(recipe, shared_err.as_str(), message.as_str()),
                        );
                    },
                }
                proof {
                    let failures = failures_of(results);
                    assert forall|k: int| 0 <= k < blockers@.len() implies reports_failure_at(
                        #[trigger] blockers@[k],
                        list@,
                        results,
                        shared_err@,
                        failures[k],
                    ) by {
                        if k < blocked.len() {
                            assert(blockers@[k] == blocked[k]);
                            assert(failures[k] == failures_of(before)[k]);
                            assert(results[failures[k]] == before[failures[k]]);
                        } else {
                            assert(failures[k] == i);
                        }
                    }
                }
                i = i + 1;
            }
            let sampled = DerivedSampledFields { fields, blockers };
            proof {
                assert(all_queried(*surface, *pressure, list@, *rules, results));
                assert(sampled_singly(list@, results, shared_err@, sampled));
            }
            sampled
        },
    }
}

/// Samples the recipes that a list of slugs names, each once.
pub fn sample_derived_fields<
    T: Copy + Send + Sync,
    P,
    K: for<'a> Fn(KernelCall<'a, T>) -> Result<KernelAnswer<T>, String> + Sync,
    A: Fn(T, T) -> T + Sync,
    R: Fn(T, T) -> T + Sync,
    C: Fn(T) -> T + Sync,
    N: Fn(T) -> T + Sync,
    L: Fn(T, u64) -> bool + Sync,
    X: Fn(T, T, u64) -> bool + Sync,
    B: Fn(T, T, T, T, u64) -> T + Sync,
    GD: Fn(T, T, T, T) -> T + Sync,
    GU: Fn(T) -> bool + Sync,
    GS: Fn(T, T) -> T + Sync,
    GM: Fn(T, usize) -> T + Sync,
    GW: Fn(LengthMismatch) -> String + Sync,
>(
    surface: &SurfaceFields<T, P>,
    pressure: &PressureFields<T>,
    recipe_slugs: &[String],
    rules: &ComputeRules<T, K, A, R, C, N, L, X, B, GD, GU, GS, GM, GW>,
) -> (sampled: Result<DerivedSampledFields<T>, String>)
    requires
        kernel_runs::usable(*rules),
        surface.nx * surface.ny <= usize::MAX,
        pressure.pressure_levels_hpa@.len() * (surface.nx * surface.ny) <= usize::MAX,
        compute::inputs_can_be_had(
            *surface,
            *pressure,
            requirements::need_of_all(
                planning::first_seen(planning::all_named(recipe_slugs@)),
            ),
            false,
            rules.run,
        ),
    ensures
        match sampled {
            Ok(sampled) => {
                &&& forall|k: int|
                    0 <= k < recipe_slugs@.len() ==> planning::named((#[trigger] recipe_slugs@[k])@)
                        is Some
                &&& samples_list(
                    *surface,
                    *pressure,
                    planning::first_seen(planning::all_named(recipe_slugs@)),
                    *rules,
                    sampled,
                )
            },
            Err(message) => exists|i: int|
                #[trigger] planning::first_unnamed(recipe_slugs@, i) && message@
                    == planning::unnamed_message(recipe_slugs@[i]@),
        },
{
    let list = match plan_derived_recipes(recipe_slugs) {
        Ok(list) => list,
        Err(message) => {
            return Err(message);
        },
    };
    Ok(sample_recipes(surface, pressure, list.as_slice(), rules))
}

} // verus!
