//! What a store holds in narrow values against what the analyses give in wide ones.
use crate::derived::assemble;
use crate::derived::assemble::TakenWindVolumes;
use crate::derived::compute;
use crate::derived::fields;
use crate::derived::fields::DerivedComputedFields;
use crate::derived::kernel_runs::{ComputeRules, KernelAnswer, KernelCall};
use crate::derived::levels::LengthMismatch;
use crate::derived::phased;
use crate::derived::recipes::DerivedRecipe;
use crate::derived::settled_laws;
use crate::derived::store;
use crate::derived::store::{StoreDerivedGrid, StoreHeavyGrids};
use crate::derived::store_compute;
use crate::derived::store_inputs;
use crate::derived::store_inputs::StoreComputeInputs;
use crate::ecape_compute;
use crate::ecape_compute::{EcapeAnswer, EcapeCall};
use crate::ecape_settled;
use crate::gridded::fields::{PressureFields, SurfaceFields};
use crate::gridded::heavy_volume::{HeightRules, PreparedHeavyVolume};
use crate::panel;
use crate::panel::WeatherPanelField;
use vstd::prelude::*;

verus! {

/// Whether narrow grids are wide ones under the same names and units, converted value
/// by value.
pub open spec fn grids_agree<T, U, F: Fn(T) -> U>(
    wide: Seq<StoreDerivedGrid<T>>,
    narrow: F,
    grids: Seq<StoreDerivedGrid<U>>,
) -> bool {
    &&& grids.len() == wide.len()
    &&& forall|i: int|
        0 <= i < grids.len() ==> {
            &&& (#[trigger] grids[i]).slug@ == wide[i].slug@
            &&& grids[i].units@ == wide[i].units@
            &&& store::narrowed(wide[i].values@, narrow, grids[i].values@)
        }
}

proof fn lemma_grids_agree<T, U, F: Fn(T) -> U>(
    a: DerivedComputedFields<T>,
    b: DerivedComputedFields<T>,
    wide: Seq<StoreDerivedGrid<T>>,
    narrow: F,
    grids: Seq<StoreDerivedGrid<U>>,
)
    requires
        settled_laws::same_fields(a, b),
        store_compute::narrowed_grids_of(a, narrow, grids),
        store_compute::grids_of(b, wide),
    ensures
        grids_agree(wide, narrow, grids),
{
    let recipes = store::stored_recipes(false);
    assert forall|i: int| 0 <= i < grids.len() implies {
        &&& (#[trigger] grids[i]).slug@ == wide[i].slug@
        &&& grids[i].units@ == wide[i].units@
        &&& store::narrowed(wide[i].values@, narrow, grids[i].values@)
    } by {
        assert(store::stores_narrowed(grids[i], recipes[i], a, narrow));
        assert(store::stores(wide[i], recipes[i], b));
        assert(fields::field_view(a.slot(recipes[i])) == fields::field_view(b.slot(recipes[i])));
    }
}

/// The derived stage of a store and the computation of the same grids from the whole
/// pair of analyses agree, where the kernels and the arithmetic give one answer each:
/// both succeed, with the same recipes in the same order under the same names and
/// units and with each value converted, or both fail. The wind volumes that are to be
/// kept are then back in their place, and are gone otherwise.
#[verifier::rlimit(40)]
pub proof fn law_narrow_and_wide_derived_grids_agree<
    T,
    P,
    K: for<'a> Fn(KernelCall<'a, T>) -> Result<KernelAnswer<T>, String>,
    A: Fn(T, T) -> T,
    R: Fn(T, T) -> T,
    C: Fn(T) -> T,
    N: Fn(T) -> T,
    L: Fn(T, u64) -> bool,
    X: Fn(T, T, u64) -> bool,
    B: Fn(T, T, T, T, u64) -> T,
    GD: Fn(T, T, T, T) -> T,
    GU: Fn(T) -> bool,
    GS: Fn(T, T) -> T,
    GM: Fn(T, usize) -> T,
    GW: Fn(LengthMismatch) -> String,
    U,
    F: Fn(T) -> U,
>(
    surface: SurfaceFields<T, P>,
    pressure: PressureFields<T>,
    before: StoreComputeInputs<T, P>,
    after: StoreComputeInputs<T, P>,
    keep_winds: bool,
    rules: ComputeRules<T, K, A, R, C, N, L, X, B, GD, GU, GS, GM, GW>,
    narrow: F,
    grids: Result<Vec<StoreDerivedGrid<U>>, String>,
    wide: Result<Vec<StoreDerivedGrid<T>>, String>,
)
    requires
        settled_laws::settled(rules),
        store_inputs::takes_over(surface, pressure, rules.above, rules.raise, before),
        store_compute::derived_stage(before, after, keep_winds, rules, narrow, grids),
        store_compute::wide_stage(surface, pressure, rules, wide),
    ensures
        grids is Ok <==> wide is Ok,
        grids is Ok ==> grids_agree(wide->Ok_0@, narrow, grids->Ok_0@),
        grids is Ok && keep_winds ==> after.pressure.u_ms_3d == pressure.u_ms_3d
            && after.pressure.v_ms_3d == pressure.v_ms_3d,
        !(grids is Ok && keep_winds) ==> after.pressure.u_ms_3d@.len() == 0
            && after.pressure.v_ms_3d@.len() == 0,
{
    let recipes = store::stored_recipes(false);
    let winds = TakenWindVolumes {
        u_ms_3d: before.pressure.u_ms_3d,
        v_ms_3d: before.pressure.v_ms_3d,
    };
    let kept = assemble::winds_kept(winds, keep_winds);
    let given = store_compute::shared_heights(&before);
    let left = choose|left: PressureFields<T>|
        #[trigger] store_inputs::winds_taken(before.pressure, left, winds) && match grids {
            Ok(grids) => after.pressure == store_inputs::winds_restored(left, kept) && exists|
                computed: DerivedComputedFields<T>,
            |
                phased::computes_wind_first(
                    before.surface,
                    left,
                    winds,
                    recipes,
                    given,
                    keep_winds,
                    rules,
                    Ok((computed, kept)),
                ) && #[trigger] store_compute::narrowed_grids_of(computed, narrow, grids@),
            Err(message) => after.pressure == left && phased::computes_wind_first(
                before.surface,
                left,
                winds,
                recipes,
                given,
                keep_winds,
                rules,
                Err(message),
            ),
        };
    let stored = match grids {
        Ok(grids) => choose|computed: DerivedComputedFields<T>|
            phased::computes_wind_first(
                before.surface,
                left,
                winds,
                recipes,
                given,
                keep_winds,
                rules,
                Ok((computed, kept)),
            ) && #[trigger] store_compute::narrowed_grids_of(computed, narrow, grids@),
        Err(_) => DerivedComputedFields::none(),
    };
    let own = match wide {
        Ok(grids) => choose|computed: DerivedComputedFields<T>|
            compute::computes(
                surface,
                pressure,
                recipes,
                None,
                rules,
                Ok::<DerivedComputedFields<T>, String>(computed),
            ) && #[trigger] store_compute::grids_of(computed, grids@),
        Err(_) => DerivedComputedFields::none(),
    };
    let x = match grids {
        Ok(_) => Ok((stored, kept)),
        Err(message) => Err(message),
    };
    let y = match wide {
        Ok(_) => Ok(own),
        Err(message) => Err(message),
    };
    settled_laws::law_phased_and_generic_end_alike(
        surface,
        pressure,
        left,
        winds,
        recipes,
        given,
        keep_winds,
        rules,
        x,
        y,
    );
    if grids is Ok {
        lemma_grids_agree(stored, own, wide->Ok_0@, narrow, grids->Ok_0@);
    }
}

proof fn lemma_first_alike<T>(
    a: Seq<WeatherPanelField<T>>,
    b: Seq<WeatherPanelField<T>>,
    slug: Seq<char>,
)
    requires
        ecape_settled::same_list(a, b),
    ensures
        panel::first_with_slug(a, slug) == panel::first_with_slug(b, slug),
    decreases a.len(),
{
    if a.len() > 0 {
        let last = a.len() - 1;
        assert forall|i: int| 0 <= i < last implies ecape_settled::same_field(
            #[trigger] a.drop_last()[i],
            b.drop_last()[i],
        ) by {
            assert(ecape_settled::same_field(a[i], b[i]));
        }
        lemma_first_alike(a.drop_last(), b.drop_last(), slug);
        assert(ecape_settled::same_field(a[last], b[last]));
    }
}

proof fn lemma_left_alike<T>(
    recipes: Seq<DerivedRecipe>,
    a: Seq<WeatherPanelField<T>>,
    b: Seq<WeatherPanelField<T>>,
)
    requires
        ecape_settled::same_list(a, b),
    ensures
        ecape_settled::same_list(store::left_after(recipes, a), store::left_after(recipes, b)),
    decreases recipes.len(),
{
    if recipes.len() > 0 {
        lemma_left_alike(recipes.drop_last(), a, b);
        let p = store::left_after(recipes.drop_last(), a);
        let q = store::left_after(recipes.drop_last(), b);
        let slug = recipes.last().spec_slug()@;
        lemma_first_alike(p, q, slug);
        panel::lemma_first_with_slug(p, slug);
        if panel::first_with_slug(p, slug) is Some {
            let index = panel::first_with_slug(p, slug)->Some_0;
            let x = p.update(index, p.last()).drop_last();
            let y = q.update(index, q.last()).drop_last();
            assert forall|i: int| 0 <= i < x.len() implies ecape_settled::same_field(
                #[trigger] x[i],
                y[i],
            ) by {
                assert(ecape_settled::same_field(p[i], q[i]));
                assert(ecape_settled::same_field(p[p.len() - 1], q[q.len() - 1]));
            }
        }
    }
}

proof fn lemma_taken_alike<T>(
    recipes: Seq<DerivedRecipe>,
    a: Seq<WeatherPanelField<T>>,
    b: Seq<WeatherPanelField<T>>,
    place: int,
)
    requires
        ecape_settled::same_list(a, b),
    ensures
        store::taken_at(recipes, a, place) is Some <==> store::taken_at(recipes, b, place) is Some,
        store::taken_at(recipes, a, place) is Some ==> ecape_settled::same_field(
            store::taken_at(recipes, a, place)->Some_0,
            store::taken_at(recipes, b, place)->Some_0,
        ),
{
    lemma_left_alike(recipes.take(place), a, b);
    let p = store::left_after(recipes.take(place), a);
    let q = store::left_after(recipes.take(place), b);
    let slug = recipes[place].spec_slug()@;
    lemma_first_alike(p, q, slug);
    panel::lemma_first_with_slug(p, slug);
    if panel::first_with_slug(p, slug) is Some {
        let index = panel::first_with_slug(p, slug)->Some_0;
        assert(ecape_settled::same_field(p[index], q[index]));
    }
}

proof fn lemma_places_alike<T>(
    recipes: Seq<DerivedRecipe>,
    a: Seq<WeatherPanelField<T>>,
    b: Seq<WeatherPanelField<T>>,
    found: bool,
    end: int,
)
    requires
        ecape_settled::same_list(a, b),
    ensures
        store::places(recipes, a, found, end) == store::places(recipes, b, found, end),
    decreases end,
{
    if end > 0 {
        lemma_places_alike(recipes, a, b, found, end - 1);
        lemma_taken_alike(recipes, a, b, end - 1);
    }
}

/// Whether narrow heavy grids are wide ones under the same names and units, converted
/// value by value, with the same recipes left out for the same reasons and as many
/// failures.
pub open spec fn heavy_grids_agree<T, U, F: Fn(T) -> U>(
    wide: StoreHeavyGrids<T>,
    narrow: F,
    grids: StoreHeavyGrids<U>,
) -> bool {
    &&& grids_agree(wide.grids@, narrow, grids.grids@)
    &&& grids.skipped@.len() == wide.skipped@.len()
    &&& forall|i: int|
        0 <= i < grids.skipped@.len() ==> {
            &&& (#[trigger] grids.skipped@[i]).slug@ == wide.skipped@[i].slug@
            &&& grids.skipped@[i].reason@ == wide.skipped@[i].reason@
        }
    &&& grids.ecape_failure_count == wide.ecape_failure_count
}

proof fn lemma_heavy_grids_agree<T, U, F: Fn(T) -> U>(
    a: Seq<WeatherPanelField<T>>,
    b: Seq<WeatherPanelField<T>>,
    failure_count: usize,
    stored: StoreHeavyGrids<T>,
    wide: StoreHeavyGrids<T>,
    narrow: F,
    grids: StoreHeavyGrids<U>,
)
    requires
        ecape_settled::same_list(a, b),
        store::maps_heavy_fields(a, failure_count, Ok::<StoreHeavyGrids<T>, String>(stored)),
        store::maps_heavy_fields(b, failure_count, Ok::<StoreHeavyGrids<T>, String>(wide)),
        store_compute::narrowed_heavy(stored, narrow, grids),
    ensures
        heavy_grids_agree(wide, narrow, grids),
{
    let recipes = store::stored_recipes(true);
    let end = recipes.len() as int;
    lemma_places_alike(recipes, a, b, true, end);
    lemma_places_alike(recipes, a, b, false, end);
    let found = store::places(recipes, a, true, end);
    let absent = store::places(recipes, a, false, end);
    assert forall|i: int| 0 <= i < grids.grids@.len() implies {
        &&& (#[trigger] grids.grids@[i]).slug@ == wide.grids@[i].slug@
        &&& grids.grids@[i].units@ == wide.grids@[i].units@
        &&& store::narrowed(wide.grids@[i].values@, narrow, grids.grids@[i].values@)
    } by {
        lemma_taken_alike(recipes, a, b, found[i]);
        assert(store::narrowed_grid(stored.grids@[i], narrow, grids.grids@[i]));
        assert(store::heavy_grid_at(stored.grids@[i], recipes, a, found[i]));
        assert(store::heavy_grid_at(wide.grids@[i], recipes, b, found[i]));
    }
    assert forall|i: int| 0 <= i < grids.skipped@.len() implies {
        &&& (#[trigger] grids.skipped@[i]).slug@ == wide.skipped@[i].slug@
        &&& grids.skipped@[i].reason@ == wide.skipped@[i].reason@
    } by {
        assert(store::heavy_skip_at(stored.skipped@[i], recipes, absent[i]));
        assert(store::heavy_skip_at(wide.skipped@[i], recipes, absent[i]));
    }
}

/// What the fields of a heavy stage ended as.
spec fn fields_behind<
    T,
    P,
    K: for<'a> Fn(EcapeCall<'a, T>) -> Result<EcapeAnswer<T>, String>,
    R: Fn(T, T) -> T,
>(
    surface: SurfaceFields<T, P>,
    pressure: PressureFields<T>,
    prepared: PreparedHeavyVolume<T>,
    run: K,
    ratio: R,
    grids: Result<StoreHeavyGrids<T>, String>,
    behind: Result<(Vec<WeatherPanelField<T>>, usize), String>,
) -> bool {
    &&& ecape_compute::outcome(surface, pressure, prepared, run, ratio, behind)
    &&& match (grids, behind) {
        (Ok(_), Ok(behind)) => store::maps_heavy_fields(behind.0@, behind.1, grids),
        (Err(_), Err(_)) => true,
        _ => false,
    }
}

proof fn lemma_fields_behind<
    T,
    P,
    K: for<'a> Fn(EcapeCall<'a, T>) -> Result<EcapeAnswer<T>, String>,
    R: Fn(T, T) -> T,
>(
    surface: SurfaceFields<T, P>,
    pressure: PressureFields<T>,
    prepared: PreparedHeavyVolume<T>,
    run: K,
    ratio: R,
    grids: Result<StoreHeavyGrids<T>, String>,
) -> (behind: Result<(Vec<WeatherPanelField<T>>, usize), String>)
    requires
        store_compute::heavy_stage(surface, pressure, prepared, run, ratio, grids),
    ensures
        fields_behind(surface, pressure, prepared, run, ratio, grids, behind),
{
    match grids {
        Ok(_) => {
            let (panel_fields, failure_count) = choose|
                panel_fields: Vec<WeatherPanelField<T>>,
                failure_count: usize,
            |
                ecape_compute::outcome(
                    surface,
                    pressure,
                    prepared,
                    run,
                    ratio,
                    Ok::<(Vec<WeatherPanelField<T>>, usize), String>((panel_fields, failure_count)),
                ) && #[trigger] store::maps_heavy_fields(panel_fields@, failure_count, grids);
            Ok((panel_fields, failure_count))
        },
        Err(message) => Err(message),
    }
}

/// The heavy stage of a store and the computation of the same grids from the whole pair
/// of analyses agree, where the kernels and the arithmetic give one answer each: both
/// succeed, with the same recipes under the same names and units and with each value
/// converted, the same recipes left out and as many failures, or both fail.
pub proof fn law_narrow_and_wide_heavy_grids_agree<
    T,
    P,
    K: for<'a> Fn(EcapeCall<'a, T>) -> Result<EcapeAnswer<T>, String>,
    R: Fn(T, T) -> T,
    A: Fn(T, T) -> T,
    S: Fn(T, T) -> T,
    L: Fn(T, T) -> T,
    E: Fn(T) -> T,
    C: Fn(T) -> T,
    U,
    F: Fn(T) -> U,
>(
    surface: SurfaceFields<T, P>,
    pressure: PressureFields<T>,
    inputs: StoreComputeInputs<T, P>,
    prepared: PreparedHeavyVolume<T>,
    heights: HeightRules<T, A, S, L, E, C>,
    run: K,
    ratio: R,
    narrow: F,
    grids: Result<StoreHeavyGrids<U>, String>,
    wide: Result<StoreHeavyGrids<T>, String>,
)
    requires
        ecape_settled::answers_settled(run),
        ecape_settled::heights_settled(heights),
        settled_laws::one_result_of_two(ratio),
        store_inputs::takes_over(surface, pressure, heights.above, heights.raise, inputs),
        store_compute::shared_heavy_stage(inputs, heights, run, ratio, narrow, grids),
        ecape_compute::prepared_from(surface, pressure, heights, prepared),
        store_compute::heavy_stage(surface, pressure, prepared, run, ratio, wide),
    ensures
        grids is Ok <==> wide is Ok,
        grids is Ok ==> heavy_grids_agree(wide->Ok_0, narrow, grids->Ok_0),
{
    store_compute::law_heavy_stage_stores_what_the_analyses_give(
        surface,
        pressure,
        inputs,
        heights,
        run,
        ratio,
        narrow,
        grids,
    );
    let own = choose|own: PreparedHeavyVolume<T>|
        #[trigger] ecape_compute::prepared_from(surface, pressure, heights, own) && match grids {
            Ok(grids) => exists|stored: StoreHeavyGrids<T>|
                store_compute::heavy_stage(surface, pressure, own, run, ratio, Ok(stored))
                    && #[trigger] store_compute::narrowed_heavy(stored, narrow, grids),
            Err(message) => store_compute::heavy_stage(
                surface,
                pressure,
                own,
                run,
                ratio,
                Err::<StoreHeavyGrids<T>, String>(message),
            ),
        };
    let stored = match grids {
        Ok(grids) => Ok(
            choose|stored: StoreHeavyGrids<T>|
                store_compute::heavy_stage(surface, pressure, own, run, ratio, Ok(stored))
                    && #[trigger] store_compute::narrowed_heavy(stored, narrow, grids),
        ),
        Err(message) => Err::<StoreHeavyGrids<T>, String>(message),
    };
    let x = lemma_fields_behind(surface, pressure, own, run, ratio, stored);
    let y = lemma_fields_behind(surface, pressure, prepared, run, ratio, wide);
    ecape_settled::lemma_prepared_alike(surface, pressure, heights, own, prepared);
    ecape_settled::law_ecape_fields_give_one_answer(
        surface,
        pressure,
        own,
        prepared,
        run,
        ratio,
        x,
        y,
    );
    if grids is Ok {
        lemma_heavy_grids_agree(
            x->Ok_0.0@,
            y->Ok_0.0@,
            x->Ok_0.1,
            stored->Ok_0,
            wide->Ok_0,
            narrow,
            grids->Ok_0,
        );
    }
}

} // verus!
