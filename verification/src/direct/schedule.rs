//! In which portions and by how many workers a batch is drawn, and how the results
//! of the workers are put in order.
use crate::derived::presentation;
use crate::direct::planning::PlannedDirectRecipe;
use crate::direct::recipe;
use crate::direct::recipe::{contains_selector, find_field, FieldSelector};
use crate::numbers;
use crate::numbers::parse_positive;
use crate::text;
use vstd::prelude::*;
use vstd::string::*;

verus! {

/// How many recipes a portion holds unless a setting says otherwise.
pub const DEFAULT_RENDER_CHUNK: usize = 16;

/// How many recipes a portion holds: the positive number of the setting, or the
/// default.
pub fn direct_render_chunk_size(setting: Option<&str>) -> (size: usize)
    ensures
        size == numbers::positive_setting(
            presentation::optional(setting),
            DEFAULT_RENDER_CHUNK as int,
        ),
        size > 0,
{
    match parse_positive(setting) {
        Some(size) => size,
        None => DEFAULT_RENDER_CHUNK,
    }
}

/// The portions of a list from a place on, each with its first place and the place
/// behind its last. A portion holds `size` items, the last one perhaps fewer.
pub open spec fn portions(len: int, size: int, from: int) -> Seq<(int, int)>
    decreases len - from,
{
    if size <= 0 || from >= len {
        Seq::empty()
    } else if from + size >= len {
        seq![(from, len)]
    } else {
        seq![(from, from + size)] + portions(len, size, from + size)
    }
}

/// The portions of a list as numbers.
pub open spec fn ranges(list: Seq<(usize, usize)>) -> Seq<(int, int)> {
    Seq::new(list.len(), |i: int| (list[i].0 as int, list[i].1 as int))
}

/// Parts a list into portions of at least one item.
pub fn render_chunks(len: usize, chunk_recipes: usize) -> (chunks: Vec<(usize, usize)>)
    ensures
        ranges(chunks@) == portions(
            len as int,
            if chunk_recipes < 1 {
                1
            } else {
                chunk_recipes as int
            },
            0,
        ),
{
    let size: usize = if chunk_recipes < 1 {
        1
    } else {
        chunk_recipes
    };
    let mut chunks: Vec<(usize, usize)> = Vec::new();
    let mut from: usize = 0;
    let ghost all = portions(len as int, size as int, 0);
    proof {
        assert(ranges(chunks@) + all =~= all);
    }
    while from < len
        invariant
            from <= len,
            size >= 1,
            ranges(chunks@) + portions(len as int, size as int, from as int) == all,
        decreases len - from,
    {
        let to: usize = if len - from <= size {
            len
        } else {
            from + size
        };
        let ghost held = ranges(chunks@);
        chunks.push((from, to));
        proof {
            assert(ranges(chunks@) =~= held.push((from as int, to as int)));
            assert(ranges(chunks@) + portions(len as int, size as int, to as int) =~= held
                + portions(len as int, size as int, from as int));
        }
        from = to;
    }
    proof {
        assert(portions(len as int, size as int, from as int) =~= Seq::empty());
        assert(ranges(chunks@) =~= all);
    }
    chunks
}

/// What the items of a list give, portion after portion.
pub open spec fn in_portions<A>(list: Seq<A>, parts: Seq<(int, int)>) -> Seq<A>
    decreases parts.len(),
{
    if parts.len() == 0 {
        Seq::empty()
    } else {
        list.subrange(parts[0].0, parts[0].1) + in_portions(list, parts.drop_first())
    }
}

/// The portions of a list are the list: no item is left out, repeated or moved.
pub proof fn law_portions_are_the_list<A>(list: Seq<A>, size: int)
    requires
        size >= 1,
    ensures
        in_portions(list, portions(list.len() as int, size, 0)) == list,
{
    lemma_portions_from(list, size, 0);
    assert(list.skip(0) =~= list);
}

proof fn lemma_portions_from<A>(list: Seq<A>, size: int, from: int)
    requires
        size >= 1,
        0 <= from <= list.len(),
    ensures
        in_portions(list, portions(list.len() as int, size, from)) == list.skip(from),
    decreases list.len() - from,
{
    let parts = portions(list.len() as int, size, from);
    if from < list.len() {
        if from + size >= list.len() {
            assert(parts[0] == (from, list.len() as int));
            assert(parts.drop_first() =~= Seq::empty());
            assert(in_portions(list, parts.drop_first()) =~= Seq::empty());
            assert(list.subrange(from, list.len() as int) + Seq::<A>::empty() =~= list.skip(from));
        } else {
            assert(parts[0] == (from, from + size));
            assert(parts.drop_first() =~= portions(list.len() as int, size, from + size));
            lemma_portions_from(list, size, from + size);
            assert(list.subrange(from, from + size) + list.skip(from + size) =~= list.skip(from));
        }
    } else {
        assert(list.skip(from) =~= Seq::empty());
    }
}

/// The selectors of the recipes of a plan, one recipe after another.
pub open spec fn read_in_turn<'a>(planned: Seq<PlannedDirectRecipe<'a>>) -> Seq<FieldSelector>
    decreases planned.len(),
{
    if planned.len() == 0 {
        Seq::empty()
    } else {
        text::with_all_distinct(
            read_in_turn(planned.drop_last()),
            planned.last().plan.selectors@,
        )
    }
}

/// The selectors that the recipes of a portion read, each once, in the order in
/// which they are loaded.
pub fn selectors_to_load<'a>(planned: &[PlannedDirectRecipe<'a>]) -> (selectors: Vec<FieldSelector>)
    ensures
        selectors@ == read_in_turn(planned@),
{
    let mut selectors: Vec<FieldSelector> = Vec::new();
    let mut i: usize = 0;
    proof {
        assert(planned@.take(0) =~= Seq::empty());
    }
    while i < planned.len()
        invariant
            i <= planned@.len(),
            selectors@ == read_in_turn(planned@.take(i as int)),
        decreases planned@.len() - i,
    {
        let ghost before = selectors@;
        let ghost items = planned@[i as int].plan.selectors@;
        let mut j: usize = 0;
        proof {
            assert(planned@.take(i + 1).drop_last() == planned@.take(i as int));
            assert(items.take(0) =~= Seq::empty());
        }
        while j < planned[i].plan.selectors.len()
            invariant
                i < planned@.len(),
                j <= items.len(),
                items == planned@[i as int].plan.selectors@,
                selectors@ == text::with_all_distinct(before, items.take(j as int)),
            decreases items.len() - j,
        {
            let selector = planned[i].plan.selectors[j];
            proof {
                assert(items.take(j + 1).drop_last() == items.take(j as int));
            }
            if !contains_selector(selectors.as_slice(), selector) {
                selectors.push(selector);
            }
            j = j + 1;
        }
        proof {
            assert(items.take(j as int) == items);
        }
        i = i + 1;
    }
    proof {
        assert(planned@.take(i as int) == planned@);
    }
    selectors
}

/// Everything that a recipe of a plan reads is loaded.
pub proof fn law_everything_read_is_loaded<'a>(
    planned: Seq<PlannedDirectRecipe<'a>>,
    item: int,
    selector: FieldSelector,
)
    requires
        0 <= item < planned.len(),
        planned[item].plan.selectors@.contains(selector),
    ensures
        read_in_turn(planned).contains(selector),
    decreases planned.len(),
{
    let init = planned.drop_last();
    text::lemma_with_all_distinct(read_in_turn(init), planned.last().plan.selectors@);
    if item < init.len() {
        assert(init[item] == planned[item]);
        law_everything_read_is_loaded(init, item, selector);
    }
}

/// Nothing is loaded that no recipe of a plan reads.
pub proof fn lemma_only_read_is_loaded<'a>(
    planned: Seq<PlannedDirectRecipe<'a>>,
    selector: FieldSelector,
)
    requires
        read_in_turn(planned).contains(selector),
    ensures
        exists|item: int|
            0 <= item < planned.len() && (#[trigger] planned[item]).plan.selectors@.contains(
                selector,
            ),
    decreases planned.len(),
{
    let init = planned.drop_last();
    text::lemma_with_all_distinct(read_in_turn(init), planned.last().plan.selectors@);
    if read_in_turn(init).contains(selector) {
        lemma_only_read_is_loaded(init, selector);
        let item = choose|item: int|
            0 <= item < init.len() && (#[trigger] init[item]).plan.selectors@.contains(selector);
        assert(planned[item] == init[item]);
    } else {
        assert(planned[planned.len() - 1] == planned.last());
    }
}

/// The portions of a list lie in it.
pub proof fn lemma_portions_lie_within(len: int, size: int, from: int)
    requires
        0 <= from,
    ensures
        forall|k: int|
            0 <= k < portions(len, size, from).len() ==> from <= (#[trigger] portions(
                len,
                size,
                from,
            )[k]).0 <= portions(len, size, from)[k].1 <= len,
    decreases len - from,
{
    if size > 0 && from < len && from + size < len {
        lemma_portions_lie_within(len, size, from + size);
        let rest = portions(len, size, from + size);
        let all = portions(len, size, from);
        assert forall|k: int| 0 <= k < all.len() implies from <= (#[trigger] all[k]).0 <= all[k].1
            <= len by {
            if k > 0 {
                assert(all[k] == rest[k - 1]);
            }
        }
    }
}

/// There are as many portions as it takes to hold a list.
pub proof fn lemma_portions_hold_the_list(len: int, size: int, from: int)
    requires
        size >= 1,
        0 <= from,
    ensures
        len - from <= portions(len, size, from).len() * size,
        from < len ==> (portions(len, size, from).len() - 1) * size < len - from,
        from >= len ==> portions(len, size, from).len() == 0,
    decreases len - from,
{
    let all = portions(len, size, from).len() as int;
    if from < len {
        if from + size < len {
            lemma_portions_hold_the_list(len, size, from + size);
            let rest = portions(len, size, from + size).len() as int;
            assert(all * size == rest * size + size && (all - 1) * size == (rest - 1) * size
                + size) by (nonlinear_arith)
                requires
                    all == rest + 1,
            ;
        } else {
            assert(all * size == size && (all - 1) * size == 0) by (nonlinear_arith)
                requires
                    all == 1,
            ;
        }
    } else {
        assert(all * size == 0) by (nonlinear_arith)
            requires
                all == 0,
        ;
    }
}

/// Where the recipe stands that fixes the bounds of a batch: the first whose
/// filled field is at hand.
pub open spec fn bounds_recipe<'a>(
    planned: Seq<PlannedDirectRecipe<'a>>,
    at_hand: spec_fn(FieldSelector) -> bool,
    at: int,
) -> bool {
    &&& 0 <= at < planned.len()
    &&& planned[at].recipe.spec_filled() is Some
    &&& at_hand(planned[at].recipe.spec_filled()->Some_0)
    &&& forall|k: int|
        0 <= k < at ==> (#[trigger] planned[k]).recipe.spec_filled() is None || !at_hand(
            planned[k].recipe.spec_filled()->Some_0,
        )
}

/// Whether no recipe of a plan has its filled field at hand.
pub open spec fn no_bounds_recipe<'a>(
    planned: Seq<PlannedDirectRecipe<'a>>,
    at_hand: spec_fn(FieldSelector) -> bool,
) -> bool {
    forall|k: int|
        0 <= k < planned.len() ==> (#[trigger] planned[k]).recipe.spec_filled() is None || !at_hand(
            planned[k].recipe.spec_filled()->Some_0,
        )
}

/// Finds the recipe that fixes the bounds of a batch whose fields have been read.
pub fn bounds_recipe_of_fields<'a, F>(
    planned: &[PlannedDirectRecipe<'a>],
    extracted: &[(FieldSelector, F)],
) -> (found: Option<(usize, usize)>)
    ensures
        match found {
            Some((at, field_at)) => {
                &&& bounds_recipe(
                    planned@,
                    |s: FieldSelector| recipe::position(extracted@, s) is Some,
                    at as int,
                )
                &&& recipe::position(extracted@, planned@[at as int].recipe.spec_filled()->Some_0)
                    == Some(field_at as int)
            },
            None => no_bounds_recipe(
                planned@,
                |s: FieldSelector| recipe::position(extracted@, s) is Some,
            ),
        },
{
    let mut i: usize = 0;
    while i < planned.len()
        invariant
            i <= planned@.len(),
            forall|k: int|
                0 <= k < i ==> (#[trigger] planned@[k]).recipe.spec_filled() is None
                    || recipe::position(extracted@, planned@[k].recipe.spec_filled()->Some_0) is None,
        decreases planned@.len() - i,
    {
        if let Some(selector) = planned[i].recipe.filled_selector() {
            if let Some(field_at) = find_field(extracted, selector) {
                return Some((i, field_at));
            }
        }
        i = i + 1;
    }
    None
}

/// Finds the recipe that fixes the bounds of a batch whose fields are loaded on
/// demand: what a batch loads is what its plan reads.
pub fn bounds_recipe_of_plan<'a>(planned: &[PlannedDirectRecipe<'a>]) -> (found: Option<
    (usize, FieldSelector),
>)
    ensures
        match found {
            Some((at, selector)) => {
                &&& bounds_recipe(
                    planned@,
                    |s: FieldSelector| read_in_turn(planned@).contains(s),
                    at as int,
                )
                &&& planned@[at as int].recipe.spec_filled() == Some(selector)
            },
            None => no_bounds_recipe(
                planned@,
                |s: FieldSelector| read_in_turn(planned@).contains(s),
            ),
        },
{
    let needed = selectors_to_load(planned);
    let mut i: usize = 0;
    while i < planned.len()
        invariant
            i <= planned@.len(),
            needed@ == read_in_turn(planned@),
            forall|k: int|
                0 <= k < i ==> (#[trigger] planned@[k]).recipe.spec_filled() is None
                    || !needed@.contains(planned@[k].recipe.spec_filled()->Some_0),
        decreases planned@.len() - i,
    {
        if let Some(selector) = planned[i].recipe.filled_selector() {
            if contains_selector(needed.as_slice(), selector) {
                return Some((i, selector));
            }
        }
        i = i + 1;
    }
    None
}

/// A batch that is drawn in portions has the same bounds as one that is drawn
/// whole: where the fields at hand are those that the plan reads, the same recipe
/// fixes them.
pub proof fn law_portions_keep_the_bounds<'a, F>(
    planned: Seq<PlannedDirectRecipe<'a>>,
    extracted: Seq<(FieldSelector, F)>,
    at: int,
)
    requires
        forall|s: FieldSelector|
            (#[trigger] recipe::position(extracted, s) is Some) == read_in_turn(planned).contains(
                s,
            ),
    ensures
        bounds_recipe(planned, |s: FieldSelector| recipe::position(extracted, s) is Some, at)
            == bounds_recipe(planned, |s: FieldSelector| read_in_turn(planned).contains(s), at),
        no_bounds_recipe(planned, |s: FieldSelector| recipe::position(extracted, s) is Some)
            == no_bounds_recipe(planned, |s: FieldSelector| read_in_turn(planned).contains(s)),
{
    let whole = |s: FieldSelector| recipe::position(extracted, s) is Some;
    let parts = |s: FieldSelector| read_in_turn(planned).contains(s);
    assert(forall|s: FieldSelector| #[trigger] whole(s) == parts(s));
    assert(whole =~= parts);
}

/// How many workers draw a batch: one for one recipe; else as many as the setting
/// says, or half as many as the machine runs at once, but no more than recipes.
/// Without a count of what the machine runs there is one.
pub open spec fn workers(
    setting: Option<Seq<char>>,
    available: Option<usize>,
    recipe_count: int,
) -> int {
    if recipe_count <= 1 {
        1
    } else {
        let wanted = match available {
            Some(count) => numbers::positive_setting(
                setting,
                if count / 2 < 1 {
                    1
                } else {
                    (count / 2) as int
                },
            ),
            None => 1,
        };
        if wanted < recipe_count {
            wanted
        } else {
            recipe_count
        }
    }
}

/// How many workers draw a batch.
pub fn render_worker_count(
    setting: Option<&str>,
    available: Option<usize>,
    recipe_count: usize,
) -> (count: usize)
    ensures
        count == workers(presentation::optional(setting), available, recipe_count as int),
{
    if recipe_count <= 1 {
        return 1;
    }
    let wanted: usize = match available {
        Some(count) => match parse_positive(setting) {
            Some(threads) => threads,
            None => if count / 2 < 1 {
                1
            } else {
                count / 2
            },
        },
        None => 1,
    };
    if wanted < recipe_count {
        wanted
    } else {
        recipe_count
    }
}

/// A batch has a worker, and no more workers than recipes.
pub proof fn law_workers_have_work(
    setting: Option<Seq<char>>,
    available: Option<usize>,
    recipe_count: int,
)
    ensures
        1 <= workers(setting, available, recipe_count),
        recipe_count >= 1 ==> workers(setting, available, recipe_count) <= recipe_count,
{
}

/// The message of a worker that could not draw a recipe.
pub fn worker_failure(slug: &str, err: &str) -> (message: String)
    ensures
        message@ == "failed rendering recipe '"@ + slug@ + "': "@ + err@,
{
    "failed rendering recipe '".to_owned().concat(slug).concat("': ").concat(err)
}

/// The result for a place: the last one that came for it.
pub open spec fn result_at<R>(results: Seq<(usize, R)>, at: int) -> Option<R>
    decreases results.len(),
{
    if results.len() == 0 {
        None
    } else if results.last().0 == at {
        Some(results.last().1)
    } else {
        result_at(results.drop_last(), at)
    }
}

/// Puts the results of the workers in the order of the plan. A place without a
/// result is an error.
pub fn collect_rendered<R>(count: usize, results: Vec<(usize, R)>) -> (rendered: Result<
    Vec<R>,
    String,
>)
    requires
        forall|i: int| 0 <= i < results@.len() ==> (#[trigger] results@[i]).0 < count,
    ensures
        match rendered {
            Ok(rendered) => {
                &&& rendered@.len() == count
                &&& forall|k: int|
                    0 <= k < count ==> result_at(results@, k) == Some(#[trigger] rendered@[k])
            },
            Err(message) => {
                &&& message@ == "parallel direct render worker dropped a recipe result"@
                &&& exists|k: int| 0 <= k < count && #[trigger] result_at(results@, k) is None
            },
        },
{
    let ghost all = results@;
    let mut slots: Vec<Option<R>> = Vec::new();
    let mut i: usize = 0;
    while i < count
        invariant
            i <= count,
            slots@.len() == i,
            forall|k: int| 0 <= k < i ==> #[trigger] slots@[k] == None::<R>,
        decreases count - i,
    {
        slots.push(None);
        i = i + 1;
    }
    proof {
        assert(all.take(0) =~= Seq::empty());
    }
    for entry in it: results
        invariant
            it.seq() == all,
            slots@.len() == count,
            forall|k: int| 0 <= k < all.len() ==> (#[trigger] all[k]).0 < count,
            forall|k: int|
                0 <= k < count ==> #[trigger] slots@[k] == result_at(
                    all.take(it.index() as int),
                    k,
                ),
    {
        proof {
            assert(all.take(it.index() + 1).drop_last() == all.take(it.index() as int));
            assert(all.take(it.index() + 1).last() == entry);
            assert(all[it.index() as int] == entry);
        }
        slots.set(entry.0, Some(entry.1));
    }
    proof {
        assert(all.take(all.len() as int) == all);
    }
    let ghost filled = slots@;
    let mut rendered: Vec<R> = Vec::new();
    for slot in it: slots
        invariant
            it.seq() == filled,
            filled.len() == count,
            forall|k: int| 0 <= k < count ==> #[trigger] filled[k] == result_at(all, k),
            rendered@.len() == it.index(),
            all == results@,
            forall|k: int|
                0 <= k < rendered@.len() ==> result_at(all, k) == Some(#[trigger] rendered@[k]),
    {
        proof {
            assert(filled[it.index() as int] == slot);
        }
        match slot {
            Some(recipe) => {
                rendered.push(recipe);
            },
            None => {
                proof {
                    assert(result_at(results@, it.index() as int) is None);
                }
                return Err("parallel direct render worker dropped a recipe result".to_owned());
            },
        }
    }
    Ok(rendered)
}

/// Whether the places of the results are those of a plan, each once.
pub open spec fn each_once<R>(results: Seq<(usize, R)>, count: int) -> bool {
    &&& results.len() == count
    &&& forall|i: int| 0 <= i < results.len() ==> (#[trigger] results[i]).0 < count
    &&& forall|i: int, j: int|
        #![trigger results[i], results[j]]
        0 <= i < j < results.len() ==> results[i].0 != results[j].0
}

/// Results that name each place once are put where they belong, whatever their
/// order.
pub proof fn law_results_find_their_place<R>(results: Seq<(usize, R)>, count: int, i: int)
    requires
        each_once(results, count),
        0 <= i < results.len(),
    ensures
        result_at(results, results[i].0 as int) == Some(results[i].1),
{
    lemma_result_found(results, i);
}

proof fn lemma_result_found<R>(results: Seq<(usize, R)>, i: int)
    requires
        0 <= i < results.len(),
        forall|a: int, b: int|
            #![trigger results[a], results[b]]
            0 <= a < b < results.len() ==> results[a].0 != results[b].0,
    ensures
        result_at(results, results[i].0 as int) == Some(results[i].1),
    decreases results.len(),
{
    let init = results.drop_last();
    if i < init.len() {
        assert(results[i].0 != results[results.len() - 1].0);
        assert forall|a: int, b: int|
            #![trigger init[a], init[b]]
            0 <= a < b < init.len() implies init[a].0 != init[b].0 by {
            assert(init[a] == results[a] && init[b] == results[b]);
        }
        lemma_result_found(init, i);
        assert(init[i] == results[i]);
    }
}

/// The selectors that a plan reads and that are not at hand.
pub open spec fn not_at_hand<F>(
    read: Seq<FieldSelector>,
    extracted: Seq<(FieldSelector, F)>,
) -> Seq<FieldSelector>
    decreases read.len(),
{
    if read.len() == 0 {
        Seq::empty()
    } else {
        let before = not_at_hand(read.drop_last(), extracted);
        if recipe::position(extracted, read.last()) is None {
            before.push(read.last())
        } else {
            before
        }
    }
}

/// The selectors that a plan reads and that are not at hand: a batch of fields
/// that were read before is drawn only if there are none.
pub fn missing_selected_fields<'a, F>(
    planned: &[PlannedDirectRecipe<'a>],
    extracted: &[(FieldSelector, F)],
) -> (missing: Vec<FieldSelector>)
    ensures
        missing@ == not_at_hand(read_in_turn(planned@), extracted@),
{
    let read = selectors_to_load(planned);
    let mut missing: Vec<FieldSelector> = Vec::new();
    let mut i: usize = 0;
    proof {
        assert(read@.take(0) =~= Seq::empty());
    }
    while i < read.len()
        invariant
            i <= read@.len(),
            missing@ == not_at_hand(read@.take(i as int), extracted@),
        decreases read@.len() - i,
    {
        proof {
            assert(read@.take(i + 1).drop_last() == read@.take(i as int));
        }
        if find_field(extracted, read[i]).is_none() {
            missing.push(read[i]);
        }
        i = i + 1;
    }
    proof {
        assert(read@.take(i as int) == read@);
    }
    missing
}

} // verus!
