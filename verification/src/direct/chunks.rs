//! A batch that is drawn in portions: what is loaded, waited for and drawn, and in
//! which order.
use crate::direct::planning::PlannedDirectRecipe;
use crate::direct::recipe::FieldSelector;
use crate::direct::schedule;
use crate::direct::schedule::{bounds_recipe_of_plan, render_chunks, selectors_to_load};
use crate::text;
use vstd::prelude::*;

verus! {

/// What a batch that is drawn in portions does next: load the field that fixes the
/// bounds of the recipe at a place, wait to be let through, load a field of a portion,
/// or crop what was loaded and draw the recipes of the portion.
#[derive(Debug, Clone, Copy, PartialEq, Eq, Structural)]
pub enum ChunkAction {
    LoadBounds { recipe_at: usize, selector: FieldSelector },
    Gate,
    Load { selector: FieldSelector },
    Draw { from: usize, to: usize },
}

/// The loads of some fields.
pub open spec fn loads(selectors: Seq<FieldSelector>) -> Seq<ChunkAction> {
    Seq::new(selectors.len(), |i: int| ChunkAction::Load { selector: selectors[i] })
}

/// What is done for one portion: wait where there is a gate, load what its recipes
/// read, and draw them.
pub open spec fn portion_actions<'a>(
    planned: Seq<PlannedDirectRecipe<'a>>,
    part: (int, int),
    gated: bool,
) -> Seq<ChunkAction> {
    (if gated {
        seq![ChunkAction::Gate]
    } else {
        Seq::empty()
    }) + loads(schedule::read_in_turn(planned.subrange(part.0, part.1))) + seq![
        ChunkAction::Draw { from: part.0 as usize, to: part.1 as usize },
    ]
}

/// What is done for some portions, one after another.
pub open spec fn portions_actions<'a>(
    planned: Seq<PlannedDirectRecipe<'a>>,
    parts: Seq<(int, int)>,
    gated: bool,
) -> Seq<ChunkAction>
    decreases parts.len(),
{
    if parts.len() == 0 {
        Seq::empty()
    } else {
        portions_actions(planned, parts.drop_last(), gated) + portion_actions(
            planned,
            parts.last(),
            gated,
        )
    }
}

/// How many recipes a portion holds: at least one.
pub open spec fn portion_size(chunk_recipes: usize) -> int {
    if chunk_recipes < 1 {
        1
    } else {
        chunk_recipes as int
    }
}

/// Whether actions come before the portions: the load of the field that fixes the
/// bounds, if a recipe has one.
pub open spec fn begins<'a>(
    planned: Seq<PlannedDirectRecipe<'a>>,
    first: Seq<ChunkAction>,
) -> bool {
    let read = |s: FieldSelector| schedule::read_in_turn(planned).contains(s);
    ||| schedule::no_bounds_recipe(planned, read) && first.len() == 0
    ||| first.len() == 1 && match first[0] {
        ChunkAction::LoadBounds { recipe_at, selector } => schedule::bounds_recipe(
            planned,
            read,
            recipe_at as int,
        ) && planned[recipe_at as int].recipe.spec_filled() == Some(selector),
        _ => false,
    }
}

/// Whether actions are those of a batch that is drawn in portions.
pub open spec fn is_script<'a>(
    planned: Seq<PlannedDirectRecipe<'a>>,
    chunk_recipes: usize,
    gated: bool,
    actions: Seq<ChunkAction>,
) -> bool {
    exists|first: Seq<ChunkAction>|
        #[trigger] begins(planned, first) && actions == first + portions_actions(
            planned,
            schedule::portions(planned.len() as int, portion_size(chunk_recipes), 0),
            gated,
        )
}

/// Lists what a batch that is drawn in portions does, in order.
pub fn chunk_script<'a>(
    planned: &[PlannedDirectRecipe<'a>],
    chunk_recipes: usize,
    gated: bool,
) -> (actions: Vec<ChunkAction>)
    ensures
        is_script(planned@, chunk_recipes, gated, actions@),
{
    let mut actions: Vec<ChunkAction> = Vec::new();
    match bounds_recipe_of_plan(planned) {
        Some((recipe_at, selector)) => {
            actions.push(ChunkAction::LoadBounds { recipe_at, selector });
        },
        None => {},
    }
    let ghost first = actions@;
    proof {
        assert(begins(planned@, first));
    }
    let chunks = render_chunks(planned.len(), chunk_recipes);
    let ghost parts = schedule::ranges(chunks@);
    proof {
        schedule::lemma_portions_lie_within(
            planned@.len() as int,
            portion_size(chunk_recipes),
            0,
        );
        assert(parts.take(0) =~= Seq::empty());
        assert(first + portions_actions(planned@, parts.take(0), gated) =~= first);
    }
    let mut i: usize = 0;
    while i < chunks.len()
        invariant
            i <= chunks@.len(),
            parts == schedule::ranges(chunks@),
            forall|k: int|
                0 <= k < parts.len() ==> 0 <= (#[trigger] parts[k]).0 <= parts[k].1
                    <= planned@.len(),
            actions@ == first + portions_actions(planned@, parts.take(i as int), gated),
        decreases chunks@.len() - i,
    {
        let ghost before = actions@;
        let (from, to) = chunks[i];
        proof {
            assert(parts[i as int] == (from as int, to as int));
        }
        if gated {
            actions.push(ChunkAction::Gate);
        }
        let ghost waited = actions@;
        let portion = vstd::slice::slice_subrange(planned, from, to);
        let selectors = selectors_to_load(portion);
        let ghost wanted = selectors@;
        let mut j: usize = 0;
        proof {
            assert(waited + loads(wanted.take(0)) =~= waited);
        }
        while j < selectors.len()
            invariant
                j <= selectors@.len(),
                wanted == selectors@,
                actions@ == waited + loads(wanted.take(j as int)),
            decreases selectors@.len() - j,
        {
            actions.push(ChunkAction::Load { selector: selectors[j] });
            j = j + 1;
            proof {
                assert(waited + loads(wanted.take(j as int)) =~= (waited + loads(
                    wanted.take(j - 1),
                )).push(ChunkAction::Load { selector: wanted[j - 1] }));
            }
        }
        actions.push(ChunkAction::Draw { from, to });
        proof {
            assert(wanted.take(j as int) =~= wanted);
            let shorter = parts.take(i as int);
            let longer = parts.take(i + 1);
            assert(longer.drop_last() =~= shorter);
            assert(longer.last() == parts[i as int]);
            assert(actions@ =~= before + portion_actions(planned@, parts[i as int], gated));
            assert(actions@ =~= first + portions_actions(planned@, longer, gated));
        }
        i = i + 1;
    }
    proof {
        assert(parts.take(i as int) =~= parts);
    }
    actions
}

/// What a batch does after some of its actions.
#[derive(Debug)]
pub enum ChunkStep {
    Do { action: ChunkAction },
    Finished,
    Stopped { message: String },
}

/// The next step of a batch of which some actions are done. The first load or drawing
/// that fails ends it.
pub fn next_chunk_step(actions: &[ChunkAction], done: usize, failure: Option<String>) -> (step:
    ChunkStep)
    ensures
        match failure {
            Some(message) => step == (ChunkStep::Stopped { message }),
            None => if done < actions@.len() {
                step == (ChunkStep::Do { action: actions@[done as int] })
            } else {
                step == ChunkStep::Finished
            },
        },
{
    match failure {
        Some(message) => ChunkStep::Stopped { message },
        None => if done < actions.len() {
            ChunkStep::Do { action: actions[done] }
        } else {
            ChunkStep::Finished
        },
    }
}

/// Whether the load at a place comes after a gate, with nothing but loads between.
pub open spec fn let_through(actions: Seq<ChunkAction>, at: int) -> bool {
    exists|gate: int|
        0 <= gate < at && #[trigger] actions[gate] == ChunkAction::Gate && forall|k: int|
            gate < k < at ==> #[trigger] actions[k] is Load
}

proof fn lemma_portions_are_gated<'a>(
    planned: Seq<PlannedDirectRecipe<'a>>,
    parts: Seq<(int, int)>,
    at: int,
)
    requires
        0 <= at < portions_actions(planned, parts, true).len(),
        portions_actions(planned, parts, true)[at] is Load,
    ensures
        let_through(portions_actions(planned, parts, true), at),
    decreases parts.len(),
{
    let actions = portions_actions(planned, parts, true);
    let before = portions_actions(planned, parts.drop_last(), true);
    let own = portion_actions(planned, parts.last(), true);
    if at < before.len() {
        assert(before[at] == actions[at]);
        lemma_portions_are_gated(planned, parts.drop_last(), at);
        let gate = choose|gate: int|
            0 <= gate < at && #[trigger] before[gate] == ChunkAction::Gate && forall|k: int|
                gate < k < at ==> #[trigger] before[k] is Load;
        assert(actions[gate] == ChunkAction::Gate);
        assert forall|k: int| gate < k < at implies #[trigger] actions[k] is Load by {
            assert(before[k] == actions[k]);
        }
    } else {
        let gate = before.len() as int;
        assert(own[0] == ChunkAction::Gate);
        assert(actions[gate] == own[0]);
        assert(at != gate);
        assert forall|k: int| gate < k < at implies #[trigger] actions[k] is Load by {
            assert(actions[k] == own[k - gate]);
            assert(actions[at] == own[at - gate]);
        }
    }
}

/// Every portion waits to be let through before it loads anything.
pub proof fn law_gate_comes_before_loads<'a>(
    planned: Seq<PlannedDirectRecipe<'a>>,
    chunk_recipes: usize,
    actions: Seq<ChunkAction>,
    at: int,
)
    requires
        is_script(planned, chunk_recipes, true, actions),
        0 <= at < actions.len(),
        actions[at] is Load,
    ensures
        let_through(actions, at),
{
    let parts = schedule::portions(planned.len() as int, portion_size(chunk_recipes), 0);
    let rest = portions_actions(planned, parts, true);
    let first = choose|first: Seq<ChunkAction>|
        #[trigger] begins(planned, first) && actions == first + rest;
    if at < first.len() {
        assert(actions[at] == first[0]);
    } else {
        assert(rest[at - first.len()] == actions[at]);
        lemma_portions_are_gated(planned, parts, at - first.len());
        let gate = choose|gate: int|
            0 <= gate < at - first.len() && #[trigger] rest[gate] == ChunkAction::Gate && forall|
                k: int,
            |
                gate < k < at - first.len() ==> #[trigger] rest[k] is Load;
        assert(actions[gate + first.len()] == rest[gate]);
        assert forall|k: int| gate + first.len() < k < at implies #[trigger] actions[k] is Load by {
            assert(actions[k] == rest[k - first.len()]);
        }
    }
}

/// How many waits to be let through there are among some actions.
pub open spec fn gates(actions: Seq<ChunkAction>) -> int
    decreases actions.len(),
{
    if actions.len() == 0 {
        0
    } else {
        gates(actions.drop_last()) + (if actions.last() == ChunkAction::Gate {
            1int
        } else {
            0
        })
    }
}

proof fn lemma_gates_of_both(a: Seq<ChunkAction>, b: Seq<ChunkAction>)
    ensures
        gates(a + b) == gates(a) + gates(b),
    decreases b.len(),
{
    if b.len() == 0 {
        assert(a + b =~= a);
    } else {
        assert((a + b).drop_last() =~= a + b.drop_last());
        lemma_gates_of_both(a, b.drop_last());
    }
}

proof fn lemma_no_gates(actions: Seq<ChunkAction>)
    requires
        forall|i: int| 0 <= i < actions.len() ==> #[trigger] actions[i] != ChunkAction::Gate,
    ensures
        gates(actions) == 0,
    decreases actions.len(),
{
    if actions.len() > 0 {
        let init = actions.drop_last();
        assert forall|i: int| 0 <= i < init.len() implies #[trigger] init[i]
            != ChunkAction::Gate by {
            assert(init[i] == actions[i]);
        }
        lemma_no_gates(init);
        assert(actions[actions.len() - 1] == actions.last());
    }
}

proof fn lemma_gates_of_portions<'a>(
    planned: Seq<PlannedDirectRecipe<'a>>,
    parts: Seq<(int, int)>,
    gated: bool,
)
    ensures
        gates(portions_actions(planned, parts, gated)) == (if gated {
            parts.len() as int
        } else {
            0
        }),
    decreases parts.len(),
{
    if parts.len() > 0 {
        lemma_gates_of_portions(planned, parts.drop_last(), gated);
        let part = parts.last();
        let own = portion_actions(planned, part, gated);
        let wait = if gated {
            seq![ChunkAction::Gate]
        } else {
            Seq::empty()
        };
        let rest = loads(schedule::read_in_turn(planned.subrange(part.0, part.1))) + seq![
            ChunkAction::Draw { from: part.0 as usize, to: part.1 as usize },
        ];
        assert(own =~= wait + rest);
        lemma_no_gates(rest);
        lemma_gates_of_both(wait, rest);
        lemma_gates_of_both(portions_actions(planned, parts.drop_last(), gated), own);
        if gated {
            assert(wait.last() == ChunkAction::Gate);
            assert(gates(wait.drop_last()) == 0);
        }
        assert(gates(wait) == (if gated {
            1int
        } else {
            0
        }));
    }
}

/// A batch waits at its gate once for each portion, of which there are as many as it
/// takes to hold all recipes; without a gate it never waits.
pub proof fn law_one_gate_for_each_portion<'a>(
    planned: Seq<PlannedDirectRecipe<'a>>,
    chunk_recipes: usize,
    gated: bool,
    actions: Seq<ChunkAction>,
)
    requires
        is_script(planned, chunk_recipes, gated, actions),
    ensures
        !gated ==> gates(actions) == 0,
        gated ==> (gates(actions) - 1) * portion_size(chunk_recipes) < planned.len()
            || planned.len() == 0,
        gated ==> planned.len() <= gates(actions) * portion_size(chunk_recipes),
        gated && planned.len() == 0 ==> gates(actions) == 0,
{
    let size = portion_size(chunk_recipes);
    let parts = schedule::portions(planned.len() as int, size, 0);
    let first = choose|first: Seq<ChunkAction>|
        #[trigger] begins(planned, first) && actions == first + portions_actions(
            planned,
            parts,
            gated,
        );
    lemma_no_gates(first);
    lemma_gates_of_portions(planned, parts, gated);
    lemma_gates_of_both(first, portions_actions(planned, parts, gated));
    schedule::lemma_portions_hold_the_list(planned.len() as int, size, 0);
}

proof fn lemma_read_once<'a>(planned: Seq<PlannedDirectRecipe<'a>>)
    ensures
        schedule::read_in_turn(planned).no_duplicates(),
    decreases planned.len(),
{
    if planned.len() > 0 {
        lemma_read_once(planned.drop_last());
        text::lemma_with_all_distinct(
            schedule::read_in_turn(planned.drop_last()),
            planned.last().plan.selectors@,
        );
    }
}

/// A portion loads what its recipes read and nothing else, each field once, and all
/// of it before it is drawn.
pub proof fn law_portions_load_what_they_read<'a>(
    planned: Seq<PlannedDirectRecipe<'a>>,
    part: (int, int),
    gated: bool,
    selector: FieldSelector,
)
    requires
        0 <= part.0 <= part.1 <= planned.len(),
    ensures
        portion_actions(planned, part, gated).contains(ChunkAction::Load { selector }) <==> exists|
            item: int,
        |
            part.0 <= item < part.1 && (#[trigger] planned[item]).plan.selectors@.contains(selector),
        schedule::read_in_turn(planned.subrange(part.0, part.1)).no_duplicates(),
        portion_actions(planned, part, gated).last() == (ChunkAction::Draw {
            from: part.0 as usize,
            to: part.1 as usize,
        }),
{
    let items = planned.subrange(part.0, part.1);
    let read = schedule::read_in_turn(items);
    let own = portion_actions(planned, part, gated);
    let wait: int = if gated {
        1
    } else {
        0
    };
    let load = ChunkAction::Load { selector };
    lemma_read_once(items);
    if own.contains(load) {
        let at = choose|at: int| 0 <= at < own.len() && own[at] == load;
        assert(wait <= at < wait + read.len());
        assert(own[at] == loads(read)[at - wait]);
        assert(read.contains(selector)) by {
            assert(read[at - wait] == selector);
        }
        schedule::lemma_only_read_is_loaded(items, selector);
        let item = choose|item: int|
            0 <= item < items.len() && (#[trigger] items[item]).plan.selectors@.contains(selector);
        assert(planned[part.0 + item] == items[item]);
    }
    if exists|item: int|
        part.0 <= item < part.1 && (#[trigger] planned[item]).plan.selectors@.contains(selector) {
        let item = choose|item: int|
            part.0 <= item < part.1 && (#[trigger] planned[item]).plan.selectors@.contains(
                selector,
            );
        assert(items[item - part.0] == planned[item]);
        schedule::law_everything_read_is_loaded(items, item - part.0, selector);
        let at = choose|at: int| 0 <= at < read.len() && read[at] == selector;
        assert(own[at + wait] == loads(read)[at]);
    }
}

/// A batch without recipes does nothing.
pub proof fn law_nothing_is_done_for_no_recipe<'a>(
    planned: Seq<PlannedDirectRecipe<'a>>,
    chunk_recipes: usize,
    gated: bool,
    actions: Seq<ChunkAction>,
)
    requires
        is_script(planned, chunk_recipes, gated, actions),
        planned.len() == 0,
    ensures
        actions.len() == 0,
{
}

} // verus!
