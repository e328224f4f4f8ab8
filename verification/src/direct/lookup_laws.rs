//! What is found in the lists that direct maps are drawn from.
use crate::derived::store_render;
use crate::derived::store_render::StoreProductGrid;
use crate::direct::batch;
use crate::direct::planning::PlannedDirectRecipe;
use crate::direct::projected;
use crate::direct::projected::FieldShape;
use crate::direct::recipe;
use crate::direct::recipe::{FieldSelector, PlotRecipe};
use crate::direct::types;
use crate::direct::types::DirectBatchRequest;
use crate::gridded::runtime;
use crate::model::ProductVisualMode;
use vstd::prelude::*;

verus! {

/// The first override of a product decides, whatever stands behind it. Without one
/// there is none.
pub proof fn law_first_override_decides(list: Seq<(String, String)>, product: Seq<char>, at: int)
    requires
        0 <= at <= list.len(),
        forall|k: int| 0 <= k < at ==> (#[trigger] list[k]).0@ != product,
        at < list.len() ==> list[at].0@ == product,
    ensures
        at < list.len() ==> types::overriding(list, product) == Some(list[at].1@),
        at == list.len() ==> types::overriding(list, product) is None,
    decreases list.len(),
{
    if at > 0 {
        assert(list[0].0@ != product);
        let rest = list.drop_first();
        assert forall|k: int| 0 <= k < at - 1 implies (#[trigger] rest[k]).0@ != product by {
            assert(rest[k] == list[k + 1]);
        }
        law_first_override_decides(rest, product, at - 1);
    }
}

/// Of the fetches of a product the last one is known.
pub proof fn law_last_fetch_is_known<I>(fetches: Seq<(Seq<char>, I)>, product: Seq<char>, at: int)
    requires
        -1 <= at < fetches.len(),
        forall|k: int| at < k < fetches.len() ==> (#[trigger] fetches[k]).0 != product,
        at >= 0 ==> fetches[at].0 == product,
    ensures
        at >= 0 ==> batch::fetch_of(fetches, product) == Some(fetches[at].1),
        at < 0 ==> batch::fetch_of(fetches, product) is None,
    decreases fetches.len(),
{
    if fetches.len() > 0 && at < fetches.len() - 1 {
        assert(fetches.last().0 != product);
        law_last_fetch_is_known(fetches.drop_last(), product, at);
    }
}

/// Of the grids with a slug the last one is drawn.
pub proof fn law_later_grids_take_the_place<T>(
    grids: Seq<StoreProductGrid<T>>,
    slug: Seq<char>,
    at: int,
)
    requires
        -1 <= at < grids.len(),
        forall|k: int| at < k < grids.len() ==> (#[trigger] grids[k]).slug@ != slug,
        at >= 0 ==> grids[at].slug@ == slug,
    ensures
        at >= 0 ==> store_render::grid_with_slug(grids, slug) == Some(at),
        at < 0 ==> store_render::grid_with_slug(grids, slug) is None,
    decreases grids.len(),
{
    if grids.len() > 0 && at < grids.len() - 1 {
        assert(grids.last().slug@ != slug);
        law_later_grids_take_the_place(grids.drop_last(), slug, at);
    }
}

/// A field that is added is found under its selector from then on, in the place of
/// the one that was there. What is found under any other selector stays.
pub proof fn law_added_fields_are_found<F>(
    fields: Seq<(FieldSelector, F)>,
    added: (FieldSelector, F),
    other: FieldSelector,
)
    ensures
        ({
            let after = batch::with_field(fields, added);
            &&& recipe::position(after, added.0) is Some
            &&& after[recipe::position(after, added.0)->Some_0] == added
            &&& recipe::position(fields, added.0) is Some ==> recipe::position(after, added.0)
                == recipe::position(fields, added.0) && after.len() == fields.len()
            &&& other != added.0 ==> recipe::position(after, other) == recipe::position(
                fields,
                other,
            )
            &&& other != added.0 && recipe::position(fields, other) is Some
                ==> after[recipe::position(fields, other)->Some_0]
                == fields[recipe::position(fields, other)->Some_0]
        }),
{
    let after = batch::with_field(fields, added);
    recipe::lemma_position(fields, added.0);
    recipe::lemma_position(fields, other);
    recipe::lemma_position(after, added.0);
    recipe::lemma_position(after, other);
    match recipe::position(fields, added.0) {
        Some(at) => {
            assert(after[at] == added);
            let found = recipe::position(after, added.0);
            assert(found is Some);
            if found->Some_0 < at {
                assert(after[found->Some_0] == fields[found->Some_0]);
            }
            if other != added.0 {
                match recipe::position(fields, other) {
                    Some(place) => {
                        assert(after[place] == fields[place]);
                        let again = recipe::position(after, other);
                        assert(again is Some);
                        assert(after[again->Some_0].0 == other);
                        assert(again->Some_0 != at);
                        assert(after[again->Some_0] == fields[again->Some_0]);
                    },
                    None => {
                        let again = recipe::position(after, other);
                        if again is Some {
                            assert(after[again->Some_0].0 == other);
                            assert(again->Some_0 != at);
                            assert(after[again->Some_0] == fields[again->Some_0]);
                        }
                    },
                }
            }
        },
        None => {
            assert(after.drop_last() =~= fields);
        },
    }
}

/// A map is projected in the size in which it is drawn: that of the request, or
/// that of its panels. It depends on the field that it shows, and its style is that
/// of a panel if and only if it is made of panels.
pub proof fn law_maps_are_projected_in_their_own_size<'a, B, O>(
    request: DirectBatchRequest<B, O>,
    item: PlannedDirectRecipe<'a>,
    panel: Option<(u32, u32)>,
    components: Seq<PlotRecipe>,
    extracted: Seq<(FieldSelector, FieldShape)>,
)
    ensures
        projected::wanted_map(request, item, panel, components, extracted) matches Some(wanted)
            ==> {
            let size = match panel {
                Some(size) => size,
                None => (request.output_width, request.output_height),
            };
            &&& wanted.key.width == size.0
            &&& wanted.key.height == size.1
            &&& 0 <= wanted.field_at < extracted.len()
            &&& wanted.key.nx == extracted[wanted.field_at].1.nx
            &&& wanted.key.ny == extracted[wanted.field_at].1.ny
            &&& wanted.key.projection == extracted[wanted.field_at].1.projection@
            &&& projected::numbered_mode(wanted.key.mode_key) == wanted.visual_mode
            &&& panel is Some <==> wanted.visual_mode == ProductVisualMode::PanelMember
            &&& item.recipe.spec_filled() is Some ==> extracted[wanted.field_at].0
                == item.recipe.spec_filled()->Some_0
        },
        panel is None && item.recipe.spec_filled() is None ==> projected::wanted_map(
            request,
            item,
            panel,
            components,
            extracted,
        ) is None,
{
    let sample = if panel is Some {
        projected::sample_selector(*item.recipe, components)
    } else {
        item.recipe.spec_filled()
    };
    if sample is Some {
        recipe::lemma_position(extracted, sample->Some_0);
    }
}

/// Every size with an extent is projected once, and no other.
pub proof fn law_sizes_are_projected_once(sizes: Seq<(u32, u32)>, i: int, j: int)
    ensures
        ({
            let list = runtime::projected_sizes(sizes);
            &&& 0 <= i < sizes.len() && sizes[i].0 > 0 && sizes[i].1 > 0 ==> list.contains(sizes[i])
            &&& 0 <= i < list.len() ==> list[i].0 > 0 && list[i].1 > 0 && sizes.contains(list[i])
            &&& 0 <= i < j < list.len() ==> list[i] != list[j]
        }),
    decreases sizes.len(),
{
    if sizes.len() > 0 {
        let shorter = sizes.drop_last();
        let before = runtime::projected_sizes(shorter);
        let list = runtime::projected_sizes(sizes);
        law_sizes_are_projected_once(shorter, i, j);
        assert(sizes.contains(sizes.last())) by {
            assert(sizes[sizes.len() - 1] == sizes.last());
        }
        if 0 <= i < shorter.len() && sizes[i].0 > 0 && sizes[i].1 > 0 {
            assert(shorter[i] == sizes[i]);
            let k = choose|k: int| 0 <= k < before.len() && before[k] == sizes[i];
            assert(list[k] == before[k]);
        }
        if i == shorter.len() && sizes[i].0 > 0 && sizes[i].1 > 0 {
            if !before.contains(sizes.last()) {
                assert(list[before.len() as int] == sizes.last());
            }
        }
        if 0 <= i < before.len() {
            assert(list[i] == before[i]);
            let k = choose|k: int| 0 <= k < shorter.len() && shorter[k] == before[i];
            assert(sizes[k] == before[i]);
        }
        if 0 <= i < j < list.len() && j == before.len() {
            assert(before.contains(before[i]));
        }
    }
}

} // verus!
