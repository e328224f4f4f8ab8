//! Which product families a direct batch fetches, and what it reads from each.
use crate::derived::presentation;
use crate::derived::presentation::{
    copy_chars, find_separator, hyphenate, is_dataset_token, lower_chars,
};
use crate::direct::planning;
use crate::direct::planning::{plan_direct_recipes, PlannedDirectRecipe, RecipeLookup};
use crate::direct::recipe::{
    contains_selector, CanonicalField, FieldSelector, PlotRecipe, VerticalSelector,
};
use crate::direct::types;
use crate::direct::types::{product_override, DirectBatchRequest};
use crate::model::{ModelId, SourceId};
use crate::sorted;
use crate::sorted::{comes_before, insert_ordered};
use crate::text;
use crate::text::{copy_strings, from_chars, push_all_distinct, str_eq, to_chars};
use vstd::prelude::*;
use vstd::string::*;

verus! {

/// How the messages of a fetch group are read.
#[derive(Debug, Clone, Copy, PartialEq, Eq, Structural)]
pub enum PlotRecipeFetchMode {
    WholeFileStructuredExtract,
}

/// One fetch of a product family: what is read from it, and the logical families
/// that were planned onto it, in dictionary order.
#[derive(Debug)]
pub struct FetchGroup {
    pub product: String,
    pub fetch_mode: PlotRecipeFetchMode,
    pub variable_patterns: Vec<String>,
    pub selectors: Vec<FieldSelector>,
    pub planned_family_aliases: Vec<String>,
}

/// Whether a selector asks for smoke, which only the native file holds.
pub open spec fn smoke(selector: FieldSelector) -> bool {
    selector.field is SmokeMassDensity || selector.field is ColumnIntegratedSmoke
}

/// Whether any of the selectors is held by the native file alone.
pub open spec fn native_only(selectors: Seq<FieldSelector>) -> bool {
    exists|k: int| 0 <= k < selectors.len() && smoke(#[trigger] selectors[k])
}

fn hrrr_native_selectors_require_wrfnat(selectors: &[FieldSelector]) -> (yes: bool)
    ensures
        yes == native_only(selectors@),
{
    let mut i: usize = 0;
    while i < selectors.len()
        invariant
            i <= selectors@.len(),
            forall|k: int| 0 <= k < i ==> !smoke(#[trigger] selectors@[k]),
        decreases selectors@.len() - i,
    {
        if matches!(
            selectors[i].field,
            CanonicalField::SmokeMassDensity | CanonicalField::ColumnIntegratedSmoke
        ) {
            proof {
                assert(smoke(selectors@[i as int]));
            }
            return true;
        }
        i = i + 1;
    }
    false
}

/// The product family that is fetched for a planned one. An override decides;
/// else the native family of the HRRR is read from its surface file, unless the
/// selectors need the native one.
pub open spec fn canonical(
    model: ModelId,
    overrides: Seq<(String, String)>,
    planned: Seq<char>,
    selectors: Seq<FieldSelector>,
) -> Seq<char> {
    match types::overriding(overrides, planned) {
        Some(product) => product,
        None => if model == ModelId::Hrrr && planned == "nat"@ && !native_only(selectors) {
            "sfc"@
        } else {
            planned
        },
    }
}

/// The product family that is fetched for a planned one and its selectors.
pub fn canonical_fetch_product_for_selectors<B, O>(
    request: &DirectBatchRequest<B, O>,
    planned_product: &str,
    selectors: &[FieldSelector],
) -> (product: String)
    ensures
        product@ == canonical(
            request.model,
            request.product_overrides@,
            planned_product@,
            selectors@,
        ),
{
    if let Some(product) = product_override(request.product_overrides.as_slice(), planned_product) {
        return product;
    }
    if request.model == ModelId::Hrrr && str_eq(planned_product, "nat") {
        if !hrrr_native_selectors_require_wrfnat(selectors) {
            return "sfc".to_owned();
        }
    }
    planned_product.to_owned()
}

/// The product family that is fetched for a planned one, whatever is read.
pub fn canonical_fetch_product<B, O>(request: &DirectBatchRequest<B, O>, planned_product: &str) -> (product:
    String)
    ensures
        product@ == canonical(
            request.model,
            request.product_overrides@,
            planned_product@,
            Seq::empty(),
        ),
{
    let none: Vec<FieldSelector> = Vec::new();
    canonical_fetch_product_for_selectors(request, planned_product, none.as_slice())
}

/// The two-dimensional product beside a three-dimensional one of the WRF
/// archive; any other product is its own.
pub open spec fn flat_product(product: Seq<char>) -> Seq<char> {
    let name = text::lowercased(presentation::hyphenated(product));
    let at = presentation::first_separator(name);
    let dataset = name.take(at);
    if at < name.len() && presentation::dataset_token(dataset) && name.skip(at + 1) == "hist3d"@ {
        dataset + "-hist2d"@
    } else if at < name.len() && presentation::dataset_token(dataset) && name.skip(at + 1)
        == "future3d"@ {
        dataset + "-future2d"@
    } else {
        product
    }
}

/// The product that holds the surface pressure beside a product of the WRF
/// archive.
pub fn wrf_gdex_surface_pressure_product<B, O>(
    request: &DirectBatchRequest<B, O>,
    planned_product: &str,
) -> (surface: String)
    ensures
        surface@ == flat_product(
            canonical(
                request.model,
                request.product_overrides@,
                planned_product@,
                Seq::empty(),
            ),
        ),
{
    let product = canonical_fetch_product(request, planned_product);
    let chars = to_chars(product.as_str());
    let hyphens = hyphenate(chars.as_slice());
    let name = lower_chars(hyphens.as_slice());
    let at: usize = find_separator(name.as_slice());
    if at == name.len() {
        return product;
    }
    let dataset = copy_chars(name.as_slice(), 0, at);
    let tail = copy_chars(name.as_slice(), at + 1, name.len());
    proof {
        assert(dataset@ =~= name@.take(at as int));
        assert(tail@ =~= name@.skip(at + 1));
    }
    if !is_dataset_token(dataset.as_slice()) {
        return product;
    }
    let suffix = from_chars(tail.as_slice());
    if str_eq(suffix.as_str(), "hist3d") {
        return from_chars(dataset.as_slice()).concat("-hist2d");
    }
    if str_eq(suffix.as_str(), "future3d") {
        return from_chars(dataset.as_slice()).concat("-future2d");
    }
    product
}

/// Whether a recipe also needs the surface pressure: one of the WRF archive that
/// fills a pressure level.
pub open spec fn needs_surface_pressure(model: ModelId, recipe: PlotRecipe) -> bool {
    &&& model == ModelId::WrfGdex
    &&& recipe.spec_filled() is Some
    &&& recipe.spec_filled()->Some_0.vertical is IsobaricHpa
}

fn reads_surface_pressure(model: ModelId, recipe: &PlotRecipe) -> (yes: bool)
    ensures
        yes == needs_surface_pressure(model, *recipe),
{
    model == ModelId::WrfGdex && match recipe.filled_selector() {
        Some(selector) => matches!(selector.vertical, VerticalSelector::IsobaricHpa(_)),
        None => false,
    }
}

/// What one planned family adds to the fetch of a canonical one.
pub struct Contribution {
    pub key: Seq<char>,
    pub family: Seq<char>,
    pub patterns: Seq<Seq<char>>,
    pub selectors: Seq<FieldSelector>,
}

/// What a recipe itself adds.
pub open spec fn own_contribution<'a>(
    model: ModelId,
    overrides: Seq<(String, String)>,
    item: PlannedDirectRecipe<'a>,
) -> Contribution {
    Contribution {
        key: canonical(model, overrides, item.plan.product@, item.plan.selectors@),
        family: item.plan.product@,
        patterns: text::texts(item.plan.variable_patterns@),
        selectors: item.plan.selectors@,
    }
}

/// What a recipe adds for the surface pressure.
pub open spec fn pressure_contribution<'a>(
    model: ModelId,
    overrides: Seq<(String, String)>,
    item: PlannedDirectRecipe<'a>,
) -> Contribution {
    let family = flat_product(canonical(model, overrides, item.plan.product@, Seq::empty()));
    let selectors = seq![FieldSelector::spec_surface(CanonicalField::Pressure)];
    Contribution {
        key: canonical(model, overrides, family, selectors),
        family,
        patterns: Seq::empty(),
        selectors,
    }
}

/// What the recipes of a plan add, in order.
pub open spec fn contributions<'a>(
    model: ModelId,
    overrides: Seq<(String, String)>,
    planned: Seq<PlannedDirectRecipe<'a>>,
) -> Seq<Contribution>
    decreases planned.len(),
{
    if planned.len() == 0 {
        Seq::empty()
    } else {
        let before = contributions(model, overrides, planned.drop_last()).push(
            own_contribution(model, overrides, planned.last()),
        );
        if needs_surface_pressure(model, *planned.last().recipe) {
            before.push(pressure_contribution(model, overrides, planned.last()))
        } else {
            before
        }
    }
}

/// The patterns that contributions gather under a key, each once, in the order
/// in which they came first.
pub open spec fn gathered_patterns(list: Seq<Contribution>, key: Seq<char>) -> Seq<Seq<char>>
    decreases list.len(),
{
    if list.len() == 0 {
        Seq::empty()
    } else {
        let before = gathered_patterns(list.drop_last(), key);
        if list.last().key == key {
            text::with_all_distinct(before, list.last().patterns)
        } else {
            before
        }
    }
}

/// The selectors that contributions gather under a key, each once, in the order
/// in which they came first.
pub open spec fn gathered_selectors(list: Seq<Contribution>, key: Seq<char>) -> Seq<FieldSelector>
    decreases list.len(),
{
    if list.len() == 0 {
        Seq::empty()
    } else {
        let before = gathered_selectors(list.drop_last(), key);
        if list.last().key == key {
            text::with_all_distinct(before, list.last().selectors)
        } else {
            before
        }
    }
}

/// Whether any contribution has a key.
pub open spec fn keyed(list: Seq<Contribution>, key: Seq<char>) -> bool {
    exists|k: int| 0 <= k < list.len() && (#[trigger] list[k]).key == key
}

/// Whether any contribution brings a family under a key.
pub open spec fn brings(list: Seq<Contribution>, key: Seq<char>, family: Seq<char>) -> bool {
    exists|k: int|
        0 <= k < list.len() && (#[trigger] list[k]).key == key && list[k].family == family
}

/// The product families of a list of groups.
pub open spec fn products(groups: Seq<FetchGroup>) -> Seq<Seq<char>> {
    Seq::new(groups.len(), |i: int| groups[i].product@)
}

/// Whether a group holds what contributions gather under its product.
pub open spec fn gathers(group: FetchGroup, list: Seq<Contribution>) -> bool {
    &&& group.fetch_mode == PlotRecipeFetchMode::WholeFileStructuredExtract
    &&& text::texts(group.variable_patterns@) == gathered_patterns(list, group.product@)
    &&& group.selectors@ == gathered_selectors(list, group.product@)
    &&& sorted::ordered(text::texts(group.planned_family_aliases@))
    &&& forall|t: Seq<char>| #[trigger]
        text::texts(group.planned_family_aliases@).contains(t) <==> brings(list, group.product@, t)
}

/// Whether groups are those of a list of contributions: one for each key, in
/// dictionary order, with what the contributions gather under it.
pub open spec fn grouped(groups: Seq<FetchGroup>, list: Seq<Contribution>) -> bool {
    &&& sorted::ordered(products(groups))
    &&& forall|t: Seq<char>| #[trigger] products(groups).contains(t) <==> keyed(list, t)
    &&& forall|i: int| 0 <= i < groups.len() ==> gathers(#[trigger] groups[i], list)
}

proof fn lemma_nothing_gathered(list: Seq<Contribution>, key: Seq<char>)
    requires
        !keyed(list, key),
    ensures
        gathered_patterns(list, key) == Seq::<Seq<char>>::empty(),
        gathered_selectors(list, key) == Seq::<FieldSelector>::empty(),
        forall|t: Seq<char>| !#[trigger] brings(list, key, t),
    decreases list.len(),
{
    if list.len() > 0 {
        let init = list.drop_last();
        assert(!keyed(init, key)) by {
            if keyed(init, key) {
                let k = choose|k: int| 0 <= k < init.len() && (#[trigger] init[k]).key == key;
                assert(list[k].key == key);
            }
        }
        lemma_nothing_gathered(init, key);
        assert(list[list.len() - 1].key != key);
    }
    assert forall|t: Seq<char>| !#[trigger] brings(list, key, t) by {
        if brings(list, key, t) {
            let k = choose|k: int|
                0 <= k < list.len() && (#[trigger] list[k]).key == key && list[k].family == t;
            assert(list[k].key == key);
        }
    }
}

proof fn lemma_one_more(list: Seq<Contribution>, added: Contribution)
    ensures
        forall|t: Seq<char>| #[trigger]
            keyed(list.push(added), t) <==> keyed(list, t) || added.key == t,
        forall|key: Seq<char>, t: Seq<char>| #[trigger]
            brings(list.push(added), key, t) <==> brings(list, key, t) || (added.key == key
                && added.family == t),
        list.push(added).drop_last() == list,
{
    let more = list.push(added);
    assert(more.drop_last() =~= list);
    assert(more[list.len() as int] == added);
    assert forall|t: Seq<char>| #[trigger] keyed(more, t) <==> keyed(list, t) || added.key == t by {
        if keyed(list, t) {
            let k = choose|k: int| 0 <= k < list.len() && (#[trigger] list[k]).key == t;
            assert(more[k].key == t);
        }
        if keyed(more, t) && added.key != t {
            let k = choose|k: int| 0 <= k < more.len() && (#[trigger] more[k]).key == t;
            assert(list[k].key == t);
        }
    }
    assert forall|key: Seq<char>, t: Seq<char>| #[trigger]
        brings(more, key, t) <==> brings(list, key, t) || (added.key == key && added.family
            == t) by {
        if brings(list, key, t) {
            let k = choose|k: int|
                0 <= k < list.len() && (#[trigger] list[k]).key == key && list[k].family == t;
            assert(more[k].key == key);
        }
        if brings(more, key, t) && !(added.key == key && added.family == t) {
            let k = choose|k: int|
                0 <= k < more.len() && (#[trigger] more[k]).key == key && more[k].family == t;
            assert(list[k].key == key);
        }
    }
}

fn push_selectors(list: &mut Vec<FieldSelector>, items: &[FieldSelector])
    ensures
        final(list)@ == text::with_all_distinct(old(list)@, items@),
{
    let ghost before = list@;
    let mut i: usize = 0;
    proof {
        assert(items@.take(0) =~= Seq::empty());
    }
    while i < items.len()
        invariant
            i <= items@.len(),
            list@ == text::with_all_distinct(before, items@.take(i as int)),
        decreases items@.len() - i,
    {
        proof {
            assert(items@.take(i + 1).drop_last() == items@.take(i as int));
        }
        if !contains_selector(list.as_slice(), items[i]) {
            list.push(items[i]);
        }
        i = i + 1;
    }
    proof {
        assert(items@.take(i as int) == items@);
    }
}

/// Adds what one planned family contributes.
fn contribute(
    groups: &mut Vec<FetchGroup>,
    key: String,
    family: String,
    patterns: &[String],
    selectors: &[FieldSelector],
    Ghost(list): Ghost<Seq<Contribution>>,
)
    requires
        grouped(old(groups)@, list),
    ensures
        grouped(
            final(groups)@,
            list.push(
                Contribution {
                    key: key@,
                    family: family@,
                    patterns: text::texts(patterns@),
                    selectors: selectors@,
                },
            ),
        ),
{
    let ghost before = groups@;
    let ghost names = products(groups@);
    let ghost name = key@;
    let ghost added = Contribution {
        key: key@,
        family: family@,
        patterns: text::texts(patterns@),
        selectors: selectors@,
    };
    let ghost more = list.push(added);
    let mut i: usize = 0;
    while i < groups.len() && comes_before(groups[i].product.as_str(), key.as_str())
        invariant
            i <= groups@.len(),
            groups@ == before,
            names == products(before),
            name == key@,
            forall|k: int| 0 <= k < i ==> sorted::precedes(#[trigger] names[k], name),
        decreases groups@.len() - i,
    {
        proof {
            assert(names[i as int] == groups@[i as int].product@);
        }
        i = i + 1;
    }
    proof {
        lemma_one_more(list, added);
    }
    let found = i < groups.len() && str_eq(groups[i].product.as_str(), key.as_str());
    let mut group = if found {
        groups.remove(i)
    } else {
        FetchGroup {
            product: key,
            fetch_mode: PlotRecipeFetchMode::WholeFileStructuredExtract,
            variable_patterns: Vec::new(),
            selectors: Vec::new(),
            planned_family_aliases: Vec::new(),
        }
    };
    proof {
        if found {
            assert(gathers(before[i as int], list));
        } else {
            if i < before.len() {
                assert(names[i as int] == before[i as int].product@);
                sorted::law_order_is_total(names[i as int], name);
            }
            assert(!names.contains(name)) by {
                if names.contains(name) {
                    let k = choose|k: int| 0 <= k < names.len() && names[k] == name;
                    sorted::law_order_is_total(name, name);
                    if k > i {
                        assert(sorted::precedes(names[i as int], names[k]));
                        sorted::law_order_is_total(names[i as int], name);
                    }
                }
            }
            assert(!keyed(list, name));
            lemma_nothing_gathered(list, name);
            assert(text::texts(group.variable_patterns@) =~= Seq::empty());
            assert(text::texts(group.planned_family_aliases@) =~= Seq::empty());
        }
    }
    insert_ordered(&mut group.planned_family_aliases, family);
    push_all_distinct(&mut group.variable_patterns, patterns);
    push_selectors(&mut group.selectors, selectors);
    let ghost filled = group;
    groups.insert(i, group);
    proof {
        assert(gathers(filled, more));
        let after = groups@;
        if found {
            assert(after =~= before.update(i as int, filled));
            assert(products(after) =~= names);
            assert(names[i as int] == name);
            assert forall|t: Seq<char>| #[trigger]
                products(after).contains(t) <==> keyed(more, t) by {
                if t == name {
                    assert(names.contains(names[i as int]));
                }
            }
        } else {
            assert(after =~= before.insert(i as int, filled));
            assert(products(after) =~= names.insert(i as int, name));
            sorted::lemma_insert_in_order(names, i as int, name);
        }
        assert forall|j: int| 0 <= j < after.len() implies gathers(#[trigger] after[j], more) by {
            if j != i {
                let from = if found || j < i {
                    j
                } else {
                    j - 1
                };
                assert(after[j] == before[from]);
                assert(gathers(before[from], list));
                let other = before[from].product@;
                assert(names[from] == other);
                assert(other != name) by {
                    assert(products(after)[j] == other);
                    assert(products(after)[i as int] == name);
                    sorted::law_order_is_total(name, name);
                    if j < i {
                        assert(sorted::precedes(products(after)[j], products(after)[i as int]));
                    } else {
                        assert(sorted::precedes(products(after)[i as int], products(after)[j]));
                    }
                }
            }
        }
    }
}

/// Gathers the fetches of a plan: one group for each canonical family, in
/// dictionary order.
pub fn group_direct_fetches<'a, B, O>(
    request: &DirectBatchRequest<B, O>,
    recipes: &[PlannedDirectRecipe<'a>],
) -> (groups: Vec<FetchGroup>)
    ensures
        grouped(
            groups@,
            contributions(request.model, request.product_overrides@, recipes@),
        ),
{
    let mut groups: Vec<FetchGroup> = Vec::new();
    let mut i: usize = 0;
    let ghost model = request.model;
    let ghost overrides = request.product_overrides@;
    let pressure: FieldSelector = FieldSelector::surface(CanonicalField::Pressure);
    proof {
        assert(recipes@.take(0) =~= Seq::empty());
        assert(products(groups@) =~= Seq::empty());
    }
    while i < recipes.len()
        invariant
            i <= recipes@.len(),
            model == request.model,
            overrides == request.product_overrides@,
            pressure == FieldSelector::spec_surface(CanonicalField::Pressure),
            grouped(groups@, contributions(model, overrides, recipes@.take(i as int))),
        decreases recipes@.len() - i,
    {
        let item = recipes[i];
        let ghost list = contributions(model, overrides, recipes@.take(i as int));
        proof {
            assert(recipes@.take(i + 1).drop_last() == recipes@.take(i as int));
            assert(recipes@.take(i + 1).last() == item);
        }
        let key = canonical_fetch_product_for_selectors(
            request,
            item.plan.product.as_str(),
            item.plan.selectors.as_slice(),
        );
        contribute(
            &mut groups,
            key,
            item.plan.product.clone(),
            item.plan.variable_patterns.as_slice(),
            item.plan.selectors.as_slice(),
            Ghost(list),
        );
        let ghost own = list.push(own_contribution(model, overrides, item));
        if reads_surface_pressure(request.model, item.recipe) {
            let family = wrf_gdex_surface_pressure_product(request, item.plan.product.as_str());
            let selectors: Vec<FieldSelector> = vec![pressure];
            let none: Vec<String> = Vec::new();
            let extra = canonical_fetch_product_for_selectors(
                request,
                family.as_str(),
                selectors.as_slice(),
            );
            proof {
                assert(selectors@ =~= seq![pressure]);
                assert(text::texts(none@) =~= Seq::empty());
            }
            contribute(
                &mut groups,
                extra,
                family,
                none.as_slice(),
                selectors.as_slice(),
                Ghost(own),
            );
        }
        i = i + 1;
    }
    proof {
        assert(recipes@.take(i as int) == recipes@);
    }
    groups
}

/// The fetch groups of the recipes that a batch asks for.
pub fn plan_direct_fetch_groups<'a, B, O>(
    request: &DirectBatchRequest<B, O>,
    model: &str,
    lookups: &'a [RecipeLookup],
) -> (groups: Result<Vec<FetchGroup>, String>)
    ensures
        match groups {
            Ok(groups) => {
                let planned = planning::planned_recipes(model@, lookups@);
                &&& planned is Ok
                &&& grouped(
                    groups@,
                    contributions(request.model, request.product_overrides@, planned->Ok_0),
                )
            },
            Err(message) => planning::planned_recipes(model@, lookups@) is Err
                && planning::planned_recipes(model@, lookups@)->Err_0 == message@,
        },
{
    match plan_direct_recipes(model, lookups) {
        Ok(planned) => Ok(group_direct_fetches(request, planned.as_slice())),
        Err(message) => Err(message),
    }
}

/// The canonical families that the recipes of a batch are fetched from.
pub fn required_direct_fetch_products<'a, B, O>(
    request: &DirectBatchRequest<B, O>,
    model: &str,
    lookups: &'a [RecipeLookup],
) -> (required: Result<Vec<String>, String>)
    ensures
        match required {
            Ok(required) => {
                let planned = planning::planned_recipes(model@, lookups@);
                &&& planned is Ok
                &&& sorted::ordered(text::texts(required@))
                &&& forall|t: Seq<char>| #[trigger]
                    text::texts(required@).contains(t) <==> keyed(
                        contributions(request.model, request.product_overrides@, planned->Ok_0),
                        t,
                    )
            },
            Err(message) => planning::planned_recipes(model@, lookups@) is Err
                && planning::planned_recipes(model@, lookups@)->Err_0 == message@,
        },
{
    match plan_direct_fetch_groups(request, model, lookups) {
        Ok(groups) => {
            let mut required: Vec<String> = Vec::new();
            let mut i: usize = 0;
            proof {
                assert(text::texts(required@) =~= products(groups@).take(0));
            }
            while i < groups.len()
                invariant
                    i <= groups@.len(),
                    text::texts(required@) == products(groups@).take(i as int),
                decreases groups@.len() - i,
            {
                let ghost held = text::texts(required@);
                required.push(groups[i].product.clone());
                proof {
                    assert(text::texts(required@) =~= held.push(groups@[i as int].product@));
                    assert(products(groups@).take(i + 1) =~= held.push(products(groups@)[i as int]));
                }
                i = i + 1;
            }
            proof {
                assert(products(groups@).take(i as int) =~= products(groups@));
            }
            Ok(required)
        },
        Err(message) => Err(message),
    }
}

/// Whether a source serves single messages, so that a fetch names the ones it
/// needs.
pub fn should_attach_direct_idx_patterns(source: SourceId) -> (yes: bool)
    ensures
        yes == (source is Aws || source is Google),
{
    matches!(source, SourceId::Aws | SourceId::Google)
}

/// One bundle that a plan loads: a canonical family under one of its logical
/// names, and the messages it needs.
#[derive(Debug)]
pub struct DirectBundleRequest {
    pub product: String,
    pub alias: String,
    pub variable_patterns: Vec<String>,
}

/// A bundle as the contracts speak of it.
pub struct DirectBundle {
    pub product: Seq<char>,
    pub alias: Seq<char>,
    pub patterns: Seq<Seq<char>>,
}

impl View for DirectBundleRequest {
    type V = DirectBundle;

    open spec fn view(&self) -> DirectBundle {
        DirectBundle {
            product: self.product@,
            alias: self.alias@,
            patterns: text::texts(self.variable_patterns@),
        }
    }
}

/// The bundles of a list as the contracts speak of them.
pub open spec fn bundles(list: Seq<DirectBundleRequest>) -> Seq<DirectBundle> {
    Seq::new(list.len(), |i: int| list[i]@)
}

/// The bundles of one group: one for each of its logical names.
pub open spec fn group_bundles(group: FetchGroup, with_patterns: bool) -> Seq<DirectBundle> {
    let aliases = text::texts(group.planned_family_aliases@);
    Seq::new(
        aliases.len(),
        |i: int|
            DirectBundle {
                product: group.product@,
                alias: aliases[i],
                patterns: if with_patterns {
                    text::texts(group.variable_patterns@)
                } else {
                    Seq::empty()
                },
            },
    )
}

/// The bundles of a list of groups, group by group.
pub open spec fn plan_bundles(groups: Seq<FetchGroup>, with_patterns: bool) -> Seq<DirectBundle>
    decreases groups.len(),
{
    if groups.len() == 0 {
        Seq::empty()
    } else {
        plan_bundles(groups.drop_last(), with_patterns) + group_bundles(
            groups.last(),
            with_patterns,
        )
    }
}

/// The bundles that a direct batch loads from a source.
pub fn build_direct_execution_plan(source: SourceId, groups: &[FetchGroup]) -> (plan: Vec<
    DirectBundleRequest,
>)
    ensures
        bundles(plan@) == plan_bundles(groups@, source is Aws || source is Google),
{
    let with_patterns = should_attach_direct_idx_patterns(source);
    let mut plan: Vec<DirectBundleRequest> = Vec::new();
    let mut i: usize = 0;
    proof {
        assert(bundles(plan@) =~= plan_bundles(groups@.take(0), with_patterns));
    }
    while i < groups.len()
        invariant
            i <= groups@.len(),
            bundles(plan@) == plan_bundles(groups@.take(i as int), with_patterns),
        decreases groups@.len() - i,
    {
        let group = &groups[i];
        let ghost before = bundles(plan@);
        let ghost own = group_bundles(*group, with_patterns);
        let mut j: usize = 0;
        proof {
            assert(before + own.take(0) =~= before);
        }
        while j < group.planned_family_aliases.len()
            invariant
                j <= group.planned_family_aliases@.len(),
                own == group_bundles(*group, with_patterns),
                bundles(plan@) == before + own.take(j as int),
            decreases group.planned_family_aliases@.len() - j,
        {
            let ghost held = bundles(plan@);
            let bundle = DirectBundleRequest {
                product: group.product.clone(),
                alias: group.planned_family_aliases[j].clone(),
                variable_patterns: if with_patterns {
                    copy_strings(group.variable_patterns.as_slice())
                } else {
                    Vec::new()
                },
            };
            let ghost shown = bundle@;
            proof {
                if !with_patterns {
                    assert(shown.patterns =~= Seq::empty());
                }
                assert(shown == own[j as int]);
            }
            plan.push(bundle);
            proof {
                assert(bundles(plan@) =~= held.push(shown));
                assert(before + own.take(j + 1) =~= held.push(shown));
            }
            j = j + 1;
        }
        proof {
            assert(own.take(j as int) =~= own);
            assert(groups@.take(i + 1).drop_last() == groups@.take(i as int));
        }
        i = i + 1;
    }
    proof {
        assert(groups@.take(i as int) == groups@);
    }
    plan
}

proof fn lemma_gathered_stays(list: Seq<Contribution>, at: int, selector: FieldSelector)
    requires
        0 <= at < list.len(),
        list[at].selectors.contains(selector),
    ensures
        gathered_selectors(list, list[at].key).contains(selector),
    decreases list.len(),
{
    let key = list[at].key;
    let init = list.drop_last();
    let before = gathered_selectors(init, key);
    text::lemma_with_all_distinct(before, list.last().selectors);
    if at < init.len() {
        assert(init[at] == list[at]);
        lemma_gathered_stays(init, at, selector);
    }
}

proof fn lemma_own_contribution_is_there<'a>(
    model: ModelId,
    overrides: Seq<(String, String)>,
    planned: Seq<PlannedDirectRecipe<'a>>,
    item: int,
) -> (at: int)
    requires
        0 <= item < planned.len(),
    ensures
        0 <= at < contributions(model, overrides, planned).len(),
        contributions(model, overrides, planned)[at] == own_contribution(
            model,
            overrides,
            planned[item],
        ),
    decreases planned.len(),
{
    let init = planned.drop_last();
    if item < init.len() {
        lemma_own_contribution_is_there(model, overrides, init, item)
    } else {
        contributions(model, overrides, init).len() as int
    }
}

/// Every selector of a planned recipe is read from the group of the family that
/// the recipe's product is fetched as.
pub proof fn law_every_selector_is_fetched<'a>(
    model: ModelId,
    overrides: Seq<(String, String)>,
    planned: Seq<PlannedDirectRecipe<'a>>,
    groups: Seq<FetchGroup>,
    item: int,
    selector: FieldSelector,
)
    requires
        grouped(groups, contributions(model, overrides, planned)),
        0 <= item < planned.len(),
        planned[item].plan.selectors@.contains(selector),
    ensures
        exists|g: int|
            0 <= g < groups.len() && (#[trigger] groups[g]).product@ == canonical(
                model,
                overrides,
                planned[item].plan.product@,
                planned[item].plan.selectors@,
            ) && groups[g].selectors@.contains(selector),
{
    let list = contributions(model, overrides, planned);
    let at = lemma_own_contribution_is_there(model, overrides, planned, item);
    lemma_gathered_stays(list, at, selector);
    let key = list[at].key;
    assert(keyed(list, key));
    assert(products(groups).contains(key));
    let g = choose|g: int| 0 <= g < products(groups).len() && products(groups)[g] == key;
    assert(gathers(groups[g], list));
    assert(groups[g].product@ == key);
}

/// The groups of a plan are fixed by the plan.
pub proof fn law_groups_are_unique(a: Seq<FetchGroup>, b: Seq<FetchGroup>, list: Seq<Contribution>)
    requires
        grouped(a, list),
        grouped(b, list),
    ensures
        a.len() == b.len(),
        forall|i: int|
            0 <= i < a.len() ==> {
                &&& (#[trigger] a[i]).product@ == b[i].product@
                &&& a[i].selectors@ == b[i].selectors@
                &&& text::texts(a[i].variable_patterns@) == text::texts(b[i].variable_patterns@)
                &&& text::texts(a[i].planned_family_aliases@) == text::texts(
                    b[i].planned_family_aliases@,
                )
            },
{
    assert forall|t: Seq<char>| #[trigger] products(a).contains(t) <==> products(b).contains(t) by {
        assert(products(a).contains(t) <==> keyed(list, t));
        assert(products(b).contains(t) <==> keyed(list, t));
    }
    sorted::law_ordered_list_is_unique(products(a), products(b));
    assert(products(a).len() == products(b).len());
    assert forall|i: int| 0 <= i < a.len() implies {
        &&& (#[trigger] a[i]).product@ == b[i].product@
        &&& a[i].selectors@ == b[i].selectors@
        &&& text::texts(a[i].variable_patterns@) == text::texts(b[i].variable_patterns@)
        &&& text::texts(a[i].planned_family_aliases@) == text::texts(b[i].planned_family_aliases@)
    } by {
        assert(products(a)[i] == a[i].product@);
        assert(products(b)[i] == b[i].product@);
        assert(gathers(a[i], list));
        assert(gathers(b[i], list));
        let x = text::texts(a[i].planned_family_aliases@);
        let y = text::texts(b[i].planned_family_aliases@);
        assert forall|t: Seq<char>| #[trigger] x.contains(t) <==> y.contains(t) by {
            assert(x.contains(t) <==> brings(list, a[i].product@, t));
            assert(y.contains(t) <==> brings(list, b[i].product@, t));
        }
        sorted::law_ordered_list_is_unique(x, y);
    }
}

} // verus!
