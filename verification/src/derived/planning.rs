//! Which recipes are computed, which are read from native diagnostics, and which
//! are blocked; and which run and which bundles that takes.
use crate::derived::presentation;
use crate::derived::presentation::wrf_gdex_native_surface_product;
use crate::derived::recipe_laws;
use crate::derived::recipes;
use crate::derived::recipes::DerivedRecipe;
use crate::derived::requirements;
use crate::derived::requirements::derived_compute_recipes_need_pressure;
use crate::model::{
    CanonicalBundleDescriptor, ModelId, NativeSemantics, ProductSourceMode, ProductSourceRoute,
};
use crate::sorted;
use crate::sorted::insert_ordered;
use crate::text;
use crate::text::contains_text;
use vstd::prelude::*;
use vstd::string::*;

verus! {

/// The recipe that a slug names.
pub open spec fn named(slug: Seq<char>) -> Option<DerivedRecipe> {
    recipes::recognized(recipes::normalized_slug(slug))
}

/// The message for a slug that names no recipe.
pub open spec fn unnamed_message(slug: Seq<char>) -> Seq<char> {
    slug + ": "@ + recipes::rejection(recipes::normalized_slug(slug))
}

/// Whether a place is the first of a list whose slug names no recipe.
pub open spec fn first_unnamed(slugs: Seq<String>, index: int) -> bool {
    &&& 0 <= index < slugs.len()
    &&& named(slugs[index]@) is None
    &&& forall|k: int| 0 <= k < index ==> named((#[trigger] slugs[k])@) is Some
}

/// The recipes that a list of slugs names.
pub open spec fn all_named(slugs: Seq<String>) -> Seq<DerivedRecipe> {
    Seq::new(slugs.len(), |i: int| named(slugs[i]@)->Some_0)
}

/// The recipes that a list of slugs names, one for each slug. The first slug
/// that names none fails the whole.
pub fn parse_recipes(slugs: &[String]) -> (parsed: Result<Vec<DerivedRecipe>, String>)
    ensures
        match parsed {
            Ok(list) => {
                &&& forall|k: int| 0 <= k < slugs@.len() ==> named((#[trigger] slugs@[k])@) is Some
                &&& list@ == all_named(slugs@)
            },
            Err(message) => exists|i: int|
                #[trigger] first_unnamed(slugs@, i) && message@ == unnamed_message(slugs@[i]@),
        },
{
    let mut list: Vec<DerivedRecipe> = Vec::new();
    let mut i: usize = 0;
    while i < slugs.len()
        invariant
            i <= slugs@.len(),
            list@.len() == i,
            forall|k: int|
                0 <= k < i ==> named((#[trigger] slugs@[k])@) == Some(list@[k]),
        decreases slugs@.len() - i,
    {
        match DerivedRecipe::parse(slugs[i].as_str()) {
            Ok(recipe) => {
                list.push(recipe);
            },
            Err(message) => {
                proof {
                    assert(first_unnamed(slugs@, i as int));
                }
                return Err(slugs[i].as_str().to_owned().concat(": ").concat(message.as_str()));
            },
        }
        i = i + 1;
    }
    proof {
        assert(list@ =~= all_named(slugs@));
    }
    Ok(list)
}

/// The recipes of a list in the order in which they are first seen, each once.
pub open spec fn first_seen(list: Seq<DerivedRecipe>) -> Seq<DerivedRecipe>
    decreases list.len(),
{
    if list.len() == 0 {
        Seq::empty()
    } else {
        let before = first_seen(list.drop_last());
        if before.contains(list.last()) {
            before
        } else {
            before.push(list.last())
        }
    }
}

fn holds(list: &Vec<DerivedRecipe>, recipe: DerivedRecipe) -> (found: bool)
    ensures
        found == list@.contains(recipe),
{
    let mut i: usize = 0;
    while i < list.len()
        invariant
            i <= list@.len(),
            forall|k: int| 0 <= k < i ==> list@[k] != recipe,
        decreases list@.len() - i,
    {
        if list[i] == recipe {
            return true;
        }
        i = i + 1;
    }
    false
}

/// The recipes that a list of slugs names, in the order in which they are first
/// seen, each once. The first slug that names none fails the whole.
pub fn plan_derived_recipes(recipe_slugs: &[String]) -> (planned: Result<
    Vec<DerivedRecipe>,
    String,
>)
    ensures
        match planned {
            Ok(list) => {
                &&& forall|k: int|
                    0 <= k < recipe_slugs@.len() ==> named((#[trigger] recipe_slugs@[k])@) is Some
                &&& list@ == first_seen(all_named(recipe_slugs@))
            },
            Err(message) => exists|i: int|
                #[trigger] first_unnamed(recipe_slugs@, i) && message@ == unnamed_message(
                    recipe_slugs@[i]@,
                ),
        },
{
    let parsed = match parse_recipes(recipe_slugs) {
        Ok(parsed) => parsed,
        Err(message) => {
            return Err(message);
        },
    };
    let mut planned: Vec<DerivedRecipe> = Vec::new();
    let mut i: usize = 0;
    while i < parsed.len()
        invariant
            i <= parsed@.len(),
            planned@ == first_seen(parsed@.take(i as int)),
        decreases parsed@.len() - i,
    {
        proof {
            assert(parsed@.take(i + 1).drop_last() == parsed@.take(i as int));
        }
        if !holds(&planned, parsed[i]) {
            planned.push(parsed[i]);
        }
        i = i + 1;
    }
    proof {
        assert(parsed@.take(i as int) == parsed@);
    }
    Ok(planned)
}

/// Dropping repetitions keeps every recipe, keeps each once, and changes nothing
/// the second time.
pub proof fn law_first_seen_keeps_every_recipe_once(list: Seq<DerivedRecipe>)
    ensures
        first_seen(list).no_duplicates(),
        forall|r: DerivedRecipe| #[trigger] first_seen(list).contains(r) <==> list.contains(r),
        first_seen(list).len() <= list.len(),
        list.no_duplicates() ==> first_seen(list) == list,
    decreases list.len(),
{
    if list.len() > 0 {
        let rest = list.drop_last();
        let last = list.last();
        law_first_seen_keeps_every_recipe_once(rest);
        let before = first_seen(rest);
        let after = first_seen(list);
        assert forall|r: DerivedRecipe| #[trigger] after.contains(r) <==> list.contains(r) by {
            if rest.contains(r) {
                let i = choose|i: int| 0 <= i < rest.len() && rest[i] == r;
                assert(list[i] == r);
            }
            if list.contains(r) && r != last {
                let i = choose|i: int| 0 <= i < list.len() && list[i] == r;
                assert(rest[i] == r);
            }
            assert(list[list.len() - 1] == last);
            assert(before.contains(r) <==> rest.contains(r));
            if !before.contains(last) {
                assert(after[after.len() - 1] == last);
                if before.contains(r) {
                    let i = choose|i: int| 0 <= i < before.len() && before[i] == r;
                    assert(after[i] == r);
                }
                if after.contains(r) && r != last {
                    let i = choose|i: int| 0 <= i < after.len() && after[i] == r;
                    assert(before[i] == r);
                }
            }
        }
        if list.no_duplicates() {
            assert forall|i: int, j: int|
                0 <= i < rest.len() && 0 <= j < rest.len() && i != j implies rest[i]
                != rest[j] by {
                assert(list[i] == rest[i] && list[j] == rest[j]);
            }
            assert(!before.contains(last)) by {
                if rest.contains(last) {
                    let i = choose|i: int| 0 <= i < rest.len() && rest[i] == last;
                    assert(list[i] == list[list.len() - 1]);
                }
            }
            assert(after =~= list);
        }
    }
}

/// A thermodynamic diagnostic that models provide themselves.
#[derive(Debug, Clone, Copy, PartialEq, Eq, Structural)]
pub enum NativeThermoRecipe {
    Sbcape,
    Sbcin,
    Sblcl,
    Mlcape,
    Mlcin,
    Mucape,
    Mucin,
    LiftedIndex,
}

impl NativeThermoRecipe {
    /// The name that the diagnostic goes by.
    pub open spec fn name(self) -> Seq<char> {
        match self {
            NativeThermoRecipe::Sbcape => "sbcape"@,
            NativeThermoRecipe::Sbcin => "sbcin"@,
            NativeThermoRecipe::Sblcl => "sblcl"@,
            NativeThermoRecipe::Mlcape => "mlcape"@,
            NativeThermoRecipe::Mlcin => "mlcin"@,
            NativeThermoRecipe::Mucape => "mucape"@,
            NativeThermoRecipe::Mucin => "mucin"@,
            NativeThermoRecipe::LiftedIndex => "lifted_index"@,
        }
    }
}

/// The native diagnostic that stands for a recipe.
pub open spec fn thermo_recipe(recipe: DerivedRecipe) -> Option<NativeThermoRecipe> {
    match recipe {
        DerivedRecipe::Sbcape => Some(NativeThermoRecipe::Sbcape),
        DerivedRecipe::Sbcin => Some(NativeThermoRecipe::Sbcin),
        DerivedRecipe::Sblcl => Some(NativeThermoRecipe::Sblcl),
        DerivedRecipe::Mlcape => Some(NativeThermoRecipe::Mlcape),
        DerivedRecipe::Mlcin => Some(NativeThermoRecipe::Mlcin),
        DerivedRecipe::Mucape => Some(NativeThermoRecipe::Mucape),
        DerivedRecipe::Mucin => Some(NativeThermoRecipe::Mucin),
        DerivedRecipe::LiftedIndex => Some(NativeThermoRecipe::LiftedIndex),
        _ => None,
    }
}

fn native_recipe_for_derived(recipe: DerivedRecipe) -> (native: Option<NativeThermoRecipe>)
    ensures
        native == thermo_recipe(recipe),
        native matches Some(native) ==> native.name() == recipe.spec_slug()@,
{
    match recipe {
        DerivedRecipe::Sbcape => Some(NativeThermoRecipe::Sbcape),
        DerivedRecipe::Sbcin => Some(NativeThermoRecipe::Sbcin),
        DerivedRecipe::Sblcl => Some(NativeThermoRecipe::Sblcl),
        DerivedRecipe::Mlcape => Some(NativeThermoRecipe::Mlcape),
        DerivedRecipe::Mlcin => Some(NativeThermoRecipe::Mlcin),
        DerivedRecipe::Mucape => Some(NativeThermoRecipe::Mucape),
        DerivedRecipe::Mucin => Some(NativeThermoRecipe::Mucin),
        DerivedRecipe::LiftedIndex => Some(NativeThermoRecipe::LiftedIndex),
        _ => None,
    }
}

/// A native diagnostic that can stand for a recipe.
pub struct PlannedNativeDerivedCandidate {
    pub label: String,
    pub semantics: NativeSemantics,
    pub auto_eligible: bool,
    pub detail: String,
    /// The product that holds the diagnostic.
    pub fetch_product: String,
}

/// A candidate as a mathematical value.
pub struct Candidate {
    pub label: Seq<char>,
    pub semantics: NativeSemantics,
    pub auto_eligible: bool,
    pub detail: Seq<char>,
    pub fetch_product: Seq<char>,
}

impl View for PlannedNativeDerivedCandidate {
    type V = Candidate;

    open spec fn view(&self) -> Candidate {
        Candidate {
            label: self.label@,
            semantics: self.semantics,
            auto_eligible: self.auto_eligible,
            detail: self.detail@,
            fetch_product: self.fetch_product@,
        }
    }
}

impl PlannedNativeDerivedCandidate {
    fn duplicate(&self) -> (copy: Self)
        ensures
            copy@ == self@,
    {
        PlannedNativeDerivedCandidate {
            label: self.label.clone(),
            semantics: self.semantics,
            auto_eligible: self.auto_eligible,
            detail: self.detail.clone(),
            fetch_product: self.fetch_product.clone(),
        }
    }
}

/// The native diagnostics that a model provides.
pub struct NativeThermoTable {
    pub sbcape: Option<PlannedNativeDerivedCandidate>,
    pub sbcin: Option<PlannedNativeDerivedCandidate>,
    pub sblcl: Option<PlannedNativeDerivedCandidate>,
    pub mlcape: Option<PlannedNativeDerivedCandidate>,
    pub mlcin: Option<PlannedNativeDerivedCandidate>,
    pub mucape: Option<PlannedNativeDerivedCandidate>,
    pub mucin: Option<PlannedNativeDerivedCandidate>,
    pub lifted_index: Option<PlannedNativeDerivedCandidate>,
}

impl NativeThermoTable {
    pub open spec fn spec_get(self, recipe: NativeThermoRecipe) -> Option<
        PlannedNativeDerivedCandidate,
    > {
        match recipe {
            NativeThermoRecipe::Sbcape => self.sbcape,
            NativeThermoRecipe::Sbcin => self.sbcin,
            NativeThermoRecipe::Sblcl => self.sblcl,
            NativeThermoRecipe::Mlcape => self.mlcape,
            NativeThermoRecipe::Mlcin => self.mlcin,
            NativeThermoRecipe::Mucape => self.mucape,
            NativeThermoRecipe::Mucin => self.mucin,
            NativeThermoRecipe::LiftedIndex => self.lifted_index,
        }
    }

    /// A table without any diagnostic.
    pub fn empty() -> (table: Self)
        ensures
            forall|r: NativeThermoRecipe| (#[trigger] table.spec_get(r)) is None,
    {
        NativeThermoTable {
            sbcape: None,
            sbcin: None,
            sblcl: None,
            mlcape: None,
            mlcin: None,
            mucape: None,
            mucin: None,
            lifted_index: None,
        }
    }

    fn get(&self, recipe: NativeThermoRecipe) -> (candidate: &Option<
        PlannedNativeDerivedCandidate,
    >)
        ensures
            *candidate == self.spec_get(recipe),
    {
        match recipe {
            NativeThermoRecipe::Sbcape => &self.sbcape,
            NativeThermoRecipe::Sbcin => &self.sbcin,
            NativeThermoRecipe::Sblcl => &self.sblcl,
            NativeThermoRecipe::Mlcape => &self.mlcape,
            NativeThermoRecipe::Mlcin => &self.mlcin,
            NativeThermoRecipe::Mucape => &self.mucape,
            NativeThermoRecipe::Mucin => &self.mucin,
            NativeThermoRecipe::LiftedIndex => &self.lifted_index,
        }
    }
}

/// How a native diagnostic is read.
#[derive(Debug, Clone, Copy)]
pub enum NativeDerivedRecipe {
    /// A thermodynamic diagnostic of a model's own product.
    Thermo(NativeThermoRecipe),
    /// One variable of the WRF archive.
    WrfGdexScalar { variable: &'static str },
    /// The length of a vector of the WRF archive, in knots.
    WrfGdexVectorMagnitude { u_variable: &'static str, v_variable: &'static str },
}

/// The variable, label and detail of a recipe in the WRF archive.
pub open spec fn wrf_diagnostic(recipe: DerivedRecipe) -> Option<
    (NativeDerivedRecipe, Seq<char>, Seq<char>),
> {
    match recipe {
        DerivedRecipe::Sbcape => Some(
            (
                NativeDerivedRecipe::WrfGdexScalar { variable: "SBCAPE" },
                "surface CAPE"@,
                "WRF native SBCAPE from model diagnostics"@,
            ),
        ),
        DerivedRecipe::Sbcin => Some(
            (
                NativeDerivedRecipe::WrfGdexScalar { variable: "SBCINH" },
                "surface CIN"@,
                "WRF native SBCINH from model diagnostics"@,
            ),
        ),
        DerivedRecipe::Sblcl => Some(
            (
                NativeDerivedRecipe::WrfGdexScalar { variable: "SBLCL" },
                "surface LCL height"@,
                "WRF native SBLCL from model diagnostics"@,
            ),
        ),
        DerivedRecipe::Mlcape => Some(
            (
                NativeDerivedRecipe::WrfGdexScalar { variable: "MLCAPE" },
                "mixed-layer CAPE"@,
                "WRF native MLCAPE from model diagnostics"@,
            ),
        ),
        DerivedRecipe::Mlcin => Some(
            (
                NativeDerivedRecipe::WrfGdexScalar { variable: "MLCINH" },
                "mixed-layer CIN"@,
                "WRF native MLCINH from model diagnostics"@,
            ),
        ),
        DerivedRecipe::Mucape => Some(
            (
                NativeDerivedRecipe::WrfGdexScalar { variable: "MUCAPE" },
                "most-unstable CAPE"@,
                "WRF native MUCAPE from model diagnostics"@,
            ),
        ),
        DerivedRecipe::Mucin => Some(
            (
                NativeDerivedRecipe::WrfGdexScalar { variable: "MUCINH" },
                "most-unstable CIN"@,
                "WRF native MUCINH from model diagnostics"@,
            ),
        ),
        DerivedRecipe::Srh01km => Some(
            (
                NativeDerivedRecipe::WrfGdexScalar { variable: "SRH01" },
                "0-1 km SRH"@,
                "WRF native SRH01 from model diagnostics"@,
            ),
        ),
        DerivedRecipe::Srh03km => Some(
            (
                NativeDerivedRecipe::WrfGdexScalar { variable: "SRH03" },
                "0-3 km SRH"@,
                "WRF native SRH03 from model diagnostics"@,
            ),
        ),
        DerivedRecipe::BulkShear01km => Some(
            (
                NativeDerivedRecipe::WrfGdexVectorMagnitude {
                    u_variable: "USHR1",
                    v_variable: "VSHR1",
                },
                "0-1 km bulk shear"@,
                "WRF native 0-1 km shear magnitude from model diagnostics"@,
            ),
        ),
        DerivedRecipe::BulkShear06km => Some(
            (
                NativeDerivedRecipe::WrfGdexVectorMagnitude {
                    u_variable: "USHR6",
                    v_variable: "VSHR6",
                },
                "0-6 km bulk shear"@,
                "WRF native 0-6 km shear magnitude from model diagnostics"@,
            ),
        ),
        _ => None,
    }
}

fn wrf_diagnostic_of(recipe: DerivedRecipe) -> (diagnostic: Option<
    (NativeDerivedRecipe, &'static str, &'static str),
>)
    ensures
        match diagnostic {
            Some((native, label, detail)) => wrf_diagnostic(recipe) == Some(
                (native, label@, detail@),
            ),
            None => wrf_diagnostic(recipe) is None,
        },
{
    match recipe {
        DerivedRecipe::Sbcape => Some(
            (
                NativeDerivedRecipe::WrfGdexScalar { variable: "SBCAPE" },
                "surface CAPE",
                "WRF native SBCAPE from model diagnostics",
            ),
        ),
        DerivedRecipe::Sbcin => Some(
            (
                NativeDerivedRecipe::WrfGdexScalar { variable: "SBCINH" },
                "surface CIN",
                "WRF native SBCINH from model diagnostics",
            ),
        ),
        DerivedRecipe::Sblcl => Some(
            (
                NativeDerivedRecipe::WrfGdexScalar { variable: "SBLCL" },
                "surface LCL height",
                "WRF native SBLCL from model diagnostics",
            ),
        ),
        DerivedRecipe::Mlcape => Some(
            (
                NativeDerivedRecipe::WrfGdexScalar { variable: "MLCAPE" },
                "mixed-layer CAPE",
                "WRF native MLCAPE from model diagnostics",
            ),
        ),
        DerivedRecipe::Mlcin => Some(
            (
                NativeDerivedRecipe::WrfGdexScalar { variable: "MLCINH" },
                "mixed-layer CIN",
                "WRF native MLCINH from model diagnostics",
            ),
        ),
        DerivedRecipe::Mucape => Some(
            (
                NativeDerivedRecipe::WrfGdexScalar { variable: "MUCAPE" },
                "most-unstable CAPE",
                "WRF native MUCAPE from model diagnostics",
            ),
        ),
        DerivedRecipe::Mucin => Some(
            (
                NativeDerivedRecipe::WrfGdexScalar { variable: "MUCINH" },
                "most-unstable CIN",
                "WRF native MUCINH from model diagnostics",
            ),
        ),
        DerivedRecipe::Srh01km => Some(
            (
                NativeDerivedRecipe::WrfGdexScalar { variable: "SRH01" },
                "0-1 km SRH",
                "WRF native SRH01 from model diagnostics",
            ),
        ),
        DerivedRecipe::Srh03km => Some(
            (
                NativeDerivedRecipe::WrfGdexScalar { variable: "SRH03" },
                "0-3 km SRH",
                "WRF native SRH03 from model diagnostics",
            ),
        ),
        DerivedRecipe::BulkShear01km => Some(
            (
                NativeDerivedRecipe::WrfGdexVectorMagnitude {
                    u_variable: "USHR1",
                    v_variable: "VSHR1",
                },
                "0-1 km bulk shear",
                "WRF native 0-1 km shear magnitude from model diagnostics",
            ),
        ),
        DerivedRecipe::BulkShear06km => Some(
            (
                NativeDerivedRecipe::WrfGdexVectorMagnitude {
                    u_variable: "USHR6",
                    v_variable: "VSHR6",
                },
                "0-6 km bulk shear",
                "WRF native 0-6 km shear magnitude from model diagnostics",
            ),
        ),
        _ => None,
    }
}

/// The native diagnostic that can stand for a recipe. A product of the WRF
/// archive that holds surface diagnostics comes first.
pub open spec fn native_candidate(
    model: ModelId,
    recipe: DerivedRecipe,
    table: NativeThermoTable,
    surface_product: Seq<char>,
) -> Option<(NativeDerivedRecipe, Candidate)> {
    match wrf_diagnostic(recipe) {
        Some((native, label, detail)) if model == ModelId::WrfGdex
            && presentation::native_surface_product(surface_product) => Some(
            (
                native,
                Candidate {
                    label,
                    semantics: NativeSemantics::ExactEquivalent,
                    auto_eligible: true,
                    detail,
                    fetch_product: surface_product,
                },
            ),
        ),
        _ => match thermo_recipe(recipe) {
            Some(native) => match table.spec_get(native) {
                Some(candidate) => Some((NativeDerivedRecipe::Thermo(native), candidate@)),
                None => None,
            },
            None => None,
        },
    }
}

fn planned_candidate_from_native(
    model: ModelId,
    recipe: DerivedRecipe,
    table: &NativeThermoTable,
    surface_product: &str,
) -> (planned: Option<(NativeDerivedRecipe, PlannedNativeDerivedCandidate)>)
    ensures
        match planned {
            Some((native, candidate)) => native_candidate(model, recipe, *table, surface_product@)
                == Some((native, candidate@)),
            None => native_candidate(model, recipe, *table, surface_product@) is None,
        },
{
    if model == ModelId::WrfGdex && wrf_gdex_native_surface_product(surface_product) {
        if let Some((native, label, detail)) = wrf_diagnostic_of(recipe) {
            return Some(
                (
                    native,
                    PlannedNativeDerivedCandidate {
                        label: label.to_owned(),
                        semantics: NativeSemantics::ExactEquivalent,
                        auto_eligible: true,
                        detail: detail.to_owned(),
                        fetch_product: surface_product.to_owned(),
                    },
                ),
            );
        }
    }
    match native_recipe_for_derived(recipe) {
        Some(native) => match table.get(native) {
            Some(candidate) => Some((NativeDerivedRecipe::Thermo(native), candidate.duplicate())),
            None => None,
        },
        None => None,
    }
}

/// How a recipe is realized.
#[derive(Debug, Clone, Copy, PartialEq, Eq, Structural)]
pub enum DerivedRoute {
    /// Computed on the cropped heavy domain.
    Heavy,
    /// Read from a native diagnostic.
    Native,
    /// Computed from surface and pressure fields.
    Compute,
    /// Not realized: it is heavy, and only fast routes are wanted.
    BlockedHeavy,
    /// Not realized: it has no fast route, and only fast routes are wanted.
    BlockedNoFastRoute,
}

/// Whether a native diagnostic is used although fast routes are not asked for:
/// always for the WRF archive, and for the GFS where it is an exact equivalent.
pub open spec fn native_in_canonical_mode(model: ModelId, semantics: NativeSemantics) -> bool {
    model == ModelId::WrfGdex || (model == ModelId::Gfs && semantics
        == NativeSemantics::ExactEquivalent)
}

/// What routes depend on.
pub struct RouteContext {
    pub model: ModelId,
    pub mode: ProductSourceMode,
    pub table: NativeThermoTable,
    pub surface_product: Seq<char>,
}

impl RouteContext {
    pub open spec fn candidate(self, recipe: DerivedRecipe) -> Option<
        (NativeDerivedRecipe, Candidate),
    > {
        native_candidate(self.model, recipe, self.table, self.surface_product)
    }

    /// How a recipe is realized.
    pub open spec fn route(self, recipe: DerivedRecipe) -> DerivedRoute {
        if recipe.spec_is_heavy() {
            match self.mode {
                ProductSourceMode::Canonical => DerivedRoute::Heavy,
                ProductSourceMode::Fastest => DerivedRoute::BlockedHeavy,
            }
        } else {
            match (self.mode, self.candidate(recipe)) {
                (ProductSourceMode::Canonical, Some((_, candidate))) => if native_in_canonical_mode(
                    self.model,
                    candidate.semantics,
                ) {
                    DerivedRoute::Native
                } else {
                    DerivedRoute::Compute
                },
                (ProductSourceMode::Canonical, None) => DerivedRoute::Compute,
                (ProductSourceMode::Fastest, Some(_)) => DerivedRoute::Native,
                (ProductSourceMode::Fastest, None) => DerivedRoute::BlockedNoFastRoute,
            }
        }
    }

    /// The recipes of a list that one of three routes realizes.
    pub open spec fn routed(
        self,
        list: Seq<DerivedRecipe>,
        a: DerivedRoute,
        b: DerivedRoute,
        c: DerivedRoute,
    ) -> Seq<DerivedRecipe>
        decreases list.len(),
    {
        if list.len() == 0 {
            Seq::empty()
        } else {
            let before = self.routed(list.drop_last(), a, b, c);
            let route = self.route(list.last());
            if route == a || route == b || route == c {
                before.push(list.last())
            } else {
                before
            }
        }
    }

    /// The recipes of a list that are realized.
    pub open spec fn outputs(self, list: Seq<DerivedRecipe>) -> Seq<DerivedRecipe> {
        self.routed(list, DerivedRoute::Heavy, DerivedRoute::Native, DerivedRoute::Compute)
    }

    /// The recipes of a list that are blocked.
    pub open spec fn blocked(self, list: Seq<DerivedRecipe>) -> Seq<DerivedRecipe> {
        self.routed(
            list,
            DerivedRoute::BlockedHeavy,
            DerivedRoute::BlockedNoFastRoute,
            DerivedRoute::BlockedNoFastRoute,
        )
    }

    /// The recipes of a list that one route realizes.
    pub open spec fn through(self, list: Seq<DerivedRecipe>, route: DerivedRoute) -> Seq<DerivedRecipe> {
        self.routed(list, route, route, route)
    }
}

/// A recipe that is not realized, and why.
pub struct DerivedRecipeBlocker {
    pub recipe_slug: String,
    pub source_route: ProductSourceRoute,
    pub reason: String,
}

/// Why a recipe is blocked.
pub open spec fn block_reason(recipe: DerivedRecipe, route: DerivedRoute) -> Seq<char> {
    "recipe '"@ + recipe.spec_slug()@ + (if route == DerivedRoute::BlockedHeavy {
        "' uses the cropped heavy ECAPE path; fastest mode will not fall back to canonical-derived compute"@
    } else {
        "' has no fast native/cheap route; fastest mode will not fall back to canonical-derived compute"@
    })
}

/// Whether a blocker is that of a recipe.
pub open spec fn blocks(
    blocker: DerivedRecipeBlocker,
    recipe: DerivedRecipe,
    route: DerivedRoute,
) -> bool {
    &&& blocker.recipe_slug@ == recipe.spec_slug()@
    &&& blocker.source_route == ProductSourceRoute::BlockedNoFastRoute
    &&& blocker.reason@ == block_reason(recipe, route)
}

/// A recipe that is read from a native diagnostic.
pub struct PlannedNativeThermoRoute {
    pub recipe: DerivedRecipe,
    pub native_recipe: NativeDerivedRecipe,
    pub candidate: PlannedNativeDerivedCandidate,
    pub source_route: ProductSourceRoute,
}

/// The route that a native diagnostic is published under.
pub open spec fn route_of_semantics(semantics: NativeSemantics) -> ProductSourceRoute {
    match semantics {
        NativeSemantics::ExactEquivalent => ProductSourceRoute::NativeExact,
        NativeSemantics::ProxyEquivalent => ProductSourceRoute::NativeProxy,
    }
}

fn native_source_route(semantics: NativeSemantics) -> (route: ProductSourceRoute)
    ensures
        route == route_of_semantics(semantics),
{
    match semantics {
        NativeSemantics::ExactEquivalent => ProductSourceRoute::NativeExact,
        NativeSemantics::ProxyEquivalent => ProductSourceRoute::NativeProxy,
    }
}

/// Whether a native route is that of a recipe.
pub open spec fn reads_native(
    route: PlannedNativeThermoRoute,
    recipe: DerivedRecipe,
    context: RouteContext,
) -> bool {
    &&& route.recipe == recipe
    &&& context.candidate(recipe) == Some((route.native_recipe, route.candidate@))
    &&& route.source_route == route_of_semantics(route.candidate.semantics)
}

/// How the recipes of a request are realized.
pub struct PlannedDerivedSourceRoutes {
    pub output_recipes: Vec<DerivedRecipe>,
    pub compute_recipes: Vec<DerivedRecipe>,
    pub heavy_recipes: Vec<DerivedRecipe>,
    pub native_routes: Vec<PlannedNativeThermoRoute>,
    pub blockers: Vec<DerivedRecipeBlocker>,
}

/// Whether a plan is that of a list of recipes.
pub open spec fn is_plan(
    plan: PlannedDerivedSourceRoutes,
    list: Seq<DerivedRecipe>,
    context: RouteContext,
) -> bool {
    let native = context.through(list, DerivedRoute::Native);
    let blocked = context.blocked(list);
    &&& plan.output_recipes@ == context.outputs(list)
    &&& plan.compute_recipes@ == context.through(list, DerivedRoute::Compute)
    &&& plan.heavy_recipes@ == context.through(list, DerivedRoute::Heavy)
    &&& plan.native_routes@.len() == native.len()
    &&& forall|i: int|
        0 <= i < native.len() ==> reads_native(
            #[trigger] plan.native_routes@[i],
            native[i],
            context,
        )
    &&& plan.blockers@.len() == blocked.len()
    &&& forall|i: int|
        0 <= i < blocked.len() ==> blocks(
            #[trigger] plan.blockers@[i],
            blocked[i],
            context.route(blocked[i]),
        )
}

fn blocker(recipe: DerivedRecipe, heavy: bool) -> (blocked: DerivedRecipeBlocker)
    ensures
        blocks(
            blocked,
            recipe,
            if heavy {
                DerivedRoute::BlockedHeavy
            } else {
                DerivedRoute::BlockedNoFastRoute
            },
        ),
{
    let why: &'static str = if heavy {
        "' uses the cropped heavy ECAPE path; fastest mode will not fall back to canonical-derived compute"
    } else {
        "' has no fast native/cheap route; fastest mode will not fall back to canonical-derived compute"
    };
    DerivedRecipeBlocker {
        recipe_slug: recipe.slug().to_owned(),
        source_route: ProductSourceRoute::BlockedNoFastRoute,
        reason: "recipe '".to_owned().concat(recipe.slug()).concat(why),
    }
}

/// Plans how a list of recipes is realized, each for itself and in the list's
/// order. `surface_product` is the product that surface fields come from.
pub fn plan_native_thermo_routes_with_surface_product(
    model: ModelId,
    recipes: &[DerivedRecipe],
    mode: ProductSourceMode,
    table: &NativeThermoTable,
    surface_product: &str,
) -> (plan: PlannedDerivedSourceRoutes)
    ensures
        is_plan(
            plan,
            recipes@,
            (RouteContext { model, mode, table: *table, surface_product: surface_product@ }),
        ),
{
    let ghost context = RouteContext {
        model,
        mode,
        table: *table,
        surface_product: surface_product@,
    };
    let mut plan = PlannedDerivedSourceRoutes {
        output_recipes: Vec::new(),
        compute_recipes: Vec::new(),
        heavy_recipes: Vec::new(),
        native_routes: Vec::new(),
        blockers: Vec::new(),
    };
    let mut i: usize = 0;
    while i < recipes.len()
        invariant
            i <= recipes@.len(),
            context == (RouteContext {
                model,
                mode,
                table: *table,
                surface_product: surface_product@,
            }),
            is_plan(plan, recipes@.take(i as int), context),
        decreases recipes@.len() - i,
    {
        let recipe = recipes[i];
        let ghost now = recipes@.take(i as int);
        let ghost next = recipes@.take(i + 1);
        proof {
            assert(next.drop_last() == now);
            assert(next.last() == recipe);
        }
        let ghost route = context.route(recipe);
        if recipe.is_heavy() {
            if mode == ProductSourceMode::Canonical {
                plan.output_recipes.push(recipe);
                plan.heavy_recipes.push(recipe);
            } else {
                plan.blockers.push(blocker(recipe, true));
            }
        } else {
            match planned_candidate_from_native(model, recipe, table, surface_product) {
                Some((native_recipe, candidate)) => {
                    if mode == ProductSourceMode::Fastest || model == ModelId::WrfGdex || (model
                        == ModelId::Gfs && candidate.semantics
                        == NativeSemantics::ExactEquivalent) {
                        let source_route = native_source_route(candidate.semantics);
                        plan.output_recipes.push(recipe);
                        plan.native_routes.push(
                            PlannedNativeThermoRoute {
                                recipe,
                                native_recipe,
                                candidate,
                                source_route,
                            },
                        );
                    } else {
                        plan.output_recipes.push(recipe);
                        plan.compute_recipes.push(recipe);
                    }
                },
                None => {
                    if mode == ProductSourceMode::Canonical {
                        plan.output_recipes.push(recipe);
                        plan.compute_recipes.push(recipe);
                    } else {
                        plan.blockers.push(blocker(recipe, false));
                    }
                },
            }
        }
        i = i + 1;
    }
    proof {
        assert(recipes@.take(i as int) == recipes@);
    }
    plan
}

/// A native diagnostic stands for a recipe exactly when it goes by the recipe's
/// slug, so that no two recipes share one.
pub proof fn law_native_diagnostics_go_by_the_slug(recipe: DerivedRecipe, native: NativeThermoRecipe)
    ensures
        thermo_recipe(recipe) == Some(native) <==> recipe.spec_slug()@ == native.name(),
{
    if recipe.spec_slug()@ == native.name() {
        match native {
            NativeThermoRecipe::Sbcape => recipe_laws::law_slugs_are_distinct(
                recipe,
                DerivedRecipe::Sbcape,
            ),
            NativeThermoRecipe::Sbcin => recipe_laws::law_slugs_are_distinct(
                recipe,
                DerivedRecipe::Sbcin,
            ),
            NativeThermoRecipe::Sblcl => recipe_laws::law_slugs_are_distinct(
                recipe,
                DerivedRecipe::Sblcl,
            ),
            NativeThermoRecipe::Mlcape => recipe_laws::law_slugs_are_distinct(
                recipe,
                DerivedRecipe::Mlcape,
            ),
            NativeThermoRecipe::Mlcin => recipe_laws::law_slugs_are_distinct(
                recipe,
                DerivedRecipe::Mlcin,
            ),
            NativeThermoRecipe::Mucape => recipe_laws::law_slugs_are_distinct(
                recipe,
                DerivedRecipe::Mucape,
            ),
            NativeThermoRecipe::Mucin => recipe_laws::law_slugs_are_distinct(
                recipe,
                DerivedRecipe::Mucin,
            ),
            NativeThermoRecipe::LiftedIndex => recipe_laws::law_slugs_are_distinct(
                recipe,
                DerivedRecipe::LiftedIndex,
            ),
        }
    }
}

/// No two recipes are read from the same native diagnostic.
pub proof fn law_recipes_share_no_native_diagnostic(
    context: RouteContext,
    a: DerivedRecipe,
    b: DerivedRecipe,
    native: NativeThermoRecipe,
)
    requires
        context.candidate(a) matches Some((native_a, _)) && native_a
            == NativeDerivedRecipe::Thermo(native),
        context.candidate(b) matches Some((native_b, _)) && native_b
            == NativeDerivedRecipe::Thermo(native),
    ensures
        a == b,
{
    law_native_diagnostics_go_by_the_slug(a, native);
    law_native_diagnostics_go_by_the_slug(b, native);
    recipe_laws::law_slugs_are_distinct(a, b);
}

/// A recipe that is read from a native thermodynamic diagnostic reads the one that
/// goes by its slug, as the entry of the table under that name describes it. Outside
/// the WRF archive such an entry is always found.
pub proof fn law_native_routes_read_the_entry_of_their_name(
    context: RouteContext,
    recipe: DerivedRecipe,
)
    ensures
        context.candidate(recipe) matches Some((native, candidate)) ==> (native matches
            NativeDerivedRecipe::Thermo(native) ==> {
            let slug = recipe.spec_slug()@;
            &&& native.name() == slug
            &&& slug == "sbcape"@ ==> (context.table.sbcape matches Some(entry) && entry@ == candidate)
            &&& slug == "sbcin"@ ==> (context.table.sbcin matches Some(entry) && entry@ == candidate)
            &&& slug == "sblcl"@ ==> (context.table.sblcl matches Some(entry) && entry@ == candidate)
            &&& slug == "mlcape"@ ==> (context.table.mlcape matches Some(entry) && entry@ == candidate)
            &&& slug == "mlcin"@ ==> (context.table.mlcin matches Some(entry) && entry@ == candidate)
            &&& slug == "mucape"@ ==> (context.table.mucape matches Some(entry) && entry@ == candidate)
            &&& slug == "mucin"@ ==> (context.table.mucin matches Some(entry) && entry@ == candidate)
            &&& slug == "lifted_index"@ ==> (context.table.lifted_index matches Some(entry) && entry@ == candidate)
        }),
        context.model != ModelId::WrfGdex ==> {
            &&& context.table.sbcape is Some ==> context.candidate(DerivedRecipe::Sbcape) is Some
            &&& context.table.sbcin is Some ==> context.candidate(DerivedRecipe::Sbcin) is Some
            &&& context.table.sblcl is Some ==> context.candidate(DerivedRecipe::Sblcl) is Some
            &&& context.table.mlcape is Some ==> context.candidate(DerivedRecipe::Mlcape) is Some
            &&& context.table.mlcin is Some ==> context.candidate(DerivedRecipe::Mlcin) is Some
            &&& context.table.mucape is Some ==> context.candidate(DerivedRecipe::Mucape) is Some
            &&& context.table.mucin is Some ==> context.candidate(DerivedRecipe::Mucin) is Some
            &&& context.table.lifted_index is Some ==> context.candidate(
                DerivedRecipe::LiftedIndex,
            ) is Some
        },
{
    if let Some((native, _)) = context.candidate(recipe) {
        if let NativeDerivedRecipe::Thermo(native) = native {
            law_native_diagnostics_go_by_the_slug(recipe, native);
            let slug = recipe.spec_slug()@;
            if slug == "sbcape"@ {
                recipe_laws::law_slugs_are_distinct(recipe, DerivedRecipe::Sbcape);
            }
            if slug == "sbcin"@ {
                recipe_laws::law_slugs_are_distinct(recipe, DerivedRecipe::Sbcin);
            }
            if slug == "sblcl"@ {
                recipe_laws::law_slugs_are_distinct(recipe, DerivedRecipe::Sblcl);
            }
            if slug == "mlcape"@ {
                recipe_laws::law_slugs_are_distinct(recipe, DerivedRecipe::Mlcape);
            }
            if slug == "mlcin"@ {
                recipe_laws::law_slugs_are_distinct(recipe, DerivedRecipe::Mlcin);
            }
            if slug == "mucape"@ {
                recipe_laws::law_slugs_are_distinct(recipe, DerivedRecipe::Mucape);
            }
            if slug == "mucin"@ {
                recipe_laws::law_slugs_are_distinct(recipe, DerivedRecipe::Mucin);
            }
            if slug == "lifted_index"@ {
                recipe_laws::law_slugs_are_distinct(recipe, DerivedRecipe::LiftedIndex);
            }
        }
    }
}

/// Every native route of a plan reads the diagnostic of its own recipe: a
/// thermodynamic one goes by the recipe's slug.
pub proof fn law_planned_native_routes_keep_the_slug(
    plan: PlannedDerivedSourceRoutes,
    list: Seq<DerivedRecipe>,
    context: RouteContext,
    i: int,
)
    requires
        is_plan(plan, list, context),
        0 <= i < plan.native_routes@.len(),
    ensures
        list.contains(plan.native_routes@[i].recipe),
        plan.native_routes@[i].native_recipe matches NativeDerivedRecipe::Thermo(native)
            ==> native.name() == plan.native_routes@[i].recipe.spec_slug()@,
{
    let through = context.through(list, DerivedRoute::Native);
    let recipe = through[i];
    assert(reads_native(plan.native_routes@[i], recipe, context));
    assert(through.contains(recipe));
    lemma_routed(
        context,
        list,
        DerivedRoute::Native,
        DerivedRoute::Native,
        DerivedRoute::Native,
        recipe,
    );
    law_native_routes_read_the_entry_of_their_name(context, recipe);
}

/// What the WRF archive provides for a recipe goes by the recipe's title. The
/// variable of a parcel recipe is the title, that of an inhibition with an `H`
/// behind it; the variable of a helicity holds the ends of the layer that the title
/// begins with; and a shear is had from the two components of the layer up to the
/// height in the title. The detail names a single variable.
pub proof fn law_wrf_variables_go_by_the_title(recipe: DerivedRecipe)
    ensures
        wrf_diagnostic(recipe) matches Some((native, label, detail)) ==> {
            let title = recipe.spec_title()@;
            match native {
                NativeDerivedRecipe::Thermo(_) => false,
                NativeDerivedRecipe::WrfGdexScalar { variable } => {
                    &&& detail == "WRF native "@ + variable@ + " from model diagnostics"@
                    &&& {
                        ||| variable@ == title
                        ||| variable@ == title + "H"@
                        ||| variable@ == "SRH"@ + seq![title[0], title[2]] && label == title
                    }
                },
                NativeDerivedRecipe::WrfGdexVectorMagnitude { u_variable, v_variable } => {
                    &&& u_variable@ == "USHR"@ + seq![title[2]]
                    &&& v_variable@ == "VSHR"@ + seq![title[2]]
                    &&& text::lowercased(label) == text::lowercased(title)
                },
            }
        },
{
    reveal_strlit("H");
    reveal_strlit("SRH");
    reveal_strlit("USHR");
    reveal_strlit("VSHR");
    reveal_strlit("WRF native ");
    reveal_strlit(" from model diagnostics");
    reveal_strlit("SBCAPE");
    reveal_strlit("WRF native SBCAPE from model diagnostics");
    reveal_strlit("SBCINH");
    reveal_strlit("WRF native SBCINH from model diagnostics");
    reveal_strlit("SBLCL");
    reveal_strlit("WRF native SBLCL from model diagnostics");
    reveal_strlit("MLCAPE");
    reveal_strlit("WRF native MLCAPE from model diagnostics");
    reveal_strlit("MLCINH");
    reveal_strlit("WRF native MLCINH from model diagnostics");
    reveal_strlit("MUCAPE");
    reveal_strlit("WRF native MUCAPE from model diagnostics");
    reveal_strlit("MUCINH");
    reveal_strlit("WRF native MUCINH from model diagnostics");
    reveal_strlit("SRH01");
    reveal_strlit("WRF native SRH01 from model diagnostics");
    reveal_strlit("SRH03");
    reveal_strlit("WRF native SRH03 from model diagnostics");
    reveal_strlit("USHR1");
    reveal_strlit("VSHR1");
    reveal_strlit("USHR6");
    reveal_strlit("VSHR6");
    reveal_strlit("SBCIN");
    reveal_strlit("MLCIN");
    reveal_strlit("MUCIN");
    reveal_strlit("0-1 km SRH");
    reveal_strlit("0-3 km SRH");
    reveal_strlit("0-1 km bulk shear");
    reveal_strlit("0-6 km bulk shear");
    reveal_strlit("0-1 km Bulk Shear");
    reveal_strlit("0-6 km Bulk Shear");
    if let Some((native, label, detail)) = wrf_diagnostic(recipe) {
        let title = recipe.spec_title()@;
        match native {
            NativeDerivedRecipe::Thermo(_) => {},
            NativeDerivedRecipe::WrfGdexScalar { variable } => {
                assert(detail =~= "WRF native "@ + variable@ + " from model diagnostics"@);
                if recipe == DerivedRecipe::Srh01km || recipe == DerivedRecipe::Srh03km {
                    assert(variable@ =~= "SRH"@ + seq![title[0], title[2]]);
                } else if variable@ != title {
                    assert(variable@ =~= title + "H"@);
                }
            },
            NativeDerivedRecipe::WrfGdexVectorMagnitude { u_variable, v_variable } => {
                assert(u_variable@ =~= "USHR"@ + seq![title[2]]);
                assert(v_variable@ =~= "VSHR"@ + seq![title[2]]);
                assert(text::lowercased(label) =~= text::lowercased(title));
            },
        }
    }
}

/// Every recipe of a list is either realized or blocked, and a recipe that is
/// realized takes exactly one of the three ways.
pub proof fn law_routes_partition_the_recipes(
    context: RouteContext,
    list: Seq<DerivedRecipe>,
    recipe: DerivedRecipe,
)
    ensures
        context.outputs(list).len() + context.blocked(list).len() == list.len(),
        context.through(list, DerivedRoute::Heavy).len() + context.through(list, DerivedRoute::Native).len()
            + context.through(list, DerivedRoute::Compute).len() == context.outputs(list).len(),
        context.outputs(list).contains(recipe) || context.blocked(list).contains(recipe)
            <==> list.contains(recipe),
        !(context.outputs(list).contains(recipe) && context.blocked(list).contains(recipe)),
    decreases list.len(),
{
    lemma_routed(
        context,
        list,
        DerivedRoute::Heavy,
        DerivedRoute::Native,
        DerivedRoute::Compute,
        recipe,
    );
    lemma_routed(
        context,
        list,
        DerivedRoute::BlockedHeavy,
        DerivedRoute::BlockedNoFastRoute,
        DerivedRoute::BlockedNoFastRoute,
        recipe,
    );
    if list.len() > 0 {
        law_routes_partition_the_recipes(context, list.drop_last(), recipe);
    }
}

proof fn lemma_routed(
    context: RouteContext,
    list: Seq<DerivedRecipe>,
    a: DerivedRoute,
    b: DerivedRoute,
    c: DerivedRoute,
    recipe: DerivedRecipe,
)
    ensures
        context.routed(list, a, b, c).contains(recipe) <==> list.contains(recipe) && (context.route(
            recipe,
        ) == a || context.route(recipe) == b || context.route(recipe) == c),
    decreases list.len(),
{
    if list.len() > 0 {
        let rest = list.drop_last();
        lemma_routed(context, rest, a, b, c, recipe);
        let before = context.routed(rest, a, b, c);
        let after = context.routed(list, a, b, c);
        if rest.contains(recipe) {
            let i = choose|i: int| 0 <= i < rest.len() && rest[i] == recipe;
            assert(list[i] == recipe);
        }
        if list.contains(recipe) && recipe != list.last() {
            let i = choose|i: int| 0 <= i < list.len() && list[i] == recipe;
            assert(rest[i] == recipe);
        }
        assert(list[list.len() - 1] == list.last());
        if after.len() > before.len() {
            assert(after[after.len() - 1] == list.last());
            if before.contains(recipe) {
                let i = choose|i: int| 0 <= i < before.len() && before[i] == recipe;
                assert(after[i] == recipe);
            }
            if after.contains(recipe) && recipe != list.last() {
                let i = choose|i: int| 0 <= i < after.len() && after[i] == recipe;
                assert(before[i] == recipe);
            }
        }
    }
}

/// Where only fast routes are wanted nothing is computed, and where they are not
/// nothing is blocked.
pub proof fn law_mode_decides_blocking(context: RouteContext, list: Seq<DerivedRecipe>)
    ensures
        context.mode == ProductSourceMode::Canonical ==> context.blocked(list).len() == 0,
        context.mode == ProductSourceMode::Fastest ==> context.through(list, DerivedRoute::Compute).len()
            == 0 && context.through(list, DerivedRoute::Heavy).len() == 0,
    decreases list.len(),
{
    if list.len() > 0 {
        law_mode_decides_blocking(context, list.drop_last());
    }
}

/// How the run of a request is found.
pub enum RunResolution {
    /// The run of the given cycle, without asking what is available.
    Pinned { hour_utc: u8 },
    /// The run of a surface and pressure pair at the given cycle.
    ThermoPair { hour_utc: u8 },
    /// The latest run that has the forecast hour.
    LatestAtForecastHour,
    /// The latest run that has the given products at the forecast hour.
    LatestForProducts { products: Vec<String> },
}

/// The products that a run must have.
pub open spec fn required_product(
    product: Seq<char>,
    needs_pair: bool,
    surface_product: Seq<char>,
    pressure_product: Seq<char>,
    native_routes: Seq<PlannedNativeThermoRoute>,
) -> bool {
    ||| needs_pair && (product == surface_product || product == pressure_product)
    ||| exists|i: int|
        0 <= i < native_routes.len() && (#[trigger] native_routes[i]).candidate.fetch_product@
            == product
}

/// Whether a request needs surface and pressure fields together.
pub open spec fn needs_pair(compute: Seq<DerivedRecipe>, heavy: Seq<DerivedRecipe>) -> bool {
    requirements::need_of_all(compute).spec_needs_pressure_fields() || heavy.len() > 0
}

/// Decides how the run of a request is found. A given cycle is taken as it is,
/// through the pair where the request needs one. Otherwise it is the latest run
/// that has every product that the request reads.
pub fn resolve_derived_run(
    cycle_override_utc: Option<u8>,
    derived_compute_recipes: &[DerivedRecipe],
    heavy_recipes: &[DerivedRecipe],
    native_routes: &Vec<PlannedNativeThermoRoute>,
    surface_product: &str,
    pressure_product: &str,
) -> (resolution: RunResolution)
    ensures
        ({
            let pair = needs_pair(derived_compute_recipes@, heavy_recipes@);
            match cycle_override_utc {
                Some(hour) => if pair {
                    resolution == RunResolution::ThermoPair { hour_utc: hour }
                } else {
                    resolution == RunResolution::Pinned { hour_utc: hour }
                },
                None => if !pair && native_routes@.len() == 0 {
                    resolution == RunResolution::LatestAtForecastHour
                } else {
                    resolution matches RunResolution::LatestForProducts { products } && {
                        &&& sorted::ordered(text::texts(products@))
                        &&& forall|p: Seq<char>|
                            #[trigger] text::texts(products@).contains(p) <==> required_product(
                                p,
                                pair,
                                surface_product@,
                                pressure_product@,
                                native_routes@,
                            )
                    }
                },
            }
        }),
{
    let pair = derived_compute_recipes_need_pressure(derived_compute_recipes)
        || heavy_recipes.len() > 0;
    if let Some(hour_utc) = cycle_override_utc {
        if pair {
            return RunResolution::ThermoPair { hour_utc };
        }
        return RunResolution::Pinned { hour_utc };
    }
    if !pair && native_routes.len() == 0 {
        return RunResolution::LatestAtForecastHour;
    }
    let mut products: Vec<String> = Vec::new();
    if pair {
        insert_ordered(&mut products, surface_product.to_owned());
        insert_ordered(&mut products, pressure_product.to_owned());
    }
    let mut i: usize = 0;
    while i < native_routes.len()
        invariant
            i <= native_routes@.len(),
            sorted::ordered(text::texts(products@)),
            forall|p: Seq<char>|
                #[trigger] text::texts(products@).contains(p) <==> required_product(
                    p,
                    pair,
                    surface_product@,
                    pressure_product@,
                    native_routes@.take(i as int),
                ),
        decreases native_routes@.len() - i,
    {
        let ghost now = native_routes@.take(i as int);
        let ghost next = native_routes@.take(i + 1);
        let ghost added = native_routes@[i as int].candidate.fetch_product@;
        insert_ordered(&mut products, native_routes[i].candidate.fetch_product.clone());
        proof {
            assert forall|p: Seq<char>|
                #![trigger text::texts(products@).contains(p)]
                required_product(p, pair, surface_product@, pressure_product@, next)
                    <==> required_product(p, pair, surface_product@, pressure_product@, now) || p
                    == added by {
                assert(next[i as int].candidate.fetch_product@ == added);
                if exists|k: int|
                    0 <= k < now.len() && (#[trigger] now[k]).candidate.fetch_product@ == p {
                    let k = choose|k: int|
                        0 <= k < now.len() && (#[trigger] now[k]).candidate.fetch_product@ == p;
                    assert(next[k] == now[k]);
                }
                if exists|k: int|
                    0 <= k < next.len() && (#[trigger] next[k]).candidate.fetch_product@ == p {
                    let k = choose|k: int|
                        0 <= k < next.len() && (#[trigger] next[k]).candidate.fetch_product@ == p;
                    if k < i {
                        assert(now[k] == next[k]);
                    }
                }
            }
        }
        i = i + 1;
    }
    proof {
        assert(native_routes@.take(i as int) == native_routes@);
    }
    RunResolution::LatestForProducts { products }
}

/// A bundle that a plan asks for.
pub struct BundleRequest {
    pub bundle: CanonicalBundleDescriptor,
    pub native_override: Option<String>,
    pub logical_family: Option<String>,
}

/// A bundle request as a mathematical value.
pub struct Requested {
    pub bundle: CanonicalBundleDescriptor,
    pub native_override: Option<Seq<char>>,
    pub logical_family: Option<Seq<char>>,
}

impl View for BundleRequest {
    type V = Requested;

    open spec fn view(&self) -> Requested {
        Requested {
            bundle: self.bundle,
            native_override: match self.native_override {
                Some(product) => Some(product@),
                None => None,
            },
            logical_family: match self.logical_family {
                Some(family) => Some(family@),
                None => None,
            },
        }
    }
}

/// The requests of a list as mathematical values.
pub open spec fn requested(list: Seq<BundleRequest>) -> Seq<Requested> {
    Seq::new(list.len(), |i: int| list[i]@)
}

/// The requests of a pair, where there is one, as mathematical values.
pub open spec fn requested_pair(pair: Option<Vec<BundleRequest>>) -> Option<Seq<Requested>> {
    match pair {
        Some(requests) => Some(requested(requests@)),
        None => None,
    }
}

/// The distinct products of a list of native routes, in the order in which they
/// are first seen.
pub open spec fn native_products(routes: Seq<PlannedNativeThermoRoute>) -> Seq<Seq<char>>
    decreases routes.len(),
{
    if routes.len() == 0 {
        Seq::empty()
    } else {
        text::with_distinct(
            native_products(routes.drop_last()),
            routes.last().candidate.fetch_product@,
        )
    }
}

/// The request for a product of native diagnostics.
pub open spec fn native_request(product: Seq<char>) -> Requested {
    Requested {
        bundle: CanonicalBundleDescriptor::NativeAnalysis,
        native_override: Some(product),
        logical_family: Some("thermo-native:"@ + product),
    }
}

/// The request for surface fields alone.
pub open spec fn surface_request(product: Seq<char>) -> Requested {
    Requested {
        bundle: CanonicalBundleDescriptor::SurfaceAnalysis,
        native_override: Some(product),
        logical_family: Some("sfc"@),
    }
}

/// The bundles of a plan: those of the pair, or the surface alone, or neither,
/// and then each product of native diagnostics once.
pub open spec fn planned_requests(
    pair: Option<Seq<Requested>>,
    include_surface: bool,
    surface_product: Seq<char>,
    routes: Seq<PlannedNativeThermoRoute>,
) -> Seq<Requested> {
    let first = match pair {
        Some(requests) => requests,
        None => if include_surface {
            seq![surface_request(surface_product)]
        } else {
            Seq::empty()
        },
    };
    first + native_requests(routes)
}

/// The requests for the products of native diagnostics, each once.
pub open spec fn native_requests(routes: Seq<PlannedNativeThermoRoute>) -> Seq<Requested> {
    Seq::new(native_products(routes).len(), |i: int| native_request(native_products(routes)[i]))
}

/// Plans the bundles of a request. `pair` holds the requests of a surface and
/// pressure pair, where one is needed.
pub fn build_derived_execution_plan(
    pair: Option<Vec<BundleRequest>>,
    include_surface: bool,
    surface_product: &str,
    native_routes: &Vec<PlannedNativeThermoRoute>,
) -> (requests: Vec<BundleRequest>)
    ensures
        requested(requests@) == planned_requests(
            requested_pair(pair),
            include_surface,
            surface_product@,
            native_routes@,
        ),
{
    let ghost given = requested_pair(pair);
    let mut requests: Vec<BundleRequest> = match pair {
        Some(requests) => requests,
        None => {
            let mut requests: Vec<BundleRequest> = Vec::new();
            if include_surface {
                requests.push(
                    BundleRequest {
                        bundle: CanonicalBundleDescriptor::SurfaceAnalysis,
                        native_override: Some(surface_product.to_owned()),
                        logical_family: Some("sfc".to_owned()),
                    },
                );
                proof {
                    assert(requested(requests@) =~= seq![surface_request(surface_product@)]);
                }
            } else {
                proof {
                    assert(requested(requests@) =~= Seq::<Requested>::empty());
                }
            }
            requests
        },
    };
    let ghost first = requested(requests@);
    let mut seen: Vec<String> = Vec::new();
    let mut i: usize = 0;
    proof {
        assert(text::texts(seen@) =~= native_products(native_routes@.take(0)));
        assert(requested(requests@) =~= first + native_requests(native_routes@.take(0)));
        assert(planned_requests(given, include_surface, surface_product@, native_routes@) == first
            + native_requests(native_routes@));
    }
    while i < native_routes.len()
        invariant
            i <= native_routes@.len(),
            text::texts(seen@) == native_products(native_routes@.take(i as int)),
            requested(requests@) == first + native_requests(native_routes@.take(i as int)),
        decreases native_routes@.len() - i,
    {
        let product = native_routes[i].candidate.fetch_product.as_str();
        let ghost now = native_routes@.take(i as int);
        let ghost next = native_routes@.take(i + 1);
        let ghost before = requests@;
        proof {
            assert(next.drop_last() == now);
        }
        if !contains_text(seen.as_slice(), product) {
            seen.push(product.to_owned());
            requests.push(
                BundleRequest {
                    bundle: CanonicalBundleDescriptor::NativeAnalysis,
                    native_override: Some(product.to_owned()),
                    logical_family: Some("thermo-native:".to_owned().concat(product)),
                },
            );
            proof {
                assert(text::texts(seen@) =~= native_products(now).push(product@));
                assert(requests@.last()@ == native_request(product@));
                assert(requested(requests@) =~= requested(before).push(native_request(product@)));
                assert(native_requests(next) =~= native_requests(now).push(
                    native_request(product@),
                ));
            }
        }
        i = i + 1;
    }
    proof {
        assert(native_routes@.take(i as int) == native_routes@);
    }
    requests
}

} // verus!
