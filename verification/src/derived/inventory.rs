//! The inventory of derived recipes: which are offered, and which are known but
//! blocked.
use crate::derived::recipe_laws;
use crate::derived::recipes;
use crate::derived::recipes::DerivedRecipe;
use vstd::prelude::*;

verus! {

/// One offered recipe.
#[derive(Debug, Clone, Copy, PartialEq, Eq)]
pub struct DerivedRecipeInventoryEntry {
    pub slug: &'static str,
    pub title: &'static str,
    pub experimental: bool,
    pub heavy: bool,
}

/// One recipe that is known by name but cannot be computed, and why.
#[derive(Debug, Clone, Copy, PartialEq, Eq)]
pub struct BlockedDerivedRecipeInventoryEntry {
    pub slug: &'static str,
    pub title: &'static str,
    pub reason: &'static str,
}

/// Every recipe, in inventory order.
pub open spec fn all_recipes() -> Seq<DerivedRecipe> {
    seq![
        DerivedRecipe::Sbcape,
        DerivedRecipe::Sbcin,
        DerivedRecipe::Sblcl,
        DerivedRecipe::Mlcape,
        DerivedRecipe::Mlcin,
        DerivedRecipe::Mucape,
        DerivedRecipe::Mucin,
        DerivedRecipe::Dcape,
        DerivedRecipe::Sbecape,
        DerivedRecipe::Mlecape,
        DerivedRecipe::Muecape,
        DerivedRecipe::SbEcapeDerivedCapeRatio,
        DerivedRecipe::MlEcapeDerivedCapeRatio,
        DerivedRecipe::MuEcapeDerivedCapeRatio,
        DerivedRecipe::SbEcapeNativeCapeRatio,
        DerivedRecipe::MlEcapeNativeCapeRatio,
        DerivedRecipe::MuEcapeNativeCapeRatio,
        DerivedRecipe::Sbncape,
        DerivedRecipe::Sbecin,
        DerivedRecipe::Mlecin,
        DerivedRecipe::EcapeScp,
        DerivedRecipe::EcapeEhi01km,
        DerivedRecipe::EcapeEhi03km,
        DerivedRecipe::EcapeStp,
        DerivedRecipe::ThetaE2m10mWinds,
        DerivedRecipe::Vpd2m,
        DerivedRecipe::DewpointDepression2m,
        DerivedRecipe::Wetbulb2m,
        DerivedRecipe::FireWeatherComposite,
        DerivedRecipe::ApparentTemperature2m,
        DerivedRecipe::HeatIndex2m,
        DerivedRecipe::WindChill2m,
        DerivedRecipe::LiftedIndex,
        DerivedRecipe::LapseRate700500,
        DerivedRecipe::LapseRate03km,
        DerivedRecipe::BulkShear01km,
        DerivedRecipe::BulkShear06km,
        DerivedRecipe::Srh01km,
        DerivedRecipe::Srh03km,
        DerivedRecipe::Ehi01km,
        DerivedRecipe::Ehi03km,
        DerivedRecipe::StpFixed,
        DerivedRecipe::ScpMu03km06kmProxy,
        DerivedRecipe::TemperatureAdvection700mb,
        DerivedRecipe::TemperatureAdvection850mb,
    ]
}

/// Whether a recipe is offered as experimental.
pub open spec fn experimental(recipe: DerivedRecipe) -> bool {
    match recipe {
        DerivedRecipe::SbEcapeDerivedCapeRatio
        | DerivedRecipe::MlEcapeDerivedCapeRatio
        | DerivedRecipe::MuEcapeDerivedCapeRatio
        | DerivedRecipe::SbEcapeNativeCapeRatio
        | DerivedRecipe::MlEcapeNativeCapeRatio
        | DerivedRecipe::MuEcapeNativeCapeRatio
        | DerivedRecipe::EcapeScp
        | DerivedRecipe::EcapeEhi01km
        | DerivedRecipe::EcapeEhi03km
        | DerivedRecipe::EcapeStp
        | DerivedRecipe::ScpMu03km06kmProxy => true,
        _ => false,
    }
}

/// The title a recipe is listed under. It is the recipe's own title, except that
/// the theta-e map is listed with its wind barbs.
pub open spec fn inventory_title(recipe: DerivedRecipe) -> Seq<char> {
    match recipe {
        DerivedRecipe::ThetaE2m10mWinds => "2 m Theta-e, 10 m Wind Barbs"@,
        _ => recipe.spec_title()@,
    }
}

/// Whether an entry is the inventory line of a recipe.
pub open spec fn lists(entry: DerivedRecipeInventoryEntry, recipe: DerivedRecipe) -> bool {
    &&& entry.slug@ == recipe.spec_slug()@
    &&& entry.title@ == inventory_title(recipe)
    &&& entry.experimental == experimental(recipe)
    &&& entry.heavy == recipe.spec_is_heavy()
}

/// Every recipe, in inventory order.
pub fn all_derived_recipes() -> (list: Vec<DerivedRecipe>)
    ensures
        list@ == all_recipes(),
{
    let list = vec![
        DerivedRecipe::Sbcape,
        DerivedRecipe::Sbcin,
        DerivedRecipe::Sblcl,
        DerivedRecipe::Mlcape,
        DerivedRecipe::Mlcin,
        DerivedRecipe::Mucape,
        DerivedRecipe::Mucin,
        DerivedRecipe::Dcape,
        DerivedRecipe::Sbecape,
        DerivedRecipe::Mlecape,
        DerivedRecipe::Muecape,
        DerivedRecipe::SbEcapeDerivedCapeRatio,
        DerivedRecipe::MlEcapeDerivedCapeRatio,
        DerivedRecipe::MuEcapeDerivedCapeRatio,
        DerivedRecipe::SbEcapeNativeCapeRatio,
        DerivedRecipe::MlEcapeNativeCapeRatio,
        DerivedRecipe::MuEcapeNativeCapeRatio,
        DerivedRecipe::Sbncape,
        DerivedRecipe::Sbecin,
        DerivedRecipe::Mlecin,
        DerivedRecipe::EcapeScp,
        DerivedRecipe::EcapeEhi01km,
        DerivedRecipe::EcapeEhi03km,
        DerivedRecipe::EcapeStp,
        DerivedRecipe::ThetaE2m10mWinds,
        DerivedRecipe::Vpd2m,
        DerivedRecipe::DewpointDepression2m,
        DerivedRecipe::Wetbulb2m,
        DerivedRecipe::FireWeatherComposite,
        DerivedRecipe::ApparentTemperature2m,
        DerivedRecipe::HeatIndex2m,
        DerivedRecipe::WindChill2m,
        DerivedRecipe::LiftedIndex,
        DerivedRecipe::LapseRate700500,
        DerivedRecipe::LapseRate03km,
        DerivedRecipe::BulkShear01km,
        DerivedRecipe::BulkShear06km,
        DerivedRecipe::Srh01km,
        DerivedRecipe::Srh03km,
        DerivedRecipe::Ehi01km,
        DerivedRecipe::Ehi03km,
        DerivedRecipe::StpFixed,
        DerivedRecipe::ScpMu03km06kmProxy,
        DerivedRecipe::TemperatureAdvection700mb,
        DerivedRecipe::TemperatureAdvection850mb,
    ];
    assert(list@ =~= all_recipes());
    list
}

fn is_experimental(recipe: DerivedRecipe) -> (yes: bool)
    ensures
        yes == experimental(recipe),
{
    match recipe {
        DerivedRecipe::SbEcapeDerivedCapeRatio
        | DerivedRecipe::MlEcapeDerivedCapeRatio
        | DerivedRecipe::MuEcapeDerivedCapeRatio
        | DerivedRecipe::SbEcapeNativeCapeRatio
        | DerivedRecipe::MlEcapeNativeCapeRatio
        | DerivedRecipe::MuEcapeNativeCapeRatio
        | DerivedRecipe::EcapeScp
        | DerivedRecipe::EcapeEhi01km
        | DerivedRecipe::EcapeEhi03km
        | DerivedRecipe::EcapeStp
        | DerivedRecipe::ScpMu03km06kmProxy => true,
        _ => false,
    }
}

/// The inventory line of a recipe.
pub fn inventory_entry(recipe: DerivedRecipe) -> (entry: DerivedRecipeInventoryEntry)
    ensures
        lists(entry, recipe),
{
    let title = match recipe {
        DerivedRecipe::ThetaE2m10mWinds => "2 m Theta-e, 10 m Wind Barbs",
        _ => recipe.title(),
    };
    DerivedRecipeInventoryEntry {
        slug: recipe.slug(),
        title,
        experimental: is_experimental(recipe),
        heavy: recipe.is_heavy(),
    }
}

/// The offered recipes, one entry for each, in inventory order.
pub fn supported_derived_recipe_inventory() -> (entries: Vec<DerivedRecipeInventoryEntry>)
    ensures
        entries@.len() == all_recipes().len(),
        forall|i: int| 0 <= i < entries@.len() ==> lists(#[trigger] entries@[i], all_recipes()[i]),
{
    let list = all_derived_recipes();
    let mut entries: Vec<DerivedRecipeInventoryEntry> = Vec::new();
    let mut i: usize = 0;
    while i < list.len()
        invariant
            i <= list.len(),
            list@ == all_recipes(),
            entries@.len() == i,
            forall|k: int| 0 <= k < i ==> lists(#[trigger] entries@[k], all_recipes()[k]),
        decreases list.len() - i,
    {
        entries.push(inventory_entry(list[i]));
        i += 1;
    }
    entries
}

/// The blocked recipes: slug, title and reason of each, in order.
pub open spec fn blocked_recipes() -> Seq<(Seq<char>, Seq<char>, Seq<char>)> {
    seq![
        (
            "stp_effective"@,
            "STP (EFFECTIVE)"@,
            "requires mixed-layer CAPE/CIN/LCL plus effective SRH and effective bulk wind difference; rustwx-products does not yet derive effective SRH or EBWD from HRRR profiles"@,
        ),
        (
            "scp"@,
            "SCP"@,
            "requires effective SRH and effective bulk wind difference; rustwx-products does not yet derive those effective-layer kinematics from HRRR profiles"@,
        ),
        (
            "scp_effective"@,
            "SCP (EFFECTIVE)"@,
            "requires effective SRH and effective bulk wind difference; rustwx-products does not yet derive those effective-layer kinematics from HRRR profiles"@,
        ),
    ]
}

/// The recipes that are known by name but cannot be computed, in order.
pub fn blocked_derived_recipe_inventory() -> (entries: Vec<BlockedDerivedRecipeInventoryEntry>)
    ensures
        entries@.len() == blocked_recipes().len(),
        forall|i: int|
            0 <= i < entries@.len() ==> ((#[trigger] entries@[i]).slug@, entries@[i].title@, entries@[i].reason@)
                == blocked_recipes()[i],
{
    vec![
        BlockedDerivedRecipeInventoryEntry {
            slug: "stp_effective",
            title: "STP (EFFECTIVE)",
            reason: "requires mixed-layer CAPE/CIN/LCL plus effective SRH and effective bulk wind difference; rustwx-products does not yet derive effective SRH or EBWD from HRRR profiles",
        },
        BlockedDerivedRecipeInventoryEntry {
            slug: "scp",
            title: "SCP",
            reason: "requires effective SRH and effective bulk wind difference; rustwx-products does not yet derive those effective-layer kinematics from HRRR profiles",
        },
        BlockedDerivedRecipeInventoryEntry {
            slug: "scp_effective",
            title: "SCP (EFFECTIVE)",
            reason: "requires effective SRH and effective bulk wind difference; rustwx-products does not yet derive those effective-layer kinematics from HRRR profiles",
        },
    ]
}

/// Every recipe stands in the inventory, once.
pub proof fn law_inventory_lists_every_recipe_once(recipe: DerivedRecipe)
    ensures
        all_recipes().contains(recipe),
        all_recipes().no_duplicates(),
{
    let list = all_recipes();
    match recipe {
        DerivedRecipe::Sbcape => assert(list[0] == recipe),
        DerivedRecipe::Sbcin => assert(list[1] == recipe),
        DerivedRecipe::Sblcl => assert(list[2] == recipe),
        DerivedRecipe::Mlcape => assert(list[3] == recipe),
        DerivedRecipe::Mlcin => assert(list[4] == recipe),
        DerivedRecipe::Mucape => assert(list[5] == recipe),
        DerivedRecipe::Mucin => assert(list[6] == recipe),
        DerivedRecipe::Dcape => assert(list[7] == recipe),
        DerivedRecipe::Sbecape => assert(list[8] == recipe),
        DerivedRecipe::Mlecape => assert(list[9] == recipe),
        DerivedRecipe::Muecape => assert(list[10] == recipe),
        DerivedRecipe::SbEcapeDerivedCapeRatio => assert(list[11] == recipe),
        DerivedRecipe::MlEcapeDerivedCapeRatio => assert(list[12] == recipe),
        DerivedRecipe::MuEcapeDerivedCapeRatio => assert(list[13] == recipe),
        DerivedRecipe::SbEcapeNativeCapeRatio => assert(list[14] == recipe),
        DerivedRecipe::MlEcapeNativeCapeRatio => assert(list[15] == recipe),
        DerivedRecipe::MuEcapeNativeCapeRatio => assert(list[16] == recipe),
        DerivedRecipe::Sbncape => assert(list[17] == recipe),
        DerivedRecipe::Sbecin => assert(list[18] == recipe),
        DerivedRecipe::Mlecin => assert(list[19] == recipe),
        DerivedRecipe::EcapeScp => assert(list[20] == recipe),
        DerivedRecipe::EcapeEhi01km => assert(list[21] == recipe),
        DerivedRecipe::EcapeEhi03km => assert(list[22] == recipe),
        DerivedRecipe::EcapeStp => assert(list[23] == recipe),
        DerivedRecipe::ThetaE2m10mWinds => assert(list[24] == recipe),
        DerivedRecipe::Vpd2m => assert(list[25] == recipe),
        DerivedRecipe::DewpointDepression2m => assert(list[26] == recipe),
        DerivedRecipe::Wetbulb2m => assert(list[27] == recipe),
        DerivedRecipe::FireWeatherComposite => assert(list[28] == recipe),
        DerivedRecipe::ApparentTemperature2m => assert(list[29] == recipe),
        DerivedRecipe::HeatIndex2m => assert(list[30] == recipe),
        DerivedRecipe::WindChill2m => assert(list[31] == recipe),
        DerivedRecipe::LiftedIndex => assert(list[32] == recipe),
        DerivedRecipe::LapseRate700500 => assert(list[33] == recipe),
        DerivedRecipe::LapseRate03km => assert(list[34] == recipe),
        DerivedRecipe::BulkShear01km => assert(list[35] == recipe),
        DerivedRecipe::BulkShear06km => assert(list[36] == recipe),
        DerivedRecipe::Srh01km => assert(list[37] == recipe),
        DerivedRecipe::Srh03km => assert(list[38] == recipe),
        DerivedRecipe::Ehi01km => assert(list[39] == recipe),
        DerivedRecipe::Ehi03km => assert(list[40] == recipe),
        DerivedRecipe::StpFixed => assert(list[41] == recipe),
        DerivedRecipe::ScpMu03km06kmProxy => assert(list[42] == recipe),
        DerivedRecipe::TemperatureAdvection700mb => assert(list[43] == recipe),
        DerivedRecipe::TemperatureAdvection850mb => assert(list[44] == recipe),
    }
    lemma_inventory_has_no_repeats();
}

/// The place of a recipe in the inventory.
pub open spec fn inventory_index(recipe: DerivedRecipe) -> int {
    match recipe {
        DerivedRecipe::Sbcape => 0,
        DerivedRecipe::Sbcin => 1,
        DerivedRecipe::Sblcl => 2,
        DerivedRecipe::Mlcape => 3,
        DerivedRecipe::Mlcin => 4,
        DerivedRecipe::Mucape => 5,
        DerivedRecipe::Mucin => 6,
        DerivedRecipe::Dcape => 7,
        DerivedRecipe::Sbecape => 8,
        DerivedRecipe::Mlecape => 9,
        DerivedRecipe::Muecape => 10,
        DerivedRecipe::SbEcapeDerivedCapeRatio => 11,
        DerivedRecipe::MlEcapeDerivedCapeRatio => 12,
        DerivedRecipe::MuEcapeDerivedCapeRatio => 13,
        DerivedRecipe::SbEcapeNativeCapeRatio => 14,
        DerivedRecipe::MlEcapeNativeCapeRatio => 15,
        DerivedRecipe::MuEcapeNativeCapeRatio => 16,
        DerivedRecipe::Sbncape => 17,
        DerivedRecipe::Sbecin => 18,
        DerivedRecipe::Mlecin => 19,
        DerivedRecipe::EcapeScp => 20,
        DerivedRecipe::EcapeEhi01km => 21,
        DerivedRecipe::EcapeEhi03km => 22,
        DerivedRecipe::EcapeStp => 23,
        DerivedRecipe::ThetaE2m10mWinds => 24,
        DerivedRecipe::Vpd2m => 25,
        DerivedRecipe::DewpointDepression2m => 26,
        DerivedRecipe::Wetbulb2m => 27,
        DerivedRecipe::FireWeatherComposite => 28,
        DerivedRecipe::ApparentTemperature2m => 29,
        DerivedRecipe::HeatIndex2m => 30,
        DerivedRecipe::WindChill2m => 31,
        DerivedRecipe::LiftedIndex => 32,
        DerivedRecipe::LapseRate700500 => 33,
        DerivedRecipe::LapseRate03km => 34,
        DerivedRecipe::BulkShear01km => 35,
        DerivedRecipe::BulkShear06km => 36,
        DerivedRecipe::Srh01km => 37,
        DerivedRecipe::Srh03km => 38,
        DerivedRecipe::Ehi01km => 39,
        DerivedRecipe::Ehi03km => 40,
        DerivedRecipe::StpFixed => 41,
        DerivedRecipe::ScpMu03km06kmProxy => 42,
        DerivedRecipe::TemperatureAdvection700mb => 43,
        DerivedRecipe::TemperatureAdvection850mb => 44,
    }
}

proof fn lemma_inventory_has_no_repeats()
    ensures
        all_recipes().no_duplicates(),
{
    let list = all_recipes();
    assert forall|i: int| 0 <= i < list.len() implies inventory_index(#[trigger] list[i]) == i by {
    }
    assert forall|i: int, j: int|
        0 <= i < list.len() && 0 <= j < list.len() && i != j implies list[i] != list[j] by {
        assert(inventory_index(list[i]) == i);
        assert(inventory_index(list[j]) == j);
    }
}

/// Every listed slug parses to the recipe that it lists.
pub proof fn law_supported_slugs_parse(entry: DerivedRecipeInventoryEntry, recipe: DerivedRecipe)
    requires
        lists(entry, recipe),
    ensures
        recipes::recognized(recipes::normalized_slug(entry.slug@)) == Some(recipe),
{
    recipe_laws::law_slug_names_its_recipe(recipe);
}

/// No blocked slug parses.
pub proof fn law_blocked_slugs_do_not_parse(index: int)
    requires
        0 <= index < blocked_recipes().len(),
    ensures
        recipes::recognized(recipes::normalized_slug(blocked_recipes()[index].0)) is None,
{
    recipe_laws::law_effective_layer_slugs_are_rejected(blocked_recipes()[index].0);
}

} // verus!
