//! What a set of derived recipes needs computed.
use crate::derived::recipes::DerivedRecipe;
use vstd::prelude::*;

verus! {

/// Which kernels and fields a set of recipes needs.
#[derive(Debug, Clone, Copy, PartialEq, Eq, Structural)]
pub struct DerivedRequirements {
    pub sb: bool,
    pub ml: bool,
    pub mu: bool,
    pub surface_thermo: bool,
    pub surface_winds: bool,
    pub dcape: bool,
    pub lifted_index: bool,
    pub lapse_rate_700_500: bool,
    pub lapse_rate_0_3km: bool,
    pub shear_01km: bool,
    pub shear_06km: bool,
    pub srh_01km: bool,
    pub srh_03km: bool,
    pub ehi_01km: bool,
    pub ehi_03km: bool,
    pub stp_fixed: bool,
    pub scp_mu_03km_06km_proxy: bool,
    pub temperature_advection_700mb: bool,
    pub temperature_advection_850mb: bool,
}

/// How many flags there are.
pub const FLAG_COUNT: usize = 19;

/// What one recipe needs.
#[verifier::opaque]
pub open spec fn need_of(recipe: DerivedRecipe) -> DerivedRequirements {
    match recipe {
        DerivedRecipe::Sbcape
        | DerivedRecipe::Sbcin
        | DerivedRecipe::Sblcl => DerivedRequirements { sb: true, ..no_need() },
        DerivedRecipe::Mlcape
        | DerivedRecipe::Mlcin => DerivedRequirements { ml: true, ..no_need() },
        DerivedRecipe::Mucape
        | DerivedRecipe::Mucin => DerivedRequirements { mu: true, ..no_need() },
        DerivedRecipe::Dcape => DerivedRequirements { dcape: true, ..no_need() },
        DerivedRecipe::Sbecape
        | DerivedRecipe::Mlecape
        | DerivedRecipe::Muecape
        | DerivedRecipe::SbEcapeDerivedCapeRatio
        | DerivedRecipe::MlEcapeDerivedCapeRatio
        | DerivedRecipe::MuEcapeDerivedCapeRatio
        | DerivedRecipe::SbEcapeNativeCapeRatio
        | DerivedRecipe::MlEcapeNativeCapeRatio
        | DerivedRecipe::MuEcapeNativeCapeRatio
        | DerivedRecipe::Sbncape
        | DerivedRecipe::Sbecin
        | DerivedRecipe::Mlecin
        | DerivedRecipe::EcapeScp
        | DerivedRecipe::EcapeEhi01km
        | DerivedRecipe::EcapeEhi03km
        | DerivedRecipe::EcapeStp => no_need(),
        DerivedRecipe::ThetaE2m10mWinds => DerivedRequirements { surface_thermo: true, surface_winds: true, ..no_need() },
        DerivedRecipe::Vpd2m
        | DerivedRecipe::DewpointDepression2m
        | DerivedRecipe::Wetbulb2m
        | DerivedRecipe::FireWeatherComposite
        | DerivedRecipe::ApparentTemperature2m
        | DerivedRecipe::HeatIndex2m
        | DerivedRecipe::WindChill2m => DerivedRequirements { surface_thermo: true, ..no_need() },
        DerivedRecipe::LiftedIndex => DerivedRequirements { lifted_index: true, ..no_need() },
        DerivedRecipe::LapseRate700500 => DerivedRequirements { lapse_rate_700_500: true, ..no_need() },
        DerivedRecipe::LapseRate03km => DerivedRequirements { lapse_rate_0_3km: true, ..no_need() },
        DerivedRecipe::BulkShear01km => DerivedRequirements { shear_01km: true, ..no_need() },
        DerivedRecipe::BulkShear06km => DerivedRequirements { shear_06km: true, ..no_need() },
        DerivedRecipe::Srh01km => DerivedRequirements { srh_01km: true, ..no_need() },
        DerivedRecipe::Srh03km => DerivedRequirements { srh_03km: true, ..no_need() },
        DerivedRecipe::Ehi01km => DerivedRequirements {
            ehi_01km: true,
            sb: true,
            srh_01km: true,
            ..no_need()
        },
        DerivedRecipe::Ehi03km => DerivedRequirements {
            ehi_03km: true,
            sb: true,
            srh_03km: true,
            ..no_need()
        },
        DerivedRecipe::StpFixed => DerivedRequirements {
            stp_fixed: true,
            sb: true,
            srh_01km: true,
            shear_06km: true,
            ..no_need()
        },
        DerivedRecipe::ScpMu03km06kmProxy => DerivedRequirements {
            scp_mu_03km_06km_proxy: true,
            mu: true,
            srh_03km: true,
            shear_06km: true,
            ..no_need()
        },
        DerivedRecipe::TemperatureAdvection700mb => DerivedRequirements { temperature_advection_700mb: true, ..no_need() },
        DerivedRecipe::TemperatureAdvection850mb => DerivedRequirements { temperature_advection_850mb: true, ..no_need() },
    }
}

/// Nothing needed.
pub open spec fn no_need() -> DerivedRequirements {
    DerivedRequirements {
        sb: false,
        ml: false,
        mu: false,
        surface_thermo: false,
        surface_winds: false,
        dcape: false,
        lifted_index: false,
        lapse_rate_700_500: false,
        lapse_rate_0_3km: false,
        shear_01km: false,
        shear_06km: false,
        srh_01km: false,
        srh_03km: false,
        ehi_01km: false,
        ehi_03km: false,
        stp_fixed: false,
        scp_mu_03km_06km_proxy: false,
        temperature_advection_700mb: false,
        temperature_advection_850mb: false,
    }
}

/// What either of two sets of recipes needs.
#[verifier::opaque]
pub open spec fn either_need(
    a: DerivedRequirements,
    b: DerivedRequirements,
) -> DerivedRequirements {
    DerivedRequirements {
        sb: a.sb || b.sb,
        ml: a.ml || b.ml,
        mu: a.mu || b.mu,
        surface_thermo: a.surface_thermo || b.surface_thermo,
        surface_winds: a.surface_winds || b.surface_winds,
        dcape: a.dcape || b.dcape,
        lifted_index: a.lifted_index || b.lifted_index,
        lapse_rate_700_500: a.lapse_rate_700_500 || b.lapse_rate_700_500,
        lapse_rate_0_3km: a.lapse_rate_0_3km || b.lapse_rate_0_3km,
        shear_01km: a.shear_01km || b.shear_01km,
        shear_06km: a.shear_06km || b.shear_06km,
        srh_01km: a.srh_01km || b.srh_01km,
        srh_03km: a.srh_03km || b.srh_03km,
        ehi_01km: a.ehi_01km || b.ehi_01km,
        ehi_03km: a.ehi_03km || b.ehi_03km,
        stp_fixed: a.stp_fixed || b.stp_fixed,
        scp_mu_03km_06km_proxy: a.scp_mu_03km_06km_proxy || b.scp_mu_03km_06km_proxy,
        temperature_advection_700mb: a.temperature_advection_700mb || b.temperature_advection_700mb,
        temperature_advection_850mb: a.temperature_advection_850mb || b.temperature_advection_850mb,
    }
}

/// What a list of recipes needs: whatever one of them needs.
pub open spec fn need_of_all(recipes: Seq<DerivedRecipe>) -> DerivedRequirements
    decreases recipes.len(),
{
    if recipes.len() == 0 {
        no_need()
    } else {
        either_need(need_of_all(recipes.drop_last()), need_of(recipes.last()))
    }
}

/// Whether one set of needs holds all of another.
pub open spec fn covers(all: DerivedRequirements, part: DerivedRequirements) -> bool {
    &&& part.sb ==> all.sb
    &&& part.ml ==> all.ml
    &&& part.mu ==> all.mu
    &&& part.surface_thermo ==> all.surface_thermo
    &&& part.surface_winds ==> all.surface_winds
    &&& part.dcape ==> all.dcape
    &&& part.lifted_index ==> all.lifted_index
    &&& part.lapse_rate_700_500 ==> all.lapse_rate_700_500
    &&& part.lapse_rate_0_3km ==> all.lapse_rate_0_3km
    &&& part.shear_01km ==> all.shear_01km
    &&& part.shear_06km ==> all.shear_06km
    &&& part.srh_01km ==> all.srh_01km
    &&& part.srh_03km ==> all.srh_03km
    &&& part.ehi_01km ==> all.ehi_01km
    &&& part.ehi_03km ==> all.ehi_03km
    &&& part.stp_fixed ==> all.stp_fixed
    &&& part.scp_mu_03km_06km_proxy ==> all.scp_mu_03km_06km_proxy
    &&& part.temperature_advection_700mb ==> all.temperature_advection_700mb
    &&& part.temperature_advection_850mb ==> all.temperature_advection_850mb
}

impl Default for DerivedRequirements {
    fn default() -> (requirements: Self)
        ensures
            requirements == no_need(),
    {
        DerivedRequirements {
            sb: false,
            ml: false,
            mu: false,
            surface_thermo: false,
            surface_winds: false,
            dcape: false,
            lifted_index: false,
            lapse_rate_700_500: false,
            lapse_rate_0_3km: false,
            shear_01km: false,
            shear_06km: false,
            srh_01km: false,
            srh_03km: false,
            ehi_01km: false,
            ehi_03km: false,
            stp_fixed: false,
            scp_mu_03km_06km_proxy: false,
            temperature_advection_700mb: false,
            temperature_advection_850mb: false,
        }
    }
}

impl DerivedRequirements {
    /// The flag at a place in the order of the fields.
    pub open spec fn flag(self, index: int) -> bool {
        if index == 0 {
            self.sb
        } else if index == 1 {
            self.ml
        } else if index == 2 {
            self.mu
        } else if index == 3 {
            self.surface_thermo
        } else if index == 4 {
            self.surface_winds
        } else if index == 5 {
            self.dcape
        } else if index == 6 {
            self.lifted_index
        } else if index == 7 {
            self.lapse_rate_700_500
        } else if index == 8 {
            self.lapse_rate_0_3km
        } else if index == 9 {
            self.shear_01km
        } else if index == 10 {
            self.shear_06km
        } else if index == 11 {
            self.srh_01km
        } else if index == 12 {
            self.srh_03km
        } else if index == 13 {
            self.ehi_01km
        } else if index == 14 {
            self.ehi_03km
        } else if index == 15 {
            self.stp_fixed
        } else if index == 16 {
            self.scp_mu_03km_06km_proxy
        } else if index == 17 {
            self.temperature_advection_700mb
        } else {
            self.temperature_advection_850mb
        }
    }

    pub open spec fn spec_needs_volume(self) -> bool {
        self.sb || self.ml || self.mu || self.dcape || self.lifted_index || self.lapse_rate_700_500
            || self.lapse_rate_0_3km
    }

    pub open spec fn spec_needs_height_agl(self) -> bool {
        self.spec_needs_volume() || self.shear_01km || self.shear_06km || self.srh_01km
            || self.srh_03km
    }

    pub open spec fn spec_needs_grid_spacing(self) -> bool {
        self.temperature_advection_700mb || self.temperature_advection_850mb
    }

    pub open spec fn spec_needs_pressure_fields(self) -> bool {
        self.spec_needs_volume() || self.spec_needs_height_agl() || self.spec_needs_grid_spacing()
    }

    /// What one recipe needs.
    fn of(recipe: DerivedRecipe) -> (requirements: Self)
        ensures
            requirements == need_of(recipe),
    {
        proof {
            reveal(need_of);
        }
        let none = DerivedRequirements::default();
        match recipe {
            DerivedRecipe::Sbcape
            | DerivedRecipe::Sbcin
            | DerivedRecipe::Sblcl => DerivedRequirements { sb: true, ..none },
            DerivedRecipe::Mlcape
            | DerivedRecipe::Mlcin => DerivedRequirements { ml: true, ..none },
            DerivedRecipe::Mucape
            | DerivedRecipe::Mucin => DerivedRequirements { mu: true, ..none },
            DerivedRecipe::Dcape => DerivedRequirements { dcape: true, ..none },
            DerivedRecipe::Sbecape
            | DerivedRecipe::Mlecape
            | DerivedRecipe::Muecape
            | DerivedRecipe::SbEcapeDerivedCapeRatio
            | DerivedRecipe::MlEcapeDerivedCapeRatio
            | DerivedRecipe::MuEcapeDerivedCapeRatio
            | DerivedRecipe::SbEcapeNativeCapeRatio
            | DerivedRecipe::MlEcapeNativeCapeRatio
            | DerivedRecipe::MuEcapeNativeCapeRatio
            | DerivedRecipe::Sbncape
            | DerivedRecipe::Sbecin
            | DerivedRecipe::Mlecin
            | DerivedRecipe::EcapeScp
            | DerivedRecipe::EcapeEhi01km
            | DerivedRecipe::EcapeEhi03km
            | DerivedRecipe::EcapeStp => none,
            DerivedRecipe::ThetaE2m10mWinds => DerivedRequirements { surface_thermo: true, surface_winds: true, ..none },
            DerivedRecipe::Vpd2m
            | DerivedRecipe::DewpointDepression2m
            | DerivedRecipe::Wetbulb2m
            | DerivedRecipe::FireWeatherComposite
            | DerivedRecipe::ApparentTemperature2m
            | DerivedRecipe::HeatIndex2m
            | DerivedRecipe::WindChill2m => DerivedRequirements { surface_thermo: true, ..none },
            DerivedRecipe::LiftedIndex => DerivedRequirements { lifted_index: true, ..none },
            DerivedRecipe::LapseRate700500 => DerivedRequirements { lapse_rate_700_500: true, ..none },
            DerivedRecipe::LapseRate03km => DerivedRequirements { lapse_rate_0_3km: true, ..none },
            DerivedRecipe::BulkShear01km => DerivedRequirements { shear_01km: true, ..none },
            DerivedRecipe::BulkShear06km => DerivedRequirements { shear_06km: true, ..none },
            DerivedRecipe::Srh01km => DerivedRequirements { srh_01km: true, ..none },
            DerivedRecipe::Srh03km => DerivedRequirements { srh_03km: true, ..none },
            DerivedRecipe::Ehi01km => DerivedRequirements {
                ehi_01km: true,
                sb: true,
                srh_01km: true,
                ..none
            },
            DerivedRecipe::Ehi03km => DerivedRequirements {
                ehi_03km: true,
                sb: true,
                srh_03km: true,
                ..none
            },
            DerivedRecipe::StpFixed => DerivedRequirements {
                stp_fixed: true,
                sb: true,
                srh_01km: true,
                shear_06km: true,
                ..none
            },
            DerivedRecipe::ScpMu03km06kmProxy => DerivedRequirements {
                scp_mu_03km_06km_proxy: true,
                mu: true,
                srh_03km: true,
                shear_06km: true,
                ..none
            },
            DerivedRecipe::TemperatureAdvection700mb => DerivedRequirements { temperature_advection_700mb: true, ..none },
            DerivedRecipe::TemperatureAdvection850mb => DerivedRequirements { temperature_advection_850mb: true, ..none },
        }
    }

    /// What either of two sets of recipes needs.
    fn or(self, other: Self) -> (requirements: Self)
        ensures
            requirements == either_need(self, other),
    {
        proof {
            reveal(either_need);
        }
        DerivedRequirements {
            sb: self.sb || other.sb,
            ml: self.ml || other.ml,
            mu: self.mu || other.mu,
            surface_thermo: self.surface_thermo || other.surface_thermo,
            surface_winds: self.surface_winds || other.surface_winds,
            dcape: self.dcape || other.dcape,
            lifted_index: self.lifted_index || other.lifted_index,
            lapse_rate_700_500: self.lapse_rate_700_500 || other.lapse_rate_700_500,
            lapse_rate_0_3km: self.lapse_rate_0_3km || other.lapse_rate_0_3km,
            shear_01km: self.shear_01km || other.shear_01km,
            shear_06km: self.shear_06km || other.shear_06km,
            srh_01km: self.srh_01km || other.srh_01km,
            srh_03km: self.srh_03km || other.srh_03km,
            ehi_01km: self.ehi_01km || other.ehi_01km,
            ehi_03km: self.ehi_03km || other.ehi_03km,
            stp_fixed: self.stp_fixed || other.stp_fixed,
            scp_mu_03km_06km_proxy: self.scp_mu_03km_06km_proxy || other.scp_mu_03km_06km_proxy,
            temperature_advection_700mb: self.temperature_advection_700mb || other.temperature_advection_700mb,
            temperature_advection_850mb: self.temperature_advection_850mb || other.temperature_advection_850mb,
        }
    }

    /// What a list of recipes needs.
    pub fn from_recipes(recipes: &[DerivedRecipe]) -> (requirements: Self)
        ensures
            requirements == need_of_all(recipes@),
    {
        let mut requirements = DerivedRequirements::default();
        let mut i: usize = 0;
        while i < recipes.len()
            invariant
                i <= recipes.len(),
                requirements == need_of_all(recipes@.take(i as int)),
            decreases recipes.len() - i,
        {
            assert(recipes@.take(i + 1).drop_last() =~= recipes@.take(i as int));
            requirements = requirements.or(DerivedRequirements::of(recipes[i]));
            i += 1;
        }
        assert(recipes@.take(i as int) =~= recipes@);
        requirements
    }

    /// Whether a pressure-level volume is needed.
    pub fn needs_volume(self) -> (needed: bool)
        ensures
            needed == self.spec_needs_volume(),
    {
        self.sb || self.ml || self.mu || self.dcape || self.lifted_index || self.lapse_rate_700_500
            || self.lapse_rate_0_3km
    }

    /// Whether heights above ground are needed on the volume.
    pub fn needs_height_agl(self) -> (needed: bool)
        ensures
            needed == self.spec_needs_height_agl(),
    {
        self.needs_volume() || self.shear_01km || self.shear_06km || self.srh_01km || self.srh_03km
    }

    /// Whether the spacing of the grid is needed.
    pub fn needs_grid_spacing(self) -> (needed: bool)
        ensures
            needed == self.spec_needs_grid_spacing(),
    {
        self.temperature_advection_700mb || self.temperature_advection_850mb
    }

    /// Whether any pressure-level field is needed.
    pub fn needs_pressure_fields(self) -> (needed: bool)
        ensures
            needed == self.spec_needs_pressure_fields(),
    {
        self.needs_volume() || self.needs_height_agl() || self.needs_grid_spacing()
    }
}

/// Whether computing the recipes needs any pressure-level field.
pub fn derived_compute_recipes_need_pressure(recipes: &[DerivedRecipe]) -> (needed: bool)
    ensures
        needed == need_of_all(recipes@).spec_needs_pressure_fields(),
{
    DerivedRequirements::from_recipes(recipes).needs_pressure_fields()
}

/// A flag is needed by a list of recipes exactly if one of them needs it.
pub proof fn law_requirement_is_some_recipes_need(recipes: Seq<DerivedRecipe>, flag: int)
    requires
        0 <= flag < FLAG_COUNT,
    ensures
        need_of_all(recipes).flag(flag) <==> exists|i: int|
            0 <= i < recipes.len() && need_of(#[trigger] recipes[i]).flag(flag),
    decreases recipes.len(),
{
    reveal(either_need);
    if recipes.len() > 0 {
        let init = recipes.drop_last();
        law_requirement_is_some_recipes_need(init, flag);
        assert(need_of_all(recipes).flag(flag) <==> need_of_all(init).flag(flag) || need_of(
            recipes.last(),
        ).flag(flag));
        if need_of_all(init).flag(flag) {
            let i = choose|i: int|
                0 <= i < init.len() && need_of(#[trigger] init[i]).flag(flag);
            assert(recipes[i] == init[i]);
        }
        if exists|i: int| 0 <= i < recipes.len() && need_of(#[trigger] recipes[i]).flag(flag) {
            let i = choose|i: int|
                0 <= i < recipes.len() && need_of(#[trigger] recipes[i]).flag(flag);
            if i < init.len() {
                assert(init[i] == recipes[i]);
            }
        }
        assert(recipes[recipes.len() - 1] == recipes.last());
    }
}

proof fn lemma_flags_determine(a: DerivedRequirements, b: DerivedRequirements)
    requires
        forall|flag: int| 0 <= flag < FLAG_COUNT ==> a.flag(flag) == #[trigger] b.flag(flag),
    ensures
        a == b,
{
    assert(a.flag(0) == b.flag(0));
    assert(a.flag(1) == b.flag(1));
    assert(a.flag(2) == b.flag(2));
    assert(a.flag(3) == b.flag(3));
    assert(a.flag(4) == b.flag(4));
    assert(a.flag(5) == b.flag(5));
    assert(a.flag(6) == b.flag(6));
    assert(a.flag(7) == b.flag(7));
    assert(a.flag(8) == b.flag(8));
    assert(a.flag(9) == b.flag(9));
    assert(a.flag(10) == b.flag(10));
    assert(a.flag(11) == b.flag(11));
    assert(a.flag(12) == b.flag(12));
    assert(a.flag(13) == b.flag(13));
    assert(a.flag(14) == b.flag(14));
    assert(a.flag(15) == b.flag(15));
    assert(a.flag(16) == b.flag(16));
    assert(a.flag(17) == b.flag(17));
    assert(a.flag(18) == b.flag(18));
}

proof fn lemma_more_recipes_need_more(
    some: Seq<DerivedRecipe>,
    more: Seq<DerivedRecipe>,
    flag: int,
)
    requires
        0 <= flag < FLAG_COUNT,
        forall|r: DerivedRecipe| some.contains(r) ==> more.contains(r),
    ensures
        need_of_all(some).flag(flag) ==> need_of_all(more).flag(flag),
{
    law_requirement_is_some_recipes_need(some, flag);
    law_requirement_is_some_recipes_need(more, flag);
    if need_of_all(some).flag(flag) {
        let i = choose|i: int| 0 <= i < some.len() && need_of(#[trigger] some[i]).flag(flag);
        assert(some.contains(some[i]));
        let j = choose|j: int| 0 <= j < more.len() && more[j] == some[i];
        assert(need_of(more[j]).flag(flag));
    }
}

/// Lists that hold the same recipes, in whatever order and number, need the
/// same.
pub proof fn law_requirements_ignore_order_and_repetition(
    a: Seq<DerivedRecipe>,
    b: Seq<DerivedRecipe>,
)
    requires
        forall|r: DerivedRecipe| a.contains(r) <==> b.contains(r),
    ensures
        need_of_all(a) == need_of_all(b),
{
    assert forall|flag: int| 0 <= flag < FLAG_COUNT implies need_of_all(a).flag(flag)
        == #[trigger] need_of_all(b).flag(flag) by {
        lemma_more_recipes_need_more(a, b, flag);
        lemma_more_recipes_need_more(b, a, flag);
    }
    lemma_flags_determine(need_of_all(a), need_of_all(b));
}

/// A list of recipes needs a parcel or a field exactly if one of its recipes shows it or
/// combines it: a kernel runs for no other recipe.
pub proof fn law_needs_are_those_of_the_recipes_that_show_or_combine(recipes: Seq<DerivedRecipe>)
    ensures
        need_of_all(recipes).sb == (recipes.contains(DerivedRecipe::Sbcape) || recipes.contains(DerivedRecipe::Sbcin) || recipes.contains(DerivedRecipe::Sblcl) || recipes.contains(DerivedRecipe::Ehi01km) || recipes.contains(DerivedRecipe::Ehi03km) || recipes.contains(DerivedRecipe::StpFixed)),
        need_of_all(recipes).ml == (recipes.contains(DerivedRecipe::Mlcape) || recipes.contains(DerivedRecipe::Mlcin)),
        need_of_all(recipes).mu == (recipes.contains(DerivedRecipe::Mucape) || recipes.contains(DerivedRecipe::Mucin) || recipes.contains(DerivedRecipe::ScpMu03km06kmProxy)),
        need_of_all(recipes).surface_thermo == (recipes.contains(DerivedRecipe::ThetaE2m10mWinds) || recipes.contains(DerivedRecipe::Vpd2m) || recipes.contains(DerivedRecipe::DewpointDepression2m) || recipes.contains(DerivedRecipe::Wetbulb2m) || recipes.contains(DerivedRecipe::FireWeatherComposite) || recipes.contains(DerivedRecipe::ApparentTemperature2m) || recipes.contains(DerivedRecipe::HeatIndex2m) || recipes.contains(DerivedRecipe::WindChill2m)),
        need_of_all(recipes).surface_winds == (recipes.contains(DerivedRecipe::ThetaE2m10mWinds)),
        need_of_all(recipes).dcape == (recipes.contains(DerivedRecipe::Dcape)),
        need_of_all(recipes).lifted_index == (recipes.contains(DerivedRecipe::LiftedIndex)),
        need_of_all(recipes).lapse_rate_700_500 == (recipes.contains(DerivedRecipe::LapseRate700500)),
        need_of_all(recipes).lapse_rate_0_3km == (recipes.contains(DerivedRecipe::LapseRate03km)),
        need_of_all(recipes).shear_01km == (recipes.contains(DerivedRecipe::BulkShear01km)),
        need_of_all(recipes).shear_06km == (recipes.contains(DerivedRecipe::BulkShear06km) || recipes.contains(DerivedRecipe::StpFixed) || recipes.contains(DerivedRecipe::ScpMu03km06kmProxy)),
        need_of_all(recipes).srh_01km == (recipes.contains(DerivedRecipe::Srh01km) || recipes.contains(DerivedRecipe::Ehi01km) || recipes.contains(DerivedRecipe::StpFixed)),
        need_of_all(recipes).srh_03km == (recipes.contains(DerivedRecipe::Srh03km) || recipes.contains(DerivedRecipe::Ehi03km) || recipes.contains(DerivedRecipe::ScpMu03km06kmProxy)),
        need_of_all(recipes).ehi_01km == (recipes.contains(DerivedRecipe::Ehi01km)),
        need_of_all(recipes).ehi_03km == (recipes.contains(DerivedRecipe::Ehi03km)),
        need_of_all(recipes).stp_fixed == (recipes.contains(DerivedRecipe::StpFixed)),
        need_of_all(recipes).scp_mu_03km_06km_proxy == (recipes.contains(DerivedRecipe::ScpMu03km06kmProxy)),
        need_of_all(recipes).temperature_advection_700mb == (recipes.contains(DerivedRecipe::TemperatureAdvection700mb)),
        need_of_all(recipes).temperature_advection_850mb == (recipes.contains(DerivedRecipe::TemperatureAdvection850mb)),
    decreases recipes.len(),
{
    reveal(need_of);
    reveal(either_need);
    if recipes.len() > 0 {
        let init = recipes.drop_last();
        law_needs_are_those_of_the_recipes_that_show_or_combine(init);
        assert forall|r: DerivedRecipe| #[trigger] recipes.contains(r) <==> init.contains(r) || r
            == recipes.last() by {
            lemma_held_by_all_but_the_last(recipes, r);
        }
    }
}

proof fn lemma_held_by_all_but_the_last(recipes: Seq<DerivedRecipe>, recipe: DerivedRecipe)
    requires
        recipes.len() > 0,
    ensures
        recipes.contains(recipe) <==> recipes.drop_last().contains(recipe) || recipe
            == recipes.last(),
{
    let init = recipes.drop_last();
    if recipes.contains(recipe) {
        let i = choose|i: int| 0 <= i < recipes.len() && recipes[i] == recipe;
        if i < init.len() {
            assert(init[i] == recipe);
        }
    }
    if init.contains(recipe) {
        let i = choose|i: int| 0 <= i < init.len() && init[i] == recipe;
        assert(recipes[i] == recipe);
    }
    assert(recipes[recipes.len() - 1] == recipes.last());
}

/// A heavy recipe asks nothing of the ordinary kernels.
pub proof fn law_heavy_recipes_need_no_ordinary_kernel(recipe: DerivedRecipe)
    ensures
        need_of(recipe) == no_need() <==> recipe.spec_is_heavy(),
{
    reveal(need_of);
}

/// Whatever needs a volume needs heights above ground, and whatever needs
/// heights above ground needs pressure-level fields.
pub proof fn law_needs_are_nested(requirements: DerivedRequirements)
    ensures
        requirements.spec_needs_volume() ==> requirements.spec_needs_height_agl(),
        requirements.spec_needs_height_agl() ==> requirements.spec_needs_pressure_fields(),
{
}

/// Each composite index brings the parcel and kinematic inputs that it is
/// computed from.
pub proof fn law_composites_bring_their_inputs(recipes: Seq<DerivedRecipe>)
    ensures
        need_of_all(recipes).ehi_01km ==> need_of_all(recipes).sb && need_of_all(recipes).srh_01km,
        need_of_all(recipes).ehi_03km ==> need_of_all(recipes).sb && need_of_all(recipes).srh_03km,
        need_of_all(recipes).stp_fixed ==> need_of_all(recipes).sb && need_of_all(
            recipes,
        ).srh_01km && need_of_all(recipes).shear_06km,
        need_of_all(recipes).scp_mu_03km_06km_proxy ==> need_of_all(recipes).mu && need_of_all(
            recipes,
        ).srh_03km && need_of_all(recipes).shear_06km,
    decreases recipes.len(),
{
    reveal(need_of);
    reveal(either_need);
    if recipes.len() > 0 {
        law_composites_bring_their_inputs(recipes.drop_last());
    }
}

} // verus!
