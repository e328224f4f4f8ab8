//! Laws of the recipe names.
use crate::derived::recipes;
use crate::derived::recipes::DerivedRecipe;
use crate::text;
use vstd::prelude::*;

verus! {

/// Trimming leaves no white space at either end, and leaves a text alone that
/// has none there.
pub proof fn lemma_trimmed_ends(s: Seq<char>)
    ensures
        text::trimmed(s).len() > 0 ==> !text::white_space(text::trimmed(s)[0])
            && !text::white_space(text::trimmed(s).last()),
        s.len() == 0 || (!text::white_space(s[0]) && !text::white_space(s.last()))
            ==> text::trimmed(s) == s,
{
    lemma_trimmed_start_head(s);
    lemma_trimmed_end_tail(text::trimmed_start(s));
}

proof fn lemma_trimmed_start_head(s: Seq<char>)
    ensures
        text::trimmed_start(s).len() > 0 ==> !text::white_space(text::trimmed_start(s)[0]),
    decreases s.len(),
{
    if s.len() > 0 && text::white_space(s[0]) {
        lemma_trimmed_start_head(s.drop_first());
    }
}

proof fn lemma_trimmed_end_tail(s: Seq<char>)
    ensures
        text::trimmed_end(s).len() > 0 ==> !text::white_space(text::trimmed_end(s).last())
            && text::trimmed_end(s)[0] == s[0],
    decreases s.len(),
{
    if s.len() > 0 && text::white_space(s.last()) {
        lemma_trimmed_end_tail(s.drop_last());
    }
}

/// Normalising a slug twice gives what normalising it once gives.
pub proof fn law_normalization_is_idempotent(value: Seq<char>)
    ensures
        recipes::normalized_slug(recipes::normalized_slug(value)) == recipes::normalized_slug(value),
{
    let once = recipes::normalized_slug(value);
    lemma_trimmed_ends(value);
    lemma_trimmed_ends(once);
    assert(text::trimmed(once) == once);
    assert forall|i: int| 0 <= i < once.len() implies recipes::slug_char(
        text::ascii_lower(#[trigger] once[i]),
    ) == once[i] by {
        let c = text::trimmed(value)[i];
        assert(once[i] == recipes::slug_char(text::ascii_lower(c)));
    }
    assert(recipes::normalized_slug(once) =~= once);
}

/// A character that canonical slugs are made of.
pub open spec fn canonical_slug_char(c: char) -> bool {
    'a' <= c <= 'z' || '0' <= c <= '9' || c == '_'
}

proof fn lemma_canonical_text_is_normal(s: Seq<char>)
    requires
        forall|i: int| 0 <= i < s.len() ==> canonical_slug_char(#[trigger] s[i]),
    ensures
        recipes::normalized_slug(s) == s,
{
    lemma_trimmed_ends(s);
    if s.len() > 0 {
        assert(canonical_slug_char(s[0]) && canonical_slug_char(s.last()));
    }
    assert(recipes::normalized_slug(s) =~= s);
}

/// The canonical slug of every recipe is in normal form and names that recipe,
/// so that parsing it gives the recipe back.
pub proof fn law_slug_names_its_recipe(recipe: DerivedRecipe)
    ensures
        recipes::normalized_slug(recipe.spec_slug()@) == recipe.spec_slug()@,
        recipes::recognized(recipe.spec_slug()@) == Some(recipe),
{
    let slug = recipe.spec_slug()@;
    lemma_canonical_slug_text(recipe);
    lemma_canonical_text_is_normal(slug);
}

proof fn lemma_canonical_slug_text(recipe: DerivedRecipe)
    ensures
        forall|i: int|
            0 <= i < recipe.spec_slug()@.len() ==> canonical_slug_char(
                #[trigger] recipe.spec_slug()@[i],
            ),
        recipes::recognized(recipe.spec_slug()@) == Some(recipe),
{
    reveal_strlit("sbcape");
    reveal_strlit("sbcin");
    reveal_strlit("sblcl");
    reveal_strlit("mlcape");
    reveal_strlit("mlcin");
    reveal_strlit("mucape");
    reveal_strlit("mucin");
    reveal_strlit("dcape");
    reveal_strlit("downdraft_cape");
    reveal_strlit("sbecape");
    reveal_strlit("mlecape");
    reveal_strlit("muecape");
    reveal_strlit("sb_ecape_derived_cape_ratio");
    reveal_strlit("sbecape_derived_cape_ratio");
    reveal_strlit("ml_ecape_derived_cape_ratio");
    reveal_strlit("mlecape_derived_cape_ratio");
    reveal_strlit("mu_ecape_derived_cape_ratio");
    reveal_strlit("muecape_derived_cape_ratio");
    reveal_strlit("sb_ecape_native_cape_ratio");
    reveal_strlit("sbecape_native_cape_ratio");
    reveal_strlit("ml_ecape_native_cape_ratio");
    reveal_strlit("mlecape_native_cape_ratio");
    reveal_strlit("mu_ecape_native_cape_ratio");
    reveal_strlit("muecape_native_cape_ratio");
    reveal_strlit("sbncape");
    reveal_strlit("sbecin");
    reveal_strlit("mlecin");
    reveal_strlit("ecape_scp");
    reveal_strlit("ecape_ehi");
    reveal_strlit("ecape_ehi_0_1km");
    reveal_strlit("ecape_ehi_01km");
    reveal_strlit("ecape_ehi_0_3km");
    reveal_strlit("ecape_ehi_03km");
    reveal_strlit("ecape_stp");
    reveal_strlit("theta_e_2m_10m_winds");
    reveal_strlit("2m_theta_e_10m_winds");
    reveal_strlit("vpd_2m");
    reveal_strlit("2m_vpd");
    reveal_strlit("vapor_pressure_deficit_2m");
    reveal_strlit("2m_vapor_pressure_deficit");
    reveal_strlit("dewpoint_depression_2m");
    reveal_strlit("2m_dewpoint_depression");
    reveal_strlit("wetbulb_2m");
    reveal_strlit("wet_bulb_2m");
    reveal_strlit("2m_wetbulb");
    reveal_strlit("2m_wet_bulb");
    reveal_strlit("fire_weather_composite");
    reveal_strlit("fire_weather");
    reveal_strlit("fire_wx");
    reveal_strlit("apparent_temperature_2m");
    reveal_strlit("2m_apparent_temperature");
    reveal_strlit("heat_index_2m");
    reveal_strlit("2m_heat_index");
    reveal_strlit("wind_chill_2m");
    reveal_strlit("2m_wind_chill");
    reveal_strlit("lifted_index");
    reveal_strlit("lapse_rate_700_500");
    reveal_strlit("lapse_rate_0_3km");
    reveal_strlit("bulk_shear_0_1km");
    reveal_strlit("bulk_shear_0_6km");
    reveal_strlit("srh_0_1km");
    reveal_strlit("srh_0_3km");
    reveal_strlit("ehi_0_1km");
    reveal_strlit("ehi_sb_0_1km_proxy");
    reveal_strlit("ehi_0_3km");
    reveal_strlit("ehi_sb_0_3km_proxy");
    reveal_strlit("stp_fixed");
    reveal_strlit("scp_mu_0_3km_0_6km_proxy");
    reveal_strlit("temperature_advection_700mb");
    reveal_strlit("temperature_advection_850mb");
    let slug = recipe.spec_slug()@;
    match recipe {
        DerivedRecipe::Sbcape => assert(slug =~= seq!['s', 'b', 'c', 'a', 'p', 'e']),
        DerivedRecipe::Sbcin => assert(slug =~= seq!['s', 'b', 'c', 'i', 'n']),
        DerivedRecipe::Sblcl => assert(slug =~= seq!['s', 'b', 'l', 'c', 'l']),
        DerivedRecipe::Mlcape => assert(slug =~= seq!['m', 'l', 'c', 'a', 'p', 'e']),
        DerivedRecipe::Mlcin => assert(slug =~= seq!['m', 'l', 'c', 'i', 'n']),
        DerivedRecipe::Mucape => assert(slug =~= seq!['m', 'u', 'c', 'a', 'p', 'e']),
        DerivedRecipe::Mucin => assert(slug =~= seq!['m', 'u', 'c', 'i', 'n']),
        DerivedRecipe::Dcape => assert(slug =~= seq!['d', 'c', 'a', 'p', 'e']),
        DerivedRecipe::Sbecape => assert(slug =~= seq!['s', 'b', 'e', 'c', 'a', 'p', 'e']),
        DerivedRecipe::Mlecape => assert(slug =~= seq!['m', 'l', 'e', 'c', 'a', 'p', 'e']),
        DerivedRecipe::Muecape => assert(slug =~= seq!['m', 'u', 'e', 'c', 'a', 'p', 'e']),
        DerivedRecipe::SbEcapeDerivedCapeRatio => assert(slug =~= seq!['s', 'b', '_', 'e', 'c', 'a', 'p', 'e', '_', 'd', 'e', 'r', 'i', 'v', 'e', 'd', '_', 'c', 'a', 'p', 'e', '_', 'r', 'a', 't', 'i', 'o']),
        DerivedRecipe::MlEcapeDerivedCapeRatio => assert(slug =~= seq!['m', 'l', '_', 'e', 'c', 'a', 'p', 'e', '_', 'd', 'e', 'r', 'i', 'v', 'e', 'd', '_', 'c', 'a', 'p', 'e', '_', 'r', 'a', 't', 'i', 'o']),
        DerivedRecipe::MuEcapeDerivedCapeRatio => assert(slug =~= seq!['m', 'u', '_', 'e', 'c', 'a', 'p', 'e', '_', 'd', 'e', 'r', 'i', 'v', 'e', 'd', '_', 'c', 'a', 'p', 'e', '_', 'r', 'a', 't', 'i', 'o']),
        DerivedRecipe::SbEcapeNativeCapeRatio => assert(slug =~= seq!['s', 'b', '_', 'e', 'c', 'a', 'p', 'e', '_', 'n', 'a', 't', 'i', 'v', 'e', '_', 'c', 'a', 'p', 'e', '_', 'r', 'a', 't', 'i', 'o']),
        DerivedRecipe::MlEcapeNativeCapeRatio => assert(slug =~= seq!['m', 'l', '_', 'e', 'c', 'a', 'p', 'e', '_', 'n', 'a', 't', 'i', 'v', 'e', '_', 'c', 'a', 'p', 'e', '_', 'r', 'a', 't', 'i', 'o']),
        DerivedRecipe::MuEcapeNativeCapeRatio => assert(slug =~= seq!['m', 'u', '_', 'e', 'c', 'a', 'p', 'e', '_', 'n', 'a', 't', 'i', 'v', 'e', '_', 'c', 'a', 'p', 'e', '_', 'r', 'a', 't', 'i', 'o']),
        DerivedRecipe::Sbncape => assert(slug =~= seq!['s', 'b', 'n', 'c', 'a', 'p', 'e']),
        DerivedRecipe::Sbecin => assert(slug =~= seq!['s', 'b', 'e', 'c', 'i', 'n']),
        DerivedRecipe::Mlecin => assert(slug =~= seq!['m', 'l', 'e', 'c', 'i', 'n']),
        DerivedRecipe::EcapeScp => assert(slug =~= seq!['e', 'c', 'a', 'p', 'e', '_', 's', 'c', 'p']),
        DerivedRecipe::EcapeEhi01km => assert(slug =~= seq!['e', 'c', 'a', 'p', 'e', '_', 'e', 'h', 'i', '_', '0', '_', '1', 'k', 'm']),
        DerivedRecipe::EcapeEhi03km => assert(slug =~= seq!['e', 'c', 'a', 'p', 'e', '_', 'e', 'h', 'i', '_', '0', '_', '3', 'k', 'm']),
        DerivedRecipe::EcapeStp => assert(slug =~= seq!['e', 'c', 'a', 'p', 'e', '_', 's', 't', 'p']),
        DerivedRecipe::ThetaE2m10mWinds => assert(slug =~= seq!['t', 'h', 'e', 't', 'a', '_', 'e', '_', '2', 'm', '_', '1', '0', 'm', '_', 'w', 'i', 'n', 'd', 's']),
        DerivedRecipe::Vpd2m => assert(slug =~= seq!['v', 'p', 'd', '_', '2', 'm']),
        DerivedRecipe::DewpointDepression2m => assert(slug =~= seq!['d', 'e', 'w', 'p', 'o', 'i', 'n', 't', '_', 'd', 'e', 'p', 'r', 'e', 's', 's', 'i', 'o', 'n', '_', '2', 'm']),
        DerivedRecipe::Wetbulb2m => assert(slug =~= seq!['w', 'e', 't', 'b', 'u', 'l', 'b', '_', '2', 'm']),
        DerivedRecipe::FireWeatherComposite => assert(slug =~= seq!['f', 'i', 'r', 'e', '_', 'w', 'e', 'a', 't', 'h', 'e', 'r', '_', 'c', 'o', 'm', 'p', 'o', 's', 'i', 't', 'e']),
        DerivedRecipe::ApparentTemperature2m => assert(slug =~= seq!['a', 'p', 'p', 'a', 'r', 'e', 'n', 't', '_', 't', 'e', 'm', 'p', 'e', 'r', 'a', 't', 'u', 'r', 'e', '_', '2', 'm']),
        DerivedRecipe::HeatIndex2m => assert(slug =~= seq!['h', 'e', 'a', 't', '_', 'i', 'n', 'd', 'e', 'x', '_', '2', 'm']),
        DerivedRecipe::WindChill2m => assert(slug =~= seq!['w', 'i', 'n', 'd', '_', 'c', 'h', 'i', 'l', 'l', '_', '2', 'm']),
        DerivedRecipe::LiftedIndex => assert(slug =~= seq!['l', 'i', 'f', 't', 'e', 'd', '_', 'i', 'n', 'd', 'e', 'x']),
        DerivedRecipe::LapseRate700500 => assert(slug =~= seq!['l', 'a', 'p', 's', 'e', '_', 'r', 'a', 't', 'e', '_', '7', '0', '0', '_', '5', '0', '0']),
        DerivedRecipe::LapseRate03km => assert(slug =~= seq!['l', 'a', 'p', 's', 'e', '_', 'r', 'a', 't', 'e', '_', '0', '_', '3', 'k', 'm']),
        DerivedRecipe::BulkShear01km => assert(slug =~= seq!['b', 'u', 'l', 'k', '_', 's', 'h', 'e', 'a', 'r', '_', '0', '_', '1', 'k', 'm']),
        DerivedRecipe::BulkShear06km => assert(slug =~= seq!['b', 'u', 'l', 'k', '_', 's', 'h', 'e', 'a', 'r', '_', '0', '_', '6', 'k', 'm']),
        DerivedRecipe::Srh01km => assert(slug =~= seq!['s', 'r', 'h', '_', '0', '_', '1', 'k', 'm']),
        DerivedRecipe::Srh03km => assert(slug =~= seq!['s', 'r', 'h', '_', '0', '_', '3', 'k', 'm']),
        DerivedRecipe::Ehi01km => assert(slug =~= seq!['e', 'h', 'i', '_', '0', '_', '1', 'k', 'm']),
        DerivedRecipe::Ehi03km => assert(slug =~= seq!['e', 'h', 'i', '_', '0', '_', '3', 'k', 'm']),
        DerivedRecipe::StpFixed => assert(slug =~= seq!['s', 't', 'p', '_', 'f', 'i', 'x', 'e', 'd']),
        DerivedRecipe::ScpMu03km06kmProxy => assert(slug =~= seq!['s', 'c', 'p', '_', 'm', 'u', '_', '0', '_', '3', 'k', 'm', '_', '0', '_', '6', 'k', 'm', '_', 'p', 'r', 'o', 'x', 'y']),
        DerivedRecipe::TemperatureAdvection700mb => assert(slug =~= seq!['t', 'e', 'm', 'p', 'e', 'r', 'a', 't', 'u', 'r', 'e', '_', 'a', 'd', 'v', 'e', 'c', 't', 'i', 'o', 'n', '_', '7', '0', '0', 'm', 'b']),
        DerivedRecipe::TemperatureAdvection850mb => assert(slug =~= seq!['t', 'e', 'm', 'p', 'e', 'r', 'a', 't', 'u', 'r', 'e', '_', 'a', 'd', 'v', 'e', 'c', 't', 'i', 'o', 'n', '_', '8', '5', '0', 'm', 'b']),
    }
}

/// Distinct recipes have distinct slugs.
pub proof fn law_slugs_are_distinct(a: DerivedRecipe, b: DerivedRecipe)
    requires
        a.spec_slug()@ == b.spec_slug()@,
    ensures
        a == b,
{
    law_slug_names_its_recipe(a);
    law_slug_names_its_recipe(b);
}

/// A slug of an effective-layer product names no recipe.
pub proof fn law_effective_layer_slugs_are_rejected(slug: Seq<char>)
    requires
        slug == "stp_effective"@ || slug == "scp"@ || slug == "scp_effective"@,
    ensures
        recipes::normalized_slug(slug) == slug,
        recipes::recognized(slug) is None,
{
    reveal_strlit("stp_effective");
    reveal_strlit("scp");
    reveal_strlit("scp_effective");
    reveal_strlit("sbcape");
    reveal_strlit("sbcin");
    reveal_strlit("sblcl");
    reveal_strlit("mlcape");
    reveal_strlit("mlcin");
    reveal_strlit("mucape");
    reveal_strlit("mucin");
    reveal_strlit("dcape");
    reveal_strlit("downdraft_cape");
    reveal_strlit("sbecape");
    reveal_strlit("mlecape");
    reveal_strlit("muecape");
    reveal_strlit("sb_ecape_derived_cape_ratio");
    reveal_strlit("sbecape_derived_cape_ratio");
    reveal_strlit("ml_ecape_derived_cape_ratio");
    reveal_strlit("mlecape_derived_cape_ratio");
    reveal_strlit("mu_ecape_derived_cape_ratio");
    reveal_strlit("muecape_derived_cape_ratio");
    reveal_strlit("sb_ecape_native_cape_ratio");
    reveal_strlit("sbecape_native_cape_ratio");
    reveal_strlit("ml_ecape_native_cape_ratio");
    reveal_strlit("mlecape_native_cape_ratio");
    reveal_strlit("mu_ecape_native_cape_ratio");
    reveal_strlit("muecape_native_cape_ratio");
    reveal_strlit("sbncape");
    reveal_strlit("sbecin");
    reveal_strlit("mlecin");
    reveal_strlit("ecape_scp");
    reveal_strlit("ecape_ehi");
    reveal_strlit("ecape_ehi_0_1km");
    reveal_strlit("ecape_ehi_01km");
    reveal_strlit("ecape_ehi_0_3km");
    reveal_strlit("ecape_ehi_03km");
    reveal_strlit("ecape_stp");
    reveal_strlit("theta_e_2m_10m_winds");
    reveal_strlit("2m_theta_e_10m_winds");
    reveal_strlit("vpd_2m");
    reveal_strlit("2m_vpd");
    reveal_strlit("vapor_pressure_deficit_2m");
    reveal_strlit("2m_vapor_pressure_deficit");
    reveal_strlit("dewpoint_depression_2m");
    reveal_strlit("2m_dewpoint_depression");
    reveal_strlit("wetbulb_2m");
    reveal_strlit("wet_bulb_2m");
    reveal_strlit("2m_wetbulb");
    reveal_strlit("2m_wet_bulb");
    reveal_strlit("fire_weather_composite");
    reveal_strlit("fire_weather");
    reveal_strlit("fire_wx");
    reveal_strlit("apparent_temperature_2m");
    reveal_strlit("2m_apparent_temperature");
    reveal_strlit("heat_index_2m");
    reveal_strlit("2m_heat_index");
    reveal_strlit("wind_chill_2m");
    reveal_strlit("2m_wind_chill");
    reveal_strlit("lifted_index");
    reveal_strlit("lapse_rate_700_500");
    reveal_strlit("lapse_rate_0_3km");
    reveal_strlit("bulk_shear_0_1km");
    reveal_strlit("bulk_shear_0_6km");
    reveal_strlit("srh_0_1km");
    reveal_strlit("srh_0_3km");
    reveal_strlit("ehi_0_1km");
    reveal_strlit("ehi_sb_0_1km_proxy");
    reveal_strlit("ehi_0_3km");
    reveal_strlit("ehi_sb_0_3km_proxy");
    reveal_strlit("stp_fixed");
    reveal_strlit("scp_mu_0_3km_0_6km_proxy");
    reveal_strlit("temperature_advection_700mb");
    reveal_strlit("temperature_advection_850mb");
    if slug == "stp_effective"@ {
        assert(slug =~= seq!['s', 't', 'p', '_', 'e', 'f', 'f', 'e', 'c', 't', 'i', 'v', 'e']);
    } else if slug == "scp"@ {
        assert(slug =~= seq!['s', 'c', 'p']);
    } else {
        assert(slug =~= seq!['s', 'c', 'p', '_', 'e', 'f', 'f', 'e', 'c', 't', 'i', 'v', 'e']);
    }
    lemma_canonical_text_is_normal(slug);
}

} // verus!
