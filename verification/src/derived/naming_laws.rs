//! How the names of the derived recipes, their titles, their units and the names that
//! they also go by hang together.
use crate::derived::fields;
use crate::derived::recipes;
use crate::derived::recipes::DerivedRecipe;
use crate::text;
use vstd::prelude::*;

verus! {

/// A text in lower case, with underscores for dashes and spaces.
pub open spec fn plain(words: Seq<char>) -> Seq<char> {
    words.map_values(|c: char| recipes::slug_char(text::ascii_lower(c)))
}

/// The slug that the words of a title spell, where a title of that kind has them.
pub open spec fn spelled(recipe: DerivedRecipe, title: Seq<char>) -> Seq<char> {
    match recipe {
        DerivedRecipe::Sbcape
        | DerivedRecipe::Sbcin
        | DerivedRecipe::Sblcl
        | DerivedRecipe::Mlcape
        | DerivedRecipe::Mlcin
        | DerivedRecipe::Mucape
        | DerivedRecipe::Mucin
        | DerivedRecipe::Dcape
        | DerivedRecipe::Sbecape
        | DerivedRecipe::Mlecape
        | DerivedRecipe::Muecape
        | DerivedRecipe::Sbncape
        | DerivedRecipe::Sbecin
        | DerivedRecipe::Mlecin
        | DerivedRecipe::FireWeatherComposite => plain(title),
        DerivedRecipe::SbEcapeDerivedCapeRatio
        | DerivedRecipe::MlEcapeDerivedCapeRatio
        | DerivedRecipe::MuEcapeDerivedCapeRatio => plain(title.subrange(0, 2)) + "_"@ + plain(title.subrange(3, 8)) + "_"@ + plain(title.subrange(11, 29)),
        DerivedRecipe::SbEcapeNativeCapeRatio
        | DerivedRecipe::MlEcapeNativeCapeRatio
        | DerivedRecipe::MuEcapeNativeCapeRatio => plain(title.subrange(0, 2)) + "_"@ + plain(title.subrange(3, 8)) + "_"@ + plain(title.subrange(11, 28)),
        DerivedRecipe::EcapeScp
        | DerivedRecipe::EcapeStp => plain(title.subrange(0, 9)),
        DerivedRecipe::EcapeEhi01km
        | DerivedRecipe::EcapeEhi03km => plain(title.subrange(0, 13)) + "km"@,
        DerivedRecipe::ThetaE2m10mWinds => plain(title.subrange(4, 11)) + "_2m_"@ + plain(title.subrange(13, 15)) + "m_"@ + plain(title.subrange(18, 22)) + "s"@,
        DerivedRecipe::Vpd2m => plain(seq![title[4], title[10], title[19]]) + "_2m"@,
        DerivedRecipe::DewpointDepression2m
        | DerivedRecipe::ApparentTemperature2m
        | DerivedRecipe::HeatIndex2m
        | DerivedRecipe::WindChill2m => plain(title.skip(4)) + "_2m"@,
        DerivedRecipe::Wetbulb2m => plain(title.subrange(4, 7)) + plain(title.subrange(8, 12)) + "_2m"@,
        DerivedRecipe::LiftedIndex => plain(title.skip(14)),
        DerivedRecipe::LapseRate700500 => plain(title.skip(31)) + "_"@ + plain(title.subrange(0, 7)),
        DerivedRecipe::LapseRate03km
        | DerivedRecipe::BulkShear01km
        | DerivedRecipe::BulkShear06km
        | DerivedRecipe::Srh01km
        | DerivedRecipe::Srh03km => plain(title.skip(7)) + "_"@ + plain(title.subrange(0, 3)) + "km"@,
        DerivedRecipe::Ehi01km
        | DerivedRecipe::Ehi03km => plain(title.subrange(0, 7)) + "km"@,
        DerivedRecipe::StpFixed => plain(title.subrange(0, 3)) + "_"@ + plain(title.subrange(5, 10)),
        DerivedRecipe::ScpMu03km06kmProxy => plain(title.subrange(0, 3)) + "_"@ + plain(title.subrange(5, 7)) + "_"@ + plain(title.subrange(10, 13)) + "km_"@ + plain(title.subrange(19, 22)) + "km_"@ + plain(title.subrange(26, 31)),
        DerivedRecipe::TemperatureAdvection700mb
        | DerivedRecipe::TemperatureAdvection850mb => plain(title.skip(7)) + "_"@ + plain(title.subrange(0, 3)) + "mb"@,
    }
}

/// The title of a recipe spells its slug: a parcel field is titled with its slug in upper
/// case, and a title that names a layer, a level or a height names that of the slug.
pub proof fn law_titles_spell_the_slug(recipe: DerivedRecipe)
    ensures
        spelled(recipe, recipe.spec_title()@) == recipe.spec_slug()@,
{
    let title = recipe.spec_title()@;
    let slug = recipe.spec_slug()@;
    reveal_strlit("_");
    reveal_strlit("km");
    reveal_strlit("mb");
    reveal_strlit("km_");
    reveal_strlit("_2m");
    reveal_strlit("_2m_");
    reveal_strlit("m_");
    reveal_strlit("s");
    match recipe {
        DerivedRecipe::Sbcape => {
            reveal_strlit("SBCAPE");
            reveal_strlit("sbcape");
            assert(spelled(recipe, title) =~= slug);
        },
        DerivedRecipe::Sbcin => {
            reveal_strlit("SBCIN");
            reveal_strlit("sbcin");
            assert(spelled(recipe, title) =~= slug);
        },
        DerivedRecipe::Sblcl => {
            reveal_strlit("SBLCL");
            reveal_strlit("sblcl");
            assert(spelled(recipe, title) =~= slug);
        },
        DerivedRecipe::Mlcape => {
            reveal_strlit("MLCAPE");
            reveal_strlit("mlcape");
            assert(spelled(recipe, title) =~= slug);
        },
        DerivedRecipe::Mlcin => {
            reveal_strlit("MLCIN");
            reveal_strlit("mlcin");
            assert(spelled(recipe, title) =~= slug);
        },
        DerivedRecipe::Mucape => {
            reveal_strlit("MUCAPE");
            reveal_strlit("mucape");
            assert(spelled(recipe, title) =~= slug);
        },
        DerivedRecipe::Mucin => {
            reveal_strlit("MUCIN");
            reveal_strlit("mucin");
            assert(spelled(recipe, title) =~= slug);
        },
        DerivedRecipe::Dcape => {
            reveal_strlit("DCAPE");
            reveal_strlit("dcape");
            assert(spelled(recipe, title) =~= slug);
        },
        DerivedRecipe::Sbecape => {
            reveal_strlit("SBECAPE");
            reveal_strlit("sbecape");
            assert(spelled(recipe, title) =~= slug);
        },
        DerivedRecipe::Mlecape => {
            reveal_strlit("MLECAPE");
            reveal_strlit("mlecape");
            assert(spelled(recipe, title) =~= slug);
        },
        DerivedRecipe::Muecape => {
            reveal_strlit("MUECAPE");
            reveal_strlit("muecape");
            assert(spelled(recipe, title) =~= slug);
        },
        DerivedRecipe::SbEcapeDerivedCapeRatio => {
            reveal_strlit("SB ECAPE / Derived CAPE Ratio (EXP)");
            reveal_strlit("sb_ecape_derived_cape_ratio");
            assert(spelled(recipe, title) =~= slug);
        },
        DerivedRecipe::MlEcapeDerivedCapeRatio => {
            reveal_strlit("ML ECAPE / Derived CAPE Ratio (EXP)");
            reveal_strlit("ml_ecape_derived_cape_ratio");
            assert(spelled(recipe, title) =~= slug);
        },
        DerivedRecipe::MuEcapeDerivedCapeRatio => {
            reveal_strlit("MU ECAPE / Derived CAPE Ratio (EXP)");
            reveal_strlit("mu_ecape_derived_cape_ratio");
            assert(spelled(recipe, title) =~= slug);
        },
        DerivedRecipe::SbEcapeNativeCapeRatio => {
            reveal_strlit("SB ECAPE / Native CAPE Ratio (EXP)");
            reveal_strlit("sb_ecape_native_cape_ratio");
            assert(spelled(recipe, title) =~= slug);
        },
        DerivedRecipe::MlEcapeNativeCapeRatio => {
            reveal_strlit("ML ECAPE / Native CAPE Ratio (EXP)");
            reveal_strlit("ml_ecape_native_cape_ratio");
            assert(spelled(recipe, title) =~= slug);
        },
        DerivedRecipe::MuEcapeNativeCapeRatio => {
            reveal_strlit("MU ECAPE / Native CAPE Ratio (EXP)");
            reveal_strlit("mu_ecape_native_cape_ratio");
            assert(spelled(recipe, title) =~= slug);
        },
        DerivedRecipe::Sbncape => {
            reveal_strlit("SBNCAPE");
            reveal_strlit("sbncape");
            assert(spelled(recipe, title) =~= slug);
        },
        DerivedRecipe::Sbecin => {
            reveal_strlit("SBECIN");
            reveal_strlit("sbecin");
            assert(spelled(recipe, title) =~= slug);
        },
        DerivedRecipe::Mlecin => {
            reveal_strlit("MLECIN");
            reveal_strlit("mlecin");
            assert(spelled(recipe, title) =~= slug);
        },
        DerivedRecipe::EcapeScp => {
            reveal_strlit("ECAPE SCP (EXP)");
            reveal_strlit("ecape_scp");
            assert(spelled(recipe, title) =~= slug);
        },
        DerivedRecipe::EcapeEhi01km => {
            reveal_strlit("ECAPE EHI 0-1 km (EXP)");
            reveal_strlit("ecape_ehi_0_1km");
            assert(spelled(recipe, title) =~= slug);
        },
        DerivedRecipe::EcapeEhi03km => {
            reveal_strlit("ECAPE EHI 0-3 km (EXP)");
            reveal_strlit("ecape_ehi_0_3km");
            assert(spelled(recipe, title) =~= slug);
        },
        DerivedRecipe::EcapeStp => {
            reveal_strlit("ECAPE STP (EXP)");
            reveal_strlit("ecape_stp");
            assert(spelled(recipe, title) =~= slug);
        },
        DerivedRecipe::ThetaE2m10mWinds => {
            reveal_strlit("2 m Theta-e, 10 m Wind");
            reveal_strlit("theta_e_2m_10m_winds");
            assert(spelled(recipe, title) =~= slug);
        },
        DerivedRecipe::Vpd2m => {
            reveal_strlit("2 m Vapor Pressure Deficit");
            reveal_strlit("vpd_2m");
            assert(spelled(recipe, title) =~= slug);
        },
        DerivedRecipe::DewpointDepression2m => {
            reveal_strlit("2 m Dewpoint Depression");
            reveal_strlit("dewpoint_depression_2m");
            assert(spelled(recipe, title) =~= slug);
        },
        DerivedRecipe::Wetbulb2m => {
            reveal_strlit("2 m Wet-Bulb Temperature");
            reveal_strlit("wetbulb_2m");
            assert(spelled(recipe, title) =~= slug);
        },
        DerivedRecipe::FireWeatherComposite => {
            reveal_strlit("Fire Weather Composite");
            reveal_strlit("fire_weather_composite");
            assert(spelled(recipe, title) =~= slug);
        },
        DerivedRecipe::ApparentTemperature2m => {
            reveal_strlit("2 m Apparent Temperature");
            reveal_strlit("apparent_temperature_2m");
            assert(spelled(recipe, title) =~= slug);
        },
        DerivedRecipe::HeatIndex2m => {
            reveal_strlit("2 m Heat Index");
            reveal_strlit("heat_index_2m");
            assert(spelled(recipe, title) =~= slug);
        },
        DerivedRecipe::WindChill2m => {
            reveal_strlit("2 m Wind Chill");
            reveal_strlit("wind_chill_2m");
            assert(spelled(recipe, title) =~= slug);
        },
        DerivedRecipe::LiftedIndex => {
            reveal_strlit("Surface-Based Lifted Index");
            reveal_strlit("lifted_index");
            assert(spelled(recipe, title) =~= slug);
        },
        DerivedRecipe::LapseRate700500 => {
            reveal_strlit("700-500 mb Virtual Temperature Lapse Rate");
            reveal_strlit("lapse_rate_700_500");
            assert(spelled(recipe, title) =~= slug);
        },
        DerivedRecipe::LapseRate03km => {
            reveal_strlit("0-3 km Lapse Rate");
            reveal_strlit("lapse_rate_0_3km");
            assert(spelled(recipe, title) =~= slug);
        },
        DerivedRecipe::BulkShear01km => {
            reveal_strlit("0-1 km Bulk Shear");
            reveal_strlit("bulk_shear_0_1km");
            assert(spelled(recipe, title) =~= slug);
        },
        DerivedRecipe::BulkShear06km => {
            reveal_strlit("0-6 km Bulk Shear");
            reveal_strlit("bulk_shear_0_6km");
            assert(spelled(recipe, title) =~= slug);
        },
        DerivedRecipe::Srh01km => {
            reveal_strlit("0-1 km SRH");
            reveal_strlit("srh_0_1km");
            assert(spelled(recipe, title) =~= slug);
        },
        DerivedRecipe::Srh03km => {
            reveal_strlit("0-3 km SRH");
            reveal_strlit("srh_0_3km");
            assert(spelled(recipe, title) =~= slug);
        },
        DerivedRecipe::Ehi01km => {
            reveal_strlit("EHI 0-1 km");
            reveal_strlit("ehi_0_1km");
            assert(spelled(recipe, title) =~= slug);
        },
        DerivedRecipe::Ehi03km => {
            reveal_strlit("EHI 0-3 km");
            reveal_strlit("ehi_0_3km");
            assert(spelled(recipe, title) =~= slug);
        },
        DerivedRecipe::StpFixed => {
            reveal_strlit("STP (FIXED)");
            reveal_strlit("stp_fixed");
            assert(spelled(recipe, title) =~= slug);
        },
        DerivedRecipe::ScpMu03km06kmProxy => {
            reveal_strlit("SCP (MU / 0-3 km / 0-6 km PROXY)");
            reveal_strlit("scp_mu_0_3km_0_6km_proxy");
            assert(spelled(recipe, title) =~= slug);
        },
        DerivedRecipe::TemperatureAdvection700mb => {
            reveal_strlit("700 mb Temperature Advection");
            reveal_strlit("temperature_advection_700mb");
            assert(spelled(recipe, title) =~= slug);
        },
        DerivedRecipe::TemperatureAdvection850mb => {
            reveal_strlit("850 mb Temperature Advection");
            reveal_strlit("temperature_advection_850mb");
            assert(spelled(recipe, title) =~= slug);
        },
    }
}

/// What the name of a field ends in when it is given in some units.
pub open spec fn unit_suffix(units: Seq<char>) -> Seq<char> {
    if units == "J/kg"@ {
        "_jkg"@
    } else if units == "m"@ {
        "_m"@
    } else if units == "K"@ {
        "_k"@
    } else if units == "hPa"@ {
        "_hpa"@
    } else if units == "degC"@ {
        "_c"@
    } else if units == "degC/km"@ {
        "_cpkm"@
    } else if units == "degC/hr"@ {
        "_cph"@
    } else if units == "kt"@ {
        "_kt"@
    } else if units == "m^2/s^2"@ {
        "_m2s2"@
    } else {
        Seq::empty()
    }
}

/// Whether the field of a recipe goes by the slug and its units, and not by a shorter
/// name.
pub open spec fn named_in_full(recipe: DerivedRecipe) -> bool {
    !(recipe is ThetaE2m10mWinds || recipe is BulkShear01km || recipe is BulkShear06km
        || recipe is Srh01km || recipe is Srh03km || recipe is Ehi01km || recipe is Ehi03km
        || recipe is ScpMu03km06kmProxy)
}

/// The name of a field ends in the units that it is shown in, and begins with the slug of
/// its recipe but for a few that go by a shorter name. Only indices have no units.
pub proof fn law_field_names_tell_slug_and_units(recipe: DerivedRecipe)
    requires
        !recipe.spec_is_heavy(),
    ensures
        ({
            let name = fields::field_name(recipe);
            let suffix = unit_suffix(fields::display_units(recipe));
            &&& suffix.len() <= name.len()
            &&& name.skip(name.len() - suffix.len()) == suffix
            &&& named_in_full(recipe) ==> name == recipe.spec_slug()@ + suffix
            &&& suffix.len() == 0 <==> recipe is FireWeatherComposite || recipe is Ehi01km
                || recipe is Ehi03km || recipe is StpFixed || recipe is ScpMu03km06kmProxy
        }),
{
    let name = fields::field_name(recipe);
    let slug = recipe.spec_slug()@;
    lemma_units_differ();
    let suffix = unit_suffix(fields::display_units(recipe));
    match recipe {
        DerivedRecipe::Sbcape => {
            reveal_strlit("sbcape_jkg");
            reveal_strlit("sbcape");
            reveal_strlit("J/kg");
            reveal_strlit("_jkg");
            assert(name.skip(name.len() - suffix.len()) =~= suffix);
            assert(name =~= slug + suffix);
        },
        DerivedRecipe::Sbcin => {
            reveal_strlit("sbcin_jkg");
            reveal_strlit("sbcin");
            reveal_strlit("J/kg");
            reveal_strlit("_jkg");
            assert(name.skip(name.len() - suffix.len()) =~= suffix);
            assert(name =~= slug + suffix);
        },
        DerivedRecipe::Sblcl => {
            reveal_strlit("sblcl_m");
            reveal_strlit("sblcl");
            reveal_strlit("m");
            reveal_strlit("_m");
            assert(name.skip(name.len() - suffix.len()) =~= suffix);
            assert(name =~= slug + suffix);
        },
        DerivedRecipe::Mlcape => {
            reveal_strlit("mlcape_jkg");
            reveal_strlit("mlcape");
            reveal_strlit("J/kg");
            reveal_strlit("_jkg");
            assert(name.skip(name.len() - suffix.len()) =~= suffix);
            assert(name =~= slug + suffix);
        },
        DerivedRecipe::Mlcin => {
            reveal_strlit("mlcin_jkg");
            reveal_strlit("mlcin");
            reveal_strlit("J/kg");
            reveal_strlit("_jkg");
            assert(name.skip(name.len() - suffix.len()) =~= suffix);
            assert(name =~= slug + suffix);
        },
        DerivedRecipe::Mucape => {
            reveal_strlit("mucape_jkg");
            reveal_strlit("mucape");
            reveal_strlit("J/kg");
            reveal_strlit("_jkg");
            assert(name.skip(name.len() - suffix.len()) =~= suffix);
            assert(name =~= slug + suffix);
        },
        DerivedRecipe::Mucin => {
            reveal_strlit("mucin_jkg");
            reveal_strlit("mucin");
            reveal_strlit("J/kg");
            reveal_strlit("_jkg");
            assert(name.skip(name.len() - suffix.len()) =~= suffix);
            assert(name =~= slug + suffix);
        },
        DerivedRecipe::Dcape => {
            reveal_strlit("dcape_jkg");
            reveal_strlit("dcape");
            reveal_strlit("J/kg");
            reveal_strlit("_jkg");
            assert(name.skip(name.len() - suffix.len()) =~= suffix);
            assert(name =~= slug + suffix);
        },
        DerivedRecipe::ThetaE2m10mWinds => {
            reveal_strlit("theta_e_2m_k");
            reveal_strlit("theta_e_2m_10m_winds");
            reveal_strlit("K");
            reveal_strlit("_k");
            assert(name.skip(name.len() - suffix.len()) =~= suffix);
        },
        DerivedRecipe::Vpd2m => {
            reveal_strlit("vpd_2m_hpa");
            reveal_strlit("vpd_2m");
            reveal_strlit("hPa");
            reveal_strlit("_hpa");
            assert(name.skip(name.len() - suffix.len()) =~= suffix);
            assert(name =~= slug + suffix);
        },
        DerivedRecipe::DewpointDepression2m => {
            reveal_strlit("dewpoint_depression_2m_c");
            reveal_strlit("dewpoint_depression_2m");
            reveal_strlit("degC");
            reveal_strlit("_c");
            assert(name.skip(name.len() - suffix.len()) =~= suffix);
            assert(name =~= slug + suffix);
        },
        DerivedRecipe::Wetbulb2m => {
            reveal_strlit("wetbulb_2m_c");
            reveal_strlit("wetbulb_2m");
            reveal_strlit("degC");
            reveal_strlit("_c");
            assert(name.skip(name.len() - suffix.len()) =~= suffix);
            assert(name =~= slug + suffix);
        },
        DerivedRecipe::FireWeatherComposite => {
            reveal_strlit("fire_weather_composite");
            reveal_strlit("index");
            assert(name.skip(name.len() - suffix.len()) =~= suffix);
            assert(name =~= slug + suffix);
        },
        DerivedRecipe::ApparentTemperature2m => {
            reveal_strlit("apparent_temperature_2m_c");
            reveal_strlit("apparent_temperature_2m");
            reveal_strlit("degC");
            reveal_strlit("_c");
            assert(name.skip(name.len() - suffix.len()) =~= suffix);
            assert(name =~= slug + suffix);
        },
        DerivedRecipe::HeatIndex2m => {
            reveal_strlit("heat_index_2m_c");
            reveal_strlit("heat_index_2m");
            reveal_strlit("degC");
            reveal_strlit("_c");
            assert(name.skip(name.len() - suffix.len()) =~= suffix);
            assert(name =~= slug + suffix);
        },
        DerivedRecipe::WindChill2m => {
            reveal_strlit("wind_chill_2m_c");
            reveal_strlit("wind_chill_2m");
            reveal_strlit("degC");
            reveal_strlit("_c");
            assert(name.skip(name.len() - suffix.len()) =~= suffix);
            assert(name =~= slug + suffix);
        },
        DerivedRecipe::LiftedIndex => {
            reveal_strlit("lifted_index_c");
            reveal_strlit("lifted_index");
            reveal_strlit("degC");
            reveal_strlit("_c");
            assert(name.skip(name.len() - suffix.len()) =~= suffix);
            assert(name =~= slug + suffix);
        },
        DerivedRecipe::LapseRate700500 => {
            reveal_strlit("lapse_rate_700_500_cpkm");
            reveal_strlit("lapse_rate_700_500");
            reveal_strlit("degC/km");
            reveal_strlit("_cpkm");
            assert(name.skip(name.len() - suffix.len()) =~= suffix);
            assert(name =~= slug + suffix);
        },
        DerivedRecipe::LapseRate03km => {
            reveal_strlit("lapse_rate_0_3km_cpkm");
            reveal_strlit("lapse_rate_0_3km");
            reveal_strlit("degC/km");
            reveal_strlit("_cpkm");
            assert(name.skip(name.len() - suffix.len()) =~= suffix);
            assert(name =~= slug + suffix);
        },
        DerivedRecipe::BulkShear01km => {
            reveal_strlit("shear_01km_kt");
            reveal_strlit("bulk_shear_0_1km");
            reveal_strlit("kt");
            reveal_strlit("_kt");
            assert(name.skip(name.len() - suffix.len()) =~= suffix);
        },
        DerivedRecipe::BulkShear06km => {
            reveal_strlit("shear_06km_kt");
            reveal_strlit("bulk_shear_0_6km");
            reveal_strlit("kt");
            reveal_strlit("_kt");
            assert(name.skip(name.len() - suffix.len()) =~= suffix);
        },
        DerivedRecipe::Srh01km => {
            reveal_strlit("srh_01km_m2s2");
            reveal_strlit("srh_0_1km");
            reveal_strlit("m^2/s^2");
            reveal_strlit("_m2s2");
            assert(name.skip(name.len() - suffix.len()) =~= suffix);
        },
        DerivedRecipe::Srh03km => {
            reveal_strlit("srh_03km_m2s2");
            reveal_strlit("srh_0_3km");
            reveal_strlit("m^2/s^2");
            reveal_strlit("_m2s2");
            assert(name.skip(name.len() - suffix.len()) =~= suffix);
        },
        DerivedRecipe::Ehi01km => {
            reveal_strlit("ehi_01km");
            reveal_strlit("ehi_0_1km");
            reveal_strlit("dimensionless");
            assert(name.skip(name.len() - suffix.len()) =~= suffix);
        },
        DerivedRecipe::Ehi03km => {
            reveal_strlit("ehi_03km");
            reveal_strlit("ehi_0_3km");
            reveal_strlit("dimensionless");
            assert(name.skip(name.len() - suffix.len()) =~= suffix);
        },
        DerivedRecipe::StpFixed => {
            reveal_strlit("stp_fixed");
            reveal_strlit("dimensionless");
            assert(name.skip(name.len() - suffix.len()) =~= suffix);
            assert(name =~= slug + suffix);
        },
        DerivedRecipe::ScpMu03km06kmProxy => {
            reveal_strlit("scp_mu_03km_06km_proxy");
            reveal_strlit("scp_mu_0_3km_0_6km_proxy");
            reveal_strlit("dimensionless");
            assert(name.skip(name.len() - suffix.len()) =~= suffix);
        },
        DerivedRecipe::TemperatureAdvection700mb => {
            reveal_strlit("temperature_advection_700mb_cph");
            reveal_strlit("temperature_advection_700mb");
            reveal_strlit("degC/hr");
            reveal_strlit("_cph");
            assert(name.skip(name.len() - suffix.len()) =~= suffix);
            assert(name =~= slug + suffix);
        },
        DerivedRecipe::TemperatureAdvection850mb => {
            reveal_strlit("temperature_advection_850mb_cph");
            reveal_strlit("temperature_advection_850mb");
            reveal_strlit("degC/hr");
            reveal_strlit("_cph");
            assert(name.skip(name.len() - suffix.len()) =~= suffix);
            assert(name =~= slug + suffix);
        },
        _ => {},
    }
}

proof fn lemma_units_differ()
    ensures
        "J/kg"@ != "m"@,
        "J/kg"@ != "K"@,
        "J/kg"@ != "hPa"@,
        "J/kg"@ != "degC"@,
        "J/kg"@ != "index"@,
        "J/kg"@ != "degC/km"@,
        "J/kg"@ != "kt"@,
        "J/kg"@ != "m^2/s^2"@,
        "J/kg"@ != "dimensionless"@,
        "J/kg"@ != "degC/hr"@,
        "m"@ != "K"@,
        "m"@ != "hPa"@,
        "m"@ != "degC"@,
        "m"@ != "index"@,
        "m"@ != "degC/km"@,
        "m"@ != "kt"@,
        "m"@ != "m^2/s^2"@,
        "m"@ != "dimensionless"@,
        "m"@ != "degC/hr"@,
        "K"@ != "hPa"@,
        "K"@ != "degC"@,
        "K"@ != "index"@,
        "K"@ != "degC/km"@,
        "K"@ != "kt"@,
        "K"@ != "m^2/s^2"@,
        "K"@ != "dimensionless"@,
        "K"@ != "degC/hr"@,
        "hPa"@ != "degC"@,
        "hPa"@ != "index"@,
        "hPa"@ != "degC/km"@,
        "hPa"@ != "kt"@,
        "hPa"@ != "m^2/s^2"@,
        "hPa"@ != "dimensionless"@,
        "hPa"@ != "degC/hr"@,
        "degC"@ != "index"@,
        "degC"@ != "degC/km"@,
        "degC"@ != "kt"@,
        "degC"@ != "m^2/s^2"@,
        "degC"@ != "dimensionless"@,
        "degC"@ != "degC/hr"@,
        "index"@ != "degC/km"@,
        "index"@ != "kt"@,
        "index"@ != "m^2/s^2"@,
        "index"@ != "dimensionless"@,
        "index"@ != "degC/hr"@,
        "degC/km"@ != "kt"@,
        "degC/km"@ != "m^2/s^2"@,
        "degC/km"@ != "dimensionless"@,
        "degC/km"@ != "degC/hr"@,
        "kt"@ != "m^2/s^2"@,
        "kt"@ != "dimensionless"@,
        "kt"@ != "degC/hr"@,
        "m^2/s^2"@ != "dimensionless"@,
        "m^2/s^2"@ != "degC/hr"@,
        "dimensionless"@ != "degC/hr"@,
{
    reveal_strlit("J/kg");
    reveal_strlit("m");
    reveal_strlit("K");
    reveal_strlit("hPa");
    reveal_strlit("degC");
    reveal_strlit("index");
    reveal_strlit("degC/km");
    reveal_strlit("kt");
    reveal_strlit("m^2/s^2");
    reveal_strlit("dimensionless");
    reveal_strlit("degC/hr");
    assert("J/kg"@[0] == 'J' && "J/kg"@.len() == 4 && "J/kg"@.last() == 'g');
    assert("m"@[0] == 'm' && "m"@.len() == 1 && "m"@.last() == 'm');
    assert("K"@[0] == 'K' && "K"@.len() == 1 && "K"@.last() == 'K');
    assert("hPa"@[0] == 'h' && "hPa"@.len() == 3 && "hPa"@.last() == 'a');
    assert("degC"@[0] == 'd' && "degC"@.len() == 4 && "degC"@.last() == 'C');
    assert("index"@[0] == 'i' && "index"@.len() == 5 && "index"@.last() == 'x');
    assert("degC/km"@[0] == 'd' && "degC/km"@.len() == 7 && "degC/km"@.last() == 'm');
    assert("kt"@[0] == 'k' && "kt"@.len() == 2 && "kt"@.last() == 't');
    assert("m^2/s^2"@[0] == 'm' && "m^2/s^2"@.len() == 7 && "m^2/s^2"@.last() == '2');
    assert("dimensionless"@[0] == 'd' && "dimensionless"@.len() == 13 && "dimensionless"@.last() == 's');
    assert("degC/hr"@[0] == 'd' && "degC/hr"@.len() == 7 && "degC/hr"@.last() == 'r');
}

/// The drawing style follows from the slug: fields two metres above the ground alone are
/// filled fields, temperature advections and the one with winds are analyses, and all
/// others are severe-weather diagnostics.
pub proof fn law_visual_mode_follows_the_slug(recipe: DerivedRecipe)
    ensures
        recipe.spec_visual_mode() is FilledMeteorology <==> text::before_suffix(
            recipe.spec_slug()@,
            "_2m"@,
        ) is Some,
        recipe.spec_visual_mode() is UpperAirAnalysis <==> text::begins_with(
            recipe.spec_slug()@,
            "t"@,
        ),
{
    let slug = recipe.spec_slug()@;
    reveal_strlit("_2m");
    reveal_strlit("t");
    let tail = slug.skip(slug.len() - 3);
    match recipe {
        DerivedRecipe::Sbcape => {
            reveal_strlit("sbcape");
            assert(slug[0] == 's');
            assert(tail[0] == 'a');
            assert(slug.take(1)[0] != 't');
        },
        DerivedRecipe::Sbcin => {
            reveal_strlit("sbcin");
            assert(slug[0] == 's');
            assert(tail[0] == 'c');
            assert(slug.take(1)[0] != 't');
        },
        DerivedRecipe::Sblcl => {
            reveal_strlit("sblcl");
            assert(slug[0] == 's');
            assert(tail[0] == 'l');
            assert(slug.take(1)[0] != 't');
        },
        DerivedRecipe::Mlcape => {
            reveal_strlit("mlcape");
            assert(slug[0] == 'm');
            assert(tail[0] == 'a');
            assert(slug.take(1)[0] != 't');
        },
        DerivedRecipe::Mlcin => {
            reveal_strlit("mlcin");
            assert(slug[0] == 'm');
            assert(tail[0] == 'c');
            assert(slug.take(1)[0] != 't');
        },
        DerivedRecipe::Mucape => {
            reveal_strlit("mucape");
            assert(slug[0] == 'm');
            assert(tail[0] == 'a');
            assert(slug.take(1)[0] != 't');
        },
        DerivedRecipe::Mucin => {
            reveal_strlit("mucin");
            assert(slug[0] == 'm');
            assert(tail[0] == 'c');
            assert(slug.take(1)[0] != 't');
        },
        DerivedRecipe::Dcape => {
            reveal_strlit("dcape");
            assert(slug[0] == 'd');
            assert(tail[0] == 'a');
            assert(slug.take(1)[0] != 't');
        },
        DerivedRecipe::Sbecape => {
            reveal_strlit("sbecape");
            assert(slug[0] == 's');
            assert(tail[0] == 'a');
            assert(slug.take(1)[0] != 't');
        },
        DerivedRecipe::Mlecape => {
            reveal_strlit("mlecape");
            assert(slug[0] == 'm');
            assert(tail[0] == 'a');
            assert(slug.take(1)[0] != 't');
        },
        DerivedRecipe::Muecape => {
            reveal_strlit("muecape");
            assert(slug[0] == 'm');
            assert(tail[0] == 'a');
            assert(slug.take(1)[0] != 't');
        },
        DerivedRecipe::SbEcapeDerivedCapeRatio => {
            reveal_strlit("sb_ecape_derived_cape_ratio");
            assert(slug[0] == 's');
            assert(tail[0] == 't');
            assert(slug.take(1)[0] != 't');
        },
        DerivedRecipe::MlEcapeDerivedCapeRatio => {
            reveal_strlit("ml_ecape_derived_cape_ratio");
            assert(slug[0] == 'm');
            assert(tail[0] == 't');
            assert(slug.take(1)[0] != 't');
        },
        DerivedRecipe::MuEcapeDerivedCapeRatio => {
            reveal_strlit("mu_ecape_derived_cape_ratio");
            assert(slug[0] == 'm');
            assert(tail[0] == 't');
            assert(slug.take(1)[0] != 't');
        },
        DerivedRecipe::SbEcapeNativeCapeRatio => {
            reveal_strlit("sb_ecape_native_cape_ratio");
            assert(slug[0] == 's');
            assert(tail[0] == 't');
            assert(slug.take(1)[0] != 't');
        },
        DerivedRecipe::MlEcapeNativeCapeRatio => {
            reveal_strlit("ml_ecape_native_cape_ratio");
            assert(slug[0] == 'm');
            assert(tail[0] == 't');
            assert(slug.take(1)[0] != 't');
        },
        DerivedRecipe::MuEcapeNativeCapeRatio => {
            reveal_strlit("mu_ecape_native_cape_ratio");
            assert(slug[0] == 'm');
            assert(tail[0] == 't');
            assert(slug.take(1)[0] != 't');
        },
        DerivedRecipe::Sbncape => {
            reveal_strlit("sbncape");
            assert(slug[0] == 's');
            assert(tail[0] == 'a');
            assert(slug.take(1)[0] != 't');
        },
        DerivedRecipe::Sbecin => {
            reveal_strlit("sbecin");
            assert(slug[0] == 's');
            assert(tail[0] == 'c');
            assert(slug.take(1)[0] != 't');
        },
        DerivedRecipe::Mlecin => {
            reveal_strlit("mlecin");
            assert(slug[0] == 'm');
            assert(tail[0] == 'c');
            assert(slug.take(1)[0] != 't');
        },
        DerivedRecipe::EcapeScp => {
            reveal_strlit("ecape_scp");
            assert(slug[0] == 'e');
            assert(tail[0] == 's');
            assert(slug.take(1)[0] != 't');
        },
        DerivedRecipe::EcapeEhi01km => {
            reveal_strlit("ecape_ehi_0_1km");
            assert(slug[0] == 'e');
            assert(tail[0] == '1');
            assert(slug.take(1)[0] != 't');
        },
        DerivedRecipe::EcapeEhi03km => {
            reveal_strlit("ecape_ehi_0_3km");
            assert(slug[0] == 'e');
            assert(tail[0] == '3');
            assert(slug.take(1)[0] != 't');
        },
        DerivedRecipe::EcapeStp => {
            reveal_strlit("ecape_stp");
            assert(slug[0] == 'e');
            assert(tail[0] == 's');
            assert(slug.take(1)[0] != 't');
        },
        DerivedRecipe::ThetaE2m10mWinds => {
            reveal_strlit("theta_e_2m_10m_winds");
            assert(slug[0] == 't');
            assert(tail[0] == 'n');
            assert(slug.take(1) =~= "t"@);
        },
        DerivedRecipe::Vpd2m => {
            reveal_strlit("vpd_2m");
            assert(slug[0] == 'v');
            assert(tail =~= "_2m"@);
            assert(slug.take(1)[0] != 't');
        },
        DerivedRecipe::DewpointDepression2m => {
            reveal_strlit("dewpoint_depression_2m");
            assert(slug[0] == 'd');
            assert(tail =~= "_2m"@);
            assert(slug.take(1)[0] != 't');
        },
        DerivedRecipe::Wetbulb2m => {
            reveal_strlit("wetbulb_2m");
            assert(slug[0] == 'w');
            assert(tail =~= "_2m"@);
            assert(slug.take(1)[0] != 't');
        },
        DerivedRecipe::FireWeatherComposite => {
            reveal_strlit("fire_weather_composite");
            assert(slug[0] == 'f');
            assert(tail[0] == 'i');
            assert(slug.take(1)[0] != 't');
        },
        DerivedRecipe::ApparentTemperature2m => {
            reveal_strlit("apparent_temperature_2m");
            assert(slug[0] == 'a');
            assert(tail =~= "_2m"@);
            assert(slug.take(1)[0] != 't');
        },
        DerivedRecipe::HeatIndex2m => {
            reveal_strlit("heat_index_2m");
            assert(slug[0] == 'h');
            assert(tail =~= "_2m"@);
            assert(slug.take(1)[0] != 't');
        },
        DerivedRecipe::WindChill2m => {
            reveal_strlit("wind_chill_2m");
            assert(slug[0] == 'w');
            assert(tail =~= "_2m"@);
            assert(slug.take(1)[0] != 't');
        },
        DerivedRecipe::LiftedIndex => {
            reveal_strlit("lifted_index");
            assert(slug[0] == 'l');
            assert(tail[0] == 'd');
            assert(slug.take(1)[0] != 't');
        },
        DerivedRecipe::LapseRate700500 => {
            reveal_strlit("lapse_rate_700_500");
            assert(slug[0] == 'l');
            assert(tail[0] == '5');
            assert(slug.take(1)[0] != 't');
        },
        DerivedRecipe::LapseRate03km => {
            reveal_strlit("lapse_rate_0_3km");
            assert(slug[0] == 'l');
            assert(tail[0] == '3');
            assert(slug.take(1)[0] != 't');
        },
        DerivedRecipe::BulkShear01km => {
            reveal_strlit("bulk_shear_0_1km");
            assert(slug[0] == 'b');
            assert(tail[0] == '1');
            assert(slug.take(1)[0] != 't');
        },
        DerivedRecipe::BulkShear06km => {
            reveal_strlit("bulk_shear_0_6km");
            assert(slug[0] == 'b');
            assert(tail[0] == '6');
            assert(slug.take(1)[0] != 't');
        },
        DerivedRecipe::Srh01km => {
            reveal_strlit("srh_0_1km");
            assert(slug[0] == 's');
            assert(tail[0] == '1');
            assert(slug.take(1)[0] != 't');
        },
        DerivedRecipe::Srh03km => {
            reveal_strlit("srh_0_3km");
            assert(slug[0] == 's');
            assert(tail[0] == '3');
            assert(slug.take(1)[0] != 't');
        },
        DerivedRecipe::Ehi01km => {
            reveal_strlit("ehi_0_1km");
            assert(slug[0] == 'e');
            assert(tail[0] == '1');
            assert(slug.take(1)[0] != 't');
        },
        DerivedRecipe::Ehi03km => {
            reveal_strlit("ehi_0_3km");
            assert(slug[0] == 'e');
            assert(tail[0] == '3');
            assert(slug.take(1)[0] != 't');
        },
        DerivedRecipe::StpFixed => {
            reveal_strlit("stp_fixed");
            assert(slug[0] == 's');
            assert(tail[0] == 'x');
            assert(slug.take(1)[0] != 't');
        },
        DerivedRecipe::ScpMu03km06kmProxy => {
            reveal_strlit("scp_mu_0_3km_0_6km_proxy");
            assert(slug[0] == 's');
            assert(tail[0] == 'o');
            assert(slug.take(1)[0] != 't');
        },
        DerivedRecipe::TemperatureAdvection700mb => {
            reveal_strlit("temperature_advection_700mb");
            assert(slug[0] == 't');
            assert(tail[0] == '0');
            assert(slug.take(1) =~= "t"@);
        },
        DerivedRecipe::TemperatureAdvection850mb => {
            reveal_strlit("temperature_advection_850mb");
            assert(slug[0] == 't');
            assert(tail[0] == '0');
            assert(slug.take(1) =~= "t"@);
        },
    }
}

/// A field two metres above the ground goes by its name with the height before or behind
/// it.
pub proof fn law_height_stands_before_or_behind(name: Seq<char>)
    requires
        name != "theta_e_10m_winds"@,
    ensures
        recipes::recognized("2m_"@ + name) == recipes::recognized(name + "_2m"@),
{
    reveal_strlit("2m_");
    reveal_strlit("_2m");
    reveal_strlit("theta_e_10m_winds");
    reveal_strlit("sbcape");
    reveal_strlit("sbcin");
    reveal_strlit("sblcl");
    reveal_strlit("mlcape");
    reveal_strlit("mlcin");
    reveal_strlit("mucape");
    reveal_strlit("mucin");
    reveal_strlit("dcape");
    reveal_strlit("downdraft_cape");
    reveal_strlit("sbecape");
    reveal_strlit("mlecape");
    reveal_strlit("muecape");
    reveal_strlit("sb_ecape_derived_cape_ratio");
    reveal_strlit("sbecape_derived_cape_ratio");
    reveal_strlit("ml_ecape_derived_cape_ratio");
    reveal_strlit("mlecape_derived_cape_ratio");
    reveal_strlit("mu_ecape_derived_cape_ratio");
    reveal_strlit("muecape_derived_cape_ratio");
    reveal_strlit("sb_ecape_native_cape_ratio");
    reveal_strlit("sbecape_native_cape_ratio");
    reveal_strlit("ml_ecape_native_cape_ratio");
    reveal_strlit("mlecape_native_cape_ratio");
    reveal_strlit("mu_ecape_native_cape_ratio");
    reveal_strlit("muecape_native_cape_ratio");
    reveal_strlit("sbncape");
    reveal_strlit("sbecin");
    reveal_strlit("mlecin");
    reveal_strlit("ecape_scp");
    reveal_strlit("ecape_ehi");
    reveal_strlit("ecape_ehi_0_1km");
    reveal_strlit("ecape_ehi_01km");
    reveal_strlit("ecape_ehi_0_3km");
    reveal_strlit("ecape_ehi_03km");
    reveal_strlit("ecape_stp");
    reveal_strlit("theta_e_2m_10m_winds");
    reveal_strlit("2m_theta_e_10m_winds");
    reveal_strlit("vpd_2m");
    reveal_strlit("2m_vpd");
    reveal_strlit("vapor_pressure_deficit_2m");
    reveal_strlit("2m_vapor_pressure_deficit");
    reveal_strlit("dewpoint_depression_2m");
    reveal_strlit("2m_dewpoint_depression");
    reveal_strlit("wetbulb_2m");
    reveal_strlit("wet_bulb_2m");
    reveal_strlit("2m_wetbulb");
    reveal_strlit("2m_wet_bulb");
    reveal_strlit("fire_weather_composite");
    reveal_strlit("fire_weather");
    reveal_strlit("fire_wx");
    reveal_strlit("apparent_temperature_2m");
    reveal_strlit("2m_apparent_temperature");
    reveal_strlit("heat_index_2m");
    reveal_strlit("2m_heat_index");
    reveal_strlit("wind_chill_2m");
    reveal_strlit("2m_wind_chill");
    reveal_strlit("lifted_index");
    reveal_strlit("lapse_rate_700_500");
    reveal_strlit("lapse_rate_0_3km");
    reveal_strlit("bulk_shear_0_1km");
    reveal_strlit("bulk_shear_0_6km");
    reveal_strlit("srh_0_1km");
    reveal_strlit("srh_0_3km");
    reveal_strlit("ehi_0_1km");
    reveal_strlit("ehi_sb_0_1km_proxy");
    reveal_strlit("ehi_0_3km");
    reveal_strlit("ehi_sb_0_3km_proxy");
    reveal_strlit("stp_fixed");
    reveal_strlit("scp_mu_0_3km_0_6km_proxy");
    reveal_strlit("temperature_advection_700mb");
    reveal_strlit("temperature_advection_850mb");
    let before = "2m_"@ + name;
    let behind = name + "_2m"@;
    assert(before.skip(3) =~= name);
    assert(behind.take(behind.len() - 3) =~= name);
    assert(before[0] == '2' && before[1] == 'm' && before[2] == '_');
    assert(behind[behind.len() - 3] == '_' && behind[behind.len() - 2] == '2'
        && behind[behind.len() - 1] == 'm');
    if before == "2m_theta_e_10m_winds"@ {
        assert(name =~= "2m_theta_e_10m_winds"@.skip(3));
        assert(name =~= "theta_e_10m_winds"@);
    }
    if behind == "vpd_2m"@ {
        assert(name =~= "vpd_2m"@.take(3));
        assert(before =~= "2m_vpd"@);
    }
    if before == "2m_vpd"@ {
        assert(name =~= "2m_vpd"@.skip(3));
        assert(behind =~= "vpd_2m"@);
    }
    if behind == "vapor_pressure_deficit_2m"@ {
        assert(name =~= "vapor_pressure_deficit_2m"@.take(22));
        assert(before =~= "2m_vapor_pressure_deficit"@);
    }
    if before == "2m_vapor_pressure_deficit"@ {
        assert(name =~= "2m_vapor_pressure_deficit"@.skip(3));
        assert(behind =~= "vapor_pressure_deficit_2m"@);
    }
    if behind == "dewpoint_depression_2m"@ {
        assert(name =~= "dewpoint_depression_2m"@.take(19));
        assert(before =~= "2m_dewpoint_depression"@);
    }
    if before == "2m_dewpoint_depression"@ {
        assert(name =~= "2m_dewpoint_depression"@.skip(3));
        assert(behind =~= "dewpoint_depression_2m"@);
    }
    if behind == "wetbulb_2m"@ {
        assert(name =~= "wetbulb_2m"@.take(7));
        assert(before =~= "2m_wetbulb"@);
    }
    if behind == "wet_bulb_2m"@ {
        assert(name =~= "wet_bulb_2m"@.take(8));
        assert(before =~= "2m_wet_bulb"@);
    }
    if before == "2m_wetbulb"@ {
        assert(name =~= "2m_wetbulb"@.skip(3));
        assert(behind =~= "wetbulb_2m"@);
    }
    if before == "2m_wet_bulb"@ {
        assert(name =~= "2m_wet_bulb"@.skip(3));
        assert(behind =~= "wet_bulb_2m"@);
    }
    if behind == "apparent_temperature_2m"@ {
        assert(name =~= "apparent_temperature_2m"@.take(20));
        assert(before =~= "2m_apparent_temperature"@);
    }
    if before == "2m_apparent_temperature"@ {
        assert(name =~= "2m_apparent_temperature"@.skip(3));
        assert(behind =~= "apparent_temperature_2m"@);
    }
    if behind == "heat_index_2m"@ {
        assert(name =~= "heat_index_2m"@.take(10));
        assert(before =~= "2m_heat_index"@);
    }
    if before == "2m_heat_index"@ {
        assert(name =~= "2m_heat_index"@.skip(3));
        assert(behind =~= "heat_index_2m"@);
    }
    if behind == "wind_chill_2m"@ {
        assert(name =~= "wind_chill_2m"@.take(10));
        assert(before =~= "2m_wind_chill"@);
    }
    if before == "2m_wind_chill"@ {
        assert(name =~= "2m_wind_chill"@.skip(3));
        assert(behind =~= "wind_chill_2m"@);
    }
}

/// The parcel of an ECAPE ratio may stand apart from the word or be joined to it.
pub proof fn law_parcel_stands_apart_or_joined(parcel: Seq<char>, rest: Seq<char>)
    requires
        parcel.len() == 2,
    ensures
        recipes::recognized(parcel + "_ecape_"@ + rest) == recipes::recognized(
            parcel + "ecape_"@ + rest,
        ),
{
    reveal_strlit("_ecape_");
    reveal_strlit("ecape_");
    reveal_strlit("sbcape");
    reveal_strlit("sbcin");
    reveal_strlit("sblcl");
    reveal_strlit("mlcape");
    reveal_strlit("mlcin");
    reveal_strlit("mucape");
    reveal_strlit("mucin");
    reveal_strlit("dcape");
    reveal_strlit("downdraft_cape");
    reveal_strlit("sbecape");
    reveal_strlit("mlecape");
    reveal_strlit("muecape");
    reveal_strlit("sb_ecape_derived_cape_ratio");
    reveal_strlit("sbecape_derived_cape_ratio");
    reveal_strlit("ml_ecape_derived_cape_ratio");
    reveal_strlit("mlecape_derived_cape_ratio");
    reveal_strlit("mu_ecape_derived_cape_ratio");
    reveal_strlit("muecape_derived_cape_ratio");
    reveal_strlit("sb_ecape_native_cape_ratio");
    reveal_strlit("sbecape_native_cape_ratio");
    reveal_strlit("ml_ecape_native_cape_ratio");
    reveal_strlit("mlecape_native_cape_ratio");
    reveal_strlit("mu_ecape_native_cape_ratio");
    reveal_strlit("muecape_native_cape_ratio");
    reveal_strlit("sbncape");
    reveal_strlit("sbecin");
    reveal_strlit("mlecin");
    reveal_strlit("ecape_scp");
    reveal_strlit("ecape_ehi");
    reveal_strlit("ecape_ehi_0_1km");
    reveal_strlit("ecape_ehi_01km");
    reveal_strlit("ecape_ehi_0_3km");
    reveal_strlit("ecape_ehi_03km");
    reveal_strlit("ecape_stp");
    reveal_strlit("theta_e_2m_10m_winds");
    reveal_strlit("2m_theta_e_10m_winds");
    reveal_strlit("vpd_2m");
    reveal_strlit("2m_vpd");
    reveal_strlit("vapor_pressure_deficit_2m");
    reveal_strlit("2m_vapor_pressure_deficit");
    reveal_strlit("dewpoint_depression_2m");
    reveal_strlit("2m_dewpoint_depression");
    reveal_strlit("wetbulb_2m");
    reveal_strlit("wet_bulb_2m");
    reveal_strlit("2m_wetbulb");
    reveal_strlit("2m_wet_bulb");
    reveal_strlit("fire_weather_composite");
    reveal_strlit("fire_weather");
    reveal_strlit("fire_wx");
    reveal_strlit("apparent_temperature_2m");
    reveal_strlit("2m_apparent_temperature");
    reveal_strlit("heat_index_2m");
    reveal_strlit("2m_heat_index");
    reveal_strlit("wind_chill_2m");
    reveal_strlit("2m_wind_chill");
    reveal_strlit("lifted_index");
    reveal_strlit("lapse_rate_700_500");
    reveal_strlit("lapse_rate_0_3km");
    reveal_strlit("bulk_shear_0_1km");
    reveal_strlit("bulk_shear_0_6km");
    reveal_strlit("srh_0_1km");
    reveal_strlit("srh_0_3km");
    reveal_strlit("ehi_0_1km");
    reveal_strlit("ehi_sb_0_1km_proxy");
    reveal_strlit("ehi_0_3km");
    reveal_strlit("ehi_sb_0_3km_proxy");
    reveal_strlit("stp_fixed");
    reveal_strlit("scp_mu_0_3km_0_6km_proxy");
    reveal_strlit("temperature_advection_700mb");
    reveal_strlit("temperature_advection_850mb");
    let apart = parcel + "_ecape_"@ + rest;
    let joined = parcel + "ecape_"@ + rest;
    assert(apart.take(2) =~= parcel && apart.skip(9) =~= rest);
    assert(joined.take(2) =~= parcel && joined.skip(8) =~= rest);
    assert(apart[2] == '_' && apart[3] == 'e' && apart[4] == 'c' && apart[5] == 'a' && apart[6]
        == 'p' && apart[7] == 'e' && apart[8] == '_');
    assert(joined[2] == 'e' && joined[3] == 'c' && joined[4] == 'a' && joined[5] == 'p' && joined[6]
        == 'e' && joined[7] == '_');
    if apart == "sb_ecape_derived_cape_ratio"@ {
        assert(joined =~= "sbecape_derived_cape_ratio"@);
    }
    if joined == "sbecape_derived_cape_ratio"@ {
        assert(apart =~= "sb_ecape_derived_cape_ratio"@);
    }
    if apart == "ml_ecape_derived_cape_ratio"@ {
        assert(joined =~= "mlecape_derived_cape_ratio"@);
    }
    if joined == "mlecape_derived_cape_ratio"@ {
        assert(apart =~= "ml_ecape_derived_cape_ratio"@);
    }
    if apart == "mu_ecape_derived_cape_ratio"@ {
        assert(joined =~= "muecape_derived_cape_ratio"@);
    }
    if joined == "muecape_derived_cape_ratio"@ {
        assert(apart =~= "mu_ecape_derived_cape_ratio"@);
    }
    if apart == "sb_ecape_native_cape_ratio"@ {
        assert(joined =~= "sbecape_native_cape_ratio"@);
    }
    if joined == "sbecape_native_cape_ratio"@ {
        assert(apart =~= "sb_ecape_native_cape_ratio"@);
    }
    if apart == "ml_ecape_native_cape_ratio"@ {
        assert(joined =~= "mlecape_native_cape_ratio"@);
    }
    if joined == "mlecape_native_cape_ratio"@ {
        assert(apart =~= "ml_ecape_native_cape_ratio"@);
    }
    if apart == "mu_ecape_native_cape_ratio"@ {
        assert(joined =~= "muecape_native_cape_ratio"@);
    }
    if joined == "muecape_native_cape_ratio"@ {
        assert(apart =~= "mu_ecape_native_cape_ratio"@);
    }
}

/// An energy-helicity index goes by its layer alone or as a surface-based proxy.
pub proof fn law_energy_helicity_index_is_a_surface_based_proxy(layer: Seq<char>)
    ensures
        recipes::recognized("ehi_"@ + layer) is Some ==> recipes::recognized(
            "ehi_sb_"@ + layer + "_proxy"@,
        ) == recipes::recognized("ehi_"@ + layer) || layer == "sb_0_1km_proxy"@ || layer
            == "sb_0_3km_proxy"@,
{
    reveal_strlit("ehi_");
    reveal_strlit("ehi_sb_");
    reveal_strlit("_proxy");
    reveal_strlit("sb_0_1km_proxy");
    reveal_strlit("sb_0_3km_proxy");
    reveal_strlit("sbcape");
    reveal_strlit("sbcin");
    reveal_strlit("sblcl");
    reveal_strlit("mlcape");
    reveal_strlit("mlcin");
    reveal_strlit("mucape");
    reveal_strlit("mucin");
    reveal_strlit("dcape");
    reveal_strlit("downdraft_cape");
    reveal_strlit("sbecape");
    reveal_strlit("mlecape");
    reveal_strlit("muecape");
    reveal_strlit("sb_ecape_derived_cape_ratio");
    reveal_strlit("sbecape_derived_cape_ratio");
    reveal_strlit("ml_ecape_derived_cape_ratio");
    reveal_strlit("mlecape_derived_cape_ratio");
    reveal_strlit("mu_ecape_derived_cape_ratio");
    reveal_strlit("muecape_derived_cape_ratio");
    reveal_strlit("sb_ecape_native_cape_ratio");
    reveal_strlit("sbecape_native_cape_ratio");
    reveal_strlit("ml_ecape_native_cape_ratio");
    reveal_strlit("mlecape_native_cape_ratio");
    reveal_strlit("mu_ecape_native_cape_ratio");
    reveal_strlit("muecape_native_cape_ratio");
    reveal_strlit("sbncape");
    reveal_strlit("sbecin");
    reveal_strlit("mlecin");
    reveal_strlit("ecape_scp");
    reveal_strlit("ecape_ehi");
    reveal_strlit("ecape_ehi_0_1km");
    reveal_strlit("ecape_ehi_01km");
    reveal_strlit("ecape_ehi_0_3km");
    reveal_strlit("ecape_ehi_03km");
    reveal_strlit("ecape_stp");
    reveal_strlit("theta_e_2m_10m_winds");
    reveal_strlit("2m_theta_e_10m_winds");
    reveal_strlit("vpd_2m");
    reveal_strlit("2m_vpd");
    reveal_strlit("vapor_pressure_deficit_2m");
    reveal_strlit("2m_vapor_pressure_deficit");
    reveal_strlit("dewpoint_depression_2m");
    reveal_strlit("2m_dewpoint_depression");
    reveal_strlit("wetbulb_2m");
    reveal_strlit("wet_bulb_2m");
    reveal_strlit("2m_wetbulb");
    reveal_strlit("2m_wet_bulb");
    reveal_strlit("fire_weather_composite");
    reveal_strlit("fire_weather");
    reveal_strlit("fire_wx");
    reveal_strlit("apparent_temperature_2m");
    reveal_strlit("2m_apparent_temperature");
    reveal_strlit("heat_index_2m");
    reveal_strlit("2m_heat_index");
    reveal_strlit("wind_chill_2m");
    reveal_strlit("2m_wind_chill");
    reveal_strlit("lifted_index");
    reveal_strlit("lapse_rate_700_500");
    reveal_strlit("lapse_rate_0_3km");
    reveal_strlit("bulk_shear_0_1km");
    reveal_strlit("bulk_shear_0_6km");
    reveal_strlit("srh_0_1km");
    reveal_strlit("srh_0_3km");
    reveal_strlit("ehi_0_1km");
    reveal_strlit("ehi_sb_0_1km_proxy");
    reveal_strlit("ehi_0_3km");
    reveal_strlit("ehi_sb_0_3km_proxy");
    reveal_strlit("stp_fixed");
    reveal_strlit("scp_mu_0_3km_0_6km_proxy");
    reveal_strlit("temperature_advection_700mb");
    reveal_strlit("temperature_advection_850mb");
    let short = "ehi_"@ + layer;
    let long = "ehi_sb_"@ + layer + "_proxy"@;
    assert(short.skip(4) =~= layer);
    assert(short[0] == 'e' && short[1] == 'h' && short[2] == 'i' && short[3] == '_');
    if short == "ehi_0_1km"@ {
        assert(long =~= "ehi_sb_0_1km_proxy"@);
        assert(long.len() == 18 && long[0] == 'e' && long[1] == 'h' && long[4] == 's' && long[9]
            == '1');
        assert(short.len() == 9 && short[4] == '0' && short[6] == '1');
    }
    if short == "ehi_0_3km"@ {
        assert(long =~= "ehi_sb_0_3km_proxy"@);
        assert(long.len() == 18 && long[0] == 'e' && long[1] == 'h' && long[4] == 's' && long[9]
            == '3');
        assert(short.len() == 9 && short[4] == '0' && short[6] == '3');
    }
    if short == "ehi_sb_0_1km_proxy"@ {
        assert(layer =~= "sb_0_1km_proxy"@);
    }
    if short == "ehi_sb_0_3km_proxy"@ {
        assert(layer =~= "sb_0_3km_proxy"@);
    }
}

} // verus!
