//! What the inventory tells of its recipes.
use crate::derived::inventory;
use crate::derived::recipes::DerivedRecipe;
use crate::derived::store;
use crate::text;
use vstd::prelude::*;

verus! {

/// A recipe is offered as experimental if and only if its slug tells it: a ratio
/// of a parcel, a composite of the ECAPE family, or a proxy.
pub proof fn law_slugs_tell_what_is_experimental(recipe: DerivedRecipe)
    ensures
        inventory::experimental(recipe) <==> {
            ||| text::begins_with(recipe.spec_slug()@.skip(2), "_ecape_"@)
            ||| text::begins_with(recipe.spec_slug()@, "ecape_"@)
            ||| text::before_suffix(recipe.spec_slug()@, "_proxy"@) is Some
        },
{
    let slug = recipe.spec_slug()@;
    reveal_strlit("_ecape_");
    reveal_strlit("ecape_");
    reveal_strlit("_proxy");
    assert("_ecape_"@.len() == 7 && "_ecape_"@[0] == '_');
    assert("ecape_"@.len() == 6 && "ecape_"@[0] == 'e' && "ecape_"@[1] == 'c');
    assert("_proxy"@.len() == 6 && "_proxy"@[5] == 'y');
    match recipe {
        DerivedRecipe::Sbcape => {
            reveal_strlit("sbcape");
            lemma_plain_slug(slug);
        },
        DerivedRecipe::Sbcin => {
            reveal_strlit("sbcin");
            lemma_plain_slug(slug);
        },
        DerivedRecipe::Sblcl => {
            reveal_strlit("sblcl");
            lemma_plain_slug(slug);
        },
        DerivedRecipe::Mlcape => {
            reveal_strlit("mlcape");
            lemma_plain_slug(slug);
        },
        DerivedRecipe::Mlcin => {
            reveal_strlit("mlcin");
            lemma_plain_slug(slug);
        },
        DerivedRecipe::Mucape => {
            reveal_strlit("mucape");
            lemma_plain_slug(slug);
        },
        DerivedRecipe::Mucin => {
            reveal_strlit("mucin");
            lemma_plain_slug(slug);
        },
        DerivedRecipe::Dcape => {
            reveal_strlit("dcape");
            lemma_plain_slug(slug);
        },
        DerivedRecipe::Sbecape => {
            reveal_strlit("sbecape");
            lemma_plain_slug(slug);
        },
        DerivedRecipe::Mlecape => {
            reveal_strlit("mlecape");
            lemma_plain_slug(slug);
        },
        DerivedRecipe::Muecape => {
            reveal_strlit("muecape");
            lemma_plain_slug(slug);
        },
        DerivedRecipe::SbEcapeDerivedCapeRatio => {
            reveal_strlit("sb_ecape_derived_cape_ratio");
            assert(slug.skip(2).take(7) =~= "_ecape_"@);
        },
        DerivedRecipe::MlEcapeDerivedCapeRatio => {
            reveal_strlit("ml_ecape_derived_cape_ratio");
            assert(slug.skip(2).take(7) =~= "_ecape_"@);
        },
        DerivedRecipe::MuEcapeDerivedCapeRatio => {
            reveal_strlit("mu_ecape_derived_cape_ratio");
            assert(slug.skip(2).take(7) =~= "_ecape_"@);
        },
        DerivedRecipe::SbEcapeNativeCapeRatio => {
            reveal_strlit("sb_ecape_native_cape_ratio");
            assert(slug.skip(2).take(7) =~= "_ecape_"@);
        },
        DerivedRecipe::MlEcapeNativeCapeRatio => {
            reveal_strlit("ml_ecape_native_cape_ratio");
            assert(slug.skip(2).take(7) =~= "_ecape_"@);
        },
        DerivedRecipe::MuEcapeNativeCapeRatio => {
            reveal_strlit("mu_ecape_native_cape_ratio");
            assert(slug.skip(2).take(7) =~= "_ecape_"@);
        },
        DerivedRecipe::Sbncape => {
            reveal_strlit("sbncape");
            lemma_plain_slug(slug);
        },
        DerivedRecipe::Sbecin => {
            reveal_strlit("sbecin");
            lemma_plain_slug(slug);
        },
        DerivedRecipe::Mlecin => {
            reveal_strlit("mlecin");
            lemma_plain_slug(slug);
        },
        DerivedRecipe::EcapeScp => {
            reveal_strlit("ecape_scp");
            assert(slug.take(6) =~= "ecape_"@);
        },
        DerivedRecipe::EcapeEhi01km => {
            reveal_strlit("ecape_ehi_0_1km");
            assert(slug.take(6) =~= "ecape_"@);
        },
        DerivedRecipe::EcapeEhi03km => {
            reveal_strlit("ecape_ehi_0_3km");
            assert(slug.take(6) =~= "ecape_"@);
        },
        DerivedRecipe::EcapeStp => {
            reveal_strlit("ecape_stp");
            assert(slug.take(6) =~= "ecape_"@);
        },
        DerivedRecipe::ThetaE2m10mWinds => {
            reveal_strlit("theta_e_2m_10m_winds");
            lemma_plain_slug(slug);
        },
        DerivedRecipe::Vpd2m => {
            reveal_strlit("vpd_2m");
            lemma_plain_slug(slug);
        },
        DerivedRecipe::DewpointDepression2m => {
            reveal_strlit("dewpoint_depression_2m");
            lemma_plain_slug(slug);
        },
        DerivedRecipe::Wetbulb2m => {
            reveal_strlit("wetbulb_2m");
            lemma_plain_slug(slug);
        },
        DerivedRecipe::FireWeatherComposite => {
            reveal_strlit("fire_weather_composite");
            lemma_plain_slug(slug);
        },
        DerivedRecipe::ApparentTemperature2m => {
            reveal_strlit("apparent_temperature_2m");
            lemma_plain_slug(slug);
        },
        DerivedRecipe::HeatIndex2m => {
            reveal_strlit("heat_index_2m");
            lemma_plain_slug(slug);
        },
        DerivedRecipe::WindChill2m => {
            reveal_strlit("wind_chill_2m");
            lemma_plain_slug(slug);
        },
        DerivedRecipe::LiftedIndex => {
            reveal_strlit("lifted_index");
            lemma_plain_slug(slug);
        },
        DerivedRecipe::LapseRate700500 => {
            reveal_strlit("lapse_rate_700_500");
            lemma_plain_slug(slug);
        },
        DerivedRecipe::LapseRate03km => {
            reveal_strlit("lapse_rate_0_3km");
            lemma_plain_slug(slug);
        },
        DerivedRecipe::BulkShear01km => {
            reveal_strlit("bulk_shear_0_1km");
            lemma_plain_slug(slug);
        },
        DerivedRecipe::BulkShear06km => {
            reveal_strlit("bulk_shear_0_6km");
            lemma_plain_slug(slug);
        },
        DerivedRecipe::Srh01km => {
            reveal_strlit("srh_0_1km");
            lemma_plain_slug(slug);
        },
        DerivedRecipe::Srh03km => {
            reveal_strlit("srh_0_3km");
            lemma_plain_slug(slug);
        },
        DerivedRecipe::Ehi01km => {
            reveal_strlit("ehi_0_1km");
            lemma_plain_slug(slug);
        },
        DerivedRecipe::Ehi03km => {
            reveal_strlit("ehi_0_3km");
            lemma_plain_slug(slug);
        },
        DerivedRecipe::StpFixed => {
            reveal_strlit("stp_fixed");
            lemma_plain_slug(slug);
        },
        DerivedRecipe::ScpMu03km06kmProxy => {
            reveal_strlit("scp_mu_0_3km_0_6km_proxy");
            assert(slug.skip(18) =~= "_proxy"@);
        },
        DerivedRecipe::TemperatureAdvection700mb => {
            reveal_strlit("temperature_advection_700mb");
            lemma_plain_slug(slug);
        },
        DerivedRecipe::TemperatureAdvection850mb => {
            reveal_strlit("temperature_advection_850mb");
            lemma_plain_slug(slug);
        },
    }
}

/// A slug that shows none of the signs.
proof fn lemma_plain_slug(slug: Seq<char>)
    requires
        slug.len() > 2,
        slug[2] != '_',
        slug[0] != 'e' || slug[1] != 'c',
        slug.last() != 'y',
    ensures
        !text::begins_with(slug.skip(2), "_ecape_"@),
        !text::begins_with(slug, "ecape_"@),
        text::before_suffix(slug, "_proxy"@) is None,
{
    reveal_strlit("_ecape_");
    reveal_strlit("ecape_");
    reveal_strlit("_proxy");
    if text::begins_with(slug.skip(2), "_ecape_"@) {
        assert(slug.skip(2).take(7)[0] == slug[2]);
    }
    if text::begins_with(slug, "ecape_"@) {
        assert(slug.take(6)[0] == slug[0] && slug.take(6)[1] == slug[1]);
    }
    if text::before_suffix(slug, "_proxy"@) is Some {
        assert(slug.skip(slug.len() - 6)[5] == slug.last());
        assert("_proxy"@[5] == 'y');
    }
}

/// A ratio to the CAPE of a model is left out for want of the plane of its own
/// parcel, and only such a ratio is.
pub proof fn law_left_out_ratios_name_their_layer(recipe: DerivedRecipe)
    ensures
        store::native_layer(recipe) is Some <==> recipe is SbEcapeNativeCapeRatio
            || recipe is MlEcapeNativeCapeRatio || recipe is MuEcapeNativeCapeRatio,
        store::native_layer(recipe) matches Some(layer) ==> {
            let slug = recipe.spec_slug()@;
            &&& slug.take(2) == "sb"@ ==> text::occurs(layer, "surface-based"@)
            &&& slug.take(2) == "ml"@ ==> text::occurs(layer, "mixed layer"@)
            &&& slug.take(2) == "mu"@ ==> text::occurs(layer, "most-unstable"@)
            &&& slug.take(2) == "sb"@ || slug.take(2) == "ml"@ || slug.take(2) == "mu"@
            &&& text::occurs(store::skip_reason(layer), layer)
        },
{
    reveal_strlit("sb");
    reveal_strlit("ml");
    reveal_strlit("mu");
    reveal_strlit("surface-based");
    reveal_strlit("mixed layer");
    reveal_strlit("most-unstable");
    match recipe {
        DerivedRecipe::SbEcapeNativeCapeRatio => {
            reveal_strlit("surface-based (level type 1)");
            reveal_strlit("sb_ecape_native_cape_ratio");
            let layer = "surface-based (level type 1)"@;
            assert(layer.subrange(0, 13) =~= "surface-based"@);
            assert(text::stands_at(layer, "surface-based"@, 0));
            assert(recipe.spec_slug()@.take(2) =~= "sb"@);
            assert("sb"@[0] != "ml"@[0] && "sb"@[0] != "mu"@[0]);
        },
        DerivedRecipe::MlEcapeNativeCapeRatio => {
            reveal_strlit("0-90 mb mixed layer");
            reveal_strlit("ml_ecape_native_cape_ratio");
            let layer = "0-90 mb mixed layer"@;
            assert(layer.subrange(8, 19) =~= "mixed layer"@);
            assert(text::stands_at(layer, "mixed layer"@, 8));
            assert(recipe.spec_slug()@.take(2) =~= "ml"@);
            assert("ml"@[0] != "sb"@[0] && "ml"@[1] != "mu"@[1]);
        },
        DerivedRecipe::MuEcapeNativeCapeRatio => {
            reveal_strlit("0-255 mb most-unstable layer");
            reveal_strlit("mu_ecape_native_cape_ratio");
            let layer = "0-255 mb most-unstable layer"@;
            assert(layer.subrange(9, 22) =~= "most-unstable"@);
            assert(text::stands_at(layer, "most-unstable"@, 9));
            assert(recipe.spec_slug()@.take(2) =~= "mu"@);
            assert("mu"@[0] != "sb"@[0] && "mu"@[1] != "ml"@[1]);
        },
        _ => {},
    }
    if store::native_layer(recipe) is Some {
        let layer = store::native_layer(recipe)->Some_0;
        let head = "surface inputs carry no native "@;
        let reason = store::skip_reason(layer);
        assert(reason.subrange(head.len() as int, (head.len() + layer.len()) as int) =~= layer);
        assert(text::stands_at(reason, layer, head.len() as int));
    }
}

} // verus!
