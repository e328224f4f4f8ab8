//! That the variables which are fetched are those which are decoded.
use crate::gridded::fetch;
use crate::model::{CanonicalBundleDescriptor, ModelId};
use vstd::prelude::*;

verus! {

/// The name that a meteorological quantity goes by in an index of messages.
pub open spec fn grib_name(category: u8, number: u8) -> Seq<char> {
    if category == 3 && number == 0 {
        "PRES"@
    } else if category == 3 && number == 5 {
        "HGT"@
    } else if category == 3 && number == 4 {
        "GP"@
    } else if category == 0 && number == 0 {
        "TMP"@
    } else if category == 1 && number == 0 {
        "SPFH"@
    } else if category == 0 && number == 6 {
        "DPT"@
    } else if category == 1 && number == 1 {
        "RH"@
    } else if category == 2 && number == 2 {
        "UGRD"@
    } else if category == 2 && number == 3 {
        "VGRD"@
    } else if category == 2 && number == 8 {
        "VVEL"@
    } else if category == 2 && number == 10 {
        "ABSV"@
    } else if category == 1 && number == 22 {
        "CLWMR"@
    } else if category == 1 && number == 82 {
        "CIMIXR"@
    } else if category == 1 && number == 23 {
        "ICMR"@
    } else if category == 1 && number == 24 {
        "RWMR"@
    } else if category == 1 && number == 25 {
        "SNMR"@
    } else if category == 1 && number == 32 {
        "GRLE"@
    } else if category == 7 && number == 6 {
        "CAPE"@
    } else if category == 7 && number == 7 {
        "CIN"@
    } else {
        Seq::empty()
    }
}

/// Every quantity that a surface analysis is decoded from is fetched at its level: surface
/// pressure, height and geopotential at the surface, temperature and specific humidity two
/// metres and the winds ten metres above the ground. Dewpoint and relative humidity come
/// with them for every model fetched by patterns but the HRRR, and nothing else does.
pub proof fn law_surface_patterns_name_what_is_decoded(model: ModelId)
    ensures
        fetch::surface_patterns(model).contains(grib_name(3, 0) + ":surface"@),
        fetch::surface_patterns(model).contains(grib_name(3, 5) + ":surface"@),
        fetch::surface_patterns(model).contains(grib_name(3, 4) + ":surface"@),
        fetch::surface_patterns(model).contains(grib_name(0, 0) + ":2 m above ground"@),
        fetch::surface_patterns(model).contains(grib_name(1, 0) + ":2 m above ground"@),
        fetch::surface_patterns(model).contains(grib_name(2, 2) + ":10 m above ground"@),
        fetch::surface_patterns(model).contains(grib_name(2, 3) + ":10 m above ground"@),
        fetch::has_grib_surface_bundle(model) && model != ModelId::Hrrr && model
            != ModelId::HrrrAk ==> {
            &&& fetch::surface_patterns(model).contains(grib_name(0, 6) + ":2 m above ground"@)
            &&& fetch::surface_patterns(model).contains(grib_name(1, 1) + ":2 m above ground"@)
            &&& fetch::surface_patterns(model).len() == 9
        },
        model == ModelId::Hrrr || model == ModelId::HrrrAk ==> fetch::surface_patterns(model).len()
            == 7,
{
    let list = fetch::surface_patterns(model);
    reveal_strlit("PRES:surface");
    reveal_strlit("HGT:surface");
    reveal_strlit("GP:surface");
    reveal_strlit("TMP:2 m above ground");
    reveal_strlit("SPFH:2 m above ground");
    reveal_strlit("UGRD:10 m above ground");
    reveal_strlit("VGRD:10 m above ground");
    reveal_strlit("DPT:2 m above ground");
    reveal_strlit("RH:2 m above ground");
    reveal_strlit("PRES");
    reveal_strlit("HGT");
    reveal_strlit("GP");
    reveal_strlit("TMP");
    reveal_strlit("SPFH");
    reveal_strlit("UGRD");
    reveal_strlit("VGRD");
    reveal_strlit("DPT");
    reveal_strlit("RH");
    reveal_strlit(":surface");
    reveal_strlit(":2 m above ground");
    reveal_strlit(":10 m above ground");
    assert(list[0] =~= grib_name(3, 0) + ":surface"@);
    assert(list[1] =~= grib_name(3, 5) + ":surface"@);
    assert(list[2] =~= grib_name(3, 4) + ":surface"@);
    assert(list[3] =~= grib_name(0, 0) + ":2 m above ground"@);
    assert(list[4] =~= grib_name(1, 0) + ":2 m above ground"@);
    assert(list[5] =~= grib_name(2, 2) + ":10 m above ground"@);
    assert(list[6] =~= grib_name(2, 3) + ":10 m above ground"@);
    if fetch::has_moisture_fallback(model) {
        assert(list[7] =~= grib_name(0, 6) + ":2 m above ground"@);
        assert(list[8] =~= grib_name(1, 1) + ":2 m above ground"@);
    }
}

/// Every volume that a pressure analysis is decoded from is fetched: temperature, both
/// winds, height, and at least one kind of moisture. For the HRRR the optional volumes are
/// fetched exactly when they are wanted.
pub proof fn law_pressure_patterns_name_what_is_decoded(model: ModelId, with_optional: bool)
    requires
        fetch::pressure_patterns(model, with_optional).len() > 0,
    ensures
        fetch::pressure_patterns(model, with_optional).contains(grib_name(0, 0)),
        fetch::pressure_patterns(model, with_optional).contains(grib_name(2, 2)),
        fetch::pressure_patterns(model, with_optional).contains(grib_name(2, 3)),
        fetch::pressure_patterns(model, with_optional).contains(grib_name(3, 5)),
        fetch::pressure_patterns(model, with_optional).contains(grib_name(1, 0))
            || fetch::pressure_patterns(model, with_optional).contains(grib_name(1, 1)),
        (model == ModelId::Hrrr || model == ModelId::HrrrAk) && with_optional ==> {
            &&& fetch::pressure_patterns(model, with_optional).contains(grib_name(2, 8))
            &&& fetch::pressure_patterns(model, with_optional).contains(grib_name(2, 10))
            &&& fetch::pressure_patterns(model, with_optional).contains(grib_name(1, 22))
            &&& fetch::pressure_patterns(model, with_optional).contains(grib_name(1, 82))
            &&& fetch::pressure_patterns(model, with_optional).contains(grib_name(1, 23))
            &&& fetch::pressure_patterns(model, with_optional).contains(grib_name(1, 24))
            &&& fetch::pressure_patterns(model, with_optional).contains(grib_name(1, 25))
            &&& fetch::pressure_patterns(model, with_optional).contains(grib_name(1, 32))
            &&& fetch::pressure_patterns(model, with_optional).len() == 13
        },
        (model == ModelId::Hrrr || model == ModelId::HrrrAk) && !with_optional
            ==> fetch::pressure_patterns(model, with_optional).len() == 5,
{
    let list = fetch::pressure_patterns(model, with_optional);
    match model {
        ModelId::Hrrr | ModelId::HrrrAk => {
            assert(list[0] == grib_name(3, 5));
            assert(list[1] == grib_name(0, 0));
            assert(list[2] == grib_name(1, 0));
            assert(list[3] == grib_name(2, 2));
            assert(list[4] == grib_name(2, 3));
            if with_optional {
                assert(list[5] == grib_name(2, 8));
                assert(list[6] == grib_name(2, 10));
                assert(list[7] == grib_name(1, 22));
                assert(list[8] == grib_name(1, 82));
                assert(list[9] == grib_name(1, 23));
                assert(list[10] == grib_name(1, 24));
                assert(list[11] == grib_name(1, 25));
                assert(list[12] == grib_name(1, 32));
            }
        },
        ModelId::RrfsA => {
            assert(list[0] == grib_name(3, 5));
            assert(list[2] == grib_name(0, 0));
            assert(list[3] == grib_name(1, 0));
            assert(list[6] == grib_name(2, 2));
            assert(list[7] == grib_name(2, 3));
        },
        _ => {
            assert(list[0] == grib_name(3, 5));
            assert(list[1] == grib_name(0, 0));
            assert(list[2] == grib_name(1, 1));
            assert(list[3] == grib_name(2, 2));
            assert(list[4] == grib_name(2, 3));
        },
    }
}

/// The native product of the RRFS is fetched with the energy and the inhibition of each of
/// the three parcels at the same layer.
pub proof fn law_native_energies_come_with_their_inhibitions(layer: Seq<char>)
    requires
        layer == ":surface"@ || layer == ":90-0 mb above ground"@ || layer
            == ":255-0 mb above ground"@,
    ensures
        fetch::rrfs_native_patterns().contains(grib_name(7, 6) + layer),
        fetch::rrfs_native_patterns().contains(grib_name(7, 7) + layer),
{
    reveal_strlit("CAPE");
    reveal_strlit("CIN");
    reveal_strlit(":surface");
    reveal_strlit(":90-0 mb above ground");
    reveal_strlit(":255-0 mb above ground");
    reveal_strlit("CAPE:surface");
    reveal_strlit("CIN:surface");
    reveal_strlit("CAPE:90-0 mb above ground");
    reveal_strlit("CIN:90-0 mb above ground");
    reveal_strlit("CAPE:255-0 mb above ground");
    reveal_strlit("CIN:255-0 mb above ground");
    let list = fetch::rrfs_native_patterns();
    if layer == ":surface"@ {
        assert(list[0] =~= grib_name(7, 6) + layer);
        assert(list[1] =~= grib_name(7, 7) + layer);
    } else if layer == ":90-0 mb above ground"@ {
        assert(list[3] =~= grib_name(7, 6) + layer);
        assert(list[4] =~= grib_name(7, 7) + layer);
    } else {
        assert(list[5] =~= grib_name(7, 6) + layer);
        assert(list[6] =~= grib_name(7, 7) + layer);
    }
}

/// A surface bundle is fetched with the patterns of a surface analysis, a pressure bundle
/// with those of a pressure analysis, and a model that has pressure patterns has surface
/// patterns too.
pub proof fn law_bundles_are_fetched_with_their_own_patterns(
    model: ModelId,
    native_product: Seq<char>,
    with_optional: bool,
)
    ensures
        fetch::has_grib_pressure_bundle(model) ==> fetch::has_grib_surface_bundle(model),
        fetch::has_grib_surface_bundle(model) ==> fetch::bundle_patterns(
            model,
            CanonicalBundleDescriptor::SurfaceAnalysis,
            native_product,
            with_optional,
        ) == fetch::surface_patterns(model),
        !fetch::has_grib_surface_bundle(model) ==> fetch::bundle_patterns(
            model,
            CanonicalBundleDescriptor::SurfaceAnalysis,
            native_product,
            with_optional,
        ).len() == 0,
        fetch::bundle_patterns(
            model,
            CanonicalBundleDescriptor::PressureAnalysis,
            native_product,
            with_optional,
        ) == fetch::pressure_patterns(model, with_optional),
        fetch::pressure_patterns(model, with_optional).len() > 0 ==> {
            &&& fetch::has_grib_pressure_bundle(model)
            &&& model != ModelId::Rap
        },
{
}

/// Eight models have no surface bundle that is fetched by patterns, and the three
/// that analyse the surface alone have no pressure bundle. The pressure bundle of
/// the RAP is fetched whole, and only the HRRR has patterns for the optional fields.
pub proof fn law_models_are_fetched_by_patterns_unless_read_whole(model: ModelId)
    ensures
        !fetch::has_grib_surface_bundle(model) <==> model is Aifs || model is EcmwfOpenData
            || model is Hgefs || model is Href || model is Refs || model is RrfsFireWx
            || model is RrfsPublic || model is WrfGdex,
        fetch::has_grib_surface_bundle(model) && !fetch::has_grib_pressure_bundle(model)
            <==> model is Rtma || model is Urma || model is Nbm,
        fetch::has_grib_pressure_bundle(model) && !(model is Rap) <==> fetch::pressure_patterns(
            model,
            false,
        ).len() > 0,
        fetch::pressure_patterns(model, true).len() > fetch::pressure_patterns(model, false).len()
            <==> model is Hrrr || model is HrrrAk,
{
}

} // verus!
