//! How the heavy maps, their notes and their contours belong together.
use crate::derived::recipes::DerivedRecipe;
use crate::ecape;
use crate::ecape::{EcapeRatioDisplayParcel, RatioDisplayPlot};
use crate::heavy;
use crate::heavy::{HeavyComputeTiming, HeavyDomainStats};
use crate::heavy_batch;
use crate::heavy_batch::HeavyMeasurement;
use crate::panel;
use crate::panel::{WeatherPanelField, WeatherProduct};
use crate::text;
use vstd::prelude::*;

verus! {

/// The energy and the ratio of a parcel go by the parcel's own short name, and its label is
/// that name in upper case.
pub proof fn law_parcel_names_agree(parcel: EcapeRatioDisplayParcel)
    ensures
        parcel.spec_ecape_slug() == parcel.spec_slug() + "ecape"@,
        parcel.spec_ratio_slug() == parcel.spec_slug() + "_ecape_derived_cape_ratio"@,
        parcel.spec_label() == text::uppercased(parcel.spec_slug()),
        parcel is Sb ==> parcel.spec_slug() == "sb"@,
        parcel is Ml ==> parcel.spec_slug() == "ml"@,
        parcel is Mu ==> parcel.spec_slug() == "mu"@,
{
    reveal_strlit("sb");
    reveal_strlit("ml");
    reveal_strlit("mu");
    reveal_strlit("SB");
    reveal_strlit("ML");
    reveal_strlit("MU");
    reveal_strlit("ecape");
    reveal_strlit("_ecape_derived_cape_ratio");
    reveal_strlit("sbecape");
    reveal_strlit("mlecape");
    reveal_strlit("muecape");
    reveal_strlit("sb_ecape_derived_cape_ratio");
    reveal_strlit("ml_ecape_derived_cape_ratio");
    reveal_strlit("mu_ecape_derived_cape_ratio");
    assert(parcel.spec_ecape_slug() =~= parcel.spec_slug() + "ecape"@);
    assert(parcel.spec_ratio_slug() =~= parcel.spec_slug() + "_ecape_derived_cape_ratio"@);
    assert(parcel.spec_label() =~= text::uppercased(parcel.spec_slug()));
}

/// The two ratio maps of a parcel show that parcel's fields: one is filled with the
/// parcel's ratio, the other with the parcel's energy, and both have contours of the ratio.
pub proof fn law_ratio_maps_show_their_own_parcel<T>(
    parcel: EcapeRatioDisplayParcel,
    fields: Seq<WeatherPanelField<T>>,
    source_label: Seq<char>,
    plots: (RatioDisplayPlot, RatioDisplayPlot),
)
    requires
        ecape::plots_of(parcel, fields, source_label, plots),
        forall|i: int| 0 <= i < fields.len() ==> (#[trigger] fields[i]).artifact_slug is None,
    ensures
        plots.0.fill < fields.len(),
        plots.1.fill < fields.len(),
        plots.0.contours == plots.0.fill,
        plots.1.contours == plots.0.fill,
        parcel is Sb ==> fields[plots.0.fill as int].product is SbEcapeDerivedCapeRatio
            && fields[plots.1.fill as int].product is Sbecape,
        parcel is Ml ==> fields[plots.0.fill as int].product is MlEcapeDerivedCapeRatio
            && fields[plots.1.fill as int].product is Mlecape,
        parcel is Mu ==> fields[plots.0.fill as int].product is MuEcapeDerivedCapeRatio
            && fields[plots.1.fill as int].product is Muecape,
{
    panel::lemma_first_with_slug(fields, parcel.spec_ratio_slug());
    panel::lemma_first_with_slug(fields, parcel.spec_ecape_slug());
    let ratio = fields[plots.0.fill as int].product;
    let energy = fields[plots.1.fill as int].product;
    match parcel {
        EcapeRatioDisplayParcel::Sb => {
            law_product_slugs_are_distinct(ratio, WeatherProduct::SbEcapeDerivedCapeRatio);
            law_product_slugs_are_distinct(energy, WeatherProduct::Sbecape);
        },
        EcapeRatioDisplayParcel::Ml => {
            law_product_slugs_are_distinct(ratio, WeatherProduct::MlEcapeDerivedCapeRatio);
            law_product_slugs_are_distinct(energy, WeatherProduct::Mlecape);
        },
        EcapeRatioDisplayParcel::Mu => {
            law_product_slugs_are_distinct(ratio, WeatherProduct::MuEcapeDerivedCapeRatio);
            law_product_slugs_are_distinct(energy, WeatherProduct::Muecape);
        },
    }
}

/// Distinct products have distinct slugs.
pub proof fn law_product_slugs_are_distinct(a: WeatherProduct, b: WeatherProduct)
    requires
        a.spec_slug()@ == b.spec_slug()@,
    ensures
        a == b,
{
    lemma_product_texts(a);
    lemma_product_texts(b);
}

/// The product that a slug names.
spec fn named_product(slug: Seq<char>) -> Option<WeatherProduct> {
    if slug == "sbecape"@ {
        Some(WeatherProduct::Sbecape)
    } else if slug == "mlecape"@ {
        Some(WeatherProduct::Mlecape)
    } else if slug == "muecape"@ {
        Some(WeatherProduct::Muecape)
    } else if slug == "sb_ecape_derived_cape_ratio"@ {
        Some(WeatherProduct::SbEcapeDerivedCapeRatio)
    } else if slug == "ml_ecape_derived_cape_ratio"@ {
        Some(WeatherProduct::MlEcapeDerivedCapeRatio)
    } else if slug == "mu_ecape_derived_cape_ratio"@ {
        Some(WeatherProduct::MuEcapeDerivedCapeRatio)
    } else if slug == "sb_ecape_native_cape_ratio"@ {
        Some(WeatherProduct::SbEcapeNativeCapeRatio)
    } else if slug == "ml_ecape_native_cape_ratio"@ {
        Some(WeatherProduct::MlEcapeNativeCapeRatio)
    } else if slug == "mu_ecape_native_cape_ratio"@ {
        Some(WeatherProduct::MuEcapeNativeCapeRatio)
    } else if slug == "sbncape"@ {
        Some(WeatherProduct::Sbncape)
    } else if slug == "sbecin"@ {
        Some(WeatherProduct::Sbecin)
    } else if slug == "mlecin"@ {
        Some(WeatherProduct::Mlecin)
    } else if slug == "ecape_scp"@ {
        Some(WeatherProduct::EcapeScpExperimental)
    } else if slug == "ecape_ehi_0_1km"@ {
        Some(WeatherProduct::EcapeEhi01kmExperimental)
    } else if slug == "ecape_ehi_0_3km"@ {
        Some(WeatherProduct::EcapeEhi03kmExperimental)
    } else if slug == "ecape_stp"@ {
        Some(WeatherProduct::EcapeStpExperimental)
    } else if slug == "stp_fixed"@ {
        Some(WeatherProduct::StpFixed)
    } else {
        None
    }
}

proof fn lemma_product_texts(product: WeatherProduct)
    ensures
        named_product(product.spec_slug()@) == Some(product),
{
    reveal_strlit("sbecape");
    reveal_strlit("mlecape");
    reveal_strlit("muecape");
    reveal_strlit("sb_ecape_derived_cape_ratio");
    reveal_strlit("ml_ecape_derived_cape_ratio");
    reveal_strlit("mu_ecape_derived_cape_ratio");
    reveal_strlit("sb_ecape_native_cape_ratio");
    reveal_strlit("ml_ecape_native_cape_ratio");
    reveal_strlit("mu_ecape_native_cape_ratio");
    reveal_strlit("sbncape");
    reveal_strlit("sbecin");
    reveal_strlit("mlecin");
    reveal_strlit("ecape_scp");
    reveal_strlit("ecape_ehi_0_1km");
    reveal_strlit("ecape_ehi_0_3km");
    reveal_strlit("ecape_stp");
    reveal_strlit("stp_fixed");
    let slug = product.spec_slug()@;
    match product {
        WeatherProduct::Sbecape => assert(slug =~= seq!['s', 'b', 'e', 'c', 'a', 'p', 'e']),
        WeatherProduct::Mlecape => assert(slug =~= seq!['m', 'l', 'e', 'c', 'a', 'p', 'e']),
        WeatherProduct::Muecape => assert(slug =~= seq!['m', 'u', 'e', 'c', 'a', 'p', 'e']),
        WeatherProduct::SbEcapeDerivedCapeRatio => assert(slug =~= seq!['s', 'b', '_', 'e', 'c', 'a', 'p', 'e', '_', 'd', 'e', 'r', 'i', 'v', 'e', 'd', '_', 'c', 'a', 'p', 'e', '_', 'r', 'a', 't', 'i', 'o']),
        WeatherProduct::MlEcapeDerivedCapeRatio => assert(slug =~= seq!['m', 'l', '_', 'e', 'c', 'a', 'p', 'e', '_', 'd', 'e', 'r', 'i', 'v', 'e', 'd', '_', 'c', 'a', 'p', 'e', '_', 'r', 'a', 't', 'i', 'o']),
        WeatherProduct::MuEcapeDerivedCapeRatio => assert(slug =~= seq!['m', 'u', '_', 'e', 'c', 'a', 'p', 'e', '_', 'd', 'e', 'r', 'i', 'v', 'e', 'd', '_', 'c', 'a', 'p', 'e', '_', 'r', 'a', 't', 'i', 'o']),
        WeatherProduct::SbEcapeNativeCapeRatio => assert(slug =~= seq!['s', 'b', '_', 'e', 'c', 'a', 'p', 'e', '_', 'n', 'a', 't', 'i', 'v', 'e', '_', 'c', 'a', 'p', 'e', '_', 'r', 'a', 't', 'i', 'o']),
        WeatherProduct::MlEcapeNativeCapeRatio => assert(slug =~= seq!['m', 'l', '_', 'e', 'c', 'a', 'p', 'e', '_', 'n', 'a', 't', 'i', 'v', 'e', '_', 'c', 'a', 'p', 'e', '_', 'r', 'a', 't', 'i', 'o']),
        WeatherProduct::MuEcapeNativeCapeRatio => assert(slug =~= seq!['m', 'u', '_', 'e', 'c', 'a', 'p', 'e', '_', 'n', 'a', 't', 'i', 'v', 'e', '_', 'c', 'a', 'p', 'e', '_', 'r', 'a', 't', 'i', 'o']),
        WeatherProduct::Sbncape => assert(slug =~= seq!['s', 'b', 'n', 'c', 'a', 'p', 'e']),
        WeatherProduct::Sbecin => assert(slug =~= seq!['s', 'b', 'e', 'c', 'i', 'n']),
        WeatherProduct::Mlecin => assert(slug =~= seq!['m', 'l', 'e', 'c', 'i', 'n']),
        WeatherProduct::EcapeScpExperimental => assert(slug =~= seq!['e', 'c', 'a', 'p', 'e', '_', 's', 'c', 'p']),
        WeatherProduct::EcapeEhi01kmExperimental => assert(slug =~= seq!['e', 'c', 'a', 'p', 'e', '_', 'e', 'h', 'i', '_', '0', '_', '1', 'k', 'm']),
        WeatherProduct::EcapeEhi03kmExperimental => assert(slug =~= seq!['e', 'c', 'a', 'p', 'e', '_', 'e', 'h', 'i', '_', '0', '_', '3', 'k', 'm']),
        WeatherProduct::EcapeStpExperimental => assert(slug =~= seq!['e', 'c', 'a', 'p', 'e', '_', 's', 't', 'p']),
        WeatherProduct::StpFixed => assert(slug =~= seq!['s', 't', 'p', '_', 'f', 'i', 'x', 'e', 'd']),
    }
}

/// The note on a map tells what kind of field it shows: a ratio is noted with what it is a
/// ratio to, a composite as experimental, and an energy or inhibition has no note.
pub proof fn law_notes_tell_the_kind_of_field(product: WeatherProduct)
    requires
        !(product is StpFixed),
    ensures
        ({
            let note = heavy::ecape_note(product.spec_slug()@);
            &&& note == " | EXP | derived"@ <==> product is SbEcapeDerivedCapeRatio || product
                is MlEcapeDerivedCapeRatio || product is MuEcapeDerivedCapeRatio
            &&& note == " | EXP | native"@ <==> product is SbEcapeNativeCapeRatio || product
                is MlEcapeNativeCapeRatio || product is MuEcapeNativeCapeRatio
            &&& note == " | experimental"@ <==> ecape::product_units(product) == "dimensionless"@
            &&& note == ""@ <==> ecape::product_units(product) == "J/kg"@
        }),
{
    lemma_product_texts(product);
    reveal_strlit(" | EXP | derived");
    reveal_strlit(" | EXP | native");
    reveal_strlit(" | experimental");
    reveal_strlit("");
    reveal_strlit("J/kg");
    reveal_strlit("ratio");
    reveal_strlit("dimensionless");
    assert(" | EXP | derived"@.len() == 16);
    assert(" | EXP | native"@.len() == 15);
    assert(" | experimental"@.len() == 15);
    assert(" | EXP | native"@[3] == 'E');
    assert(" | experimental"@[3] == 'e');
    assert(""@.len() == 0);
    assert("J/kg"@.len() == 4);
    assert("ratio"@.len() == 5);
    assert("dimensionless"@.len() == 13);
    reveal_strlit("sbecape");
    reveal_strlit("mlecape");
    reveal_strlit("muecape");
    reveal_strlit("sb_ecape_derived_cape_ratio");
    reveal_strlit("ml_ecape_derived_cape_ratio");
    reveal_strlit("mu_ecape_derived_cape_ratio");
    reveal_strlit("sb_ecape_native_cape_ratio");
    reveal_strlit("ml_ecape_native_cape_ratio");
    reveal_strlit("mu_ecape_native_cape_ratio");
    reveal_strlit("sbncape");
    reveal_strlit("sbecin");
    reveal_strlit("mlecin");
    reveal_strlit("ecape_scp");
    reveal_strlit("ecape_ehi_0_1km");
    reveal_strlit("ecape_ehi_0_3km");
    reveal_strlit("ecape_stp");
    reveal_strlit("stp_fixed");
    let slug = product.spec_slug()@;
    match product {
        WeatherProduct::Sbecape => assert(slug =~= seq!['s', 'b', 'e', 'c', 'a', 'p', 'e']),
        WeatherProduct::Mlecape => assert(slug =~= seq!['m', 'l', 'e', 'c', 'a', 'p', 'e']),
        WeatherProduct::Muecape => assert(slug =~= seq!['m', 'u', 'e', 'c', 'a', 'p', 'e']),
        WeatherProduct::SbEcapeDerivedCapeRatio => assert(slug =~= seq!['s', 'b', '_', 'e', 'c', 'a', 'p', 'e', '_', 'd', 'e', 'r', 'i', 'v', 'e', 'd', '_', 'c', 'a', 'p', 'e', '_', 'r', 'a', 't', 'i', 'o']),
        WeatherProduct::MlEcapeDerivedCapeRatio => assert(slug =~= seq!['m', 'l', '_', 'e', 'c', 'a', 'p', 'e', '_', 'd', 'e', 'r', 'i', 'v', 'e', 'd', '_', 'c', 'a', 'p', 'e', '_', 'r', 'a', 't', 'i', 'o']),
        WeatherProduct::MuEcapeDerivedCapeRatio => assert(slug =~= seq!['m', 'u', '_', 'e', 'c', 'a', 'p', 'e', '_', 'd', 'e', 'r', 'i', 'v', 'e', 'd', '_', 'c', 'a', 'p', 'e', '_', 'r', 'a', 't', 'i', 'o']),
        WeatherProduct::SbEcapeNativeCapeRatio => assert(slug =~= seq!['s', 'b', '_', 'e', 'c', 'a', 'p', 'e', '_', 'n', 'a', 't', 'i', 'v', 'e', '_', 'c', 'a', 'p', 'e', '_', 'r', 'a', 't', 'i', 'o']),
        WeatherProduct::MlEcapeNativeCapeRatio => assert(slug =~= seq!['m', 'l', '_', 'e', 'c', 'a', 'p', 'e', '_', 'n', 'a', 't', 'i', 'v', 'e', '_', 'c', 'a', 'p', 'e', '_', 'r', 'a', 't', 'i', 'o']),
        WeatherProduct::MuEcapeNativeCapeRatio => assert(slug =~= seq!['m', 'u', '_', 'e', 'c', 'a', 'p', 'e', '_', 'n', 'a', 't', 'i', 'v', 'e', '_', 'c', 'a', 'p', 'e', '_', 'r', 'a', 't', 'i', 'o']),
        WeatherProduct::Sbncape => assert(slug =~= seq!['s', 'b', 'n', 'c', 'a', 'p', 'e']),
        WeatherProduct::Sbecin => assert(slug =~= seq!['s', 'b', 'e', 'c', 'i', 'n']),
        WeatherProduct::Mlecin => assert(slug =~= seq!['m', 'l', 'e', 'c', 'i', 'n']),
        WeatherProduct::EcapeScpExperimental => assert(slug =~= seq!['e', 'c', 'a', 'p', 'e', '_', 's', 'c', 'p']),
        WeatherProduct::EcapeEhi01kmExperimental => assert(slug =~= seq!['e', 'c', 'a', 'p', 'e', '_', 'e', 'h', 'i', '_', '0', '_', '1', 'k', 'm']),
        WeatherProduct::EcapeEhi03kmExperimental => assert(slug =~= seq!['e', 'c', 'a', 'p', 'e', '_', 'e', 'h', 'i', '_', '0', '_', '3', 'k', 'm']),
        WeatherProduct::EcapeStpExperimental => assert(slug =~= seq!['e', 'c', 'a', 'p', 'e', '_', 's', 't', 'p']),
        WeatherProduct::StpFixed => assert(slug =~= seq!['s', 't', 'p', '_', 'f', 'i', 'x', 'e', 'd']),
    }
}

/// The note of a proxy names the fields that it combines, by their titles: the supercell
/// proxy MUCAPE and the 0-3 km helicity, the energy-helicity proxy SBCAPE and the 0-1 km
/// helicity.
pub proof fn law_proxy_notes_name_what_is_combined(slug: Seq<char>)
    ensures
        slug == DerivedRecipe::ScpMu03km06kmProxy.spec_slug()@ ==> heavy::severe_note(slug)
            == " | proxy: "@ + DerivedRecipe::Mucape.spec_title()@ + " + "@
            + DerivedRecipe::Srh03km.spec_title()@ + " + 0-6 km shear"@,
        slug == DerivedRecipe::Ehi01km.spec_slug()@ ==> heavy::severe_note(slug) == " | proxy: "@
            + DerivedRecipe::Sbcape.spec_title()@ + " + "@ + DerivedRecipe::Srh01km.spec_title()@,
        slug == DerivedRecipe::StpFixed.spec_slug()@ ==> heavy::severe_note(slug)
            == " | fixed-layer composite"@,
        slug != DerivedRecipe::ScpMu03km06kmProxy.spec_slug()@ && slug
            != DerivedRecipe::Ehi01km.spec_slug()@ && slug != DerivedRecipe::StpFixed.spec_slug()@
            ==> heavy::severe_note(slug) == ""@,
{
    reveal_strlit(" | proxy: ");
    reveal_strlit(" + ");
    reveal_strlit(" + 0-6 km shear");
    reveal_strlit("MUCAPE");
    reveal_strlit("SBCAPE");
    reveal_strlit("0-3 km SRH");
    reveal_strlit("0-1 km SRH");
    reveal_strlit(" | proxy: MUCAPE + 0-3 km SRH + 0-6 km shear");
    reveal_strlit(" | proxy: SBCAPE + 0-1 km SRH");
    reveal_strlit("stp_fixed");
    reveal_strlit("scp_mu_0_3km_0_6km_proxy");
    reveal_strlit("ehi_0_1km");
    assert("stp_fixed"@[0] == 's' && "stp_fixed"@[1] == 't');
    assert("scp_mu_0_3km_0_6km_proxy"@[0] == 's' && "scp_mu_0_3km_0_6km_proxy"@[1] == 'c');
    assert("ehi_0_1km"@[0] == 'e');
    assert(" | proxy: MUCAPE + 0-3 km SRH + 0-6 km shear"@ =~= " | proxy: "@ + "MUCAPE"@ + " + "@
        + "0-3 km SRH"@ + " + 0-6 km shear"@);
    assert(" | proxy: SBCAPE + 0-1 km SRH"@ =~= " | proxy: "@ + "SBCAPE"@ + " + "@
        + "0-1 km SRH"@);
}

/// What a run reports is what was measured: the time of computing is that of
/// preparing the volume and of both families of fields, and changing one
/// measurement changes its own time alone.
pub proof fn law_each_time_is_measured_by_itself(
    stats: HeavyDomainStats,
    measured: HeavyMeasurement,
    ms: u128,
)
    ensures
        ({
            let timing = heavy_batch::timing_of(stats, measured);
            &&& timing.spec_compute_ms() == measured.prepared.prepare_height_agl_ms
                + measured.prepared.broadcast_pressure_ms + measured.ecape_triplet_ms
                + measured.severe_fields_ms
            &&& timing.full_cells == stats.full_cells
            &&& timing.cropped_cells == stats.cropped_cells
            &&& timing.pressure_levels == stats.pressure_levels
            &&& timing.crop_kind == stats.crop_kind
            &&& timing.pressure_3d_bytes == measured.prepared.pressure_3d_bytes
            &&& timing.prepare_height_agl_ms == measured.prepared.prepare_height_agl_ms
            &&& timing.broadcast_pressure_ms == measured.prepared.broadcast_pressure_ms
            &&& heavy_batch::timing_of(stats, HeavyMeasurement { crop_ms: ms, ..measured }) == (
            HeavyComputeTiming { crop_ms: ms, ..timing })
            &&& heavy_batch::timing_of(
                stats,
                HeavyMeasurement { ecape_triplet_ms: ms, ..measured },
            ) == (HeavyComputeTiming { ecape_triplet_ms: ms, ..timing })
            &&& heavy_batch::timing_of(
                stats,
                HeavyMeasurement { severe_fields_ms: ms, ..measured },
            ) == (HeavyComputeTiming { severe_fields_ms: ms, ..timing })
            &&& heavy_batch::timing_of(stats, HeavyMeasurement { render_ms: ms, ..measured }) == (
            HeavyComputeTiming { render_ms: ms, ..timing })
            &&& heavy_batch::timing_of(stats, HeavyMeasurement { total_ms: ms, ..measured }) == (
            HeavyComputeTiming { total_ms: ms, ..timing })
        }),
{
}

/// A refusal tells how many cells and levels the domain has, and which domain it
/// is.
pub proof fn law_refusals_tell_the_size_of_the_domain(
    stats: HeavyDomainStats,
    domain_slug: Seq<char>,
)
    ensures
        ({
            let message = heavy::limit_message(stats, domain_slug);
            &&& text::occurs(message, text::decimal(stats.cropped_cells as nat) + " cells"@)
            &&& text::occurs(message, text::decimal(stats.pressure_levels as nat) + " levels"@)
            &&& text::occurs(message, "domain "@ + domain_slug)
        }),
{
    reveal_strlit("Refusing heavy ECAPE/severe compute on ");
    reveal_strlit(" cells \u{00D7} ");
    reveal_strlit(" cells");
    reveal_strlit(" levels for domain ");
    reveal_strlit(" levels");
    reveal_strlit("domain ");
    let message = heavy::limit_message(stats, domain_slug);
    let cells = text::decimal(stats.cropped_cells as nat);
    let levels = text::decimal(stats.pressure_levels as nat);
    let start = "Refusing heavy ECAPE/severe compute on "@;
    let counted = start + cells + " cells \u{00D7} "@;
    let head = counted + levels + " levels for domain "@;
    let first = start.len() as int;
    assert(message.subrange(first, first + cells.len() + 6) =~= cells + " cells"@);
    assert(text::stands_at(message, cells + " cells"@, first));
    let second = counted.len() as int;
    assert(message.subrange(second, second + levels.len() + 7) =~= levels + " levels"@);
    assert(text::stands_at(message, levels + " levels"@, second));
    let third = head.len() - 7;
    assert(message.subrange(third, third + 7 + domain_slug.len()) =~= "domain "@ + domain_slug);
    assert(text::stands_at(message, "domain "@ + domain_slug, third));
}

} // verus!
