//! What the ECAPE products have to do with each other and with the analyses that they
//! are computed from.
use crate::derived::kernel_runs::{SurfaceInputs, VolumeInputs, WindGridInputs};
use crate::ecape;
use crate::ecape::{
    EcapeComposites, EcapeTriplet, EffectiveLayerDiagnostics, EffectiveStpInputs, NativeCapePlanes,
    ScpEhiInputs, WindDiagnostics,
};
use crate::ecape_compute;
use crate::ecape_compute::{EcapeAnswer, EcapeCall, EcapeWork};
use crate::gridded::fields::{PressureFields, SurfaceFields};
use crate::gridded::heavy_volume::PreparedHeavyVolume;
use crate::panel::{WeatherPanelField, WeatherProduct};
use vstd::prelude::*;

verus! {

/// Whether each value of a field is the ratio of an energy to a CAPE at its place, as far
/// as both reach.
pub open spec fn is_ratio<T, R: Fn(T, T) -> T>(
    field: WeatherPanelField<T>,
    energy: WeatherPanelField<T>,
    cape: Seq<T>,
    ratio: R,
) -> bool {
    &&& field.values@.len() <= energy.values@.len()
    &&& field.values@.len() <= cape.len()
    &&& field.values@.len() == energy.values@.len() || field.values@.len() == cape.len()
    &&& forall|k: int|
        0 <= k < field.values@.len() ==> call_ensures(
            ratio,
            (energy.values@[k], cape[k]),
            #[trigger] field.values@[k],
        )
}

/// The published energy of a parcel is that parcel's entraining CAPE, and the published
/// ratios of a parcel are those of its published energy to its own undiluted CAPE and to
/// its native CAPE. Inhibitions, the normalized energy and the composites are published
/// as they were computed.
pub proof fn law_published_fields_are_those_of_their_parcel<T, R: Fn(T, T) -> T>(
    triplet: EcapeTriplet<T>,
    composites: EcapeComposites<T>,
    native: NativeCapePlanes<T>,
    ratio: R,
    fields: Seq<WeatherPanelField<T>>,
    i: int,
    j: int,
)
    requires
        ({
            let products = ecape::published_products(
                native.sb is Some,
                native.ml is Some,
                native.mu is Some,
            );
            &&& fields.len() == products.len()
            &&& forall|n: int|
                0 <= n < products.len() ==> ecape::publishes(
                    #[trigger] fields[n],
                    products[n],
                    triplet,
                    composites,
                    native,
                    ratio,
                )
        }),
        0 <= i < fields.len(),
        0 <= j < fields.len(),
    ensures
        fields[i].product is Sbecape ==> fields[i].values@ == triplet.sb.ecape_jkg@,
        fields[i].product is Mlecape ==> fields[i].values@ == triplet.ml.ecape_jkg@,
        fields[i].product is Muecape ==> fields[i].values@ == triplet.mu.ecape_jkg@,
        fields[i].product is Sbncape ==> fields[i].values@ == triplet.sb.ncape_jkg@,
        fields[i].product is Sbecin ==> fields[i].values@ == triplet.sb.cin_jkg@,
        fields[i].product is Mlecin ==> fields[i].values@ == triplet.ml.cin_jkg@,
        fields[i].product is EcapeScpExperimental ==> fields[i].values@ == composites.scp@,
        fields[i].product is EcapeEhi01kmExperimental ==> fields[i].values@
            == composites.ehi_01km@,
        fields[i].product is EcapeEhi03kmExperimental ==> fields[i].values@
            == composites.ehi_03km@,
        fields[i].product is EcapeStpExperimental ==> fields[i].values@ == composites.stp@,
        fields[i].product is Sbecape && fields[j].product is SbEcapeDerivedCapeRatio ==> is_ratio(
            fields[j],
            fields[i],
            triplet.sb.cape_jkg@,
            ratio,
        ),
        fields[i].product is Mlecape && fields[j].product is MlEcapeDerivedCapeRatio ==> is_ratio(
            fields[j],
            fields[i],
            triplet.ml.cape_jkg@,
            ratio,
        ),
        fields[i].product is Muecape && fields[j].product is MuEcapeDerivedCapeRatio ==> is_ratio(
            fields[j],
            fields[i],
            triplet.mu.cape_jkg@,
            ratio,
        ),
        fields[i].product is Sbecape && fields[j].product is SbEcapeNativeCapeRatio ==> (
        native.sb matches Some(plane) && is_ratio(fields[j], fields[i], plane@, ratio)),
        fields[i].product is Mlecape && fields[j].product is MlEcapeNativeCapeRatio ==> (
        native.ml matches Some(plane) && is_ratio(fields[j], fields[i], plane@, ratio)),
        fields[i].product is Muecape && fields[j].product is MuEcapeNativeCapeRatio ==> (
        native.mu matches Some(plane) && is_ratio(fields[j], fields[i], plane@, ratio)),
{
    let products = ecape::published_products(
        native.sb is Some,
        native.ml is Some,
        native.mu is Some,
    );
    assert(ecape::publishes(fields[i], products[i], triplet, composites, native, ratio));
    assert(ecape::publishes(fields[j], products[j], triplet, composites, native, ratio));
}

/// Energies and inhibitions are given in energy per mass, and whatever is a ratio of two
/// fields, or an index, has no such units.
pub proof fn law_units_tell_energies_from_ratios(product: WeatherProduct)
    ensures
        ecape::product_units(product) == "J/kg"@ <==> {
            ||| product is Sbecape
            ||| product is Mlecape
            ||| product is Muecape
            ||| product is Sbncape
            ||| product is Sbecin
            ||| product is Mlecin
        },
        ecape::product_units(product) == "ratio"@ <==> {
            ||| product is SbEcapeDerivedCapeRatio
            ||| product is MlEcapeDerivedCapeRatio
            ||| product is MuEcapeDerivedCapeRatio
            ||| product is SbEcapeNativeCapeRatio
            ||| product is MlEcapeNativeCapeRatio
            ||| product is MuEcapeNativeCapeRatio
        },
{
    reveal_strlit("J/kg");
    reveal_strlit("ratio");
    reveal_strlit("dimensionless");
    assert("J/kg"@.len() == 4);
    assert("ratio"@.len() == 5);
    assert("dimensionless"@.len() == 13);
}

/// Whether an ECAPE kernel, asked to do some work, answers with a result.
pub open spec fn asked<T, K: for<'a> Fn(EcapeCall<'a, T>) -> Result<EcapeAnswer<T>, String>>(
    run: K,
    nx: usize,
    ny: usize,
    work: EcapeWork<T>,
    answer: EcapeAnswer<T>,
) -> bool {
    call_ensures(run, (EcapeCall { nx, ny, work },), Ok::<EcapeAnswer<T>, String>(answer))
}

/// Whether a supercell composite and an energy-helicity index were computed from two
/// energies and the winds.
pub open spec fn scp_ehi_computed<
    T,
    K: for<'a> Fn(EcapeCall<'a, T>) -> Result<EcapeAnswer<T>, String>,
>(
    run: K,
    nx: usize,
    ny: usize,
    scp_energy: Seq<T>,
    ehi_energy: Seq<T>,
    winds: WindDiagnostics<T>,
    scp: Seq<T>,
    ehi: Seq<T>,
) -> bool {
    exists|inputs: ScpEhiInputs<T>, answer: EcapeAnswer<T>|
        {
            &&& #[trigger] asked(run, nx, ny, EcapeWork::ScpEhi { scp_ehi: inputs }, answer)
            &&& inputs.scp_cape_jkg@ == scp_energy
            &&& inputs.scp_srh_m2s2@ == winds.srh_03km_m2s2@
            &&& inputs.scp_bulk_wind_difference_ms@ == winds.shear_06km_ms@
            &&& inputs.ehi_cape_jkg@ == ehi_energy
            &&& inputs.ehi_srh_m2s2@ == winds.srh_01km_m2s2@
            &&& answer is ScpEhi
            &&& answer->scp@ == scp
            &&& answer->ehi@ == ehi
        }
}

/// Whether an energy-helicity index was computed from an energy and a helicity.
pub open spec fn ehi_computed<
    T,
    K: for<'a> Fn(EcapeCall<'a, T>) -> Result<EcapeAnswer<T>, String>,
>(run: K, nx: usize, ny: usize, energy: Seq<T>, srh: Seq<T>, ehi: Seq<T>) -> bool {
    exists|cape_jkg: &Vec<T>, srh_m2s2: &Vec<T>, answer: EcapeAnswer<T>|
        {
            &&& #[trigger] asked(run, nx, ny, EcapeWork::Ehi { cape_jkg, srh_m2s2 }, answer)
            &&& cape_jkg@ == energy
            &&& srh_m2s2@ == srh
            &&& answer is Field
            &&& answer->values@ == ehi
        }
}

/// Whether a tornado composite was computed from an energy, an inhibition, a condensation
/// level and the kinematics of the effective layer.
pub open spec fn stp_computed<
    T,
    K: for<'a> Fn(EcapeCall<'a, T>) -> Result<EcapeAnswer<T>, String>,
>(
    run: K,
    nx: usize,
    ny: usize,
    energy: Seq<T>,
    inhibition: Seq<T>,
    lcl_m: Seq<T>,
    effective: EffectiveLayerDiagnostics<T>,
    stp: Seq<T>,
) -> bool {
    exists|inputs: EffectiveStpInputs<T>, answer: EcapeAnswer<T>|
        {
            &&& #[trigger] asked(run, nx, ny, EcapeWork::Stp { inputs }, answer)
            &&& inputs.mlcape_jkg@ == energy
            &&& inputs.mlcin_jkg@ == inhibition
            &&& inputs.ml_lcl_m@ == lcl_m
            &&& inputs.effective_srh_m2s2@ == effective.effective_srh_m2s2@
            &&& inputs.effective_bulk_wind_difference_ms@
                == effective.effective_bulk_wind_difference_ms@
            &&& answer is Field
            &&& answer->values@ == stp
        }
}

/// The composites are computed from the energies that are published beside them: the
/// supercell composite from the published most-unstable energy, both energy-helicity
/// indices from the published surface-based energy, each with the helicity of its own
/// layer, and the tornado composite from the published mixed-layer energy and inhibition.
pub proof fn law_composites_combine_the_published_energies<
    T,
    P,
    K: for<'a> Fn(EcapeCall<'a, T>) -> Result<EcapeAnswer<T>, String>,
    R: Fn(T, T) -> T,
>(
    surface: SurfaceFields<T, P>,
    pressure: PressureFields<T>,
    prepared: PreparedHeavyVolume<T>,
    run: K,
    ratio: R,
    fields: Vec<WeatherPanelField<T>>,
    failure_count: usize,
    at: spec_fn(WeatherProduct) -> int,
) -> (kinematics: (WindDiagnostics<T>, Vec<T>, EffectiveLayerDiagnostics<T>))
    requires
        ecape_compute::usable(run),
        ecape_compute::outcome(
            surface,
            pressure,
            prepared,
            run,
            ratio,
            Ok::<(Vec<WeatherPanelField<T>>, usize), String>((fields, failure_count)),
        ),
        forall|product: WeatherProduct|
            ecape::standard_products().contains(product) ==> 0 <= #[trigger] at(product)
                < fields@.len() && fields@[at(product)].product == product,
    ensures
        asked(
            run,
            prepared.nx,
            prepared.ny,
            EcapeWork::Winds {
                wind: WindGridInputs {
                    nz: prepared.nz,
                    u_3d_ms: &pressure.u_ms_3d,
                    v_3d_ms: &pressure.v_ms_3d,
                    height_agl_3d_m: &prepared.height_agl_3d,
                },
            },
            EcapeAnswer::Winds { winds: kinematics.0 },
        ),
        scp_ehi_computed(
            run,
            prepared.nx,
            prepared.ny,
            fields@[at(WeatherProduct::Muecape)].values@,
            fields@[at(WeatherProduct::Sbecape)].values@,
            kinematics.0,
            fields@[at(WeatherProduct::EcapeScpExperimental)].values@,
            fields@[at(WeatherProduct::EcapeEhi01kmExperimental)].values@,
        ),
        ehi_computed(
            run,
            prepared.nx,
            prepared.ny,
            fields@[at(WeatherProduct::Sbecape)].values@,
            kinematics.0.srh_03km_m2s2@,
            fields@[at(WeatherProduct::EcapeEhi03kmExperimental)].values@,
        ),
        stp_computed(
            run,
            prepared.nx,
            prepared.ny,
            fields@[at(WeatherProduct::Mlecape)].values@,
            fields@[at(WeatherProduct::Mlecin)].values@,
            kinematics.1@,
            kinematics.2,
            fields@[at(WeatherProduct::EcapeStpExperimental)].values@,
        ),
{
    let answers = lemma_answers(
        surface,
        pressure,
        prepared,
        run,
        ratio,
        fields,
        failure_count,
    );
    lemma_standard_products();
    let native = ecape_compute::native_planes(&surface);
    let products = ecape::published_products(
        native.sb is Some,
        native.ml is Some,
        native.mu is Some,
    );
    let parcels = answers[0]->parcels;
    let composites = ecape_compute::composites_of(answers);
    assert forall|product: WeatherProduct|
        ecape::standard_products().contains(product) implies ecape::product_values(
        product,
        parcels,
        composites,
        native,
        ratio,
        (#[trigger] fields@[at(product)]).values@,
    ) by {
        let n = at(product);
        assert(0 <= n < fields@.len());
        assert(ecape::publishes(fields@[n], products[n], parcels, composites, native, ratio));
    }
    let mu = fields@[at(WeatherProduct::Muecape)].values@;
    let sb = fields@[at(WeatherProduct::Sbecape)].values@;
    let ml = fields@[at(WeatherProduct::Mlecape)].values@;
    let inhibition = fields@[at(WeatherProduct::Mlecin)].values@;
    let winds = answers[1]->winds;
    let inputs = ScpEhiInputs {
        scp_cape_jkg: &parcels.mu.ecape_jkg,
        scp_srh_m2s2: &winds.srh_03km_m2s2,
        scp_bulk_wind_difference_ms: &winds.shear_06km_ms,
        ehi_cape_jkg: &parcels.sb.ecape_jkg,
        ehi_srh_m2s2: &winds.srh_01km_m2s2,
    };
    assert(asked(
        run,
        prepared.nx,
        prepared.ny,
        EcapeWork::ScpEhi { scp_ehi: inputs },
        answers[2],
    ));
    assert(asked(
        run,
        prepared.nx,
        prepared.ny,
        EcapeWork::Ehi {
            cape_jkg: &parcels.sb.ecape_jkg,
            srh_m2s2: &winds.srh_03km_m2s2,
        },
        answers[3],
    ));
    let effective = answers[5]->effective;
    let stp_inputs = EffectiveStpInputs {
        mlcape_jkg: &parcels.ml.ecape_jkg,
        mlcin_jkg: &parcels.ml.cin_jkg,
        ml_lcl_m: &answers[4]->lcl_m,
        effective_srh_m2s2: &effective.effective_srh_m2s2,
        effective_bulk_wind_difference_ms: &effective.effective_bulk_wind_difference_ms,
    };
    assert(asked(
        run,
        prepared.nx,
        prepared.ny,
        EcapeWork::Stp { inputs: stp_inputs },
        answers[6],
    ));
    (winds, answers[4]->lcl_m, effective)
}

proof fn lemma_standard_products()
    ensures
        ecape::standard_products().contains(WeatherProduct::Sbecape),
        ecape::standard_products().contains(WeatherProduct::Mlecape),
        ecape::standard_products().contains(WeatherProduct::Muecape),
        ecape::standard_products().contains(WeatherProduct::Mlecin),
        ecape::standard_products().contains(WeatherProduct::EcapeScpExperimental),
        ecape::standard_products().contains(WeatherProduct::EcapeEhi01kmExperimental),
        ecape::standard_products().contains(WeatherProduct::EcapeEhi03kmExperimental),
        ecape::standard_products().contains(WeatherProduct::EcapeStpExperimental),
{
    let list = ecape::standard_products();
    assert(list[0] is Sbecape);
    assert(list[1] is Mlecape);
    assert(list[2] is Muecape);
    assert(list[8] is Mlecin);
    assert(list[9] is EcapeScpExperimental);
    assert(list[10] is EcapeEhi01kmExperimental);
    assert(list[11] is EcapeEhi03kmExperimental);
    assert(list[12] is EcapeStpExperimental);
}

/// The seven answers of a computation, each to the work that it was asked for.
proof fn lemma_answers<
    T,
    P,
    K: for<'a> Fn(EcapeCall<'a, T>) -> Result<EcapeAnswer<T>, String>,
    R: Fn(T, T) -> T,
>(
    surface: SurfaceFields<T, P>,
    pressure: PressureFields<T>,
    prepared: PreparedHeavyVolume<T>,
    run: K,
    ratio: R,
    fields: Vec<WeatherPanelField<T>>,
    failure_count: usize,
) -> (answers: Seq<EcapeAnswer<T>>)
    requires
        ecape_compute::usable(run),
        ecape_compute::outcome(
            surface,
            pressure,
            prepared,
            run,
            ratio,
            Ok::<(Vec<WeatherPanelField<T>>, usize), String>((fields, failure_count)),
        ),
    ensures
        answers.len() == 7,
        failure_count == answers[0]->failure_count,
        ecape_compute::published(surface, answers, ratio, fields@),
        forall|i: int|
            0 <= i < 7 ==> asked(
                run,
                prepared.nx,
                prepared.ny,
                ecape_compute::next_work(&surface, &pressure, &prepared, answers.take(i)),
                #[trigger] answers[i],
            ),
        answers[0] is Triplet,
        answers[1] is Winds,
        answers[2] is ScpEhi,
        answers[3] is Field,
        answers[4] is MixedLayer,
        answers[5] is EffectiveLayer,
        answers[6] is Field,
{
    let answers = choose|answers: Seq<EcapeAnswer<T>>|
        #[trigger] ecape_compute::answered(surface, pressure, prepared, run, answers) && {
            &&& answers.len() == ecape_compute::call_count()
            &&& failure_count == answers[0]->failure_count
            &&& ecape_compute::published(surface, answers, ratio, fields@)
        };
    lemma_each_was_asked(surface, pressure, prepared, run, answers);
    assert(asked(
        run,
        prepared.nx,
        prepared.ny,
        ecape_compute::next_work(&surface, &pressure, &prepared, answers.take(0)),
        answers[0],
    ));
    assert(asked(
        run,
        prepared.nx,
        prepared.ny,
        ecape_compute::next_work(&surface, &pressure, &prepared, answers.take(1)),
        answers[1],
    ));
    assert(asked(
        run,
        prepared.nx,
        prepared.ny,
        ecape_compute::next_work(&surface, &pressure, &prepared, answers.take(2)),
        answers[2],
    ));
    assert(asked(
        run,
        prepared.nx,
        prepared.ny,
        ecape_compute::next_work(&surface, &pressure, &prepared, answers.take(3)),
        answers[3],
    ));
    assert(asked(
        run,
        prepared.nx,
        prepared.ny,
        ecape_compute::next_work(&surface, &pressure, &prepared, answers.take(4)),
        answers[4],
    ));
    assert(asked(
        run,
        prepared.nx,
        prepared.ny,
        ecape_compute::next_work(&surface, &pressure, &prepared, answers.take(5)),
        answers[5],
    ));
    assert(asked(
        run,
        prepared.nx,
        prepared.ny,
        ecape_compute::next_work(&surface, &pressure, &prepared, answers.take(6)),
        answers[6],
    ));
    answers
}

proof fn lemma_each_was_asked<
    T,
    P,
    K: for<'a> Fn(EcapeCall<'a, T>) -> Result<EcapeAnswer<T>, String>,
>(
    surface: SurfaceFields<T, P>,
    pressure: PressureFields<T>,
    prepared: PreparedHeavyVolume<T>,
    run: K,
    answers: Seq<EcapeAnswer<T>>,
)
    requires
        ecape_compute::answered(surface, pressure, prepared, run, answers),
    ensures
        forall|i: int|
            0 <= i < answers.len() ==> asked(
                run,
                prepared.nx,
                prepared.ny,
                ecape_compute::next_work(&surface, &pressure, &prepared, answers.take(i)),
                #[trigger] answers[i],
            ),
    decreases answers.len(),
{
    if answers.len() > 0 {
        let init = answers.drop_last();
        lemma_each_was_asked(surface, pressure, prepared, run, init);
        assert forall|i: int| 0 <= i < answers.len() implies asked(
            run,
            prepared.nx,
            prepared.ny,
            ecape_compute::next_work(&surface, &pressure, &prepared, answers.take(i)),
            #[trigger] answers[i],
        ) by {
            if i < init.len() {
                assert(answers[i] == init[i]);
                assert(answers.take(i) =~= init.take(i));
            } else {
                assert(answers.take(i) =~= init);
            }
        }
    }
}

/// The parcels are lifted from the surface analysis through the pressure analysis: each
/// kernel that lifts one is handed the fields of that name.
pub proof fn law_parcels_are_lifted_through_the_analyses<
    T,
    P,
    K: for<'a> Fn(EcapeCall<'a, T>) -> Result<EcapeAnswer<T>, String>,
    R: Fn(T, T) -> T,
>(
    surface: SurfaceFields<T, P>,
    pressure: PressureFields<T>,
    prepared: PreparedHeavyVolume<T>,
    run: K,
    ratio: R,
    fields: Vec<WeatherPanelField<T>>,
    failure_count: usize,
) -> (lifted: (EcapeTriplet<T>, Vec<T>, EffectiveLayerDiagnostics<T>))
    requires
        ecape_compute::usable(run),
        ecape_compute::outcome(
            surface,
            pressure,
            prepared,
            run,
            ratio,
            Ok::<(Vec<WeatherPanelField<T>>, usize), String>((fields, failure_count)),
        ),
    ensures
        ({
            let volume = VolumeInputs {
                pressure_pa: match &prepared.pressure_3d_pa {
                    Some(volume) => volume,
                    None => &prepared.pressure_levels_pa,
                },
                temperature_c: &pressure.temperature_c_3d,
                qvapor_kgkg: &pressure.qvapor_kgkg_3d,
                height_agl_m: &prepared.height_agl_3d,
                u_ms: &pressure.u_ms_3d,
                v_ms: &pressure.v_ms_3d,
                nz: prepared.nz,
            };
            let from = SurfaceInputs {
                psfc_pa: &surface.psfc_pa,
                t2_k: &surface.t2_k,
                q2_kgkg: &surface.q2_kgkg,
                u10_ms: &surface.u10_ms,
                v10_ms: &surface.v10_ms,
            };
            &&& asked(
                run,
                prepared.nx,
                prepared.ny,
                EcapeWork::Triplet { volume, surface: from, storm_motion: "right_moving" },
                EcapeAnswer::Triplet { parcels: lifted.0, failure_count },
            )
            &&& asked(
                run,
                prepared.nx,
                prepared.ny,
                EcapeWork::MixedLayer { volume, surface: from },
                EcapeAnswer::MixedLayer { lcl_m: lifted.1 },
            )
            &&& asked(
                run,
                prepared.nx,
                prepared.ny,
                EcapeWork::EffectiveLayer { volume, surface: from },
                EcapeAnswer::EffectiveLayer { effective: lifted.2 },
            )
        }),
        forall|i: int|
            0 <= i < fields@.len() ==> ((#[trigger] fields@[i]).product is Muecape
                ==> fields@[i].values@ == lifted.0.mu.ecape_jkg@),
        forall|i: int|
            0 <= i < fields@.len() ==> ((#[trigger] fields@[i]).product is Mlecape
                ==> fields@[i].values@ == lifted.0.ml.ecape_jkg@),
        forall|i: int|
            0 <= i < fields@.len() ==> ((#[trigger] fields@[i]).product is Sbecape
                ==> fields@[i].values@ == lifted.0.sb.ecape_jkg@),
        forall|i: int, j: int|
            0 <= i < fields@.len() && 0 <= j < fields@.len() && (#[trigger] fields@[i]).product
                is Muecape && (#[trigger] fields@[j]).product is MuEcapeNativeCapeRatio ==> (
            surface.native_mucape_jkg matches Some(plane) && is_ratio(
                fields@[j],
                fields@[i],
                plane@,
                ratio,
            )),
        forall|i: int, j: int|
            0 <= i < fields@.len() && 0 <= j < fields@.len() && (#[trigger] fields@[i]).product
                is Mlecape && (#[trigger] fields@[j]).product is MlEcapeNativeCapeRatio ==> (
            surface.native_mlcape_jkg matches Some(plane) && is_ratio(
                fields@[j],
                fields@[i],
                plane@,
                ratio,
            )),
        forall|i: int, j: int|
            0 <= i < fields@.len() && 0 <= j < fields@.len() && (#[trigger] fields@[i]).product
                is Sbecape && (#[trigger] fields@[j]).product is SbEcapeNativeCapeRatio ==> (
            surface.native_sbcape_jkg matches Some(plane) && is_ratio(
                fields@[j],
                fields@[i],
                plane@,
                ratio,
            )),
{
    let answers = lemma_answers(
        surface,
        pressure,
        prepared,
        run,
        ratio,
        fields,
        failure_count,
    );
    let parcels = answers[0]->parcels;
    let composites = ecape_compute::composites_of(answers);
    let native = ecape_compute::native_planes(&surface);
    assert forall|i: int, j: int|
        0 <= i < fields@.len() && 0 <= j < fields@.len() implies #[trigger] published_alike(
        surface,
        parcels,
        ratio,
        fields@[i],
        fields@[j],
    ) by {
        law_published_fields_are_those_of_their_parcel(
            parcels,
            composites,
            native,
            ratio,
            fields@,
            i,
            j,
        );
    }
    assert forall|i: int| 0 <= i < fields@.len() implies published_alike(
        surface,
        parcels,
        ratio,
        #[trigger] fields@[i],
        fields@[i],
    ) by {}
    assert(answers[0] == EcapeAnswer::Triplet { parcels, failure_count });
    assert(answers[4] == EcapeAnswer::MixedLayer { lcl_m: answers[4]->lcl_m });
    assert(answers[5] == EcapeAnswer::EffectiveLayer { effective: answers[5]->effective });
    (parcels, answers[4]->lcl_m, answers[5]->effective)
}

/// What holds of two published fields of a computation.
spec fn published_alike<T, P, R: Fn(T, T) -> T>(
    surface: SurfaceFields<T, P>,
    parcels: EcapeTriplet<T>,
    ratio: R,
    a: WeatherPanelField<T>,
    b: WeatherPanelField<T>,
) -> bool {
    &&& a.product is Sbecape ==> a.values@ == parcels.sb.ecape_jkg@
    &&& a.product is Mlecape ==> a.values@ == parcels.ml.ecape_jkg@
    &&& a.product is Muecape ==> a.values@ == parcels.mu.ecape_jkg@
    &&& a.product is Sbecape && b.product is SbEcapeNativeCapeRatio ==> (
    surface.native_sbcape_jkg matches Some(plane) && is_ratio(b, a, plane@, ratio))
    &&& a.product is Mlecape && b.product is MlEcapeNativeCapeRatio ==> (
    surface.native_mlcape_jkg matches Some(plane) && is_ratio(b, a, plane@, ratio))
    &&& a.product is Muecape && b.product is MuEcapeNativeCapeRatio ==> (
    surface.native_mucape_jkg matches Some(plane) && is_ratio(b, a, plane@, ratio))
}

} // verus!
