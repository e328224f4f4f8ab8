//! The entraining-parcel (ECAPE) products: what their composites are computed
//! from, which fields are published, and the maps that show them as ratios.
use crate::ecape_laws;
use crate::panel;
use crate::panel::{find_by_slug, WeatherPanelField, WeatherProduct};
use vstd::prelude::*;
use vstd::slice::slice_to_vec;
use vstd::string::*;

verus! {

/// The fields of one entraining parcel.
pub struct EcapeParcelFields<T> {
    pub ecape_jkg: Vec<T>,
    pub ncape_jkg: Vec<T>,
    pub cape_jkg: Vec<T>,
    pub cin_jkg: Vec<T>,
}

/// The fields of the surface-based, mixed-layer and most-unstable parcels.
pub struct EcapeTriplet<T> {
    pub sb: EcapeParcelFields<T>,
    pub ml: EcapeParcelFields<T>,
    pub mu: EcapeParcelFields<T>,
}

/// Kinematics of fixed layers.
pub struct WindDiagnostics<T> {
    pub srh_01km_m2s2: Vec<T>,
    pub srh_03km_m2s2: Vec<T>,
    pub shear_06km_ms: Vec<T>,
}

/// Kinematics of the effective inflow layer.
pub struct EffectiveLayerDiagnostics<T> {
    pub effective_srh_m2s2: Vec<T>,
    pub effective_bulk_wind_difference_ms: Vec<T>,
}

/// What the supercell composite and the 0-1 km energy-helicity index are
/// computed from.
pub struct ScpEhiInputs<'a, T> {
    pub scp_cape_jkg: &'a Vec<T>,
    pub scp_srh_m2s2: &'a Vec<T>,
    pub scp_bulk_wind_difference_ms: &'a Vec<T>,
    pub ehi_cape_jkg: &'a Vec<T>,
    pub ehi_srh_m2s2: &'a Vec<T>,
}

/// The supercell composite takes the most-unstable parcel with the 0-3 km
/// helicity and the 0-6 km shear, the energy-helicity index the surface-based
/// parcel with the 0-1 km helicity.
pub fn scp_ehi_inputs<'a, T>(triplet: &'a EcapeTriplet<T>, winds: &'a WindDiagnostics<T>) -> (inputs:
    ScpEhiInputs<'a, T>)
    ensures
        *inputs.scp_cape_jkg == triplet.mu.ecape_jkg,
        *inputs.scp_srh_m2s2 == winds.srh_03km_m2s2,
        *inputs.scp_bulk_wind_difference_ms == winds.shear_06km_ms,
        *inputs.ehi_cape_jkg == triplet.sb.ecape_jkg,
        *inputs.ehi_srh_m2s2 == winds.srh_01km_m2s2,
{
    ScpEhiInputs {
        scp_cape_jkg: &triplet.mu.ecape_jkg,
        scp_srh_m2s2: &winds.srh_03km_m2s2,
        scp_bulk_wind_difference_ms: &winds.shear_06km_ms,
        ehi_cape_jkg: &triplet.sb.ecape_jkg,
        ehi_srh_m2s2: &winds.srh_01km_m2s2,
    }
}

/// The 0-3 km energy-helicity index takes the surface-based parcel with the
/// 0-3 km helicity.
pub fn ehi_03km_inputs<'a, T>(triplet: &'a EcapeTriplet<T>, winds: &'a WindDiagnostics<T>) -> (inputs:
    (&'a Vec<T>, &'a Vec<T>))
    ensures
        *inputs.0 == triplet.sb.ecape_jkg,
        *inputs.1 == winds.srh_03km_m2s2,
{
    (&triplet.sb.ecape_jkg, &winds.srh_03km_m2s2)
}

/// What the significant-tornado composite is computed from.
pub struct EffectiveStpInputs<'a, T> {
    pub mlcape_jkg: &'a Vec<T>,
    pub mlcin_jkg: &'a Vec<T>,
    pub ml_lcl_m: &'a Vec<T>,
    pub effective_srh_m2s2: &'a Vec<T>,
    pub effective_bulk_wind_difference_ms: &'a Vec<T>,
}

/// The significant-tornado composite takes the mixed-layer parcel, the
/// condensation level of the classic mixed-layer parcel, and the kinematics of
/// the effective inflow layer.
pub fn effective_stp_inputs<'a, T>(
    triplet: &'a EcapeTriplet<T>,
    ml_lcl_m: &'a Vec<T>,
    effective: &'a EffectiveLayerDiagnostics<T>,
) -> (inputs: EffectiveStpInputs<'a, T>)
    ensures
        *inputs.mlcape_jkg == triplet.ml.ecape_jkg,
        *inputs.mlcin_jkg == triplet.ml.cin_jkg,
        *inputs.ml_lcl_m == *ml_lcl_m,
        *inputs.effective_srh_m2s2 == effective.effective_srh_m2s2,
        *inputs.effective_bulk_wind_difference_ms == effective.effective_bulk_wind_difference_ms,
{
    EffectiveStpInputs {
        mlcape_jkg: &triplet.ml.ecape_jkg,
        mlcin_jkg: &triplet.ml.cin_jkg,
        ml_lcl_m,
        effective_srh_m2s2: &effective.effective_srh_m2s2,
        effective_bulk_wind_difference_ms: &effective.effective_bulk_wind_difference_ms,
    }
}

/// The composites of the entraining parcels.
pub struct EcapeComposites<T> {
    pub scp: Vec<T>,
    pub ehi_01km: Vec<T>,
    pub ehi_03km: Vec<T>,
    pub stp: Vec<T>,
}

/// The CAPE planes that the model itself provides.
pub struct NativeCapePlanes<'a, T> {
    pub sb: Option<&'a Vec<T>>,
    pub ml: Option<&'a Vec<T>>,
    pub mu: Option<&'a Vec<T>>,
}

/// Whether each value is the ratio of the values at its place, as far as both
/// planes reach.
pub open spec fn ratios<T, R: Fn(T, T) -> T>(
    ecape: Seq<T>,
    cape: Seq<T>,
    ratio: R,
    values: Seq<T>,
) -> bool {
    &&& values.len() == (if ecape.len() <= cape.len() {
        ecape.len()
    } else {
        cape.len()
    })
    &&& forall|i: int|
        0 <= i < values.len() ==> call_ensures(ratio, (ecape[i], cape[i]), #[trigger] values[i])
}

/// The ratio of two planes, value by value, as far as both reach.
pub fn ecape_cape_ratio<T: Copy, R: Fn(T, T) -> T>(ecape: &[T], cape: &[T], ratio: &R) -> (values:
    Vec<T>)
    requires
        forall|a: T, b: T| #[trigger] call_requires(*ratio, (a, b)),
    ensures
        ratios(ecape@, cape@, *ratio, values@),
{
    let len: usize = if ecape.len() <= cape.len() {
        ecape.len()
    } else {
        cape.len()
    };
    let mut values: Vec<T> = Vec::new();
    let mut i: usize = 0;
    while i < len
        invariant
            i <= len,
            len <= ecape@.len(),
            len <= cape@.len(),
            values@.len() == i,
            forall|a: T, b: T| #[trigger] call_requires(*ratio, (a, b)),
            forall|k: int|
                0 <= k < i ==> call_ensures(*ratio, (ecape@[k], cape@[k]), #[trigger] values@[k]),
        decreases len - i,
    {
        let value = ratio(ecape[i], cape[i]);
        values.push(value);
        i = i + 1;
    }
    values
}

/// The products that are always published, in order.
pub open spec fn standard_products() -> Seq<WeatherProduct> {
    seq![
        WeatherProduct::Sbecape,
        WeatherProduct::Mlecape,
        WeatherProduct::Muecape,
        WeatherProduct::SbEcapeDerivedCapeRatio,
        WeatherProduct::MlEcapeDerivedCapeRatio,
        WeatherProduct::MuEcapeDerivedCapeRatio,
        WeatherProduct::Sbncape,
        WeatherProduct::Sbecin,
        WeatherProduct::Mlecin,
        WeatherProduct::EcapeScpExperimental,
        WeatherProduct::EcapeEhi01kmExperimental,
        WeatherProduct::EcapeEhi03kmExperimental,
        WeatherProduct::EcapeStpExperimental,
    ]
}

/// A list that holds a product or nothing.
pub open spec fn if_there(there: bool, product: WeatherProduct) -> Seq<WeatherProduct> {
    if there {
        seq![product]
    } else {
        Seq::empty()
    }
}

/// The products that are published, in order: those that are always, then the
/// ratios to the native CAPE planes that are there.
pub open spec fn published_products(sb: bool, ml: bool, mu: bool) -> Seq<WeatherProduct> {
    standard_products() + if_there(sb, WeatherProduct::SbEcapeNativeCapeRatio) + if_there(
        ml,
        WeatherProduct::MlEcapeNativeCapeRatio,
    ) + if_there(mu, WeatherProduct::MuEcapeNativeCapeRatio)
}

/// The units of a product.
pub open spec fn product_units(product: WeatherProduct) -> Seq<char> {
    match product {
        WeatherProduct::Sbecape
        | WeatherProduct::Mlecape
        | WeatherProduct::Muecape
        | WeatherProduct::Sbncape
        | WeatherProduct::Sbecin
        | WeatherProduct::Mlecin => "J/kg"@,
        WeatherProduct::SbEcapeDerivedCapeRatio
        | WeatherProduct::MlEcapeDerivedCapeRatio
        | WeatherProduct::MuEcapeDerivedCapeRatio
        | WeatherProduct::SbEcapeNativeCapeRatio
        | WeatherProduct::MlEcapeNativeCapeRatio
        | WeatherProduct::MuEcapeNativeCapeRatio => "ratio"@,
        _ => "dimensionless"@,
    }
}

/// Whether values are those of a product.
pub open spec fn product_values<T, R: Fn(T, T) -> T>(
    product: WeatherProduct,
    triplet: EcapeTriplet<T>,
    composites: EcapeComposites<T>,
    native: NativeCapePlanes<T>,
    ratio: R,
    values: Seq<T>,
) -> bool {
    match product {
        WeatherProduct::Sbecape => values == triplet.sb.ecape_jkg@,
        WeatherProduct::Mlecape => values == triplet.ml.ecape_jkg@,
        WeatherProduct::Muecape => values == triplet.mu.ecape_jkg@,
        WeatherProduct::SbEcapeDerivedCapeRatio => ratios(
            triplet.sb.ecape_jkg@,
            triplet.sb.cape_jkg@,
            ratio,
            values,
        ),
        WeatherProduct::MlEcapeDerivedCapeRatio => ratios(
            triplet.ml.ecape_jkg@,
            triplet.ml.cape_jkg@,
            ratio,
            values,
        ),
        WeatherProduct::MuEcapeDerivedCapeRatio => ratios(
            triplet.mu.ecape_jkg@,
            triplet.mu.cape_jkg@,
            ratio,
            values,
        ),
        WeatherProduct::SbEcapeNativeCapeRatio => native.sb matches Some(plane) && ratios(
            triplet.sb.ecape_jkg@,
            plane@,
            ratio,
            values,
        ),
        WeatherProduct::MlEcapeNativeCapeRatio => native.ml matches Some(plane) && ratios(
            triplet.ml.ecape_jkg@,
            plane@,
            ratio,
            values,
        ),
        WeatherProduct::MuEcapeNativeCapeRatio => native.mu matches Some(plane) && ratios(
            triplet.mu.ecape_jkg@,
            plane@,
            ratio,
            values,
        ),
        WeatherProduct::Sbncape => values == triplet.sb.ncape_jkg@,
        WeatherProduct::Sbecin => values == triplet.sb.cin_jkg@,
        WeatherProduct::Mlecin => values == triplet.ml.cin_jkg@,
        WeatherProduct::EcapeScpExperimental => values == composites.scp@,
        WeatherProduct::EcapeEhi01kmExperimental => values == composites.ehi_01km@,
        WeatherProduct::EcapeEhi03kmExperimental => values == composites.ehi_03km@,
        WeatherProduct::EcapeStpExperimental => values == composites.stp@,
        WeatherProduct::StpFixed => false,
    }
}

/// Whether a field publishes a product under its own slug.
pub open spec fn publishes<T, R: Fn(T, T) -> T>(
    field: WeatherPanelField<T>,
    product: WeatherProduct,
    triplet: EcapeTriplet<T>,
    composites: EcapeComposites<T>,
    native: NativeCapePlanes<T>,
    ratio: R,
) -> bool {
    &&& field.product == product
    &&& field.artifact_slug is None
    &&& field.title_override is None
    &&& field.units@ == product_units(product)
    &&& product_values(product, triplet, composites, native, ratio, field.values@)
}

/// Assembles the published fields: energies and inhibitions of the parcels,
/// ratios to the undiluted CAPE, the composites, and ratios to the native CAPE
/// planes that are there.
pub fn ecape_map_fields<T: Copy, R: Fn(T, T) -> T>(
    triplet: &EcapeTriplet<T>,
    composites: &EcapeComposites<T>,
    native: &NativeCapePlanes<T>,
    ratio: &R,
) -> (fields: Vec<WeatherPanelField<T>>)
    requires
        forall|a: T, b: T| #[trigger] call_requires(*ratio, (a, b)),
    ensures
        ({
            let products = published_products(
                native.sb is Some,
                native.ml is Some,
                native.mu is Some,
            );
            &&& fields@.len() == products.len()
            &&& forall|i: int|
                0 <= i < products.len() ==> publishes(
                    #[trigger] fields@[i],
                    products[i],
                    *triplet,
                    *composites,
                    *native,
                    *ratio,
                )
        }),
        forall|i: int|
            0 <= i < fields@.len() ==> ((#[trigger] fields@[i]).product is Sbecape
                ==> fields@[i].values@ == triplet.sb.ecape_jkg@),
        forall|i: int, j: int|
            0 <= i < fields@.len() && 0 <= j < fields@.len() && (#[trigger] fields@[i]).product
                is Sbecape && (#[trigger] fields@[j]).product is SbEcapeDerivedCapeRatio
                ==> ecape_laws::is_ratio(
                fields@[j],
                fields@[i],
                triplet.sb.cape_jkg@,
                *ratio,
            ),
        forall|i: int|
            0 <= i < fields@.len() ==> ((#[trigger] fields@[i]).product is Mlecape
                ==> fields@[i].values@ == triplet.ml.ecape_jkg@),
        forall|i: int, j: int|
            0 <= i < fields@.len() && 0 <= j < fields@.len() && (#[trigger] fields@[i]).product
                is Mlecape && (#[trigger] fields@[j]).product is MlEcapeDerivedCapeRatio
                ==> ecape_laws::is_ratio(
                fields@[j],
                fields@[i],
                triplet.ml.cape_jkg@,
                *ratio,
            ),
        forall|i: int|
            0 <= i < fields@.len() ==> ((#[trigger] fields@[i]).product is Muecape
                ==> fields@[i].values@ == triplet.mu.ecape_jkg@),
        forall|i: int, j: int|
            0 <= i < fields@.len() && 0 <= j < fields@.len() && (#[trigger] fields@[i]).product
                is Muecape && (#[trigger] fields@[j]).product is MuEcapeDerivedCapeRatio
                ==> ecape_laws::is_ratio(
                fields@[j],
                fields@[i],
                triplet.mu.cape_jkg@,
                *ratio,
            ),
{
    let mut fields: Vec<WeatherPanelField<T>> = Vec::new();
    let ghost mut products: Seq<WeatherProduct> = Seq::empty();
    let order = [
        WeatherProduct::Sbecape,
        WeatherProduct::Mlecape,
        WeatherProduct::Muecape,
        WeatherProduct::SbEcapeDerivedCapeRatio,
        WeatherProduct::MlEcapeDerivedCapeRatio,
        WeatherProduct::MuEcapeDerivedCapeRatio,
        WeatherProduct::Sbncape,
        WeatherProduct::Sbecin,
        WeatherProduct::Mlecin,
        WeatherProduct::EcapeScpExperimental,
        WeatherProduct::EcapeEhi01kmExperimental,
        WeatherProduct::EcapeEhi03kmExperimental,
        WeatherProduct::EcapeStpExperimental,
    ];
    proof {
        assert(order@ =~= standard_products());
    }
    let mut i: usize = 0;
    while i < 13
        invariant
            i <= 13,
            order@ == standard_products(),
            order@.len() == 13,
            fields@.len() == i,
            forall|a: T, b: T| #[trigger] call_requires(*ratio, (a, b)),
            forall|k: int|
                0 <= k < i ==> publishes(
                    #[trigger] fields@[k],
                    order@[k],
                    *triplet,
                    *composites,
                    *native,
                    *ratio,
                ),
        decreases 13 - i,
    {
        let field = standard_field(order[i], triplet, composites, native, ratio);
        fields.push(field);
        i = i + 1;
    }
    proof {
        products = standard_products();
    }
    if let Some(plane) = native.sb {
        let values = ecape_cape_ratio(triplet.sb.ecape_jkg.as_slice(), plane.as_slice(), ratio);
        fields.push(WeatherPanelField::new(WeatherProduct::SbEcapeNativeCapeRatio, "ratio", values));
        proof {
            products = products.push(WeatherProduct::SbEcapeNativeCapeRatio);
        }
    }
    if let Some(plane) = native.ml {
        let values = ecape_cape_ratio(triplet.ml.ecape_jkg.as_slice(), plane.as_slice(), ratio);
        fields.push(WeatherPanelField::new(WeatherProduct::MlEcapeNativeCapeRatio, "ratio", values));
        proof {
            products = products.push(WeatherProduct::MlEcapeNativeCapeRatio);
        }
    }
    if let Some(plane) = native.mu {
        let values = ecape_cape_ratio(triplet.mu.ecape_jkg.as_slice(), plane.as_slice(), ratio);
        fields.push(WeatherPanelField::new(WeatherProduct::MuEcapeNativeCapeRatio, "ratio", values));
        proof {
            products = products.push(WeatherProduct::MuEcapeNativeCapeRatio);
        }
    }
    proof {
        assert(products =~= published_products(
            native.sb is Some,
            native.ml is Some,
            native.mu is Some,
        ));
        assert forall|i: int, j: int|
            0 <= i < fields@.len() && 0 <= j < fields@.len() implies #[trigger] pairs_up(
            *triplet,
            *ratio,
            fields@[i],
            fields@[j],
        ) by {
            ecape_laws::law_published_fields_are_those_of_their_parcel(
                *triplet,
                *composites,
                *native,
                *ratio,
                fields@,
                i,
                j,
            );
        }
        assert forall|i: int| 0 <= i < fields@.len() implies pairs_up(
            *triplet,
            *ratio,
            #[trigger] fields@[i],
            fields@[i],
        ) by {}
    }
    fields
}

/// Whether a field publishes the energy of its parcel, and another its ratio to the
/// parcel's undiluted CAPE, where they are such fields.
spec fn pairs_up<T, R: Fn(T, T) -> T>(
    triplet: EcapeTriplet<T>,
    ratio: R,
    energy: WeatherPanelField<T>,
    other: WeatherPanelField<T>,
) -> bool {
    &&& energy.product is Sbecape ==> energy.values@ == triplet.sb.ecape_jkg@
    &&& energy.product is Mlecape ==> energy.values@ == triplet.ml.ecape_jkg@
    &&& energy.product is Muecape ==> energy.values@ == triplet.mu.ecape_jkg@
    &&& energy.product is Sbecape && other.product is SbEcapeDerivedCapeRatio
        ==> ecape_laws::is_ratio(other, energy, triplet.sb.cape_jkg@, ratio)
    &&& energy.product is Mlecape && other.product is MlEcapeDerivedCapeRatio
        ==> ecape_laws::is_ratio(other, energy, triplet.ml.cape_jkg@, ratio)
    &&& energy.product is Muecape && other.product is MuEcapeDerivedCapeRatio
        ==> ecape_laws::is_ratio(other, energy, triplet.mu.cape_jkg@, ratio)
}

fn standard_field<T: Copy, R: Fn(T, T) -> T>(
    product: WeatherProduct,
    triplet: &EcapeTriplet<T>,
    composites: &EcapeComposites<T>,
    native: &NativeCapePlanes<T>,
    ratio: &R,
) -> (field: WeatherPanelField<T>)
    requires
        standard_products().contains(product),
        forall|a: T, b: T| #[trigger] call_requires(*ratio, (a, b)),
    ensures
        publishes(field, product, *triplet, *composites, *native, *ratio),
{
    let units: &'static str = match product {
        WeatherProduct::Sbecape
        | WeatherProduct::Mlecape
        | WeatherProduct::Muecape
        | WeatherProduct::Sbncape
        | WeatherProduct::Sbecin
        | WeatherProduct::Mlecin => "J/kg",
        WeatherProduct::SbEcapeDerivedCapeRatio
        | WeatherProduct::MlEcapeDerivedCapeRatio
        | WeatherProduct::MuEcapeDerivedCapeRatio
        | WeatherProduct::SbEcapeNativeCapeRatio
        | WeatherProduct::MlEcapeNativeCapeRatio
        | WeatherProduct::MuEcapeNativeCapeRatio => "ratio",
        _ => "dimensionless",
    };
    let values = match product {
        WeatherProduct::Sbecape => slice_to_vec(triplet.sb.ecape_jkg.as_slice()),
        WeatherProduct::Mlecape => slice_to_vec(triplet.ml.ecape_jkg.as_slice()),
        WeatherProduct::Muecape => slice_to_vec(triplet.mu.ecape_jkg.as_slice()),
        WeatherProduct::SbEcapeDerivedCapeRatio => ecape_cape_ratio(
            triplet.sb.ecape_jkg.as_slice(),
            triplet.sb.cape_jkg.as_slice(),
            ratio,
        ),
        WeatherProduct::MlEcapeDerivedCapeRatio => ecape_cape_ratio(
            triplet.ml.ecape_jkg.as_slice(),
            triplet.ml.cape_jkg.as_slice(),
            ratio,
        ),
        WeatherProduct::MuEcapeDerivedCapeRatio => ecape_cape_ratio(
            triplet.mu.ecape_jkg.as_slice(),
            triplet.mu.cape_jkg.as_slice(),
            ratio,
        ),
        WeatherProduct::Sbncape => slice_to_vec(triplet.sb.ncape_jkg.as_slice()),
        WeatherProduct::Sbecin => slice_to_vec(triplet.sb.cin_jkg.as_slice()),
        WeatherProduct::Mlecin => slice_to_vec(triplet.ml.cin_jkg.as_slice()),
        WeatherProduct::EcapeScpExperimental => slice_to_vec(composites.scp.as_slice()),
        WeatherProduct::EcapeEhi01kmExperimental => slice_to_vec(composites.ehi_01km.as_slice()),
        WeatherProduct::EcapeEhi03kmExperimental => slice_to_vec(composites.ehi_03km.as_slice()),
        _ => slice_to_vec(composites.stp.as_slice()),
    };
    WeatherPanelField::new(product, units, values)
}

/// Where the time of the ECAPE computation went.
#[derive(Debug, Clone, Copy, PartialEq, Eq, Structural)]
pub struct EcapeMapFieldsTiming {
    /// The three entraining parcels.
    pub ecape_triplet_ms: u128,
    /// Helicity and shear for the composites.
    pub wind_diagnostics_ms: u128,
    /// The classic mixed-layer parcel, for its condensation level.
    pub ml_classic_ms: u128,
    /// Composites and ratios.
    pub composites_ms: u128,
}

impl Default for EcapeMapFieldsTiming {
    fn default() -> (timing: Self)
        ensures
            timing == (EcapeMapFieldsTiming {
                ecape_triplet_ms: 0,
                wind_diagnostics_ms: 0,
                ml_classic_ms: 0,
                composites_ms: 0,
            }),
    {
        EcapeMapFieldsTiming {
            ecape_triplet_ms: 0,
            wind_diagnostics_ms: 0,
            ml_classic_ms: 0,
            composites_ms: 0,
        }
    }
}

/// Puts the times of the ECAPE computation together. The composites come in two
/// parts, around the classic mixed-layer parcel.
pub fn ecape_timing(
    ecape_triplet_ms: u128,
    wind_diagnostics_ms: u128,
    first_composites_ms: u128,
    ml_classic_ms: u128,
    last_composites_ms: u128,
) -> (timing: EcapeMapFieldsTiming)
    requires
        first_composites_ms + last_composites_ms <= u128::MAX,
    ensures
        timing.ecape_triplet_ms == ecape_triplet_ms,
        timing.wind_diagnostics_ms == wind_diagnostics_ms,
        timing.ml_classic_ms == ml_classic_ms,
        timing.composites_ms == first_composites_ms + last_composites_ms,
{
    EcapeMapFieldsTiming {
        ecape_triplet_ms,
        wind_diagnostics_ms,
        ml_classic_ms,
        composites_ms: first_composites_ms + last_composites_ms,
    }
}

/// A parcel whose ratios are shown.
#[derive(Debug, Clone, Copy, PartialEq, Eq, Structural)]
pub enum EcapeRatioDisplayParcel {
    Sb,
    Ml,
    Mu,
}

impl EcapeRatioDisplayParcel {
    pub open spec fn spec_slug(self) -> Seq<char> {
        match self {
            EcapeRatioDisplayParcel::Sb => "sb"@,
            EcapeRatioDisplayParcel::Ml => "ml"@,
            EcapeRatioDisplayParcel::Mu => "mu"@,
        }
    }

    pub open spec fn spec_label(self) -> Seq<char> {
        match self {
            EcapeRatioDisplayParcel::Sb => "SB"@,
            EcapeRatioDisplayParcel::Ml => "ML"@,
            EcapeRatioDisplayParcel::Mu => "MU"@,
        }
    }

    pub open spec fn spec_ecape_slug(self) -> Seq<char> {
        match self {
            EcapeRatioDisplayParcel::Sb => "sbecape"@,
            EcapeRatioDisplayParcel::Ml => "mlecape"@,
            EcapeRatioDisplayParcel::Mu => "muecape"@,
        }
    }

    pub open spec fn spec_ratio_slug(self) -> Seq<char> {
        match self {
            EcapeRatioDisplayParcel::Sb => "sb_ecape_derived_cape_ratio"@,
            EcapeRatioDisplayParcel::Ml => "ml_ecape_derived_cape_ratio"@,
            EcapeRatioDisplayParcel::Mu => "mu_ecape_derived_cape_ratio"@,
        }
    }

    fn slug(self) -> (slug: &'static str)
        ensures
            slug@ == self.spec_slug(),
    {
        match self {
            EcapeRatioDisplayParcel::Sb => "sb",
            EcapeRatioDisplayParcel::Ml => "ml",
            EcapeRatioDisplayParcel::Mu => "mu",
        }
    }

    fn label(self) -> (label: &'static str)
        ensures
            label@ == self.spec_label(),
    {
        match self {
            EcapeRatioDisplayParcel::Sb => "SB",
            EcapeRatioDisplayParcel::Ml => "ML",
            EcapeRatioDisplayParcel::Mu => "MU",
        }
    }

    fn ecape_slug(self) -> (slug: &'static str)
        ensures
            slug@ == self.spec_ecape_slug(),
    {
        match self {
            EcapeRatioDisplayParcel::Sb => "sbecape",
            EcapeRatioDisplayParcel::Ml => "mlecape",
            EcapeRatioDisplayParcel::Mu => "muecape",
        }
    }

    fn ratio_slug(self) -> (slug: &'static str)
        ensures
            slug@ == self.spec_ratio_slug(),
    {
        match self {
            EcapeRatioDisplayParcel::Sb => "sb_ecape_derived_cape_ratio",
            EcapeRatioDisplayParcel::Ml => "ml_ecape_derived_cape_ratio",
            EcapeRatioDisplayParcel::Mu => "mu_ecape_derived_cape_ratio",
        }
    }
}

/// The parcels whose ratios are shown, in order.
pub fn ratio_display_parcels() -> (parcels: [EcapeRatioDisplayParcel; 3])
    ensures
        parcels@ == seq![
            EcapeRatioDisplayParcel::Sb,
            EcapeRatioDisplayParcel::Ml,
            EcapeRatioDisplayParcel::Mu,
        ],
{
    let parcels = [
        EcapeRatioDisplayParcel::Sb,
        EcapeRatioDisplayParcel::Ml,
        EcapeRatioDisplayParcel::Mu,
    ];
    proof {
        assert(parcels@ =~= seq![
            EcapeRatioDisplayParcel::Sb,
            EcapeRatioDisplayParcel::Ml,
            EcapeRatioDisplayParcel::Mu,
        ]);
    }
    parcels
}

/// One map with a filled field and contours of a ratio over it. Both fields
/// are given by their places among the published fields.
pub struct RatioDisplayPlot {
    pub fill: usize,
    pub contours: usize,
    pub title: String,
    pub artifact_slug: String,
    pub subtitle_right: String,
    /// The name of the contoured field.
    pub contour_name: String,
}

/// The message for a field that a ratio map misses.
pub open spec fn missing_field(slug: Seq<char>) -> Seq<char> {
    "missing ECAPE field '"@ + slug + "'"@
}

/// The place of the first field with a slug.
pub fn required_panel_field<T>(fields: &Vec<WeatherPanelField<T>>, slug: &str) -> (index: Result<
    usize,
    String,
>)
    ensures
        match index {
            Ok(index) => panel::first_with_slug(fields@, slug@) == Some(index as int),
            Err(message) => panel::first_with_slug(fields@, slug@) is None && message@
                == missing_field(slug@),
        },
{
    match find_by_slug(fields, slug) {
        Some(index) => Ok(index),
        None => Err("missing ECAPE field '".to_owned().concat(slug).concat("'")),
    }
}

/// Whether the two maps are those of a parcel.
pub open spec fn plots_of<T>(
    parcel: EcapeRatioDisplayParcel,
    fields: Seq<WeatherPanelField<T>>,
    source_label: Seq<char>,
    plots: (RatioDisplayPlot, RatioDisplayPlot),
) -> bool {
    let (ratio_fill, ecape_fill) = plots;
    &&& panel::first_with_slug(fields, parcel.spec_ratio_slug()) == Some(ratio_fill.fill as int)
    &&& ratio_fill.contours == ratio_fill.fill
    &&& ratio_fill.title@ == parcel.spec_label() + " ECAPE/CAPE Ratio + Contours"@
    &&& ratio_fill.artifact_slug@ == parcel.spec_slug() + "_ratio_fill_contours"@
    &&& ratio_fill.subtitle_right@ == source_label + " | derived ratio fill"@
    &&& ratio_fill.contour_name@ == parcel.spec_ratio_slug() + "_contours"@
    &&& panel::first_with_slug(fields, parcel.spec_ecape_slug()) == Some(ecape_fill.fill as int)
    &&& ecape_fill.contours == ratio_fill.fill
    &&& ecape_fill.title@ == parcel.spec_label() + "ECAPE + Ratio Contours"@
    &&& ecape_fill.artifact_slug@ == parcel.spec_slug() + "_ecape_fill_ratio_contours"@
    &&& ecape_fill.subtitle_right@ == source_label + " | ratio ctrs .50/.75/1.00"@
    &&& ecape_fill.contour_name@ == parcel.spec_ratio_slug() + "_contours"@
}

/// Plans the two maps of a parcel: the ratio filled, and the energy filled, both
/// under contours of the ratio. The energy is asked for first.
pub fn ratio_display_plots<T>(
    parcel: EcapeRatioDisplayParcel,
    fields: &Vec<WeatherPanelField<T>>,
    source_label: &str,
) -> (plots: Result<(RatioDisplayPlot, RatioDisplayPlot), String>)
    ensures
        match plots {
            Ok(plots) => plots_of(parcel, fields@, source_label@, plots),
            Err(message) => if panel::first_with_slug(fields@, parcel.spec_ecape_slug()) is None {
                message@ == missing_field(parcel.spec_ecape_slug())
            } else {
                &&& panel::first_with_slug(fields@, parcel.spec_ratio_slug()) is None
                &&& message@ == missing_field(parcel.spec_ratio_slug())
            },
        },
{
    let ecape: usize = match required_panel_field(fields, parcel.ecape_slug()) {
        Ok(index) => index,
        Err(message) => {
            return Err(message);
        },
    };
    let ratio: usize = match required_panel_field(fields, parcel.ratio_slug()) {
        Ok(index) => index,
        Err(message) => {
            return Err(message);
        },
    };
    proof {
        panel::lemma_first_with_slug(fields@, parcel.spec_ratio_slug());
    }
    let contour_name = fields[ratio].artifact_slug().to_owned().concat("_contours");
    let ratio_fill = RatioDisplayPlot {
        fill: ratio,
        contours: ratio,
        title: parcel.label().to_owned().concat(" ECAPE/CAPE Ratio + Contours"),
        artifact_slug: parcel.slug().to_owned().concat("_ratio_fill_contours"),
        subtitle_right: source_label.to_owned().concat(" | derived ratio fill"),
        contour_name: contour_name.clone(),
    };
    let ecape_fill = RatioDisplayPlot {
        fill: ecape,
        contours: ratio,
        title: parcel.label().to_owned().concat("ECAPE + Ratio Contours"),
        artifact_slug: parcel.slug().to_owned().concat("_ecape_fill_ratio_contours"),
        subtitle_right: source_label.to_owned().concat(" | ratio ctrs .50/.75/1.00"),
        contour_name,
    };
    Ok((ratio_fill, ecape_fill))
}

/// The message for a run whose surface and pressure analyses are not both there.
pub fn pair_unavailable(what: &str, err: &str) -> (message: String)
    ensures
        message@ == what@ + " surface/pressure pair unavailable: "@ + err@,
{
    what.to_owned().concat(" surface/pressure pair unavailable: ").concat(err)
}

} // verus!
