//! Folding what the kernels computed into the derived fields.
use crate::derived::fields::DerivedComputedFields;
use crate::derived::kernels;
use crate::derived::kernels::{missing_dependency, DerivedKernel};
use crate::derived::recipes::DerivedRecipe;
use crate::derived::requirements;
use crate::derived::requirements::DerivedRequirements;
use vstd::prelude::*;
use vstd::slice::slice_to_vec;

verus! {

/// What the kernel of one parcel computes.
pub struct CapeCinOutputs<T> {
    pub cape_jkg: Vec<T>,
    pub cin_jkg: Vec<T>,
    pub lcl_m: Vec<T>,
}

/// What the surface kernel computes.
pub struct SurfaceThermoOutputs<T> {
    pub theta_e_2m_k: Vec<T>,
    pub vpd_2m_hpa: Vec<T>,
    pub dewpoint_depression_2m_c: Vec<T>,
    pub wetbulb_2m_c: Vec<T>,
    pub fire_weather_composite: Vec<T>,
    pub apparent_temperature_2m_c: Vec<T>,
    pub heat_index_2m_c: Vec<T>,
    pub wind_chill_2m_c: Vec<T>,
}

/// What the parcel kernels computed.
pub struct ParcelOutputs<T> {
    pub sb: Option<CapeCinOutputs<T>>,
    pub ml: Option<CapeCinOutputs<T>>,
    pub mu: Option<CapeCinOutputs<T>>,
}

/// What the kernels beside the parcel kernels computed. Shears are in m/s.
pub struct IndependentOutputs<T> {
    pub dcape_jkg: Option<Vec<T>>,
    pub surface_thermo: Option<SurfaceThermoOutputs<T>>,
    pub lifted_index_c: Option<Vec<T>>,
    pub lapse_rate_700_500_cpkm: Option<Vec<T>>,
    pub lapse_rate_0_3km_cpkm: Option<Vec<T>>,
    pub shear_01km_ms: Option<Vec<T>>,
    pub shear_06km_ms: Option<Vec<T>>,
    pub srh_01km_m2s2: Option<Vec<T>>,
    pub srh_03km_m2s2: Option<Vec<T>>,
    pub temperature_advection_700mb_cph: Option<Vec<T>>,
    pub temperature_advection_850mb_cph: Option<Vec<T>>,
}

/// What the composite kernels computed.
pub struct CompositeOutputs<T> {
    pub ehi_01km: Option<Vec<T>>,
    pub ehi_03km: Option<Vec<T>>,
    pub stp_fixed: Option<Vec<T>>,
    pub scp_mu_03km_06km_proxy: Option<Vec<T>>,
}

/// The fields of the wind kernels beside those of the other kernels.
pub open spec fn with_winds<T>(
    outputs: IndependentOutputs<T>,
    winds: IndependentOutputs<T>,
) -> IndependentOutputs<T> {
    IndependentOutputs {
        shear_01km_ms: winds.shear_01km_ms,
        shear_06km_ms: winds.shear_06km_ms,
        srh_01km_m2s2: winds.srh_01km_m2s2,
        srh_03km_m2s2: winds.srh_03km_m2s2,
        temperature_advection_700mb_cph: winds.temperature_advection_700mb_cph,
        temperature_advection_850mb_cph: winds.temperature_advection_850mb_cph,
        ..outputs
    }
}

/// Puts the fields of the wind kernels beside those of the other kernels.
pub fn join_wind_outputs<T>(
    outputs: IndependentOutputs<T>,
    winds: IndependentOutputs<T>,
) -> (joined: IndependentOutputs<T>)
    ensures
        joined == with_winds(outputs, winds),
{
    IndependentOutputs {
        dcape_jkg: outputs.dcape_jkg,
        surface_thermo: outputs.surface_thermo,
        lifted_index_c: outputs.lifted_index_c,
        lapse_rate_700_500_cpkm: outputs.lapse_rate_700_500_cpkm,
        lapse_rate_0_3km_cpkm: outputs.lapse_rate_0_3km_cpkm,
        shear_01km_ms: winds.shear_01km_ms,
        shear_06km_ms: winds.shear_06km_ms,
        srh_01km_m2s2: winds.srh_01km_m2s2,
        srh_03km_m2s2: winds.srh_03km_m2s2,
        temperature_advection_700mb_cph: winds.temperature_advection_700mb_cph,
        temperature_advection_850mb_cph: winds.temperature_advection_850mb_cph,
    }
}

/// The wind volumes, taken out of the pressure fields.
pub struct TakenWindVolumes<T> {
    pub u_ms_3d: Vec<T>,
    pub v_ms_3d: Vec<T>,
}

/// The wind volumes, where they are kept.
pub open spec fn winds_kept<T>(winds: TakenWindVolumes<T>, keep_winds: bool) -> Option<
    TakenWindVolumes<T>,
> {
    if keep_winds {
        Some(winds)
    } else {
        None
    }
}

/// Gives the wind volumes back, or up, once the wind kernels have run.
pub fn release_winds<T>(winds: TakenWindVolumes<T>, keep_winds: bool) -> (kept: Option<
    TakenWindVolumes<T>,
>)
    ensures
        kept == winds_kept(winds, keep_winds),
{
    if keep_winds {
        Some(winds)
    } else {
        None
    }
}

/// What is first missing of the fields that a composite combines.
pub open spec fn composite_gap<T>(
    kernel: DerivedKernel,
    parcels: ParcelOutputs<T>,
    outputs: IndependentOutputs<T>,
) -> Option<Seq<char>> {
    match kernel {
        DerivedKernel::Ehi01km => if parcels.sb is None {
            Some("surface-based CAPE/CIN outputs for EHI 0-1 km"@)
        } else if outputs.srh_01km_m2s2 is None {
            Some("0-1 km SRH for EHI 0-1 km"@)
        } else {
            None
        },
        DerivedKernel::Ehi03km => if parcels.sb is None {
            Some("surface-based CAPE/CIN outputs for EHI 0-3 km"@)
        } else if outputs.srh_03km_m2s2 is None {
            Some("0-3 km SRH for EHI 0-3 km"@)
        } else {
            None
        },
        DerivedKernel::StpFixed => if parcels.sb is None {
            Some("surface-based CAPE/CIN outputs for STP fixed"@)
        } else if outputs.srh_01km_m2s2 is None {
            Some("0-1 km SRH for STP fixed"@)
        } else if outputs.shear_06km_ms is None {
            Some("0-6 km shear for STP fixed"@)
        } else {
            None
        },
        DerivedKernel::ScpMu03km06kmProxy => if parcels.mu is None {
            Some("most-unstable CAPE/CIN outputs for SCP proxy"@)
        } else if outputs.srh_03km_m2s2 is None {
            Some("0-3 km SRH for SCP proxy"@)
        } else if outputs.shear_06km_ms is None {
            Some("0-6 km shear for SCP proxy"@)
        } else {
            None
        },
        _ => None,
    }
}

/// The fields that a composite combines.
pub struct CompositeInputs<'a, T> {
    /// The convective available potential energy of the parcel.
    pub cape_jkg: &'a Vec<T>,
    /// The parcel's condensation level, where the composite reads it.
    pub lcl_m: Option<&'a Vec<T>>,
    pub srh_m2s2: &'a Vec<T>,
    /// The shear in m/s, where the composite reads it.
    pub shear_ms: Option<&'a Vec<T>>,
}

/// Whether the inputs are those of a composite.
pub open spec fn inputs_of<T>(
    kernel: DerivedKernel,
    inputs: CompositeInputs<T>,
    parcels: ParcelOutputs<T>,
    outputs: IndependentOutputs<T>,
) -> bool {
    match kernel {
        DerivedKernel::Ehi01km => {
            &&& *inputs.cape_jkg == parcels.sb->Some_0.cape_jkg
            &&& inputs.lcl_m is None
            &&& *inputs.srh_m2s2 == outputs.srh_01km_m2s2->Some_0
            &&& inputs.shear_ms is None
        },
        DerivedKernel::Ehi03km => {
            &&& *inputs.cape_jkg == parcels.sb->Some_0.cape_jkg
            &&& inputs.lcl_m is None
            &&& *inputs.srh_m2s2 == outputs.srh_03km_m2s2->Some_0
            &&& inputs.shear_ms is None
        },
        DerivedKernel::StpFixed => {
            &&& *inputs.cape_jkg == parcels.sb->Some_0.cape_jkg
            &&& inputs.lcl_m == Some(&parcels.sb->Some_0.lcl_m)
            &&& *inputs.srh_m2s2 == outputs.srh_01km_m2s2->Some_0
            &&& inputs.shear_ms == Some(&outputs.shear_06km_ms->Some_0)
        },
        DerivedKernel::ScpMu03km06kmProxy => {
            &&& *inputs.cape_jkg == parcels.mu->Some_0.cape_jkg
            &&& inputs.lcl_m is None
            &&& *inputs.srh_m2s2 == outputs.srh_03km_m2s2->Some_0
            &&& inputs.shear_ms == Some(&outputs.shear_06km_ms->Some_0)
        },
        _ => false,
    }
}

/// Collects the fields that a composite combines.
pub fn composite_inputs<'a, T>(
    kernel: DerivedKernel,
    parcels: &'a ParcelOutputs<T>,
    outputs: &'a IndependentOutputs<T>,
) -> (inputs: Result<CompositeInputs<'a, T>, String>)
    requires
        kernel.is_composite(),
    ensures
        match composite_gap(kernel, *parcels, *outputs) {
            Some(name) => inputs is Err && inputs->Err_0@ == kernels::missing_message(name),
            None => inputs is Ok && inputs_of(kernel, inputs->Ok_0, *parcels, *outputs),
        },
        kernel is ScpMu03km06kmProxy ==> (inputs matches Ok(inputs) ==> {
            &&& parcels.mu is Some
            &&& parcels.mu->Some_0.cape_jkg == *inputs.cape_jkg
            &&& inputs.lcl_m is None
            &&& outputs.srh_03km_m2s2 == Some(*inputs.srh_m2s2)
            &&& inputs.shear_ms is Some
            &&& outputs.shear_06km_ms == Some(*inputs.shear_ms->Some_0)
        }),
        kernel is StpFixed ==> (inputs matches Ok(inputs) ==> {
            &&& parcels.sb is Some
            &&& parcels.sb->Some_0.cape_jkg == *inputs.cape_jkg
            &&& inputs.lcl_m is Some
            &&& *inputs.lcl_m->Some_0 == parcels.sb->Some_0.lcl_m
            &&& outputs.srh_01km_m2s2 == Some(*inputs.srh_m2s2)
            &&& inputs.shear_ms is Some
            &&& outputs.shear_06km_ms == Some(*inputs.shear_ms->Some_0)
        }),
        kernel is Ehi01km ==> (inputs matches Ok(inputs) ==> {
            &&& parcels.sb is Some
            &&& parcels.sb->Some_0.cape_jkg == *inputs.cape_jkg
            &&& outputs.srh_01km_m2s2 == Some(*inputs.srh_m2s2)
            &&& inputs.lcl_m is None
            &&& inputs.shear_ms is None
        }),
        kernel is Ehi03km ==> (inputs matches Ok(inputs) ==> {
            &&& parcels.sb is Some
            &&& parcels.sb->Some_0.cape_jkg == *inputs.cape_jkg
            &&& outputs.srh_03km_m2s2 == Some(*inputs.srh_m2s2)
            &&& inputs.lcl_m is None
            &&& inputs.shear_ms is None
        }),
{
    match kernel {
        DerivedKernel::Ehi01km => {
            let sb = match &parcels.sb {
                Some(sb) => sb,
                None => {
                    return Err(
                        missing_dependency("surface-based CAPE/CIN outputs for EHI 0-1 km"),
                    );
                },
            };
            match &outputs.srh_01km_m2s2 {
                Some(srh) => Ok(
                    CompositeInputs {
                        cape_jkg: &sb.cape_jkg,
                        lcl_m: None,
                        srh_m2s2: srh,
                        shear_ms: None,
                    },
                ),
                None => Err(missing_dependency("0-1 km SRH for EHI 0-1 km")),
            }
        },
        DerivedKernel::Ehi03km => {
            let sb = match &parcels.sb {
                Some(sb) => sb,
                None => {
                    return Err(
                        missing_dependency("surface-based CAPE/CIN outputs for EHI 0-3 km"),
                    );
                },
            };
            match &outputs.srh_03km_m2s2 {
                Some(srh) => Ok(
                    CompositeInputs {
                        cape_jkg: &sb.cape_jkg,
                        lcl_m: None,
                        srh_m2s2: srh,
                        shear_ms: None,
                    },
                ),
                None => Err(missing_dependency("0-3 km SRH for EHI 0-3 km")),
            }
        },
        DerivedKernel::StpFixed => {
            let sb = match &parcels.sb {
                Some(sb) => sb,
                None => {
                    return Err(
                        missing_dependency("surface-based CAPE/CIN outputs for STP fixed"),
                    );
                },
            };
            let srh = match &outputs.srh_01km_m2s2 {
                Some(srh) => srh,
                None => {
                    return Err(missing_dependency("0-1 km SRH for STP fixed"));
                },
            };
            match &outputs.shear_06km_ms {
                Some(shear) => Ok(
                    CompositeInputs {
                        cape_jkg: &sb.cape_jkg,
                        lcl_m: Some(&sb.lcl_m),
                        srh_m2s2: srh,
                        shear_ms: Some(shear),
                    },
                ),
                None => Err(missing_dependency("0-6 km shear for STP fixed")),
            }
        },
        _ => {
            let mu = match &parcels.mu {
                Some(mu) => mu,
                None => {
                    return Err(
                        missing_dependency("most-unstable CAPE/CIN outputs for SCP proxy"),
                    );
                },
            };
            let srh = match &outputs.srh_03km_m2s2 {
                Some(srh) => srh,
                None => {
                    return Err(missing_dependency("0-3 km SRH for SCP proxy"));
                },
            };
            match &outputs.shear_06km_ms {
                Some(shear) => Ok(
                    CompositeInputs {
                        cape_jkg: &mu.cape_jkg,
                        lcl_m: None,
                        srh_m2s2: srh,
                        shear_ms: Some(shear),
                    },
                ),
                None => Err(missing_dependency("0-6 km shear for SCP proxy")),
            }
        },
    }
}

/// Whether each value was converted from the value at its place.
pub open spec fn converted<T, F: Fn(T) -> T>(
    before: Option<Vec<T>>,
    after: Option<Vec<T>>,
    convert: F,
) -> bool {
    match (before, after) {
        (Some(before), Some(after)) => {
            &&& after@.len() == before@.len()
            &&& forall|i: int|
                0 <= i < before@.len() ==> call_ensures(
                    convert,
                    (before@[i],),
                    #[trigger] after@[i],
                )
        },
        (None, None) => true,
        _ => false,
    }
}

fn convert_values<T: Copy, F: Fn(T) -> T>(before: Option<Vec<T>>, convert: &F) -> (after: Option<
    Vec<T>,
>)
    requires
        forall|value: T| #[trigger] call_requires(*convert, (value,)),
    ensures
        converted(before, after, *convert),
{
    match before {
        None => None,
        Some(before) => {
            let mut after: Vec<T> = Vec::new();
            let mut i: usize = 0;
            while i < before.len()
                invariant
                    i <= before@.len(),
                    after@.len() == i,
                    forall|value: T| #[trigger] call_requires(*convert, (value,)),
                    forall|k: int|
                        0 <= k < i ==> call_ensures(*convert, (before@[k],), #[trigger] after@[k]),
                decreases before@.len() - i,
            {
                let value = convert(before[i]);
                after.push(value);
                i = i + 1;
            }
            Some(after)
        },
    }
}

/// A field, kept only where a recipe asks for it.
pub open spec fn kept_for<T>(wanted: bool, values: Vec<T>) -> Option<Vec<T>> {
    if wanted {
        Some(values)
    } else {
        None
    }
}

/// The surface fields that the recipes ask for.
pub open spec fn surface_slots<T>(
    computed: DerivedComputedFields<T>,
    recipes: Seq<DerivedRecipe>,
    thermo: Option<SurfaceThermoOutputs<T>>,
) -> bool {
    match thermo {
        Some(thermo) => {
            &&& computed.theta_e_2m_k == kept_for(
                recipes.contains(DerivedRecipe::ThetaE2m10mWinds),
                thermo.theta_e_2m_k,
            )
            &&& computed.vpd_2m_hpa == kept_for(
                recipes.contains(DerivedRecipe::Vpd2m),
                thermo.vpd_2m_hpa,
            )
            &&& computed.dewpoint_depression_2m_c == kept_for(
                recipes.contains(DerivedRecipe::DewpointDepression2m),
                thermo.dewpoint_depression_2m_c,
            )
            &&& computed.wetbulb_2m_c == kept_for(
                recipes.contains(DerivedRecipe::Wetbulb2m),
                thermo.wetbulb_2m_c,
            )
            &&& computed.fire_weather_composite == kept_for(
                recipes.contains(DerivedRecipe::FireWeatherComposite),
                thermo.fire_weather_composite,
            )
            &&& computed.apparent_temperature_2m_c == kept_for(
                recipes.contains(DerivedRecipe::ApparentTemperature2m),
                thermo.apparent_temperature_2m_c,
            )
            &&& computed.heat_index_2m_c == kept_for(
                recipes.contains(DerivedRecipe::HeatIndex2m),
                thermo.heat_index_2m_c,
            )
            &&& computed.wind_chill_2m_c == kept_for(
                recipes.contains(DerivedRecipe::WindChill2m),
                thermo.wind_chill_2m_c,
            )
        },
        None => {
            &&& computed.theta_e_2m_k is None
            &&& computed.vpd_2m_hpa is None
            &&& computed.dewpoint_depression_2m_c is None
            &&& computed.wetbulb_2m_c is None
            &&& computed.fire_weather_composite is None
            &&& computed.apparent_temperature_2m_c is None
            &&& computed.heat_index_2m_c is None
            &&& computed.wind_chill_2m_c is None
        },
    }
}

/// The 10 m winds, kept for the recipe that draws them.
pub open spec fn surface_wind_slots<T>(
    computed: DerivedComputedFields<T>,
    recipes: Seq<DerivedRecipe>,
    thermo: Option<SurfaceThermoOutputs<T>>,
    u10: Seq<T>,
    v10: Seq<T>,
) -> bool {
    if thermo is Some && recipes.contains(DerivedRecipe::ThetaE2m10mWinds) {
        &&& computed.surface_u10_ms is Some
        &&& computed.surface_u10_ms->Some_0@ == u10
        &&& computed.surface_v10_ms is Some
        &&& computed.surface_v10_ms->Some_0@ == v10
    } else {
        &&& computed.surface_u10_ms is None
        &&& computed.surface_v10_ms is None
    }
}

/// The parcel fields.
pub open spec fn parcel_slots<T>(
    computed: DerivedComputedFields<T>,
    parcels: ParcelOutputs<T>,
) -> bool {
    &&& match parcels.sb {
        Some(sb) => {
            &&& computed.sbcape_jkg == Some(sb.cape_jkg)
            &&& computed.sbcin_jkg == Some(sb.cin_jkg)
            &&& computed.sblcl_m == Some(sb.lcl_m)
        },
        None => {
            &&& computed.sbcape_jkg is None
            &&& computed.sbcin_jkg is None
            &&& computed.sblcl_m is None
        },
    }
    &&& match parcels.ml {
        Some(ml) => {
            &&& computed.mlcape_jkg == Some(ml.cape_jkg)
            &&& computed.mlcin_jkg == Some(ml.cin_jkg)
        },
        None => {
            &&& computed.mlcape_jkg is None
            &&& computed.mlcin_jkg is None
        },
    }
    &&& match parcels.mu {
        Some(mu) => {
            &&& computed.mucape_jkg == Some(mu.cape_jkg)
            &&& computed.mucin_jkg == Some(mu.cin_jkg)
        },
        None => {
            &&& computed.mucape_jkg is None
            &&& computed.mucin_jkg is None
        },
    }
}

/// The fields that are taken over as they are.
pub open spec fn moved_slots<T>(
    computed: DerivedComputedFields<T>,
    outputs: IndependentOutputs<T>,
    composites: CompositeOutputs<T>,
) -> bool {
    &&& computed.dcape_jkg == outputs.dcape_jkg
    &&& computed.lifted_index_c == outputs.lifted_index_c
    &&& computed.lapse_rate_700_500_cpkm == outputs.lapse_rate_700_500_cpkm
    &&& computed.lapse_rate_0_3km_cpkm == outputs.lapse_rate_0_3km_cpkm
    &&& computed.srh_01km_m2s2 == outputs.srh_01km_m2s2
    &&& computed.srh_03km_m2s2 == outputs.srh_03km_m2s2
    &&& computed.temperature_advection_700mb_cph == outputs.temperature_advection_700mb_cph
    &&& computed.temperature_advection_850mb_cph == outputs.temperature_advection_850mb_cph
    &&& computed.ehi_01km == composites.ehi_01km
    &&& computed.ehi_03km == composites.ehi_03km
    &&& computed.stp_fixed == composites.stp_fixed
    &&& computed.scp_mu_03km_06km_proxy == composites.scp_mu_03km_06km_proxy
}

/// Whether the computed fields are those that the kernels' fields give.
pub open spec fn assembled<T, F: Fn(T) -> T>(
    computed: DerivedComputedFields<T>,
    recipes: Seq<DerivedRecipe>,
    winds_10m: (Seq<T>, Seq<T>),
    parcels: ParcelOutputs<T>,
    outputs: IndependentOutputs<T>,
    composites: CompositeOutputs<T>,
    to_knots: F,
) -> bool {
    &&& surface_slots(computed, recipes, outputs.surface_thermo)
    &&& surface_wind_slots(computed, recipes, outputs.surface_thermo, winds_10m.0, winds_10m.1)
    &&& parcel_slots(computed, parcels)
    &&& moved_slots(computed, outputs, composites)
    &&& converted(outputs.shear_01km_ms, computed.shear_01km_kt, to_knots)
    &&& converted(outputs.shear_06km_ms, computed.shear_06km_kt, to_knots)
}

fn has_recipe(recipes: &[DerivedRecipe], recipe: DerivedRecipe) -> (found: bool)
    ensures
        found == recipes@.contains(recipe),
{
    let mut i: usize = 0;
    while i < recipes.len()
        invariant
            i <= recipes@.len(),
            forall|k: int| 0 <= k < i ==> recipes@[k] != recipe,
        decreases recipes@.len() - i,
    {
        if recipes[i] == recipe {
            return true;
        }
        i = i + 1;
    }
    false
}

fn keep_for<T>(wanted: bool, values: Vec<T>) -> (kept: Option<Vec<T>>)
    ensures
        kept == kept_for(wanted, values),
{
    if wanted {
        Some(values)
    } else {
        None
    }
}

/// Folds what the kernels computed into the derived fields. Surface fields are
/// kept only where a recipe asks for them, shears are converted to knots value
/// by value, and all other fields are taken over as they are.
pub fn assemble_derived_outputs<T: Copy, F: Fn(T) -> T>(
    recipes: &[DerivedRecipe],
    winds_10m: (&[T], &[T]),
    parcels: ParcelOutputs<T>,
    outputs: IndependentOutputs<T>,
    composites: CompositeOutputs<T>,
    to_knots: &F,
) -> (computed: DerivedComputedFields<T>)
    requires
        forall|value: T| #[trigger] call_requires(*to_knots, (value,)),
    ensures
        assembled(
            computed,
            recipes@,
            (winds_10m.0@, winds_10m.1@),
            parcels,
            outputs,
            composites,
            *to_knots,
        ),
{
    let mut computed: DerivedComputedFields<T> = DerivedComputedFields::empty();
    let theta_e = has_recipe(recipes, DerivedRecipe::ThetaE2m10mWinds);
    if let Some(thermo) = outputs.surface_thermo {
        computed.theta_e_2m_k = keep_for(theta_e, thermo.theta_e_2m_k);
        if theta_e {
            computed.surface_u10_ms = Some(slice_to_vec(winds_10m.0));
            computed.surface_v10_ms = Some(slice_to_vec(winds_10m.1));
        }
        computed.vpd_2m_hpa =
        keep_for(has_recipe(recipes, DerivedRecipe::Vpd2m), thermo.vpd_2m_hpa);
        computed.dewpoint_depression_2m_c =
        keep_for(
            has_recipe(recipes, DerivedRecipe::DewpointDepression2m),
            thermo.dewpoint_depression_2m_c,
        );
        computed.wetbulb_2m_c =
        keep_for(has_recipe(recipes, DerivedRecipe::Wetbulb2m), thermo.wetbulb_2m_c);
        computed.fire_weather_composite =
        keep_for(
            has_recipe(recipes, DerivedRecipe::FireWeatherComposite),
            thermo.fire_weather_composite,
        );
        computed.apparent_temperature_2m_c =
        keep_for(
            has_recipe(recipes, DerivedRecipe::ApparentTemperature2m),
            thermo.apparent_temperature_2m_c,
        );
        computed.heat_index_2m_c =
        keep_for(has_recipe(recipes, DerivedRecipe::HeatIndex2m), thermo.heat_index_2m_c);
        computed.wind_chill_2m_c =
        keep_for(has_recipe(recipes, DerivedRecipe::WindChill2m), thermo.wind_chill_2m_c);
    }
    if let Some(sb) = parcels.sb {
        computed.sbcape_jkg = Some(sb.cape_jkg);
        computed.sbcin_jkg = Some(sb.cin_jkg);
        computed.sblcl_m = Some(sb.lcl_m);
    }
    if let Some(ml) = parcels.ml {
        computed.mlcape_jkg = Some(ml.cape_jkg);
        computed.mlcin_jkg = Some(ml.cin_jkg);
    }
    if let Some(mu) = parcels.mu {
        computed.mucape_jkg = Some(mu.cape_jkg);
        computed.mucin_jkg = Some(mu.cin_jkg);
    }
    computed.dcape_jkg = outputs.dcape_jkg;
    computed.lifted_index_c = outputs.lifted_index_c;
    computed.lapse_rate_700_500_cpkm = outputs.lapse_rate_700_500_cpkm;
    computed.lapse_rate_0_3km_cpkm = outputs.lapse_rate_0_3km_cpkm;
    computed.temperature_advection_700mb_cph = outputs.temperature_advection_700mb_cph;
    computed.temperature_advection_850mb_cph = outputs.temperature_advection_850mb_cph;
    computed.shear_01km_kt = convert_values(outputs.shear_01km_ms, to_knots);
    computed.shear_06km_kt = convert_values(outputs.shear_06km_ms, to_knots);
    computed.srh_01km_m2s2 = outputs.srh_01km_m2s2;
    computed.srh_03km_m2s2 = outputs.srh_03km_m2s2;
    computed.ehi_01km = composites.ehi_01km;
    computed.ehi_03km = composites.ehi_03km;
    computed.stp_fixed = composites.stp_fixed;
    computed.scp_mu_03km_06km_proxy = composites.scp_mu_03km_06km_proxy;
    computed
}

/// Whether the kernels' fields are exactly those of the kernels that run for a
/// set of needs.
pub open spec fn complete<T>(
    needs: DerivedRequirements,
    parcels: ParcelOutputs<T>,
    outputs: IndependentOutputs<T>,
    composites: CompositeOutputs<T>,
) -> bool {
    &&& (parcels.sb is Some) == needs.sb
    &&& (parcels.ml is Some) == needs.ml
    &&& (parcels.mu is Some) == needs.mu
    &&& (outputs.dcape_jkg is Some) == needs.dcape
    &&& (outputs.surface_thermo is Some) == needs.surface_thermo
    &&& (outputs.lifted_index_c is Some) == needs.lifted_index
    &&& (outputs.lapse_rate_700_500_cpkm is Some) == needs.lapse_rate_700_500
    &&& (outputs.lapse_rate_0_3km_cpkm is Some) == needs.lapse_rate_0_3km
    &&& (outputs.shear_01km_ms is Some) == needs.shear_01km
    &&& (outputs.shear_06km_ms is Some) == needs.shear_06km
    &&& (outputs.srh_01km_m2s2 is Some) == needs.srh_01km
    &&& (outputs.srh_03km_m2s2 is Some) == needs.srh_03km
    &&& (outputs.temperature_advection_700mb_cph is Some) == needs.temperature_advection_700mb
    &&& (outputs.temperature_advection_850mb_cph is Some) == needs.temperature_advection_850mb
    &&& (composites.ehi_01km is Some) == needs.ehi_01km
    &&& (composites.ehi_03km is Some) == needs.ehi_03km
    &&& (composites.stp_fixed is Some) == needs.stp_fixed
    &&& (composites.scp_mu_03km_06km_proxy is Some) == needs.scp_mu_03km_06km_proxy
}

/// Once every kernel that runs for a list of recipes has computed its fields,
/// no composite misses a field.
pub proof fn law_composites_find_their_fields<T>(
    recipes: Seq<DerivedRecipe>,
    parcels: ParcelOutputs<T>,
    outputs: IndependentOutputs<T>,
    composites: CompositeOutputs<T>,
    kernel: DerivedKernel,
)
    requires
        complete(requirements::need_of_all(recipes), parcels, outputs, composites),
        kernel.is_composite(),
        kernel.runs_for(requirements::need_of_all(recipes)),
    ensures
        composite_gap(kernel, parcels, outputs) is None,
{
    requirements::law_composites_bring_their_inputs(recipes);
}

/// What a composite combines are fields that the same computation publishes: the energy
/// of the supercell composite is the one shown as MUCAPE, that of the other composites the
/// one shown as SBCAPE, and the tornado composite reads the condensation level shown as
/// SBLCL. Helicities are those of the layer in the composite's name, and a shear that is
/// read is the one that is shown in knots.
pub proof fn law_composites_combine_published_fields<T, F: Fn(T) -> T>(
    computed: DerivedComputedFields<T>,
    recipes: Seq<DerivedRecipe>,
    winds_10m: (Seq<T>, Seq<T>),
    parcels: ParcelOutputs<T>,
    outputs: IndependentOutputs<T>,
    composites: CompositeOutputs<T>,
    to_knots: F,
    kernel: DerivedKernel,
    inputs: CompositeInputs<T>,
)
    requires
        kernel.is_composite(),
        composite_gap(kernel, parcels, outputs) is None,
        inputs_of(kernel, inputs, parcels, outputs),
        assembled(computed, recipes, winds_10m, parcels, outputs, composites, to_knots),
    ensures
        kernel is ScpMu03km06kmProxy ==> {
            &&& computed.slot(DerivedRecipe::Mucape) == Some(*inputs.cape_jkg)
            &&& computed.slot(DerivedRecipe::Srh03km) == Some(*inputs.srh_m2s2)
            &&& inputs.lcl_m is None
            &&& inputs.shear_ms is Some
            &&& shown_in_knots(
                *inputs.shear_ms->Some_0,
                computed.slot(DerivedRecipe::BulkShear06km),
                to_knots,
            )
        },
        kernel is StpFixed ==> {
            &&& computed.slot(DerivedRecipe::Sbcape) == Some(*inputs.cape_jkg)
            &&& inputs.lcl_m is Some
            &&& computed.slot(DerivedRecipe::Sblcl) == Some(*inputs.lcl_m->Some_0)
            &&& computed.slot(DerivedRecipe::Srh01km) == Some(*inputs.srh_m2s2)
            &&& inputs.shear_ms is Some
            &&& shown_in_knots(
                *inputs.shear_ms->Some_0,
                computed.slot(DerivedRecipe::BulkShear06km),
                to_knots,
            )
        },
        kernel is Ehi01km ==> {
            &&& computed.slot(DerivedRecipe::Sbcape) == Some(*inputs.cape_jkg)
            &&& computed.slot(DerivedRecipe::Srh01km) == Some(*inputs.srh_m2s2)
            &&& inputs.lcl_m is None
            &&& inputs.shear_ms is None
        },
        kernel is Ehi03km ==> {
            &&& computed.slot(DerivedRecipe::Sbcape) == Some(*inputs.cape_jkg)
            &&& computed.slot(DerivedRecipe::Srh03km) == Some(*inputs.srh_m2s2)
            &&& inputs.lcl_m is None
            &&& inputs.shear_ms is None
        },
{
}

/// Whether a field in m/s is shown in knots, value by value.
pub open spec fn shown_in_knots<T, F: Fn(T) -> T>(
    speeds_ms: Vec<T>,
    shown: Option<Vec<T>>,
    to_knots: F,
) -> bool {
    &&& shown is Some
    &&& shown->Some_0@.len() == speeds_ms@.len()
    &&& forall|i: int|
        0 <= i < speeds_ms@.len() ==> call_ensures(
            to_knots,
            (speeds_ms@[i],),
            #[trigger] shown->Some_0@[i],
        )
}

/// Once every kernel that runs for a list of recipes has computed its fields,
/// each recipe of the list that is not heavy has its field.
pub proof fn law_every_recipe_is_realized<T, F: Fn(T) -> T>(
    computed: DerivedComputedFields<T>,
    recipes: Seq<DerivedRecipe>,
    winds_10m: (Seq<T>, Seq<T>),
    parcels: ParcelOutputs<T>,
    outputs: IndependentOutputs<T>,
    composites: CompositeOutputs<T>,
    to_knots: F,
    recipe: DerivedRecipe,
)
    requires
        complete(requirements::need_of_all(recipes), parcels, outputs, composites),
        assembled(computed, recipes, winds_10m, parcels, outputs, composites, to_knots),
        recipes.contains(recipe),
        !recipe.spec_is_heavy(),
    ensures
        computed.slot(recipe) is Some,
{
    lemma_need_is_covered(recipes, recipe);
    reveal(requirements::need_of);
}

/// A list of recipes needs whatever one of its recipes needs.
pub proof fn lemma_need_is_covered(recipes: Seq<DerivedRecipe>, recipe: DerivedRecipe)
    requires
        recipes.contains(recipe),
    ensures
        requirements::covers(
            requirements::need_of_all(recipes),
            requirements::need_of(recipe),
        ),
    decreases recipes.len(),
{
    reveal(requirements::either_need);
    let rest = recipes.drop_last();
    if recipes.last() != recipe {
        let i = choose|i: int| 0 <= i < recipes.len() && recipes[i] == recipe;
        assert(rest[i] == recipe);
        lemma_need_is_covered(rest, recipe);
    }
}

} // verus!
