//! The fields computed for derived recipes, and the slot that each recipe has
//! among them.
use crate::derived::recipes::DerivedRecipe;
use vstd::prelude::*;
use vstd::slice::slice_to_vec;
use vstd::string::*;

verus! {

/// The computed fields, as far as they have been computed. Values are of any
/// type that can be copied.
pub struct DerivedComputedFields<T> {
    pub sbcape_jkg: Option<Vec<T>>,
    pub sbcin_jkg: Option<Vec<T>>,
    pub sblcl_m: Option<Vec<T>>,
    pub mlcape_jkg: Option<Vec<T>>,
    pub mlcin_jkg: Option<Vec<T>>,
    pub mucape_jkg: Option<Vec<T>>,
    pub mucin_jkg: Option<Vec<T>>,
    pub dcape_jkg: Option<Vec<T>>,
    pub theta_e_2m_k: Option<Vec<T>>,
    pub vpd_2m_hpa: Option<Vec<T>>,
    pub dewpoint_depression_2m_c: Option<Vec<T>>,
    pub wetbulb_2m_c: Option<Vec<T>>,
    pub fire_weather_composite: Option<Vec<T>>,
    pub apparent_temperature_2m_c: Option<Vec<T>>,
    pub heat_index_2m_c: Option<Vec<T>>,
    pub wind_chill_2m_c: Option<Vec<T>>,
    pub surface_u10_ms: Option<Vec<T>>,
    pub surface_v10_ms: Option<Vec<T>>,
    pub lifted_index_c: Option<Vec<T>>,
    pub lapse_rate_700_500_cpkm: Option<Vec<T>>,
    pub lapse_rate_0_3km_cpkm: Option<Vec<T>>,
    pub shear_01km_kt: Option<Vec<T>>,
    pub shear_06km_kt: Option<Vec<T>>,
    pub srh_01km_m2s2: Option<Vec<T>>,
    pub srh_03km_m2s2: Option<Vec<T>>,
    pub ehi_01km: Option<Vec<T>>,
    pub ehi_03km: Option<Vec<T>>,
    pub stp_fixed: Option<Vec<T>>,
    pub scp_mu_03km_06km_proxy: Option<Vec<T>>,
    pub temperature_advection_700mb_cph: Option<Vec<T>>,
    pub temperature_advection_850mb_cph: Option<Vec<T>>,
}

/// A computed field as a mathematical value.
pub open spec fn field_view<T>(field: Option<Vec<T>>) -> Option<Seq<T>> {
    match field {
        Some(values) => Some(values@),
        None => None,
    }
}

/// The units that a recipe is shown in. Heavy recipes have none here.
pub open spec fn display_units(recipe: DerivedRecipe) -> Seq<char> {
    match recipe {
        DerivedRecipe::Sbcape
        | DerivedRecipe::Sbcin
        | DerivedRecipe::Mlcape
        | DerivedRecipe::Mlcin
        | DerivedRecipe::Mucape
        | DerivedRecipe::Mucin
        | DerivedRecipe::Dcape => "J/kg"@,
        DerivedRecipe::Sblcl => "m"@,
        DerivedRecipe::ThetaE2m10mWinds => "K"@,
        DerivedRecipe::Vpd2m => "hPa"@,
        DerivedRecipe::DewpointDepression2m
        | DerivedRecipe::Wetbulb2m
        | DerivedRecipe::ApparentTemperature2m
        | DerivedRecipe::HeatIndex2m
        | DerivedRecipe::WindChill2m
        | DerivedRecipe::LiftedIndex => "degC"@,
        DerivedRecipe::FireWeatherComposite => "index"@,
        DerivedRecipe::LapseRate700500
        | DerivedRecipe::LapseRate03km => "degC/km"@,
        DerivedRecipe::BulkShear01km
        | DerivedRecipe::BulkShear06km => "kt"@,
        DerivedRecipe::Srh01km
        | DerivedRecipe::Srh03km => "m^2/s^2"@,
        DerivedRecipe::Ehi01km
        | DerivedRecipe::Ehi03km
        | DerivedRecipe::StpFixed
        | DerivedRecipe::ScpMu03km06kmProxy => "dimensionless"@,
        DerivedRecipe::TemperatureAdvection700mb
        | DerivedRecipe::TemperatureAdvection850mb => "degC/hr"@,
        _ => Seq::empty(),
    }
}

/// The name of the field that a recipe shows. Heavy recipes have none here.
pub open spec fn field_name(recipe: DerivedRecipe) -> Seq<char> {
    match recipe {
        DerivedRecipe::Sbcape => "sbcape_jkg"@,
        DerivedRecipe::Sbcin => "sbcin_jkg"@,
        DerivedRecipe::Sblcl => "sblcl_m"@,
        DerivedRecipe::Mlcape => "mlcape_jkg"@,
        DerivedRecipe::Mlcin => "mlcin_jkg"@,
        DerivedRecipe::Mucape => "mucape_jkg"@,
        DerivedRecipe::Mucin => "mucin_jkg"@,
        DerivedRecipe::Dcape => "dcape_jkg"@,
        DerivedRecipe::ThetaE2m10mWinds => "theta_e_2m_k"@,
        DerivedRecipe::Vpd2m => "vpd_2m_hpa"@,
        DerivedRecipe::DewpointDepression2m => "dewpoint_depression_2m_c"@,
        DerivedRecipe::Wetbulb2m => "wetbulb_2m_c"@,
        DerivedRecipe::FireWeatherComposite => "fire_weather_composite"@,
        DerivedRecipe::ApparentTemperature2m => "apparent_temperature_2m_c"@,
        DerivedRecipe::HeatIndex2m => "heat_index_2m_c"@,
        DerivedRecipe::WindChill2m => "wind_chill_2m_c"@,
        DerivedRecipe::LiftedIndex => "lifted_index_c"@,
        DerivedRecipe::LapseRate700500 => "lapse_rate_700_500_cpkm"@,
        DerivedRecipe::LapseRate03km => "lapse_rate_0_3km_cpkm"@,
        DerivedRecipe::BulkShear01km => "shear_01km_kt"@,
        DerivedRecipe::BulkShear06km => "shear_06km_kt"@,
        DerivedRecipe::Srh01km => "srh_01km_m2s2"@,
        DerivedRecipe::Srh03km => "srh_03km_m2s2"@,
        DerivedRecipe::Ehi01km => "ehi_01km"@,
        DerivedRecipe::Ehi03km => "ehi_03km"@,
        DerivedRecipe::StpFixed => "stp_fixed"@,
        DerivedRecipe::ScpMu03km06kmProxy => "scp_mu_03km_06km_proxy"@,
        DerivedRecipe::TemperatureAdvection700mb => "temperature_advection_700mb_cph"@,
        DerivedRecipe::TemperatureAdvection850mb => "temperature_advection_850mb_cph"@,
        _ => Seq::empty(),
    }
}

impl<T> DerivedComputedFields<T> {
    /// The field that a recipe shows. Heavy recipes have none here.
    pub open spec fn slot(self, recipe: DerivedRecipe) -> Option<Vec<T>> {
        match recipe {
            DerivedRecipe::Sbcape => self.sbcape_jkg,
            DerivedRecipe::Sbcin => self.sbcin_jkg,
            DerivedRecipe::Sblcl => self.sblcl_m,
            DerivedRecipe::Mlcape => self.mlcape_jkg,
            DerivedRecipe::Mlcin => self.mlcin_jkg,
            DerivedRecipe::Mucape => self.mucape_jkg,
            DerivedRecipe::Mucin => self.mucin_jkg,
            DerivedRecipe::Dcape => self.dcape_jkg,
            DerivedRecipe::ThetaE2m10mWinds => self.theta_e_2m_k,
            DerivedRecipe::Vpd2m => self.vpd_2m_hpa,
            DerivedRecipe::DewpointDepression2m => self.dewpoint_depression_2m_c,
            DerivedRecipe::Wetbulb2m => self.wetbulb_2m_c,
            DerivedRecipe::FireWeatherComposite => self.fire_weather_composite,
            DerivedRecipe::ApparentTemperature2m => self.apparent_temperature_2m_c,
            DerivedRecipe::HeatIndex2m => self.heat_index_2m_c,
            DerivedRecipe::WindChill2m => self.wind_chill_2m_c,
            DerivedRecipe::LiftedIndex => self.lifted_index_c,
            DerivedRecipe::LapseRate700500 => self.lapse_rate_700_500_cpkm,
            DerivedRecipe::LapseRate03km => self.lapse_rate_0_3km_cpkm,
            DerivedRecipe::BulkShear01km => self.shear_01km_kt,
            DerivedRecipe::BulkShear06km => self.shear_06km_kt,
            DerivedRecipe::Srh01km => self.srh_01km_m2s2,
            DerivedRecipe::Srh03km => self.srh_03km_m2s2,
            DerivedRecipe::Ehi01km => self.ehi_01km,
            DerivedRecipe::Ehi03km => self.ehi_03km,
            DerivedRecipe::StpFixed => self.stp_fixed,
            DerivedRecipe::ScpMu03km06kmProxy => self.scp_mu_03km_06km_proxy,
            DerivedRecipe::TemperatureAdvection700mb => self.temperature_advection_700mb_cph,
            DerivedRecipe::TemperatureAdvection850mb => self.temperature_advection_850mb_cph,
            _ => None,
        }
    }

    /// No field at all.
    pub open spec fn none() -> Self {
        DerivedComputedFields {
            sbcape_jkg: None,
            sbcin_jkg: None,
            sblcl_m: None,
            mlcape_jkg: None,
            mlcin_jkg: None,
            mucape_jkg: None,
            mucin_jkg: None,
            dcape_jkg: None,
            theta_e_2m_k: None,
            vpd_2m_hpa: None,
            dewpoint_depression_2m_c: None,
            wetbulb_2m_c: None,
            fire_weather_composite: None,
            apparent_temperature_2m_c: None,
            heat_index_2m_c: None,
            wind_chill_2m_c: None,
            surface_u10_ms: None,
            surface_v10_ms: None,
            lifted_index_c: None,
            lapse_rate_700_500_cpkm: None,
            lapse_rate_0_3km_cpkm: None,
            shear_01km_kt: None,
            shear_06km_kt: None,
            srh_01km_m2s2: None,
            srh_03km_m2s2: None,
            ehi_01km: None,
            ehi_03km: None,
            stp_fixed: None,
            scp_mu_03km_06km_proxy: None,
            temperature_advection_700mb_cph: None,
            temperature_advection_850mb_cph: None,
        }
    }

    /// Nothing computed yet.
    pub fn empty() -> (computed: Self)
        ensures
            computed == Self::none(),
    {
        DerivedComputedFields {
            sbcape_jkg: None,
            sbcin_jkg: None,
            sblcl_m: None,
            mlcape_jkg: None,
            mlcin_jkg: None,
            mucape_jkg: None,
            mucin_jkg: None,
            dcape_jkg: None,
            theta_e_2m_k: None,
            vpd_2m_hpa: None,
            dewpoint_depression_2m_c: None,
            wetbulb_2m_c: None,
            fire_weather_composite: None,
            apparent_temperature_2m_c: None,
            heat_index_2m_c: None,
            wind_chill_2m_c: None,
            surface_u10_ms: None,
            surface_v10_ms: None,
            lifted_index_c: None,
            lapse_rate_700_500_cpkm: None,
            lapse_rate_0_3km_cpkm: None,
            shear_01km_kt: None,
            shear_06km_kt: None,
            srh_01km_m2s2: None,
            srh_03km_m2s2: None,
            ehi_01km: None,
            ehi_03km: None,
            stp_fixed: None,
            scp_mu_03km_06km_proxy: None,
            temperature_advection_700mb_cph: None,
            temperature_advection_850mb_cph: None,
        }
    }

    /// The field that a recipe shows.
    pub fn get(&self, recipe: DerivedRecipe) -> (field: &Option<Vec<T>>)
        requires
            !recipe.spec_is_heavy(),
        ensures
            *field == self.slot(recipe),
    {
        match recipe {
            DerivedRecipe::Sbcape => &self.sbcape_jkg,
            DerivedRecipe::Sbcin => &self.sbcin_jkg,
            DerivedRecipe::Sblcl => &self.sblcl_m,
            DerivedRecipe::Mlcape => &self.mlcape_jkg,
            DerivedRecipe::Mlcin => &self.mlcin_jkg,
            DerivedRecipe::Mucape => &self.mucape_jkg,
            DerivedRecipe::Mucin => &self.mucin_jkg,
            DerivedRecipe::Dcape => &self.dcape_jkg,
            DerivedRecipe::ThetaE2m10mWinds => &self.theta_e_2m_k,
            DerivedRecipe::Vpd2m => &self.vpd_2m_hpa,
            DerivedRecipe::DewpointDepression2m => &self.dewpoint_depression_2m_c,
            DerivedRecipe::Wetbulb2m => &self.wetbulb_2m_c,
            DerivedRecipe::FireWeatherComposite => &self.fire_weather_composite,
            DerivedRecipe::ApparentTemperature2m => &self.apparent_temperature_2m_c,
            DerivedRecipe::HeatIndex2m => &self.heat_index_2m_c,
            DerivedRecipe::WindChill2m => &self.wind_chill_2m_c,
            DerivedRecipe::LiftedIndex => &self.lifted_index_c,
            DerivedRecipe::LapseRate700500 => &self.lapse_rate_700_500_cpkm,
            DerivedRecipe::LapseRate03km => &self.lapse_rate_0_3km_cpkm,
            DerivedRecipe::BulkShear01km => &self.shear_01km_kt,
            DerivedRecipe::BulkShear06km => &self.shear_06km_kt,
            DerivedRecipe::Srh01km => &self.srh_01km_m2s2,
            DerivedRecipe::Srh03km => &self.srh_03km_m2s2,
            DerivedRecipe::Ehi01km => &self.ehi_01km,
            DerivedRecipe::Ehi03km => &self.ehi_03km,
            DerivedRecipe::StpFixed => &self.stp_fixed,
            DerivedRecipe::ScpMu03km06kmProxy => &self.scp_mu_03km_06km_proxy,
            DerivedRecipe::TemperatureAdvection700mb => &self.temperature_advection_700mb_cph,
            DerivedRecipe::TemperatureAdvection850mb => &self.temperature_advection_850mb_cph,
            DerivedRecipe::Sbecape
            | DerivedRecipe::Mlecape
            | DerivedRecipe::Muecape
            | DerivedRecipe::SbEcapeDerivedCapeRatio
            | DerivedRecipe::MlEcapeDerivedCapeRatio
            | DerivedRecipe::MuEcapeDerivedCapeRatio
            | DerivedRecipe::SbEcapeNativeCapeRatio
            | DerivedRecipe::MlEcapeNativeCapeRatio
            | DerivedRecipe::MuEcapeNativeCapeRatio
            | DerivedRecipe::Sbncape
            | DerivedRecipe::Sbecin
            | DerivedRecipe::Mlecin
            | DerivedRecipe::EcapeScp
            | DerivedRecipe::EcapeEhi01km
            | DerivedRecipe::EcapeEhi03km
            | DerivedRecipe::EcapeStp => &self.sbcape_jkg,
        }
    }

    /// Puts a field where a recipe shows it. All other fields stay.
    pub fn put(&mut self, recipe: DerivedRecipe, field: Option<Vec<T>>)
        requires
            !recipe.spec_is_heavy(),
        ensures
            final(self).slot(recipe) == field,
            forall|r: DerivedRecipe|
                r != recipe ==> #[trigger] final(self).slot(r) == old(self).slot(r),
            final(self).surface_u10_ms == old(self).surface_u10_ms,
            final(self).surface_v10_ms == old(self).surface_v10_ms,
    {
        match recipe {
            DerivedRecipe::Sbcape => {
                self.sbcape_jkg = field;
            },
            DerivedRecipe::Sbcin => {
                self.sbcin_jkg = field;
            },
            DerivedRecipe::Sblcl => {
                self.sblcl_m = field;
            },
            DerivedRecipe::Mlcape => {
                self.mlcape_jkg = field;
            },
            DerivedRecipe::Mlcin => {
                self.mlcin_jkg = field;
            },
            DerivedRecipe::Mucape => {
                self.mucape_jkg = field;
            },
            DerivedRecipe::Mucin => {
                self.mucin_jkg = field;
            },
            DerivedRecipe::Dcape => {
                self.dcape_jkg = field;
            },
            DerivedRecipe::ThetaE2m10mWinds => {
                self.theta_e_2m_k = field;
            },
            DerivedRecipe::Vpd2m => {
                self.vpd_2m_hpa = field;
            },
            DerivedRecipe::DewpointDepression2m => {
                self.dewpoint_depression_2m_c = field;
            },
            DerivedRecipe::Wetbulb2m => {
                self.wetbulb_2m_c = field;
            },
            DerivedRecipe::FireWeatherComposite => {
                self.fire_weather_composite = field;
            },
            DerivedRecipe::ApparentTemperature2m => {
                self.apparent_temperature_2m_c = field;
            },
            DerivedRecipe::HeatIndex2m => {
                self.heat_index_2m_c = field;
            },
            DerivedRecipe::WindChill2m => {
                self.wind_chill_2m_c = field;
            },
            DerivedRecipe::LiftedIndex => {
                self.lifted_index_c = field;
            },
            DerivedRecipe::LapseRate700500 => {
                self.lapse_rate_700_500_cpkm = field;
            },
            DerivedRecipe::LapseRate03km => {
                self.lapse_rate_0_3km_cpkm = field;
            },
            DerivedRecipe::BulkShear01km => {
                self.shear_01km_kt = field;
            },
            DerivedRecipe::BulkShear06km => {
                self.shear_06km_kt = field;
            },
            DerivedRecipe::Srh01km => {
                self.srh_01km_m2s2 = field;
            },
            DerivedRecipe::Srh03km => {
                self.srh_03km_m2s2 = field;
            },
            DerivedRecipe::Ehi01km => {
                self.ehi_01km = field;
            },
            DerivedRecipe::Ehi03km => {
                self.ehi_03km = field;
            },
            DerivedRecipe::StpFixed => {
                self.stp_fixed = field;
            },
            DerivedRecipe::ScpMu03km06kmProxy => {
                self.scp_mu_03km_06km_proxy = field;
            },
            DerivedRecipe::TemperatureAdvection700mb => {
                self.temperature_advection_700mb_cph = field;
            },
            DerivedRecipe::TemperatureAdvection850mb => {
                self.temperature_advection_850mb_cph = field;
            },
            DerivedRecipe::Sbecape
            | DerivedRecipe::Mlecape
            | DerivedRecipe::Muecape
            | DerivedRecipe::SbEcapeDerivedCapeRatio
            | DerivedRecipe::MlEcapeDerivedCapeRatio
            | DerivedRecipe::MuEcapeDerivedCapeRatio
            | DerivedRecipe::SbEcapeNativeCapeRatio
            | DerivedRecipe::MlEcapeNativeCapeRatio
            | DerivedRecipe::MuEcapeNativeCapeRatio
            | DerivedRecipe::Sbncape
            | DerivedRecipe::Sbecin
            | DerivedRecipe::Mlecin
            | DerivedRecipe::EcapeScp
            | DerivedRecipe::EcapeEhi01km
            | DerivedRecipe::EcapeEhi03km
            | DerivedRecipe::EcapeStp => {},
        }
    }
}

/// The units that a recipe is shown in.
pub fn units_of(recipe: DerivedRecipe) -> (units: &'static str)
    requires
        !recipe.spec_is_heavy(),
    ensures
        units@ == display_units(recipe),
{
    match recipe {
        DerivedRecipe::Sbcape
        | DerivedRecipe::Sbcin
        | DerivedRecipe::Mlcape
        | DerivedRecipe::Mlcin
        | DerivedRecipe::Mucape
        | DerivedRecipe::Mucin
        | DerivedRecipe::Dcape => "J/kg",
        DerivedRecipe::Sblcl => "m",
        DerivedRecipe::ThetaE2m10mWinds => "K",
        DerivedRecipe::Vpd2m => "hPa",
        DerivedRecipe::DewpointDepression2m
        | DerivedRecipe::Wetbulb2m
        | DerivedRecipe::ApparentTemperature2m
        | DerivedRecipe::HeatIndex2m
        | DerivedRecipe::WindChill2m
        | DerivedRecipe::LiftedIndex => "degC",
        DerivedRecipe::FireWeatherComposite => "index",
        DerivedRecipe::LapseRate700500
        | DerivedRecipe::LapseRate03km => "degC/km",
        DerivedRecipe::BulkShear01km
        | DerivedRecipe::BulkShear06km => "kt",
        DerivedRecipe::Srh01km
        | DerivedRecipe::Srh03km => "m^2/s^2",
        DerivedRecipe::Ehi01km
        | DerivedRecipe::Ehi03km
        | DerivedRecipe::StpFixed
        | DerivedRecipe::ScpMu03km06kmProxy => "dimensionless",
        DerivedRecipe::TemperatureAdvection700mb
        | DerivedRecipe::TemperatureAdvection850mb => "degC/hr",
        DerivedRecipe::Sbecape
        | DerivedRecipe::Mlecape
        | DerivedRecipe::Muecape
        | DerivedRecipe::SbEcapeDerivedCapeRatio
        | DerivedRecipe::MlEcapeDerivedCapeRatio
        | DerivedRecipe::MuEcapeDerivedCapeRatio
        | DerivedRecipe::SbEcapeNativeCapeRatio
        | DerivedRecipe::MlEcapeNativeCapeRatio
        | DerivedRecipe::MuEcapeNativeCapeRatio
        | DerivedRecipe::Sbncape
        | DerivedRecipe::Sbecin
        | DerivedRecipe::Mlecin
        | DerivedRecipe::EcapeScp
        | DerivedRecipe::EcapeEhi01km
        | DerivedRecipe::EcapeEhi03km
        | DerivedRecipe::EcapeStp => "",
    }
}

fn name_of(recipe: DerivedRecipe) -> (name: &'static str)
    requires
        !recipe.spec_is_heavy(),
    ensures
        name@ == field_name(recipe),
{
    match recipe {
        DerivedRecipe::Sbcape => "sbcape_jkg",
        DerivedRecipe::Sbcin => "sbcin_jkg",
        DerivedRecipe::Sblcl => "sblcl_m",
        DerivedRecipe::Mlcape => "mlcape_jkg",
        DerivedRecipe::Mlcin => "mlcin_jkg",
        DerivedRecipe::Mucape => "mucape_jkg",
        DerivedRecipe::Mucin => "mucin_jkg",
        DerivedRecipe::Dcape => "dcape_jkg",
        DerivedRecipe::ThetaE2m10mWinds => "theta_e_2m_k",
        DerivedRecipe::Vpd2m => "vpd_2m_hpa",
        DerivedRecipe::DewpointDepression2m => "dewpoint_depression_2m_c",
        DerivedRecipe::Wetbulb2m => "wetbulb_2m_c",
        DerivedRecipe::FireWeatherComposite => "fire_weather_composite",
        DerivedRecipe::ApparentTemperature2m => "apparent_temperature_2m_c",
        DerivedRecipe::HeatIndex2m => "heat_index_2m_c",
        DerivedRecipe::WindChill2m => "wind_chill_2m_c",
        DerivedRecipe::LiftedIndex => "lifted_index_c",
        DerivedRecipe::LapseRate700500 => "lapse_rate_700_500_cpkm",
        DerivedRecipe::LapseRate03km => "lapse_rate_0_3km_cpkm",
        DerivedRecipe::BulkShear01km => "shear_01km_kt",
        DerivedRecipe::BulkShear06km => "shear_06km_kt",
        DerivedRecipe::Srh01km => "srh_01km_m2s2",
        DerivedRecipe::Srh03km => "srh_03km_m2s2",
        DerivedRecipe::Ehi01km => "ehi_01km",
        DerivedRecipe::Ehi03km => "ehi_03km",
        DerivedRecipe::StpFixed => "stp_fixed",
        DerivedRecipe::ScpMu03km06kmProxy => "scp_mu_03km_06km_proxy",
        DerivedRecipe::TemperatureAdvection700mb => "temperature_advection_700mb_cph",
        DerivedRecipe::TemperatureAdvection850mb => "temperature_advection_850mb_cph",
        DerivedRecipe::Sbecape
        | DerivedRecipe::Mlecape
        | DerivedRecipe::Muecape
        | DerivedRecipe::SbEcapeDerivedCapeRatio
        | DerivedRecipe::MlEcapeDerivedCapeRatio
        | DerivedRecipe::MuEcapeDerivedCapeRatio
        | DerivedRecipe::SbEcapeNativeCapeRatio
        | DerivedRecipe::MlEcapeNativeCapeRatio
        | DerivedRecipe::MuEcapeNativeCapeRatio
        | DerivedRecipe::Sbncape
        | DerivedRecipe::Sbecin
        | DerivedRecipe::Mlecin
        | DerivedRecipe::EcapeScp
        | DerivedRecipe::EcapeEhi01km
        | DerivedRecipe::EcapeEhi03km
        | DerivedRecipe::EcapeStp => "",
    }
}

/// The message for a field that was not computed.
pub open spec fn not_computed(recipe: DerivedRecipe) -> Seq<char> {
    "derived field '"@ + field_name(recipe) + "' was not computed for requested recipe '"@
        + recipe.spec_slug()@ + "'"@
}

/// The message for a field that was not computed.
pub fn missing_computed_field(recipe: DerivedRecipe) -> (message: String)
    requires
        !recipe.spec_is_heavy(),
    ensures
        message@ == not_computed(recipe),
{
    "derived field '".to_owned().concat(name_of(recipe)).concat(
        "' was not computed for requested recipe '",
    ).concat(recipe.slug()).concat("'")
}

/// The field of one recipe, with its labels and its grid shape.
pub struct DerivedQueryField<T> {
    pub recipe_slug: String,
    pub title: String,
    pub units: String,
    pub values: Vec<T>,
    pub nx: usize,
    pub ny: usize,
}

/// Whether a query field is labelled for a recipe on a grid.
pub open spec fn labelled<T>(
    field: DerivedQueryField<T>,
    recipe: DerivedRecipe,
    nx: usize,
    ny: usize,
) -> bool {
    &&& field.recipe_slug@ == recipe.spec_slug()@
    &&& field.title@ == recipe.spec_title()@
    &&& field.units@ == display_units(recipe)
    &&& field.nx == nx
    &&& field.ny == ny
}

fn make_query_field<T>(
    nx: usize,
    ny: usize,
    recipe: DerivedRecipe,
    values: Vec<T>,
) -> (field: DerivedQueryField<T>)
    requires
        !recipe.spec_is_heavy(),
    ensures
        labelled(field, recipe, nx, ny),
        field.values == values,
{
    DerivedQueryField {
        recipe_slug: recipe.slug().to_owned(),
        title: recipe.title().to_owned(),
        units: units_of(recipe).to_owned(),
        values,
        nx,
        ny,
    }
}

/// The field of a recipe, copied from the computed fields.
pub fn derived_query_field_from_computed<T: Copy>(
    nx: usize,
    ny: usize,
    recipe: DerivedRecipe,
    computed: &DerivedComputedFields<T>,
) -> (field: Result<DerivedQueryField<T>, String>)
    requires
        !recipe.spec_is_heavy(),
    ensures
        match field {
            Ok(field) => {
                &&& labelled(field, recipe, nx, ny)
                &&& field_view(computed.slot(recipe)) == Some(field.values@)
            },
            Err(message) => computed.slot(recipe) is None && message@ == not_computed(recipe),
        },
{
    match computed.get(recipe) {
        Some(values) => Ok(make_query_field(nx, ny, recipe, slice_to_vec(values.as_slice()))),
        None => Err(missing_computed_field(recipe)),
    }
}

/// The field of a recipe, moved out of the computed fields. Its slot is empty
/// afterwards; the other slots stay.
pub fn derived_query_field_take_from_computed<T>(
    nx: usize,
    ny: usize,
    recipe: DerivedRecipe,
    computed: &mut DerivedComputedFields<T>,
) -> (field: Result<DerivedQueryField<T>, String>)
    requires
        !recipe.spec_is_heavy(),
    ensures
        match field {
            Ok(field) => {
                &&& labelled(field, recipe, nx, ny)
                &&& old(computed).slot(recipe) == Some(field.values)
            },
            Err(message) => old(computed).slot(recipe) is None && message@ == not_computed(recipe),
        },
        final(computed).slot(recipe) is None,
        forall|r: DerivedRecipe|
            r != recipe ==> #[trigger] final(computed).slot(r) == old(computed).slot(r),
        final(computed).surface_u10_ms == old(computed).surface_u10_ms,
        final(computed).surface_v10_ms == old(computed).surface_v10_ms,
{
    match computed.take_slot(recipe) {
        Some(values) => Ok(make_query_field(nx, ny, recipe, values)),
        None => Err(missing_computed_field(recipe)),
    }
}

impl<T> DerivedComputedFields<T> {
    /// Takes the field that a recipe shows. All other fields stay.
    fn take_slot(&mut self, recipe: DerivedRecipe) -> (field: Option<Vec<T>>)
        requires
            !recipe.spec_is_heavy(),
        ensures
            field == old(self).slot(recipe),
            final(self).slot(recipe) is None,
            forall|r: DerivedRecipe|
                r != recipe ==> #[trigger] final(self).slot(r) == old(self).slot(r),
            final(self).surface_u10_ms == old(self).surface_u10_ms,
            final(self).surface_v10_ms == old(self).surface_v10_ms,
    {
        match recipe {
            DerivedRecipe::Sbcape => self.sbcape_jkg.take(),
            DerivedRecipe::Sbcin => self.sbcin_jkg.take(),
            DerivedRecipe::Sblcl => self.sblcl_m.take(),
            DerivedRecipe::Mlcape => self.mlcape_jkg.take(),
            DerivedRecipe::Mlcin => self.mlcin_jkg.take(),
            DerivedRecipe::Mucape => self.mucape_jkg.take(),
            DerivedRecipe::Mucin => self.mucin_jkg.take(),
            DerivedRecipe::Dcape => self.dcape_jkg.take(),
            DerivedRecipe::ThetaE2m10mWinds => self.theta_e_2m_k.take(),
            DerivedRecipe::Vpd2m => self.vpd_2m_hpa.take(),
            DerivedRecipe::DewpointDepression2m => self.dewpoint_depression_2m_c.take(),
            DerivedRecipe::Wetbulb2m => self.wetbulb_2m_c.take(),
            DerivedRecipe::FireWeatherComposite => self.fire_weather_composite.take(),
            DerivedRecipe::ApparentTemperature2m => self.apparent_temperature_2m_c.take(),
            DerivedRecipe::HeatIndex2m => self.heat_index_2m_c.take(),
            DerivedRecipe::WindChill2m => self.wind_chill_2m_c.take(),
            DerivedRecipe::LiftedIndex => self.lifted_index_c.take(),
            DerivedRecipe::LapseRate700500 => self.lapse_rate_700_500_cpkm.take(),
            DerivedRecipe::LapseRate03km => self.lapse_rate_0_3km_cpkm.take(),
            DerivedRecipe::BulkShear01km => self.shear_01km_kt.take(),
            DerivedRecipe::BulkShear06km => self.shear_06km_kt.take(),
            DerivedRecipe::Srh01km => self.srh_01km_m2s2.take(),
            DerivedRecipe::Srh03km => self.srh_03km_m2s2.take(),
            DerivedRecipe::Ehi01km => self.ehi_01km.take(),
            DerivedRecipe::Ehi03km => self.ehi_03km.take(),
            DerivedRecipe::StpFixed => self.stp_fixed.take(),
            DerivedRecipe::ScpMu03km06kmProxy => self.scp_mu_03km_06km_proxy.take(),
            DerivedRecipe::TemperatureAdvection700mb => self.temperature_advection_700mb_cph.take(),
            DerivedRecipe::TemperatureAdvection850mb => self.temperature_advection_850mb_cph.take(),
            DerivedRecipe::Sbecape
            | DerivedRecipe::Mlecape
            | DerivedRecipe::Muecape
            | DerivedRecipe::SbEcapeDerivedCapeRatio
            | DerivedRecipe::MlEcapeDerivedCapeRatio
            | DerivedRecipe::MuEcapeDerivedCapeRatio
            | DerivedRecipe::SbEcapeNativeCapeRatio
            | DerivedRecipe::MlEcapeNativeCapeRatio
            | DerivedRecipe::MuEcapeNativeCapeRatio
            | DerivedRecipe::Sbncape
            | DerivedRecipe::Sbecin
            | DerivedRecipe::Mlecin
            | DerivedRecipe::EcapeScp
            | DerivedRecipe::EcapeEhi01km
            | DerivedRecipe::EcapeEhi03km
            | DerivedRecipe::EcapeStp => None,
        }
    }
}

/// The message for a heavy recipe, which has no computed slot.
pub open spec fn heavy_has_no_slot(recipe: DerivedRecipe) -> Seq<char> {
    "heavy recipe '"@ + recipe.spec_slug()@
        + "' renders from a WeatherPanelField, not the computed slots"@
}

/// Whether fields are others with values put where a recipe shows them.
pub open spec fn assigns<T>(
    before: DerivedComputedFields<T>,
    recipe: DerivedRecipe,
    values: Vec<T>,
    after: DerivedComputedFields<T>,
) -> bool {
    &&& after.slot(recipe) == Some(values)
    &&& forall|r: DerivedRecipe| r != recipe ==> #[trigger] after.slot(r) == before.slot(r)
    &&& after.surface_u10_ms == before.surface_u10_ms
    &&& after.surface_v10_ms == before.surface_v10_ms
}

/// Values that were put where a recipe shows them are what a query of the recipe
/// gives back, and a query of any other recipe gives what it gave before.
pub proof fn law_assigned_values_are_read_back<T>(
    before: DerivedComputedFields<T>,
    recipe: DerivedRecipe,
    values: Vec<T>,
    after: DerivedComputedFields<T>,
    other: DerivedRecipe,
)
    requires
        assigns(before, recipe, values, after),
    ensures
        field_view(after.slot(recipe)) == Some(values@),
        other != recipe ==> field_view(after.slot(other)) == field_view(before.slot(other)),
{
}

/// Puts values read back from a store where a recipe shows them. Heavy recipes
/// have no such place.
pub fn assign_store_values<T>(
    computed: &mut DerivedComputedFields<T>,
    recipe: DerivedRecipe,
    values: Vec<T>,
) -> (assigned: Result<(), String>)
    ensures
        match assigned {
            Ok(_) => !recipe.spec_is_heavy() && assigns(
                *old(computed),
                recipe,
                values,
                *final(computed),
            ),
            Err(message) => {
                &&& recipe.spec_is_heavy()
                &&& message@ == heavy_has_no_slot(recipe)
                &&& *final(computed) == *old(computed)
            },
        },
{
    if recipe.is_heavy() {
        return Err(
            "heavy recipe '".to_owned().concat(recipe.slug()).concat(
                "' renders from a WeatherPanelField, not the computed slots",
            ),
        );
    }
    computed.put(recipe, Some(values));
    Ok(())
}

} // verus!
