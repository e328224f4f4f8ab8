//! The derived-product recipes: their names, titles and drawing styles, and
//! what each needs from the model data.
use crate::model::ProductVisualMode;
use crate::text;
use crate::text::{str_eq, to_chars, to_lowercase, trim};
use vstd::prelude::*;
use vstd::string::*;

verus! {

/// A product that is computed from model fields.
#[derive(Debug, Clone, Copy, PartialEq, Eq, Hash, Structural)]
pub enum DerivedRecipe {
    Sbcape,
    Sbcin,
    Sblcl,
    Mlcape,
    Mlcin,
    Mucape,
    Mucin,
    Dcape,
    Sbecape,
    Mlecape,
    Muecape,
    SbEcapeDerivedCapeRatio,
    MlEcapeDerivedCapeRatio,
    MuEcapeDerivedCapeRatio,
    SbEcapeNativeCapeRatio,
    MlEcapeNativeCapeRatio,
    MuEcapeNativeCapeRatio,
    Sbncape,
    Sbecin,
    Mlecin,
    EcapeScp,
    EcapeEhi01km,
    EcapeEhi03km,
    EcapeStp,
    ThetaE2m10mWinds,
    Vpd2m,
    DewpointDepression2m,
    Wetbulb2m,
    FireWeatherComposite,
    ApparentTemperature2m,
    HeatIndex2m,
    WindChill2m,
    LiftedIndex,
    LapseRate700500,
    LapseRate03km,
    BulkShear01km,
    BulkShear06km,
    Srh01km,
    Srh03km,
    Ehi01km,
    Ehi03km,
    StpFixed,
    ScpMu03km06kmProxy,
    TemperatureAdvection700mb,
    TemperatureAdvection850mb,
}

/// The character that stands for `c` in a slug.
pub open spec fn slug_char(c: char) -> char {
    if c == '-' || c == ' ' {
        '_'
    } else {
        c
    }
}

/// The normal form of a slug: trimmed, in ASCII lower case, with underscores
/// for dashes and spaces.
pub open spec fn normalized_slug(value: Seq<char>) -> Seq<char> {
    text::lowercased(text::trimmed(value)).map_values(|c: char| slug_char(c))
}

/// The recipe that a normalised slug names, canonically or by an alias.
pub open spec fn recognized(slug: Seq<char>) -> Option<DerivedRecipe> {
    if slug == "sbcape"@ {
        Some(DerivedRecipe::Sbcape)
    } else if slug == "sbcin"@ {
        Some(DerivedRecipe::Sbcin)
    } else if slug == "sblcl"@ {
        Some(DerivedRecipe::Sblcl)
    } else if slug == "mlcape"@ {
        Some(DerivedRecipe::Mlcape)
    } else if slug == "mlcin"@ {
        Some(DerivedRecipe::Mlcin)
    } else if slug == "mucape"@ {
        Some(DerivedRecipe::Mucape)
    } else if slug == "mucin"@ {
        Some(DerivedRecipe::Mucin)
    } else if slug == "dcape"@ || slug == "downdraft_cape"@ {
        Some(DerivedRecipe::Dcape)
    } else if slug == "sbecape"@ {
        Some(DerivedRecipe::Sbecape)
    } else if slug == "mlecape"@ {
        Some(DerivedRecipe::Mlecape)
    } else if slug == "muecape"@ {
        Some(DerivedRecipe::Muecape)
    } else if slug == "sb_ecape_derived_cape_ratio"@ || slug == "sbecape_derived_cape_ratio"@ {
        Some(DerivedRecipe::SbEcapeDerivedCapeRatio)
    } else if slug == "ml_ecape_derived_cape_ratio"@ || slug == "mlecape_derived_cape_ratio"@ {
        Some(DerivedRecipe::MlEcapeDerivedCapeRatio)
    } else if slug == "mu_ecape_derived_cape_ratio"@ || slug == "muecape_derived_cape_ratio"@ {
        Some(DerivedRecipe::MuEcapeDerivedCapeRatio)
    } else if slug == "sb_ecape_native_cape_ratio"@ || slug == "sbecape_native_cape_ratio"@ {
        Some(DerivedRecipe::SbEcapeNativeCapeRatio)
    } else if slug == "ml_ecape_native_cape_ratio"@ || slug == "mlecape_native_cape_ratio"@ {
        Some(DerivedRecipe::MlEcapeNativeCapeRatio)
    } else if slug == "mu_ecape_native_cape_ratio"@ || slug == "muecape_native_cape_ratio"@ {
        Some(DerivedRecipe::MuEcapeNativeCapeRatio)
    } else if slug == "sbncape"@ {
        Some(DerivedRecipe::Sbncape)
    } else if slug == "sbecin"@ {
        Some(DerivedRecipe::Sbecin)
    } else if slug == "mlecin"@ {
        Some(DerivedRecipe::Mlecin)
    } else if slug == "ecape_scp"@ {
        Some(DerivedRecipe::EcapeScp)
    } else if slug == "ecape_ehi"@ || slug == "ecape_ehi_0_1km"@ || slug == "ecape_ehi_01km"@ {
        Some(DerivedRecipe::EcapeEhi01km)
    } else if slug == "ecape_ehi_0_3km"@ || slug == "ecape_ehi_03km"@ {
        Some(DerivedRecipe::EcapeEhi03km)
    } else if slug == "ecape_stp"@ {
        Some(DerivedRecipe::EcapeStp)
    } else if slug == "theta_e_2m_10m_winds"@ || slug == "2m_theta_e_10m_winds"@ {
        Some(DerivedRecipe::ThetaE2m10mWinds)
    } else if slug == "vpd_2m"@ || slug == "2m_vpd"@ || slug == "vapor_pressure_deficit_2m"@ || slug == "2m_vapor_pressure_deficit"@ {
        Some(DerivedRecipe::Vpd2m)
    } else if slug == "dewpoint_depression_2m"@ || slug == "2m_dewpoint_depression"@ {
        Some(DerivedRecipe::DewpointDepression2m)
    } else if slug == "wetbulb_2m"@ || slug == "wet_bulb_2m"@ || slug == "2m_wetbulb"@ || slug == "2m_wet_bulb"@ {
        Some(DerivedRecipe::Wetbulb2m)
    } else if slug == "fire_weather_composite"@ || slug == "fire_weather"@ || slug == "fire_wx"@ {
        Some(DerivedRecipe::FireWeatherComposite)
    } else if slug == "apparent_temperature_2m"@ || slug == "2m_apparent_temperature"@ {
        Some(DerivedRecipe::ApparentTemperature2m)
    } else if slug == "heat_index_2m"@ || slug == "2m_heat_index"@ {
        Some(DerivedRecipe::HeatIndex2m)
    } else if slug == "wind_chill_2m"@ || slug == "2m_wind_chill"@ {
        Some(DerivedRecipe::WindChill2m)
    } else if slug == "lifted_index"@ {
        Some(DerivedRecipe::LiftedIndex)
    } else if slug == "lapse_rate_700_500"@ {
        Some(DerivedRecipe::LapseRate700500)
    } else if slug == "lapse_rate_0_3km"@ {
        Some(DerivedRecipe::LapseRate03km)
    } else if slug == "bulk_shear_0_1km"@ {
        Some(DerivedRecipe::BulkShear01km)
    } else if slug == "bulk_shear_0_6km"@ {
        Some(DerivedRecipe::BulkShear06km)
    } else if slug == "srh_0_1km"@ {
        Some(DerivedRecipe::Srh01km)
    } else if slug == "srh_0_3km"@ {
        Some(DerivedRecipe::Srh03km)
    } else if slug == "ehi_0_1km"@ || slug == "ehi_sb_0_1km_proxy"@ {
        Some(DerivedRecipe::Ehi01km)
    } else if slug == "ehi_0_3km"@ || slug == "ehi_sb_0_3km_proxy"@ {
        Some(DerivedRecipe::Ehi03km)
    } else if slug == "stp_fixed"@ {
        Some(DerivedRecipe::StpFixed)
    } else if slug == "scp_mu_0_3km_0_6km_proxy"@ {
        Some(DerivedRecipe::ScpMu03km06kmProxy)
    } else if slug == "temperature_advection_700mb"@ {
        Some(DerivedRecipe::TemperatureAdvection700mb)
    } else if slug == "temperature_advection_850mb"@ {
        Some(DerivedRecipe::TemperatureAdvection850mb)
    } else {
        None
    }
}

/// The message for a normalised slug that names no recipe.
pub open spec fn rejection(slug: Seq<char>) -> Seq<char> {
    if slug == "stp_effective"@ {
        "stp_effective requires mixed-layer CAPE/CIN/LCL plus effective SRH and effective bulk wind difference; rustwx-products does not yet derive effective SRH or EBWD from HRRR profiles"@
    } else if slug == "scp"@ || slug == "scp_effective"@ {
        "scp/scp_effective require effective SRH and effective bulk wind difference; rustwx-products does not yet derive those effective-layer kinematics from HRRR profiles"@
    } else {
        "unsupported derived recipe '"@ + slug + "'"@
    }
}

impl DerivedRecipe {
    /// The canonical slug.
    pub open spec fn spec_slug(self) -> &'static str {
        match self {
            DerivedRecipe::Sbcape => "sbcape",
            DerivedRecipe::Sbcin => "sbcin",
            DerivedRecipe::Sblcl => "sblcl",
            DerivedRecipe::Mlcape => "mlcape",
            DerivedRecipe::Mlcin => "mlcin",
            DerivedRecipe::Mucape => "mucape",
            DerivedRecipe::Mucin => "mucin",
            DerivedRecipe::Dcape => "dcape",
            DerivedRecipe::Sbecape => "sbecape",
            DerivedRecipe::Mlecape => "mlecape",
            DerivedRecipe::Muecape => "muecape",
            DerivedRecipe::SbEcapeDerivedCapeRatio => "sb_ecape_derived_cape_ratio",
            DerivedRecipe::MlEcapeDerivedCapeRatio => "ml_ecape_derived_cape_ratio",
            DerivedRecipe::MuEcapeDerivedCapeRatio => "mu_ecape_derived_cape_ratio",
            DerivedRecipe::SbEcapeNativeCapeRatio => "sb_ecape_native_cape_ratio",
            DerivedRecipe::MlEcapeNativeCapeRatio => "ml_ecape_native_cape_ratio",
            DerivedRecipe::MuEcapeNativeCapeRatio => "mu_ecape_native_cape_ratio",
            DerivedRecipe::Sbncape => "sbncape",
            DerivedRecipe::Sbecin => "sbecin",
            DerivedRecipe::Mlecin => "mlecin",
            DerivedRecipe::EcapeScp => "ecape_scp",
            DerivedRecipe::EcapeEhi01km => "ecape_ehi_0_1km",
            DerivedRecipe::EcapeEhi03km => "ecape_ehi_0_3km",
            DerivedRecipe::EcapeStp => "ecape_stp",
            DerivedRecipe::ThetaE2m10mWinds => "theta_e_2m_10m_winds",
            DerivedRecipe::Vpd2m => "vpd_2m",
            DerivedRecipe::DewpointDepression2m => "dewpoint_depression_2m",
            DerivedRecipe::Wetbulb2m => "wetbulb_2m",
            DerivedRecipe::FireWeatherComposite => "fire_weather_composite",
            DerivedRecipe::ApparentTemperature2m => "apparent_temperature_2m",
            DerivedRecipe::HeatIndex2m => "heat_index_2m",
            DerivedRecipe::WindChill2m => "wind_chill_2m",
            DerivedRecipe::LiftedIndex => "lifted_index",
            DerivedRecipe::LapseRate700500 => "lapse_rate_700_500",
            DerivedRecipe::LapseRate03km => "lapse_rate_0_3km",
            DerivedRecipe::BulkShear01km => "bulk_shear_0_1km",
            DerivedRecipe::BulkShear06km => "bulk_shear_0_6km",
            DerivedRecipe::Srh01km => "srh_0_1km",
            DerivedRecipe::Srh03km => "srh_0_3km",
            DerivedRecipe::Ehi01km => "ehi_0_1km",
            DerivedRecipe::Ehi03km => "ehi_0_3km",
            DerivedRecipe::StpFixed => "stp_fixed",
            DerivedRecipe::ScpMu03km06kmProxy => "scp_mu_0_3km_0_6km_proxy",
            DerivedRecipe::TemperatureAdvection700mb => "temperature_advection_700mb",
            DerivedRecipe::TemperatureAdvection850mb => "temperature_advection_850mb",
        }
    }

    /// The display title.
    pub open spec fn spec_title(self) -> &'static str {
        match self {
            DerivedRecipe::Sbcape => "SBCAPE",
            DerivedRecipe::Sbcin => "SBCIN",
            DerivedRecipe::Sblcl => "SBLCL",
            DerivedRecipe::Mlcape => "MLCAPE",
            DerivedRecipe::Mlcin => "MLCIN",
            DerivedRecipe::Mucape => "MUCAPE",
            DerivedRecipe::Mucin => "MUCIN",
            DerivedRecipe::Dcape => "DCAPE",
            DerivedRecipe::Sbecape => "SBECAPE",
            DerivedRecipe::Mlecape => "MLECAPE",
            DerivedRecipe::Muecape => "MUECAPE",
            DerivedRecipe::SbEcapeDerivedCapeRatio => "SB ECAPE / Derived CAPE Ratio (EXP)",
            DerivedRecipe::MlEcapeDerivedCapeRatio => "ML ECAPE / Derived CAPE Ratio (EXP)",
            DerivedRecipe::MuEcapeDerivedCapeRatio => "MU ECAPE / Derived CAPE Ratio (EXP)",
            DerivedRecipe::SbEcapeNativeCapeRatio => "SB ECAPE / Native CAPE Ratio (EXP)",
            DerivedRecipe::MlEcapeNativeCapeRatio => "ML ECAPE / Native CAPE Ratio (EXP)",
            DerivedRecipe::MuEcapeNativeCapeRatio => "MU ECAPE / Native CAPE Ratio (EXP)",
            DerivedRecipe::Sbncape => "SBNCAPE",
            DerivedRecipe::Sbecin => "SBECIN",
            DerivedRecipe::Mlecin => "MLECIN",
            DerivedRecipe::EcapeScp => "ECAPE SCP (EXP)",
            DerivedRecipe::EcapeEhi01km => "ECAPE EHI 0-1 km (EXP)",
            DerivedRecipe::EcapeEhi03km => "ECAPE EHI 0-3 km (EXP)",
            DerivedRecipe::EcapeStp => "ECAPE STP (EXP)",
            DerivedRecipe::ThetaE2m10mWinds => "2 m Theta-e, 10 m Wind",
            DerivedRecipe::Vpd2m => "2 m Vapor Pressure Deficit",
            DerivedRecipe::DewpointDepression2m => "2 m Dewpoint Depression",
            DerivedRecipe::Wetbulb2m => "2 m Wet-Bulb Temperature",
            DerivedRecipe::FireWeatherComposite => "Fire Weather Composite",
            DerivedRecipe::ApparentTemperature2m => "2 m Apparent Temperature",
            DerivedRecipe::HeatIndex2m => "2 m Heat Index",
            DerivedRecipe::WindChill2m => "2 m Wind Chill",
            DerivedRecipe::LiftedIndex => "Surface-Based Lifted Index",
            DerivedRecipe::LapseRate700500 => "700-500 mb Virtual Temperature Lapse Rate",
            DerivedRecipe::LapseRate03km => "0-3 km Lapse Rate",
            DerivedRecipe::BulkShear01km => "0-1 km Bulk Shear",
            DerivedRecipe::BulkShear06km => "0-6 km Bulk Shear",
            DerivedRecipe::Srh01km => "0-1 km SRH",
            DerivedRecipe::Srh03km => "0-3 km SRH",
            DerivedRecipe::Ehi01km => "EHI 0-1 km",
            DerivedRecipe::Ehi03km => "EHI 0-3 km",
            DerivedRecipe::StpFixed => "STP (FIXED)",
            DerivedRecipe::ScpMu03km06kmProxy => "SCP (MU / 0-3 km / 0-6 km PROXY)",
            DerivedRecipe::TemperatureAdvection700mb => "700 mb Temperature Advection",
            DerivedRecipe::TemperatureAdvection850mb => "850 mb Temperature Advection",
        }
    }

    /// Whether the recipe runs on the cropped heavy entraining-parcel path.
    pub open spec fn spec_is_heavy(self) -> bool {
        match self {
            DerivedRecipe::Sbecape
            | DerivedRecipe::Mlecape
            | DerivedRecipe::Muecape
            | DerivedRecipe::SbEcapeDerivedCapeRatio
            | DerivedRecipe::MlEcapeDerivedCapeRatio
            | DerivedRecipe::MuEcapeDerivedCapeRatio
            | DerivedRecipe::SbEcapeNativeCapeRatio
            | DerivedRecipe::MlEcapeNativeCapeRatio
            | DerivedRecipe::MuEcapeNativeCapeRatio
            | DerivedRecipe::Sbncape
            | DerivedRecipe::Sbecin
            | DerivedRecipe::Mlecin
            | DerivedRecipe::EcapeScp
            | DerivedRecipe::EcapeEhi01km
            | DerivedRecipe::EcapeEhi03km
            | DerivedRecipe::EcapeStp => true,
            _ => false,
        }
    }

    /// The drawing style.
    pub open spec fn spec_visual_mode(self) -> ProductVisualMode {
        match self {
            DerivedRecipe::ThetaE2m10mWinds
            | DerivedRecipe::TemperatureAdvection700mb
            | DerivedRecipe::TemperatureAdvection850mb => ProductVisualMode::UpperAirAnalysis,
            DerivedRecipe::Vpd2m
            | DerivedRecipe::DewpointDepression2m
            | DerivedRecipe::Wetbulb2m
            | DerivedRecipe::ApparentTemperature2m
            | DerivedRecipe::HeatIndex2m
            | DerivedRecipe::WindChill2m => ProductVisualMode::FilledMeteorology,
            _ => ProductVisualMode::SevereDiagnostic,
        }
    }

    /// The recipe that a slug names, after normalisation, or why there is none.
    pub fn parse(slug: &str) -> (parsed: Result<Self, String>)
        ensures
            match parsed {
                Ok(recipe) => recognized(normalized_slug(slug@)) == Some(recipe),
                Err(message) => recognized(normalized_slug(slug@)) is None && message@ == rejection(
                    normalized_slug(slug@),
                ),
            },
    {
        let normalized = normalize_slug(slug);
        let name = normalized.as_str();
        if str_eq(name, "sbcape") {
            Ok(DerivedRecipe::Sbcape)
        } else if str_eq(name, "sbcin") {
            Ok(DerivedRecipe::Sbcin)
        } else if str_eq(name, "sblcl") {
            Ok(DerivedRecipe::Sblcl)
        } else if str_eq(name, "mlcape") {
            Ok(DerivedRecipe::Mlcape)
        } else if str_eq(name, "mlcin") {
            Ok(DerivedRecipe::Mlcin)
        } else if str_eq(name, "mucape") {
            Ok(DerivedRecipe::Mucape)
        } else if str_eq(name, "mucin") {
            Ok(DerivedRecipe::Mucin)
        } else if str_eq(name, "dcape") || str_eq(name, "downdraft_cape") {
            Ok(DerivedRecipe::Dcape)
        } else if str_eq(name, "sbecape") {
            Ok(DerivedRecipe::Sbecape)
        } else if str_eq(name, "mlecape") {
            Ok(DerivedRecipe::Mlecape)
        } else if str_eq(name, "muecape") {
            Ok(DerivedRecipe::Muecape)
        } else if str_eq(name, "sb_ecape_derived_cape_ratio") || str_eq(name, "sbecape_derived_cape_ratio") {
            Ok(DerivedRecipe::SbEcapeDerivedCapeRatio)
        } else if str_eq(name, "ml_ecape_derived_cape_ratio") || str_eq(name, "mlecape_derived_cape_ratio") {
            Ok(DerivedRecipe::MlEcapeDerivedCapeRatio)
        } else if str_eq(name, "mu_ecape_derived_cape_ratio") || str_eq(name, "muecape_derived_cape_ratio") {
            Ok(DerivedRecipe::MuEcapeDerivedCapeRatio)
        } else if str_eq(name, "sb_ecape_native_cape_ratio") || str_eq(name, "sbecape_native_cape_ratio") {
            Ok(DerivedRecipe::SbEcapeNativeCapeRatio)
        } else if str_eq(name, "ml_ecape_native_cape_ratio") || str_eq(name, "mlecape_native_cape_ratio") {
            Ok(DerivedRecipe::MlEcapeNativeCapeRatio)
        } else if str_eq(name, "mu_ecape_native_cape_ratio") || str_eq(name, "muecape_native_cape_ratio") {
            Ok(DerivedRecipe::MuEcapeNativeCapeRatio)
        } else if str_eq(name, "sbncape") {
            Ok(DerivedRecipe::Sbncape)
        } else if str_eq(name, "sbecin") {
            Ok(DerivedRecipe::Sbecin)
        } else if str_eq(name, "mlecin") {
            Ok(DerivedRecipe::Mlecin)
        } else if str_eq(name, "ecape_scp") {
            Ok(DerivedRecipe::EcapeScp)
        } else if str_eq(name, "ecape_ehi") || str_eq(name, "ecape_ehi_0_1km") || str_eq(name, "ecape_ehi_01km") {
            Ok(DerivedRecipe::EcapeEhi01km)
        } else if str_eq(name, "ecape_ehi_0_3km") || str_eq(name, "ecape_ehi_03km") {
            Ok(DerivedRecipe::EcapeEhi03km)
        } else if str_eq(name, "ecape_stp") {
            Ok(DerivedRecipe::EcapeStp)
        } else if str_eq(name, "theta_e_2m_10m_winds") || str_eq(name, "2m_theta_e_10m_winds") {
            Ok(DerivedRecipe::ThetaE2m10mWinds)
        } else if str_eq(name, "vpd_2m") || str_eq(name, "2m_vpd") || str_eq(name, "vapor_pressure_deficit_2m") || str_eq(name, "2m_vapor_pressure_deficit") {
            Ok(DerivedRecipe::Vpd2m)
        } else if str_eq(name, "dewpoint_depression_2m") || str_eq(name, "2m_dewpoint_depression") {
            Ok(DerivedRecipe::DewpointDepression2m)
        } else if str_eq(name, "wetbulb_2m") || str_eq(name, "wet_bulb_2m") || str_eq(name, "2m_wetbulb") || str_eq(name, "2m_wet_bulb") {
            Ok(DerivedRecipe::Wetbulb2m)
        } else if str_eq(name, "fire_weather_composite") || str_eq(name, "fire_weather") || str_eq(name, "fire_wx") {
            Ok(DerivedRecipe::FireWeatherComposite)
        } else if str_eq(name, "apparent_temperature_2m") || str_eq(name, "2m_apparent_temperature") {
            Ok(DerivedRecipe::ApparentTemperature2m)
        } else if str_eq(name, "heat_index_2m") || str_eq(name, "2m_heat_index") {
            Ok(DerivedRecipe::HeatIndex2m)
        } else if str_eq(name, "wind_chill_2m") || str_eq(name, "2m_wind_chill") {
            Ok(DerivedRecipe::WindChill2m)
        } else if str_eq(name, "lifted_index") {
            Ok(DerivedRecipe::LiftedIndex)
        } else if str_eq(name, "lapse_rate_700_500") {
            Ok(DerivedRecipe::LapseRate700500)
        } else if str_eq(name, "lapse_rate_0_3km") {
            Ok(DerivedRecipe::LapseRate03km)
        } else if str_eq(name, "bulk_shear_0_1km") {
            Ok(DerivedRecipe::BulkShear01km)
        } else if str_eq(name, "bulk_shear_0_6km") {
            Ok(DerivedRecipe::BulkShear06km)
        } else if str_eq(name, "srh_0_1km") {
            Ok(DerivedRecipe::Srh01km)
        } else if str_eq(name, "srh_0_3km") {
            Ok(DerivedRecipe::Srh03km)
        } else if str_eq(name, "ehi_0_1km") || str_eq(name, "ehi_sb_0_1km_proxy") {
            Ok(DerivedRecipe::Ehi01km)
        } else if str_eq(name, "ehi_0_3km") || str_eq(name, "ehi_sb_0_3km_proxy") {
            Ok(DerivedRecipe::Ehi03km)
        } else if str_eq(name, "stp_fixed") {
            Ok(DerivedRecipe::StpFixed)
        } else if str_eq(name, "scp_mu_0_3km_0_6km_proxy") {
            Ok(DerivedRecipe::ScpMu03km06kmProxy)
        } else if str_eq(name, "temperature_advection_700mb") {
            Ok(DerivedRecipe::TemperatureAdvection700mb)
        } else if str_eq(name, "temperature_advection_850mb") {
            Ok(DerivedRecipe::TemperatureAdvection850mb)
        } else if str_eq(name, "stp_effective") {
            Err(
                "stp_effective requires mixed-layer CAPE/CIN/LCL plus effective SRH and effective bulk wind difference; rustwx-products does not yet derive effective SRH or EBWD from HRRR profiles".to_owned(),
            )
        } else if str_eq(name, "scp") || str_eq(name, "scp_effective") {
            Err(
                "scp/scp_effective require effective SRH and effective bulk wind difference; rustwx-products does not yet derive those effective-layer kinematics from HRRR profiles".to_owned(),
            )
        } else {
            Err("unsupported derived recipe '".to_owned().concat(name).concat("'"))
        }
    }

    /// The canonical slug.
    pub fn slug(self) -> (slug: &'static str)
        ensures
            slug@ == self.spec_slug()@,
    {
        match self {
            DerivedRecipe::Sbcape => "sbcape",
            DerivedRecipe::Sbcin => "sbcin",
            DerivedRecipe::Sblcl => "sblcl",
            DerivedRecipe::Mlcape => "mlcape",
            DerivedRecipe::Mlcin => "mlcin",
            DerivedRecipe::Mucape => "mucape",
            DerivedRecipe::Mucin => "mucin",
            DerivedRecipe::Dcape => "dcape",
            DerivedRecipe::Sbecape => "sbecape",
            DerivedRecipe::Mlecape => "mlecape",
            DerivedRecipe::Muecape => "muecape",
            DerivedRecipe::SbEcapeDerivedCapeRatio => "sb_ecape_derived_cape_ratio",
            DerivedRecipe::MlEcapeDerivedCapeRatio => "ml_ecape_derived_cape_ratio",
            DerivedRecipe::MuEcapeDerivedCapeRatio => "mu_ecape_derived_cape_ratio",
            DerivedRecipe::SbEcapeNativeCapeRatio => "sb_ecape_native_cape_ratio",
            DerivedRecipe::MlEcapeNativeCapeRatio => "ml_ecape_native_cape_ratio",
            DerivedRecipe::MuEcapeNativeCapeRatio => "mu_ecape_native_cape_ratio",
            DerivedRecipe::Sbncape => "sbncape",
            DerivedRecipe::Sbecin => "sbecin",
            DerivedRecipe::Mlecin => "mlecin",
            DerivedRecipe::EcapeScp => "ecape_scp",
            DerivedRecipe::EcapeEhi01km => "ecape_ehi_0_1km",
            DerivedRecipe::EcapeEhi03km => "ecape_ehi_0_3km",
            DerivedRecipe::EcapeStp => "ecape_stp",
            DerivedRecipe::ThetaE2m10mWinds => "theta_e_2m_10m_winds",
            DerivedRecipe::Vpd2m => "vpd_2m",
            DerivedRecipe::DewpointDepression2m => "dewpoint_depression_2m",
            DerivedRecipe::Wetbulb2m => "wetbulb_2m",
            DerivedRecipe::FireWeatherComposite => "fire_weather_composite",
            DerivedRecipe::ApparentTemperature2m => "apparent_temperature_2m",
            DerivedRecipe::HeatIndex2m => "heat_index_2m",
            DerivedRecipe::WindChill2m => "wind_chill_2m",
            DerivedRecipe::LiftedIndex => "lifted_index",
            DerivedRecipe::LapseRate700500 => "lapse_rate_700_500",
            DerivedRecipe::LapseRate03km => "lapse_rate_0_3km",
            DerivedRecipe::BulkShear01km => "bulk_shear_0_1km",
            DerivedRecipe::BulkShear06km => "bulk_shear_0_6km",
            DerivedRecipe::Srh01km => "srh_0_1km",
            DerivedRecipe::Srh03km => "srh_0_3km",
            DerivedRecipe::Ehi01km => "ehi_0_1km",
            DerivedRecipe::Ehi03km => "ehi_0_3km",
            DerivedRecipe::StpFixed => "stp_fixed",
            DerivedRecipe::ScpMu03km06kmProxy => "scp_mu_0_3km_0_6km_proxy",
            DerivedRecipe::TemperatureAdvection700mb => "temperature_advection_700mb",
            DerivedRecipe::TemperatureAdvection850mb => "temperature_advection_850mb",
        }
    }

    /// The display title.
    pub fn title(self) -> (title: &'static str)
        ensures
            title@ == self.spec_title()@,
    {
        match self {
            DerivedRecipe::Sbcape => "SBCAPE",
            DerivedRecipe::Sbcin => "SBCIN",
            DerivedRecipe::Sblcl => "SBLCL",
            DerivedRecipe::Mlcape => "MLCAPE",
            DerivedRecipe::Mlcin => "MLCIN",
            DerivedRecipe::Mucape => "MUCAPE",
            DerivedRecipe::Mucin => "MUCIN",
            DerivedRecipe::Dcape => "DCAPE",
            DerivedRecipe::Sbecape => "SBECAPE",
            DerivedRecipe::Mlecape => "MLECAPE",
            DerivedRecipe::Muecape => "MUECAPE",
            DerivedRecipe::SbEcapeDerivedCapeRatio => "SB ECAPE / Derived CAPE Ratio (EXP)",
            DerivedRecipe::MlEcapeDerivedCapeRatio => "ML ECAPE / Derived CAPE Ratio (EXP)",
            DerivedRecipe::MuEcapeDerivedCapeRatio => "MU ECAPE / Derived CAPE Ratio (EXP)",
            DerivedRecipe::SbEcapeNativeCapeRatio => "SB ECAPE / Native CAPE Ratio (EXP)",
            DerivedRecipe::MlEcapeNativeCapeRatio => "ML ECAPE / Native CAPE Ratio (EXP)",
            DerivedRecipe::MuEcapeNativeCapeRatio => "MU ECAPE / Native CAPE Ratio (EXP)",
            DerivedRecipe::Sbncape => "SBNCAPE",
            DerivedRecipe::Sbecin => "SBECIN",
            DerivedRecipe::Mlecin => "MLECIN",
            DerivedRecipe::EcapeScp => "ECAPE SCP (EXP)",
            DerivedRecipe::EcapeEhi01km => "ECAPE EHI 0-1 km (EXP)",
            DerivedRecipe::EcapeEhi03km => "ECAPE EHI 0-3 km (EXP)",
            DerivedRecipe::EcapeStp => "ECAPE STP (EXP)",
            DerivedRecipe::ThetaE2m10mWinds => "2 m Theta-e, 10 m Wind",
            DerivedRecipe::Vpd2m => "2 m Vapor Pressure Deficit",
            DerivedRecipe::DewpointDepression2m => "2 m Dewpoint Depression",
            DerivedRecipe::Wetbulb2m => "2 m Wet-Bulb Temperature",
            DerivedRecipe::FireWeatherComposite => "Fire Weather Composite",
            DerivedRecipe::ApparentTemperature2m => "2 m Apparent Temperature",
            DerivedRecipe::HeatIndex2m => "2 m Heat Index",
            DerivedRecipe::WindChill2m => "2 m Wind Chill",
            DerivedRecipe::LiftedIndex => "Surface-Based Lifted Index",
            DerivedRecipe::LapseRate700500 => "700-500 mb Virtual Temperature Lapse Rate",
            DerivedRecipe::LapseRate03km => "0-3 km Lapse Rate",
            DerivedRecipe::BulkShear01km => "0-1 km Bulk Shear",
            DerivedRecipe::BulkShear06km => "0-6 km Bulk Shear",
            DerivedRecipe::Srh01km => "0-1 km SRH",
            DerivedRecipe::Srh03km => "0-3 km SRH",
            DerivedRecipe::Ehi01km => "EHI 0-1 km",
            DerivedRecipe::Ehi03km => "EHI 0-3 km",
            DerivedRecipe::StpFixed => "STP (FIXED)",
            DerivedRecipe::ScpMu03km06kmProxy => "SCP (MU / 0-3 km / 0-6 km PROXY)",
            DerivedRecipe::TemperatureAdvection700mb => "700 mb Temperature Advection",
            DerivedRecipe::TemperatureAdvection850mb => "850 mb Temperature Advection",
        }
    }

    /// The drawing style.
    pub fn visual_mode(self) -> (mode: ProductVisualMode)
        ensures
            mode == self.spec_visual_mode(),
    {
        match self {
            DerivedRecipe::ThetaE2m10mWinds
            | DerivedRecipe::TemperatureAdvection700mb
            | DerivedRecipe::TemperatureAdvection850mb => ProductVisualMode::UpperAirAnalysis,
            DerivedRecipe::Vpd2m
            | DerivedRecipe::DewpointDepression2m
            | DerivedRecipe::Wetbulb2m
            | DerivedRecipe::ApparentTemperature2m
            | DerivedRecipe::HeatIndex2m
            | DerivedRecipe::WindChill2m => ProductVisualMode::FilledMeteorology,
            _ => ProductVisualMode::SevereDiagnostic,
        }
    }

    /// Whether the recipe runs on the cropped heavy entraining-parcel path.
    pub fn is_heavy(self) -> (heavy: bool)
        ensures
            heavy == self.spec_is_heavy(),
    {
        match self {
            DerivedRecipe::Sbecape
            | DerivedRecipe::Mlecape
            | DerivedRecipe::Muecape
            | DerivedRecipe::SbEcapeDerivedCapeRatio
            | DerivedRecipe::MlEcapeDerivedCapeRatio
            | DerivedRecipe::MuEcapeDerivedCapeRatio
            | DerivedRecipe::SbEcapeNativeCapeRatio
            | DerivedRecipe::MlEcapeNativeCapeRatio
            | DerivedRecipe::MuEcapeNativeCapeRatio
            | DerivedRecipe::Sbncape
            | DerivedRecipe::Sbecin
            | DerivedRecipe::Mlecin
            | DerivedRecipe::EcapeScp
            | DerivedRecipe::EcapeEhi01km
            | DerivedRecipe::EcapeEhi03km
            | DerivedRecipe::EcapeStp => true,
            _ => false,
        }
    }
}

/// The normal form of a slug.
pub fn normalize_slug(value: &str) -> (slug: String)
    ensures
        slug@ == normalized_slug(value@),
{
    let trimmed_value = trim(value);
    let lower = to_lowercase(trimmed_value.as_str());
    let chars = to_chars(lower.as_str());
    let mut slug = String::new();
    let mut i: usize = 0;
    while i < chars.len()
        invariant
            i <= chars.len(),
            chars@ == text::lowercased(text::trimmed(value@)),
            slug@ =~= normalized_slug(value@).take(i as int),
        decreases chars.len() - i,
    {
        let c = chars[i];
        slug.push(if c == '-' || c == ' ' { '_' } else { c });
        i += 1;
    }
    assert(normalized_slug(value@).take(i as int) =~= normalized_slug(value@));
    slug
}

} // verus!
