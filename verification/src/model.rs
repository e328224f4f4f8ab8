//! Identifiers of models, data sources, bundles and drawing styles that the
//! planning rules tell apart.
use vstd::prelude::*;

verus! {

/// A forecast model.
#[derive(Debug, Clone, Copy, PartialEq, Eq, Structural)]
pub enum ModelId {
    Aifs,
    Aigefs,
    Aigfs,
    EcmwfOpenData,
    Gdas,
    Gefs,
    Gfs,
    Hgefs,
    Hiresw,
    Href,
    Hrrr,
    HrrrAk,
    Nam,
    Nbm,
    Rap,
    Refs,
    RrfsA,
    RrfsFireWx,
    RrfsPublic,
    Rtma,
    Sref,
    Urma,
    WrfGdex,
}

/// Where model data is fetched from.
#[derive(Debug, Clone, Copy, PartialEq, Eq, Structural)]
pub enum SourceId {
    AifsInference,
    Aws,
    Google,
    Nomads,
}

/// The canonical bundle of fields a product needs from a model run.
#[derive(Debug, Clone, Copy, PartialEq, Eq, Structural)]
pub enum CanonicalBundleDescriptor {
    SurfaceAnalysis,
    PressureAnalysis,
    NativeAnalysis,
}

/// How a request wants its products to be sourced.
#[derive(Debug, Clone, Copy, PartialEq, Eq, Structural)]
pub enum ProductSourceMode {
    Canonical,
    Fastest,
}

/// The route that a product's data takes.
#[derive(Debug, Clone, Copy, PartialEq, Eq, Structural)]
pub enum ProductSourceRoute {
    CanonicalDerived,
    CheapDerived,
    NativeExact,
    NativeProxy,
    BlockedNoFastRoute,
}

/// How closely a native field matches the product that it stands in for.
#[derive(Debug, Clone, Copy, PartialEq, Eq, Structural)]
pub enum NativeSemantics {
    ExactEquivalent,
    ProxyEquivalent,
}

/// The drawing style of a map.
#[derive(Debug, Clone, Copy, PartialEq, Eq, Structural)]
pub enum ProductVisualMode {
    FilledMeteorology,
    UpperAirAnalysis,
    OverlayAnalysis,
    SevereDiagnostic,
    PanelMember,
    ComparisonPanel,
}

} // verus!
