//! Field selectors, and the recipes that say which fields a map is drawn from.
use vstd::prelude::*;

verus! {

/// The quantity that a selector asks for. The quantities that no rule tells
/// apart are numbered.
#[derive(Debug, Clone, Copy, PartialEq, Eq, Structural)]
pub enum CanonicalField {
    AbsoluteVorticity,
    ColumnIntegratedSmoke,
    GeopotentialHeight,
    PrecipitableWater,
    Pressure,
    PressureReducedToMeanSeaLevel,
    SmokeMassDensity,
    TotalPrecipitation,
    Visibility,
    WindGust,
    WindSpeed,
    Other(u16),
}

/// The level or layer that a selector asks for.
#[derive(Debug, Clone, Copy, PartialEq, Eq, Structural)]
pub enum VerticalSelector {
    Surface,
    MeanSeaLevel,
    EntireAtmosphere,
    IsobaricHpa(u16),
    HeightAboveGroundMeters(u16),
    HeightAboveGroundLayerMeters(u16, u16),
    Other(u16),
}

/// The statistic that a selector asks for.
#[derive(Debug, Clone, Copy, PartialEq, Eq, Structural)]
pub enum FieldProduct {
    Deterministic,
    Percentile(u8),
    EnsembleStandardDeviation,
    EnsembleSpread,
    Other(u16),
}

/// What picks one field out of a model file.
#[derive(Debug, Clone, Copy, PartialEq, Eq, Structural)]
pub struct FieldSelector {
    pub field: CanonicalField,
    pub vertical: VerticalSelector,
    pub product: FieldProduct,
}

impl FieldSelector {
    /// A quantity at the surface.
    pub open spec fn spec_surface(field: CanonicalField) -> FieldSelector {
        FieldSelector {
            field,
            vertical: VerticalSelector::Surface,
            product: FieldProduct::Deterministic,
        }
    }

    /// A quantity at the surface.
    pub fn surface(field: CanonicalField) -> (selector: FieldSelector)
        ensures
            selector == FieldSelector::spec_surface(field),
    {
        FieldSelector {
            field,
            vertical: VerticalSelector::Surface,
            product: FieldProduct::Deterministic,
        }
    }

    /// A quantity on a pressure level.
    pub fn isobaric(field: CanonicalField, level_hpa: u16) -> (selector: FieldSelector)
        ensures
            selector.field == field,
            selector.vertical == VerticalSelector::IsobaricHpa(level_hpa),
            selector.product == FieldProduct::Deterministic,
    {
        FieldSelector {
            field,
            vertical: VerticalSelector::IsobaricHpa(level_hpa),
            product: FieldProduct::Deterministic,
        }
    }

    /// A quantity at a height above the ground.
    pub fn height_agl(field: CanonicalField, height_m: u16) -> (selector: FieldSelector)
        ensures
            selector.field == field,
            selector.vertical == VerticalSelector::HeightAboveGroundMeters(height_m),
            selector.product == FieldProduct::Deterministic,
    {
        FieldSelector {
            field,
            vertical: VerticalSelector::HeightAboveGroundMeters(height_m),
            product: FieldProduct::Deterministic,
        }
    }

    /// A quantity at mean sea level.
    pub fn mean_sea_level(field: CanonicalField) -> (selector: FieldSelector)
        ensures
            selector.field == field,
            selector.vertical == VerticalSelector::MeanSeaLevel,
            selector.product == FieldProduct::Deterministic,
    {
        FieldSelector {
            field,
            vertical: VerticalSelector::MeanSeaLevel,
            product: FieldProduct::Deterministic,
        }
    }

    /// A quantity of the whole column.
    pub fn entire_atmosphere(field: CanonicalField) -> (selector: FieldSelector)
        ensures
            selector.field == field,
            selector.vertical == VerticalSelector::EntireAtmosphere,
            selector.product == FieldProduct::Deterministic,
    {
        FieldSelector {
            field,
            vertical: VerticalSelector::EntireAtmosphere,
            product: FieldProduct::Deterministic,
        }
    }

    /// Whether the selector asks for the spread of an ensemble.
    pub open spec fn spread(self) -> bool {
        self.product is EnsembleStandardDeviation || self.product is EnsembleSpread
    }

    /// Whether the selector asks for a field two metres above the ground.
    pub open spec fn two_metres(self) -> bool {
        self.vertical == VerticalSelector::HeightAboveGroundMeters(2)
    }
}

/// Whether a selector asks for the spread of an ensemble.
pub fn selector_is_spread_product(selector: FieldSelector) -> (yes: bool)
    ensures
        yes == selector.spread(),
{
    matches!(
        selector.product,
        FieldProduct::EnsembleStandardDeviation | FieldProduct::EnsembleSpread
    )
}

/// The colour family of a map. The families that no rule tells apart are
/// numbered.
#[derive(Debug, Clone, Copy, PartialEq, Eq, Structural)]
pub enum RenderStyle {
    WeatherDewpoint,
    WeatherHeight,
    WeatherQpf,
    WeatherRh,
    WeatherTemperature,
    Other(u16),
}

/// A selector and the name under which it is reported.
#[derive(Debug)]
pub struct SelectorBinding {
    pub selector: FieldSelector,
    pub key: String,
}

/// How a map is drawn: the filled field, the contour lines and the wind barbs.
/// A layer that the recipe has may still lack a selector.
#[derive(Debug)]
pub struct PlotRecipe {
    pub slug: String,
    pub title: String,
    pub style: RenderStyle,
    pub filled: Option<SelectorBinding>,
    pub contours: Option<Option<FieldSelector>>,
    pub barbs_u: Option<Option<FieldSelector>>,
    pub barbs_v: Option<Option<FieldSelector>>,
}

impl PlotRecipe {
    /// The selector of the filled field.
    pub open spec fn spec_filled(self) -> Option<FieldSelector> {
        match self.filled {
            Some(binding) => Some(binding.selector),
            None => None,
        }
    }

    /// The selector of the filled field.
    pub fn filled_selector(&self) -> (selector: Option<FieldSelector>)
        ensures
            selector == self.spec_filled(),
    {
        match &self.filled {
            Some(binding) => Some(binding.selector),
            None => None,
        }
    }

    /// The selectors of the wind components, if the recipe binds both.
    pub open spec fn spec_winds(self) -> Option<(FieldSelector, FieldSelector)> {
        match (self.barbs_u, self.barbs_v) {
            (Some(Some(u)), Some(Some(v))) => Some((u, v)),
            _ => None,
        }
    }

    /// The selectors of the wind components, if the recipe binds both.
    pub fn winds(&self) -> (selectors: Option<(FieldSelector, FieldSelector)>)
        ensures
            selectors == self.spec_winds(),
    {
        match (self.barbs_u, self.barbs_v) {
            (Some(Some(u)), Some(Some(v))) => Some((u, v)),
            _ => None,
        }
    }
}

/// What a recipe needs from a model: the product family, the message patterns
/// and the selectors.
#[derive(Debug)]
pub struct FetchPlan {
    pub product: String,
    pub selectors: Vec<FieldSelector>,
    pub variable_patterns: Vec<String>,
}

/// Whether a selector is in a list.
pub fn contains_selector(list: &[FieldSelector], selector: FieldSelector) -> (found: bool)
    ensures
        found == list@.contains(selector),
{
    let mut i: usize = 0;
    while i < list.len()
        invariant
            i <= list@.len(),
            forall|k: int| 0 <= k < i ==> list@[k] != selector,
        decreases list@.len() - i,
    {
        if list[i] == selector {
            return true;
        }
        i = i + 1;
    }
    false
}

/// A field looked up by its selector in a list of fields: where it stands.
pub open spec fn position<F>(fields: Seq<(FieldSelector, F)>, selector: FieldSelector) -> Option<
    int,
>
    decreases fields.len(),
{
    if fields.len() == 0 {
        None
    } else {
        match position(fields.drop_last(), selector) {
            Some(at) => Some(at),
            None => if fields.last().0 == selector {
                Some(fields.len() - 1)
            } else {
                None
            },
        }
    }
}

/// Where the first field of a selector stands, if the list holds one.
pub proof fn lemma_position<F>(fields: Seq<(FieldSelector, F)>, selector: FieldSelector)
    ensures
        match position(fields, selector) {
            Some(at) => {
                &&& 0 <= at < fields.len()
                &&& fields[at].0 == selector
                &&& forall|k: int| 0 <= k < at ==> (#[trigger] fields[k]).0 != selector
            },
            None => forall|k: int| 0 <= k < fields.len() ==> (#[trigger] fields[k]).0 != selector,
        },
    decreases fields.len(),
{
    if fields.len() > 0 {
        let init = fields.drop_last();
        lemma_position(init, selector);
        assert forall|k: int| 0 <= k < init.len() implies #[trigger] fields[k] == init[k] by {}
    }
}

/// Finds a field by its selector.
pub fn find_field<F>(fields: &[(FieldSelector, F)], selector: FieldSelector) -> (at: Option<usize>)
    ensures
        match at {
            Some(at) => position(fields@, selector) == Some(at as int) && at < fields@.len()
                && fields@[at as int].0 == selector,
            None => position(fields@, selector) is None,
        },
{
    let mut i: usize = 0;
    while i < fields.len()
        invariant
            i <= fields@.len(),
            forall|k: int| 0 <= k < i ==> (#[trigger] fields@[k]).0 != selector,
        decreases fields@.len() - i,
    {
        if fields[i].0 == selector {
            proof {
                lemma_position(fields@, selector);
                assert(fields@[i as int].0 == selector);
            }
            return Some(i);
        }
        i = i + 1;
    }
    proof {
        lemma_position(fields@, selector);
    }
    None
}

} // verus!
