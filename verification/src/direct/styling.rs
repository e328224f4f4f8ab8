//! How a direct map is styled: its drawing style, its colour bar, its units and
//! the layers over its filled field.
use crate::direct::recipe;
use crate::direct::recipe::{
    find_field, selector_is_spread_product, CanonicalField, FieldSelector, PlotRecipe, RenderStyle,
    VerticalSelector,
};
use crate::model::{ProductVisualMode, SourceId};
use crate::text;
use crate::text::{contains_str, str_eq, to_lowercase};
use vstd::prelude::*;
use vstd::string::*;

verus! {

/// How a colour bar is drawn.
#[derive(Debug, Clone, Copy, PartialEq, Eq, Structural)]
pub enum LegendMode {
    Stepped,
}

/// What a recipe changes of the colour bar: how it is drawn and the step between
/// its ticks.
#[derive(Debug, Clone, Copy, PartialEq, Eq, Structural)]
pub struct RenderControls {
    pub legend_mode: Option<LegendMode>,
    pub tick_step: Option<u32>,
}

/// What a recipe changes of the colour bar. Dewpoints are stepped, by ten at two
/// metres; relative humidity at two metres is stepped by twenty-five.
pub open spec fn controls(style: RenderStyle, selector: FieldSelector) -> RenderControls {
    if style is WeatherDewpoint {
        RenderControls {
            legend_mode: Some(LegendMode::Stepped),
            tick_step: if selector.two_metres() {
                Some(10)
            } else {
                None
            },
        }
    } else if style is WeatherRh && selector.two_metres() {
        RenderControls { legend_mode: Some(LegendMode::Stepped), tick_step: Some(25) }
    } else {
        RenderControls { legend_mode: None, tick_step: None }
    }
}

/// What a recipe changes of the colour bar.
pub fn direct_recipe_render_controls(recipe: &PlotRecipe, filled_selector: FieldSelector) -> (changed:
    RenderControls)
    ensures
        changed == controls(recipe.style, filled_selector),
{
    let two_metres = matches!(
        filled_selector.vertical,
        VerticalSelector::HeightAboveGroundMeters(2)
    );
    if matches!(recipe.style, RenderStyle::WeatherDewpoint) {
        RenderControls {
            legend_mode: Some(LegendMode::Stepped),
            tick_step: if two_metres {
                Some(10)
            } else {
                None
            },
        }
    } else if matches!(recipe.style, RenderStyle::WeatherRh) && two_metres {
        RenderControls { legend_mode: Some(LegendMode::Stepped), tick_step: Some(25) }
    } else {
        RenderControls { legend_mode: None, tick_step: None }
    }
}

/// Whether a map has lines only: heights without contours of their own.
pub open spec fn lines_only(selector: FieldSelector, has_contours: bool) -> bool {
    !has_contours && selector.field is GeopotentialHeight
}

/// Whether a map has lines only.
pub fn should_render_overlay_only(selector: FieldSelector, has_explicit_contours: bool) -> (yes:
    bool)
    ensures
        yes == lines_only(selector, has_explicit_contours),
{
    !has_explicit_contours && matches!(selector.field, CanonicalField::GeopotentialHeight)
}

/// Whether a slug names a severe-weather diagnostic. Case does not matter.
pub open spec fn severe(slug: Seq<char>) -> bool {
    let name = text::lowercased(slug);
    ||| text::occurs(name, "cape"@)
    ||| text::occurs(name, "cin"@)
    ||| text::occurs(name, "stp"@)
    ||| text::occurs(name, "scp"@)
    ||| text::occurs(name, "ehi"@)
    ||| text::occurs(name, "srh"@)
    ||| text::occurs(name, "shear"@)
    ||| text::occurs(name, "lapse"@)
    ||| text::occurs(name, "uh"@)
    ||| text::occurs(name, "helicity"@)
}

fn is_severe(slug: &str) -> (yes: bool)
    ensures
        yes == severe(slug@),
{
    let lowered = to_lowercase(slug);
    let name = lowered.as_str();
    contains_str(name, "cape") || contains_str(name, "cin") || contains_str(name, "stp")
        || contains_str(name, "scp") || contains_str(name, "ehi") || contains_str(name, "srh")
        || contains_str(name, "shear") || contains_str(name, "lapse") || contains_str(name, "uh")
        || contains_str(name, "helicity")
}

/// The drawing style of a map.
pub open spec fn visual_mode(
    recipe: PlotRecipe,
    selector: FieldSelector,
    overlay_only: bool,
) -> ProductVisualMode {
    if overlay_only {
        ProductVisualMode::OverlayAnalysis
    } else if recipe.style is WeatherHeight || selector.vertical is IsobaricHpa {
        ProductVisualMode::UpperAirAnalysis
    } else if severe(recipe.slug@) {
        ProductVisualMode::SevereDiagnostic
    } else {
        ProductVisualMode::FilledMeteorology
    }
}

/// The drawing style of a map.
pub fn visual_mode_for_direct_recipe(
    recipe: &PlotRecipe,
    selector: FieldSelector,
    overlay_only: bool,
) -> (mode: ProductVisualMode)
    ensures
        mode == visual_mode(*recipe, selector, overlay_only),
{
    if overlay_only {
        return ProductVisualMode::OverlayAnalysis;
    }
    if matches!(recipe.style, RenderStyle::WeatherHeight) || matches!(
        selector.vertical,
        VerticalSelector::IsobaricHpa(_)
    ) {
        return ProductVisualMode::UpperAirAnalysis;
    }
    if is_severe(recipe.slug.as_str()) {
        return ProductVisualMode::SevereDiagnostic;
    }
    ProductVisualMode::FilledMeteorology
}

/// The drawing style of a recipe that fills a selector.
pub open spec fn recipe_mode(recipe: PlotRecipe, selector: FieldSelector) -> ProductVisualMode {
    visual_mode(recipe, selector, lines_only(selector, recipe.contours is Some))
}

/// The drawing style of a recipe that fills a selector.
pub fn mode_of_recipe(recipe: &PlotRecipe, selector: FieldSelector) -> (mode: ProductVisualMode)
    ensures
        mode == recipe_mode(*recipe, selector),
{
    let overlay_only = should_render_overlay_only(selector, recipe.contours.is_some());
    visual_mode_for_direct_recipe(recipe, selector, overlay_only)
}

/// A change of units.
#[derive(Debug, Clone, Copy, PartialEq, Eq, Structural)]
pub enum UnitConvert {
    Keep,
    KelvinToCelsius,
    KelvinToFahrenheit,
    KgM2ToMgM2,
    KgM3ToUgM3,
    MetersToMiles,
    MmToInches,
    MsToKnots,
    PaToHpa,
    PerSecondToE5PerSecond,
}

/// The change of units of a filled field, and the units that it is shown in if
/// they are not its own.
pub open spec fn fill_conversion(style: RenderStyle, selector: FieldSelector) -> (
    UnitConvert,
    Option<Seq<char>>,
) {
    if selector.field is SmokeMassDensity {
        (UnitConvert::KgM3ToUgM3, Some("ug/m^3"@))
    } else if selector.field is ColumnIntegratedSmoke {
        (UnitConvert::KgM2ToMgM2, Some("mg/m^2"@))
    } else if style is WeatherTemperature || style is WeatherDewpoint {
        if selector.spread() {
            (UnitConvert::Keep, Some("K"@))
        } else if selector.two_metres() {
            (UnitConvert::KelvinToFahrenheit, Some("degF"@))
        } else {
            (UnitConvert::KelvinToCelsius, Some("degC"@))
        }
    } else if selector.field is PressureReducedToMeanSeaLevel {
        (UnitConvert::PaToHpa, Some("hPa"@))
    } else if selector.field is PrecipitableWater {
        (UnitConvert::MmToInches, Some("in"@))
    } else if selector.field is Visibility {
        (UnitConvert::MetersToMiles, Some("mi"@))
    } else if selector.field is AbsoluteVorticity {
        (UnitConvert::PerSecondToE5PerSecond, Some("10^-5 s^-1"@))
    } else if selector.field is WindSpeed || selector.field is WindGust {
        (UnitConvert::MsToKnots, Some("kt"@))
    } else if selector.field is TotalPrecipitation {
        if style is WeatherQpf {
            (UnitConvert::MmToInches, Some("in"@))
        } else {
            (UnitConvert::Keep, Some("mm"@))
        }
    } else {
        (UnitConvert::Keep, None)
    }
}

/// The units that a change of units leads to, where it changes any.
pub open spec fn units_after(convert: UnitConvert) -> Option<Seq<char>> {
    match convert {
        UnitConvert::Keep => None,
        UnitConvert::KelvinToCelsius => Some("degC"@),
        UnitConvert::KelvinToFahrenheit => Some("degF"@),
        UnitConvert::KgM2ToMgM2 => Some("mg/m^2"@),
        UnitConvert::KgM3ToUgM3 => Some("ug/m^3"@),
        UnitConvert::MetersToMiles => Some("mi"@),
        UnitConvert::MmToInches => Some("in"@),
        UnitConvert::MsToKnots => Some("kt"@),
        UnitConvert::PaToHpa => Some("hPa"@),
        UnitConvert::PerSecondToE5PerSecond => Some("10^-5 s^-1"@),
    }
}

/// The text of an optional literal.
pub open spec fn label(value: Option<&'static str>) -> Option<Seq<char>> {
    match value {
        Some(value) => Some(value@),
        None => None,
    }
}

/// The change of units of a filled field, and the units that it is shown in.
pub fn direct_fill_unit_conversion(recipe: &PlotRecipe, selector: FieldSelector) -> (conversion: (
    UnitConvert,
    Option<&'static str>,
))
    ensures
        conversion.0 == fill_conversion(recipe.style, selector).0,
        label(conversion.1) == fill_conversion(recipe.style, selector).1,
        conversion.0 !is Keep ==> label(conversion.1) == units_after(conversion.0),
        conversion.0 is Keep ==> {
            ||| conversion.1 is None
            ||| label(conversion.1) == Some("K"@)
            ||| label(conversion.1) == Some("mm"@)
        },
{
    match selector.field {
        CanonicalField::SmokeMassDensity => {
            return (UnitConvert::KgM3ToUgM3, Some("ug/m^3"));
        },
        CanonicalField::ColumnIntegratedSmoke => {
            return (UnitConvert::KgM2ToMgM2, Some("mg/m^2"));
        },
        _ => {},
    }
    if matches!(recipe.style, RenderStyle::WeatherTemperature | RenderStyle::WeatherDewpoint) {
        if selector_is_spread_product(selector) {
            return (UnitConvert::Keep, Some("K"));
        }
        if matches!(selector.vertical, VerticalSelector::HeightAboveGroundMeters(2)) {
            return (UnitConvert::KelvinToFahrenheit, Some("degF"));
        }
        return (UnitConvert::KelvinToCelsius, Some("degC"));
    }
    match selector.field {
        CanonicalField::PressureReducedToMeanSeaLevel => (UnitConvert::PaToHpa, Some("hPa")),
        CanonicalField::PrecipitableWater => (UnitConvert::MmToInches, Some("in")),
        CanonicalField::Visibility => (UnitConvert::MetersToMiles, Some("mi")),
        CanonicalField::AbsoluteVorticity => (
            UnitConvert::PerSecondToE5PerSecond,
            Some("10^-5 s^-1"),
        ),
        CanonicalField::WindSpeed => (UnitConvert::MsToKnots, Some("kt")),
        CanonicalField::WindGust => (UnitConvert::MsToKnots, Some("kt")),
        CanonicalField::TotalPrecipitation => if matches!(recipe.style, RenderStyle::WeatherQpf) {
            (UnitConvert::MmToInches, Some("in"))
        } else {
            (UnitConvert::Keep, Some("mm"))
        },
        _ => (UnitConvert::Keep, None),
    }
}

/// A filled field as it is drawn: the product that names it, its units and its
/// values.
pub struct RenderField<T> {
    pub product: String,
    pub units: String,
    pub values: Vec<T>,
}

/// Whether values are those of a field after a change of units. A field whose
/// units stay keeps its values.
pub open spec fn converted<T, C: Fn(UnitConvert, T) -> T>(
    values: Seq<T>,
    convert: UnitConvert,
    apply: C,
    result: Seq<T>,
) -> bool {
    if convert is Keep {
        result == values
    } else {
        &&& result.len() == values.len()
        &&& forall|k: int|
            0 <= k < values.len() ==> call_ensures(apply, (convert, values[k]), #[trigger] result[k])
    }
}

/// The units that a filled field is shown in.
pub open spec fn shown_units(recipe: PlotRecipe, selector: FieldSelector, own: Seq<char>) -> Seq<
    char,
> {
    match fill_conversion(recipe.style, selector).1 {
        Some(units) => units,
        None => own,
    }
}

/// Converts a filled field to the units that it is shown in. `apply` changes one
/// value.
pub fn convert_filled_field<T: Copy, C: Fn(UnitConvert, T) -> T>(
    recipe: &PlotRecipe,
    selector: FieldSelector,
    product: &str,
    units: &str,
    values: &[T],
    apply: &C,
) -> (field: RenderField<T>)
    requires
        forall|convert: UnitConvert, value: T| #[trigger] call_requires(*apply, (convert, value)),
    ensures
        field.product@ == product@,
        field.units@ == shown_units(*recipe, selector, units@),
        converted(
            values@,
            fill_conversion(recipe.style, selector).0,
            *apply,
            field.values@,
        ),
{
    let (convert, shown) = direct_fill_unit_conversion(recipe, selector);
    let mut result: Vec<T> = Vec::new();
    let mut i: usize = 0;
    while i < values.len()
        invariant
            i <= values@.len(),
            result@.len() == i,
            forall|c: UnitConvert, value: T| #[trigger] call_requires(*apply, (c, value)),
            convert is Keep ==> forall|k: int| 0 <= k < i ==> result@[k] == values@[k],
            !(convert is Keep) ==> forall|k: int|
                0 <= k < i ==> call_ensures(*apply, (convert, values@[k]), #[trigger] result@[k]),
        decreases values@.len() - i,
    {
        if matches!(convert, UnitConvert::Keep) {
            result.push(values[i]);
        } else {
            result.push(apply(convert, values[i]));
        }
        i = i + 1;
    }
    proof {
        if convert is Keep {
            assert(result@ =~= values@);
        }
    }
    RenderField {
        product: product.to_owned(),
        units: match shown {
            Some(shown) => shown.to_owned(),
            None => units.to_owned(),
        },
        values: result,
    }
}

/// Whether a recipe fills with the speed of its wind: sea-level pressure with
/// winds, and heights.
pub open spec fn fills_with_wind(recipe: PlotRecipe, selector: FieldSelector) -> bool {
    ||| recipe.slug@ == "mslp_10m_winds"@
    ||| recipe.slug@ == "gefs_avg_mslp_10m_winds"@
    ||| recipe.style is WeatherHeight && selector.field is GeopotentialHeight
}

/// Where the wind components stand that a recipe draws, if both were read.
pub open spec fn winds_at<F>(recipe: PlotRecipe, extracted: Seq<(FieldSelector, F)>) -> Option<
    (int, int),
> {
    match recipe.spec_winds() {
        Some((u, v)) => match (recipe::position(extracted, u), recipe::position(extracted, v)) {
            (Some(u_at), Some(v_at)) => Some((u_at, v_at)),
            _ => None,
        },
        None => None,
    }
}

/// Where the wind components stand that a recipe draws, if both were read.
pub fn find_winds<F>(recipe: &PlotRecipe, extracted: &[(FieldSelector, F)]) -> (at: Option<
    (usize, usize),
>)
    ensures
        match at {
            Some((u_at, v_at)) => winds_at(*recipe, extracted@) == Some((u_at as int, v_at as int))
                && u_at < extracted@.len() && v_at < extracted@.len(),
            None => winds_at(*recipe, extracted@) is None,
        },
{
    match recipe.winds() {
        Some((u, v)) => match (find_field(extracted, u), find_field(extracted, v)) {
            (Some(u_at), Some(v_at)) => Some((u_at, v_at)),
            _ => None,
        },
        None => None,
    }
}

/// Where the wind components stand whose speed a recipe fills with, if it does.
pub open spec fn companion_winds<F>(
    recipe: PlotRecipe,
    selector: FieldSelector,
    extracted: Seq<(FieldSelector, F)>,
) -> Option<(int, int)> {
    if fills_with_wind(recipe, selector) {
        winds_at(recipe, extracted)
    } else {
        None
    }
}

/// Where the wind components stand whose speed a recipe fills with, if it does.
pub fn companion_wind_fields<F>(
    recipe: &PlotRecipe,
    selector: FieldSelector,
    extracted: &[(FieldSelector, F)],
) -> (at: Option<(usize, usize)>)
    ensures
        match at {
            Some((u_at, v_at)) => companion_winds(*recipe, selector, extracted@) == Some(
                (u_at as int, v_at as int),
            ) && u_at < extracted@.len() && v_at < extracted@.len(),
            None => companion_winds(*recipe, selector, extracted@) is None,
        },
{
    let fills = str_eq(recipe.slug.as_str(), "mslp_10m_winds") || str_eq(
        recipe.slug.as_str(),
        "gefs_avg_mslp_10m_winds",
    ) || (matches!(recipe.style, RenderStyle::WeatherHeight) && matches!(
        selector.field,
        CanonicalField::GeopotentialHeight
    ));
    if !fills {
        return None;
    }
    find_winds(recipe, extracted)
}

/// The speed of a wind, value by value, under the name of a recipe. `speed` gives
/// the speed of one pair of components in knots.
pub fn companion_wind_speed_fill<T: Copy, S: Fn(T, T) -> T>(
    recipe: &PlotRecipe,
    u_values: &[T],
    v_values: &[T],
    speed: &S,
) -> (field: RenderField<T>)
    requires
        u_values@.len() <= v_values@.len(),
        forall|u: T, v: T| #[trigger] call_requires(*speed, (u, v)),
    ensures
        field.product@ == recipe.slug@ + "_wind_speed"@,
        field.units@ == "kt"@,
        field.values@.len() == u_values@.len(),
        forall|k: int|
            0 <= k < u_values@.len() ==> call_ensures(
                *speed,
                (u_values@[k], v_values@[k]),
                #[trigger] field.values@[k],
            ),
{
    let mut values: Vec<T> = Vec::new();
    let mut i: usize = 0;
    while i < u_values.len()
        invariant
            i <= u_values@.len(),
            u_values@.len() <= v_values@.len(),
            values@.len() == i,
            forall|u: T, v: T| #[trigger] call_requires(*speed, (u, v)),
            forall|k: int|
                0 <= k < i ==> call_ensures(
                    *speed,
                    (u_values@[k], v_values@[k]),
                    #[trigger] values@[k],
                ),
        decreases u_values@.len() - i,
    {
        values.push(speed(u_values[i], v_values[i]));
        i = i + 1;
    }
    RenderField {
        product: recipe.slug.clone().concat("_wind_speed"),
        units: "kt".to_owned(),
        values,
    }
}

/// How the cells of a field are read between grid points.
#[derive(Debug, Clone, Copy, PartialEq, Eq, Structural)]
pub enum RasterSampleMode {
    Nearest,
    Linear,
}

/// How the cells of a field of a source are read: those of the inference source are
/// never read by the nearest point.
pub open spec fn sampled_by(source: SourceId, mode: RasterSampleMode) -> RasterSampleMode {
    if source is AifsInference {
        RasterSampleMode::Linear
    } else {
        mode
    }
}

/// How the cells of a field are read: those of the inference source are never
/// read by the nearest point.
pub fn apply_source_raster_policy(source: SourceId, mode: RasterSampleMode) -> (applied:
    RasterSampleMode)
    ensures
        applied == sampled_by(source, mode),
{
    if matches!(source, SourceId::AifsInference) && matches!(mode, RasterSampleMode::Nearest) {
        RasterSampleMode::Linear
    } else {
        mode
    }
}

/// Where the contour field of a recipe stands, if it was read.
pub open spec fn contours_at<F>(recipe: PlotRecipe, extracted: Seq<(FieldSelector, F)>) -> Option<
    int,
> {
    match recipe.contours {
        Some(Some(selector)) => recipe::position(extracted, selector),
        _ => None,
    }
}

/// The pressure level below which a map is masked, and where the surface pressure
/// stands, if it was read.
pub open spec fn below_ground<F>(
    selector: FieldSelector,
    extracted: Seq<(FieldSelector, F)>,
) -> Option<(u16, int)> {
    match selector.vertical {
        VerticalSelector::IsobaricHpa(level) => match recipe::position(
            extracted,
            FieldSelector::spec_surface(CanonicalField::Pressure),
        ) {
            Some(at) => Some((level, at)),
            None => None,
        },
        _ => None,
    }
}

/// A filled field that is shown in units of a change was changed in that way, and one
/// that was changed is shown in the units that the change leads to. A field that is not
/// changed keeps its own units: they are told for a spread of temperatures and for
/// precipitation depths, and else left as they came.
pub proof fn law_shown_units_are_those_of_the_change(style: RenderStyle, selector: FieldSelector)
    ensures
        ({
            let (convert, shown) = fill_conversion(style, selector);
            &&& shown == Some("kt"@) <==> convert is MsToKnots
            &&& shown == Some("hPa"@) <==> convert is PaToHpa
            &&& shown == Some("in"@) <==> convert is MmToInches
            &&& shown == Some("mi"@) <==> convert is MetersToMiles
            &&& shown == Some("degF"@) <==> convert is KelvinToFahrenheit
            &&& shown == Some("degC"@) <==> convert is KelvinToCelsius
            &&& shown == Some("ug/m^3"@) <==> convert is KgM3ToUgM3
            &&& shown == Some("mg/m^2"@) <==> convert is KgM2ToMgM2
            &&& shown == Some("10^-5 s^-1"@) <==> convert is PerSecondToE5PerSecond
            &&& convert is Keep <==> shown is None || shown == Some("K"@) || shown == Some("mm"@)
            &&& shown == Some("K"@) ==> selector.product is EnsembleStandardDeviation
                || selector.product is EnsembleSpread
            &&& shown == Some("mm"@) ==> selector.field is TotalPrecipitation
        }),
{
    lemma_unit_texts();
}

/// Unless the style is one of temperatures, a field is shown in the units of its own
/// quantity, whatever the style: winds and gusts in knots, sea-level pressure in hPa,
/// precipitable water in inches, visibility in miles, vorticity in its small unit.
/// Precipitation is shown in inches or millimetres.
pub proof fn law_quantities_have_their_units(style: RenderStyle, selector: FieldSelector)
    requires
        !(style is WeatherTemperature),
        !(style is WeatherDewpoint),
    ensures
        ({
            let (convert, shown) = fill_conversion(style, selector);
            &&& selector.field is WindSpeed || selector.field is WindGust <==> convert is MsToKnots
            &&& selector.field is PressureReducedToMeanSeaLevel <==> convert is PaToHpa
            &&& selector.field is Visibility <==> convert is MetersToMiles
            &&& selector.field is AbsoluteVorticity <==> convert is PerSecondToE5PerSecond
            &&& selector.field is SmokeMassDensity <==> convert is KgM3ToUgM3
            &&& selector.field is ColumnIntegratedSmoke <==> convert is KgM2ToMgM2
            &&& convert is MmToInches <==> selector.field is PrecipitableWater || (
            selector.field is TotalPrecipitation && style is WeatherQpf)
            &&& convert !is KelvinToCelsius
            &&& convert !is KelvinToFahrenheit
            &&& shown is None <==> {
                ||| selector.field is GeopotentialHeight
                ||| selector.field is Pressure
                ||| selector.field is Other
            }
        }),
{
}

/// In a style of temperatures a field is read as a temperature, but for smoke: spreads
/// stay differences in Kelvin, two metres above the ground it is shown in Fahrenheit and
/// elsewhere in Celsius.
pub proof fn law_temperatures_have_their_units(style: RenderStyle, selector: FieldSelector)
    requires
        style is WeatherTemperature || style is WeatherDewpoint,
        !(selector.field is SmokeMassDensity),
        !(selector.field is ColumnIntegratedSmoke),
    ensures
        ({
            let (convert, shown) = fill_conversion(style, selector);
            let spread = selector.product is EnsembleStandardDeviation || selector.product
                is EnsembleSpread;
            let low = selector.vertical == VerticalSelector::HeightAboveGroundMeters(2);
            &&& convert is KelvinToFahrenheit <==> !spread && low
            &&& convert is KelvinToCelsius <==> !spread && !low
            &&& convert is Keep <==> spread
        }),
{
}

/// A filled field is shown with the units that its values were changed to: where the
/// units differ from those that it came in, each value went through the change that leads
/// to them, and where no change was made the values are those that came.
pub proof fn law_converted_values_are_in_the_shown_units<T, C: Fn(UnitConvert, T) -> T>(
    recipe: PlotRecipe,
    selector: FieldSelector,
    own: Seq<char>,
    values: Seq<T>,
    apply: C,
    field: RenderField<T>,
    k: int,
)
    requires
        field.units@ == shown_units(recipe, selector, own),
        converted(
            values,
            fill_conversion(recipe.style, selector).0,
            apply,
            field.values@,
        ),
        0 <= k < values.len(),
    ensures
        field.values@.len() == values.len(),
        field.units@ == own || field.units@ == "K"@ || field.units@ == "mm"@ || exists|
            convert: UnitConvert,
        |
            units_after(convert) == Some(field.units@) && #[trigger] call_ensures(
                apply,
                (convert, values[k]),
                field.values@[k],
            ),
        field.units@ == "kt"@ && own != "kt"@ ==> call_ensures(
            apply,
            (UnitConvert::MsToKnots, values[k]),
            field.values@[k],
        ),
        field.units@ == "hPa"@ && own != "hPa"@ ==> call_ensures(
            apply,
            (UnitConvert::PaToHpa, values[k]),
            field.values@[k],
        ),
        field.units@ == "K"@ || field.units@ == "mm"@ ==> field.values@[k] == values[k],
{
    lemma_unit_texts();
    law_shown_units_are_those_of_the_change(recipe.style, selector);
    let convert = fill_conversion(recipe.style, selector).0;
    if convert !is Keep {
        assert(call_ensures(apply, (convert, values[k]), field.values@[k]));
    }
}

proof fn lemma_unit_texts()
    ensures
        "kt"@ != "hPa"@,
        "kt"@ != "in"@,
        "kt"@ != "mi"@,
        "kt"@ != "degF"@,
        "kt"@ != "degC"@,
        "kt"@ != "ug/m^3"@,
        "kt"@ != "mg/m^2"@,
        "kt"@ != "10^-5 s^-1"@,
        "kt"@ != "K"@,
        "kt"@ != "mm"@,
        "hPa"@ != "in"@,
        "hPa"@ != "mi"@,
        "hPa"@ != "degF"@,
        "hPa"@ != "degC"@,
        "hPa"@ != "ug/m^3"@,
        "hPa"@ != "mg/m^2"@,
        "hPa"@ != "10^-5 s^-1"@,
        "hPa"@ != "K"@,
        "hPa"@ != "mm"@,
        "in"@ != "mi"@,
        "in"@ != "degF"@,
        "in"@ != "degC"@,
        "in"@ != "ug/m^3"@,
        "in"@ != "mg/m^2"@,
        "in"@ != "10^-5 s^-1"@,
        "in"@ != "K"@,
        "in"@ != "mm"@,
        "mi"@ != "degF"@,
        "mi"@ != "degC"@,
        "mi"@ != "ug/m^3"@,
        "mi"@ != "mg/m^2"@,
        "mi"@ != "10^-5 s^-1"@,
        "mi"@ != "K"@,
        "mi"@ != "mm"@,
        "degF"@ != "degC"@,
        "degF"@ != "ug/m^3"@,
        "degF"@ != "mg/m^2"@,
        "degF"@ != "10^-5 s^-1"@,
        "degF"@ != "K"@,
        "degF"@ != "mm"@,
        "degC"@ != "ug/m^3"@,
        "degC"@ != "mg/m^2"@,
        "degC"@ != "10^-5 s^-1"@,
        "degC"@ != "K"@,
        "degC"@ != "mm"@,
        "ug/m^3"@ != "mg/m^2"@,
        "ug/m^3"@ != "10^-5 s^-1"@,
        "ug/m^3"@ != "K"@,
        "ug/m^3"@ != "mm"@,
        "mg/m^2"@ != "10^-5 s^-1"@,
        "mg/m^2"@ != "K"@,
        "mg/m^2"@ != "mm"@,
        "10^-5 s^-1"@ != "K"@,
        "10^-5 s^-1"@ != "mm"@,
        "K"@ != "mm"@,
{
    reveal_strlit("kt");
    reveal_strlit("hPa");
    reveal_strlit("in");
    reveal_strlit("mi");
    reveal_strlit("degF");
    reveal_strlit("degC");
    reveal_strlit("ug/m^3");
    reveal_strlit("mg/m^2");
    reveal_strlit("10^-5 s^-1");
    reveal_strlit("K");
    reveal_strlit("mm");
    assert("kt"@[0] == 'k' && "kt"@.len() == 2 && "kt"@.last() == 't');
    assert("hPa"@[0] == 'h' && "hPa"@.len() == 3 && "hPa"@.last() == 'a');
    assert("in"@[0] == 'i' && "in"@.len() == 2 && "in"@.last() == 'n');
    assert("mi"@[0] == 'm' && "mi"@.len() == 2 && "mi"@.last() == 'i');
    assert("degF"@[0] == 'd' && "degF"@.len() == 4 && "degF"@.last() == 'F');
    assert("degC"@[0] == 'd' && "degC"@.len() == 4 && "degC"@.last() == 'C');
    assert("ug/m^3"@[0] == 'u' && "ug/m^3"@.len() == 6 && "ug/m^3"@.last() == '3');
    assert("mg/m^2"@[0] == 'm' && "mg/m^2"@.len() == 6 && "mg/m^2"@.last() == '2');
    assert("10^-5 s^-1"@[0] == '1' && "10^-5 s^-1"@.len() == 10 && "10^-5 s^-1"@.last() == '1');
    assert("K"@[0] == 'K' && "K"@.len() == 1 && "K"@.last() == 'K');
    assert("mm"@[0] == 'm' && "mm"@.len() == 2 && "mm"@.last() == 'm');
}

/// Heights without contours of their own are the only maps drawn in lines alone.
pub proof fn law_only_heights_are_drawn_as_lines(recipe: PlotRecipe, selector: FieldSelector)
    ensures
        (recipe_mode(recipe, selector) is OverlayAnalysis) == (selector.field is GeopotentialHeight
            && recipe.contours is None),
{
}

} // verus!
