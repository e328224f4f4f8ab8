//! How direct maps are drawn, by what they show.
use crate::direct::recipe::{FieldSelector, PlotRecipe, RenderStyle};
use crate::direct::styling;
use crate::direct::styling::{LegendMode, RasterSampleMode};
use crate::model::SourceId;
use crate::text;
use vstd::prelude::*;

verus! {

/// The words in a slug that tell a severe-weather diagnostic.
pub open spec fn severe_words() -> Seq<Seq<char>> {
    seq![
        "cape"@,
        "cin"@,
        "stp"@,
        "scp"@,
        "ehi"@,
        "srh"@,
        "shear"@,
        "lapse"@,
        "uh"@,
        "helicity"@,
    ]
}

/// A slug with any of the words, wherever it stands, is drawn as a severe-weather
/// diagnostic, and one with none of them is not.
pub proof fn law_words_tell_severe_weather(
    slug: Seq<char>,
    before: Seq<char>,
    after: Seq<char>,
    w: int,
)
    requires
        text::lowercased(slug) == slug,
    ensures
        0 <= w < severe_words().len() && slug == before + severe_words()[w] + after
            ==> styling::severe(slug),
        styling::severe(slug) ==> exists|v: int|
            0 <= v < severe_words().len() && #[trigger] text::occurs(slug, severe_words()[v]),
{
    let words = severe_words();
    if 0 <= w < words.len() && slug == before + words[w] + after {
        let at = before.len() as int;
        assert(slug.subrange(at, at + words[w].len()) =~= words[w]);
        assert(text::stands_at(slug, words[w], at));
        assert(text::occurs(slug, words[w]));
    }
    if styling::severe(slug) {
        assert(text::occurs(slug, words[0]) || text::occurs(slug, words[1]) || text::occurs(
            slug,
            words[2],
        ) || text::occurs(slug, words[3]) || text::occurs(slug, words[4]) || text::occurs(
            slug,
            words[5],
        ) || text::occurs(slug, words[6]) || text::occurs(slug, words[7]) || text::occurs(
            slug,
            words[8],
        ) || text::occurs(slug, words[9]));
    }
}

/// Case does not matter to what a slug tells.
pub proof fn law_case_tells_nothing_of_severe_weather(a: Seq<char>, b: Seq<char>)
    requires
        text::lowercased(a) == text::lowercased(b),
    ensures
        styling::severe(a) == styling::severe(b),
{
}

/// A map of lines alone is an overlay, one on a pressure level or of heights is an
/// upper-air analysis, and only what is neither may be a severe-weather diagnostic.
pub proof fn law_level_comes_before_subject(
    recipe: PlotRecipe,
    selector: FieldSelector,
    overlay_only: bool,
)
    ensures
        ({
            let mode = styling::visual_mode(recipe, selector, overlay_only);
            &&& mode is OverlayAnalysis <==> overlay_only
            &&& mode is UpperAirAnalysis <==> !overlay_only && (selector.vertical is IsobaricHpa
                || recipe.style is WeatherHeight)
            &&& mode is SevereDiagnostic || mode is FilledMeteorology <==> !overlay_only && !(
            selector.vertical is IsobaricHpa) && !(recipe.style is WeatherHeight)
            &&& mode is SevereDiagnostic ==> styling::severe(recipe.slug@)
            &&& mode is FilledMeteorology ==> !styling::severe(recipe.slug@)
        }),
{
}

/// Lines alone are drawn of heights without contours of their own.
pub proof fn law_lines_alone_are_heights(selector: FieldSelector, has_contours: bool)
    ensures
        styling::lines_only(selector, has_contours) ==> selector.field is GeopotentialHeight
            && !has_contours,
        selector.field is GeopotentialHeight ==> styling::lines_only(selector, false),
{
}

/// A colour bar with ticks of its own is stepped, and is that of a moisture at two
/// metres: every ten units for a dewpoint, every twenty-five for a relative
/// humidity. Any other colour bar is stepped only for a dewpoint.
pub proof fn law_own_ticks_are_those_of_moisture(style: RenderStyle, selector: FieldSelector)
    ensures
        ({
            let controls = styling::controls(style, selector);
            &&& controls.tick_step is Some ==> {
                &&& controls.legend_mode == Some(LegendMode::Stepped)
                &&& selector.two_metres()
                &&& style is WeatherDewpoint || style is WeatherRh
            }
            &&& selector.two_metres() && style is WeatherDewpoint ==> controls.tick_step == Some(
                10u32,
            )
            &&& selector.two_metres() && style is WeatherRh ==> controls.tick_step == Some(25u32)
            &&& style is WeatherDewpoint ==> controls.legend_mode == Some(LegendMode::Stepped)
            &&& controls.legend_mode is Some ==> style is WeatherDewpoint || (style is WeatherRh
                && selector.two_metres())
        }),
{
}

/// What was inferred is read smoothly, and what any other source gives is read as
/// asked.
pub proof fn law_sources_are_read_as_asked(source: SourceId, mode: RasterSampleMode)
    ensures
        source is AifsInference ==> styling::sampled_by(source, mode) is Linear,
        !(source is AifsInference) ==> styling::sampled_by(source, mode) == mode,
{
}

/// The speed of the wind fills heights that are drawn as heights and maps of the
/// sea-level pressure with winds; any other map is filled with its own field.
pub proof fn law_wind_fills_heights_and_sea_level_pressure(recipe: PlotRecipe, selector: FieldSelector)
    ensures
        selector.field is GeopotentialHeight && recipe.style is WeatherHeight
            ==> styling::fills_with_wind(recipe, selector),
        recipe.slug@ == "mslp_10m_winds"@ || recipe.slug@ == "gefs_avg_"@ + "mslp_10m_winds"@
            ==> styling::fills_with_wind(recipe, selector),
        styling::fills_with_wind(recipe, selector) ==> {
            ||| selector.field is GeopotentialHeight && recipe.style is WeatherHeight
            ||| text::before_suffix(recipe.slug@, "mslp_10m_winds"@) is Some
        },
{
    reveal_strlit("mslp_10m_winds");
    reveal_strlit("gefs_avg_mslp_10m_winds");
    reveal_strlit("gefs_avg_");
    assert("gefs_avg_"@ + "mslp_10m_winds"@ =~= "gefs_avg_mslp_10m_winds"@);
    assert("mslp_10m_winds"@.skip(0) =~= "mslp_10m_winds"@);
    assert("gefs_avg_mslp_10m_winds"@.skip(9) =~= "mslp_10m_winds"@);
}

} // verus!
