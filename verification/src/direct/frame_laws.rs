//! How the frame of a map, its padding and its masks follow from the domain and
//! the settings.
use crate::direct::domain;
use crate::direct::grouping;
use crate::direct::masks;
use crate::direct::planning;
use crate::direct::projection;
use crate::direct::projection::{
    DomainTraits, NativeProjection, PresentationProjection, ProjectionPresentationVariant,
};
use crate::direct::recipe::{CanonicalField, FieldSelector};
use crate::direct::schedule;
use crate::direct::types;
use crate::direct::wind;
use crate::gridded::bounds;
use crate::gridded::fetch;
use crate::hrrr;
use crate::model::ModelId;
use crate::numbers;
use crate::text;
use vstd::prelude::*;

verus! {

/// A map is drawn in a projection that suits its domain. The polar projections are
/// for domains at their pole, the conformal ones for domains of their continent or
/// for none in particular, and a projected grid keeps its own but under the globe.
pub proof fn law_projection_suits_the_domain(
    native: NativeProjection,
    traits: DomainTraits,
    variant: ProjectionPresentationVariant,
)
    ensures
        match projection::presented(native, traits, variant) {
            PresentationProjection::Native => native is Projected && !traits.global,
            PresentationProjection::Robinson => traits.global || variant is Robinson,
            PresentationProjection::PolarSouth => traits.south_polar,
            PresentationProjection::PolarNorth => traits.north_polar && !traits.south_polar,
            PresentationProjection::LambertConus => traits.conus && variant is PivotalLambert,
            PresentationProjection::LambertNorthAmerica => traits.north_america && (
            variant is Adaptive || variant is PivotalLambert || variant is Mercator),
            PresentationProjection::AlbersConus => variant is AlbersEqualArea,
            PresentationProjection::Geographic => variant is RectangularGeographic || (
            traits.continental && !traits.conus),
            PresentationProjection::Mercator => !traits.south_polar && !traits.north_polar && (
            variant is Mercator || traits.tropical),
            PresentationProjection::LambertRegional => !traits.south_polar && !traits.north_polar
                && !traits.north_america && !traits.tropical && (!traits.continental
                || traits.conus),
        },
        traits.global ==> projection::presented(native, traits, variant) is Robinson,
        !traits.global && native is Projected ==> projection::presented(
            native,
            traits,
            variant,
        ) is Native,
        !traits.global && !(native is Projected) ==> match variant {
            ProjectionPresentationVariant::AlbersEqualArea => projection::presented(
                native,
                traits,
                variant,
            ) is AlbersConus,
            ProjectionPresentationVariant::RectangularGeographic => projection::presented(
                native,
                traits,
                variant,
            ) is Geographic,
            ProjectionPresentationVariant::Robinson => projection::presented(
                native,
                traits,
                variant,
            ) is Robinson,
            ProjectionPresentationVariant::Mercator => projection::presented(
                native,
                traits,
                variant,
            ) is Mercator || traits.south_polar || traits.north_polar,
            ProjectionPresentationVariant::PivotalLambert => projection::presented(
                native,
                traits,
                variant,
            ) is LambertConus == traits.conus,
            ProjectionPresentationVariant::Adaptive => {
                &&& projection::presented(native, traits, variant) is PolarSouth
                    == traits.south_polar
                &&& projection::presented(native, traits, variant) is PolarNorth == (
                traits.north_polar && !traits.south_polar)
            },
        },
{
}

/// The names of a projection that a setting may give, without joints.
pub open spec fn is_name_of(variant: ProjectionPresentationVariant, name: Seq<char>) -> bool {
    match variant {
        ProjectionPresentationVariant::AlbersEqualArea => name == "aea"@ || text::begins_with(
            "albersequalarea"@,
            name,
        ) && name.len() >= 6,
        ProjectionPresentationVariant::RectangularGeographic => name == "rectangular"@ || name
            == "geographic"@ || name == "platecarree"@ || name == "crop"@,
        ProjectionPresentationVariant::Mercator => name == "webmap"@ || text::before_suffix(
            name,
            "mercator"@,
        ) is Some,
        ProjectionPresentationVariant::PivotalLambert => text::begins_with(name, "pivotal"@),
        ProjectionPresentationVariant::Robinson => name == "robinson"@ || name == "atlas"@,
        ProjectionPresentationVariant::Adaptive => true,
    }
}

/// A name asks for a projection only if it is one of its names, and the full names
/// of the projections ask for them.
pub proof fn law_projections_go_by_their_names(name: Seq<char>)
    ensures
        is_name_of(projection::named_variant(name), name),
        name == "albersequalarea"@ || name == "albers"@ || name == "aea"@
            ==> projection::named_variant(name) is AlbersEqualArea,
        is_name_of(ProjectionPresentationVariant::RectangularGeographic, name)
            ==> projection::named_variant(name) is RectangularGeographic,
        name == "mercator"@ || name == "webmercator"@ || name == "webmap"@
            ==> projection::named_variant(name) is Mercator,
        name == "pivotallambert"@ || name == "pivotal"@ ==> projection::named_variant(
            name,
        ) is PivotalLambert,
        is_name_of(ProjectionPresentationVariant::Robinson, name) ==> projection::named_variant(
            name,
        ) is Robinson,
{
    reveal_strlit("albers");
    reveal_strlit("albersequalarea");
    reveal_strlit("aea");
    reveal_strlit("rectangular");
    reveal_strlit("geographic");
    reveal_strlit("platecarree");
    reveal_strlit("crop");
    reveal_strlit("mercator");
    reveal_strlit("webmap");
    reveal_strlit("webmercator");
    reveal_strlit("pivotallambert");
    reveal_strlit("pivotal");
    reveal_strlit("robinson");
    reveal_strlit("atlas");
    assert("albers"@.len() == 6 && "albers"@[0] == 'a' && "albers"@[1] == 'l');
    assert("albersequalarea"@.len() == 15 && "albersequalarea"@[0] == 'a'
        && "albersequalarea"@[1] == 'l');
    assert("aea"@.len() == 3);
    assert("atlas"@.len() == 5 && "atlas"@[0] == 'a');
    assert("rectangular"@[0] == 'r' && "rectangular"@[1] == 'e');
    assert("robinson"@[0] == 'r' && "robinson"@[1] == 'o');
    assert("geographic"@[0] == 'g');
    assert("platecarree"@[0] == 'p' && "platecarree"@[1] == 'l');
    assert("pivotallambert"@[0] == 'p' && "pivotallambert"@[1] == 'i');
    assert("pivotal"@[0] == 'p' && "pivotal"@[1] == 'i');
    assert("crop"@[0] == 'c');
    assert("mercator"@[0] == 'm');
    assert("webmap"@[0] == 'w');
    assert("webmercator"@[0] == 'w');
    assert("albersequalarea"@.take(6) =~= "albers"@);
    assert("albersequalarea"@.take(15) =~= "albersequalarea"@);
    assert("mercator"@.skip(0) =~= "mercator"@);
    assert("webmercator"@.skip(3) =~= "mercator"@);
    assert("pivotallambert"@.take(7) =~= "pivotal"@);
    assert("pivotal"@.take(7) =~= "pivotal"@);
}

/// The settings speak one language. What says yes to a flag asks for streamlines
/// and for the whole grid, what says no asks for neither, and what leaves the
/// frame to the default leaves the streamlines to it as well.
pub proof fn law_settings_speak_one_language(value: Seq<char>, default: bool)
    ensures
        projection::affirms(value) ==> wind::asked_streamlines(Some(value))
            is Enabled && projection::frames_whole_grid(Some(value), default)
            && fetch::optional_decode_enabled(Some(value)),
        !fetch::optional_decode_enabled(Some(value)) <==> wind::asked_streamlines(
            Some(value),
        ) is Disabled,
        wind::asked_streamlines(Some(value)) is Disabled ==> !projection::affirms(value)
            && !projection::frames_whole_grid(Some(value), default),
        projection::frames_whole_grid(Some(value), default) != projection::frames_whole_grid(
            Some(value),
            !default,
        ) ==> wind::asked_streamlines(Some(value)) is Auto
            && projection::frames_whole_grid(Some(value), default) == default,
        wind::asked_streamlines(None) is Auto,
        projection::frames_whole_grid(None, default) == default,
        fetch::optional_decode_enabled(None),
        projection::plain(value) == "auto"@ || projection::plain(value) == ""@
            ==> projection::frames_whole_grid(Some(value), default) == default,
        projection::plain(value) == "force"@ ==> wind::asked_streamlines(Some(value)) is Enabled,
        projection::plain(value) == "1"@ || projection::plain(value) == "true"@ || projection::plain(
            value,
        ) == "yes"@ || projection::plain(value) == "on"@ ==> projection::affirms(value),
        projection::plain(value) == "0"@ || projection::plain(value) == "false"@
            || projection::plain(value) == "no"@ || projection::plain(value) == "off"@
            ==> wind::asked_streamlines(Some(value)) is Disabled,
{
    reveal_strlit("0");
    reveal_strlit("false");
    reveal_strlit("no");
    reveal_strlit("off");
    reveal_strlit("1");
    reveal_strlit("true");
    reveal_strlit("yes");
    reveal_strlit("on");
    reveal_strlit("force");
    reveal_strlit("auto");
    reveal_strlit("");
    reveal_strlit("full-domain");
    reveal_strlit("full_domain");
    reveal_strlit("native");
    reveal_strlit("native-domain");
    reveal_strlit("native_domain");
    assert("0"@.len() == 1 && "0"@[0] == '0');
    assert("1"@.len() == 1 && "1"@[0] == '1');
    assert("no"@.len() == 2 && "no"@[0] == 'n');
    assert("on"@.len() == 2 && "on"@[0] == 'o');
    assert("off"@.len() == 3 && "off"@[0] == 'o');
    assert("yes"@.len() == 3 && "yes"@[0] == 'y');
    assert("true"@.len() == 4 && "true"@[0] == 't');
    assert("auto"@.len() == 4 && "auto"@[0] == 'a');
    assert("false"@.len() == 5 && "false"@[1] == 'a');
    assert("force"@.len() == 5 && "force"@[1] == 'o');
    assert(""@.len() == 0);
    assert("native"@.len() == 6);
    assert("full-domain"@.len() == 11);
    assert("full_domain"@.len() == 11);
    assert("native-domain"@.len() == 13);
    assert("native_domain"@.len() == 13);
}

/// The number that a padding starts from: that of its setting, or six.
pub open spec fn asked_pad(setting: Option<Seq<char>>) -> int {
    match setting {
        Some(value) => match numbers::parsed(value, usize::MAX as nat) {
            Some(number) => number as int,
            None => 6,
        },
        None => 6,
    }
}

/// A field is never padded by less than is asked for. Beyond that, a projected
/// grid has a padding of at least 128 cells, and a geographic one of as many cells
/// as its padding in degrees spans, within limits; those of a wide projection
/// reach further.
pub proof fn law_padding_covers_what_is_asked(
    setting: Option<Seq<char>>,
    wide: bool,
    cells: usize,
    more: usize,
)
    requires
        cells <= more,
    ensures
        domain::field_pad(setting, false, wide, Some(cells)) >= asked_pad(setting),
        domain::field_pad(setting, true, wide, Some(cells)) >= asked_pad(setting),
        domain::field_pad(setting, true, wide, None) >= asked_pad(setting),
        asked_pad(setting) <= 12 ==> {
            &&& domain::field_pad(setting, false, wide, Some(cells)) == 128
            &&& domain::field_pad(setting, true, wide, None) == 24
            &&& 12 <= cells <= 96 ==> domain::field_pad(setting, true, wide, Some(cells)) == cells
            &&& cells <= 12 ==> domain::field_pad(setting, true, wide, Some(cells)) == 12
            &&& 96 <= cells ==> domain::field_pad(setting, true, false, Some(cells)) == 96
            &&& 96 <= cells <= 128 ==> domain::field_pad(setting, true, true, Some(cells)) == cells
            &&& 128 <= cells ==> domain::field_pad(setting, true, true, Some(cells)) == 128
        },
        domain::field_pad(setting, true, wide, Some(cells)) <= domain::field_pad(
            setting,
            true,
            wide,
            Some(more),
        ),
        domain::field_pad(setting, true, false, Some(cells)) <= domain::field_pad(
            setting,
            true,
            true,
            Some(cells),
        ),
        asked_pad(setting) >= 128 ==> domain::field_pad(setting, true, wide, Some(cells))
            == asked_pad(setting) == domain::field_pad(setting, false, wide, None),
{
}

/// The window that a value is smoothed over holds the cells of the grid that are
/// at most two columns and two rows away, and no others.
pub proof fn law_smoothing_reaches_two_cells(nx: usize, ny: usize, x: int, y: int, a: int, b: int)
    requires
        0 <= x < nx,
        0 <= y < ny,
        0 <= a < nx,
        0 <= b < ny,
    ensures
        ({
            let window = masks::smoothing_window(nx as int, ny as int, x, y);
            &&& window.within(nx as int, ny as int)
            &&& (window.x_start <= a < window.x_end && window.y_start <= b < window.y_end) <==> (-2
                <= a - x <= 2 && -2 <= b - y <= 2)
        }),
{
}

/// A mark reaches the cells that touch it, and no further.
pub proof fn law_marks_reach_their_neighbours(mask: Seq<bool>, nx: int, ny: int, x: int, y: int)
    requires
        0 <= x < nx,
        0 <= y < ny,
    ensures
        forall|a: int, b: int|
            0 <= a < nx && 0 <= b < ny && -1 <= a - x <= 1 && -1 <= b - y <= 1
                && #[trigger] bounds::marked(mask, nx, a, b) ==> masks::near(mask, nx, ny, x, y),
        (forall|a: int, b: int|
            0 <= a < nx && 0 <= b < ny && #[trigger] bounds::marked(mask, nx, a, b) ==> a - x > 1
                || x - a > 1 || b - y > 1 || y - b > 1) ==> !masks::near(mask, nx, ny, x, y),
{
}

/// The ring round a run of cells is closed. It steps from each point to a
/// neighbouring one, along one row and back along the next, and passes every
/// corner of every cell of the run.
pub proof fn law_rings_go_round_their_run(nx: int, y: int, start: int, end: int, k: int, c: int)
    requires
        0 <= start <= end,
        end + 1 < nx,
        0 <= y,
        0 <= k < masks::ring(nx, y, start, end).len() - 1,
        start <= c <= end,
    ensures
        ({
            let ring = masks::ring(nx, y, start, end);
            &&& ring[0] == ring.last() == y * nx + start
            &&& ring.len() == 2 * (end - start + 1) + 3
            &&& {
                ||| ring[k + 1] - ring[k] == 1
                ||| ring[k + 1] - ring[k] == -1
                ||| ring[k + 1] - ring[k] == nx
                ||| ring[k + 1] - ring[k] == -nx
            }
            &&& ring.contains(y * nx + c)
            &&& ring.contains(y * nx + c + 1)
            &&& ring.contains((y + 1) * nx + c)
            &&& ring.contains((y + 1) * nx + c + 1)
        }),
{
    let ring = masks::ring(nx, y, start, end);
    let width = end - start + 2;
    assert((y + 1) * nx == y * nx + nx) by (nonlinear_arith);
    assert(ring[c - start] == y * nx + c);
    assert(ring[c + 1 - start] == y * nx + c + 1);
    assert(ring[width + end + 1 - c] == (y + 1) * nx + c);
    assert(ring[width + end - c] == (y + 1) * nx + c + 1);
}

/// Drawing is spread over as many workers whether maps or panels are drawn. A
/// setting decides, but not beyond the work; without one, half of what the machine
/// runs is used.
pub proof fn law_workers_follow_setting_and_machine(
    setting: Option<Seq<char>>,
    available: Option<usize>,
    jobs: int,
)
    requires
        jobs >= 1,
    ensures
        schedule::workers(setting, available, jobs) == hrrr::parallelism(setting, available, jobs),
        available is None ==> hrrr::parallelism(setting, available, jobs) == 1,
        1 <= hrrr::parallelism(setting, available, jobs) <= jobs,
        hrrr::parallelism(setting, available, 0) == 1,
        setting matches Some(value) && available is Some && (numbers::parsed(
            value,
            usize::MAX as nat,
        ) matches Some(asked) && asked > 0 && hrrr::parallelism(setting, available, jobs) != asked)
            ==> hrrr::parallelism(setting, available, jobs) == jobs,
        setting is None && available is Some && available->Some_0 >= 2 ==> {
            let used = hrrr::parallelism(setting, available, jobs);
            &&& 2 * used <= available->Some_0
            &&& used == jobs || 2 * used + 1 >= available->Some_0
        },
        setting matches Some(value) && (numbers::parsed(value, usize::MAX as nat) is None
            || numbers::parsed(value, usize::MAX as nat) == Some(0nat)) ==> hrrr::parallelism(
            setting,
            available,
            jobs,
        ) == hrrr::parallelism(None, available, jobs),
{
}

/// Whether a selector asks for smoke near the ground or in the whole column.
pub open spec fn asks_for_smoke(selector: FieldSelector) -> bool {
    selector.field == CanonicalField::SmokeMassDensity || selector.field
        == CanonicalField::ColumnIntegratedSmoke
}

/// Smoke is read from the native file of the HRRR; anything else planned from it is
/// read from the surface file. The families of other models, and other families,
/// stay as planned, and an override is followed to the letter.
pub proof fn law_families_are_fetched_as_planned(
    model: ModelId,
    overrides: Seq<(String, String)>,
    planned: Seq<char>,
    selectors: Seq<FieldSelector>,
)
    ensures
        ({
            let fetched = grouping::canonical(model, overrides, planned, selectors);
            match types::overriding(overrides, planned) {
                Some(product) => fetched == product,
                None => {
                    &&& model != ModelId::Hrrr || planned != "nat"@ ==> fetched == planned
                    &&& model == ModelId::Hrrr && planned == "nat"@ ==> (fetched == "nat"@) == (
                    exists|k: int| 0 <= k < selectors.len() && asks_for_smoke(#[trigger] selectors[k]))
                    &&& fetched == planned || fetched == "sfc"@
                },
            }
        }),
{
    reveal_strlit("nat");
    reveal_strlit("sfc");
    assert("nat"@[0] == 'n' && "sfc"@[0] == 's');
    if exists|k: int| 0 <= k < selectors.len() && asks_for_smoke(#[trigger] selectors[k]) {
        let k = choose|k: int| 0 <= k < selectors.len() && asks_for_smoke(#[trigger] selectors[k]);
        assert(grouping::smoke(selectors[k]));
    }
    if grouping::native_only(selectors) {
        let k = choose|k: int|
            0 <= k < selectors.len() && grouping::smoke(#[trigger] selectors[k]);
        assert(asks_for_smoke(selectors[k]));
    }
}

/// The families of maps that an ensemble gives beside its usual ones.
pub open spec fn ensemble_families() -> Seq<Seq<char>> {
    seq![
        "nbm_qmd_"@,
        "sref_prob_"@,
        "gefs_avg_"@,
        "gefs_spr_"@,
        "aigefs_spr_"@,
        "hgefs_spr_"@,
        "href_mean_"@,
        "href_sprd_"@,
        "href_prob_"@,
        "refs_sprd_"@,
        "refs_prob_"@,
    ]
}

/// The maps of these families, and no others, are drawn only when they are asked
/// for.
pub proof fn law_ensemble_families_are_asked_for(slug: Seq<char>, rest: Seq<char>, f: int)
    ensures
        0 <= f < ensemble_families().len() ==> planning::opt_in(ensemble_families()[f] + rest),
        planning::opt_in(slug) ==> exists|g: int|
            0 <= g < ensemble_families().len() && #[trigger] text::begins_with(
                slug,
                ensemble_families()[g],
            ),
{
    let list = ensemble_families();
    if 0 <= f < list.len() {
        assert((list[f] + rest).take(list[f].len() as int) =~= list[f]);
        assert(text::begins_with(list[f] + rest, list[f]));
    }
    if planning::opt_in(slug) {
        assert(text::begins_with(slug, list[0]) || text::begins_with(slug, list[1])
            || text::begins_with(slug, list[2]) || text::begins_with(slug, list[3])
            || text::begins_with(slug, list[4]) || text::begins_with(slug, list[5])
            || text::begins_with(slug, list[6]) || text::begins_with(slug, list[7])
            || text::begins_with(slug, list[8]) || text::begins_with(slug, list[9])
            || text::begins_with(slug, list[10]));
    }
}

} // verus!
