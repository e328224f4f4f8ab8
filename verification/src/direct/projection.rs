//! Which map projection a direct map is drawn in, and the settings that decide
//! it. The measures of a domain come as what is asked of them.
use crate::derived::presentation;
use crate::text;
use crate::text::{replace_char, str_eq, to_lowercase, trim};
use vstd::prelude::*;
use vstd::string::*;

verus! {

/// The native projection of a grid, as far as the rules tell it apart.
#[derive(Debug, Clone, Copy, PartialEq, Eq, Structural)]
pub enum NativeProjection {
    Unknown,
    Geographic,
    Projected,
}

/// What the rules ask of the bounds of a domain.
#[derive(Debug, Clone, Copy, PartialEq, Eq, Structural)]
pub struct DomainTraits {
    /// The domain is of global scale.
    pub global: bool,
    /// The latitudes span at least twenty-five degrees, or the longitudes at least
    /// forty-five.
    pub wide: bool,
    /// The latitudes span at least forty-five degrees, or the longitudes at least
    /// sixty-five.
    pub broad: bool,
    /// The latitudes span at least fifty degrees, or the longitudes at least
    /// ninety.
    pub continental: bool,
    /// The latitudes span at most twelve degrees and the longitudes at most
    /// twenty.
    pub local: bool,
    /// The domain lies in the conterminous United States.
    pub conus: bool,
    /// The domain is of the size and place of North America.
    pub north_america: bool,
    /// The domain lies south of fifty-five degrees south.
    pub south_polar: bool,
    /// The domain lies north of fifty-five degrees north.
    pub north_polar: bool,
    /// The domain reaches from south of twenty-five degrees south to north of
    /// twenty-five degrees north.
    pub tropical: bool,
}

/// How a setting asks for a projection.
#[derive(Debug, Clone, Copy, PartialEq, Eq, Structural)]
pub enum ProjectionPresentationVariant {
    Adaptive,
    AlbersEqualArea,
    RectangularGeographic,
    Mercator,
    PivotalLambert,
    Robinson,
}

/// A setting without white space round it, in lower case.
pub open spec fn plain(value: Seq<char>) -> Seq<char> {
    text::lowercased(text::trimmed(value))
}

/// A text without one character.
pub open spec fn dropping(s: Seq<char>, c: char) -> Seq<char>
    decreases s.len(),
{
    if s.len() == 0 {
        Seq::empty()
    } else if s.last() == c {
        dropping(s.drop_last(), c)
    } else {
        dropping(s.drop_last(), c).push(s.last())
    }
}

/// The name of a projection in a setting, without joints.
pub open spec fn variant_name(value: Seq<char>) -> Seq<char> {
    dropping(text::replaced(plain(value), '-', '_'), '_')
}

/// The variant that a name stands for.
pub open spec fn named_variant(name: Seq<char>) -> ProjectionPresentationVariant {
    if name == "albers"@ || name == "albersequalarea"@ || name == "aea"@ {
        ProjectionPresentationVariant::AlbersEqualArea
    } else if name == "rectangular"@ || name == "geographic"@ || name == "platecarree"@ || name
        == "crop"@ {
        ProjectionPresentationVariant::RectangularGeographic
    } else if name == "mercator"@ || name == "webmap"@ || name == "webmercator"@ {
        ProjectionPresentationVariant::Mercator
    } else if name == "pivotallambert"@ || name == "pivotal"@ {
        ProjectionPresentationVariant::PivotalLambert
    } else if name == "robinson"@ || name == "atlas"@ {
        ProjectionPresentationVariant::Robinson
    } else {
        ProjectionPresentationVariant::Adaptive
    }
}

fn drop_char(value: &str, c: char) -> (rest: String)
    ensures
        rest@ == dropping(value@, c),
{
    let chars = crate::text::to_chars(value);
    let mut rest = String::new();
    let mut i: usize = 0;
    while i < chars.len()
        invariant
            i <= chars@.len(),
            chars@ == value@,
            rest@ == dropping(value@.take(i as int), c),
        decreases chars@.len() - i,
    {
        proof {
            assert(value@.take(i + 1).drop_last() == value@.take(i as int));
        }
        if chars[i] != c {
            rest.push(chars[i]);
        }
        i = i + 1;
    }
    proof {
        assert(value@.take(i as int) == value@);
    }
    rest
}

/// The variant that a setting asks for: the adaptive one where it names none.
pub fn projection_presentation_variant(setting: Option<&str>) -> (variant:
    ProjectionPresentationVariant)
    ensures
        variant == (match presentation::optional(setting) {
            Some(value) => named_variant(variant_name(value)),
            None => ProjectionPresentationVariant::Adaptive,
        }),
{
    let value = match setting {
        Some(value) => value,
        None => {
            return ProjectionPresentationVariant::Adaptive;
        },
    };
    let trimmed = trim(value);
    let lowered = to_lowercase(trimmed.as_str());
    let joined = replace_char(lowered.as_str(), '-', '_');
    let full = drop_char(joined.as_str(), '_');
    let name = full.as_str();
    if str_eq(name, "albers") || str_eq(name, "albersequalarea") || str_eq(name, "aea") {
        ProjectionPresentationVariant::AlbersEqualArea
    } else if str_eq(name, "rectangular") || str_eq(name, "geographic") || str_eq(
        name,
        "platecarree",
    ) || str_eq(name, "crop") {
        ProjectionPresentationVariant::RectangularGeographic
    } else if str_eq(name, "mercator") || str_eq(name, "webmap") || str_eq(name, "webmercator") {
        ProjectionPresentationVariant::Mercator
    } else if str_eq(name, "pivotallambert") || str_eq(name, "pivotal") {
        ProjectionPresentationVariant::PivotalLambert
    } else if str_eq(name, "robinson") || str_eq(name, "atlas") {
        ProjectionPresentationVariant::Robinson
    } else {
        ProjectionPresentationVariant::Adaptive
    }
}

/// Whether a setting says yes.
pub open spec fn affirms(value: Seq<char>) -> bool {
    let name = plain(value);
    name == "1"@ || name == "true"@ || name == "yes"@ || name == "on"@
}

/// Whether a flag is on: as its setting says, or else as by default.
pub fn flag_enabled(setting: Option<&str>, default: bool) -> (enabled: bool)
    ensures
        enabled == (match presentation::optional(setting) {
            Some(value) => affirms(value),
            None => default,
        }),
{
    match setting {
        Some(value) => {
            let trimmed = trim(value);
            let lowered = to_lowercase(trimmed.as_str());
            let name = lowered.as_str();
            str_eq(name, "1") || str_eq(name, "true") || str_eq(name, "yes") || str_eq(name, "on")
        },
        None => default,
    }
}

/// Whether a map is framed by the whole grid unless a setting says otherwise: a
/// projected grid under a wide domain is.
pub fn full_domain_projected_frame_default(projection: NativeProjection, traits: DomainTraits) -> (yes:
    bool)
    ensures
        yes == (projection == NativeProjection::Projected && traits.wide),
{
    matches!(projection, NativeProjection::Projected) && traits.wide
}

/// Whether a map is framed by the whole grid: as the setting says, and where it
/// leaves that open, as by default.
pub open spec fn frames_whole_grid(setting: Option<Seq<char>>, default: bool) -> bool {
    match setting {
        Some(value) => {
            let name = plain(value);
            if name == "full-domain"@ || name == "full_domain"@ || name == "native"@ || name
                == "native-domain"@ || name == "native_domain"@ {
                true
            } else if name == "auto"@ || name == ""@ {
                default
            } else {
                affirms(value)
            }
        },
        None => default,
    }
}

/// Whether a map is framed by the whole grid.
pub fn full_domain_projected_frame_enabled(
    setting: Option<&str>,
    projection: NativeProjection,
    traits: DomainTraits,
) -> (yes: bool)
    ensures
        yes == frames_whole_grid(
            presentation::optional(setting),
            projection == NativeProjection::Projected && traits.wide,
        ),
{
    let default = full_domain_projected_frame_default(projection, traits);
    match setting {
        Some(value) => {
            let trimmed = trim(value);
            let lowered = to_lowercase(trimmed.as_str());
            let name = lowered.as_str();
            if str_eq(name, "full-domain") || str_eq(name, "full_domain") || str_eq(name, "native")
                || str_eq(name, "native-domain") || str_eq(name, "native_domain") {
                true
            } else if str_eq(name, "auto") || str_eq(name, "") {
                default
            } else {
                flag_enabled(setting, default)
            }
        },
        None => default,
    }
}

/// The settings that ask for the requested bounds do not frame the whole grid.
pub proof fn law_requested_bounds_are_no_whole_grid(value: Seq<char>, default: bool)
    requires
        plain(value) == "requested"@ || plain(value) == "request"@ || plain(value) == "bounds"@
            || plain(value) == "domain"@ || plain(value) == "map-bounds"@ || plain(value)
            == "map_bounds"@,
    ensures
        !frames_whole_grid(Some(value), default),
{
    reveal_strlit("requested");
    reveal_strlit("request");
    reveal_strlit("bounds");
    reveal_strlit("domain");
    reveal_strlit("map-bounds");
    reveal_strlit("map_bounds");
    reveal_strlit("full-domain");
    reveal_strlit("full_domain");
    reveal_strlit("native");
    reveal_strlit("native-domain");
    reveal_strlit("native_domain");
    reveal_strlit("auto");
    reveal_strlit("");
    reveal_strlit("1");
    reveal_strlit("true");
    reveal_strlit("yes");
    reveal_strlit("on");
    let name = plain(value);
    assert(name.len() > 0);
    assert(name[0] == 'r' || name[0] == 'b' || name[0] == 'd' || name[0] == 'm');
    assert("full-domain"@[0] == 'f' && "full_domain"@[0] == 'f');
    assert("native"@[0] == 'n' && "native-domain"@[0] == 'n' && "native_domain"@[0] == 'n');
    assert("auto"@[0] == 'a' && ""@.len() == 0);
    assert("1"@[0] == '1' && "true"@[0] == 't' && "yes"@[0] == 'y' && "on"@[0] == 'o');
}

/// The projection that a map is drawn in. The numbers of a projection follow from
/// the bounds.
#[derive(Debug, Clone, Copy, PartialEq, Eq, Structural)]
pub enum PresentationProjection {
    Native,
    AlbersConus,
    Geographic,
    LambertConus,
    LambertNorthAmerica,
    LambertRegional,
    Mercator,
    PolarNorth,
    PolarSouth,
    Robinson,
}

/// The projection of a regional map of a geographic grid that no variant fixes.
pub open spec fn regional(traits: DomainTraits) -> PresentationProjection {
    if traits.south_polar {
        PresentationProjection::PolarSouth
    } else if traits.north_polar {
        PresentationProjection::PolarNorth
    } else if traits.north_america {
        PresentationProjection::LambertNorthAmerica
    } else if traits.continental && !traits.conus {
        PresentationProjection::Geographic
    } else if traits.tropical {
        PresentationProjection::Mercator
    } else {
        PresentationProjection::LambertRegional
    }
}

/// The projection of a regional map of a geographic grid.
pub open spec fn regional_variant(
    traits: DomainTraits,
    variant: ProjectionPresentationVariant,
) -> PresentationProjection {
    match variant {
        ProjectionPresentationVariant::AlbersEqualArea => PresentationProjection::AlbersConus,
        ProjectionPresentationVariant::RectangularGeographic => PresentationProjection::Geographic,
        ProjectionPresentationVariant::Mercator => if traits.south_polar || traits.north_polar {
            regional(traits)
        } else {
            PresentationProjection::Mercator
        },
        ProjectionPresentationVariant::PivotalLambert => if traits.conus {
            PresentationProjection::LambertConus
        } else if traits.north_america {
            PresentationProjection::LambertNorthAmerica
        } else {
            regional(traits)
        },
        ProjectionPresentationVariant::Robinson => PresentationProjection::Robinson,
        ProjectionPresentationVariant::Adaptive => regional(traits),
    }
}

/// The projection that a map is drawn in: that of the globe for a global domain,
/// the grid's own for a projected grid, and else one that the variant picks.
pub open spec fn presented(
    native: NativeProjection,
    traits: DomainTraits,
    variant: ProjectionPresentationVariant,
) -> PresentationProjection {
    if traits.global {
        PresentationProjection::Robinson
    } else if native == NativeProjection::Projected {
        PresentationProjection::Native
    } else {
        regional_variant(traits, variant)
    }
}

fn regional_presentation_projection(traits: DomainTraits) -> (projection: PresentationProjection)
    ensures
        projection == regional(traits),
{
    if traits.south_polar {
        PresentationProjection::PolarSouth
    } else if traits.north_polar {
        PresentationProjection::PolarNorth
    } else if traits.north_america {
        PresentationProjection::LambertNorthAmerica
    } else if is_broad_continent_scale_domain(traits) {
        PresentationProjection::Geographic
    } else if traits.tropical {
        PresentationProjection::Mercator
    } else {
        PresentationProjection::LambertRegional
    }
}

/// Whether a domain is of the scale of a continent.
pub fn is_broad_continent_scale_domain(traits: DomainTraits) -> (yes: bool)
    ensures
        yes == (traits.continental && !traits.conus),
{
    !traits.conus && traits.continental
}

/// The projection that a map is drawn in.
pub fn presentation_projection_for_bounds(
    native: NativeProjection,
    traits: DomainTraits,
    variant: ProjectionPresentationVariant,
) -> (projection: PresentationProjection)
    ensures
        projection == presented(native, traits, variant),
{
    if traits.global {
        return PresentationProjection::Robinson;
    }
    if matches!(native, NativeProjection::Projected) {
        return PresentationProjection::Native;
    }
    match variant {
        ProjectionPresentationVariant::AlbersEqualArea => PresentationProjection::AlbersConus,
        ProjectionPresentationVariant::RectangularGeographic => PresentationProjection::Geographic,
        ProjectionPresentationVariant::Mercator => {
            if traits.south_polar || traits.north_polar {
                regional_presentation_projection(traits)
            } else {
                PresentationProjection::Mercator
            }
        },
        ProjectionPresentationVariant::PivotalLambert => {
            if traits.conus {
                PresentationProjection::LambertConus
            } else if traits.north_america {
                PresentationProjection::LambertNorthAmerica
            } else {
                regional_presentation_projection(traits)
            }
        },
        ProjectionPresentationVariant::Robinson => PresentationProjection::Robinson,
        ProjectionPresentationVariant::Adaptive => regional_presentation_projection(traits),
    }
}

/// The numbers of a projection that do not follow from the bounds, in tenths of a
/// degree.
#[derive(Debug, Clone, Copy, PartialEq, Eq, Structural)]
pub enum FixedProjection {
    AlbersEqualArea {
        standard_parallel_1: u32,
        standard_parallel_2: u32,
        central_meridian_west: u32,
        latitude_of_origin: u32,
    },
    LambertConformal {
        standard_parallel_1: u32,
        standard_parallel_2: u32,
        central_meridian_west: u32,
    },
}

/// The numbers of a projection that does not follow the bounds of its map.
pub fn fixed_projection(projection: PresentationProjection) -> (fixed: Option<FixedProjection>)
    ensures
        fixed == (match projection {
            PresentationProjection::AlbersConus => Some(
                FixedProjection::AlbersEqualArea {
                    standard_parallel_1: 295,
                    standard_parallel_2: 455,
                    central_meridian_west: 960,
                    latitude_of_origin: 230,
                },
            ),
            PresentationProjection::LambertConus => Some(
                FixedProjection::LambertConformal {
                    standard_parallel_1: 330,
                    standard_parallel_2: 450,
                    central_meridian_west: 960,
                },
            ),
            PresentationProjection::LambertNorthAmerica => Some(
                FixedProjection::LambertConformal {
                    standard_parallel_1: 250,
                    standard_parallel_2: 600,
                    central_meridian_west: 1000,
                },
            ),
            _ => None,
        }),
{
    match projection {
        PresentationProjection::AlbersConus => Some(
            FixedProjection::AlbersEqualArea {
                standard_parallel_1: 295,
                standard_parallel_2: 455,
                central_meridian_west: 960,
                latitude_of_origin: 230,
            },
        ),
        PresentationProjection::LambertConus => Some(
            FixedProjection::LambertConformal {
                standard_parallel_1: 330,
                standard_parallel_2: 450,
                central_meridian_west: 960,
            },
        ),
        PresentationProjection::LambertNorthAmerica => Some(
            FixedProjection::LambertConformal {
                standard_parallel_1: 250,
                standard_parallel_2: 600,
                central_meridian_west: 1000,
            },
        ),
        _ => None,
    }
}

/// The latitude that a projection refers to, in degrees, if the domain fixes it.
pub open spec fn reference_latitude(native: NativeProjection, traits: DomainTraits) -> Option<u32> {
    if native == NativeProjection::Projected || traits.global {
        None
    } else if traits.conus {
        Some(39)
    } else if traits.north_america {
        Some(45)
    } else {
        None
    }
}

/// The latitude that a projection refers to, in degrees, if the domain fixes it.
pub fn reference_latitude_for_projection(native: NativeProjection, traits: DomainTraits) -> (degrees:
    Option<u32>)
    ensures
        degrees == reference_latitude(native, traits),
{
    if matches!(native, NativeProjection::Projected) || traits.global {
        None
    } else if traits.conus {
        Some(39)
    } else if traits.north_america {
        Some(45)
    } else {
        None
    }
}

/// Whether the bounds of a frame are stretched to the shape of the map: those of a
/// regional geographic map are.
pub fn stretches_frame(projection: PresentationProjection, traits: DomainTraits) -> (yes: bool)
    ensures
        yes == (projection is Geographic && !traits.global),
{
    matches!(projection, PresentationProjection::Geographic) && !traits.global
}

/// How much of the map of the land is drawn.
#[derive(Debug, Clone, Copy, PartialEq, Eq, Structural)]
pub enum BasemapDetail {
    Global,
    Broad,
    Regional,
}

/// How much of the map of the land is drawn.
pub open spec fn detail(traits: DomainTraits) -> BasemapDetail {
    if traits.global {
        BasemapDetail::Global
    } else if traits.broad {
        BasemapDetail::Broad
    } else {
        BasemapDetail::Regional
    }
}

/// How much of the map of the land is drawn.
pub fn basemap_detail_for_bounds(traits: DomainTraits) -> (drawn: BasemapDetail)
    ensures
        drawn == detail(traits),
{
    if traits.global {
        BasemapDetail::Global
    } else if traits.broad {
        BasemapDetail::Broad
    } else {
        BasemapDetail::Regional
    }
}

/// How far a frame is padded unless a setting says otherwise, in thousandths of
/// its size.
pub fn presentation_pad_thousandths(traits: DomainTraits) -> (thousandths: u32)
    ensures
        thousandths == (match detail(traits) {
            BasemapDetail::Global => 60u32,
            BasemapDetail::Broad => 45,
            BasemapDetail::Regional => 25,
        }),
{
    match basemap_detail_for_bounds(traits) {
        BasemapDetail::Global => 60,
        BasemapDetail::Broad => 45,
        BasemapDetail::Regional => 25,
    }
}

/// How many columns and rows of wind barbs a map aims for.
pub fn barb_target_columns_rows(traits: DomainTraits) -> (targets: (u32, u32))
    ensures
        targets == (if traits.global {
            (34u32, 16u32)
        } else if traits.continental && !traits.conus {
            (26, 13)
        } else if traits.local {
            (28, 18)
        } else {
            (23, 14)
        }),
{
    if traits.global {
        (34, 16)
    } else if is_broad_continent_scale_domain(traits) {
        (26, 13)
    } else if traits.local {
        (28, 18)
    } else {
        (23, 14)
    }
}

/// How the cells of a regular geographic mesh are found back from the map.
#[derive(Debug, Clone, Copy, PartialEq, Eq, Structural)]
pub struct InverseRaster {
    pub projection: PresentationProjection,
    pub reference_latitude_deg: Option<u32>,
    pub centers_longitude: bool,
    pub clips_bounds: bool,
}

/// Whether a mesh is found back from a map: a rectilinear mesh of a geographic
/// grid is, but not in a polar projection.
pub open spec fn inverts(
    native: NativeProjection,
    rectilinear: bool,
    projection: PresentationProjection,
) -> bool {
    &&& native != NativeProjection::Projected
    &&& rectilinear
    &&& !(projection is PolarNorth || projection is PolarSouth)
}

/// How the cells of a mesh are found back from the map, if they are. Only a
/// geographic map centres its longitudes, and is clipped to the bounds unless a
/// setting says otherwise.
pub fn inverse_raster_projection(
    native: NativeProjection,
    rectilinear: bool,
    traits: DomainTraits,
    variant: ProjectionPresentationVariant,
    clip_setting: Option<&str>,
) -> (inverse: Option<InverseRaster>)
    ensures
        ({
            let projection = presented(NativeProjection::Geographic, traits, variant);
            match inverse {
                Some(inverse) => {
                    &&& inverts(native, rectilinear, projection)
                    &&& inverse.projection == projection
                    &&& inverse.reference_latitude_deg == reference_latitude(
                        NativeProjection::Geographic,
                        traits,
                    )
                    &&& inverse.centers_longitude == (projection is Geographic)
                    &&& inverse.clips_bounds == (projection is Geographic && (
                    match presentation::optional(clip_setting) {
                        Some(value) => affirms(value),
                        None => true,
                    }))
                },
                None => !inverts(native, rectilinear, projection),
            }
        }),
{
    if matches!(native, NativeProjection::Projected) || !rectilinear {
        return None;
    }
    let projection = presentation_projection_for_bounds(
        NativeProjection::Geographic,
        traits,
        variant,
    );
    if matches!(
        projection,
        PresentationProjection::PolarNorth | PresentationProjection::PolarSouth
    ) {
        return None;
    }
    let geographic = matches!(projection, PresentationProjection::Geographic);
    Some(
        InverseRaster {
            projection,
            reference_latitude_deg: reference_latitude_for_projection(
                NativeProjection::Geographic,
                traits,
            ),
            centers_longitude: geographic,
            clips_bounds: geographic && flag_enabled(clip_setting, true),
        },
    )
}

/// A geographic grid is never drawn in a projection of its own.
pub proof fn law_geographic_grids_get_a_projection(
    traits: DomainTraits,
    variant: ProjectionPresentationVariant,
)
    ensures
        !(presented(NativeProjection::Geographic, traits, variant) is Native),
        presented(NativeProjection::Geographic, traits, variant) == presented(
            NativeProjection::Unknown,
            traits,
            variant,
        ),
        traits.global ==> presented(NativeProjection::Projected, traits, variant) is Robinson,
{
}

/// The shape of a regular mesh: the first row ends where a latitude breaks away
/// from the first, the rows fill the mesh, and there are at least two of each.
pub open spec fn is_mesh_shape(breaks: Seq<bool>, nx: int, ny: int) -> bool {
    &&& breaks.len() >= 9
    &&& 2 <= nx < breaks.len()
    &&& 2 <= ny
    &&& breaks[nx]
    &&& forall|k: int| 1 <= k < nx ==> !breaks[k]
    &&& breaks.len() == nx * ny
}

/// The shape of a regular mesh, if the latitudes and longitudes allow for one.
/// `breaks` says of each point whether its latitude breaks away from the first.
pub fn rectilinear_mesh_shape(lat_len: usize, lon_len: usize, breaks: &[bool]) -> (shape: Option<
    (usize, usize),
>)
    requires
        breaks@.len() == lat_len,
    ensures
        match shape {
            Some((nx, ny)) => lat_len == lon_len && is_mesh_shape(breaks@, nx as int, ny as int),
            None => lat_len != lon_len || forall|nx: int, ny: int|
                !#[trigger] is_mesh_shape(breaks@, nx, ny),
        },
{
    if lat_len != lon_len || lat_len < 9 {
        return None;
    }
    let mut nx: usize = 1;
    while nx < lat_len && !breaks[nx]
        invariant
            1 <= nx <= lat_len,
            lat_len == breaks@.len(),
            forall|k: int| 1 <= k < nx ==> !breaks@[k],
        decreases lat_len - nx,
    {
        nx = nx + 1;
    }
    proof {
        assert forall|a: int, b: int| is_mesh_shape(breaks@, a, b) implies a == nx by {
            if a < nx {
                assert(!breaks@[a]);
            }
            if a > nx {
                assert(nx < breaks@.len());
                assert(!breaks@[nx as int]);
            }
        }
    }
    if nx == lat_len || nx < 2 {
        return None;
    }
    if lat_len % nx != 0 {
        proof {
            assert forall|a: int, b: int| !#[trigger] is_mesh_shape(breaks@, a, b) by {
                if is_mesh_shape(breaks@, a, b) {
                    vstd::arithmetic::div_mod::lemma_mod_multiples_basic(b, nx as int);
                    assert(b * nx == nx * b) by (nonlinear_arith);
                }
            }
        }
        return None;
    }
    let ny: usize = lat_len / nx;
    proof {
        vstd::arithmetic::div_mod::lemma_fundamental_div_mod(lat_len as int, nx as int);
    }
    if ny < 2 {
        proof {
            assert forall|a: int, b: int| !#[trigger] is_mesh_shape(breaks@, a, b) by {
                if is_mesh_shape(breaks@, a, b) {
                    assert(nx * b > nx * ny) by (nonlinear_arith)
                        requires
                            nx >= 2,
                            b >= 2,
                            ny < 2,
                    ;
                }
            }
        }
        return None;
    }
    Some((nx, ny))
}

/// Points of a mesh to be held against one another: each against the first of its
/// row or of its column.
pub struct MeshSamples {
    pub in_rows: Vec<(usize, usize)>,
    pub in_columns: Vec<(usize, usize)>,
}

/// The first, the middle and the last of a number of rows or columns.
pub open spec fn probe(count: int, k: int) -> int {
    if k == 0 {
        0
    } else if k == 1 {
        count / 2
    } else {
        count - 1
    }
}

/// The samples of a mesh: the points where the probed rows and columns cross.
pub fn rectilinear_mesh_samples(nx: usize, ny: usize) -> (samples: MeshSamples)
    requires
        1 <= nx,
        1 <= ny,
        nx * ny <= usize::MAX,
    ensures
        samples.in_rows@.len() == 9,
        samples.in_columns@.len() == 9,
        forall|a: int, b: int|
            0 <= a < 3 && 0 <= b < 3 ==> {
                let row = #[trigger] probe(ny as int, a);
                let column = #[trigger] probe(nx as int, b);
                &&& samples.in_rows@[3 * a + b].0 == row * nx + column
                &&& samples.in_rows@[3 * a + b].1 == row * nx
                &&& samples.in_columns@[3 * a + b].0 == row * nx + column
                &&& samples.in_columns@[3 * a + b].1 == column
            },
{
    let rows: [usize; 3] = [0, ny / 2, ny - 1];
    let columns: [usize; 3] = [0, nx / 2, nx - 1];
    let mut in_rows: Vec<(usize, usize)> = Vec::new();
    let mut in_columns: Vec<(usize, usize)> = Vec::new();
    let mut a: usize = 0;
    while a < 3
        invariant
            a <= 3,
            1 <= nx,
            1 <= ny,
            nx * ny <= usize::MAX,
            forall|k: int| 0 <= k < 3 ==> rows@[k] == #[trigger] probe(ny as int, k),
            forall|k: int| 0 <= k < 3 ==> columns@[k] == #[trigger] probe(nx as int, k),
            in_rows@.len() == 3 * a,
            in_columns@.len() == 3 * a,
            forall|p: int, q: int|
                0 <= p < a && 0 <= q < 3 ==> {
                    let row = #[trigger] probe(ny as int, p);
                    let column = #[trigger] probe(nx as int, q);
                    &&& in_rows@[3 * p + q].0 == row * nx + column
                    &&& in_rows@[3 * p + q].1 == row * nx
                    &&& in_columns@[3 * p + q].0 == row * nx + column
                    &&& in_columns@[3 * p + q].1 == column
                },
        decreases 3 - a,
    {
        let row: usize = rows[a];
        proof {
            assert(row == probe(ny as int, a as int));
        }
        let mut b: usize = 0;
        while b < 3
            invariant
                a < 3,
                b <= 3,
                1 <= nx,
                1 <= ny,
                nx * ny <= usize::MAX,
                row == probe(ny as int, a as int),
                row < ny,
                forall|k: int| 0 <= k < 3 ==> columns@[k] == #[trigger] probe(nx as int, k),
                in_rows@.len() == 3 * a + b,
                in_columns@.len() == 3 * a + b,
                forall|p: int, q: int|
                    (0 <= p < a && 0 <= q < 3) || (p == a && 0 <= q < b) ==> {
                        let r = #[trigger] probe(ny as int, p);
                        let c = #[trigger] probe(nx as int, q);
                        &&& in_rows@[3 * p + q].0 == r * nx + c
                        &&& in_rows@[3 * p + q].1 == r * nx
                        &&& in_columns@[3 * p + q].0 == r * nx + c
                        &&& in_columns@[3 * p + q].1 == c
                    },
            decreases 3 - b,
        {
            let column: usize = columns[b];
            proof {
                assert(column == probe(nx as int, b as int));
                assert(column < nx);
                assert(row * nx + column < nx * ny) by (nonlinear_arith)
                    requires
                        row < ny,
                        column < nx,
                ;
                assert(0 <= row * nx) by (nonlinear_arith);
            }
            let start: usize = row * nx;
            in_rows.push((start + column, start));
            in_columns.push((start + column, column));
            b = b + 1;
        }
        a = a + 1;
    }
    MeshSamples { in_rows, in_columns }
}

/// How the frame of the model's data is drawn.
#[derive(Debug, Clone, Copy, PartialEq, Eq, Structural)]
pub struct DataDomainFrame {
    pub inset_px: u32,
    pub outline_width: u32,
}

/// How the frame of the model's data is drawn, whatever the projection.
pub fn model_data_domain_frame_for_projection(_projection: NativeProjection) -> (frame:
    DataDomainFrame)
    ensures
        frame.inset_px == 2,
        frame.outline_width == 2,
{
    DataDomainFrame { inset_px: 2, outline_width: 2 }
}

} // verus!
