//! Heavy products: the domain that they are computed on, its limit, and how
//! their maps are named.
use crate::gridded::bounds;
use crate::gridded::bounds::classify_projected_grid_intersection;
use crate::gridded::crop::{GridCrop, ProjectedGridIntersection};
use crate::gridded::domain;
use crate::gridded::domain::{crop_heavy_domain_for_projected_extent, CroppedHeavyDomain};
use crate::gridded::fields;
use crate::gridded::fields::{PressureFields, SurfaceFields};
use crate::gridded::heavy_volume::PreparedHeavyVolumeTiming;
use crate::numbers;
use crate::numbers::parse_positive;
use crate::text;
use crate::text::{str_eq, to_chars, to_decimal, to_padded_decimal};
use vstd::prelude::*;
use vstd::string::*;

verus! {

/// How many cells a heavy domain may have unless a setting says otherwise.
pub const DEFAULT_MAX_HEAVY_CELLS: usize = 1500000;

/// The width of a heavy map.
pub const HEAVY_MAP_WIDTH: u32 = 1200;

/// The height of a heavy map.
pub const HEAVY_MAP_HEIGHT: u32 = 900;

/// How a heavy domain was had from the full grid.
#[derive(Debug, Clone, Copy, PartialEq, Eq, Structural)]
pub enum HeavyCropKind {
    Full,
    Crop,
    Empty,
}

impl Default for HeavyCropKind {
    fn default() -> (kind: Self)
        ensures
            kind == HeavyCropKind::Full,
    {
        HeavyCropKind::Full
    }
}

/// The size of a heavy domain.
#[derive(Debug, Clone, Copy, PartialEq, Eq, Structural)]
pub struct HeavyDomainStats {
    pub full_cells: usize,
    pub cropped_cells: usize,
    pub pressure_levels: usize,
    pub crop_kind: HeavyCropKind,
}

/// Where the time of a heavy computation went.
#[derive(Debug, Clone, Copy, PartialEq, Eq, Structural)]
pub struct HeavyComputeTiming {
    pub full_cells: usize,
    pub cropped_cells: usize,
    pub pressure_levels: usize,
    pub crop_kind: HeavyCropKind,
    pub crop_ms: u128,
    pub prepare_height_agl_ms: u128,
    pub broadcast_pressure_ms: u128,
    pub pressure_3d_bytes: usize,
    pub ecape_triplet_ms: u128,
    pub severe_fields_ms: u128,
    pub render_ms: u128,
    pub total_ms: u128,
}

impl Default for HeavyComputeTiming {
    fn default() -> (timing: Self)
        ensures
            timing == (HeavyComputeTiming {
                full_cells: 0,
                cropped_cells: 0,
                pressure_levels: 0,
                crop_kind: HeavyCropKind::Full,
                crop_ms: 0,
                prepare_height_agl_ms: 0,
                broadcast_pressure_ms: 0,
                pressure_3d_bytes: 0,
                ecape_triplet_ms: 0,
                severe_fields_ms: 0,
                render_ms: 0,
                total_ms: 0,
            }),
    {
        HeavyComputeTiming {
            full_cells: 0,
            cropped_cells: 0,
            pressure_levels: 0,
            crop_kind: HeavyCropKind::Full,
            crop_ms: 0,
            prepare_height_agl_ms: 0,
            broadcast_pressure_ms: 0,
            pressure_3d_bytes: 0,
            ecape_triplet_ms: 0,
            severe_fields_ms: 0,
            render_ms: 0,
            total_ms: 0,
        }
    }
}

impl HeavyComputeTiming {
    /// The time that computing took.
    pub open spec fn spec_compute_ms(self) -> int {
        self.prepare_height_agl_ms + self.broadcast_pressure_ms + self.ecape_triplet_ms
            + self.severe_fields_ms
    }

    /// The time that computing took: preparing heights, spreading pressures,
    /// and the kernels of both families.
    pub fn compute_ms(&self) -> (ms: u128)
        requires
            self.spec_compute_ms() <= u128::MAX,
        ensures
            ms == self.spec_compute_ms(),
    {
        self.prepare_height_agl_ms + self.broadcast_pressure_ms + self.ecape_triplet_ms
            + self.severe_fields_ms
    }
}

/// Puts the sizes and times of a heavy computation together.
pub fn heavy_timing(
    stats: HeavyDomainStats,
    crop_ms: u128,
    prepared: PreparedHeavyVolumeTiming,
    ecape_triplet_ms: u128,
    severe_fields_ms: u128,
    render_ms: u128,
    total_ms: u128,
) -> (timing: HeavyComputeTiming)
    ensures
        timing == (HeavyComputeTiming {
            full_cells: stats.full_cells,
            cropped_cells: stats.cropped_cells,
            pressure_levels: stats.pressure_levels,
            crop_kind: stats.crop_kind,
            crop_ms,
            prepare_height_agl_ms: prepared.prepare_height_agl_ms,
            broadcast_pressure_ms: prepared.broadcast_pressure_ms,
            pressure_3d_bytes: prepared.pressure_3d_bytes,
            ecape_triplet_ms,
            severe_fields_ms,
            render_ms,
            total_ms,
        }),
{
    HeavyComputeTiming {
        full_cells: stats.full_cells,
        cropped_cells: stats.cropped_cells,
        pressure_levels: stats.pressure_levels,
        crop_kind: stats.crop_kind,
        crop_ms,
        prepare_height_agl_ms: prepared.prepare_height_agl_ms,
        broadcast_pressure_ms: prepared.broadcast_pressure_ms,
        pressure_3d_bytes: prepared.pressure_3d_bytes,
        ecape_triplet_ms,
        severe_fields_ms,
        render_ms,
        total_ms,
    }
}

/// A named map domain with its geographic bounds.
pub struct DomainSpec<B> {
    pub slug: String,
    pub bounds: B,
}

/// How many cells a heavy domain may have: the positive number that the setting
/// holds, or else the default.
pub fn heavy_domain_cell_limit(setting: Option<&str>) -> (limit: usize)
    ensures
        limit == numbers::positive_setting(
            match setting {
                Some(value) => Some(value@),
                None => None,
            },
            DEFAULT_MAX_HEAVY_CELLS as int,
        ),
{
    match parse_positive(setting) {
        Some(limit) => limit,
        None => DEFAULT_MAX_HEAVY_CELLS,
    }
}

/// The message for a heavy domain with too many cells.
pub open spec fn limit_message(stats: HeavyDomainStats, domain_slug: Seq<char>) -> Seq<char> {
    "Refusing heavy ECAPE/severe compute on "@ + text::decimal(stats.cropped_cells as nat)
        + " cells \u{00D7} "@ + text::decimal(stats.pressure_levels as nat)
        + " levels for domain "@ + domain_slug
        + ". Use a smaller region or pass --allow-large-heavy-domain."@
}

/// The message for a heavy domain with too many cells.
pub fn heavy_domain_limit_error<B>(stats: &HeavyDomainStats, domain: &DomainSpec<B>) -> (message:
    String)
    ensures
        message@ == limit_message(*stats, domain.slug@),
{
    "Refusing heavy ECAPE/severe compute on ".to_owned().concat(
        to_decimal(stats.cropped_cells as u64).as_str(),
    ).concat(" cells \u{00D7} ").concat(to_decimal(stats.pressure_levels as u64).as_str()).concat(
        " levels for domain ",
    ).concat(domain.slug.as_str()).concat(
        ". Use a smaller region or pass --allow-large-heavy-domain.",
    )
}

/// The size of the domain that an intersection selects.
pub open spec fn stats_of(
    intersection: ProjectedGridIntersection,
    full_cells: int,
    levels: int,
    stats: HeavyDomainStats,
) -> bool {
    &&& stats.full_cells == full_cells
    &&& stats.pressure_levels == levels
    &&& match intersection {
        ProjectedGridIntersection::Empty => stats.cropped_cells == 0 && stats.crop_kind
            == HeavyCropKind::Empty,
        ProjectedGridIntersection::Full => stats.cropped_cells == full_cells && stats.crop_kind
            == HeavyCropKind::Full,
        ProjectedGridIntersection::Crop(crop) => stats.cropped_cells == crop.cell_count()
            && stats.crop_kind == HeavyCropKind::Crop,
    }
}

/// The size of the domain that an intersection selects on a grid.
pub fn heavy_domain_stats(
    intersection: ProjectedGridIntersection,
    nx: usize,
    ny: usize,
    pressure_levels: usize,
) -> (stats: HeavyDomainStats)
    requires
        nx * ny <= usize::MAX,
        intersection matches ProjectedGridIntersection::Crop(crop) ==> crop.within(
            nx as int,
            ny as int,
        ),
    ensures
        stats_of(intersection, nx * ny, pressure_levels as int, stats),
{
    let full_cells: usize = nx * ny;
    match intersection {
        ProjectedGridIntersection::Empty => HeavyDomainStats {
            full_cells,
            cropped_cells: 0,
            pressure_levels,
            crop_kind: HeavyCropKind::Empty,
        },
        ProjectedGridIntersection::Full => HeavyDomainStats {
            full_cells,
            cropped_cells: full_cells,
            pressure_levels,
            crop_kind: HeavyCropKind::Full,
        },
        ProjectedGridIntersection::Crop(crop) => {
            proof {
                let w = crop.spec_width();
                let h = crop.spec_height();
                assert(w * h <= nx * ny) by (nonlinear_arith)
                    requires
                        0 <= w <= nx,
                        0 <= h <= ny,
                ;
            }
            let cropped_cells: usize = crop.width() * crop.height();
            HeavyDomainStats {
                full_cells,
                cropped_cells,
                pressure_levels,
                crop_kind: HeavyCropKind::Crop,
            }
        },
    }
}

/// The message for a domain without cells.
pub open spec fn empty_message() -> Seq<char> {
    "requested projected crop produced an empty heavy-compute domain"@
}

/// Whether a domain may be computed on: it has cells, and no more than the
/// limit unless large domains are allowed.
pub open spec fn admitted(stats: HeavyDomainStats, allow_large: bool, limit: int) -> bool {
    stats.crop_kind != HeavyCropKind::Empty && (allow_large || stats.cropped_cells <= limit)
}

/// Checks that a domain may be computed on.
pub fn guard_heavy_domain<B>(
    stats: &HeavyDomainStats,
    domain: &DomainSpec<B>,
    allow_large_heavy_domain: bool,
    cell_limit: usize,
) -> (guarded: Result<(), String>)
    ensures
        match guarded {
            Ok(_) => admitted(*stats, allow_large_heavy_domain, cell_limit as int),
            Err(message) => {
                &&& !admitted(*stats, allow_large_heavy_domain, cell_limit as int)
                &&& message@ == (if stats.crop_kind == HeavyCropKind::Empty {
                    empty_message()
                } else {
                    limit_message(*stats, domain.slug@)
                })
            },
        },
{
    if stats.crop_kind == HeavyCropKind::Empty {
        return Err("requested projected crop produced an empty heavy-compute domain".to_owned());
    }
    if !allow_large_heavy_domain && stats.cropped_cells > cell_limit {
        return Err(heavy_domain_limit_error(stats, domain));
    }
    Ok(())
}

/// Whether an intersection is how the grid lies relative to the extent whose
/// inside is marked.
pub open spec fn intersects<T, P>(
    surface: SurfaceFields<T, P>,
    inside: Seq<bool>,
    pad_cells: int,
    intersection: ProjectedGridIntersection,
) -> bool {
    let nx = surface.nx as int;
    let ny = surface.ny as int;
    match intersection {
        ProjectedGridIntersection::Empty => bounds::no_cell_marked(inside, nx, ny),
        ProjectedGridIntersection::Full => exists|whole: GridCrop|
            #[trigger] bounds::is_padded_box(inside, nx, ny, pad_cells, whole)
                && bounds::covers_grid(whole, nx, ny),
        ProjectedGridIntersection::Crop(rect) => bounds::is_padded_box(
            inside,
            nx,
            ny,
            pad_cells,
            rect,
        ) && !bounds::covers_grid(rect, nx, ny),
    }
}

/// Whether the guarded crop is that of an intersection.
pub open spec fn guarded_outcome<T, P>(
    surface: SurfaceFields<T, P>,
    pressure: PressureFields<T>,
    domain_slug: Seq<char>,
    allow_large: bool,
    limit: int,
    intersection: ProjectedGridIntersection,
    stats: HeavyDomainStats,
    outcome: Result<(Option<CroppedHeavyDomain<T, P>>, HeavyDomainStats), String>,
) -> bool {
    if !admitted(stats, allow_large, limit) {
        outcome matches Err(message) && message@ == (if stats.crop_kind == HeavyCropKind::Empty {
            empty_message()
        } else {
            limit_message(stats, domain_slug)
        })
    } else {
        match intersection {
            ProjectedGridIntersection::Crop(rect) => match outcome {
                Ok((cropped, found)) => {
                    &&& found == stats
                    &&& fields::pressure_crop_error(
                        pressure,
                        surface.nx as int,
                        surface.ny as int,
                    ) is None
                    &&& cropped matches Some(cropped) && domain::is_domain_crop(
                        surface,
                        pressure,
                        rect,
                        cropped,
                    )
                },
                Err(message) => fields::pressure_crop_error(
                    pressure,
                    surface.nx as int,
                    surface.ny as int,
                ) == Some(message@),
            },
            _ => outcome matches Ok((cropped, found)) && cropped is None && found == stats,
        }
    }
}

/// Selects the domain of a heavy computation: the cells inside the projected
/// extent with padding around them. A domain without cells is refused, and so
/// is one over the limit unless large domains are allowed.
pub fn crop_and_guard_heavy_domain<T: Copy, P: Copy, B>(
    full_surface: &SurfaceFields<T, P>,
    full_pressure: &PressureFields<T>,
    projected_x_len: usize,
    projected_y_len: usize,
    inside: &[bool],
    domain: &DomainSpec<B>,
    pad_cells: usize,
    allow_large_heavy_domain: bool,
    cell_limit: usize,
) -> (outcome: Result<(Option<CroppedHeavyDomain<T, P>>, HeavyDomainStats), String>)
    requires
        full_surface.nx * full_surface.ny <= usize::MAX,
        projected_x_len == full_surface.nx * full_surface.ny && projected_y_len == full_surface.nx
            * full_surface.ny ==> inside@.len() == full_surface.nx * full_surface.ny,
        forall|crop: GridCrop|
            #[trigger] bounds::is_padded_box(
                inside@,
                full_surface.nx as int,
                full_surface.ny as int,
                pad_cells as int,
                crop,
            ) ==> fields::surface_crop_fits(*full_surface, crop),
    ensures
        if projected_x_len != full_surface.nx * full_surface.ny || projected_y_len
            != full_surface.nx * full_surface.ny {
            outcome matches Err(message) && message@
                == "projected crop inputs did not match surface grid size"@
        } else {
            exists|intersection: ProjectedGridIntersection, stats: HeavyDomainStats|
                #![trigger stats_of(
                    intersection,
                    full_surface.nx * full_surface.ny,
                    full_pressure.pressure_levels_hpa@.len() as int,
                    stats,
                )]
                {
                    &&& intersects(*full_surface, inside@, pad_cells as int, intersection)
                    &&& stats_of(
                        intersection,
                        full_surface.nx * full_surface.ny,
                        full_pressure.pressure_levels_hpa@.len() as int,
                        stats,
                    )
                    &&& guarded_outcome(
                        *full_surface,
                        *full_pressure,
                        domain.slug@,
                        allow_large_heavy_domain,
                        cell_limit as int,
                        intersection,
                        stats,
                        outcome,
                    )
                }
        },
{
    let nx: usize = full_surface.nx;
    let ny: usize = full_surface.ny;
    let intersection = match classify_projected_grid_intersection(
        nx,
        ny,
        projected_x_len,
        projected_y_len,
        inside,
        pad_cells,
    ) {
        Ok(intersection) => intersection,
        Err(message) => {
            return Err(message);
        },
    };
    proof {
        if let ProjectedGridIntersection::Crop(rect) = intersection {
            bounds::law_padded_box_holds_marked_cells(
                inside@,
                nx as int,
                ny as int,
                pad_cells as int,
                pad_cells as int,
                rect,
                rect,
            );
        }
    }
    let stats = heavy_domain_stats(
        intersection,
        nx,
        ny,
        full_pressure.pressure_levels_hpa.len(),
    );
    proof {
        assert(intersects(*full_surface, inside@, pad_cells as int, intersection));
        assert(stats_of(
            intersection,
            full_surface.nx * full_surface.ny,
            full_pressure.pressure_levels_hpa@.len() as int,
            stats,
        ));
    }
    match guard_heavy_domain(&stats, domain, allow_large_heavy_domain, cell_limit) {
        Ok(_) => {},
        Err(message) => {
            return Err(message);
        },
    }
    match intersection {
        ProjectedGridIntersection::Crop(rect) => {
            match crop_heavy_domain_for_projected_extent(
                full_surface,
                full_pressure,
                projected_x_len,
                projected_y_len,
                inside,
                pad_cells,
            ) {
                Ok(cropped) => {
                    proof {
                        assert forall|other: GridCrop|
                            #[trigger] bounds::is_padded_box(
                                inside@,
                                nx as int,
                                ny as int,
                                pad_cells as int,
                                other,
                            ) implies other == rect by {
                            bounds::law_padded_box_is_unique(
                                inside@,
                                nx as int,
                                ny as int,
                                pad_cells as int,
                                other,
                                rect,
                            );
                        }
                    }
                    Ok((cropped, stats))
                },
                Err(message) => {
                    proof {
                        bounds::lemma_padded_box_marks_a_cell(
                            inside@,
                            nx as int,
                            ny as int,
                            pad_cells as int,
                            rect,
                        );
                    }
                    Err(message)
                },
            }
        },
        _ => Ok((None, stats)),
    }
}

/// A selected heavy domain, with the time that selecting it took.
pub struct HeavyDomainSelection<T, P> {
    pub cropped: Option<CroppedHeavyDomain<T, P>>,
    pub stats: HeavyDomainStats,
    pub crop_ms: u128,
}

impl<T, P> HeavyDomainSelection<T, P> {
    /// The fields to compute on: the cropped ones, or the full ones where
    /// nothing was cropped.
    pub fn bind<'a>(
        &'a self,
        full_surface: &'a SurfaceFields<T, P>,
        full_pressure: &'a PressureFields<T>,
    ) -> (bound: (&'a SurfaceFields<T, P>, &'a PressureFields<T>))
        ensures
            match self.cropped {
                Some(cropped) => *bound.0 == cropped.surface && *bound.1 == cropped.pressure,
                None => *bound.0 == *full_surface && *bound.1 == *full_pressure,
            },
    {
        match &self.cropped {
            Some(cropped) => (&cropped.surface, &cropped.pressure),
            None => (full_surface, full_pressure),
        }
    }
}

/// A text with every hyphen replaced by an underscore.
pub open spec fn underscored(s: Seq<char>) -> Seq<char> {
    Seq::new(
        s.len(),
        |i: int|
            if s[i] == '-' {
                '_'
            } else {
                s[i]
            },
    )
}

/// The name of a model in file names.
pub fn model_slug(name: &str) -> (slug: String)
    ensures
        slug@ == underscored(name@),
{
    let chars = to_chars(name);
    let mut slug = String::new();
    let mut i: usize = 0;
    while i < chars.len()
        invariant
            i <= chars@.len(),
            chars@ == name@,
            slug@ =~= underscored(name@).take(i as int),
        decreases chars@.len() - i,
    {
        if chars[i] == '-' {
            slug.push('_');
        } else {
            slug.push(chars[i]);
        }
        i = i + 1;
    }
    proof {
        assert(underscored(name@).take(i as int) =~= underscored(name@));
    }
    slug
}

/// The file name of a map of one product.
pub open spec fn map_file_name(
    model_slug: Seq<char>,
    date: Seq<char>,
    cycle_utc: u8,
    forecast_hour: u16,
    domain_slug: Seq<char>,
    family: Seq<char>,
    product: Seq<char>,
) -> Seq<char> {
    "rustwx_"@ + model_slug + "_"@ + date + "_"@ + text::decimal(cycle_utc as nat) + "z_f"@
        + text::zero_padded(text::decimal(forecast_hour as nat), 3) + "_"@ + domain_slug + "_"@
        + family + "_"@ + product + ".png"@
}

/// The file name of a map of one product.
pub fn heavy_map_file_name(
    model_slug: &str,
    date_yyyymmdd: &str,
    cycle_utc: u8,
    forecast_hour: u16,
    domain_slug: &str,
    family: &str,
    product: &str,
) -> (name: String)
    ensures
        name@ == map_file_name(
            model_slug@,
            date_yyyymmdd@,
            cycle_utc,
            forecast_hour,
            domain_slug@,
            family@,
            product@,
        ),
{
    "rustwx_".to_owned().concat(model_slug).concat("_").concat(date_yyyymmdd).concat("_").concat(
        to_decimal(cycle_utc as u64).as_str(),
    ).concat("z_f").concat(to_padded_decimal(forecast_hour as u64, 3).as_str()).concat("_").concat(
        domain_slug,
    ).concat("_").concat(family).concat("_").concat(product).concat(".png")
}

/// The left subtitle of a map: date, cycle, forecast hour and model.
pub fn run_subtitle(date_yyyymmdd: &str, cycle_utc: u8, forecast_hour: u16, model: &str) -> (subtitle:
    String)
    ensures
        subtitle@ == date_yyyymmdd@ + " "@ + text::decimal(cycle_utc as nat) + "Z F"@
            + text::zero_padded(text::decimal(forecast_hour as nat), 3) + "  "@ + model@,
{
    date_yyyymmdd.to_owned().concat(" ").concat(to_decimal(cycle_utc as u64).as_str()).concat(
        "Z F",
    ).concat(to_padded_decimal(forecast_hour as u64, 3).as_str()).concat("  ").concat(model)
}

/// What is added to the source on the right of a map of the ECAPE family.
pub open spec fn ecape_note(slug: Seq<char>) -> Seq<char> {
    if slug == "sb_ecape_derived_cape_ratio"@ || slug == "ml_ecape_derived_cape_ratio"@ || slug
        == "mu_ecape_derived_cape_ratio"@ {
        " | EXP | derived"@
    } else if slug == "sb_ecape_native_cape_ratio"@ || slug == "ml_ecape_native_cape_ratio"@
        || slug == "mu_ecape_native_cape_ratio"@ {
        " | EXP | native"@
    } else if slug == "ecape_scp"@ || slug == "ecape_ehi_0_1km"@ || slug == "ecape_ehi_0_3km"@
        || slug == "ecape_stp"@ {
        " | experimental"@
    } else {
        ""@
    }
}

/// The right subtitle of a map of the ECAPE family.
pub fn ecape_subtitle_right(artifact_slug: &str, source_label: &str) -> (subtitle: String)
    ensures
        subtitle@ == source_label@ + ecape_note(artifact_slug@),
{
    let note: &'static str = if str_eq(artifact_slug, "sb_ecape_derived_cape_ratio") || str_eq(
        artifact_slug,
        "ml_ecape_derived_cape_ratio",
    ) || str_eq(artifact_slug, "mu_ecape_derived_cape_ratio") {
        " | EXP | derived"
    } else if str_eq(artifact_slug, "sb_ecape_native_cape_ratio") || str_eq(
        artifact_slug,
        "ml_ecape_native_cape_ratio",
    ) || str_eq(artifact_slug, "mu_ecape_native_cape_ratio") {
        " | EXP | native"
    } else if str_eq(artifact_slug, "ecape_scp") || str_eq(artifact_slug, "ecape_ehi_0_1km")
        || str_eq(artifact_slug, "ecape_ehi_0_3km") || str_eq(artifact_slug, "ecape_stp") {
        " | experimental"
    } else {
        ""
    };
    source_label.to_owned().concat(note)
}

/// What is added to the source on the right of a map of the severe family.
pub open spec fn severe_note(slug: Seq<char>) -> Seq<char> {
    if slug == "stp_fixed"@ {
        " | fixed-layer composite"@
    } else if slug == "scp_mu_0_3km_0_6km_proxy"@ {
        " | proxy: MUCAPE + 0-3 km SRH + 0-6 km shear"@
    } else if slug == "ehi_0_1km"@ {
        " | proxy: SBCAPE + 0-1 km SRH"@
    } else {
        ""@
    }
}

/// The right subtitle of a map of the severe family.
pub fn severe_subtitle_right(artifact_slug: &str, source_label: &str) -> (subtitle: String)
    ensures
        subtitle@ == source_label@ + severe_note(artifact_slug@),
{
    let note: &'static str = if str_eq(artifact_slug, "stp_fixed") {
        " | fixed-layer composite"
    } else if str_eq(artifact_slug, "scp_mu_0_3km_0_6km_proxy") {
        " | proxy: MUCAPE + 0-3 km SRH + 0-6 km shear"
    } else if str_eq(artifact_slug, "ehi_0_1km") {
        " | proxy: SBCAPE + 0-1 km SRH"
    } else {
        ""
    };
    source_label.to_owned().concat(note)
}

/// One drawn map. `I` identifies the artifact's content.
pub struct HeavyRenderedArtifact<I> {
    pub product: String,
    pub title: String,
    pub output_path: String,
    pub output_identity: I,
}

/// The drawn maps of one family.
pub struct HeavyRenderedArtifactGroup<I> {
    pub family: String,
    pub outputs: Vec<HeavyRenderedArtifact<I>>,
    /// How many columns failed, where the family counts them.
    pub failure_count: Option<usize>,
}

/// The drawn maps of the severe family, which counts no failures, and of the
/// ECAPE family, which does.
pub fn heavy_groups<I>(
    severe_outputs: Vec<HeavyRenderedArtifact<I>>,
    ecape_outputs: Vec<HeavyRenderedArtifact<I>>,
    failure_count: usize,
) -> (groups: (HeavyRenderedArtifactGroup<I>, HeavyRenderedArtifactGroup<I>))
    ensures
        groups.0.family@ == "severe"@,
        groups.0.outputs == severe_outputs,
        groups.0.failure_count is None,
        groups.1.family@ == "ecape"@,
        groups.1.outputs == ecape_outputs,
        groups.1.failure_count == Some(failure_count),
{
    (
        HeavyRenderedArtifactGroup {
            family: "severe".to_owned(),
            outputs: severe_outputs,
            failure_count: None,
        },
        HeavyRenderedArtifactGroup {
            family: "ecape".to_owned(),
            outputs: ecape_outputs,
            failure_count: Some(failure_count),
        },
    )
}

/// A domain over the limit is computed on when large domains are allowed, and a
/// domain without cells never is.
pub proof fn law_guard_depends_on_cells_alone(stats: HeavyDomainStats, allow: bool, limit: int)
    ensures
        stats.crop_kind == HeavyCropKind::Empty ==> !admitted(stats, allow, limit),
        stats.crop_kind != HeavyCropKind::Empty ==> admitted(stats, true, limit),
        admitted(stats, false, limit) ==> stats.cropped_cells <= limit,
{
}

} // verus!
