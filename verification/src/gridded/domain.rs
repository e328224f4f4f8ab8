//! Heavy-compute domains: surface and pressure fields cropped together, and the
//! checks that they belong together.
use crate::gridded::bounds;
use crate::gridded::bounds::{classify_projected_grid_intersection, crop_rect_for_bounds};
use crate::gridded::crop;
use crate::gridded::crop::{GridCrop, ProjectedGridIntersection};
use crate::gridded::fields;
use crate::gridded::fields::{
    crop_pressure_fields, crop_surface_fields, LatLonGrid, PressureFields, SurfaceFields,
};
use crate::text;
use crate::text::to_decimal;
use vstd::prelude::*;
use vstd::string::*;

verus! {

/// A surface and a pressure analysis cropped to the same rectangle.
pub struct CroppedHeavyDomain<T, P> {
    pub surface: SurfaceFields<T, P>,
    pub pressure: PressureFields<T>,
    pub grid: LatLonGrid<T>,
}

/// Whether `domain` is the pair of analyses cropped to a rectangle.
pub open spec fn is_domain_crop<T, P>(
    surface: SurfaceFields<T, P>,
    pressure: PressureFields<T>,
    crop: GridCrop,
    domain: CroppedHeavyDomain<T, P>,
) -> bool {
    &&& fields::is_surface_crop(surface, crop, domain.surface)
    &&& fields::is_pressure_crop(
        pressure,
        surface.nx as int,
        surface.ny as int,
        crop,
        domain.pressure,
    )
    &&& fields::is_grid_of(domain.grid, domain.surface)
}

/// A rectangle on a grid can be cut out of every level of a volume of that grid.
proof fn lemma_crop_within_fits_levels(crop: GridCrop, nx: int, ny: int, levels: int)
    requires
        0 <= levels,
        0 <= nx,
        0 <= ny,
        crop.within(nx, ny),
        nx * ny <= usize::MAX,
        nx * ny * levels <= usize::MAX,
    ensures
        crop::fits_levels(crop, nx, ny, levels, nx * ny * levels),
{
    let w = crop.spec_width();
    let h = crop.spec_height();
    assert(w * h <= nx * ny) by (nonlinear_arith)
        requires
            0 <= w <= nx,
            0 <= h <= ny,
    ;
    assert(w * h * levels <= nx * ny * levels) by (nonlinear_arith)
        requires
            w * h <= nx * ny,
            0 <= levels,
    ;
    if crop.y_start < crop.y_end && 0 < levels {
        assert((crop.y_end - 1) * nx + nx <= nx * ny) by (nonlinear_arith)
            requires
                0 < crop.y_end <= ny,
                0 <= nx,
        ;
        let n2d = nx * ny;
        assert((levels - 1) * n2d + n2d == n2d * levels) by (nonlinear_arith);
    }
}

fn crop_domain<T: Copy, P: Copy>(
    surface: &SurfaceFields<T, P>,
    pressure: &PressureFields<T>,
    crop: GridCrop,
) -> (domain: Result<CroppedHeavyDomain<T, P>, String>)
    requires
        crop.within(surface.nx as int, surface.ny as int),
        fields::surface_crop_fits(*surface, crop),
    ensures
        match domain {
            Ok(domain) => {
                &&& fields::pressure_crop_error(*pressure, surface.nx as int, surface.ny as int)
                    is None
                &&& is_domain_crop(*surface, *pressure, crop, domain)
            },
            Err(message) => fields::pressure_crop_error(
                *pressure,
                surface.nx as int,
                surface.ny as int,
            ) == Some(message@),
        },
{
    proof {
        if fields::pressure_crop_error(*pressure, surface.nx as int, surface.ny as int) is None {
            lemma_crop_within_fits_levels(
                crop,
                surface.nx as int,
                surface.ny as int,
                pressure.pressure_levels_hpa@.len() as int,
            );
        }
    }
    let cropped_surface = crop_surface_fields(surface, crop);
    match crop_pressure_fields(pressure, surface.nx, surface.ny, crop) {
        Ok(cropped_pressure) => {
            let grid = cropped_surface.core_grid();
            Ok(CroppedHeavyDomain { surface: cropped_surface, pressure: cropped_pressure, grid })
        },
        Err(message) => Err(message),
    }
}

/// The pair of analyses cropped to the cells that lie in geographic bounds.
/// There is no crop if the bounds take in the whole grid, and an error if they
/// take in no cell or the pressure analysis does not match the surface grid.
pub fn crop_heavy_domain<T: Copy, P: Copy>(
    surface: &SurfaceFields<T, P>,
    pressure: &PressureFields<T>,
    in_bounds: &[bool],
) -> (domain: Result<Option<CroppedHeavyDomain<T, P>>, String>)
    requires
        surface.nx * surface.ny <= in_bounds@.len(),
        forall|crop: GridCrop|
            #[trigger] bounds::is_marked_box(
                in_bounds@,
                surface.nx as int,
                surface.ny as int,
                crop,
            ) ==> fields::surface_crop_fits(*surface, crop),
    ensures
        match domain {
            Ok(None) => exists|whole: GridCrop|
                #[trigger] bounds::is_marked_box(
                    in_bounds@,
                    surface.nx as int,
                    surface.ny as int,
                    whole,
                ) && bounds::covers_grid(whole, surface.nx as int, surface.ny as int),
            Ok(Some(domain)) => exists|crop: GridCrop|
                {
                    &&& #[trigger] bounds::is_marked_box(
                        in_bounds@,
                        surface.nx as int,
                        surface.ny as int,
                        crop,
                    )
                    &&& !bounds::covers_grid(crop, surface.nx as int, surface.ny as int)
                    &&& is_domain_crop(*surface, *pressure, crop, domain)
                    &&& fields::pressure_crop_error(
                        *pressure,
                        surface.nx as int,
                        surface.ny as int,
                    ) is None
                },
            Err(message) => {
                ||| bounds::no_cell_marked(in_bounds@, surface.nx as int, surface.ny as int)
                    && message@ == "requested crop produced an empty heavy-compute domain"@
                ||| exists|crop: GridCrop|
                    {
                        &&& #[trigger] bounds::is_marked_box(
                            in_bounds@,
                            surface.nx as int,
                            surface.ny as int,
                            crop,
                        )
                        &&& !bounds::covers_grid(crop, surface.nx as int, surface.ny as int)
                        &&& fields::pressure_crop_error(
                            *pressure,
                            surface.nx as int,
                            surface.ny as int,
                        ) == Some(message@)
                    }
            },
        },
{
    match crop_rect_for_bounds(in_bounds, surface.nx, surface.ny) {
        Err(message) => Err(message),
        Ok(None) => Ok(None),
        Ok(Some(crop)) => {
            match crop_domain(surface, pressure, crop) {
                Ok(domain) => Ok(Some(domain)),
                Err(message) => Err(message),
            }
        },
    }
}

/// The pair of analyses cropped to the cells that lie in a projected extent,
/// with padding. There is no crop if the padded box is the whole grid, and an
/// error if no cell lies inside or the sizes do not match.
pub fn crop_heavy_domain_for_projected_extent<T: Copy, P: Copy>(
    surface: &SurfaceFields<T, P>,
    pressure: &PressureFields<T>,
    projected_x_len: usize,
    projected_y_len: usize,
    inside: &[bool],
    pad_cells: usize,
) -> (domain: Result<Option<CroppedHeavyDomain<T, P>>, String>)
    requires
        surface.nx * surface.ny <= usize::MAX,
        projected_x_len == surface.nx * surface.ny && projected_y_len == surface.nx * surface.ny
            ==> inside@.len() == surface.nx * surface.ny,
        forall|crop: GridCrop|
            #[trigger] bounds::is_padded_box(
                inside@,
                surface.nx as int,
                surface.ny as int,
                pad_cells as int,
                crop,
            ) ==> fields::surface_crop_fits(*surface, crop),
    ensures
        domain is Ok ==> projected_x_len == surface.nx * surface.ny && projected_y_len == surface.nx
            * surface.ny,
        match domain {
            Ok(None) => exists|whole: GridCrop|
                #[trigger] bounds::is_padded_box(
                    inside@,
                    surface.nx as int,
                    surface.ny as int,
                    pad_cells as int,
                    whole,
                ) && bounds::covers_grid(whole, surface.nx as int, surface.ny as int),
            Ok(Some(domain)) => exists|crop: GridCrop|
                {
                    &&& #[trigger] bounds::is_padded_box(
                        inside@,
                        surface.nx as int,
                        surface.ny as int,
                        pad_cells as int,
                        crop,
                    )
                    &&& !bounds::covers_grid(crop, surface.nx as int, surface.ny as int)
                    &&& is_domain_crop(*surface, *pressure, crop, domain)
                    &&& fields::pressure_crop_error(
                        *pressure,
                        surface.nx as int,
                        surface.ny as int,
                    ) is None
                },
            Err(message) => {
                ||| (projected_x_len != surface.nx * surface.ny || projected_y_len != surface.nx
                    * surface.ny) && message@
                    == "projected crop inputs did not match surface grid size"@
                ||| projected_x_len == surface.nx * surface.ny && projected_y_len == surface.nx
                    * surface.ny && bounds::no_cell_marked(
                    inside@,
                    surface.nx as int,
                    surface.ny as int,
                ) && message@
                    == "requested projected crop produced an empty heavy-compute domain"@
                ||| projected_x_len == surface.nx * surface.ny && projected_y_len == surface.nx
                    * surface.ny && exists|crop: GridCrop|
                    {
                        &&& #[trigger] bounds::is_padded_box(
                            inside@,
                            surface.nx as int,
                            surface.ny as int,
                            pad_cells as int,
                            crop,
                        )
                        &&& !bounds::covers_grid(crop, surface.nx as int, surface.ny as int)
                        &&& fields::pressure_crop_error(
                            *pressure,
                            surface.nx as int,
                            surface.ny as int,
                        ) == Some(message@)
                    }
            },
        },
{
    let intersection = classify_projected_grid_intersection(
        surface.nx,
        surface.ny,
        projected_x_len,
        projected_y_len,
        inside,
        pad_cells,
    );
    match intersection {
        Err(message) => Err(message),
        Ok(ProjectedGridIntersection::Empty) => Err(
            "requested projected crop produced an empty heavy-compute domain".to_owned(),
        ),
        Ok(ProjectedGridIntersection::Full) => Ok(None),
        Ok(ProjectedGridIntersection::Crop(crop)) => {
            proof {
                bounds::law_padded_box_holds_marked_cells(
                    inside@,
                    surface.nx as int,
                    surface.ny as int,
                    pad_cells as int,
                    pad_cells as int,
                    crop,
                    crop,
                );
                bounds::lemma_padded_box_marks_a_cell(
                    inside@,
                    surface.nx as int,
                    surface.ny as int,
                    pad_cells as int,
                    crop,
                );
            }
            match crop_domain(surface, pressure, crop) {
                Ok(domain) => Ok(Some(domain)),
                Err(message) => Err(message),
            }
        },
    }
}

/// The message for a pressure analysis decoded on another grid than the surface.
pub open spec fn shape_mismatch(
    found_nx: nat,
    found_ny: nat,
    nx: nat,
    ny: nat,
) -> Seq<char> {
    "pressure decode shape "@ + text::decimal(found_nx) + "x"@ + text::decimal(found_ny)
        + " did not match surface shape "@ + text::decimal(nx) + "x"@ + text::decimal(ny)
}

fn shape_mismatch_error(found_nx: usize, found_ny: usize, nx: usize, ny: usize) -> (message: String)
    ensures
        message@ == shape_mismatch(found_nx as nat, found_ny as nat, nx as nat, ny as nat),
{
    let a = to_decimal(found_nx as u64);
    let b = to_decimal(found_ny as u64);
    let c = to_decimal(nx as u64);
    let d = to_decimal(ny as u64);
    "pressure decode shape ".to_owned().concat(a.as_str()).concat("x").concat(b.as_str()).concat(
        " did not match surface shape ",
    ).concat(c.as_str()).concat("x").concat(d.as_str())
}

/// Whether one of the five volumes that are always there has another length
/// than expected.
pub open spec fn required_off_size<T>(pressure: PressureFields<T>, expected: int) -> bool {
    ||| pressure.temperature_c_3d@.len() != expected
    ||| pressure.qvapor_kgkg_3d@.len() != expected
    ||| pressure.u_ms_3d@.len() != expected
    ||| pressure.v_ms_3d@.len() != expected
    ||| pressure.gh_m_3d@.len() != expected
}

fn any_required_off_size<T>(pressure: &PressureFields<T>, expected: usize) -> (off: bool)
    ensures
        off == required_off_size(*pressure, expected as int),
{
    pressure.temperature_c_3d.len() != expected || pressure.qvapor_kgkg_3d.len() != expected
        || pressure.u_ms_3d.len() != expected || pressure.v_ms_3d.len() != expected
        || pressure.gh_m_3d.len() != expected
}

/// Why a pressure analysis decoded for the store does not belong to a surface.
pub open spec fn store_pair_error<T>(
    surface_nx: int,
    surface_ny: int,
    pressure: PressureFields<T>,
    nx: int,
    ny: int,
) -> Option<Seq<char>> {
    if nx != surface_nx || ny != surface_ny {
        Some(shape_mismatch(nx as nat, ny as nat, surface_nx as nat, surface_ny as nat))
    } else if required_off_size(
        pressure,
        surface_nx * surface_ny * pressure.pressure_levels_hpa@.len(),
    ) {
        Some("pressure decode fields did not match the surface grid shape"@)
    } else {
        None
    }
}

/// Checks that a pressure analysis decoded on `nx` by `ny` cells belongs to a
/// surface.
pub fn validate_store_thermo_pair<T, P>(
    surface: &SurfaceFields<T, P>,
    pressure: &PressureFields<T>,
    nx: usize,
    ny: usize,
) -> (checked: Result<(), String>)
    requires
        nx == surface.nx && ny == surface.ny ==> surface.nx * surface.ny <= usize::MAX
            && surface.nx * surface.ny * pressure.pressure_levels_hpa@.len() <= usize::MAX,
    ensures
        match checked {
            Ok(_) => store_pair_error(
                surface.nx as int,
                surface.ny as int,
                *pressure,
                nx as int,
                ny as int,
            ) is None,
            Err(message) => store_pair_error(
                surface.nx as int,
                surface.ny as int,
                *pressure,
                nx as int,
                ny as int,
            ) == Some(message@),
        },
{
    if nx != surface.nx || ny != surface.ny {
        return Err(shape_mismatch_error(nx, ny, surface.nx, surface.ny));
    }
    let expected = surface.nx * surface.ny * pressure.pressure_levels_hpa.len();
    if any_required_off_size(pressure, expected) {
        return Err("pressure decode fields did not match the surface grid shape".to_owned());
    }
    Ok(())
}

/// Why a decoded pressure analysis does not match a surface grid of `nx` by `ny`
/// cells. A decode read back from the cache comes without its shape.
pub open spec fn pressure_decode_error<T>(
    pressure: PressureFields<T>,
    decoded_shape: Option<(usize, usize)>,
    nx: int,
    ny: int,
) -> Option<Seq<char>> {
    let expected = nx * ny * pressure.pressure_levels_hpa@.len();
    let shape = match decoded_shape {
        Some((found_nx, found_ny)) => (found_nx as int, found_ny as int),
        None => (nx, ny),
    };
    if shape != (nx, ny) {
        Some(shape_mismatch(shape.0 as nat, shape.1 as nat, nx as nat, ny as nat))
    } else if required_off_size(pressure, expected) {
        Some("pressure decode fields did not match the surface grid shape"@)
    } else {
        match fields::first_off_size(pressure.optional_volumes(), expected) {
            Some((name, _)) => Some(
                "pressure decode optional field "@ + name
                    + " did not match the surface grid shape"@,
            ),
            None => None,
        }
    }
}

/// Checks that a decoded pressure analysis matches a surface grid of `nx` by
/// `ny` cells.
pub fn validate_pressure_decode_against_surface<T>(
    pressure: &PressureFields<T>,
    decoded_shape: Option<(usize, usize)>,
    nx: usize,
    ny: usize,
) -> (checked: Result<(), String>)
    requires
        nx * ny <= usize::MAX,
        nx * ny * pressure.pressure_levels_hpa@.len() <= usize::MAX,
    ensures
        match checked {
            Ok(_) => pressure_decode_error(*pressure, decoded_shape, nx as int, ny as int) is None,
            Err(message) => pressure_decode_error(*pressure, decoded_shape, nx as int, ny as int)
                == Some(message@),
        },
{
    match decoded_shape {
        Some((found_nx, found_ny)) => {
            if found_nx != nx || found_ny != ny {
                return Err(shape_mismatch_error(found_nx, found_ny, nx, ny));
            }
        },
        None => {},
    }
    let expected = nx * ny * pressure.pressure_levels_hpa.len();
    if any_required_off_size(pressure, expected) {
        return Err("pressure decode fields did not match the surface grid shape".to_owned());
    }
    match fields::off_size_optional_volume(pressure, expected) {
        Some((name, _)) => Err(
            "pressure decode optional field ".to_owned().concat(name).concat(
                " did not match the surface grid shape",
            ),
        ),
        None => Ok(()),
    }
}

/// A crop of a matching pair is a matching pair: the volumes of the cropped
/// pressure analysis have the size of the cropped surface grid.
pub proof fn law_cropped_pair_still_matches<T, P>(
    surface: SurfaceFields<T, P>,
    pressure: PressureFields<T>,
    crop: GridCrop,
    domain: CroppedHeavyDomain<T, P>,
)
    requires
        crop.within(surface.nx as int, surface.ny as int),
        fields::pressure_crop_error(pressure, surface.nx as int, surface.ny as int) is None,
        is_domain_crop(surface, pressure, crop, domain),
    ensures
        store_pair_error(
            domain.surface.nx as int,
            domain.surface.ny as int,
            domain.pressure,
            crop.spec_width(),
            crop.spec_height(),
        ) is None,
{
    let nx = surface.nx as int;
    let ny = surface.ny as int;
    let levels = pressure.pressure_levels_hpa@.len() as int;
    fields::lemma_volumes_on_size(pressure, nx * ny * levels);
    crop::lemma_cropped_levels_len(pressure.temperature_c_3d@, nx, ny, levels, crop);
    crop::lemma_cropped_levels_len(pressure.qvapor_kgkg_3d@, nx, ny, levels, crop);
    crop::lemma_cropped_levels_len(pressure.u_ms_3d@, nx, ny, levels, crop);
    crop::lemma_cropped_levels_len(pressure.v_ms_3d@, nx, ny, levels, crop);
    crop::lemma_cropped_levels_len(pressure.gh_m_3d@, nx, ny, levels, crop);
}

} // verus!
