//! Decoded surface and pressure-level fields, and what must hold of their sizes.
//!
//! The values are of any type that can be copied, so that the rules here do not
//! depend on the arithmetic done with them.
use crate::gridded::crop;
use crate::gridded::crop::{crop_2d_values, crop_3d_values, crop_optional_2d_values, GridCrop};
use crate::text;
use crate::text::to_decimal;
use vstd::prelude::*;
use vstd::slice::slice_to_vec;
use vstd::string::*;

verus! {

/// The fields of a surface analysis on a grid of `nx` columns and `ny` rows.
pub struct SurfaceFields<T, P> {
    pub lat: Vec<T>,
    pub lon: Vec<T>,
    pub nx: usize,
    pub ny: usize,
    pub projection: Option<P>,
    pub psfc_pa: Vec<T>,
    pub orog_m: Vec<T>,
    pub orog_is_proxy: bool,
    pub t2_k: Vec<T>,
    pub q2_kgkg: Vec<T>,
    pub u10_ms: Vec<T>,
    pub v10_ms: Vec<T>,
    pub native_sbcape_jkg: Option<Vec<T>>,
    pub native_mlcape_jkg: Option<Vec<T>>,
    pub native_mucape_jkg: Option<Vec<T>>,
    pub native_pblh_m: Option<Vec<T>>,
}

/// The fields of a pressure-level analysis, level after level.
pub struct PressureFields<T> {
    pub pressure_levels_hpa: Vec<T>,
    pub pressure_3d_pa: Option<Vec<T>>,
    pub temperature_c_3d: Vec<T>,
    pub qvapor_kgkg_3d: Vec<T>,
    pub u_ms_3d: Vec<T>,
    pub v_ms_3d: Vec<T>,
    pub gh_m_3d: Vec<T>,
    pub omega_pa_s_3d: Option<Vec<T>>,
    pub absolute_vorticity_s_3d: Option<Vec<T>>,
    pub cloud_liquid_kgkg_3d: Option<Vec<T>>,
    pub cloud_ice_kgkg_3d: Option<Vec<T>>,
    pub rain_kgkg_3d: Option<Vec<T>>,
    pub snow_kgkg_3d: Option<Vec<T>>,
    pub graupel_kgkg_3d: Option<Vec<T>>,
}

/// How many columns and rows a grid has.
#[derive(Debug, Clone, Copy, PartialEq, Eq, Structural)]
pub struct GridShape {
    pub nx: usize,
    pub ny: usize,
}

/// A grid with the position of each of its cells.
pub struct LatLonGrid<T> {
    pub shape: GridShape,
    pub lat_deg: Vec<T>,
    pub lon_deg: Vec<T>,
}

/// Whether a grid is that of a surface analysis.
pub open spec fn is_grid_of<T, P>(grid: LatLonGrid<T>, surface: SurfaceFields<T, P>) -> bool {
    &&& grid.shape.nx == surface.nx
    &&& grid.shape.ny == surface.ny
    &&& grid.lat_deg@ == surface.lat@
    &&& grid.lon_deg@ == surface.lon@
}

impl<T: Copy, P> SurfaceFields<T, P> {
    /// The grid of the analysis.
    pub fn core_grid(&self) -> (grid: LatLonGrid<T>)
        ensures
            is_grid_of(grid, *self),
    {
        LatLonGrid {
            shape: GridShape { nx: self.nx, ny: self.ny },
            lat_deg: slice_to_vec(self.lat.as_slice()),
            lon_deg: slice_to_vec(self.lon.as_slice()),
        }
    }
}

/// The bytes that one decoded value takes.
pub const VALUE_BYTES: usize = 8;

/// The largest decoded size, in bytes, that is still written to the cache.
pub const MAX_DECODE_CACHE_WRITE_BYTES: usize = 536870912;

/// 1 for a field that is there, 0 for one that is not.
pub open spec fn count_of<T>(field: Option<Vec<T>>) -> int {
    if field is Some {
        1
    } else {
        0
    }
}

/// The length of an optional field; 0 if it is not there.
pub open spec fn len_of<T>(field: Option<Vec<T>>) -> int {
    match field {
        Some(values) => values@.len() as int,
        None => 0,
    }
}

fn count_field<T>(field: &Option<Vec<T>>) -> (count: usize)
    ensures
        count == count_of(*field),
{
    match field {
        Some(_) => 1,
        None => 0,
    }
}

fn field_len<T>(field: &Option<Vec<T>>) -> (len: usize)
    ensures
        len == len_of(*field),
{
    match field {
        Some(values) => values.len(),
        None => 0,
    }
}

impl<T, P> SurfaceFields<T, P> {
    /// The estimated decoded size in bytes: eight fields that are always there
    /// and the optional ones, each as long as the latitudes, and one flag.
    pub open spec fn spec_decoded_bytes_estimate(self) -> int {
        self.lat@.len() * (8 + count_of(self.native_sbcape_jkg) + count_of(self.native_mlcape_jkg)
            + count_of(self.native_mucape_jkg) + count_of(self.native_pblh_m)) * VALUE_BYTES + 1
    }

    /// The estimated decoded size in bytes.
    pub fn decoded_bytes_estimate(&self) -> (bytes: usize)
        requires
            self.spec_decoded_bytes_estimate() <= usize::MAX,
        ensures
            bytes == self.spec_decoded_bytes_estimate(),
    {
        let len: usize = self.lat.len();
        let fields: usize = 8 + count_field(&self.native_sbcape_jkg) + count_field(
            &self.native_mlcape_jkg,
        ) + count_field(&self.native_mucape_jkg) + count_field(&self.native_pblh_m);
        assert(len * fields <= len * fields * VALUE_BYTES) by (nonlinear_arith)
            requires
                0 <= len,
                0 <= fields,
                VALUE_BYTES == 8,
        ;
        len * fields * VALUE_BYTES + 1
    }
}

impl<T> PressureFields<T> {
    /// The estimated decoded size in bytes: the levels, five volumes that are
    /// always there, and the optional ones.
    pub open spec fn spec_decoded_bytes_estimate(self) -> int {
        self.pressure_levels_hpa@.len() * VALUE_BYTES + (self.temperature_c_3d@.len() * 5 + len_of(
            self.pressure_3d_pa,
        ) + (len_of(self.omega_pa_s_3d) + len_of(self.absolute_vorticity_s_3d) + len_of(
            self.cloud_liquid_kgkg_3d,
        ) + len_of(self.cloud_ice_kgkg_3d) + len_of(self.rain_kgkg_3d) + len_of(self.snow_kgkg_3d)
            + len_of(self.graupel_kgkg_3d))) * VALUE_BYTES
    }

    /// The estimated decoded size in bytes.
    pub fn decoded_bytes_estimate(&self) -> (bytes: usize)
        requires
            self.spec_decoded_bytes_estimate() <= usize::MAX,
        ensures
            bytes == self.spec_decoded_bytes_estimate(),
    {
        let level_count: usize = self.pressure_levels_hpa.len();
        let volume_len: usize = self.temperature_c_3d.len();
        let pressure_3d_len: usize = field_len(&self.pressure_3d_pa);
        let optional_volume_len: usize = field_len(&self.omega_pa_s_3d) + field_len(
            &self.absolute_vorticity_s_3d,
        ) + field_len(&self.cloud_liquid_kgkg_3d) + field_len(&self.cloud_ice_kgkg_3d) + field_len(
            &self.rain_kgkg_3d,
        ) + field_len(&self.snow_kgkg_3d) + field_len(&self.graupel_kgkg_3d);
        level_count * VALUE_BYTES + (volume_len * 5 + pressure_3d_len + optional_volume_len)
            * VALUE_BYTES
    }
}

/// Whether decoded fields are written to the cache: only if the cache is in use
/// and they are not too large.
pub fn should_store_decode(use_cache: bool, decoded_bytes: usize) -> (store: bool)
    ensures
        store == (use_cache && decoded_bytes <= MAX_DECODE_CACHE_WRITE_BYTES),
{
    use_cache && decoded_bytes <= MAX_DECODE_CACHE_WRITE_BYTES
}

/// Whether a crop can be cut out of every field of a surface.
pub open spec fn surface_crop_fits<T, P>(surface: SurfaceFields<T, P>, crop: GridCrop) -> bool {
    let nx = surface.nx as int;
    &&& crop.fits(nx, surface.lat@.len() as int)
    &&& crop.fits(nx, surface.lon@.len() as int)
    &&& crop.fits(nx, surface.psfc_pa@.len() as int)
    &&& crop.fits(nx, surface.orog_m@.len() as int)
    &&& crop.fits(nx, surface.t2_k@.len() as int)
    &&& crop.fits(nx, surface.q2_kgkg@.len() as int)
    &&& crop.fits(nx, surface.u10_ms@.len() as int)
    &&& crop.fits(nx, surface.v10_ms@.len() as int)
    &&& surface.native_sbcape_jkg is Some ==> crop.fits(nx, len_of(surface.native_sbcape_jkg))
    &&& surface.native_mlcape_jkg is Some ==> crop.fits(nx, len_of(surface.native_mlcape_jkg))
    &&& surface.native_mucape_jkg is Some ==> crop.fits(nx, len_of(surface.native_mucape_jkg))
    &&& surface.native_pblh_m is Some ==> crop.fits(nx, len_of(surface.native_pblh_m))
}

/// Whether `cut` is the crop of an optional field.
pub open spec fn is_optional_crop<T>(
    field: Option<Vec<T>>,
    nx: int,
    crop: GridCrop,
    cut: Option<Vec<T>>,
) -> bool {
    match (field, cut) {
        (Some(values), Some(cells)) => cells@ == crop::cropped(values@, nx, crop),
        (None, None) => true,
        _ => false,
    }
}

/// Whether `cut` is a surface cropped to a rectangle: every field cropped, the
/// shape that of the rectangle, the rest unchanged.
pub open spec fn is_surface_crop<T, P>(
    surface: SurfaceFields<T, P>,
    crop: GridCrop,
    cut: SurfaceFields<T, P>,
) -> bool {
    let nx = surface.nx as int;
    &&& cut.nx == crop.spec_width()
    &&& cut.ny == crop.spec_height()
    &&& cut.projection == surface.projection
    &&& cut.orog_is_proxy == surface.orog_is_proxy
    &&& cut.lat@ == crop::cropped(surface.lat@, nx, crop)
    &&& cut.lon@ == crop::cropped(surface.lon@, nx, crop)
    &&& cut.psfc_pa@ == crop::cropped(surface.psfc_pa@, nx, crop)
    &&& cut.orog_m@ == crop::cropped(surface.orog_m@, nx, crop)
    &&& cut.t2_k@ == crop::cropped(surface.t2_k@, nx, crop)
    &&& cut.q2_kgkg@ == crop::cropped(surface.q2_kgkg@, nx, crop)
    &&& cut.u10_ms@ == crop::cropped(surface.u10_ms@, nx, crop)
    &&& cut.v10_ms@ == crop::cropped(surface.v10_ms@, nx, crop)
    &&& is_optional_crop(surface.native_sbcape_jkg, nx, crop, cut.native_sbcape_jkg)
    &&& is_optional_crop(surface.native_mlcape_jkg, nx, crop, cut.native_mlcape_jkg)
    &&& is_optional_crop(surface.native_mucape_jkg, nx, crop, cut.native_mucape_jkg)
    &&& is_optional_crop(surface.native_pblh_m, nx, crop, cut.native_pblh_m)
}

/// A surface cropped to a rectangle.
pub fn crop_surface_fields<T: Copy, P: Copy>(surface: &SurfaceFields<T, P>, crop: GridCrop) -> (cut:
    SurfaceFields<T, P>)
    requires
        surface_crop_fits(*surface, crop),
    ensures
        is_surface_crop(*surface, crop, cut),
{
    let nx = surface.nx;
    SurfaceFields {
        lat: crop_2d_values(surface.lat.as_slice(), nx, crop),
        lon: crop_2d_values(surface.lon.as_slice(), nx, crop),
        nx: crop.width(),
        ny: crop.height(),
        projection: surface.projection,
        psfc_pa: crop_2d_values(surface.psfc_pa.as_slice(), nx, crop),
        orog_m: crop_2d_values(surface.orog_m.as_slice(), nx, crop),
        orog_is_proxy: surface.orog_is_proxy,
        t2_k: crop_2d_values(surface.t2_k.as_slice(), nx, crop),
        q2_kgkg: crop_2d_values(surface.q2_kgkg.as_slice(), nx, crop),
        u10_ms: crop_2d_values(surface.u10_ms.as_slice(), nx, crop),
        v10_ms: crop_2d_values(surface.v10_ms.as_slice(), nx, crop),
        native_sbcape_jkg: crop_optional_2d_values(&surface.native_sbcape_jkg, nx, crop),
        native_mlcape_jkg: crop_optional_2d_values(&surface.native_mlcape_jkg, nx, crop),
        native_mucape_jkg: crop_optional_2d_values(&surface.native_mucape_jkg, nx, crop),
        native_pblh_m: crop_optional_2d_values(&surface.native_pblh_m, nx, crop),
    }
}

/// The optional length of an optional field.
pub open spec fn optional_len<T>(field: Option<Vec<T>>) -> Option<nat> {
    match field {
        Some(values) => Some(values@.len()),
        None => None,
    }
}

impl<T> PressureFields<T> {
    /// The five volumes that are always there, with their names.
    pub open spec fn required_volumes(self) -> Seq<(Seq<char>, Option<nat>)> {
        seq![
            ("temperature_c_3d"@, Some(self.temperature_c_3d@.len())),
            ("qvapor_kgkg_3d"@, Some(self.qvapor_kgkg_3d@.len())),
            ("u_ms_3d"@, Some(self.u_ms_3d@.len())),
            ("v_ms_3d"@, Some(self.v_ms_3d@.len())),
            ("gh_m_3d"@, Some(self.gh_m_3d@.len())),
        ]
    }

    /// The optional volumes other than the pressure, with their names.
    pub open spec fn optional_volumes(self) -> Seq<(Seq<char>, Option<nat>)> {
        seq![
            ("omega_pa_s_3d"@, optional_len(self.omega_pa_s_3d)),
            ("absolute_vorticity_s_3d"@, optional_len(self.absolute_vorticity_s_3d)),
            ("cloud_liquid_kgkg_3d"@, optional_len(self.cloud_liquid_kgkg_3d)),
            ("cloud_ice_kgkg_3d"@, optional_len(self.cloud_ice_kgkg_3d)),
            ("rain_kgkg_3d"@, optional_len(self.rain_kgkg_3d)),
            ("snow_kgkg_3d"@, optional_len(self.snow_kgkg_3d)),
            ("graupel_kgkg_3d"@, optional_len(self.graupel_kgkg_3d)),
        ]
    }

    fn required_volume_lens(&self) -> (volumes: Vec<(&'static str, Option<usize>)>)
        ensures
            names_and_lens(volumes@) == self.required_volumes(),
    {
        let volumes: Vec<(&'static str, Option<usize>)> = vec![
            ("temperature_c_3d", Some(self.temperature_c_3d.len())),
            ("qvapor_kgkg_3d", Some(self.qvapor_kgkg_3d.len())),
            ("u_ms_3d", Some(self.u_ms_3d.len())),
            ("v_ms_3d", Some(self.v_ms_3d.len())),
            ("gh_m_3d", Some(self.gh_m_3d.len())),
        ];
        assert(names_and_lens(volumes@) =~= self.required_volumes());
        volumes
    }

    fn optional_volume_lens(&self) -> (volumes: Vec<(&'static str, Option<usize>)>)
        ensures
            names_and_lens(volumes@) == self.optional_volumes(),
    {
        let volumes: Vec<(&'static str, Option<usize>)> = vec![
            ("omega_pa_s_3d", volume_len(&self.omega_pa_s_3d)),
            ("absolute_vorticity_s_3d", volume_len(&self.absolute_vorticity_s_3d)),
            ("cloud_liquid_kgkg_3d", volume_len(&self.cloud_liquid_kgkg_3d)),
            ("cloud_ice_kgkg_3d", volume_len(&self.cloud_ice_kgkg_3d)),
            ("rain_kgkg_3d", volume_len(&self.rain_kgkg_3d)),
            ("snow_kgkg_3d", volume_len(&self.snow_kgkg_3d)),
            ("graupel_kgkg_3d", volume_len(&self.graupel_kgkg_3d)),
        ];
        assert(names_and_lens(volumes@) =~= self.optional_volumes());
        volumes
    }
}

/// Names and lengths as mathematical values.
pub open spec fn names_and_lens(volumes: Seq<(&str, Option<usize>)>) -> Seq<
    (Seq<char>, Option<nat>),
> {
    Seq::new(
        volumes.len(),
        |i: int|
            (
                volumes[i].0@,
                match volumes[i].1 {
                    Some(len) => Some(len as nat),
                    None => None,
                },
            ),
    )
}

fn volume_len<T>(field: &Option<Vec<T>>) -> (len: Option<usize>)
    ensures
        match len {
            Some(n) => optional_len(*field) == Some(n as nat),
            None => optional_len(*field) is None,
        },
{
    match field {
        Some(values) => Some(values.len()),
        None => None,
    }
}

/// Whether a volume is there and has another length than expected.
pub open spec fn off_size(volume: (Seq<char>, Option<nat>), expected: int) -> bool {
    volume.1 is Some && volume.1->0 != expected
}

/// The first volume of the list that is there and has another length than
/// expected.
pub open spec fn first_off_size(
    volumes: Seq<(Seq<char>, Option<nat>)>,
    expected: int,
) -> Option<(Seq<char>, nat)>
    decreases volumes.len(),
{
    if volumes.len() == 0 {
        None
    } else if off_size(volumes[0], expected) {
        Some((volumes[0].0, volumes[0].1->0))
    } else {
        first_off_size(volumes.drop_first(), expected)
    }
}

fn find_off_size(volumes: &Vec<(&'static str, Option<usize>)>, expected: usize) -> (found: Option<
    (&'static str, usize),
>)
    ensures
        match found {
            Some(volume) => first_off_size(names_and_lens(volumes@), expected as int) == Some(
                (volume.0@, volume.1 as nat),
            ),
            None => first_off_size(names_and_lens(volumes@), expected as int) is None,
        },
{
    let ghost all = names_and_lens(volumes@);
    let mut i: usize = 0;
    assert(all.skip(0) =~= all);
    while i < volumes.len()
        invariant
            i <= volumes@.len(),
            all == names_and_lens(volumes@),
            first_off_size(all, expected as int) == first_off_size(
                all.skip(i as int),
                expected as int,
            ),
        decreases volumes.len() - i,
    {
        assert(all.skip(i as int)[0] == all[i as int]);
        assert(all.skip(i as int).drop_first() =~= all.skip(i + 1));
        let (name, len) = volumes[i];
        match len {
            Some(found) => {
                if found != expected {
                    return Some((name, found));
                }
            },
            None => {},
        }
        i += 1;
    }
    None
}

/// The first optional volume that is there and has another length than expected.
pub fn off_size_optional_volume<T>(pressure: &PressureFields<T>, expected: usize) -> (found: Option<
    (&'static str, usize),
>)
    ensures
        match found {
            Some(volume) => first_off_size(pressure.optional_volumes(), expected as int) == Some(
                (volume.0@, volume.1 as nat),
            ),
            None => first_off_size(pressure.optional_volumes(), expected as int) is None,
        },
{
    find_off_size(&pressure.optional_volume_lens(), expected)
}

/// All volumes that a crop checks, in the order in which it checks them.
pub open spec fn checked_volumes<T>(pressure: PressureFields<T>) -> Seq<(Seq<char>, Option<nat>)> {
    seq![("pressure_3d_pa"@, optional_len(pressure.pressure_3d_pa))] + pressure.required_volumes()
        + pressure.optional_volumes()
}

/// The length of each volume of a source of `nx` by `ny` cells.
pub open spec fn source_volume_len<T>(pressure: PressureFields<T>, nx: int, ny: int) -> int {
    nx * ny * pressure.pressure_levels_hpa@.len()
}

/// Why a pressure analysis cannot be cropped from a source of `nx` by `ny`
/// cells, if there is a reason: its volumes would be too large, or one has
/// another length.
pub open spec fn pressure_crop_error<T>(
    pressure: PressureFields<T>,
    nx: int,
    ny: int,
) -> Option<Seq<char>> {
    let expected = source_volume_len(pressure, nx, ny);
    if nx * ny > usize::MAX || expected > usize::MAX {
        Some("pressure crop expected length overflowed"@)
    } else {
        match first_off_size(checked_volumes(pressure), expected) {
            Some((name, len)) => Some(
                "pressure field "@ + name + " length "@ + text::decimal(len)
                    + " did not match expected source volume length "@ + text::decimal(
                    expected as nat,
                ),
            ),
            None => None,
        }
    }
}

/// Whether `cut` is the crop of an optional volume.
pub open spec fn is_optional_volume_crop<T>(
    volume: Option<Vec<T>>,
    nx: int,
    ny: int,
    levels: int,
    crop: GridCrop,
    cut: Option<Vec<T>>,
) -> bool {
    match (volume, cut) {
        (Some(values), Some(cells)) => cells@ == crop::cropped_levels(values@, nx, ny, levels, crop),
        (None, None) => true,
        _ => false,
    }
}

/// Whether `cut` is a pressure analysis cropped to a rectangle: every volume
/// cropped on every level, the levels unchanged.
pub open spec fn is_pressure_crop<T>(
    pressure: PressureFields<T>,
    nx: int,
    ny: int,
    crop: GridCrop,
    cut: PressureFields<T>,
) -> bool {
    let levels = pressure.pressure_levels_hpa@.len() as int;
    &&& cut.pressure_levels_hpa@ == pressure.pressure_levels_hpa@
    &&& is_optional_volume_crop(pressure.pressure_3d_pa, nx, ny, levels, crop, cut.pressure_3d_pa)
    &&& cut.temperature_c_3d@ == crop::cropped_levels(
        pressure.temperature_c_3d@,
        nx,
        ny,
        levels,
        crop,
    )
    &&& cut.qvapor_kgkg_3d@ == crop::cropped_levels(pressure.qvapor_kgkg_3d@, nx, ny, levels, crop)
    &&& cut.u_ms_3d@ == crop::cropped_levels(pressure.u_ms_3d@, nx, ny, levels, crop)
    &&& cut.v_ms_3d@ == crop::cropped_levels(pressure.v_ms_3d@, nx, ny, levels, crop)
    &&& cut.gh_m_3d@ == crop::cropped_levels(pressure.gh_m_3d@, nx, ny, levels, crop)
    &&& is_optional_volume_crop(pressure.omega_pa_s_3d, nx, ny, levels, crop, cut.omega_pa_s_3d)
    &&& is_optional_volume_crop(
        pressure.absolute_vorticity_s_3d,
        nx,
        ny,
        levels,
        crop,
        cut.absolute_vorticity_s_3d,
    )
    &&& is_optional_volume_crop(
        pressure.cloud_liquid_kgkg_3d,
        nx,
        ny,
        levels,
        crop,
        cut.cloud_liquid_kgkg_3d,
    )
    &&& is_optional_volume_crop(
        pressure.cloud_ice_kgkg_3d,
        nx,
        ny,
        levels,
        crop,
        cut.cloud_ice_kgkg_3d,
    )
    &&& is_optional_volume_crop(pressure.rain_kgkg_3d, nx, ny, levels, crop, cut.rain_kgkg_3d)
    &&& is_optional_volume_crop(pressure.snow_kgkg_3d, nx, ny, levels, crop, cut.snow_kgkg_3d)
    &&& is_optional_volume_crop(
        pressure.graupel_kgkg_3d,
        nx,
        ny,
        levels,
        crop,
        cut.graupel_kgkg_3d,
    )
}

fn crop_optional_volume<T: Copy>(
    volume: &Option<Vec<T>>,
    nx: usize,
    ny: usize,
    levels: usize,
    crop: GridCrop,
) -> (cut: Option<Vec<T>>)
    requires
        volume matches Some(values) ==> crop::fits_levels(
            crop,
            nx as int,
            ny as int,
            levels as int,
            values@.len() as int,
        ),
    ensures
        is_optional_volume_crop(*volume, nx as int, ny as int, levels as int, crop, cut),
{
    match volume {
        Some(values) => Some(crop_3d_values(values.as_slice(), nx, ny, levels, crop)),
        None => None,
    }
}

fn volume_length_error(name: &str, len: usize, expected: usize) -> (message: String)
    ensures
        message@ == "pressure field "@ + name@ + " length "@ + text::decimal(len as nat)
            + " did not match expected source volume length "@ + text::decimal(expected as nat),
{
    let len_text = to_decimal(len as u64);
    let expected_text = to_decimal(expected as u64);
    "pressure field ".to_owned().concat(name).concat(" length ").concat(len_text.as_str()).concat(
        " did not match expected source volume length ",
    ).concat(expected_text.as_str())
}

proof fn lemma_all_on_size(volumes: Seq<(Seq<char>, Option<nat>)>, expected: int, index: int)
    requires
        first_off_size(volumes, expected) is None,
        0 <= index < volumes.len(),
    ensures
        !off_size(volumes[index], expected),
    decreases volumes.len(),
{
    if index > 0 {
        lemma_all_on_size(volumes.drop_first(), expected, index - 1);
    }
}

proof fn lemma_first_off_size_of_concat(
    a: Seq<(Seq<char>, Option<nat>)>,
    b: Seq<(Seq<char>, Option<nat>)>,
    expected: int,
)
    ensures
        first_off_size(a + b, expected) == match first_off_size(a, expected) {
            Some(volume) => Some(volume),
            None => first_off_size(b, expected),
        },
    decreases a.len(),
{
    if a.len() == 0 {
        assert(a + b =~= b);
    } else {
        assert((a + b)[0] == a[0]);
        assert((a + b).drop_first() =~= a.drop_first() + b);
        lemma_first_off_size_of_concat(a.drop_first(), b, expected);
    }
}

/// A pressure analysis that can be cropped has only volumes of the same length.
pub proof fn lemma_volumes_on_size<T>(pressure: PressureFields<T>, expected: int)
    requires
        first_off_size(checked_volumes(pressure), expected) is None,
    ensures
        pressure.pressure_3d_pa is Some ==> len_of(pressure.pressure_3d_pa) == expected,
        pressure.temperature_c_3d@.len() == expected,
        pressure.qvapor_kgkg_3d@.len() == expected,
        pressure.u_ms_3d@.len() == expected,
        pressure.v_ms_3d@.len() == expected,
        pressure.gh_m_3d@.len() == expected,
        pressure.omega_pa_s_3d is Some ==> len_of(pressure.omega_pa_s_3d) == expected,
        pressure.absolute_vorticity_s_3d is Some ==> len_of(pressure.absolute_vorticity_s_3d)
            == expected,
        pressure.cloud_liquid_kgkg_3d is Some ==> len_of(pressure.cloud_liquid_kgkg_3d) == expected,
        pressure.cloud_ice_kgkg_3d is Some ==> len_of(pressure.cloud_ice_kgkg_3d) == expected,
        pressure.rain_kgkg_3d is Some ==> len_of(pressure.rain_kgkg_3d) == expected,
        pressure.snow_kgkg_3d is Some ==> len_of(pressure.snow_kgkg_3d) == expected,
        pressure.graupel_kgkg_3d is Some ==> len_of(pressure.graupel_kgkg_3d) == expected,
{
    let volumes = checked_volumes(pressure);
    assert(volumes.len() == 13);
    assert forall|i: int| 0 <= i < 13 implies !off_size(#[trigger] volumes[i], expected) by {
        lemma_all_on_size(volumes, expected, i);
    }
    assert(volumes[0].1 == optional_len(pressure.pressure_3d_pa));
    assert(volumes[1].1 == Some(pressure.temperature_c_3d@.len()));
    assert(volumes[2].1 == Some(pressure.qvapor_kgkg_3d@.len()));
    assert(volumes[3].1 == Some(pressure.u_ms_3d@.len()));
    assert(volumes[4].1 == Some(pressure.v_ms_3d@.len()));
    assert(volumes[5].1 == Some(pressure.gh_m_3d@.len()));
    assert(volumes[6].1 == optional_len(pressure.omega_pa_s_3d));
    assert(volumes[7].1 == optional_len(pressure.absolute_vorticity_s_3d));
    assert(volumes[8].1 == optional_len(pressure.cloud_liquid_kgkg_3d));
    assert(volumes[9].1 == optional_len(pressure.cloud_ice_kgkg_3d));
    assert(volumes[10].1 == optional_len(pressure.rain_kgkg_3d));
    assert(volumes[11].1 == optional_len(pressure.snow_kgkg_3d));
    assert(volumes[12].1 == optional_len(pressure.graupel_kgkg_3d));
}

/// A pressure analysis cropped to a rectangle of a source of `source_nx` by
/// `source_ny` cells, or why it cannot be.
pub fn crop_pressure_fields<T: Copy>(
    pressure: &PressureFields<T>,
    source_nx: usize,
    source_ny: usize,
    crop: GridCrop,
) -> (cut: Result<PressureFields<T>, String>)
    requires
        pressure_crop_error(*pressure, source_nx as int, source_ny as int) is None
            ==> crop::fits_levels(
            crop,
            source_nx as int,
            source_ny as int,
            pressure.pressure_levels_hpa@.len() as int,
            source_volume_len(*pressure, source_nx as int, source_ny as int),
        ),
    ensures
        match cut {
            Ok(cut) => {
                &&& pressure_crop_error(*pressure, source_nx as int, source_ny as int) is None
                &&& is_pressure_crop(*pressure, source_nx as int, source_ny as int, crop, cut)
            },
            Err(message) => pressure_crop_error(*pressure, source_nx as int, source_ny as int)
                == Some(message@),
        },
{
    let level_count: usize = pressure.pressure_levels_hpa.len();
    let n2d: usize = match source_nx.checked_mul(source_ny) {
        Some(n2d) => n2d,
        None => {
            return Err("pressure crop expected length overflowed".to_owned());
        },
    };
    let expected_len: usize = match n2d.checked_mul(level_count) {
        Some(expected_len) => expected_len,
        None => {
            return Err("pressure crop expected length overflowed".to_owned());
        },
    };
    let ghost head = seq![("pressure_3d_pa"@, optional_len(pressure.pressure_3d_pa))];
    proof {
        lemma_first_off_size_of_concat(
            head + pressure.required_volumes(),
            pressure.optional_volumes(),
            expected_len as int,
        );
        lemma_first_off_size_of_concat(head, pressure.required_volumes(), expected_len as int);
        reveal_with_fuel(first_off_size, 2);
        assert(head.drop_first() =~= Seq::empty());
    }
    match volume_len(&pressure.pressure_3d_pa) {
        Some(len) => {
            if len != expected_len {
                return Err(volume_length_error("pressure_3d_pa", len, expected_len));
            }
        },
        None => {},
    }
    match find_off_size(&pressure.required_volume_lens(), expected_len) {
        Some((name, len)) => {
            return Err(volume_length_error(name, len, expected_len));
        },
        None => {},
    }
    match find_off_size(&pressure.optional_volume_lens(), expected_len) {
        Some((name, len)) => {
            return Err(volume_length_error(name, len, expected_len));
        },
        None => {},
    }
    proof {
        lemma_volumes_on_size(*pressure, expected_len as int);
    }
    Ok(
        PressureFields {
            pressure_levels_hpa: slice_to_vec(pressure.pressure_levels_hpa.as_slice()),
            pressure_3d_pa: crop_optional_volume(
                &pressure.pressure_3d_pa,
                source_nx,
                source_ny,
                level_count,
                crop,
            ),
            temperature_c_3d: crop_3d_values(
                pressure.temperature_c_3d.as_slice(),
                source_nx,
                source_ny,
                level_count,
                crop,
            ),
            qvapor_kgkg_3d: crop_3d_values(
                pressure.qvapor_kgkg_3d.as_slice(),
                source_nx,
                source_ny,
                level_count,
                crop,
            ),
            u_ms_3d: crop_3d_values(
                pressure.u_ms_3d.as_slice(),
                source_nx,
                source_ny,
                level_count,
                crop,
            ),
            v_ms_3d: crop_3d_values(
                pressure.v_ms_3d.as_slice(),
                source_nx,
                source_ny,
                level_count,
                crop,
            ),
            gh_m_3d: crop_3d_values(
                pressure.gh_m_3d.as_slice(),
                source_nx,
                source_ny,
                level_count,
                crop,
            ),
            omega_pa_s_3d: crop_optional_volume(
                &pressure.omega_pa_s_3d,
                source_nx,
                source_ny,
                level_count,
                crop,
            ),
            absolute_vorticity_s_3d: crop_optional_volume(
                &pressure.absolute_vorticity_s_3d,
                source_nx,
                source_ny,
                level_count,
                crop,
            ),
            cloud_liquid_kgkg_3d: crop_optional_volume(
                &pressure.cloud_liquid_kgkg_3d,
                source_nx,
                source_ny,
                level_count,
                crop,
            ),
            cloud_ice_kgkg_3d: crop_optional_volume(
                &pressure.cloud_ice_kgkg_3d,
                source_nx,
                source_ny,
                level_count,
                crop,
            ),
            rain_kgkg_3d: crop_optional_volume(
                &pressure.rain_kgkg_3d,
                source_nx,
                source_ny,
                level_count,
                crop,
            ),
            snow_kgkg_3d: crop_optional_volume(
                &pressure.snow_kgkg_3d,
                source_nx,
                source_ny,
                level_count,
                crop,
            ),
            graupel_kgkg_3d: crop_optional_volume(
                &pressure.graupel_kgkg_3d,
                source_nx,
                source_ny,
                level_count,
                crop,
            ),
        },
    )
}

/// Whether a grid is the part of another in a rectangle.
pub open spec fn is_grid_crop<T>(grid: LatLonGrid<T>, crop: GridCrop, cut: LatLonGrid<T>) -> bool {
    &&& cut.shape.nx == crop.spec_width()
    &&& cut.shape.ny == crop.spec_height()
    &&& cut.lat_deg@ == crop::cropped(grid.lat_deg@, grid.shape.nx as int, crop)
    &&& cut.lon_deg@ == crop::cropped(grid.lon_deg@, grid.shape.nx as int, crop)
}

/// The part of a grid in a rectangle.
pub fn crop_latlon_grid<T: Copy>(grid: &LatLonGrid<T>, crop: GridCrop) -> (cut: LatLonGrid<T>)
    requires
        crop.fits(grid.shape.nx as int, grid.lat_deg@.len() as int),
        crop.fits(grid.shape.nx as int, grid.lon_deg@.len() as int),
    ensures
        is_grid_crop(*grid, crop, cut),
{
    LatLonGrid {
        shape: GridShape { nx: crop.width(), ny: crop.height() },
        lat_deg: crop_2d_values(grid.lat_deg.as_slice(), grid.shape.nx, crop),
        lon_deg: crop_2d_values(grid.lon_deg.as_slice(), grid.shape.nx, crop),
    }
}

} // verus!
