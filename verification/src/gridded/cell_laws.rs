//! What stands in each cell of a cropped analysis.
use crate::gridded::crop;
use crate::gridded::crop::GridCrop;
use crate::gridded::crop_laws;
use crate::gridded::fields;
use crate::gridded::fields::{PressureFields, SurfaceFields};
use vstd::prelude::*;

verus! {

/// Each cell of a cropped surface has, in every field, the value of that field in the cell
/// of the source at the same place.
pub proof fn law_cropped_surface_keeps_each_cell<T, P>(
    surface: SurfaceFields<T, P>,
    window: GridCrop,
    cut: SurfaceFields<T, P>,
    x: int,
    y: int,
)
    requires
        fields::surface_crop_fits(surface, window),
        fields::is_surface_crop(surface, window, cut),
        window.holds(x, y),
    ensures
        ({
            let at = (y - window.y_start) * window.spec_width() + (x - window.x_start);
            let from = y * surface.nx + x;
            &&& cut.lat@[at] == surface.lat@[from]
            &&& cut.lon@[at] == surface.lon@[from]
            &&& cut.psfc_pa@[at] == surface.psfc_pa@[from]
            &&& cut.orog_m@[at] == surface.orog_m@[from]
            &&& cut.t2_k@[at] == surface.t2_k@[from]
            &&& cut.q2_kgkg@[at] == surface.q2_kgkg@[from]
            &&& cut.u10_ms@[at] == surface.u10_ms@[from]
            &&& cut.v10_ms@[at] == surface.v10_ms@[from]
            &&& (cut.native_sbcape_jkg is Some) == (surface.native_sbcape_jkg is Some)
            &&& cut.native_sbcape_jkg matches Some(plane) ==> plane@[at] == surface.native_sbcape_jkg->Some_0@[from]
            &&& (cut.native_mlcape_jkg is Some) == (surface.native_mlcape_jkg is Some)
            &&& cut.native_mlcape_jkg matches Some(plane) ==> plane@[at] == surface.native_mlcape_jkg->Some_0@[from]
            &&& (cut.native_mucape_jkg is Some) == (surface.native_mucape_jkg is Some)
            &&& cut.native_mucape_jkg matches Some(plane) ==> plane@[at] == surface.native_mucape_jkg->Some_0@[from]
            &&& (cut.native_pblh_m is Some) == (surface.native_pblh_m is Some)
            &&& cut.native_pblh_m matches Some(plane) ==> plane@[at] == surface.native_pblh_m->Some_0@[from]
        }),
        cut.nx == window.x_end - window.x_start,
        cut.ny == window.y_end - window.y_start,
        cut.projection == surface.projection,
        cut.orog_is_proxy == surface.orog_is_proxy,
{
    let nx = surface.nx as int;
    crop::law_cropped_cell(surface.lat@, nx, window, x, y);
    crop::law_cropped_cell(surface.lon@, nx, window, x, y);
    crop::law_cropped_cell(surface.psfc_pa@, nx, window, x, y);
    crop::law_cropped_cell(surface.orog_m@, nx, window, x, y);
    crop::law_cropped_cell(surface.t2_k@, nx, window, x, y);
    crop::law_cropped_cell(surface.q2_kgkg@, nx, window, x, y);
    crop::law_cropped_cell(surface.u10_ms@, nx, window, x, y);
    crop::law_cropped_cell(surface.v10_ms@, nx, window, x, y);
    if let Some(plane) = surface.native_sbcape_jkg {
        crop::law_cropped_cell(plane@, nx, window, x, y);
    }
    if let Some(plane) = surface.native_mlcape_jkg {
        crop::law_cropped_cell(plane@, nx, window, x, y);
    }
    if let Some(plane) = surface.native_mucape_jkg {
        crop::law_cropped_cell(plane@, nx, window, x, y);
    }
    if let Some(plane) = surface.native_pblh_m {
        crop::law_cropped_cell(plane@, nx, window, x, y);
    }
}

/// Each cell of a cropped pressure analysis has, in every volume and on every level, the
/// value of that volume in the cell of the source at the same place.
pub proof fn law_cropped_pressure_keeps_each_cell<T>(
    pressure: PressureFields<T>,
    nx: int,
    ny: int,
    window: GridCrop,
    cut: PressureFields<T>,
    i: int,
)
    requires
        crop_laws::has_cells(window, nx, ny),
        fields::is_pressure_crop(pressure, nx, ny, window, cut),
        pressure.temperature_c_3d@.len() == pressure.pressure_levels_hpa@.len() * (nx * ny),
        pressure.qvapor_kgkg_3d@.len() == pressure.pressure_levels_hpa@.len() * (nx * ny),
        pressure.u_ms_3d@.len() == pressure.pressure_levels_hpa@.len() * (nx * ny),
        pressure.v_ms_3d@.len() == pressure.pressure_levels_hpa@.len() * (nx * ny),
        pressure.gh_m_3d@.len() == pressure.pressure_levels_hpa@.len() * (nx * ny),
        0 <= i < pressure.pressure_levels_hpa@.len() * window.cell_count(),
    ensures
        ({
            let levels = pressure.pressure_levels_hpa@.len();
            let from = crop_laws::volume_place(nx, ny, window, i);
            &&& cut.temperature_c_3d@[i] == pressure.temperature_c_3d@[from]
            &&& cut.qvapor_kgkg_3d@[i] == pressure.qvapor_kgkg_3d@[from]
            &&& cut.u_ms_3d@[i] == pressure.u_ms_3d@[from]
            &&& cut.v_ms_3d@[i] == pressure.v_ms_3d@[from]
            &&& cut.gh_m_3d@[i] == pressure.gh_m_3d@[from]
            &&& (cut.pressure_3d_pa is Some) == (pressure.pressure_3d_pa is Some)
            &&& cut.pressure_3d_pa matches Some(volume) ==> (pressure.pressure_3d_pa->Some_0@.len() == levels * (nx * ny)
                ==> volume@[i] == pressure.pressure_3d_pa->Some_0@[from])
            &&& (cut.omega_pa_s_3d is Some) == (pressure.omega_pa_s_3d is Some)
            &&& cut.omega_pa_s_3d matches Some(volume) ==> (pressure.omega_pa_s_3d->Some_0@.len() == levels * (nx * ny)
                ==> volume@[i] == pressure.omega_pa_s_3d->Some_0@[from])
            &&& (cut.absolute_vorticity_s_3d is Some) == (pressure.absolute_vorticity_s_3d is Some)
            &&& cut.absolute_vorticity_s_3d matches Some(volume) ==> (pressure.absolute_vorticity_s_3d->Some_0@.len() == levels * (nx * ny)
                ==> volume@[i] == pressure.absolute_vorticity_s_3d->Some_0@[from])
            &&& (cut.cloud_liquid_kgkg_3d is Some) == (pressure.cloud_liquid_kgkg_3d is Some)
            &&& cut.cloud_liquid_kgkg_3d matches Some(volume) ==> (pressure.cloud_liquid_kgkg_3d->Some_0@.len() == levels * (nx * ny)
                ==> volume@[i] == pressure.cloud_liquid_kgkg_3d->Some_0@[from])
            &&& (cut.cloud_ice_kgkg_3d is Some) == (pressure.cloud_ice_kgkg_3d is Some)
            &&& cut.cloud_ice_kgkg_3d matches Some(volume) ==> (pressure.cloud_ice_kgkg_3d->Some_0@.len() == levels * (nx * ny)
                ==> volume@[i] == pressure.cloud_ice_kgkg_3d->Some_0@[from])
            &&& (cut.rain_kgkg_3d is Some) == (pressure.rain_kgkg_3d is Some)
            &&& cut.rain_kgkg_3d matches Some(volume) ==> (pressure.rain_kgkg_3d->Some_0@.len() == levels * (nx * ny)
                ==> volume@[i] == pressure.rain_kgkg_3d->Some_0@[from])
            &&& (cut.snow_kgkg_3d is Some) == (pressure.snow_kgkg_3d is Some)
            &&& cut.snow_kgkg_3d matches Some(volume) ==> (pressure.snow_kgkg_3d->Some_0@.len() == levels * (nx * ny)
                ==> volume@[i] == pressure.snow_kgkg_3d->Some_0@[from])
            &&& (cut.graupel_kgkg_3d is Some) == (pressure.graupel_kgkg_3d is Some)
            &&& cut.graupel_kgkg_3d matches Some(volume) ==> (pressure.graupel_kgkg_3d->Some_0@.len() == levels * (nx * ny)
                ==> volume@[i] == pressure.graupel_kgkg_3d->Some_0@[from])
        }),
        cut.pressure_levels_hpa@ == pressure.pressure_levels_hpa@,
{
    let levels = pressure.pressure_levels_hpa@.len() as int;
    crop_laws::lemma_cropped_levels_cell(pressure.temperature_c_3d@, nx, ny, levels, window, i);
    crop_laws::lemma_cropped_levels_cell(pressure.qvapor_kgkg_3d@, nx, ny, levels, window, i);
    crop_laws::lemma_cropped_levels_cell(pressure.u_ms_3d@, nx, ny, levels, window, i);
    crop_laws::lemma_cropped_levels_cell(pressure.v_ms_3d@, nx, ny, levels, window, i);
    crop_laws::lemma_cropped_levels_cell(pressure.gh_m_3d@, nx, ny, levels, window, i);
    if let Some(volume) = pressure.pressure_3d_pa {
        if volume@.len() == levels * (nx * ny) {
            crop_laws::lemma_cropped_levels_cell(volume@, nx, ny, levels, window, i);
        }
    }
    if let Some(volume) = pressure.omega_pa_s_3d {
        if volume@.len() == levels * (nx * ny) {
            crop_laws::lemma_cropped_levels_cell(volume@, nx, ny, levels, window, i);
        }
    }
    if let Some(volume) = pressure.absolute_vorticity_s_3d {
        if volume@.len() == levels * (nx * ny) {
            crop_laws::lemma_cropped_levels_cell(volume@, nx, ny, levels, window, i);
        }
    }
    if let Some(volume) = pressure.cloud_liquid_kgkg_3d {
        if volume@.len() == levels * (nx * ny) {
            crop_laws::lemma_cropped_levels_cell(volume@, nx, ny, levels, window, i);
        }
    }
    if let Some(volume) = pressure.cloud_ice_kgkg_3d {
        if volume@.len() == levels * (nx * ny) {
            crop_laws::lemma_cropped_levels_cell(volume@, nx, ny, levels, window, i);
        }
    }
    if let Some(volume) = pressure.rain_kgkg_3d {
        if volume@.len() == levels * (nx * ny) {
            crop_laws::lemma_cropped_levels_cell(volume@, nx, ny, levels, window, i);
        }
    }
    if let Some(volume) = pressure.snow_kgkg_3d {
        if volume@.len() == levels * (nx * ny) {
            crop_laws::lemma_cropped_levels_cell(volume@, nx, ny, levels, window, i);
        }
    }
    if let Some(volume) = pressure.graupel_kgkg_3d {
        if volume@.len() == levels * (nx * ny) {
            crop_laws::lemma_cropped_levels_cell(volume@, nx, ny, levels, window, i);
        }
    }
}

} // verus!
