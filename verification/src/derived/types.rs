//! What a derived batch is asked for and what it reports.
use crate::gridded::runtime::SharedTiming;
use crate::heavy::HeavyComputeTiming;
use crate::model::{NativeSemantics, ProductSourceRoute};
use vstd::prelude::*;

verus! {

/// The width of a derived map.
pub const OUTPUT_WIDTH: u32 = 1200;

/// The height of a derived map.
pub const OUTPUT_HEIGHT: u32 = 900;

/// How many fill levels stand for one unless a request says otherwise.
pub const DEFAULT_NATIVE_FILL_LEVEL_MULTIPLIER: usize = 1;

/// How filled contours are drawn.
#[derive(Debug, Clone, Copy, PartialEq, Eq, Structural)]
pub enum NativeContourRenderMode {
    Automatic,
    Signature,
    LegacyRaster,
    ExperimentalAllProjected,
}

impl Default for NativeContourRenderMode {
    fn default() -> (mode: Self)
        ensures
            mode == NativeContourRenderMode::Automatic,
    {
        NativeContourRenderMode::Automatic
    }
}

/// The times of a derived batch. `F` is the family of a fetched bundle.
pub struct DerivedSharedTiming<F> {
    pub fetch_decode: Option<SharedTiming<F>>,
    pub compute_ms: u128,
    pub project_ms: u128,
    pub native_extract_ms: u128,
    pub native_compare_ms: u128,
    pub memory_profile: Option<DerivedMemoryProfile>,
    pub heavy_timing: Option<HeavyComputeTiming>,
}

/// What a derived batch holds in memory.
#[derive(Debug, Clone, Copy, PartialEq, Eq, Structural)]
pub struct DerivedMemoryProfile {
    pub source_grid_nx: usize,
    pub source_grid_ny: usize,
    pub cropped_grid_nx: usize,
    pub cropped_grid_ny: usize,
    pub crop_x_start: usize,
    pub crop_x_end: usize,
    pub crop_y_start: usize,
    pub crop_y_end: usize,
    pub surface_fetch_bytes_len: usize,
    pub pressure_fetch_bytes_len: usize,
    pub cropped_surface_decoded_bytes_estimate: usize,
    pub cropped_pressure_decoded_bytes_estimate: usize,
    pub cropped_decoded_total_bytes_estimate: usize,
    pub pressure_level_count: usize,
    pub thermo_volume_points: usize,
    pub compute_recipe_count: usize,
    pub needs_volume: bool,
    pub needs_height_agl: bool,
    pub canonical_pressure_3d_pa_bytes_estimate: usize,
    pub canonical_height_agl_3d_bytes_estimate: usize,
    pub canonical_shared_volume_work_bytes_estimate: usize,
}

/// A product that was drawn from a field of the model itself.
#[derive(Debug)]
pub struct NativeThermoArtifactReport {
    pub recipe_slug: String,
    pub source_route: ProductSourceRoute,
    pub semantics: NativeSemantics,
    pub auto_eligible: bool,
    pub native_label: String,
    pub native_detail: String,
    pub native_fetch_product: String,
}

} // verus!
