//! Products derived from surface and pressure-level model fields.

pub mod assemble;
pub mod compute;
pub mod compute_laws;
pub mod field_laws;
pub mod fields;
pub mod inventory;
pub mod inventory_laws;
pub mod kernel_runs;
pub mod kernels;
pub mod level_laws;
pub mod levels;
pub mod naming_laws;
pub mod phased;
pub mod planning;
pub mod presentation;
pub mod presentation_laws;
pub mod query;
pub mod recipe_laws;
pub mod recipes;
pub mod requirements;
pub mod sampling;
pub mod settled_laws;
pub mod store;
pub mod store_agreement;
pub mod store_compute;
pub mod store_drawing;
pub mod store_inputs;
pub mod store_laws;
pub mod store_render;
pub mod types;
