//! Gridded model fields: cropping, row layout, decoding and fetching.

pub mod bounds;
pub mod cell_laws;
pub mod collect;
pub mod crop;
pub mod crop_laws;
pub mod cropped_decode;
pub mod decode;
pub mod decode_laws;
pub mod domain;
pub mod fetch;
pub mod fetch_laws;
pub mod fields;
pub mod heavy_volume;
pub mod pair_laws;
pub mod pressure_fields;
pub mod pressure_laws;
pub mod records;
pub mod rows;
pub mod runtime;
pub mod spacing;
pub mod spacing_laws;
pub mod surface;
pub mod surface_decode;
pub mod surface_laws;
pub mod thermo_pair;
pub mod volume_laws;
pub mod volumes;
pub mod wrap_cache;
