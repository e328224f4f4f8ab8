//! Products drawn straight from the messages of a model file.

pub mod batch;
pub mod chunks;
pub mod composite;
pub mod domain;
pub mod drawing;
pub mod fetch;
pub mod frame_laws;
pub mod grouping;
pub mod layer_laws;
pub mod lookup_laws;
pub mod masks;
pub mod mesh;
pub mod planning;
pub mod projected;
pub mod projection;
pub mod recipe;
pub mod render;
pub mod request;
pub mod request_laws;
pub mod sampling;
pub mod schedule;
pub mod style_laws;
pub mod styling;
pub mod title_laws;
pub mod titles;
pub mod types;
pub mod wind;
