//! Planning, layout and bookkeeping rules of a weather-map product pipeline.

pub mod derived;
pub mod direct;
pub mod ecape;
pub mod ecape_compute;
pub mod ecape_laws;
pub mod ecape_settled;
pub mod gridded;
pub mod heavy;
pub mod heavy_batch;
pub mod heavy_laws;
pub mod heavy_panel;
pub mod heavy_stage;
pub mod hrrr;
pub mod hrrr_batch;
pub mod hrrr_laws;
pub mod model;
pub mod number_laws;
pub mod numbers;
pub mod panel;
pub mod parallel;
pub mod sorted;
pub mod text;
