pub mod controller;
pub mod datapath;
pub mod hazard_detection;
pub mod pipeline;
pub mod visualization;

pub use pipeline::FiveStagePipeline;
