pub mod controller;
pub mod datapath;
pub mod pipeline;

pub use pipeline::CVE2Pipeline;
