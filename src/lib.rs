pub mod sequence;
pub mod estimator;
pub mod color;
pub mod image;
pub mod config;
