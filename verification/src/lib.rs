pub mod blur;
pub mod convolution;
pub mod crop;
pub mod edge_detection;
pub mod filtering_operations;
pub mod gray_scale;
pub mod grid;
pub mod image;
pub mod morphological;
pub mod operations;
pub mod pixel;
pub mod resize;
pub mod rotate;
pub mod sharpen;
pub mod statistics;
pub mod transformation_operations;
