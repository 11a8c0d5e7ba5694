pub mod api;
pub mod context;
pub mod error;
pub mod grid;
pub mod image;
pub mod image_dimensions;
pub mod method;
pub mod methods;
pub mod sample;
