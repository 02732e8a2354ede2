pub mod bytes;
pub mod frame;
pub mod geometry;
pub mod lifecycle;
pub mod palette;
pub mod primitives;
pub mod renderer;
pub mod scene;
pub mod upload;
