//! A recursive (Whitted-style) ray tracer over fixed-point arithmetic.
//!
//! Scene geometry, colors and coefficients are all carried as `i64` values
//! scaled by `fx::SCALE` (a binary fixed-point format), so that every
//! arithmetic step has an exact, machine-checkable meaning.

pub mod environment;
pub mod fx;
pub mod geometry;
pub mod light;
pub mod mediums;
pub mod ray;
pub mod render;
pub mod surface;
pub mod vector;

pub use environment::Environment;
pub use fx::INFINITY;
pub use fx::SCALE;
pub use geometry::Solid;
pub use light::Light;
pub use mediums::Medium;
pub use ray::Ray;
pub use render::{
    render_scene, render_scene_supersampling_grid, render_scene_supersampling_grid_adaptive,
    NullRenderBackend, RenderBackend, RenderError,
};
pub use surface::Surface;
pub use vector::{Color, Vector};
