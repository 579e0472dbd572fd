//! A layered grid world: entities on an integer 3D grid, one tile buffer per
//! z-layer kept in step with the world through placement events, and a view
//! that chooses which layers show and how strongly.

pub mod geometry;
pub mod layers;
pub mod events;
pub mod render_sync;
pub mod grid_world;
pub mod compositor;
pub mod view;
pub mod movement;
pub mod laws;
