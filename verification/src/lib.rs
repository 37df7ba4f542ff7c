//! A character-cell raycaster: a tile map, the decisions of a ray march over
//! it, and the drawing of the first-person view and of the overhead map onto
//! an in-memory screen.

pub mod canvas;
pub mod cell;
pub mod frame;
pub mod hud;
pub mod minimap;
pub mod screen;
pub mod session;
pub mod tilemap;
pub mod view;
