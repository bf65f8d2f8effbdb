//! A rectangular world of typed tiles whose sprite variant is chosen from the
//! four orthogonal neighbours of each tile, together with the geometry that
//! decides what is drawn where.

pub mod animated_sprite;
pub mod common;
pub mod frame;
pub mod sprite;
pub mod tile;
pub mod viewport;
pub mod world;
