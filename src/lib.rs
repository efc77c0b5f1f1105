//! A small turn-based roguelike core: a tile map with two pillars, entities
//! that move on it with collision checks, the frame that a renderer draws,
//! and the state machine that turns window and key events into steps.

pub mod color;
pub mod tile;
pub mod map;
pub mod object;
pub mod game;
pub mod frame;
pub mod render;
