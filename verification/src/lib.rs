//! A verified core of the classic Snake arcade game: the segmented body
//! model, movement and growth, collision detection, food placement, and
//! the turn/tick update cycle. Window, input and rendering plumbing live
//! outside this crate and talk to it through plain values.

pub mod game;
pub mod render;
pub mod snake;
