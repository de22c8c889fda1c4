//! The rules of a small open-world city game, as plain data and plain
//! functions: render quality presets, reproducible random streams, the
//! police response to a wanted level, mission progress and the like.

pub mod text;
pub mod quality;
pub mod rng;
pub mod render;
pub mod volumetrics;
pub mod post;
pub mod crime;
pub mod police;
pub mod weapons;
pub mod settings;
pub mod capture;
pub mod audition;
pub mod mission;
pub mod menu;
pub mod assets;
