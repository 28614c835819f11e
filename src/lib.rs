//! Decision core of the non-player combat characters: a generic blend state
//! machine, the three machines a bot runs, perception and planning choices,
//! and the per-tick controller that ties them together.
//!
//! Units: positions are integer millimetres, time is integer milliseconds,
//! health and armor are integer points.

pub mod kinds;
pub mod machine;
pub mod signals;
pub mod machines;
pub mod geometry;
pub mod message;
pub mod character;
pub mod perception;
pub mod bot;
pub mod weapon;
pub mod projectile;
pub mod options;
pub mod player;
