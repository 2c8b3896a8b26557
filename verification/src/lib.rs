//! A third-person character rig: a locomotion state machine for a
//! physics-driven character and the smooth-transition state of the orbital
//! camera that follows it, over bounded fixed-point numbers.

pub mod camera;
pub mod character;
pub mod collision;
pub mod fixed;
pub mod math;
pub mod player;
pub mod settling;
