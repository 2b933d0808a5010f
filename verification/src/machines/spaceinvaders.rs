//! The Space Invaders cabinet: its ports, sounds, controls and display, and
//! the frame loop that drives the processor.

pub mod sound;
pub mod ports;
pub mod controls;
pub mod video;
pub mod cabinet;

pub use cabinet::{Cabinet, SpaceInvaders};
pub use ports::{Ports, SpaceInvadersIO};
pub use sound::{Sound, SoundAction};
