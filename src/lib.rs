//! The core of a small rotation and messaging server: a sequencer that numbers
//! messages without gaps or duplicates, the choice of formula that turns a
//! rotation matrix into a quaternion, the server's settings with their
//! defaults, and the text echo of a submitted form.

pub mod config;
pub mod extraction;
pub mod report;
pub mod sequencer;
