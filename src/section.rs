pub mod common;
pub mod section;

pub mod comms;
pub mod crew;
pub mod maneuver;
pub mod misc;
pub mod power;
pub mod research;
