//! A simulated space station: a fixed tree of categories, sections and
//! modules that can be installed or absent, active or broken, and that is
//! broken, repaired, powered down and rendered level by level.

pub mod category;
pub mod chance;
pub mod classic;
pub mod event;
pub mod journal;
pub mod module;
pub mod section;
pub mod station;
pub mod terminalisp;
