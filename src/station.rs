pub mod components;
pub mod name;
pub mod station;
