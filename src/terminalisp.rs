pub mod journal;
pub mod station;
pub mod symbols;
