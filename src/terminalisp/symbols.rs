//! The symbols that status texts are made of.
use vstd::prelude::*;

verus! {

pub const OK: &'static str = "'OK";

pub const INACTIVE: &'static str = "'INACTIVE";

pub const ERROR: &'static str = "'ERROR";

pub const SAVED: &'static str = "'SAVED";

pub const NONE: &'static str = "'NONE";

pub const INVALID: &'static str = "'INVALID";

} // verus!
