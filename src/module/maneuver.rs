//! The maneuver modules.
use vstd::prelude::*;

use crate::module::common::{Active, BreakModule, PowerDownModule, RepairModule, StatusModule};
use crate::station::components::Name;

verus! {

pub struct DockingSystem {
    active: bool,
}

impl DockingSystem {
    pub fn new(initial: bool) -> (r: Self)
        ensures
            r.is_active() == initial,
    {
        DockingSystem { active: initial }
    }
}

impl Name for DockingSystem {
    open spec fn name_view(&self) -> Seq<char> {
        "Docking System"@
    }

    fn name(&self) -> (r: String) {
        String::from_str("Docking System")
    }
}

impl Active for DockingSystem {
    closed spec fn is_active(&self) -> bool {
        self.active
    }

    fn active(&self) -> (r: bool) {
        self.active
    }

    fn activate(&mut self) {
        self.active = true;
    }

    fn deactivate(&mut self) {
        self.active = false;
    }
}

impl StatusModule for DockingSystem {}

impl BreakModule for DockingSystem {}

impl RepairModule for DockingSystem {}

impl PowerDownModule for DockingSystem {}

pub struct ReactionControlSystem {
    active: bool,
}

impl ReactionControlSystem {
    pub fn new(initial: bool) -> (r: Self)
        ensures
            r.is_active() == initial,
    {
        ReactionControlSystem { active: initial }
    }
}

impl Name for ReactionControlSystem {
    open spec fn name_view(&self) -> Seq<char> {
        "Reaction Control System"@
    }

    fn name(&self) -> (r: String) {
        String::from_str("Reaction Control System")
    }
}

impl Active for ReactionControlSystem {
    closed spec fn is_active(&self) -> bool {
        self.active
    }

    fn active(&self) -> (r: bool) {
        self.active
    }

    fn activate(&mut self) {
        self.active = true;
    }

    fn deactivate(&mut self) {
        self.active = false;
    }
}

impl StatusModule for ReactionControlSystem {}

impl BreakModule for ReactionControlSystem {}

impl RepairModule for ReactionControlSystem {}

impl PowerDownModule for ReactionControlSystem {}

} // verus!
