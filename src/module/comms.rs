//! The comms modules.
use vstd::prelude::*;

use crate::module::common::{Active, BreakModule, PowerDownModule, RepairModule, StatusModule};
use crate::station::components::Name;

verus! {

pub struct Antenna {
    active: bool,
}

impl Antenna {
    pub fn new(initial: bool) -> (r: Self)
        ensures
            r.is_active() == initial,
    {
        Antenna { active: initial }
    }
}

impl Name for Antenna {
    open spec fn name_view(&self) -> Seq<char> {
        "Antenna"@
    }

    fn name(&self) -> (r: String) {
        String::from_str("Antenna")
    }
}

impl Active for Antenna {
    closed spec fn is_active(&self) -> bool {
        self.active
    }

    fn active(&self) -> (r: bool) {
        self.active
    }

    fn activate(&mut self) {
        self.active = true;
    }

    fn deactivate(&mut self) {
        self.active = false;
    }
}

impl StatusModule for Antenna {}

impl BreakModule for Antenna {}

impl RepairModule for Antenna {}

impl PowerDownModule for Antenna {}

pub struct Tracking {
    active: bool,
}

impl Tracking {
    pub fn new(initial: bool) -> (r: Self)
        ensures
            r.is_active() == initial,
    {
        Tracking { active: initial }
    }
}

impl Name for Tracking {
    open spec fn name_view(&self) -> Seq<char> {
        "Tracking"@
    }

    fn name(&self) -> (r: String) {
        String::from_str("Tracking")
    }
}

impl Active for Tracking {
    closed spec fn is_active(&self) -> bool {
        self.active
    }

    fn active(&self) -> (r: bool) {
        self.active
    }

    fn activate(&mut self) {
        self.active = true;
    }

    fn deactivate(&mut self) {
        self.active = false;
    }
}

impl StatusModule for Tracking {}

impl BreakModule for Tracking {}

impl RepairModule for Tracking {}

impl PowerDownModule for Tracking {}

pub struct Transponder {
    active: bool,
}

impl Transponder {
    pub fn new(initial: bool) -> (r: Self)
        ensures
            r.is_active() == initial,
    {
        Transponder { active: initial }
    }
}

impl Name for Transponder {
    open spec fn name_view(&self) -> Seq<char> {
        "Transponder"@
    }

    fn name(&self) -> (r: String) {
        String::from_str("Transponder")
    }
}

impl Active for Transponder {
    closed spec fn is_active(&self) -> bool {
        self.active
    }

    fn active(&self) -> (r: bool) {
        self.active
    }

    fn activate(&mut self) {
        self.active = true;
    }

    fn deactivate(&mut self) {
        self.active = false;
    }
}

impl StatusModule for Transponder {}

impl BreakModule for Transponder {}

impl RepairModule for Transponder {}

impl PowerDownModule for Transponder {}

} // verus!
