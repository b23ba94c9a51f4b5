//! The misc modules.
use vstd::prelude::*;

use crate::module::common::{Active, BreakModule, PowerDownModule, RepairModule, StatusModule};
use crate::station::components::Name;

verus! {

pub struct Airlock {
    active: bool,
}

impl Airlock {
    pub fn new(initial: bool) -> (r: Self)
        ensures
            r.is_active() == initial,
    {
        Airlock { active: initial }
    }
}

impl Name for Airlock {
    open spec fn name_view(&self) -> Seq<char> {
        "Airlock"@
    }

    fn name(&self) -> (r: String) {
        String::from_str("Airlock")
    }
}

impl Active for Airlock {
    closed spec fn is_active(&self) -> bool {
        self.active
    }

    fn active(&self) -> (r: bool) {
        self.active
    }

    fn activate(&mut self) {
        self.active = true;
    }

    fn deactivate(&mut self) {
        self.active = false;
    }
}

impl StatusModule for Airlock {}

impl BreakModule for Airlock {}

impl RepairModule for Airlock {}

impl PowerDownModule for Airlock {}

pub struct CargoBay {
    active: bool,
}

impl CargoBay {
    pub fn new(initial: bool) -> (r: Self)
        ensures
            r.is_active() == initial,
    {
        CargoBay { active: initial }
    }
}

impl Name for CargoBay {
    open spec fn name_view(&self) -> Seq<char> {
        "Cargo Bay"@
    }

    fn name(&self) -> (r: String) {
        String::from_str("Cargo Bay")
    }
}

impl Active for CargoBay {
    closed spec fn is_active(&self) -> bool {
        self.active
    }

    fn active(&self) -> (r: bool) {
        self.active
    }

    fn activate(&mut self) {
        self.active = true;
    }

    fn deactivate(&mut self) {
        self.active = false;
    }
}

impl StatusModule for CargoBay {}

impl BreakModule for CargoBay {}

impl RepairModule for CargoBay {}

impl PowerDownModule for CargoBay {}

pub struct TemperatureControl {
    active: bool,
}

impl TemperatureControl {
    pub fn new(initial: bool) -> (r: Self)
        ensures
            r.is_active() == initial,
    {
        TemperatureControl { active: initial }
    }
}

impl Name for TemperatureControl {
    open spec fn name_view(&self) -> Seq<char> {
        "Temperature Control"@
    }

    fn name(&self) -> (r: String) {
        String::from_str("Temperature Control")
    }
}

impl Active for TemperatureControl {
    closed spec fn is_active(&self) -> bool {
        self.active
    }

    fn active(&self) -> (r: bool) {
        self.active
    }

    fn activate(&mut self) {
        self.active = true;
    }

    fn deactivate(&mut self) {
        self.active = false;
    }
}

impl StatusModule for TemperatureControl {}

impl BreakModule for TemperatureControl {}

impl RepairModule for TemperatureControl {}

impl PowerDownModule for TemperatureControl {}

} // verus!
