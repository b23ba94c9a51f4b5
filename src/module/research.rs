//! The research modules.
use vstd::prelude::*;

use crate::module::common::{Active, BreakModule, PowerDownModule, RepairModule, StatusModule};
use crate::station::components::Name;

verus! {

pub struct AstronomyLab {
    active: bool,
}

impl AstronomyLab {
    pub fn new(initial: bool) -> (r: Self)
        ensures
            r.is_active() == initial,
    {
        AstronomyLab { active: initial }
    }
}

impl Name for AstronomyLab {
    open spec fn name_view(&self) -> Seq<char> {
        "Astronomy Lab"@
    }

    fn name(&self) -> (r: String) {
        String::from_str("Astronomy Lab")
    }
}

impl Active for AstronomyLab {
    closed spec fn is_active(&self) -> bool {
        self.active
    }

    fn active(&self) -> (r: bool) {
        self.active
    }

    fn activate(&mut self) {
        self.active = true;
    }

    fn deactivate(&mut self) {
        self.active = false;
    }
}

impl StatusModule for AstronomyLab {}

impl BreakModule for AstronomyLab {}

impl RepairModule for AstronomyLab {}

impl PowerDownModule for AstronomyLab {}

pub struct Greenhouse {
    active: bool,
}

impl Greenhouse {
    pub fn new(initial: bool) -> (r: Self)
        ensures
            r.is_active() == initial,
    {
        Greenhouse { active: initial }
    }
}

impl Name for Greenhouse {
    open spec fn name_view(&self) -> Seq<char> {
        "Greenhouse"@
    }

    fn name(&self) -> (r: String) {
        String::from_str("Greenhouse")
    }
}

impl Active for Greenhouse {
    closed spec fn is_active(&self) -> bool {
        self.active
    }

    fn active(&self) -> (r: bool) {
        self.active
    }

    fn activate(&mut self) {
        self.active = true;
    }

    fn deactivate(&mut self) {
        self.active = false;
    }
}

impl StatusModule for Greenhouse {}

impl BreakModule for Greenhouse {}

impl RepairModule for Greenhouse {}

impl PowerDownModule for Greenhouse {}

pub struct Mainframe {
    active: bool,
}

impl Mainframe {
    pub fn new(initial: bool) -> (r: Self)
        ensures
            r.is_active() == initial,
    {
        Mainframe { active: initial }
    }
}

impl Name for Mainframe {
    open spec fn name_view(&self) -> Seq<char> {
        "Mainframe"@
    }

    fn name(&self) -> (r: String) {
        String::from_str("Mainframe")
    }
}

impl Active for Mainframe {
    closed spec fn is_active(&self) -> bool {
        self.active
    }

    fn active(&self) -> (r: bool) {
        self.active
    }

    fn activate(&mut self) {
        self.active = true;
    }

    fn deactivate(&mut self) {
        self.active = false;
    }
}

impl StatusModule for Mainframe {}

impl BreakModule for Mainframe {}

impl RepairModule for Mainframe {}

impl PowerDownModule for Mainframe {}

pub struct WeatherObservation {
    active: bool,
}

impl WeatherObservation {
    pub fn new(initial: bool) -> (r: Self)
        ensures
            r.is_active() == initial,
    {
        WeatherObservation { active: initial }
    }
}

impl Name for WeatherObservation {
    open spec fn name_view(&self) -> Seq<char> {
        "Weather Observation"@
    }

    fn name(&self) -> (r: String) {
        String::from_str("Weather Observation")
    }
}

impl Active for WeatherObservation {
    closed spec fn is_active(&self) -> bool {
        self.active
    }

    fn active(&self) -> (r: bool) {
        self.active
    }

    fn activate(&mut self) {
        self.active = true;
    }

    fn deactivate(&mut self) {
        self.active = false;
    }
}

impl StatusModule for WeatherObservation {}

impl BreakModule for WeatherObservation {}

impl RepairModule for WeatherObservation {}

impl PowerDownModule for WeatherObservation {}

} // verus!
