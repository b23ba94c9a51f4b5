//! The crew modules.
use vstd::prelude::*;

use crate::module::common::{Active, BreakModule, PowerDownModule, RepairModule, StatusModule};
use crate::station::components::Name;

verus! {

pub struct CommandModule {
    active: bool,
}

impl CommandModule {
    pub fn new(initial: bool) -> (r: Self)
        ensures
            r.is_active() == initial,
    {
        CommandModule { active: initial }
    }
}

impl Name for CommandModule {
    open spec fn name_view(&self) -> Seq<char> {
        "Command Module"@
    }

    fn name(&self) -> (r: String) {
        String::from_str("Command Module")
    }
}

impl Active for CommandModule {
    closed spec fn is_active(&self) -> bool {
        self.active
    }

    fn active(&self) -> (r: bool) {
        self.active
    }

    fn activate(&mut self) {
        self.active = true;
    }

    fn deactivate(&mut self) {
        self.active = false;
    }
}

impl StatusModule for CommandModule {}

impl BreakModule for CommandModule {}

impl RepairModule for CommandModule {}

impl PowerDownModule for CommandModule {}

pub struct Galley {
    active: bool,
}

impl Galley {
    pub fn new(initial: bool) -> (r: Self)
        ensures
            r.is_active() == initial,
    {
        Galley { active: initial }
    }
}

impl Name for Galley {
    open spec fn name_view(&self) -> Seq<char> {
        "Galley"@
    }

    fn name(&self) -> (r: String) {
        String::from_str("Galley")
    }
}

impl Active for Galley {
    closed spec fn is_active(&self) -> bool {
        self.active
    }

    fn active(&self) -> (r: bool) {
        self.active
    }

    fn activate(&mut self) {
        self.active = true;
    }

    fn deactivate(&mut self) {
        self.active = false;
    }
}

impl StatusModule for Galley {}

impl BreakModule for Galley {}

impl RepairModule for Galley {}

impl PowerDownModule for Galley {}

pub struct LifeSupport {
    active: bool,
}

impl LifeSupport {
    pub fn new(initial: bool) -> (r: Self)
        ensures
            r.is_active() == initial,
    {
        LifeSupport { active: initial }
    }
}

impl Name for LifeSupport {
    open spec fn name_view(&self) -> Seq<char> {
        "Life Support"@
    }

    fn name(&self) -> (r: String) {
        String::from_str("Life Support")
    }
}

impl Active for LifeSupport {
    closed spec fn is_active(&self) -> bool {
        self.active
    }

    fn active(&self) -> (r: bool) {
        self.active
    }

    fn activate(&mut self) {
        self.active = true;
    }

    fn deactivate(&mut self) {
        self.active = false;
    }
}

impl StatusModule for LifeSupport {}

impl BreakModule for LifeSupport {}

impl RepairModule for LifeSupport {}

impl PowerDownModule for LifeSupport {}

pub struct SleepingPods {
    active: bool,
}

impl SleepingPods {
    pub fn new(initial: bool) -> (r: Self)
        ensures
            r.is_active() == initial,
    {
        SleepingPods { active: initial }
    }
}

impl Name for SleepingPods {
    open spec fn name_view(&self) -> Seq<char> {
        "Sleeping Pods"@
    }

    fn name(&self) -> (r: String) {
        String::from_str("Sleeping Pods")
    }
}

impl Active for SleepingPods {
    closed spec fn is_active(&self) -> bool {
        self.active
    }

    fn active(&self) -> (r: bool) {
        self.active
    }

    fn activate(&mut self) {
        self.active = true;
    }

    fn deactivate(&mut self) {
        self.active = false;
    }
}

impl StatusModule for SleepingPods {}

impl BreakModule for SleepingPods {}

impl RepairModule for SleepingPods {}

impl PowerDownModule for SleepingPods {}

pub struct SpaceSuits {
    active: bool,
}

impl SpaceSuits {
    pub fn new(initial: bool) -> (r: Self)
        ensures
            r.is_active() == initial,
    {
        SpaceSuits { active: initial }
    }
}

impl Name for SpaceSuits {
    open spec fn name_view(&self) -> Seq<char> {
        "Space Suits"@
    }

    fn name(&self) -> (r: String) {
        String::from_str("Space Suits")
    }
}

impl Active for SpaceSuits {
    closed spec fn is_active(&self) -> bool {
        self.active
    }

    fn active(&self) -> (r: bool) {
        self.active
    }

    fn activate(&mut self) {
        self.active = true;
    }

    fn deactivate(&mut self) {
        self.active = false;
    }
}

impl StatusModule for SpaceSuits {}

impl BreakModule for SpaceSuits {}

impl RepairModule for SpaceSuits {}

impl PowerDownModule for SpaceSuits {}

pub struct WaterReclamation {
    active: bool,
}

impl WaterReclamation {
    pub fn new(initial: bool) -> (r: Self)
        ensures
            r.is_active() == initial,
    {
        WaterReclamation { active: initial }
    }
}

impl Name for WaterReclamation {
    open spec fn name_view(&self) -> Seq<char> {
        "Water Reclamation"@
    }

    fn name(&self) -> (r: String) {
        String::from_str("Water Reclamation")
    }
}

impl Active for WaterReclamation {
    closed spec fn is_active(&self) -> bool {
        self.active
    }

    fn active(&self) -> (r: bool) {
        self.active
    }

    fn activate(&mut self) {
        self.active = true;
    }

    fn deactivate(&mut self) {
        self.active = false;
    }
}

impl StatusModule for WaterReclamation {}

impl BreakModule for WaterReclamation {}

impl RepairModule for WaterReclamation {}

impl PowerDownModule for WaterReclamation {}

} // verus!
