//! The power modules.
use vstd::prelude::*;

use crate::module::common::{Active, BreakModule, PowerDownModule, RepairModule, StatusModule};
use crate::station::components::Name;

verus! {

pub struct FusionComponentStorage {
    active: bool,
}

impl FusionComponentStorage {
    pub fn new(initial: bool) -> (r: Self)
        ensures
            r.is_active() == initial,
    {
        FusionComponentStorage { active: initial }
    }
}

impl Name for FusionComponentStorage {
    open spec fn name_view(&self) -> Seq<char> {
        "Fusion Component Storage"@
    }

    fn name(&self) -> (r: String) {
        String::from_str("Fusion Component Storage")
    }
}

impl Active for FusionComponentStorage {
    closed spec fn is_active(&self) -> bool {
        self.active
    }

    fn active(&self) -> (r: bool) {
        self.active
    }

    fn activate(&mut self) {
        self.active = true;
    }

    fn deactivate(&mut self) {
        self.active = false;
    }
}

impl StatusModule for FusionComponentStorage {}

impl BreakModule for FusionComponentStorage {}

impl RepairModule for FusionComponentStorage {}

impl PowerDownModule for FusionComponentStorage {}

pub struct FusionReactor {
    active: bool,
}

impl FusionReactor {
    pub fn new(initial: bool) -> (r: Self)
        ensures
            r.is_active() == initial,
    {
        FusionReactor { active: initial }
    }
}

impl Name for FusionReactor {
    open spec fn name_view(&self) -> Seq<char> {
        "Fusion Reactor"@
    }

    fn name(&self) -> (r: String) {
        String::from_str("Fusion Reactor")
    }
}

impl Active for FusionReactor {
    closed spec fn is_active(&self) -> bool {
        self.active
    }

    fn active(&self) -> (r: bool) {
        self.active
    }

    fn activate(&mut self) {
        self.active = true;
    }

    fn deactivate(&mut self) {
        self.active = false;
    }
}

impl StatusModule for FusionReactor {}

impl BreakModule for FusionReactor {}

impl RepairModule for FusionReactor {}

impl PowerDownModule for FusionReactor {}

pub struct CombustionTurbineGenerator {
    active: bool,
}

impl CombustionTurbineGenerator {
    pub fn new(initial: bool) -> (r: Self)
        ensures
            r.is_active() == initial,
    {
        CombustionTurbineGenerator { active: initial }
    }
}

impl Name for CombustionTurbineGenerator {
    open spec fn name_view(&self) -> Seq<char> {
        "Combustion Turbine Generator"@
    }

    fn name(&self) -> (r: String) {
        String::from_str("Combustion Turbine Generator")
    }
}

impl Active for CombustionTurbineGenerator {
    closed spec fn is_active(&self) -> bool {
        self.active
    }

    fn active(&self) -> (r: bool) {
        self.active
    }

    fn activate(&mut self) {
        self.active = true;
    }

    fn deactivate(&mut self) {
        self.active = false;
    }
}

impl StatusModule for CombustionTurbineGenerator {}

impl BreakModule for CombustionTurbineGenerator {}

impl RepairModule for CombustionTurbineGenerator {}

impl PowerDownModule for CombustionTurbineGenerator {}

pub struct FossilFuelStorage {
    active: bool,
}

impl FossilFuelStorage {
    pub fn new(initial: bool) -> (r: Self)
        ensures
            r.is_active() == initial,
    {
        FossilFuelStorage { active: initial }
    }
}

impl Name for FossilFuelStorage {
    open spec fn name_view(&self) -> Seq<char> {
        "Fossil Fuel Storage"@
    }

    fn name(&self) -> (r: String) {
        String::from_str("Fossil Fuel Storage")
    }
}

impl Active for FossilFuelStorage {
    closed spec fn is_active(&self) -> bool {
        self.active
    }

    fn active(&self) -> (r: bool) {
        self.active
    }

    fn activate(&mut self) {
        self.active = true;
    }

    fn deactivate(&mut self) {
        self.active = false;
    }
}

impl StatusModule for FossilFuelStorage {}

impl BreakModule for FossilFuelStorage {}

impl RepairModule for FossilFuelStorage {}

impl PowerDownModule for FossilFuelStorage {}

pub struct NuclearFuelStorage {
    active: bool,
}

impl NuclearFuelStorage {
    pub fn new(initial: bool) -> (r: Self)
        ensures
            r.is_active() == initial,
    {
        NuclearFuelStorage { active: initial }
    }
}

impl Name for NuclearFuelStorage {
    open spec fn name_view(&self) -> Seq<char> {
        "Nuclear Fuel Storage"@
    }

    fn name(&self) -> (r: String) {
        String::from_str("Nuclear Fuel Storage")
    }
}

impl Active for NuclearFuelStorage {
    closed spec fn is_active(&self) -> bool {
        self.active
    }

    fn active(&self) -> (r: bool) {
        self.active
    }

    fn activate(&mut self) {
        self.active = true;
    }

    fn deactivate(&mut self) {
        self.active = false;
    }
}

impl StatusModule for NuclearFuelStorage {}

impl BreakModule for NuclearFuelStorage {}

impl RepairModule for NuclearFuelStorage {}

impl PowerDownModule for NuclearFuelStorage {}

pub struct NuclearReactor {
    active: bool,
}

impl NuclearReactor {
    pub fn new(initial: bool) -> (r: Self)
        ensures
            r.is_active() == initial,
    {
        NuclearReactor { active: initial }
    }
}

impl Name for NuclearReactor {
    open spec fn name_view(&self) -> Seq<char> {
        "Nuclear Reactor"@
    }

    fn name(&self) -> (r: String) {
        String::from_str("Nuclear Reactor")
    }
}

impl Active for NuclearReactor {
    closed spec fn is_active(&self) -> bool {
        self.active
    }

    fn active(&self) -> (r: bool) {
        self.active
    }

    fn activate(&mut self) {
        self.active = true;
    }

    fn deactivate(&mut self) {
        self.active = false;
    }
}

impl StatusModule for NuclearReactor {}

impl BreakModule for NuclearReactor {}

impl RepairModule for NuclearReactor {}

impl PowerDownModule for NuclearReactor {}

pub struct NuclearWasteStorage {
    active: bool,
}

impl NuclearWasteStorage {
    pub fn new(initial: bool) -> (r: Self)
        ensures
            r.is_active() == initial,
    {
        NuclearWasteStorage { active: initial }
    }
}

impl Name for NuclearWasteStorage {
    open spec fn name_view(&self) -> Seq<char> {
        "Nuclear Waste Storage"@
    }

    fn name(&self) -> (r: String) {
        String::from_str("Nuclear Waste Storage")
    }
}

impl Active for NuclearWasteStorage {
    closed spec fn is_active(&self) -> bool {
        self.active
    }

    fn active(&self) -> (r: bool) {
        self.active
    }

    fn activate(&mut self) {
        self.active = true;
    }

    fn deactivate(&mut self) {
        self.active = false;
    }
}

impl StatusModule for NuclearWasteStorage {}

impl BreakModule for NuclearWasteStorage {}

impl RepairModule for NuclearWasteStorage {}

impl PowerDownModule for NuclearWasteStorage {}

pub struct RadiationMirrors {
    active: bool,
}

impl RadiationMirrors {
    pub fn new(initial: bool) -> (r: Self)
        ensures
            r.is_active() == initial,
    {
        RadiationMirrors { active: initial }
    }
}

impl Name for RadiationMirrors {
    open spec fn name_view(&self) -> Seq<char> {
        "Radiation Mirrors"@
    }

    fn name(&self) -> (r: String) {
        String::from_str("Radiation Mirrors")
    }
}

impl Active for RadiationMirrors {
    closed spec fn is_active(&self) -> bool {
        self.active
    }

    fn active(&self) -> (r: bool) {
        self.active
    }

    fn activate(&mut self) {
        self.active = true;
    }

    fn deactivate(&mut self) {
        self.active = false;
    }
}

impl StatusModule for RadiationMirrors {}

impl BreakModule for RadiationMirrors {}

impl RepairModule for RadiationMirrors {}

impl PowerDownModule for RadiationMirrors {}

pub struct SolarPanels {
    active: bool,
}

impl SolarPanels {
    pub fn new(initial: bool) -> (r: Self)
        ensures
            r.is_active() == initial,
    {
        SolarPanels { active: initial }
    }
}

impl Name for SolarPanels {
    open spec fn name_view(&self) -> Seq<char> {
        "Solar Panels"@
    }

    fn name(&self) -> (r: String) {
        String::from_str("Solar Panels")
    }
}

impl Active for SolarPanels {
    closed spec fn is_active(&self) -> bool {
        self.active
    }

    fn active(&self) -> (r: bool) {
        self.active
    }

    fn activate(&mut self) {
        self.active = true;
    }

    fn deactivate(&mut self) {
        self.active = false;
    }
}

impl StatusModule for SolarPanels {}

impl BreakModule for SolarPanels {}

impl RepairModule for SolarPanels {}

impl PowerDownModule for SolarPanels {}

pub struct SteamTurbineGenerator {
    active: bool,
}

impl SteamTurbineGenerator {
    pub fn new(initial: bool) -> (r: Self)
        ensures
            r.is_active() == initial,
    {
        SteamTurbineGenerator { active: initial }
    }
}

impl Name for SteamTurbineGenerator {
    open spec fn name_view(&self) -> Seq<char> {
        "Steam Turbine Generator"@
    }

    fn name(&self) -> (r: String) {
        String::from_str("Steam Turbine Generator")
    }
}

impl Active for SteamTurbineGenerator {
    closed spec fn is_active(&self) -> bool {
        self.active
    }

    fn active(&self) -> (r: bool) {
        self.active
    }

    fn activate(&mut self) {
        self.active = true;
    }

    fn deactivate(&mut self) {
        self.active = false;
    }
}

impl StatusModule for SteamTurbineGenerator {}

impl BreakModule for SteamTurbineGenerator {}

impl RepairModule for SteamTurbineGenerator {}

impl PowerDownModule for SteamTurbineGenerator {}

} // verus!
