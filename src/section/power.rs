//! The power sections.
use vstd::prelude::*;

use crate::module::common::{
    module_status_text, Active, BreakModule, PowerDownModule, RepairModule, StatusModule,
};
use crate::module::{power};
use crate::chance;
use crate::section::common::{
    flag_of, lemma_active_le_total, lemma_all_inactive, section_break_outcome, section_status_text,
    Installed, ModulesContained, SectionView,
};
use crate::station::components::{
    counts_view, BreakError, BreakSomething, ModuleCounts, Name, PowerDown, Repair, Status,
    UpdateModules,
};
use crate::terminalisp::station::{quote, quoted, texts};
use crate::terminalisp::station as tl_station;

verus! {

pub struct FossilPowerSection {
    installed: bool,
    module_combustion_turbine_generator: power::CombustionTurbineGenerator,
    module_fossil_fuel_storage: power::FossilFuelStorage,
    total_modules: u16,
    active_modules: u16,
}

impl ModulesContained for FossilPowerSection {
    const MODULES_CONTAINED: u16 = 2;
}

impl View for FossilPowerSection {
    type V = SectionView;

    closed spec fn view(&self) -> SectionView {
        SectionView {
            installed: self.installed,
            modules: seq![
                self.module_combustion_turbine_generator.is_active(),
                self.module_fossil_fuel_storage.is_active(),
            ],
        }
    }
}

impl FossilPowerSection {
    /// The names of the modules, in order.
    pub open spec fn module_names(&self) -> Seq<Seq<char>> {
        seq!["Combustion Turbine Generator"@, "Fossil Fuel Storage"@]
    }

    pub closed spec fn totals_cached(&self) -> bool {
        self.total_modules == 2
    }

    pub closed spec fn active_cached(&self) -> bool {
        self.active_modules == self@.active()
    }

    pub fn new(installed: bool) -> (r: Self)
        ensures
            r.well_formed(),
            r@ == SectionView::fresh(installed, 2),
    {
        let mut section = FossilPowerSection {
            installed,
            module_combustion_turbine_generator: power::CombustionTurbineGenerator::new(installed),
            module_fossil_fuel_storage: power::FossilFuelStorage::new(installed),
            total_modules: FossilPowerSection::MODULES_CONTAINED,
            active_modules: 0,
        };
        proof {
            assert(section@ =~= SectionView::fresh(installed, 2));
            if !installed {
                lemma_all_inactive(section@);
            }
        }
        section.update_active_modules();
        section
    }

    /// Breaks the module at position `pick`, counted from 1; an error where
    /// the section is not installed. A module that is broken already is
    /// reported by name all the same, and stays broken: the pick is not
    /// drawn again.
    pub fn break_module(&mut self, pick: u16) -> (r: Result<String, BreakError>)
        requires
            old(self).well_formed(),
            1 <= pick <= 2,
        ensures
            final(self).well_formed(),
            old(self)@.installed ==> final(self)@ == old(self)@.broken_at(pick - 1) && r is Ok
                && r->Ok_0@ == old(self).module_names()[pick - 1],
            !old(self)@.installed ==> final(self)@ == old(self)@ && r == Err::<String, BreakError>(
                BreakError::NotInstalled,
            ),
    {
        if !self.installed {
            return Err(BreakError::NotInstalled);
        }
        let broken = if pick == 1 {
            self.module_combustion_turbine_generator.break_something()
        } else {
            self.module_fossil_fuel_storage.break_something()
        };
        proof {
            assert(self@ =~= old(self)@.broken_at(pick - 1));
        }
        self.update_active_modules();
        Ok(broken)
    }

    /// Repairs the module at `slot`, counted from 0, where it is installed and
    /// broken; otherwise changes nothing.
    pub fn repair(&mut self, slot: usize)
        requires
            old(self).well_formed(),
        ensures
            final(self).well_formed(),
            final(self)@ == old(self)@.repaired(slot as int),
    {
        if slot < 2 && self.slot_is_repairable(slot) {
            if slot == 0 {
                self.module_combustion_turbine_generator.repair();
            } else {
                self.module_fossil_fuel_storage.repair();
            }
            proof {
                assert(self@ =~= old(self)@.repaired_at(slot as int));
            }
            self.update_active_modules();
        }
    }
}

impl Name for FossilPowerSection {
    open spec fn name_view(&self) -> Seq<char> {
        "Fossil Power Section"@
    }

    fn name(&self) -> (r: String) {
        String::from_str("Fossil Power Section")
    }
}

impl Installed for FossilPowerSection {
    open spec fn is_installed(&self) -> bool {
        self@.installed
    }

    fn installed(&self) -> (r: bool) {
        self.installed
    }
}

impl ModuleCounts for FossilPowerSection {
    open spec fn well_formed(&self) -> bool {
        &&& self.totals_cached()
        &&& self.active_cached()
        &&& self@.total() == 2
        &&& self@.well_formed()
    }

    open spec fn total_count(&self) -> nat {
        self@.total()
    }

    open spec fn active_count(&self) -> nat {
        self@.active()
    }

    fn total_modules(&self) -> (r: u16) {
        self.total_modules
    }

    fn active_modules(&self) -> (r: u16) {
        self.active_modules
    }
}

impl UpdateModules for FossilPowerSection {
    open spec fn child_counts(&self) -> Seq<int> {
        self@.counts()
    }

    open spec fn counts_well_formed(&self) -> bool {
        &&& self.totals_cached()
        &&& self@.total() == 2
        &&& self@.well_formed()
    }

    fn active_module_counts(&self) -> (r: Vec<u16>) {
        let r = vec![
            flag_of(self.module_combustion_turbine_generator.active()),
            flag_of(self.module_fossil_fuel_storage.active()),
        ];
        proof {
            assert(counts_view(r@) =~= self@.counts());
        }
        r
    }

    fn update_active_modules(&mut self) {
        proof {
            lemma_active_le_total(self@);
        }
        self.active_modules = self.active_module_sum();
    }
}

impl Status for FossilPowerSection {
    open spec fn status_view(&self, indent: nat) -> Seq<char> {
        section_status_text(self.name_view(), self.module_names(), self@, indent)
    }

    open spec fn indent_limit(&self) -> nat {
        253
    }

    fn status(&self, indent: u8) -> (r: String) {
        let keys = vec![String::from_str(":name")];
        let name = self.name();
        let values = vec![quote(name.as_str())];
        let modules = vec![
            self.module_combustion_turbine_generator.status(indent + 2),
            self.module_fossil_fuel_storage.status(indent + 2),
        ];
        let r = tl_station::status(
            String::from_str("section"),
            true,
            keys,
            values,
            true,
            String::from_str(":modules"),
            modules,
            indent,
        );
        proof {
            assert(texts(keys@) =~= seq![":name"@]);
            assert(texts(values@) =~= seq![quoted(self.name_view())]);
            assert(texts(modules@) =~= Seq::new(
                2,
                |i: int|
                    module_status_text(
                        self.module_names()[i],
                        self@.modules[i],
                        (indent + 2) as nat,
                    ),
            ));
        }
        r
    }
}

impl BreakSomething for FossilPowerSection {
    open spec fn break_outcome(
        &self,
        after: SectionView,
        outcome: Result<Seq<char>, BreakError>,
    ) -> bool {
        section_break_outcome(self@, self.module_names(), after, outcome)
    }

    fn break_something(&mut self) -> (r: Result<String, BreakError>) {
        let pick = chance::pick(FossilPowerSection::MODULES_CONTAINED as usize) as u16;
        let r = self.break_module(pick);
        proof {
            if old(self)@.installed {
                assert(self@ == old(self)@.broken_at(pick - 1));
            }
        }
        r
    }
}

impl Repair for FossilPowerSection {
    open spec fn is_repairable(&self) -> bool {
        self@.needs_repair()
    }

    open spec fn slot_count(&self) -> nat {
        2
    }

    open spec fn slot_repairable(&self, slot: int) -> bool {
        self@.module_repairable(slot)
    }

    open spec fn slot_label(&self, slot: int) -> Seq<char> {
        self.module_names()[slot]
    }

    fn repairable(&self) -> (r: bool) {
        let r = self.installed && self.active_modules < self.total_modules;
        assert(r == self@.needs_repair());
        assert(r == self.is_repairable());
        r
    }

    fn slots(&self) -> (r: usize) {
        2
    }

    fn slot_is_repairable(&self, slot: usize) -> (r: bool) {
        self.installed && if slot == 0 {
            self.module_combustion_turbine_generator.repairable()
        } else {
            self.module_fossil_fuel_storage.repairable()
        }
    }

    fn slot_display(&self, slot: usize) -> (r: String) {
        if slot == 0 {
            self.module_combustion_turbine_generator.repair_display()
        } else {
            self.module_fossil_fuel_storage.repair_display()
        }
    }
}

impl PowerDown for FossilPowerSection {
    open spec fn powered_down_view(&self) -> SectionView {
        self@.powered_down()
    }

    fn power_down(&mut self) {
        self.module_combustion_turbine_generator.power_down();
        self.module_fossil_fuel_storage.power_down();
        proof {
            assert(self@ =~= old(self)@.powered_down());
            lemma_all_inactive(self@);
        }
        self.update_active_modules();
    }
}

pub struct FusionPowerSection {
    installed: bool,
    module_fusion_reactor: power::FusionReactor,
    module_steam_turbine_generator: power::SteamTurbineGenerator,
    module_fusion_component_storage: power::FusionComponentStorage,
    total_modules: u16,
    active_modules: u16,
}

impl ModulesContained for FusionPowerSection {
    const MODULES_CONTAINED: u16 = 3;
}

impl View for FusionPowerSection {
    type V = SectionView;

    closed spec fn view(&self) -> SectionView {
        SectionView {
            installed: self.installed,
            modules: seq![
                self.module_fusion_reactor.is_active(),
                self.module_steam_turbine_generator.is_active(),
                self.module_fusion_component_storage.is_active(),
            ],
        }
    }
}

impl FusionPowerSection {
    /// The names of the modules, in order.
    pub open spec fn module_names(&self) -> Seq<Seq<char>> {
        seq!["Fusion Reactor"@, "Steam Turbine Generator"@, "Fusion Component Storage"@]
    }

    pub closed spec fn totals_cached(&self) -> bool {
        self.total_modules == 3
    }

    pub closed spec fn active_cached(&self) -> bool {
        self.active_modules == self@.active()
    }

    pub fn new(installed: bool) -> (r: Self)
        ensures
            r.well_formed(),
            r@ == SectionView::fresh(installed, 3),
    {
        let mut section = FusionPowerSection {
            installed,
            module_fusion_reactor: power::FusionReactor::new(installed),
            module_steam_turbine_generator: power::SteamTurbineGenerator::new(installed),
            module_fusion_component_storage: power::FusionComponentStorage::new(installed),
            total_modules: FusionPowerSection::MODULES_CONTAINED,
            active_modules: 0,
        };
        proof {
            assert(section@ =~= SectionView::fresh(installed, 3));
            if !installed {
                lemma_all_inactive(section@);
            }
        }
        section.update_active_modules();
        section
    }

    /// Breaks the module at position `pick`, counted from 1; an error where
    /// the section is not installed. A module that is broken already is
    /// reported by name all the same, and stays broken: the pick is not
    /// drawn again.
    pub fn break_module(&mut self, pick: u16) -> (r: Result<String, BreakError>)
        requires
            old(self).well_formed(),
            1 <= pick <= 3,
        ensures
            final(self).well_formed(),
            old(self)@.installed ==> final(self)@ == old(self)@.broken_at(pick - 1) && r is Ok
                && r->Ok_0@ == old(self).module_names()[pick - 1],
            !old(self)@.installed ==> final(self)@ == old(self)@ && r == Err::<String, BreakError>(
                BreakError::NotInstalled,
            ),
    {
        if !self.installed {
            return Err(BreakError::NotInstalled);
        }
        let broken = if pick == 1 {
            self.module_fusion_reactor.break_something()
        } else if pick == 2 {
            self.module_steam_turbine_generator.break_something()
        } else {
            self.module_fusion_component_storage.break_something()
        };
        proof {
            assert(self@ =~= old(self)@.broken_at(pick - 1));
        }
        self.update_active_modules();
        Ok(broken)
    }

    /// Repairs the module at `slot`, counted from 0, where it is installed and
    /// broken; otherwise changes nothing.
    pub fn repair(&mut self, slot: usize)
        requires
            old(self).well_formed(),
        ensures
            final(self).well_formed(),
            final(self)@ == old(self)@.repaired(slot as int),
    {
        if slot < 3 && self.slot_is_repairable(slot) {
            if slot == 0 {
                self.module_fusion_reactor.repair();
            } else if slot == 1 {
                self.module_steam_turbine_generator.repair();
            } else {
                self.module_fusion_component_storage.repair();
            }
            proof {
                assert(self@ =~= old(self)@.repaired_at(slot as int));
            }
            self.update_active_modules();
        }
    }
}

impl Name for FusionPowerSection {
    open spec fn name_view(&self) -> Seq<char> {
        "Fusion Power Section"@
    }

    fn name(&self) -> (r: String) {
        String::from_str("Fusion Power Section")
    }
}

impl Installed for FusionPowerSection {
    open spec fn is_installed(&self) -> bool {
        self@.installed
    }

    fn installed(&self) -> (r: bool) {
        self.installed
    }
}

impl ModuleCounts for FusionPowerSection {
    open spec fn well_formed(&self) -> bool {
        &&& self.totals_cached()
        &&& self.active_cached()
        &&& self@.total() == 3
        &&& self@.well_formed()
    }

    open spec fn total_count(&self) -> nat {
        self@.total()
    }

    open spec fn active_count(&self) -> nat {
        self@.active()
    }

    fn total_modules(&self) -> (r: u16) {
        self.total_modules
    }

    fn active_modules(&self) -> (r: u16) {
        self.active_modules
    }
}

impl UpdateModules for FusionPowerSection {
    open spec fn child_counts(&self) -> Seq<int> {
        self@.counts()
    }

    open spec fn counts_well_formed(&self) -> bool {
        &&& self.totals_cached()
        &&& self@.total() == 3
        &&& self@.well_formed()
    }

    fn active_module_counts(&self) -> (r: Vec<u16>) {
        let r = vec![
            flag_of(self.module_fusion_reactor.active()),
            flag_of(self.module_steam_turbine_generator.active()),
            flag_of(self.module_fusion_component_storage.active()),
        ];
        proof {
            assert(counts_view(r@) =~= self@.counts());
        }
        r
    }

    fn update_active_modules(&mut self) {
        proof {
            lemma_active_le_total(self@);
        }
        self.active_modules = self.active_module_sum();
    }
}

impl Status for FusionPowerSection {
    open spec fn status_view(&self, indent: nat) -> Seq<char> {
        section_status_text(self.name_view(), self.module_names(), self@, indent)
    }

    open spec fn indent_limit(&self) -> nat {
        253
    }

    fn status(&self, indent: u8) -> (r: String) {
        let keys = vec![String::from_str(":name")];
        let name = self.name();
        let values = vec![quote(name.as_str())];
        let modules = vec![
            self.module_fusion_reactor.status(indent + 2),
            self.module_steam_turbine_generator.status(indent + 2),
            self.module_fusion_component_storage.status(indent + 2),
        ];
        let r = tl_station::status(
            String::from_str("section"),
            true,
            keys,
            values,
            true,
            String::from_str(":modules"),
            modules,
            indent,
        );
        proof {
            assert(texts(keys@) =~= seq![":name"@]);
            assert(texts(values@) =~= seq![quoted(self.name_view())]);
            assert(texts(modules@) =~= Seq::new(
                3,
                |i: int|
                    module_status_text(
                        self.module_names()[i],
                        self@.modules[i],
                        (indent + 2) as nat,
                    ),
            ));
        }
        r
    }
}

impl BreakSomething for FusionPowerSection {
    open spec fn break_outcome(
        &self,
        after: SectionView,
        outcome: Result<Seq<char>, BreakError>,
    ) -> bool {
        section_break_outcome(self@, self.module_names(), after, outcome)
    }

    fn break_something(&mut self) -> (r: Result<String, BreakError>) {
        let pick = chance::pick(FusionPowerSection::MODULES_CONTAINED as usize) as u16;
        let r = self.break_module(pick);
        proof {
            if old(self)@.installed {
                assert(self@ == old(self)@.broken_at(pick - 1));
            }
        }
        r
    }
}

impl Repair for FusionPowerSection {
    open spec fn is_repairable(&self) -> bool {
        self@.needs_repair()
    }

    open spec fn slot_count(&self) -> nat {
        3
    }

    open spec fn slot_repairable(&self, slot: int) -> bool {
        self@.module_repairable(slot)
    }

    open spec fn slot_label(&self, slot: int) -> Seq<char> {
        self.module_names()[slot]
    }

    fn repairable(&self) -> (r: bool) {
        let r = self.installed && self.active_modules < self.total_modules;
        assert(r == self@.needs_repair());
        assert(r == self.is_repairable());
        r
    }

    fn slots(&self) -> (r: usize) {
        3
    }

    fn slot_is_repairable(&self, slot: usize) -> (r: bool) {
        self.installed && if slot == 0 {
            self.module_fusion_reactor.repairable()
        } else if slot == 1 {
            self.module_steam_turbine_generator.repairable()
        } else {
            self.module_fusion_component_storage.repairable()
        }
    }

    fn slot_display(&self, slot: usize) -> (r: String) {
        if slot == 0 {
            self.module_fusion_reactor.repair_display()
        } else if slot == 1 {
            self.module_steam_turbine_generator.repair_display()
        } else {
            self.module_fusion_component_storage.repair_display()
        }
    }
}

impl PowerDown for FusionPowerSection {
    open spec fn powered_down_view(&self) -> SectionView {
        self@.powered_down()
    }

    fn power_down(&mut self) {
        self.module_fusion_reactor.power_down();
        self.module_steam_turbine_generator.power_down();
        self.module_fusion_component_storage.power_down();
        proof {
            assert(self@ =~= old(self)@.powered_down());
            lemma_all_inactive(self@);
        }
        self.update_active_modules();
    }
}

pub struct NuclearPowerSection {
    installed: bool,
    module_nuclear_fuel_storage: power::NuclearFuelStorage,
    module_nuclear_reactor: power::NuclearReactor,
    module_steam_turbine_generator: power::SteamTurbineGenerator,
    module_nuclear_waste_storage: power::NuclearWasteStorage,
    total_modules: u16,
    active_modules: u16,
}

impl ModulesContained for NuclearPowerSection {
    const MODULES_CONTAINED: u16 = 4;
}

impl View for NuclearPowerSection {
    type V = SectionView;

    closed spec fn view(&self) -> SectionView {
        SectionView {
            installed: self.installed,
            modules: seq![
                self.module_nuclear_fuel_storage.is_active(),
                self.module_nuclear_reactor.is_active(),
                self.module_steam_turbine_generator.is_active(),
                self.module_nuclear_waste_storage.is_active(),
            ],
        }
    }
}

impl NuclearPowerSection {
    /// The names of the modules, in order.
    pub open spec fn module_names(&self) -> Seq<Seq<char>> {
        seq![
            "Nuclear Fuel Storage"@,
            "Nuclear Reactor"@,
            "Steam Turbine Generator"@,
            "Nuclear Waste Storage"@,
        ]
    }

    pub closed spec fn totals_cached(&self) -> bool {
        self.total_modules == 4
    }

    pub closed spec fn active_cached(&self) -> bool {
        self.active_modules == self@.active()
    }

    pub fn new(installed: bool) -> (r: Self)
        ensures
            r.well_formed(),
            r@ == SectionView::fresh(installed, 4),
    {
        let mut section = NuclearPowerSection {
            installed,
            module_nuclear_fuel_storage: power::NuclearFuelStorage::new(installed),
            module_nuclear_reactor: power::NuclearReactor::new(installed),
            module_steam_turbine_generator: power::SteamTurbineGenerator::new(installed),
            module_nuclear_waste_storage: power::NuclearWasteStorage::new(installed),
            total_modules: NuclearPowerSection::MODULES_CONTAINED,
            active_modules: 0,
        };
        proof {
            assert(section@ =~= SectionView::fresh(installed, 4));
            if !installed {
                lemma_all_inactive(section@);
            }
        }
        section.update_active_modules();
        section
    }

    /// Breaks the module at position `pick`, counted from 1; an error where
    /// the section is not installed. A module that is broken already is
    /// reported by name all the same, and stays broken: the pick is not
    /// drawn again.
    pub fn break_module(&mut self, pick: u16) -> (r: Result<String, BreakError>)
        requires
            old(self).well_formed(),
            1 <= pick <= 4,
        ensures
            final(self).well_formed(),
            old(self)@.installed ==> final(self)@ == old(self)@.broken_at(pick - 1) && r is Ok
                && r->Ok_0@ == old(self).module_names()[pick - 1],
            !old(self)@.installed ==> final(self)@ == old(self)@ && r == Err::<String, BreakError>(
                BreakError::NotInstalled,
            ),
    {
        if !self.installed {
            return Err(BreakError::NotInstalled);
        }
        let broken = if pick == 1 {
            self.module_nuclear_fuel_storage.break_something()
        } else if pick == 2 {
            self.module_nuclear_reactor.break_something()
        } else if pick == 3 {
            self.module_steam_turbine_generator.break_something()
        } else {
            self.module_nuclear_waste_storage.break_something()
        };
        proof {
            assert(self@ =~= old(self)@.broken_at(pick - 1));
        }
        self.update_active_modules();
        Ok(broken)
    }

    /// Repairs the module at `slot`, counted from 0, where it is installed and
    /// broken; otherwise changes nothing.
    pub fn repair(&mut self, slot: usize)
        requires
            old(self).well_formed(),
        ensures
            final(self).well_formed(),
            final(self)@ == old(self)@.repaired(slot as int),
    {
        if slot < 4 && self.slot_is_repairable(slot) {
            if slot == 0 {
                self.module_nuclear_fuel_storage.repair();
            } else if slot == 1 {
                self.module_nuclear_reactor.repair();
            } else if slot == 2 {
                self.module_steam_turbine_generator.repair();
            } else {
                self.module_nuclear_waste_storage.repair();
            }
            proof {
                assert(self@ =~= old(self)@.repaired_at(slot as int));
            }
            self.update_active_modules();
        }
    }
}

impl Name for NuclearPowerSection {
    open spec fn name_view(&self) -> Seq<char> {
        "Nuclear Power Section"@
    }

    fn name(&self) -> (r: String) {
        String::from_str("Nuclear Power Section")
    }
}

impl Installed for NuclearPowerSection {
    open spec fn is_installed(&self) -> bool {
        self@.installed
    }

    fn installed(&self) -> (r: bool) {
        self.installed
    }
}

impl ModuleCounts for NuclearPowerSection {
    open spec fn well_formed(&self) -> bool {
        &&& self.totals_cached()
        &&& self.active_cached()
        &&& self@.total() == 4
        &&& self@.well_formed()
    }

    open spec fn total_count(&self) -> nat {
        self@.total()
    }

    open spec fn active_count(&self) -> nat {
        self@.active()
    }

    fn total_modules(&self) -> (r: u16) {
        self.total_modules
    }

    fn active_modules(&self) -> (r: u16) {
        self.active_modules
    }
}

impl UpdateModules for NuclearPowerSection {
    open spec fn child_counts(&self) -> Seq<int> {
        self@.counts()
    }

    open spec fn counts_well_formed(&self) -> bool {
        &&& self.totals_cached()
        &&& self@.total() == 4
        &&& self@.well_formed()
    }

    fn active_module_counts(&self) -> (r: Vec<u16>) {
        let r = vec![
            flag_of(self.module_nuclear_fuel_storage.active()),
            flag_of(self.module_nuclear_reactor.active()),
            flag_of(self.module_steam_turbine_generator.active()),
            flag_of(self.module_nuclear_waste_storage.active()),
        ];
        proof {
            assert(counts_view(r@) =~= self@.counts());
        }
        r
    }

    fn update_active_modules(&mut self) {
        proof {
            lemma_active_le_total(self@);
        }
        self.active_modules = self.active_module_sum();
    }
}

impl Status for NuclearPowerSection {
    open spec fn status_view(&self, indent: nat) -> Seq<char> {
        section_status_text(self.name_view(), self.module_names(), self@, indent)
    }

    open spec fn indent_limit(&self) -> nat {
        253
    }

    fn status(&self, indent: u8) -> (r: String) {
        let keys = vec![String::from_str(":name")];
        let name = self.name();
        let values = vec![quote(name.as_str())];
        let modules = vec![
            self.module_nuclear_fuel_storage.status(indent + 2),
            self.module_nuclear_reactor.status(indent + 2),
            self.module_steam_turbine_generator.status(indent + 2),
            self.module_nuclear_waste_storage.status(indent + 2),
        ];
        let r = tl_station::status(
            String::from_str("section"),
            true,
            keys,
            values,
            true,
            String::from_str(":modules"),
            modules,
            indent,
        );
        proof {
            assert(texts(keys@) =~= seq![":name"@]);
            assert(texts(values@) =~= seq![quoted(self.name_view())]);
            assert(texts(modules@) =~= Seq::new(
                4,
                |i: int|
                    module_status_text(
                        self.module_names()[i],
                        self@.modules[i],
                        (indent + 2) as nat,
                    ),
            ));
        }
        r
    }
}

impl BreakSomething for NuclearPowerSection {
    open spec fn break_outcome(
        &self,
        after: SectionView,
        outcome: Result<Seq<char>, BreakError>,
    ) -> bool {
        section_break_outcome(self@, self.module_names(), after, outcome)
    }

    fn break_something(&mut self) -> (r: Result<String, BreakError>) {
        let pick = chance::pick(NuclearPowerSection::MODULES_CONTAINED as usize) as u16;
        let r = self.break_module(pick);
        proof {
            if old(self)@.installed {
                assert(self@ == old(self)@.broken_at(pick - 1));
            }
        }
        r
    }
}

impl Repair for NuclearPowerSection {
    open spec fn is_repairable(&self) -> bool {
        self@.needs_repair()
    }

    open spec fn slot_count(&self) -> nat {
        4
    }

    open spec fn slot_repairable(&self, slot: int) -> bool {
        self@.module_repairable(slot)
    }

    open spec fn slot_label(&self, slot: int) -> Seq<char> {
        self.module_names()[slot]
    }

    fn repairable(&self) -> (r: bool) {
        let r = self.installed && self.active_modules < self.total_modules;
        assert(r == self@.needs_repair());
        assert(r == self.is_repairable());
        r
    }

    fn slots(&self) -> (r: usize) {
        4
    }

    fn slot_is_repairable(&self, slot: usize) -> (r: bool) {
        self.installed && if slot == 0 {
            self.module_nuclear_fuel_storage.repairable()
        } else if slot == 1 {
            self.module_nuclear_reactor.repairable()
        } else if slot == 2 {
            self.module_steam_turbine_generator.repairable()
        } else {
            self.module_nuclear_waste_storage.repairable()
        }
    }

    fn slot_display(&self, slot: usize) -> (r: String) {
        if slot == 0 {
            self.module_nuclear_fuel_storage.repair_display()
        } else if slot == 1 {
            self.module_nuclear_reactor.repair_display()
        } else if slot == 2 {
            self.module_steam_turbine_generator.repair_display()
        } else {
            self.module_nuclear_waste_storage.repair_display()
        }
    }
}

impl PowerDown for NuclearPowerSection {
    open spec fn powered_down_view(&self) -> SectionView {
        self@.powered_down()
    }

    fn power_down(&mut self) {
        self.module_nuclear_fuel_storage.power_down();
        self.module_nuclear_reactor.power_down();
        self.module_steam_turbine_generator.power_down();
        self.module_nuclear_waste_storage.power_down();
        proof {
            assert(self@ =~= old(self)@.powered_down());
            lemma_all_inactive(self@);
        }
        self.update_active_modules();
    }
}

pub struct RadiationPowerSection {
    installed: bool,
    module_radiation_mirrors: power::RadiationMirrors,
    total_modules: u16,
    active_modules: u16,
}

impl ModulesContained for RadiationPowerSection {
    const MODULES_CONTAINED: u16 = 1;
}

impl View for RadiationPowerSection {
    type V = SectionView;

    closed spec fn view(&self) -> SectionView {
        SectionView {
            installed: self.installed,
            modules: seq![self.module_radiation_mirrors.is_active()],
        }
    }
}

impl RadiationPowerSection {
    /// The names of the modules, in order.
    pub open spec fn module_names(&self) -> Seq<Seq<char>> {
        seq!["Radiation Mirrors"@]
    }

    pub closed spec fn totals_cached(&self) -> bool {
        self.total_modules == 1
    }

    pub closed spec fn active_cached(&self) -> bool {
        self.active_modules == self@.active()
    }

    pub fn new(installed: bool) -> (r: Self)
        ensures
            r.well_formed(),
            r@ == SectionView::fresh(installed, 1),
    {
        let mut section = RadiationPowerSection {
            installed,
            module_radiation_mirrors: power::RadiationMirrors::new(installed),
            total_modules: RadiationPowerSection::MODULES_CONTAINED,
            active_modules: 0,
        };
        proof {
            assert(section@ =~= SectionView::fresh(installed, 1));
            if !installed {
                lemma_all_inactive(section@);
            }
        }
        section.update_active_modules();
        section
    }

    /// Breaks the module at position `pick`, counted from 1; an error where
    /// the section is not installed. A module that is broken already is
    /// reported by name all the same, and stays broken: the pick is not
    /// drawn again.
    pub fn break_module(&mut self, pick: u16) -> (r: Result<String, BreakError>)
        requires
            old(self).well_formed(),
            1 <= pick <= 1,
        ensures
            final(self).well_formed(),
            old(self)@.installed ==> final(self)@ == old(self)@.broken_at(pick - 1) && r is Ok
                && r->Ok_0@ == old(self).module_names()[pick - 1],
            !old(self)@.installed ==> final(self)@ == old(self)@ && r == Err::<String, BreakError>(
                BreakError::NotInstalled,
            ),
    {
        if !self.installed {
            return Err(BreakError::NotInstalled);
        }
        let broken = self.module_radiation_mirrors.break_something();
        proof {
            assert(self@ =~= old(self)@.broken_at(pick - 1));
        }
        self.update_active_modules();
        Ok(broken)
    }

    /// Repairs the module at `slot`, counted from 0, where it is installed and
    /// broken; otherwise changes nothing.
    pub fn repair(&mut self, slot: usize)
        requires
            old(self).well_formed(),
        ensures
            final(self).well_formed(),
            final(self)@ == old(self)@.repaired(slot as int),
    {
        if slot < 1 && self.slot_is_repairable(slot) {
            self.module_radiation_mirrors.repair();
            proof {
                assert(self@ =~= old(self)@.repaired_at(slot as int));
            }
            self.update_active_modules();
        }
    }
}

impl Name for RadiationPowerSection {
    open spec fn name_view(&self) -> Seq<char> {
        "Radiation Power Section"@
    }

    fn name(&self) -> (r: String) {
        String::from_str("Radiation Power Section")
    }
}

impl Installed for RadiationPowerSection {
    open spec fn is_installed(&self) -> bool {
        self@.installed
    }

    fn installed(&self) -> (r: bool) {
        self.installed
    }
}

impl ModuleCounts for RadiationPowerSection {
    open spec fn well_formed(&self) -> bool {
        &&& self.totals_cached()
        &&& self.active_cached()
        &&& self@.total() == 1
        &&& self@.well_formed()
    }

    open spec fn total_count(&self) -> nat {
        self@.total()
    }

    open spec fn active_count(&self) -> nat {
        self@.active()
    }

    fn total_modules(&self) -> (r: u16) {
        self.total_modules
    }

    fn active_modules(&self) -> (r: u16) {
        self.active_modules
    }
}

impl UpdateModules for RadiationPowerSection {
    open spec fn child_counts(&self) -> Seq<int> {
        self@.counts()
    }

    open spec fn counts_well_formed(&self) -> bool {
        &&& self.totals_cached()
        &&& self@.total() == 1
        &&& self@.well_formed()
    }

    fn active_module_counts(&self) -> (r: Vec<u16>) {
        let r = vec![
            flag_of(self.module_radiation_mirrors.active()),
        ];
        proof {
            assert(counts_view(r@) =~= self@.counts());
        }
        r
    }

    fn update_active_modules(&mut self) {
        proof {
            lemma_active_le_total(self@);
        }
        self.active_modules = self.active_module_sum();
    }
}

impl Status for RadiationPowerSection {
    open spec fn status_view(&self, indent: nat) -> Seq<char> {
        section_status_text(self.name_view(), self.module_names(), self@, indent)
    }

    open spec fn indent_limit(&self) -> nat {
        253
    }

    fn status(&self, indent: u8) -> (r: String) {
        let keys = vec![String::from_str(":name")];
        let name = self.name();
        let values = vec![quote(name.as_str())];
        let modules = vec![
            self.module_radiation_mirrors.status(indent + 2),
        ];
        let r = tl_station::status(
            String::from_str("section"),
            true,
            keys,
            values,
            true,
            String::from_str(":modules"),
            modules,
            indent,
        );
        proof {
            assert(texts(keys@) =~= seq![":name"@]);
            assert(texts(values@) =~= seq![quoted(self.name_view())]);
            assert(texts(modules@) =~= Seq::new(
                1,
                |i: int|
                    module_status_text(
                        self.module_names()[i],
                        self@.modules[i],
                        (indent + 2) as nat,
                    ),
            ));
        }
        r
    }
}

impl BreakSomething for RadiationPowerSection {
    open spec fn break_outcome(
        &self,
        after: SectionView,
        outcome: Result<Seq<char>, BreakError>,
    ) -> bool {
        section_break_outcome(self@, self.module_names(), after, outcome)
    }

    fn break_something(&mut self) -> (r: Result<String, BreakError>) {
        let pick = chance::pick(RadiationPowerSection::MODULES_CONTAINED as usize) as u16;
        let r = self.break_module(pick);
        proof {
            if old(self)@.installed {
                assert(self@ == old(self)@.broken_at(pick - 1));
            }
        }
        r
    }
}

impl Repair for RadiationPowerSection {
    open spec fn is_repairable(&self) -> bool {
        self@.needs_repair()
    }

    open spec fn slot_count(&self) -> nat {
        1
    }

    open spec fn slot_repairable(&self, slot: int) -> bool {
        self@.module_repairable(slot)
    }

    open spec fn slot_label(&self, slot: int) -> Seq<char> {
        self.module_names()[slot]
    }

    fn repairable(&self) -> (r: bool) {
        let r = self.installed && self.active_modules < self.total_modules;
        assert(r == self@.needs_repair());
        assert(r == self.is_repairable());
        r
    }

    fn slots(&self) -> (r: usize) {
        1
    }

    fn slot_is_repairable(&self, slot: usize) -> (r: bool) {
        self.installed && self.module_radiation_mirrors.repairable()
    }

    fn slot_display(&self, slot: usize) -> (r: String) {
        self.module_radiation_mirrors.repair_display()
    }
}

impl PowerDown for RadiationPowerSection {
    open spec fn powered_down_view(&self) -> SectionView {
        self@.powered_down()
    }

    fn power_down(&mut self) {
        self.module_radiation_mirrors.power_down();
        proof {
            assert(self@ =~= old(self)@.powered_down());
            lemma_all_inactive(self@);
        }
        self.update_active_modules();
    }
}

pub struct SolarPowerSection {
    installed: bool,
    module_solar_panel: power::SolarPanels,
    total_modules: u16,
    active_modules: u16,
}

impl ModulesContained for SolarPowerSection {
    const MODULES_CONTAINED: u16 = 1;
}

impl View for SolarPowerSection {
    type V = SectionView;

    closed spec fn view(&self) -> SectionView {
        SectionView {
            installed: self.installed,
            modules: seq![self.module_solar_panel.is_active()],
        }
    }
}

impl SolarPowerSection {
    /// The names of the modules, in order.
    pub open spec fn module_names(&self) -> Seq<Seq<char>> {
        seq!["Solar Panels"@]
    }

    pub closed spec fn totals_cached(&self) -> bool {
        self.total_modules == 1
    }

    pub closed spec fn active_cached(&self) -> bool {
        self.active_modules == self@.active()
    }

    pub fn new(installed: bool) -> (r: Self)
        ensures
            r.well_formed(),
            r@ == SectionView::fresh(installed, 1),
    {
        let mut section = SolarPowerSection {
            installed,
            module_solar_panel: power::SolarPanels::new(installed),
            total_modules: SolarPowerSection::MODULES_CONTAINED,
            active_modules: 0,
        };
        proof {
            assert(section@ =~= SectionView::fresh(installed, 1));
            if !installed {
                lemma_all_inactive(section@);
            }
        }
        section.update_active_modules();
        section
    }

    /// Breaks the module at position `pick`, counted from 1; an error where
    /// the section is not installed. A module that is broken already is
    /// reported by name all the same, and stays broken: the pick is not
    /// drawn again.
    pub fn break_module(&mut self, pick: u16) -> (r: Result<String, BreakError>)
        requires
            old(self).well_formed(),
            1 <= pick <= 1,
        ensures
            final(self).well_formed(),
            old(self)@.installed ==> final(self)@ == old(self)@.broken_at(pick - 1) && r is Ok
                && r->Ok_0@ == old(self).module_names()[pick - 1],
            !old(self)@.installed ==> final(self)@ == old(self)@ && r == Err::<String, BreakError>(
                BreakError::NotInstalled,
            ),
    {
        if !self.installed {
            return Err(BreakError::NotInstalled);
        }
        let broken = self.module_solar_panel.break_something();
        proof {
            assert(self@ =~= old(self)@.broken_at(pick - 1));
        }
        self.update_active_modules();
        Ok(broken)
    }

    /// Repairs the module at `slot`, counted from 0, where it is installed and
    /// broken; otherwise changes nothing.
    pub fn repair(&mut self, slot: usize)
        requires
            old(self).well_formed(),
        ensures
            final(self).well_formed(),
            final(self)@ == old(self)@.repaired(slot as int),
    {
        if slot < 1 && self.slot_is_repairable(slot) {
            self.module_solar_panel.repair();
            proof {
                assert(self@ =~= old(self)@.repaired_at(slot as int));
            }
            self.update_active_modules();
        }
    }
}

impl Name for SolarPowerSection {
    open spec fn name_view(&self) -> Seq<char> {
        "Solar Power Section"@
    }

    fn name(&self) -> (r: String) {
        String::from_str("Solar Power Section")
    }
}

impl Installed for SolarPowerSection {
    open spec fn is_installed(&self) -> bool {
        self@.installed
    }

    fn installed(&self) -> (r: bool) {
        self.installed
    }
}

impl ModuleCounts for SolarPowerSection {
    open spec fn well_formed(&self) -> bool {
        &&& self.totals_cached()
        &&& self.active_cached()
        &&& self@.total() == 1
        &&& self@.well_formed()
    }

    open spec fn total_count(&self) -> nat {
        self@.total()
    }

    open spec fn active_count(&self) -> nat {
        self@.active()
    }

    fn total_modules(&self) -> (r: u16) {
        self.total_modules
    }

    fn active_modules(&self) -> (r: u16) {
        self.active_modules
    }
}

impl UpdateModules for SolarPowerSection {
    open spec fn child_counts(&self) -> Seq<int> {
        self@.counts()
    }

    open spec fn counts_well_formed(&self) -> bool {
        &&& self.totals_cached()
        &&& self@.total() == 1
        &&& self@.well_formed()
    }

    fn active_module_counts(&self) -> (r: Vec<u16>) {
        let r = vec![
            flag_of(self.module_solar_panel.active()),
        ];
        proof {
            assert(counts_view(r@) =~= self@.counts());
        }
        r
    }

    fn update_active_modules(&mut self) {
        proof {
            lemma_active_le_total(self@);
        }
        self.active_modules = self.active_module_sum();
    }
}

impl Status for SolarPowerSection {
    open spec fn status_view(&self, indent: nat) -> Seq<char> {
        section_status_text(self.name_view(), self.module_names(), self@, indent)
    }

    open spec fn indent_limit(&self) -> nat {
        253
    }

    fn status(&self, indent: u8) -> (r: String) {
        let keys = vec![String::from_str(":name")];
        let name = self.name();
        let values = vec![quote(name.as_str())];
        let modules = vec![
            self.module_solar_panel.status(indent + 2),
        ];
        let r = tl_station::status(
            String::from_str("section"),
            true,
            keys,
            values,
            true,
            String::from_str(":modules"),
            modules,
            indent,
        );
        proof {
            assert(texts(keys@) =~= seq![":name"@]);
            assert(texts(values@) =~= seq![quoted(self.name_view())]);
            assert(texts(modules@) =~= Seq::new(
                1,
                |i: int|
                    module_status_text(
                        self.module_names()[i],
                        self@.modules[i],
                        (indent + 2) as nat,
                    ),
            ));
        }
        r
    }
}

impl BreakSomething for SolarPowerSection {
    open spec fn break_outcome(
        &self,
        after: SectionView,
        outcome: Result<Seq<char>, BreakError>,
    ) -> bool {
        section_break_outcome(self@, self.module_names(), after, outcome)
    }

    fn break_something(&mut self) -> (r: Result<String, BreakError>) {
        let pick = chance::pick(SolarPowerSection::MODULES_CONTAINED as usize) as u16;
        let r = self.break_module(pick);
        proof {
            if old(self)@.installed {
                assert(self@ == old(self)@.broken_at(pick - 1));
            }
        }
        r
    }
}

impl Repair for SolarPowerSection {
    open spec fn is_repairable(&self) -> bool {
        self@.needs_repair()
    }

    open spec fn slot_count(&self) -> nat {
        1
    }

    open spec fn slot_repairable(&self, slot: int) -> bool {
        self@.module_repairable(slot)
    }

    open spec fn slot_label(&self, slot: int) -> Seq<char> {
        self.module_names()[slot]
    }

    fn repairable(&self) -> (r: bool) {
        let r = self.installed && self.active_modules < self.total_modules;
        assert(r == self@.needs_repair());
        assert(r == self.is_repairable());
        r
    }

    fn slots(&self) -> (r: usize) {
        1
    }

    fn slot_is_repairable(&self, slot: usize) -> (r: bool) {
        self.installed && self.module_solar_panel.repairable()
    }

    fn slot_display(&self, slot: usize) -> (r: String) {
        self.module_solar_panel.repair_display()
    }
}

impl PowerDown for SolarPowerSection {
    open spec fn powered_down_view(&self) -> SectionView {
        self@.powered_down()
    }

    fn power_down(&mut self) {
        self.module_solar_panel.power_down();
        proof {
            assert(self@ =~= old(self)@.powered_down());
            lemma_all_inactive(self@);
        }
        self.update_active_modules();
    }
}

} // verus!
