//! The crew sections.
use vstd::prelude::*;

use crate::module::common::{
    module_status_text, Active, BreakModule, PowerDownModule, RepairModule, StatusModule,
};
use crate::module::{crew, misc};
use crate::chance;
use crate::section::common::{
    flag_of, lemma_active_le_total, lemma_all_inactive, section_break_outcome, section_status_text,
    Installed, ModulesContained, SectionView,
};
use crate::station::components::{
    counts_view, BreakError, BreakSomething, ModuleCounts, Name, PowerDown, Repair, Status,
    UpdateModules,
};
use crate::terminalisp::station::{quote, quoted, texts};
use crate::terminalisp::station as tl_station;

verus! {

pub struct CrewModuleSection {
    installed: bool,
    module_airlock: misc::Airlock,
    module_command_module: crew::CommandModule,
    module_galley: crew::Galley,
    module_life_support: crew::LifeSupport,
    module_sleeping_pods: crew::SleepingPods,
    module_space_suits: crew::SpaceSuits,
    module_temperature_control: misc::TemperatureControl,
    module_water_reclamation: crew::WaterReclamation,
    total_modules: u16,
    active_modules: u16,
}

impl ModulesContained for CrewModuleSection {
    const MODULES_CONTAINED: u16 = 8;
}

impl View for CrewModuleSection {
    type V = SectionView;

    closed spec fn view(&self) -> SectionView {
        SectionView {
            installed: self.installed,
            modules: seq![
                self.module_airlock.is_active(),
                self.module_command_module.is_active(),
                self.module_galley.is_active(),
                self.module_life_support.is_active(),
                self.module_sleeping_pods.is_active(),
                self.module_space_suits.is_active(),
                self.module_temperature_control.is_active(),
                self.module_water_reclamation.is_active(),
            ],
        }
    }
}

impl CrewModuleSection {
    /// The names of the modules, in order.
    pub open spec fn module_names(&self) -> Seq<Seq<char>> {
        seq![
            "Airlock"@,
            "Command Module"@,
            "Galley"@,
            "Life Support"@,
            "Sleeping Pods"@,
            "Space Suits"@,
            "Temperature Control"@,
            "Water Reclamation"@,
        ]
    }

    pub closed spec fn totals_cached(&self) -> bool {
        self.total_modules == 8
    }

    pub closed spec fn active_cached(&self) -> bool {
        self.active_modules == self@.active()
    }

    pub fn new(installed: bool) -> (r: Self)
        ensures
            r.well_formed(),
            r@ == SectionView::fresh(installed, 8),
    {
        let mut section = CrewModuleSection {
            installed,
            module_airlock: misc::Airlock::new(installed),
            module_command_module: crew::CommandModule::new(installed),
            module_galley: crew::Galley::new(installed),
            module_life_support: crew::LifeSupport::new(installed),
            module_sleeping_pods: crew::SleepingPods::new(installed),
            module_space_suits: crew::SpaceSuits::new(installed),
            module_temperature_control: misc::TemperatureControl::new(installed),
            module_water_reclamation: crew::WaterReclamation::new(installed),
            total_modules: CrewModuleSection::MODULES_CONTAINED,
            active_modules: 0,
        };
        proof {
            assert(section@ =~= SectionView::fresh(installed, 8));
            if !installed {
                lemma_all_inactive(section@);
            }
        }
        section.update_active_modules();
        section
    }

    /// Breaks the module at position `pick`, counted from 1; an error where
    /// the section is not installed. A module that is broken already is
    /// reported by name all the same, and stays broken: the pick is not
    /// drawn again.
    pub fn break_module(&mut self, pick: u16) -> (r: Result<String, BreakError>)
        requires
            old(self).well_formed(),
            1 <= pick <= 8,
        ensures
            final(self).well_formed(),
            old(self)@.installed ==> final(self)@ == old(self)@.broken_at(pick - 1) && r is Ok
                && r->Ok_0@ == old(self).module_names()[pick - 1],
            !old(self)@.installed ==> final(self)@ == old(self)@ && r == Err::<String, BreakError>(
                BreakError::NotInstalled,
            ),
    {
        if !self.installed {
            return Err(BreakError::NotInstalled);
        }
        let broken = if pick == 1 {
            self.module_airlock.break_something()
        } else if pick == 2 {
            self.module_command_module.break_something()
        } else if pick == 3 {
            self.module_galley.break_something()
        } else if pick == 4 {
            self.module_life_support.break_something()
        } else if pick == 5 {
            self.module_sleeping_pods.break_something()
        } else if pick == 6 {
            self.module_space_suits.break_something()
        } else if pick == 7 {
            self.module_temperature_control.break_something()
        } else {
            self.module_water_reclamation.break_something()
        };
        proof {
            assert(self@ =~= old(self)@.broken_at(pick - 1));
        }
        self.update_active_modules();
        Ok(broken)
    }

    /// Repairs the module at `slot`, counted from 0, where it is installed and
    /// broken; otherwise changes nothing.
    pub fn repair(&mut self, slot: usize)
        requires
            old(self).well_formed(),
        ensures
            final(self).well_formed(),
            final(self)@ == old(self)@.repaired(slot as int),
    {
        if slot < 8 && self.slot_is_repairable(slot) {
            if slot == 0 {
                self.module_airlock.repair();
            } else if slot == 1 {
                self.module_command_module.repair();
            } else if slot == 2 {
                self.module_galley.repair();
            } else if slot == 3 {
                self.module_life_support.repair();
            } else if slot == 4 {
                self.module_sleeping_pods.repair();
            } else if slot == 5 {
                self.module_space_suits.repair();
            } else if slot == 6 {
                self.module_temperature_control.repair();
            } else {
                self.module_water_reclamation.repair();
            }
            proof {
                assert(self@ =~= old(self)@.repaired_at(slot as int));
            }
            self.update_active_modules();
        }
    }
}

impl Name for CrewModuleSection {
    open spec fn name_view(&self) -> Seq<char> {
        "Crew Module Section"@
    }

    fn name(&self) -> (r: String) {
        String::from_str("Crew Module Section")
    }
}

impl Installed for CrewModuleSection {
    open spec fn is_installed(&self) -> bool {
        self@.installed
    }

    fn installed(&self) -> (r: bool) {
        self.installed
    }
}

impl ModuleCounts for CrewModuleSection {
    open spec fn well_formed(&self) -> bool {
        &&& self.totals_cached()
        &&& self.active_cached()
        &&& self@.total() == 8
        &&& self@.well_formed()
    }

    open spec fn total_count(&self) -> nat {
        self@.total()
    }

    open spec fn active_count(&self) -> nat {
        self@.active()
    }

    fn total_modules(&self) -> (r: u16) {
        self.total_modules
    }

    fn active_modules(&self) -> (r: u16) {
        self.active_modules
    }
}

impl UpdateModules for CrewModuleSection {
    open spec fn child_counts(&self) -> Seq<int> {
        self@.counts()
    }

    open spec fn counts_well_formed(&self) -> bool {
        &&& self.totals_cached()
        &&& self@.total() == 8
        &&& self@.well_formed()
    }

    fn active_module_counts(&self) -> (r: Vec<u16>) {
        let r = vec![
            flag_of(self.module_airlock.active()),
            flag_of(self.module_command_module.active()),
            flag_of(self.module_galley.active()),
            flag_of(self.module_life_support.active()),
            flag_of(self.module_sleeping_pods.active()),
            flag_of(self.module_space_suits.active()),
            flag_of(self.module_temperature_control.active()),
            flag_of(self.module_water_reclamation.active()),
        ];
        proof {
            assert(counts_view(r@) =~= self@.counts());
        }
        r
    }

    fn update_active_modules(&mut self) {
        proof {
            lemma_active_le_total(self@);
        }
        self.active_modules = self.active_module_sum();
    }
}

impl Status for CrewModuleSection {
    open spec fn status_view(&self, indent: nat) -> Seq<char> {
        section_status_text(self.name_view(), self.module_names(), self@, indent)
    }

    open spec fn indent_limit(&self) -> nat {
        253
    }

    fn status(&self, indent: u8) -> (r: String) {
        let keys = vec![String::from_str(":name")];
        let name = self.name();
        let values = vec![quote(name.as_str())];
        let modules = vec![
            self.module_airlock.status(indent + 2),
            self.module_command_module.status(indent + 2),
            self.module_galley.status(indent + 2),
            self.module_life_support.status(indent + 2),
            self.module_sleeping_pods.status(indent + 2),
            self.module_space_suits.status(indent + 2),
            self.module_temperature_control.status(indent + 2),
            self.module_water_reclamation.status(indent + 2),
        ];
        let r = tl_station::status(
            String::from_str("section"),
            true,
            keys,
            values,
            true,
            String::from_str(":modules"),
            modules,
            indent,
        );
        proof {
            assert(texts(keys@) =~= seq![":name"@]);
            assert(texts(values@) =~= seq![quoted(self.name_view())]);
            assert(texts(modules@) =~= Seq::new(
                8,
                |i: int|
                    module_status_text(
                        self.module_names()[i],
                        self@.modules[i],
                        (indent + 2) as nat,
                    ),
            ));
        }
        r
    }
}

impl BreakSomething for CrewModuleSection {
    open spec fn break_outcome(
        &self,
        after: SectionView,
        outcome: Result<Seq<char>, BreakError>,
    ) -> bool {
        section_break_outcome(self@, self.module_names(), after, outcome)
    }

    fn break_something(&mut self) -> (r: Result<String, BreakError>) {
        let pick = chance::pick(CrewModuleSection::MODULES_CONTAINED as usize) as u16;
        let r = self.break_module(pick);
        proof {
            if old(self)@.installed {
                assert(self@ == old(self)@.broken_at(pick - 1));
            }
        }
        r
    }
}

impl Repair for CrewModuleSection {
    open spec fn is_repairable(&self) -> bool {
        self@.needs_repair()
    }

    open spec fn slot_count(&self) -> nat {
        8
    }

    open spec fn slot_repairable(&self, slot: int) -> bool {
        self@.module_repairable(slot)
    }

    open spec fn slot_label(&self, slot: int) -> Seq<char> {
        self.module_names()[slot]
    }

    fn repairable(&self) -> (r: bool) {
        let r = self.installed && self.active_modules < self.total_modules;
        assert(r == self@.needs_repair());
        assert(r == self.is_repairable());
        r
    }

    fn slots(&self) -> (r: usize) {
        8
    }

    fn slot_is_repairable(&self, slot: usize) -> (r: bool) {
        self.installed && if slot == 0 {
            self.module_airlock.repairable()
        } else if slot == 1 {
            self.module_command_module.repairable()
        } else if slot == 2 {
            self.module_galley.repairable()
        } else if slot == 3 {
            self.module_life_support.repairable()
        } else if slot == 4 {
            self.module_sleeping_pods.repairable()
        } else if slot == 5 {
            self.module_space_suits.repairable()
        } else if slot == 6 {
            self.module_temperature_control.repairable()
        } else {
            self.module_water_reclamation.repairable()
        }
    }

    fn slot_display(&self, slot: usize) -> (r: String) {
        if slot == 0 {
            self.module_airlock.repair_display()
        } else if slot == 1 {
            self.module_command_module.repair_display()
        } else if slot == 2 {
            self.module_galley.repair_display()
        } else if slot == 3 {
            self.module_life_support.repair_display()
        } else if slot == 4 {
            self.module_sleeping_pods.repair_display()
        } else if slot == 5 {
            self.module_space_suits.repair_display()
        } else if slot == 6 {
            self.module_temperature_control.repair_display()
        } else {
            self.module_water_reclamation.repair_display()
        }
    }
}

impl PowerDown for CrewModuleSection {
    open spec fn powered_down_view(&self) -> SectionView {
        self@.powered_down()
    }

    fn power_down(&mut self) {
        self.module_airlock.power_down();
        self.module_command_module.power_down();
        self.module_galley.power_down();
        self.module_life_support.power_down();
        self.module_sleeping_pods.power_down();
        self.module_space_suits.power_down();
        self.module_temperature_control.power_down();
        self.module_water_reclamation.power_down();
        proof {
            assert(self@ =~= old(self)@.powered_down());
            lemma_all_inactive(self@);
        }
        self.update_active_modules();
    }
}

} // verus!
