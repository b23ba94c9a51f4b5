//! The misc sections.
use vstd::prelude::*;

use crate::module::common::{
    module_status_text, Active, BreakModule, PowerDownModule, RepairModule, StatusModule,
};
use crate::module::{maneuver, misc};
use crate::chance;
use crate::section::common::{
    flag_of, lemma_active_le_total, lemma_all_inactive, section_break_outcome, section_status_text,
    Installed, ModulesContained, SectionView,
};
use crate::station::components::{
    counts_view, BreakError, BreakSomething, ModuleCounts, Name, PowerDown, Repair, Status,
    UpdateModules,
};
use crate::terminalisp::station::{quote, quoted, texts};
use crate::terminalisp::station as tl_station;

verus! {

pub struct CargoBaySection {
    installed: bool,
    module_airlock: misc::Airlock,
    module_cargo_bay: misc::CargoBay,
    module_docking_system: maneuver::DockingSystem,
    total_modules: u16,
    active_modules: u16,
}

impl ModulesContained for CargoBaySection {
    const MODULES_CONTAINED: u16 = 3;
}

impl View for CargoBaySection {
    type V = SectionView;

    closed spec fn view(&self) -> SectionView {
        SectionView {
            installed: self.installed,
            modules: seq![
                self.module_airlock.is_active(),
                self.module_cargo_bay.is_active(),
                self.module_docking_system.is_active(),
            ],
        }
    }
}

impl CargoBaySection {
    /// The names of the modules, in order.
    pub open spec fn module_names(&self) -> Seq<Seq<char>> {
        seq!["Airlock"@, "Cargo Bay"@, "Docking System"@]
    }

    pub closed spec fn totals_cached(&self) -> bool {
        self.total_modules == 3
    }

    pub closed spec fn active_cached(&self) -> bool {
        self.active_modules == self@.active()
    }

    pub fn new(installed: bool) -> (r: Self)
        ensures
            r.well_formed(),
            r@ == SectionView::fresh(installed, 3),
    {
        let mut section = CargoBaySection {
            installed,
            module_airlock: misc::Airlock::new(installed),
            module_cargo_bay: misc::CargoBay::new(installed),
            module_docking_system: maneuver::DockingSystem::new(installed),
            total_modules: CargoBaySection::MODULES_CONTAINED,
            active_modules: 0,
        };
        proof {
            assert(section@ =~= SectionView::fresh(installed, 3));
            if !installed {
                lemma_all_inactive(section@);
            }
        }
        section.update_active_modules();
        section
    }

    /// Breaks the module at position `pick`, counted from 1; an error where
    /// the section is not installed. A module that is broken already is
    /// reported by name all the same, and stays broken: the pick is not
    /// drawn again.
    pub fn break_module(&mut self, pick: u16) -> (r: Result<String, BreakError>)
        requires
            old(self).well_formed(),
            1 <= pick <= 3,
        ensures
            final(self).well_formed(),
            old(self)@.installed ==> final(self)@ == old(self)@.broken_at(pick - 1) && r is Ok
                && r->Ok_0@ == old(self).module_names()[pick - 1],
            !old(self)@.installed ==> final(self)@ == old(self)@ && r == Err::<String, BreakError>(
                BreakError::NotInstalled,
            ),
    {
        if !self.installed {
            return Err(BreakError::NotInstalled);
        }
        let broken = if pick == 1 {
            self.module_airlock.break_something()
        } else if pick == 2 {
            self.module_cargo_bay.break_something()
        } else {
            self.module_docking_system.break_something()
        };
        proof {
            assert(self@ =~= old(self)@.broken_at(pick - 1));
        }
        self.update_active_modules();
        Ok(broken)
    }

    /// Repairs the module at `slot`, counted from 0, where it is installed and
    /// broken; otherwise changes nothing.
    pub fn repair(&mut self, slot: usize)
        requires
            old(self).well_formed(),
        ensures
            final(self).well_formed(),
            final(self)@ == old(self)@.repaired(slot as int),
    {
        if slot < 3 && self.slot_is_repairable(slot) {
            if slot == 0 {
                self.module_airlock.repair();
            } else if slot == 1 {
                self.module_cargo_bay.repair();
            } else {
                self.module_docking_system.repair();
            }
            proof {
                assert(self@ =~= old(self)@.repaired_at(slot as int));
            }
            self.update_active_modules();
        }
    }
}

impl Name for CargoBaySection {
    open spec fn name_view(&self) -> Seq<char> {
        "Cargo Bay Section"@
    }

    fn name(&self) -> (r: String) {
        String::from_str("Cargo Bay Section")
    }
}

impl Installed for CargoBaySection {
    open spec fn is_installed(&self) -> bool {
        self@.installed
    }

    fn installed(&self) -> (r: bool) {
        self.installed
    }
}

impl ModuleCounts for CargoBaySection {
    open spec fn well_formed(&self) -> bool {
        &&& self.totals_cached()
        &&& self.active_cached()
        &&& self@.total() == 3
        &&& self@.well_formed()
    }

    open spec fn total_count(&self) -> nat {
        self@.total()
    }

    open spec fn active_count(&self) -> nat {
        self@.active()
    }

    fn total_modules(&self) -> (r: u16) {
        self.total_modules
    }

    fn active_modules(&self) -> (r: u16) {
        self.active_modules
    }
}

impl UpdateModules for CargoBaySection {
    open spec fn child_counts(&self) -> Seq<int> {
        self@.counts()
    }

    open spec fn counts_well_formed(&self) -> bool {
        &&& self.totals_cached()
        &&& self@.total() == 3
        &&& self@.well_formed()
    }

    fn active_module_counts(&self) -> (r: Vec<u16>) {
        let r = vec![
            flag_of(self.module_airlock.active()),
            flag_of(self.module_cargo_bay.active()),
            flag_of(self.module_docking_system.active()),
        ];
        proof {
            assert(counts_view(r@) =~= self@.counts());
        }
        r
    }

    fn update_active_modules(&mut self) {
        proof {
            lemma_active_le_total(self@);
        }
        self.active_modules = self.active_module_sum();
    }
}

impl Status for CargoBaySection {
    open spec fn status_view(&self, indent: nat) -> Seq<char> {
        section_status_text(self.name_view(), self.module_names(), self@, indent)
    }

    open spec fn indent_limit(&self) -> nat {
        253
    }

    fn status(&self, indent: u8) -> (r: String) {
        let keys = vec![String::from_str(":name")];
        let name = self.name();
        let values = vec![quote(name.as_str())];
        let modules = vec![
            self.module_airlock.status(indent + 2),
            self.module_cargo_bay.status(indent + 2),
            self.module_docking_system.status(indent + 2),
        ];
        let r = tl_station::status(
            String::from_str("section"),
            true,
            keys,
            values,
            true,
            String::from_str(":modules"),
            modules,
            indent,
        );
        proof {
            assert(texts(keys@) =~= seq![":name"@]);
            assert(texts(values@) =~= seq![quoted(self.name_view())]);
            assert(texts(modules@) =~= Seq::new(
                3,
                |i: int|
                    module_status_text(
                        self.module_names()[i],
                        self@.modules[i],
                        (indent + 2) as nat,
                    ),
            ));
        }
        r
    }
}

impl BreakSomething for CargoBaySection {
    open spec fn break_outcome(
        &self,
        after: SectionView,
        outcome: Result<Seq<char>, BreakError>,
    ) -> bool {
        section_break_outcome(self@, self.module_names(), after, outcome)
    }

    fn break_something(&mut self) -> (r: Result<String, BreakError>) {
        let pick = chance::pick(CargoBaySection::MODULES_CONTAINED as usize) as u16;
        let r = self.break_module(pick);
        proof {
            if old(self)@.installed {
                assert(self@ == old(self)@.broken_at(pick - 1));
            }
        }
        r
    }
}

impl Repair for CargoBaySection {
    open spec fn is_repairable(&self) -> bool {
        self@.needs_repair()
    }

    open spec fn slot_count(&self) -> nat {
        3
    }

    open spec fn slot_repairable(&self, slot: int) -> bool {
        self@.module_repairable(slot)
    }

    open spec fn slot_label(&self, slot: int) -> Seq<char> {
        self.module_names()[slot]
    }

    fn repairable(&self) -> (r: bool) {
        let r = self.installed && self.active_modules < self.total_modules;
        assert(r == self@.needs_repair());
        assert(r == self.is_repairable());
        r
    }

    fn slots(&self) -> (r: usize) {
        3
    }

    fn slot_is_repairable(&self, slot: usize) -> (r: bool) {
        self.installed && if slot == 0 {
            self.module_airlock.repairable()
        } else if slot == 1 {
            self.module_cargo_bay.repairable()
        } else {
            self.module_docking_system.repairable()
        }
    }

    fn slot_display(&self, slot: usize) -> (r: String) {
        if slot == 0 {
            self.module_airlock.repair_display()
        } else if slot == 1 {
            self.module_cargo_bay.repair_display()
        } else {
            self.module_docking_system.repair_display()
        }
    }
}

impl PowerDown for CargoBaySection {
    open spec fn powered_down_view(&self) -> SectionView {
        self@.powered_down()
    }

    fn power_down(&mut self) {
        self.module_airlock.power_down();
        self.module_cargo_bay.power_down();
        self.module_docking_system.power_down();
        proof {
            assert(self@ =~= old(self)@.powered_down());
            lemma_all_inactive(self@);
        }
        self.update_active_modules();
    }
}

} // verus!
