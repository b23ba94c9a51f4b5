//! The comms sections.
use vstd::prelude::*;

use crate::module::common::{
    module_status_text, Active, BreakModule, PowerDownModule, RepairModule, StatusModule,
};
use crate::module::{comms};
use crate::chance;
use crate::section::common::{
    flag_of, lemma_active_le_total, lemma_all_inactive, section_break_outcome, section_status_text,
    Installed, ModulesContained, SectionView,
};
use crate::station::components::{
    counts_view, BreakError, BreakSomething, ModuleCounts, Name, PowerDown, Repair, Status,
    UpdateModules,
};
use crate::terminalisp::station::{quote, quoted, texts};
use crate::terminalisp::station as tl_station;

verus! {

pub struct AntennaSection {
    installed: bool,
    module_antenna: comms::Antenna,
    total_modules: u16,
    active_modules: u16,
}

impl ModulesContained for AntennaSection {
    const MODULES_CONTAINED: u16 = 1;
}

impl View for AntennaSection {
    type V = SectionView;

    closed spec fn view(&self) -> SectionView {
        SectionView {
            installed: self.installed,
            modules: seq![self.module_antenna.is_active()],
        }
    }
}

impl AntennaSection {
    /// The names of the modules, in order.
    pub open spec fn module_names(&self) -> Seq<Seq<char>> {
        seq!["Antenna"@]
    }

    pub closed spec fn totals_cached(&self) -> bool {
        self.total_modules == 1
    }

    pub closed spec fn active_cached(&self) -> bool {
        self.active_modules == self@.active()
    }

    pub fn new(installed: bool) -> (r: Self)
        ensures
            r.well_formed(),
            r@ == SectionView::fresh(installed, 1),
    {
        let mut section = AntennaSection {
            installed,
            module_antenna: comms::Antenna::new(installed),
            total_modules: AntennaSection::MODULES_CONTAINED,
            active_modules: 0,
        };
        proof {
            assert(section@ =~= SectionView::fresh(installed, 1));
            if !installed {
                lemma_all_inactive(section@);
            }
        }
        section.update_active_modules();
        section
    }

    /// Breaks the module at position `pick`, counted from 1; an error where
    /// the section is not installed. A module that is broken already is
    /// reported by name all the same, and stays broken: the pick is not
    /// drawn again.
    pub fn break_module(&mut self, pick: u16) -> (r: Result<String, BreakError>)
        requires
            old(self).well_formed(),
            1 <= pick <= 1,
        ensures
            final(self).well_formed(),
            old(self)@.installed ==> final(self)@ == old(self)@.broken_at(pick - 1) && r is Ok
                && r->Ok_0@ == old(self).module_names()[pick - 1],
            !old(self)@.installed ==> final(self)@ == old(self)@ && r == Err::<String, BreakError>(
                BreakError::NotInstalled,
            ),
    {
        if !self.installed {
            return Err(BreakError::NotInstalled);
        }
        let broken = self.module_antenna.break_something();
        proof {
            assert(self@ =~= old(self)@.broken_at(pick - 1));
        }
        self.update_active_modules();
        Ok(broken)
    }

    /// Repairs the module at `slot`, counted from 0, where it is installed and
    /// broken; otherwise changes nothing.
    pub fn repair(&mut self, slot: usize)
        requires
            old(self).well_formed(),
        ensures
            final(self).well_formed(),
            final(self)@ == old(self)@.repaired(slot as int),
    {
        if slot < 1 && self.slot_is_repairable(slot) {
            self.module_antenna.repair();
            proof {
                assert(self@ =~= old(self)@.repaired_at(slot as int));
            }
            self.update_active_modules();
        }
    }
}

impl Name for AntennaSection {
    open spec fn name_view(&self) -> Seq<char> {
        "Antenna Section"@
    }

    fn name(&self) -> (r: String) {
        String::from_str("Antenna Section")
    }
}

impl Installed for AntennaSection {
    open spec fn is_installed(&self) -> bool {
        self@.installed
    }

    fn installed(&self) -> (r: bool) {
        self.installed
    }
}

impl ModuleCounts for AntennaSection {
    open spec fn well_formed(&self) -> bool {
        &&& self.totals_cached()
        &&& self.active_cached()
        &&& self@.total() == 1
        &&& self@.well_formed()
    }

    open spec fn total_count(&self) -> nat {
        self@.total()
    }

    open spec fn active_count(&self) -> nat {
        self@.active()
    }

    fn total_modules(&self) -> (r: u16) {
        self.total_modules
    }

    fn active_modules(&self) -> (r: u16) {
        self.active_modules
    }
}

impl UpdateModules for AntennaSection {
    open spec fn child_counts(&self) -> Seq<int> {
        self@.counts()
    }

    open spec fn counts_well_formed(&self) -> bool {
        &&& self.totals_cached()
        &&& self@.total() == 1
        &&& self@.well_formed()
    }

    fn active_module_counts(&self) -> (r: Vec<u16>) {
        let r = vec![
            flag_of(self.module_antenna.active()),
        ];
        proof {
            assert(counts_view(r@) =~= self@.counts());
        }
        r
    }

    fn update_active_modules(&mut self) {
        proof {
            lemma_active_le_total(self@);
        }
        self.active_modules = self.active_module_sum();
    }
}

impl Status for AntennaSection {
    open spec fn status_view(&self, indent: nat) -> Seq<char> {
        section_status_text(self.name_view(), self.module_names(), self@, indent)
    }

    open spec fn indent_limit(&self) -> nat {
        253
    }

    fn status(&self, indent: u8) -> (r: String) {
        let keys = vec![String::from_str(":name")];
        let name = self.name();
        let values = vec![quote(name.as_str())];
        let modules = vec![
            self.module_antenna.status(indent + 2),
        ];
        let r = tl_station::status(
            String::from_str("section"),
            true,
            keys,
            values,
            true,
            String::from_str(":modules"),
            modules,
            indent,
        );
        proof {
            assert(texts(keys@) =~= seq![":name"@]);
            assert(texts(values@) =~= seq![quoted(self.name_view())]);
            assert(texts(modules@) =~= Seq::new(
                1,
                |i: int|
                    module_status_text(
                        self.module_names()[i],
                        self@.modules[i],
                        (indent + 2) as nat,
                    ),
            ));
        }
        r
    }
}

impl BreakSomething for AntennaSection {
    open spec fn break_outcome(
        &self,
        after: SectionView,
        outcome: Result<Seq<char>, BreakError>,
    ) -> bool {
        section_break_outcome(self@, self.module_names(), after, outcome)
    }

    fn break_something(&mut self) -> (r: Result<String, BreakError>) {
        let pick = chance::pick(AntennaSection::MODULES_CONTAINED as usize) as u16;
        let r = self.break_module(pick);
        proof {
            if old(self)@.installed {
                assert(self@ == old(self)@.broken_at(pick - 1));
            }
        }
        r
    }
}

impl Repair for AntennaSection {
    open spec fn is_repairable(&self) -> bool {
        self@.needs_repair()
    }

    open spec fn slot_count(&self) -> nat {
        1
    }

    open spec fn slot_repairable(&self, slot: int) -> bool {
        self@.module_repairable(slot)
    }

    open spec fn slot_label(&self, slot: int) -> Seq<char> {
        self.module_names()[slot]
    }

    fn repairable(&self) -> (r: bool) {
        let r = self.installed && self.active_modules < self.total_modules;
        assert(r == self@.needs_repair());
        assert(r == self.is_repairable());
        r
    }

    fn slots(&self) -> (r: usize) {
        1
    }

    fn slot_is_repairable(&self, slot: usize) -> (r: bool) {
        self.installed && self.module_antenna.repairable()
    }

    fn slot_display(&self, slot: usize) -> (r: String) {
        self.module_antenna.repair_display()
    }
}

impl PowerDown for AntennaSection {
    open spec fn powered_down_view(&self) -> SectionView {
        self@.powered_down()
    }

    fn power_down(&mut self) {
        self.module_antenna.power_down();
        proof {
            assert(self@ =~= old(self)@.powered_down());
            lemma_all_inactive(self@);
        }
        self.update_active_modules();
    }
}

pub struct TrackingSection {
    installed: bool,
    module_tracking: comms::Tracking,
    total_modules: u16,
    active_modules: u16,
}

impl ModulesContained for TrackingSection {
    const MODULES_CONTAINED: u16 = 1;
}

impl View for TrackingSection {
    type V = SectionView;

    closed spec fn view(&self) -> SectionView {
        SectionView {
            installed: self.installed,
            modules: seq![self.module_tracking.is_active()],
        }
    }
}

impl TrackingSection {
    /// The names of the modules, in order.
    pub open spec fn module_names(&self) -> Seq<Seq<char>> {
        seq!["Tracking"@]
    }

    pub closed spec fn totals_cached(&self) -> bool {
        self.total_modules == 1
    }

    pub closed spec fn active_cached(&self) -> bool {
        self.active_modules == self@.active()
    }

    pub fn new(installed: bool) -> (r: Self)
        ensures
            r.well_formed(),
            r@ == SectionView::fresh(installed, 1),
    {
        let mut section = TrackingSection {
            installed,
            module_tracking: comms::Tracking::new(installed),
            total_modules: TrackingSection::MODULES_CONTAINED,
            active_modules: 0,
        };
        proof {
            assert(section@ =~= SectionView::fresh(installed, 1));
            if !installed {
                lemma_all_inactive(section@);
            }
        }
        section.update_active_modules();
        section
    }

    /// Breaks the module at position `pick`, counted from 1; an error where
    /// the section is not installed. A module that is broken already is
    /// reported by name all the same, and stays broken: the pick is not
    /// drawn again.
    pub fn break_module(&mut self, pick: u16) -> (r: Result<String, BreakError>)
        requires
            old(self).well_formed(),
            1 <= pick <= 1,
        ensures
            final(self).well_formed(),
            old(self)@.installed ==> final(self)@ == old(self)@.broken_at(pick - 1) && r is Ok
                && r->Ok_0@ == old(self).module_names()[pick - 1],
            !old(self)@.installed ==> final(self)@ == old(self)@ && r == Err::<String, BreakError>(
                BreakError::NotInstalled,
            ),
    {
        if !self.installed {
            return Err(BreakError::NotInstalled);
        }
        let broken = self.module_tracking.break_something();
        proof {
            assert(self@ =~= old(self)@.broken_at(pick - 1));
        }
        self.update_active_modules();
        Ok(broken)
    }

    /// Repairs the module at `slot`, counted from 0, where it is installed and
    /// broken; otherwise changes nothing.
    pub fn repair(&mut self, slot: usize)
        requires
            old(self).well_formed(),
        ensures
            final(self).well_formed(),
            final(self)@ == old(self)@.repaired(slot as int),
    {
        if slot < 1 && self.slot_is_repairable(slot) {
            self.module_tracking.repair();
            proof {
                assert(self@ =~= old(self)@.repaired_at(slot as int));
            }
            self.update_active_modules();
        }
    }
}

impl Name for TrackingSection {
    open spec fn name_view(&self) -> Seq<char> {
        "Tracking Section"@
    }

    fn name(&self) -> (r: String) {
        String::from_str("Tracking Section")
    }
}

impl Installed for TrackingSection {
    open spec fn is_installed(&self) -> bool {
        self@.installed
    }

    fn installed(&self) -> (r: bool) {
        self.installed
    }
}

impl ModuleCounts for TrackingSection {
    open spec fn well_formed(&self) -> bool {
        &&& self.totals_cached()
        &&& self.active_cached()
        &&& self@.total() == 1
        &&& self@.well_formed()
    }

    open spec fn total_count(&self) -> nat {
        self@.total()
    }

    open spec fn active_count(&self) -> nat {
        self@.active()
    }

    fn total_modules(&self) -> (r: u16) {
        self.total_modules
    }

    fn active_modules(&self) -> (r: u16) {
        self.active_modules
    }
}

impl UpdateModules for TrackingSection {
    open spec fn child_counts(&self) -> Seq<int> {
        self@.counts()
    }

    open spec fn counts_well_formed(&self) -> bool {
        &&& self.totals_cached()
        &&& self@.total() == 1
        &&& self@.well_formed()
    }

    fn active_module_counts(&self) -> (r: Vec<u16>) {
        let r = vec![
            flag_of(self.module_tracking.active()),
        ];
        proof {
            assert(counts_view(r@) =~= self@.counts());
        }
        r
    }

    fn update_active_modules(&mut self) {
        proof {
            lemma_active_le_total(self@);
        }
        self.active_modules = self.active_module_sum();
    }
}

impl Status for TrackingSection {
    open spec fn status_view(&self, indent: nat) -> Seq<char> {
        section_status_text(self.name_view(), self.module_names(), self@, indent)
    }

    open spec fn indent_limit(&self) -> nat {
        253
    }

    fn status(&self, indent: u8) -> (r: String) {
        let keys = vec![String::from_str(":name")];
        let name = self.name();
        let values = vec![quote(name.as_str())];
        let modules = vec![
            self.module_tracking.status(indent + 2),
        ];
        let r = tl_station::status(
            String::from_str("section"),
            true,
            keys,
            values,
            true,
            String::from_str(":modules"),
            modules,
            indent,
        );
        proof {
            assert(texts(keys@) =~= seq![":name"@]);
            assert(texts(values@) =~= seq![quoted(self.name_view())]);
            assert(texts(modules@) =~= Seq::new(
                1,
                |i: int|
                    module_status_text(
                        self.module_names()[i],
                        self@.modules[i],
                        (indent + 2) as nat,
                    ),
            ));
        }
        r
    }
}

impl BreakSomething for TrackingSection {
    open spec fn break_outcome(
        &self,
        after: SectionView,
        outcome: Result<Seq<char>, BreakError>,
    ) -> bool {
        section_break_outcome(self@, self.module_names(), after, outcome)
    }

    fn break_something(&mut self) -> (r: Result<String, BreakError>) {
        let pick = chance::pick(TrackingSection::MODULES_CONTAINED as usize) as u16;
        let r = self.break_module(pick);
        proof {
            if old(self)@.installed {
                assert(self@ == old(self)@.broken_at(pick - 1));
            }
        }
        r
    }
}

impl Repair for TrackingSection {
    open spec fn is_repairable(&self) -> bool {
        self@.needs_repair()
    }

    open spec fn slot_count(&self) -> nat {
        1
    }

    open spec fn slot_repairable(&self, slot: int) -> bool {
        self@.module_repairable(slot)
    }

    open spec fn slot_label(&self, slot: int) -> Seq<char> {
        self.module_names()[slot]
    }

    fn repairable(&self) -> (r: bool) {
        let r = self.installed && self.active_modules < self.total_modules;
        assert(r == self@.needs_repair());
        assert(r == self.is_repairable());
        r
    }

    fn slots(&self) -> (r: usize) {
        1
    }

    fn slot_is_repairable(&self, slot: usize) -> (r: bool) {
        self.installed && self.module_tracking.repairable()
    }

    fn slot_display(&self, slot: usize) -> (r: String) {
        self.module_tracking.repair_display()
    }
}

impl PowerDown for TrackingSection {
    open spec fn powered_down_view(&self) -> SectionView {
        self@.powered_down()
    }

    fn power_down(&mut self) {
        self.module_tracking.power_down();
        proof {
            assert(self@ =~= old(self)@.powered_down());
            lemma_all_inactive(self@);
        }
        self.update_active_modules();
    }
}

pub struct TransponderSection {
    installed: bool,
    module_transponder: comms::Transponder,
    total_modules: u16,
    active_modules: u16,
}

impl ModulesContained for TransponderSection {
    const MODULES_CONTAINED: u16 = 1;
}

impl View for TransponderSection {
    type V = SectionView;

    closed spec fn view(&self) -> SectionView {
        SectionView {
            installed: self.installed,
            modules: seq![self.module_transponder.is_active()],
        }
    }
}

impl TransponderSection {
    /// The names of the modules, in order.
    pub open spec fn module_names(&self) -> Seq<Seq<char>> {
        seq!["Transponder"@]
    }

    pub closed spec fn totals_cached(&self) -> bool {
        self.total_modules == 1
    }

    pub closed spec fn active_cached(&self) -> bool {
        self.active_modules == self@.active()
    }

    pub fn new(installed: bool) -> (r: Self)
        ensures
            r.well_formed(),
            r@ == SectionView::fresh(installed, 1),
    {
        let mut section = TransponderSection {
            installed,
            module_transponder: comms::Transponder::new(installed),
            total_modules: TransponderSection::MODULES_CONTAINED,
            active_modules: 0,
        };
        proof {
            assert(section@ =~= SectionView::fresh(installed, 1));
            if !installed {
                lemma_all_inactive(section@);
            }
        }
        section.update_active_modules();
        section
    }

    /// Breaks the module at position `pick`, counted from 1; an error where
    /// the section is not installed. A module that is broken already is
    /// reported by name all the same, and stays broken: the pick is not
    /// drawn again.
    pub fn break_module(&mut self, pick: u16) -> (r: Result<String, BreakError>)
        requires
            old(self).well_formed(),
            1 <= pick <= 1,
        ensures
            final(self).well_formed(),
            old(self)@.installed ==> final(self)@ == old(self)@.broken_at(pick - 1) && r is Ok
                && r->Ok_0@ == old(self).module_names()[pick - 1],
            !old(self)@.installed ==> final(self)@ == old(self)@ && r == Err::<String, BreakError>(
                BreakError::NotInstalled,
            ),
    {
        if !self.installed {
            return Err(BreakError::NotInstalled);
        }
        let broken = self.module_transponder.break_something();
        proof {
            assert(self@ =~= old(self)@.broken_at(pick - 1));
        }
        self.update_active_modules();
        Ok(broken)
    }

    /// Repairs the module at `slot`, counted from 0, where it is installed and
    /// broken; otherwise changes nothing.
    pub fn repair(&mut self, slot: usize)
        requires
            old(self).well_formed(),
        ensures
            final(self).well_formed(),
            final(self)@ == old(self)@.repaired(slot as int),
    {
        if slot < 1 && self.slot_is_repairable(slot) {
            self.module_transponder.repair();
            proof {
                assert(self@ =~= old(self)@.repaired_at(slot as int));
            }
            self.update_active_modules();
        }
    }
}

impl Name for TransponderSection {
    open spec fn name_view(&self) -> Seq<char> {
        "Transponder Section"@
    }

    fn name(&self) -> (r: String) {
        String::from_str("Transponder Section")
    }
}

impl Installed for TransponderSection {
    open spec fn is_installed(&self) -> bool {
        self@.installed
    }

    fn installed(&self) -> (r: bool) {
        self.installed
    }
}

impl ModuleCounts for TransponderSection {
    open spec fn well_formed(&self) -> bool {
        &&& self.totals_cached()
        &&& self.active_cached()
        &&& self@.total() == 1
        &&& self@.well_formed()
    }

    open spec fn total_count(&self) -> nat {
        self@.total()
    }

    open spec fn active_count(&self) -> nat {
        self@.active()
    }

    fn total_modules(&self) -> (r: u16) {
        self.total_modules
    }

    fn active_modules(&self) -> (r: u16) {
        self.active_modules
    }
}

impl UpdateModules for TransponderSection {
    open spec fn child_counts(&self) -> Seq<int> {
        self@.counts()
    }

    open spec fn counts_well_formed(&self) -> bool {
        &&& self.totals_cached()
        &&& self@.total() == 1
        &&& self@.well_formed()
    }

    fn active_module_counts(&self) -> (r: Vec<u16>) {
        let r = vec![
            flag_of(self.module_transponder.active()),
        ];
        proof {
            assert(counts_view(r@) =~= self@.counts());
        }
        r
    }

    fn update_active_modules(&mut self) {
        proof {
            lemma_active_le_total(self@);
        }
        self.active_modules = self.active_module_sum();
    }
}

impl Status for TransponderSection {
    open spec fn status_view(&self, indent: nat) -> Seq<char> {
        section_status_text(self.name_view(), self.module_names(), self@, indent)
    }

    open spec fn indent_limit(&self) -> nat {
        253
    }

    fn status(&self, indent: u8) -> (r: String) {
        let keys = vec![String::from_str(":name")];
        let name = self.name();
        let values = vec![quote(name.as_str())];
        let modules = vec![
            self.module_transponder.status(indent + 2),
        ];
        let r = tl_station::status(
            String::from_str("section"),
            true,
            keys,
            values,
            true,
            String::from_str(":modules"),
            modules,
            indent,
        );
        proof {
            assert(texts(keys@) =~= seq![":name"@]);
            assert(texts(values@) =~= seq![quoted(self.name_view())]);
            assert(texts(modules@) =~= Seq::new(
                1,
                |i: int|
                    module_status_text(
                        self.module_names()[i],
                        self@.modules[i],
                        (indent + 2) as nat,
                    ),
            ));
        }
        r
    }
}

impl BreakSomething for TransponderSection {
    open spec fn break_outcome(
        &self,
        after: SectionView,
        outcome: Result<Seq<char>, BreakError>,
    ) -> bool {
        section_break_outcome(self@, self.module_names(), after, outcome)
    }

    fn break_something(&mut self) -> (r: Result<String, BreakError>) {
        let pick = chance::pick(TransponderSection::MODULES_CONTAINED as usize) as u16;
        let r = self.break_module(pick);
        proof {
            if old(self)@.installed {
                assert(self@ == old(self)@.broken_at(pick - 1));
            }
        }
        r
    }
}

impl Repair for TransponderSection {
    open spec fn is_repairable(&self) -> bool {
        self@.needs_repair()
    }

    open spec fn slot_count(&self) -> nat {
        1
    }

    open spec fn slot_repairable(&self, slot: int) -> bool {
        self@.module_repairable(slot)
    }

    open spec fn slot_label(&self, slot: int) -> Seq<char> {
        self.module_names()[slot]
    }

    fn repairable(&self) -> (r: bool) {
        let r = self.installed && self.active_modules < self.total_modules;
        assert(r == self@.needs_repair());
        assert(r == self.is_repairable());
        r
    }

    fn slots(&self) -> (r: usize) {
        1
    }

    fn slot_is_repairable(&self, slot: usize) -> (r: bool) {
        self.installed && self.module_transponder.repairable()
    }

    fn slot_display(&self, slot: usize) -> (r: String) {
        self.module_transponder.repair_display()
    }
}

impl PowerDown for TransponderSection {
    open spec fn powered_down_view(&self) -> SectionView {
        self@.powered_down()
    }

    fn power_down(&mut self) {
        self.module_transponder.power_down();
        proof {
            assert(self@ =~= old(self)@.powered_down());
            lemma_all_inactive(self@);
        }
        self.update_active_modules();
    }
}

} // verus!
