//! The maneuver category.
use vstd::prelude::*;

use crate::category::common::{
    category_active, category_break_outcome, category_installed, category_powered_down,
    category_repaired, category_status_text, category_total, fresh_sections, installation_bounded,
    installation_of, installed_section_texts, random_bools, section_actives, SectionsAvailable,
};
use crate::chance;
use crate::section::maneuver;
use crate::section::common::{
    flag_of, lemma_active_le_total, section_break_outcome, Installed, SectionView,
};
use crate::station::components::{
    counts_view, option_view, outcome_view, repair_choices, repair_label, sum_prefix, BreakError,
    BreakSomething, ModuleCounts, Name, PowerDown, Repair, RepairOption, SectionCounts, Status,
    UpdateModules,
};
use crate::terminalisp::station::{decimal, decimal_text, quote, quoted, texts};
use crate::terminalisp::station as tl_station;

verus! {

pub struct ManeuverCategory {
    section_basic_maneuver: maneuver::BasicManeuverSection,
    section_maneuver_with_docking: maneuver::ManeuverWithDockingSection,
    total_sections: u16,
    installed_sections: u16,
    total_modules: u16,
    active_modules: u16,
}

impl SectionsAvailable for ManeuverCategory {
    const SECTIONS_AVAILABLE: u16 = 2;
}

impl View for ManeuverCategory {
    type V = Seq<SectionView>;

    closed spec fn view(&self) -> Seq<SectionView> {
        seq![self.section_basic_maneuver@, self.section_maneuver_with_docking@]
    }
}

impl ManeuverCategory {
    /// The names of the sections, in order.
    pub open spec fn section_names() -> Seq<Seq<char>> {
        seq!["Basic Maneuver Section"@, "Maneuver With Docking Section"@]
    }

    /// The names of the modules of each section.
    pub open spec fn module_names() -> Seq<Seq<Seq<char>>> {
        seq![
            seq!["Reaction Control System"@],
            seq!["Reaction Control System"@, "Docking System"@],
        ]
    }

    /// How many modules each section holds.
    pub open spec fn section_sizes() -> Seq<nat> {
        seq![1, 2]
    }

    pub closed spec fn sections_well_formed(&self) -> bool {
        &&& self.section_basic_maneuver.well_formed()
        &&& self.section_maneuver_with_docking.well_formed()
    }

    pub closed spec fn totals_cached(&self) -> bool {
        &&& self.total_sections == 2
        &&& self.installed_sections == category_installed(self@)
        &&& self.total_modules == category_total(self@)
    }

    pub closed spec fn active_cached(&self) -> bool {
        self.active_modules == category_active(self@)
    }

    /// Builds the category with between `min_count` and `max_count` of its
    /// sections installed, as `random_bools` chooses them.
    pub fn new(min_count: u16, max_count: u16) -> (r: Self)
        ensures
            r.well_formed(),
            installation_bounded(installation_of(r@), 2, min_count, max_count),
            r@ == fresh_sections(installation_of(r@), Self::section_sizes()),
    {
        let installation = random_bools(ManeuverCategory::SECTIONS_AVAILABLE, min_count, max_count);
        let r = ManeuverCategory::with_installation(&installation);
        proof {
            assert(installation_of(r@) =~= installation@);
        }
        r
    }

    /// Builds the category with the section at each position installed as
    /// `installation` says.
    pub fn with_installation(installation: &Vec<bool>) -> (r: Self)
        requires
            installation@.len() == 2,
        ensures
            r.well_formed(),
            r@ == fresh_sections(installation@, Self::section_sizes()),
    {
        let mut c = ManeuverCategory {
            section_basic_maneuver: maneuver::BasicManeuverSection::new(installation[0]),
            section_maneuver_with_docking: maneuver::ManeuverWithDockingSection::new(installation[1]),
            total_sections: ManeuverCategory::SECTIONS_AVAILABLE,
            installed_sections: 0,
            total_modules: 0,
            active_modules: 0,
        };
        c.installed_sections = flag_of(c.section_basic_maneuver.installed())
            + flag_of(c.section_maneuver_with_docking.installed());
        let section_basic_maneuver_total: u16 = if c.section_basic_maneuver.installed() {
            c.section_basic_maneuver.total_modules()
        } else {
            0
        };
        let section_maneuver_with_docking_total: u16 = if c.section_maneuver_with_docking.installed() {
            c.section_maneuver_with_docking.total_modules()
        } else {
            0
        };
        c.total_modules = section_basic_maneuver_total
            + section_maneuver_with_docking_total;
        proof {
            reveal_with_fuel(sum_prefix, 3);
            assert(c@ =~= fresh_sections(installation@, Self::section_sizes()));
        }
        c.update_active_modules();
        c
    }

    /// Breaks a module of the section at position `pick`, counted from 1;
    /// an error where that section is not installed.
    pub fn break_section(&mut self, pick: u16) -> (r: Result<String, BreakError>)
        requires
            old(self).well_formed(),
            1 <= pick <= 2,
        ensures
            final(self).well_formed(),
            final(self)@ == old(self)@.update(pick - 1, final(self)@[pick - 1]),
            section_break_outcome(
                old(self)@[pick - 1],
                Self::module_names()[pick - 1],
                final(self)@[pick - 1],
                outcome_view(r),
            ),
    {
        let r = if pick == 1 {
            self.section_basic_maneuver.break_something()
        } else {
            self.section_maneuver_with_docking.break_something()
        };
        proof {
            assert(self@ =~= old(self)@.update(pick - 1, self@[pick - 1]));
            reveal_with_fuel(sum_prefix, 3);
        }
        self.update_active_modules();
        r
    }

    /// The modules of the section at `section` that can be repaired.
    pub fn section_repair_options(&self, section: usize) -> (r: Vec<RepairOption>)
        requires
            self.well_formed(),
            section < 2,
        ensures
            r@.map_values(|o: RepairOption| option_view(o)) == repair_choices(
                Seq::new(
                    Self::section_sizes()[section as int],
                    |i: int| self@[section as int].module_repairable(i),
                ),
                Self::module_names()[section as int],
                Self::section_sizes()[section as int] as int,
            ),
    {
        if section == 0 {
            let r = self.section_basic_maneuver.repair_options();
            proof {
                let section = &self.section_basic_maneuver;
                assert(Seq::new(section.slot_count(), |i: int| section.slot_repairable(i))
                    =~= Seq::new(
                    Self::section_sizes()[0],
                    |i: int| self@[0].module_repairable(i),
                ));
                assert(Seq::new(section.slot_count(), |i: int| section.slot_label(i))
                    =~= Self::module_names()[0]);
            }
            r
        } else {
            let r = self.section_maneuver_with_docking.repair_options();
            proof {
                let section = &self.section_maneuver_with_docking;
                assert(Seq::new(section.slot_count(), |i: int| section.slot_repairable(i))
                    =~= Seq::new(
                    Self::section_sizes()[1],
                    |i: int| self@[1].module_repairable(i),
                ));
                assert(Seq::new(section.slot_count(), |i: int| section.slot_label(i))
                    =~= Self::module_names()[1]);
            }
            r
        }
    }

    /// Repairs module `module` of section `section`, both counted from 0,
    /// where that section is repairable and the module broken.
    pub fn repair(&mut self, section: usize, module: usize)
        requires
            old(self).well_formed(),
        ensures
            final(self).well_formed(),
            final(self)@ == category_repaired(old(self)@, section as int, module as int),
    {
        if section < 2 && self.slot_is_repairable(section) {
            if section == 0 {
                self.section_basic_maneuver.repair(module);
            } else {
                self.section_maneuver_with_docking.repair(module);
            }
            proof {
                assert(self@ =~= category_repaired(old(self)@, section as int, module as int));
                reveal_with_fuel(sum_prefix, 3);
            }
            self.update_active_modules();
        }
    }

    /// The status blocks of the installed sections, at `indent`.
    fn section_statuses(&self, indent: u8) -> (r: Vec<String>)
        requires
            self.well_formed(),
            indent <= 253,
        ensures
            texts(r@) == installed_section_texts(
                self@,
                Self::section_names(),
                Self::module_names(),
                indent as nat,
                2,
            ),
    {
        let mut sections: Vec<String> = Vec::new();
        proof {
            assert(texts(sections@) =~= installed_section_texts(
                self@,
                Self::section_names(),
                Self::module_names(),
                indent as nat,
                0,
            ));
        }
        if self.section_basic_maneuver.installed() {
            sections.push(self.section_basic_maneuver.status(indent));
        }
        assert(texts(sections@) =~= installed_section_texts(
            self@,
            Self::section_names(),
            Self::module_names(),
            indent as nat,
            1,
        ));
        if self.section_maneuver_with_docking.installed() {
            sections.push(self.section_maneuver_with_docking.status(indent));
        }
        assert(texts(sections@) =~= installed_section_texts(
            self@,
            Self::section_names(),
            Self::module_names(),
            indent as nat,
            2,
        ));
        sections
    }
}

impl Name for ManeuverCategory {
    open spec fn name_view(&self) -> Seq<char> {
        "Maneuver Category"@
    }

    fn name(&self) -> (r: String) {
        String::from_str("Maneuver Category")
    }
}

impl SectionCounts for ManeuverCategory {
    open spec fn section_count(&self) -> nat {
        2
    }

    open spec fn installed_section_count(&self) -> nat {
        category_installed(self@)
    }

    fn total_sections(&self) -> (r: u16) {
        self.total_sections
    }

    fn installed_sections(&self) -> (r: u16) {
        self.installed_sections
    }
}

impl ModuleCounts for ManeuverCategory {
    open spec fn well_formed(&self) -> bool {
        &&& self.sections_well_formed()
        &&& self.totals_cached()
        &&& self.active_cached()
        &&& self@.len() == 2
        &&& category_active(self@) <= category_total(self@)
        &&& category_total(self@) <= 3
        &&& category_installed(self@) <= 2
    }

    open spec fn total_count(&self) -> nat {
        category_total(self@)
    }

    open spec fn active_count(&self) -> nat {
        category_active(self@)
    }

    fn total_modules(&self) -> (r: u16) {
        self.total_modules
    }

    fn active_modules(&self) -> (r: u16) {
        self.active_modules
    }
}

impl UpdateModules for ManeuverCategory {
    open spec fn child_counts(&self) -> Seq<int> {
        section_actives(self@)
    }

    open spec fn counts_well_formed(&self) -> bool {
        &&& self.sections_well_formed()
        &&& self.totals_cached()
        &&& self@.len() == 2
        &&& category_total(self@) <= 3
        &&& category_installed(self@) <= 2
    }

    fn active_module_counts(&self) -> (r: Vec<u16>) {
        let r = vec![
            self.section_basic_maneuver.active_modules(),
            self.section_maneuver_with_docking.active_modules(),
        ];
        proof {
            assert(counts_view(r@) =~= section_actives(self@));
        }
        r
    }

    fn update_active_modules(&mut self) {
        proof {
            reveal_with_fuel(sum_prefix, 3);
            lemma_active_le_total(self.section_basic_maneuver@);
            lemma_active_le_total(self.section_maneuver_with_docking@);
        }
        self.active_modules = self.active_module_sum();
    }
}

impl Status for ManeuverCategory {
    open spec fn status_view(&self, indent: nat) -> Seq<char> {
        category_status_text(
            self.name_view(),
            Self::section_names(),
            Self::module_names(),
            self@,
            indent,
        )
    }

    open spec fn indent_limit(&self) -> nat {
        251
    }

    fn status(&self, indent: u8) -> (r: String) {
        let sections = self.section_statuses(indent + 2);
        let keys = vec![
            String::from_str(":name"),
            String::from_str(":installed-sections"),
            String::from_str(":total-modules"),
            String::from_str(":active-modules"),
        ];
        let name = self.name();
        let values = vec![
            quote(name.as_str()),
            decimal(self.installed_sections()),
            decimal(self.total_modules()),
            decimal(self.active_modules()),
        ];
        let r = tl_station::status(
            String::from_str("category"),
            true,
            keys,
            values,
            true,
            String::from_str(":sections"),
            sections,
            indent,
        );
        proof {
            assert(texts(keys@) =~= seq![
                ":name"@,
                ":installed-sections"@,
                ":total-modules"@,
                ":active-modules"@,
            ]);
            assert(texts(values@) =~= seq![
                quoted(self.name_view()),
                decimal_text(category_installed(self@)),
                decimal_text(category_total(self@)),
                decimal_text(category_active(self@)),
            ]);
        }
        r
    }
}

impl BreakSomething for ManeuverCategory {
    open spec fn break_outcome(
        &self,
        after: Seq<SectionView>,
        outcome: Result<Seq<char>, BreakError>,
    ) -> bool {
        category_break_outcome(self@, Self::module_names(), after, outcome)
    }

    fn break_something(&mut self) -> (r: Result<String, BreakError>) {
        let pick = chance::pick(ManeuverCategory::SECTIONS_AVAILABLE as usize) as u16;
        let r = self.break_section(pick);
        proof {
            assert(section_break_outcome(
                old(self)@[pick - 1],
                Self::module_names()[pick - 1],
                self@[pick - 1],
                outcome_view(r),
            ));
        }
        r
    }
}

impl Repair for ManeuverCategory {
    open spec fn is_repairable(&self) -> bool {
        category_active(self@) < category_total(self@)
    }

    open spec fn slot_count(&self) -> nat {
        2
    }

    open spec fn slot_repairable(&self, slot: int) -> bool {
        self@[slot].needs_repair()
    }

    open spec fn slot_label(&self, slot: int) -> Seq<char> {
        repair_label(Self::section_names()[slot], self@[slot].active(), self@[slot].total())
    }

    fn repairable(&self) -> (r: bool) {
        let r = self.active_modules < self.total_modules;
        assert(r == self.is_repairable());
        r
    }

    fn slots(&self) -> (r: usize) {
        2
    }

    fn slot_is_repairable(&self, slot: usize) -> (r: bool) {
        if slot == 0 {
            self.section_basic_maneuver.repairable()
        } else {
            self.section_maneuver_with_docking.repairable()
        }
    }

    fn slot_display(&self, slot: usize) -> (r: String) {
        if slot == 0 {
            self.section_basic_maneuver.repair_display()
        } else {
            self.section_maneuver_with_docking.repair_display()
        }
    }
}

impl PowerDown for ManeuverCategory {
    open spec fn powered_down_view(&self) -> Seq<SectionView> {
        category_powered_down(self@)
    }

    fn power_down(&mut self) {
        self.section_basic_maneuver.power_down();
        self.section_maneuver_with_docking.power_down();
        proof {
            assert(self@ =~= category_powered_down(old(self)@));
            reveal_with_fuel(sum_prefix, 3);
        }
        self.update_active_modules();
    }
}

} // verus!
