//! The crew category.
use vstd::prelude::*;

use crate::category::common::{
    category_active, category_break_outcome, category_installed, category_powered_down,
    category_repaired, category_status_text, category_total, fresh_sections, installation_bounded,
    installation_of, installed_section_texts, random_bools, section_actives, SectionsAvailable,
};
use crate::chance;
use crate::section::crew;
use crate::section::common::{
    flag_of, lemma_active_le_total, section_break_outcome, Installed, SectionView,
};
use crate::station::components::{
    counts_view, option_view, outcome_view, repair_choices, repair_label, sum_prefix, BreakError,
    BreakSomething, ModuleCounts, Name, PowerDown, Repair, RepairOption, SectionCounts, Status,
    UpdateModules,
};
use crate::terminalisp::station::{decimal, decimal_text, quote, quoted, texts};
use crate::terminalisp::station as tl_station;

verus! {

pub struct CrewCategory {
    section_crew_module: crew::CrewModuleSection,
    total_sections: u16,
    installed_sections: u16,
    total_modules: u16,
    active_modules: u16,
}

impl SectionsAvailable for CrewCategory {
    const SECTIONS_AVAILABLE: u16 = 1;
}

impl View for CrewCategory {
    type V = Seq<SectionView>;

    closed spec fn view(&self) -> Seq<SectionView> {
        seq![self.section_crew_module@]
    }
}

impl CrewCategory {
    /// The names of the sections, in order.
    pub open spec fn section_names() -> Seq<Seq<char>> {
        seq!["Crew Module Section"@]
    }

    /// The names of the modules of each section.
    pub open spec fn module_names() -> Seq<Seq<Seq<char>>> {
        seq![
            seq![
                "Airlock"@,
                "Command Module"@,
                "Galley"@,
                "Life Support"@,
                "Sleeping Pods"@,
                "Space Suits"@,
                "Temperature Control"@,
                "Water Reclamation"@,
            ],
        ]
    }

    /// How many modules each section holds.
    pub open spec fn section_sizes() -> Seq<nat> {
        seq![8]
    }

    pub closed spec fn sections_well_formed(&self) -> bool {
        &&& self.section_crew_module.well_formed()
    }

    pub closed spec fn totals_cached(&self) -> bool {
        &&& self.total_sections == 1
        &&& self.installed_sections == category_installed(self@)
        &&& self.total_modules == category_total(self@)
    }

    pub closed spec fn active_cached(&self) -> bool {
        self.active_modules == category_active(self@)
    }

    /// Builds the category with between `min_count` and `max_count` of its
    /// sections installed, as `random_bools` chooses them.
    pub fn new(min_count: u16, max_count: u16) -> (r: Self)
        ensures
            r.well_formed(),
            installation_bounded(installation_of(r@), 1, min_count, max_count),
            r@ == fresh_sections(installation_of(r@), Self::section_sizes()),
    {
        let installation = random_bools(CrewCategory::SECTIONS_AVAILABLE, min_count, max_count);
        let r = CrewCategory::with_installation(&installation);
        proof {
            assert(installation_of(r@) =~= installation@);
        }
        r
    }

    /// Builds the category with the section at each position installed as
    /// `installation` says.
    pub fn with_installation(installation: &Vec<bool>) -> (r: Self)
        requires
            installation@.len() == 1,
        ensures
            r.well_formed(),
            r@ == fresh_sections(installation@, Self::section_sizes()),
    {
        let mut c = CrewCategory {
            section_crew_module: crew::CrewModuleSection::new(installation[0]),
            total_sections: CrewCategory::SECTIONS_AVAILABLE,
            installed_sections: 0,
            total_modules: 0,
            active_modules: 0,
        };
        c.installed_sections = flag_of(c.section_crew_module.installed());
        let section_crew_module_total: u16 = if c.section_crew_module.installed() {
            c.section_crew_module.total_modules()
        } else {
            0
        };
        c.total_modules = section_crew_module_total;
        proof {
            reveal_with_fuel(sum_prefix, 2);
            assert(c@ =~= fresh_sections(installation@, Self::section_sizes()));
        }
        c.update_active_modules();
        c
    }

    /// Breaks a module of the section at position `pick`, counted from 1;
    /// an error where that section is not installed.
    pub fn break_section(&mut self, pick: u16) -> (r: Result<String, BreakError>)
        requires
            old(self).well_formed(),
            1 <= pick <= 1,
        ensures
            final(self).well_formed(),
            final(self)@ == old(self)@.update(pick - 1, final(self)@[pick - 1]),
            section_break_outcome(
                old(self)@[pick - 1],
                Self::module_names()[pick - 1],
                final(self)@[pick - 1],
                outcome_view(r),
            ),
    {
        let r = self.section_crew_module.break_something();
        proof {
            assert(self@ =~= old(self)@.update(pick - 1, self@[pick - 1]));
            reveal_with_fuel(sum_prefix, 2);
        }
        self.update_active_modules();
        r
    }

    /// The modules of the section at `section` that can be repaired.
    pub fn section_repair_options(&self, section: usize) -> (r: Vec<RepairOption>)
        requires
            self.well_formed(),
            section < 1,
        ensures
            r@.map_values(|o: RepairOption| option_view(o)) == repair_choices(
                Seq::new(
                    Self::section_sizes()[section as int],
                    |i: int| self@[section as int].module_repairable(i),
                ),
                Self::module_names()[section as int],
                Self::section_sizes()[section as int] as int,
            ),
    {
        let r = self.section_crew_module.repair_options();
        proof {
            let section = &self.section_crew_module;
            assert(Seq::new(section.slot_count(), |i: int| section.slot_repairable(i))
                =~= Seq::new(
                Self::section_sizes()[0],
                |i: int| self@[0].module_repairable(i),
            ));
            assert(Seq::new(section.slot_count(), |i: int| section.slot_label(i))
                =~= Self::module_names()[0]);
        }
        r
    }

    /// Repairs module `module` of section `section`, both counted from 0,
    /// where that section is repairable and the module broken.
    pub fn repair(&mut self, section: usize, module: usize)
        requires
            old(self).well_formed(),
        ensures
            final(self).well_formed(),
            final(self)@ == category_repaired(old(self)@, section as int, module as int),
    {
        if section < 1 && self.slot_is_repairable(section) {
            self.section_crew_module.repair(module);
            proof {
                assert(self@ =~= category_repaired(old(self)@, section as int, module as int));
                reveal_with_fuel(sum_prefix, 2);
            }
            self.update_active_modules();
        }
    }

    /// The status blocks of the installed sections, at `indent`.
    fn section_statuses(&self, indent: u8) -> (r: Vec<String>)
        requires
            self.well_formed(),
            indent <= 253,
        ensures
            texts(r@) == installed_section_texts(
                self@,
                Self::section_names(),
                Self::module_names(),
                indent as nat,
                1,
            ),
    {
        let mut sections: Vec<String> = Vec::new();
        proof {
            assert(texts(sections@) =~= installed_section_texts(
                self@,
                Self::section_names(),
                Self::module_names(),
                indent as nat,
                0,
            ));
        }
        if self.section_crew_module.installed() {
            sections.push(self.section_crew_module.status(indent));
        }
        assert(texts(sections@) =~= installed_section_texts(
            self@,
            Self::section_names(),
            Self::module_names(),
            indent as nat,
            1,
        ));
        sections
    }
}

impl Name for CrewCategory {
    open spec fn name_view(&self) -> Seq<char> {
        "Crew Category"@
    }

    fn name(&self) -> (r: String) {
        String::from_str("Crew Category")
    }
}

impl SectionCounts for CrewCategory {
    open spec fn section_count(&self) -> nat {
        1
    }

    open spec fn installed_section_count(&self) -> nat {
        category_installed(self@)
    }

    fn total_sections(&self) -> (r: u16) {
        self.total_sections
    }

    fn installed_sections(&self) -> (r: u16) {
        self.installed_sections
    }
}

impl ModuleCounts for CrewCategory {
    open spec fn well_formed(&self) -> bool {
        &&& self.sections_well_formed()
        &&& self.totals_cached()
        &&& self.active_cached()
        &&& self@.len() == 1
        &&& category_active(self@) <= category_total(self@)
        &&& category_total(self@) <= 8
        &&& category_installed(self@) <= 1
    }

    open spec fn total_count(&self) -> nat {
        category_total(self@)
    }

    open spec fn active_count(&self) -> nat {
        category_active(self@)
    }

    fn total_modules(&self) -> (r: u16) {
        self.total_modules
    }

    fn active_modules(&self) -> (r: u16) {
        self.active_modules
    }
}

impl UpdateModules for CrewCategory {
    open spec fn child_counts(&self) -> Seq<int> {
        section_actives(self@)
    }

    open spec fn counts_well_formed(&self) -> bool {
        &&& self.sections_well_formed()
        &&& self.totals_cached()
        &&& self@.len() == 1
        &&& category_total(self@) <= 8
        &&& category_installed(self@) <= 1
    }

    fn active_module_counts(&self) -> (r: Vec<u16>) {
        let r = vec![
            self.section_crew_module.active_modules(),
        ];
        proof {
            assert(counts_view(r@) =~= section_actives(self@));
        }
        r
    }

    fn update_active_modules(&mut self) {
        proof {
            reveal_with_fuel(sum_prefix, 2);
            lemma_active_le_total(self.section_crew_module@);
        }
        self.active_modules = self.active_module_sum();
    }
}

impl Status for CrewCategory {
    open spec fn status_view(&self, indent: nat) -> Seq<char> {
        category_status_text(
            self.name_view(),
            Self::section_names(),
            Self::module_names(),
            self@,
            indent,
        )
    }

    open spec fn indent_limit(&self) -> nat {
        251
    }

    fn status(&self, indent: u8) -> (r: String) {
        let sections = self.section_statuses(indent + 2);
        let keys = vec![
            String::from_str(":name"),
            String::from_str(":installed-sections"),
            String::from_str(":total-modules"),
            String::from_str(":active-modules"),
        ];
        let name = self.name();
        let values = vec![
            quote(name.as_str()),
            decimal(self.installed_sections()),
            decimal(self.total_modules()),
            decimal(self.active_modules()),
        ];
        let r = tl_station::status(
            String::from_str("category"),
            true,
            keys,
            values,
            true,
            String::from_str(":sections"),
            sections,
            indent,
        );
        proof {
            assert(texts(keys@) =~= seq![
                ":name"@,
                ":installed-sections"@,
                ":total-modules"@,
                ":active-modules"@,
            ]);
            assert(texts(values@) =~= seq![
                quoted(self.name_view()),
                decimal_text(category_installed(self@)),
                decimal_text(category_total(self@)),
                decimal_text(category_active(self@)),
            ]);
        }
        r
    }
}

impl BreakSomething for CrewCategory {
    open spec fn break_outcome(
        &self,
        after: Seq<SectionView>,
        outcome: Result<Seq<char>, BreakError>,
    ) -> bool {
        category_break_outcome(self@, Self::module_names(), after, outcome)
    }

    fn break_something(&mut self) -> (r: Result<String, BreakError>) {
        let pick = chance::pick(CrewCategory::SECTIONS_AVAILABLE as usize) as u16;
        let r = self.break_section(pick);
        proof {
            assert(section_break_outcome(
                old(self)@[pick - 1],
                Self::module_names()[pick - 1],
                self@[pick - 1],
                outcome_view(r),
            ));
        }
        r
    }
}

impl Repair for CrewCategory {
    open spec fn is_repairable(&self) -> bool {
        category_active(self@) < category_total(self@)
    }

    open spec fn slot_count(&self) -> nat {
        1
    }

    open spec fn slot_repairable(&self, slot: int) -> bool {
        self@[slot].needs_repair()
    }

    open spec fn slot_label(&self, slot: int) -> Seq<char> {
        repair_label(Self::section_names()[slot], self@[slot].active(), self@[slot].total())
    }

    fn repairable(&self) -> (r: bool) {
        let r = self.active_modules < self.total_modules;
        assert(r == self.is_repairable());
        r
    }

    fn slots(&self) -> (r: usize) {
        1
    }

    fn slot_is_repairable(&self, slot: usize) -> (r: bool) {
        self.section_crew_module.repairable()
    }

    fn slot_display(&self, slot: usize) -> (r: String) {
        self.section_crew_module.repair_display()
    }
}

impl PowerDown for CrewCategory {
    open spec fn powered_down_view(&self) -> Seq<SectionView> {
        category_powered_down(self@)
    }

    fn power_down(&mut self) {
        self.section_crew_module.power_down();
        proof {
            assert(self@ =~= category_powered_down(old(self)@));
            reveal_with_fuel(sum_prefix, 2);
        }
        self.update_active_modules();
    }
}

} // verus!
