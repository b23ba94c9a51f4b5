//! The research category.
use vstd::prelude::*;

use crate::category::common::{
    category_active, category_break_outcome, category_installed, category_powered_down,
    category_repaired, category_status_text, category_total, fresh_sections, installation_bounded,
    installation_of, installed_section_texts, random_bools, section_actives, SectionsAvailable,
};
use crate::chance;
use crate::section::research;
use crate::section::common::{
    flag_of, lemma_active_le_total, section_break_outcome, Installed, SectionView,
};
use crate::station::components::{
    counts_view, option_view, outcome_view, repair_choices, repair_label, sum_prefix, BreakError,
    BreakSomething, ModuleCounts, Name, PowerDown, Repair, RepairOption, SectionCounts, Status,
    UpdateModules,
};
use crate::terminalisp::station::{decimal, decimal_text, quote, quoted, texts};
use crate::terminalisp::station as tl_station;

verus! {

pub struct ResearchCategory {
    section_astronomy: research::AstronomySection,
    section_greenhouse: research::GreenhouseSection,
    section_weather_observation: research::WeatherObservationSection,
    total_sections: u16,
    installed_sections: u16,
    total_modules: u16,
    active_modules: u16,
}

impl SectionsAvailable for ResearchCategory {
    const SECTIONS_AVAILABLE: u16 = 3;
}

impl View for ResearchCategory {
    type V = Seq<SectionView>;

    closed spec fn view(&self) -> Seq<SectionView> {
        seq![
            self.section_astronomy@,
            self.section_greenhouse@,
            self.section_weather_observation@,
        ]
    }
}

impl ResearchCategory {
    /// The names of the sections, in order.
    pub open spec fn section_names() -> Seq<Seq<char>> {
        seq!["Astronomy Section"@, "Greenhouse Section"@, "Weather Observation Section"@]
    }

    /// The names of the modules of each section.
    pub open spec fn module_names() -> Seq<Seq<Seq<char>>> {
        seq![
            seq!["Astronomy Lab"@, "Mainframe"@],
            seq!["Greenhouse"@, "Mainframe"@, "Airlock"@, "Temperature Control"@],
            seq!["Weather Observation"@, "Mainframe"@],
        ]
    }

    /// How many modules each section holds.
    pub open spec fn section_sizes() -> Seq<nat> {
        seq![2, 4, 2]
    }

    pub closed spec fn sections_well_formed(&self) -> bool {
        &&& self.section_astronomy.well_formed()
        &&& self.section_greenhouse.well_formed()
        &&& self.section_weather_observation.well_formed()
    }

    pub closed spec fn totals_cached(&self) -> bool {
        &&& self.total_sections == 3
        &&& self.installed_sections == category_installed(self@)
        &&& self.total_modules == category_total(self@)
    }

    pub closed spec fn active_cached(&self) -> bool {
        self.active_modules == category_active(self@)
    }

    /// Builds the category with between `min_count` and `max_count` of its
    /// sections installed, as `random_bools` chooses them.
    pub fn new(min_count: u16, max_count: u16) -> (r: Self)
        ensures
            r.well_formed(),
            installation_bounded(installation_of(r@), 3, min_count, max_count),
            r@ == fresh_sections(installation_of(r@), Self::section_sizes()),
    {
        let installation = random_bools(ResearchCategory::SECTIONS_AVAILABLE, min_count, max_count);
        let r = ResearchCategory::with_installation(&installation);
        proof {
            assert(installation_of(r@) =~= installation@);
        }
        r
    }

    /// Builds the category with the section at each position installed as
    /// `installation` says.
    pub fn with_installation(installation: &Vec<bool>) -> (r: Self)
        requires
            installation@.len() == 3,
        ensures
            r.well_formed(),
            r@ == fresh_sections(installation@, Self::section_sizes()),
    {
        let mut c = ResearchCategory {
            section_astronomy: research::AstronomySection::new(installation[0]),
            section_greenhouse: research::GreenhouseSection::new(installation[1]),
            section_weather_observation: research::WeatherObservationSection::new(installation[2]),
            total_sections: ResearchCategory::SECTIONS_AVAILABLE,
            installed_sections: 0,
            total_modules: 0,
            active_modules: 0,
        };
        c.installed_sections = flag_of(c.section_astronomy.installed())
            + flag_of(c.section_greenhouse.installed())
            + flag_of(c.section_weather_observation.installed());
        let section_astronomy_total: u16 = if c.section_astronomy.installed() {
            c.section_astronomy.total_modules()
        } else {
            0
        };
        let section_greenhouse_total: u16 = if c.section_greenhouse.installed() {
            c.section_greenhouse.total_modules()
        } else {
            0
        };
        let section_weather_observation_total: u16 = if c.section_weather_observation.installed() {
            c.section_weather_observation.total_modules()
        } else {
            0
        };
        c.total_modules = section_astronomy_total
            + section_greenhouse_total
            + section_weather_observation_total;
        proof {
            reveal_with_fuel(sum_prefix, 4);
            assert(c@ =~= fresh_sections(installation@, Self::section_sizes()));
        }
        c.update_active_modules();
        c
    }

    /// Breaks a module of the section at position `pick`, counted from 1;
    /// an error where that section is not installed.
    pub fn break_section(&mut self, pick: u16) -> (r: Result<String, BreakError>)
        requires
            old(self).well_formed(),
            1 <= pick <= 3,
        ensures
            final(self).well_formed(),
            final(self)@ == old(self)@.update(pick - 1, final(self)@[pick - 1]),
            section_break_outcome(
                old(self)@[pick - 1],
                Self::module_names()[pick - 1],
                final(self)@[pick - 1],
                outcome_view(r),
            ),
    {
        let r = if pick == 1 {
            self.section_astronomy.break_something()
        } else if pick == 2 {
            self.section_greenhouse.break_something()
        } else {
            self.section_weather_observation.break_something()
        };
        proof {
            assert(self@ =~= old(self)@.update(pick - 1, self@[pick - 1]));
            reveal_with_fuel(sum_prefix, 4);
        }
        self.update_active_modules();
        r
    }

    /// The modules of the section at `section` that can be repaired.
    pub fn section_repair_options(&self, section: usize) -> (r: Vec<RepairOption>)
        requires
            self.well_formed(),
            section < 3,
        ensures
            r@.map_values(|o: RepairOption| option_view(o)) == repair_choices(
                Seq::new(
                    Self::section_sizes()[section as int],
                    |i: int| self@[section as int].module_repairable(i),
                ),
                Self::module_names()[section as int],
                Self::section_sizes()[section as int] as int,
            ),
    {
        if section == 0 {
            let r = self.section_astronomy.repair_options();
            proof {
                let section = &self.section_astronomy;
                assert(Seq::new(section.slot_count(), |i: int| section.slot_repairable(i))
                    =~= Seq::new(
                    Self::section_sizes()[0],
                    |i: int| self@[0].module_repairable(i),
                ));
                assert(Seq::new(section.slot_count(), |i: int| section.slot_label(i))
                    =~= Self::module_names()[0]);
            }
            r
        } else if section == 1 {
            let r = self.section_greenhouse.repair_options();
            proof {
                let section = &self.section_greenhouse;
                assert(Seq::new(section.slot_count(), |i: int| section.slot_repairable(i))
                    =~= Seq::new(
                    Self::section_sizes()[1],
                    |i: int| self@[1].module_repairable(i),
                ));
                assert(Seq::new(section.slot_count(), |i: int| section.slot_label(i))
                    =~= Self::module_names()[1]);
            }
            r
        } else {
            let r = self.section_weather_observation.repair_options();
            proof {
                let section = &self.section_weather_observation;
                assert(Seq::new(section.slot_count(), |i: int| section.slot_repairable(i))
                    =~= Seq::new(
                    Self::section_sizes()[2],
                    |i: int| self@[2].module_repairable(i),
                ));
                assert(Seq::new(section.slot_count(), |i: int| section.slot_label(i))
                    =~= Self::module_names()[2]);
            }
            r
        }
    }

    /// Repairs module `module` of section `section`, both counted from 0,
    /// where that section is repairable and the module broken.
    pub fn repair(&mut self, section: usize, module: usize)
        requires
            old(self).well_formed(),
        ensures
            final(self).well_formed(),
            final(self)@ == category_repaired(old(self)@, section as int, module as int),
    {
        if section < 3 && self.slot_is_repairable(section) {
            if section == 0 {
                self.section_astronomy.repair(module);
            } else if section == 1 {
                self.section_greenhouse.repair(module);
            } else {
                self.section_weather_observation.repair(module);
            }
            proof {
                assert(self@ =~= category_repaired(old(self)@, section as int, module as int));
                reveal_with_fuel(sum_prefix, 4);
            }
            self.update_active_modules();
        }
    }

    /// The status blocks of the installed sections, at `indent`.
    fn section_statuses(&self, indent: u8) -> (r: Vec<String>)
        requires
            self.well_formed(),
            indent <= 253,
        ensures
            texts(r@) == installed_section_texts(
                self@,
                Self::section_names(),
                Self::module_names(),
                indent as nat,
                3,
            ),
    {
        let mut sections: Vec<String> = Vec::new();
        proof {
            assert(texts(sections@) =~= installed_section_texts(
                self@,
                Self::section_names(),
                Self::module_names(),
                indent as nat,
                0,
            ));
        }
        if self.section_astronomy.installed() {
            sections.push(self.section_astronomy.status(indent));
        }
        assert(texts(sections@) =~= installed_section_texts(
            self@,
            Self::section_names(),
            Self::module_names(),
            indent as nat,
            1,
        ));
        if self.section_greenhouse.installed() {
            sections.push(self.section_greenhouse.status(indent));
        }
        assert(texts(sections@) =~= installed_section_texts(
            self@,
            Self::section_names(),
            Self::module_names(),
            indent as nat,
            2,
        ));
        if self.section_weather_observation.installed() {
            sections.push(self.section_weather_observation.status(indent));
        }
        assert(texts(sections@) =~= installed_section_texts(
            self@,
            Self::section_names(),
            Self::module_names(),
            indent as nat,
            3,
        ));
        sections
    }
}

impl Name for ResearchCategory {
    open spec fn name_view(&self) -> Seq<char> {
        "Research Category"@
    }

    fn name(&self) -> (r: String) {
        String::from_str("Research Category")
    }
}

impl SectionCounts for ResearchCategory {
    open spec fn section_count(&self) -> nat {
        3
    }

    open spec fn installed_section_count(&self) -> nat {
        category_installed(self@)
    }

    fn total_sections(&self) -> (r: u16) {
        self.total_sections
    }

    fn installed_sections(&self) -> (r: u16) {
        self.installed_sections
    }
}

impl ModuleCounts for ResearchCategory {
    open spec fn well_formed(&self) -> bool {
        &&& self.sections_well_formed()
        &&& self.totals_cached()
        &&& self.active_cached()
        &&& self@.len() == 3
        &&& category_active(self@) <= category_total(self@)
        &&& category_total(self@) <= 8
        &&& category_installed(self@) <= 3
    }

    open spec fn total_count(&self) -> nat {
        category_total(self@)
    }

    open spec fn active_count(&self) -> nat {
        category_active(self@)
    }

    fn total_modules(&self) -> (r: u16) {
        self.total_modules
    }

    fn active_modules(&self) -> (r: u16) {
        self.active_modules
    }
}

impl UpdateModules for ResearchCategory {
    open spec fn child_counts(&self) -> Seq<int> {
        section_actives(self@)
    }

    open spec fn counts_well_formed(&self) -> bool {
        &&& self.sections_well_formed()
        &&& self.totals_cached()
        &&& self@.len() == 3
        &&& category_total(self@) <= 8
        &&& category_installed(self@) <= 3
    }

    fn active_module_counts(&self) -> (r: Vec<u16>) {
        let r = vec![
            self.section_astronomy.active_modules(),
            self.section_greenhouse.active_modules(),
            self.section_weather_observation.active_modules(),
        ];
        proof {
            assert(counts_view(r@) =~= section_actives(self@));
        }
        r
    }

    fn update_active_modules(&mut self) {
        proof {
            reveal_with_fuel(sum_prefix, 4);
            lemma_active_le_total(self.section_astronomy@);
            lemma_active_le_total(self.section_greenhouse@);
            lemma_active_le_total(self.section_weather_observation@);
        }
        self.active_modules = self.active_module_sum();
    }
}

impl Status for ResearchCategory {
    open spec fn status_view(&self, indent: nat) -> Seq<char> {
        category_status_text(
            self.name_view(),
            Self::section_names(),
            Self::module_names(),
            self@,
            indent,
        )
    }

    open spec fn indent_limit(&self) -> nat {
        251
    }

    fn status(&self, indent: u8) -> (r: String) {
        let sections = self.section_statuses(indent + 2);
        let keys = vec![
            String::from_str(":name"),
            String::from_str(":installed-sections"),
            String::from_str(":total-modules"),
            String::from_str(":active-modules"),
        ];
        let name = self.name();
        let values = vec![
            quote(name.as_str()),
            decimal(self.installed_sections()),
            decimal(self.total_modules()),
            decimal(self.active_modules()),
        ];
        let r = tl_station::status(
            String::from_str("category"),
            true,
            keys,
            values,
            true,
            String::from_str(":sections"),
            sections,
            indent,
        );
        proof {
            assert(texts(keys@) =~= seq![
                ":name"@,
                ":installed-sections"@,
                ":total-modules"@,
                ":active-modules"@,
            ]);
            assert(texts(values@) =~= seq![
                quoted(self.name_view()),
                decimal_text(category_installed(self@)),
                decimal_text(category_total(self@)),
                decimal_text(category_active(self@)),
            ]);
        }
        r
    }
}

impl BreakSomething for ResearchCategory {
    open spec fn break_outcome(
        &self,
        after: Seq<SectionView>,
        outcome: Result<Seq<char>, BreakError>,
    ) -> bool {
        category_break_outcome(self@, Self::module_names(), after, outcome)
    }

    fn break_something(&mut self) -> (r: Result<String, BreakError>) {
        let pick = chance::pick(ResearchCategory::SECTIONS_AVAILABLE as usize) as u16;
        let r = self.break_section(pick);
        proof {
            assert(section_break_outcome(
                old(self)@[pick - 1],
                Self::module_names()[pick - 1],
                self@[pick - 1],
                outcome_view(r),
            ));
        }
        r
    }
}

impl Repair for ResearchCategory {
    open spec fn is_repairable(&self) -> bool {
        category_active(self@) < category_total(self@)
    }

    open spec fn slot_count(&self) -> nat {
        3
    }

    open spec fn slot_repairable(&self, slot: int) -> bool {
        self@[slot].needs_repair()
    }

    open spec fn slot_label(&self, slot: int) -> Seq<char> {
        repair_label(Self::section_names()[slot], self@[slot].active(), self@[slot].total())
    }

    fn repairable(&self) -> (r: bool) {
        let r = self.active_modules < self.total_modules;
        assert(r == self.is_repairable());
        r
    }

    fn slots(&self) -> (r: usize) {
        3
    }

    fn slot_is_repairable(&self, slot: usize) -> (r: bool) {
        if slot == 0 {
            self.section_astronomy.repairable()
        } else if slot == 1 {
            self.section_greenhouse.repairable()
        } else {
            self.section_weather_observation.repairable()
        }
    }

    fn slot_display(&self, slot: usize) -> (r: String) {
        if slot == 0 {
            self.section_astronomy.repair_display()
        } else if slot == 1 {
            self.section_greenhouse.repair_display()
        } else {
            self.section_weather_observation.repair_display()
        }
    }
}

impl PowerDown for ResearchCategory {
    open spec fn powered_down_view(&self) -> Seq<SectionView> {
        category_powered_down(self@)
    }

    fn power_down(&mut self) {
        self.section_astronomy.power_down();
        self.section_greenhouse.power_down();
        self.section_weather_observation.power_down();
        proof {
            assert(self@ =~= category_powered_down(old(self)@));
            reveal_with_fuel(sum_prefix, 4);
        }
        self.update_active_modules();
    }
}

} // verus!
