//! The power category.
use vstd::prelude::*;

use crate::category::common::{
    category_active, category_break_outcome, category_installed, category_powered_down,
    category_repaired, category_status_text, category_total, fresh_sections, installation_bounded,
    installation_of, installed_section_texts, random_bools, section_actives, SectionsAvailable,
};
use crate::chance;
use crate::section::power;
use crate::section::common::{
    flag_of, lemma_active_le_total, section_break_outcome, Installed, SectionView,
};
use crate::station::components::{
    counts_view, option_view, outcome_view, repair_choices, repair_label, sum_prefix, BreakError,
    BreakSomething, ModuleCounts, Name, PowerDown, Repair, RepairOption, SectionCounts, Status,
    UpdateModules,
};
use crate::terminalisp::station::{decimal, decimal_text, quote, quoted, texts};
use crate::terminalisp::station as tl_station;

verus! {

pub struct PowerCategory {
    section_fossil_power: power::FossilPowerSection,
    section_fusion_power: power::FusionPowerSection,
    section_nuclear_power: power::NuclearPowerSection,
    section_radiation_power: power::RadiationPowerSection,
    section_solar_power: power::SolarPowerSection,
    total_sections: u16,
    installed_sections: u16,
    total_modules: u16,
    active_modules: u16,
}

impl SectionsAvailable for PowerCategory {
    const SECTIONS_AVAILABLE: u16 = 5;
}

impl View for PowerCategory {
    type V = Seq<SectionView>;

    closed spec fn view(&self) -> Seq<SectionView> {
        seq![
            self.section_fossil_power@,
            self.section_fusion_power@,
            self.section_nuclear_power@,
            self.section_radiation_power@,
            self.section_solar_power@,
        ]
    }
}

impl PowerCategory {
    /// The names of the sections, in order.
    pub open spec fn section_names() -> Seq<Seq<char>> {
        seq![
            "Fossil Power Section"@,
            "Fusion Power Section"@,
            "Nuclear Power Section"@,
            "Radiation Power Section"@,
            "Solar Power Section"@,
        ]
    }

    /// The names of the modules of each section.
    pub open spec fn module_names() -> Seq<Seq<Seq<char>>> {
        seq![
            seq!["Combustion Turbine Generator"@, "Fossil Fuel Storage"@],
            seq!["Fusion Reactor"@, "Steam Turbine Generator"@, "Fusion Component Storage"@],
            seq![
                "Nuclear Fuel Storage"@,
                "Nuclear Reactor"@,
                "Steam Turbine Generator"@,
                "Nuclear Waste Storage"@,
            ],
            seq!["Radiation Mirrors"@],
            seq!["Solar Panels"@],
        ]
    }

    /// How many modules each section holds.
    pub open spec fn section_sizes() -> Seq<nat> {
        seq![2, 3, 4, 1, 1]
    }

    pub closed spec fn sections_well_formed(&self) -> bool {
        &&& self.section_fossil_power.well_formed()
        &&& self.section_fusion_power.well_formed()
        &&& self.section_nuclear_power.well_formed()
        &&& self.section_radiation_power.well_formed()
        &&& self.section_solar_power.well_formed()
    }

    pub closed spec fn totals_cached(&self) -> bool {
        &&& self.total_sections == 5
        &&& self.installed_sections == category_installed(self@)
        &&& self.total_modules == category_total(self@)
    }

    pub closed spec fn active_cached(&self) -> bool {
        self.active_modules == category_active(self@)
    }

    /// Builds the category with between `min_count` and `max_count` of its
    /// sections installed, as `random_bools` chooses them.
    pub fn new(min_count: u16, max_count: u16) -> (r: Self)
        ensures
            r.well_formed(),
            installation_bounded(installation_of(r@), 5, min_count, max_count),
            r@ == fresh_sections(installation_of(r@), Self::section_sizes()),
    {
        let installation = random_bools(PowerCategory::SECTIONS_AVAILABLE, min_count, max_count);
        let r = PowerCategory::with_installation(&installation);
        proof {
            assert(installation_of(r@) =~= installation@);
        }
        r
    }

    /// Builds the category with the section at each position installed as
    /// `installation` says.
    pub fn with_installation(installation: &Vec<bool>) -> (r: Self)
        requires
            installation@.len() == 5,
        ensures
            r.well_formed(),
            r@ == fresh_sections(installation@, Self::section_sizes()),
    {
        let mut c = PowerCategory {
            section_fossil_power: power::FossilPowerSection::new(installation[0]),
            section_fusion_power: power::FusionPowerSection::new(installation[1]),
            section_nuclear_power: power::NuclearPowerSection::new(installation[2]),
            section_radiation_power: power::RadiationPowerSection::new(installation[3]),
            section_solar_power: power::SolarPowerSection::new(installation[4]),
            total_sections: PowerCategory::SECTIONS_AVAILABLE,
            installed_sections: 0,
            total_modules: 0,
            active_modules: 0,
        };
        c.installed_sections = flag_of(c.section_fossil_power.installed())
            + flag_of(c.section_fusion_power.installed())
            + flag_of(c.section_nuclear_power.installed())
            + flag_of(c.section_radiation_power.installed())
            + flag_of(c.section_solar_power.installed());
        let section_fossil_power_total: u16 = if c.section_fossil_power.installed() {
            c.section_fossil_power.total_modules()
        } else {
            0
        };
        let section_fusion_power_total: u16 = if c.section_fusion_power.installed() {
            c.section_fusion_power.total_modules()
        } else {
            0
        };
        let section_nuclear_power_total: u16 = if c.section_nuclear_power.installed() {
            c.section_nuclear_power.total_modules()
        } else {
            0
        };
        let section_radiation_power_total: u16 = if c.section_radiation_power.installed() {
            c.section_radiation_power.total_modules()
        } else {
            0
        };
        let section_solar_power_total: u16 = if c.section_solar_power.installed() {
            c.section_solar_power.total_modules()
        } else {
            0
        };
        c.total_modules = section_fossil_power_total
            + section_fusion_power_total
            + section_nuclear_power_total
            + section_radiation_power_total
            + section_solar_power_total;
        proof {
            reveal_with_fuel(sum_prefix, 6);
            assert(c@ =~= fresh_sections(installation@, Self::section_sizes()));
        }
        c.update_active_modules();
        c
    }

    /// Breaks a module of the section at position `pick`, counted from 1;
    /// an error where that section is not installed.
    pub fn break_section(&mut self, pick: u16) -> (r: Result<String, BreakError>)
        requires
            old(self).well_formed(),
            1 <= pick <= 5,
        ensures
            final(self).well_formed(),
            final(self)@ == old(self)@.update(pick - 1, final(self)@[pick - 1]),
            section_break_outcome(
                old(self)@[pick - 1],
                Self::module_names()[pick - 1],
                final(self)@[pick - 1],
                outcome_view(r),
            ),
    {
        let r = if pick == 1 {
            self.section_fossil_power.break_something()
        } else if pick == 2 {
            self.section_fusion_power.break_something()
        } else if pick == 3 {
            self.section_nuclear_power.break_something()
        } else if pick == 4 {
            self.section_radiation_power.break_something()
        } else {
            self.section_solar_power.break_something()
        };
        proof {
            assert(self@ =~= old(self)@.update(pick - 1, self@[pick - 1]));
            reveal_with_fuel(sum_prefix, 6);
        }
        self.update_active_modules();
        r
    }

    /// The modules of the section at `section` that can be repaired.
    pub fn section_repair_options(&self, section: usize) -> (r: Vec<RepairOption>)
        requires
            self.well_formed(),
            section < 5,
        ensures
            r@.map_values(|o: RepairOption| option_view(o)) == repair_choices(
                Seq::new(
                    Self::section_sizes()[section as int],
                    |i: int| self@[section as int].module_repairable(i),
                ),
                Self::module_names()[section as int],
                Self::section_sizes()[section as int] as int,
            ),
    {
        if section == 0 {
            let r = self.section_fossil_power.repair_options();
            proof {
                let section = &self.section_fossil_power;
                assert(Seq::new(section.slot_count(), |i: int| section.slot_repairable(i))
                    =~= Seq::new(
                    Self::section_sizes()[0],
                    |i: int| self@[0].module_repairable(i),
                ));
                assert(Seq::new(section.slot_count(), |i: int| section.slot_label(i))
                    =~= Self::module_names()[0]);
            }
            r
        } else if section == 1 {
            let r = self.section_fusion_power.repair_options();
            proof {
                let section = &self.section_fusion_power;
                assert(Seq::new(section.slot_count(), |i: int| section.slot_repairable(i))
                    =~= Seq::new(
                    Self::section_sizes()[1],
                    |i: int| self@[1].module_repairable(i),
                ));
                assert(Seq::new(section.slot_count(), |i: int| section.slot_label(i))
                    =~= Self::module_names()[1]);
            }
            r
        } else if section == 2 {
            let r = self.section_nuclear_power.repair_options();
            proof {
                let section = &self.section_nuclear_power;
                assert(Seq::new(section.slot_count(), |i: int| section.slot_repairable(i))
                    =~= Seq::new(
                    Self::section_sizes()[2],
                    |i: int| self@[2].module_repairable(i),
                ));
                assert(Seq::new(section.slot_count(), |i: int| section.slot_label(i))
                    =~= Self::module_names()[2]);
            }
            r
        } else if section == 3 {
            let r = self.section_radiation_power.repair_options();
            proof {
                let section = &self.section_radiation_power;
                assert(Seq::new(section.slot_count(), |i: int| section.slot_repairable(i))
                    =~= Seq::new(
                    Self::section_sizes()[3],
                    |i: int| self@[3].module_repairable(i),
                ));
                assert(Seq::new(section.slot_count(), |i: int| section.slot_label(i))
                    =~= Self::module_names()[3]);
            }
            r
        } else {
            let r = self.section_solar_power.repair_options();
            proof {
                let section = &self.section_solar_power;
                assert(Seq::new(section.slot_count(), |i: int| section.slot_repairable(i))
                    =~= Seq::new(
                    Self::section_sizes()[4],
                    |i: int| self@[4].module_repairable(i),
                ));
                assert(Seq::new(section.slot_count(), |i: int| section.slot_label(i))
                    =~= Self::module_names()[4]);
            }
            r
        }
    }

    /// Repairs module `module` of section `section`, both counted from 0,
    /// where that section is repairable and the module broken.
    pub fn repair(&mut self, section: usize, module: usize)
        requires
            old(self).well_formed(),
        ensures
            final(self).well_formed(),
            final(self)@ == category_repaired(old(self)@, section as int, module as int),
    {
        if section < 5 && self.slot_is_repairable(section) {
            if section == 0 {
                self.section_fossil_power.repair(module);
            } else if section == 1 {
                self.section_fusion_power.repair(module);
            } else if section == 2 {
                self.section_nuclear_power.repair(module);
            } else if section == 3 {
                self.section_radiation_power.repair(module);
            } else {
                self.section_solar_power.repair(module);
            }
            proof {
                assert(self@ =~= category_repaired(old(self)@, section as int, module as int));
                reveal_with_fuel(sum_prefix, 6);
            }
            self.update_active_modules();
        }
    }

    /// The status blocks of the installed sections, at `indent`.
    fn section_statuses(&self, indent: u8) -> (r: Vec<String>)
        requires
            self.well_formed(),
            indent <= 253,
        ensures
            texts(r@) == installed_section_texts(
                self@,
                Self::section_names(),
                Self::module_names(),
                indent as nat,
                5,
            ),
    {
        let mut sections: Vec<String> = Vec::new();
        proof {
            assert(texts(sections@) =~= installed_section_texts(
                self@,
                Self::section_names(),
                Self::module_names(),
                indent as nat,
                0,
            ));
        }
        if self.section_fossil_power.installed() {
            sections.push(self.section_fossil_power.status(indent));
        }
        assert(texts(sections@) =~= installed_section_texts(
            self@,
            Self::section_names(),
            Self::module_names(),
            indent as nat,
            1,
        ));
        if self.section_fusion_power.installed() {
            sections.push(self.section_fusion_power.status(indent));
        }
        assert(texts(sections@) =~= installed_section_texts(
            self@,
            Self::section_names(),
            Self::module_names(),
            indent as nat,
            2,
        ));
        if self.section_nuclear_power.installed() {
            sections.push(self.section_nuclear_power.status(indent));
        }
        assert(texts(sections@) =~= installed_section_texts(
            self@,
            Self::section_names(),
            Self::module_names(),
            indent as nat,
            3,
        ));
        if self.section_radiation_power.installed() {
            sections.push(self.section_radiation_power.status(indent));
        }
        assert(texts(sections@) =~= installed_section_texts(
            self@,
            Self::section_names(),
            Self::module_names(),
            indent as nat,
            4,
        ));
        if self.section_solar_power.installed() {
            sections.push(self.section_solar_power.status(indent));
        }
        assert(texts(sections@) =~= installed_section_texts(
            self@,
            Self::section_names(),
            Self::module_names(),
            indent as nat,
            5,
        ));
        sections
    }
}

impl Name for PowerCategory {
    open spec fn name_view(&self) -> Seq<char> {
        "Power Category"@
    }

    fn name(&self) -> (r: String) {
        String::from_str("Power Category")
    }
}

impl SectionCounts for PowerCategory {
    open spec fn section_count(&self) -> nat {
        5
    }

    open spec fn installed_section_count(&self) -> nat {
        category_installed(self@)
    }

    fn total_sections(&self) -> (r: u16) {
        self.total_sections
    }

    fn installed_sections(&self) -> (r: u16) {
        self.installed_sections
    }
}

impl ModuleCounts for PowerCategory {
    open spec fn well_formed(&self) -> bool {
        &&& self.sections_well_formed()
        &&& self.totals_cached()
        &&& self.active_cached()
        &&& self@.len() == 5
        &&& category_active(self@) <= category_total(self@)
        &&& category_total(self@) <= 11
        &&& category_installed(self@) <= 5
    }

    open spec fn total_count(&self) -> nat {
        category_total(self@)
    }

    open spec fn active_count(&self) -> nat {
        category_active(self@)
    }

    fn total_modules(&self) -> (r: u16) {
        self.total_modules
    }

    fn active_modules(&self) -> (r: u16) {
        self.active_modules
    }
}

impl UpdateModules for PowerCategory {
    open spec fn child_counts(&self) -> Seq<int> {
        section_actives(self@)
    }

    open spec fn counts_well_formed(&self) -> bool {
        &&& self.sections_well_formed()
        &&& self.totals_cached()
        &&& self@.len() == 5
        &&& category_total(self@) <= 11
        &&& category_installed(self@) <= 5
    }

    fn active_module_counts(&self) -> (r: Vec<u16>) {
        let r = vec![
            self.section_fossil_power.active_modules(),
            self.section_fusion_power.active_modules(),
            self.section_nuclear_power.active_modules(),
            self.section_radiation_power.active_modules(),
            self.section_solar_power.active_modules(),
        ];
        proof {
            assert(counts_view(r@) =~= section_actives(self@));
        }
        r
    }

    fn update_active_modules(&mut self) {
        proof {
            reveal_with_fuel(sum_prefix, 6);
            lemma_active_le_total(self.section_fossil_power@);
            lemma_active_le_total(self.section_fusion_power@);
            lemma_active_le_total(self.section_nuclear_power@);
            lemma_active_le_total(self.section_radiation_power@);
            lemma_active_le_total(self.section_solar_power@);
        }
        self.active_modules = self.active_module_sum();
    }
}

impl Status for PowerCategory {
    open spec fn status_view(&self, indent: nat) -> Seq<char> {
        category_status_text(
            self.name_view(),
            Self::section_names(),
            Self::module_names(),
            self@,
            indent,
        )
    }

    open spec fn indent_limit(&self) -> nat {
        251
    }

    fn status(&self, indent: u8) -> (r: String) {
        let sections = self.section_statuses(indent + 2);
        let keys = vec![
            String::from_str(":name"),
            String::from_str(":installed-sections"),
            String::from_str(":total-modules"),
            String::from_str(":active-modules"),
        ];
        let name = self.name();
        let values = vec![
            quote(name.as_str()),
            decimal(self.installed_sections()),
            decimal(self.total_modules()),
            decimal(self.active_modules()),
        ];
        let r = tl_station::status(
            String::from_str("category"),
            true,
            keys,
            values,
            true,
            String::from_str(":sections"),
            sections,
            indent,
        );
        proof {
            assert(texts(keys@) =~= seq![
                ":name"@,
                ":installed-sections"@,
                ":total-modules"@,
                ":active-modules"@,
            ]);
            assert(texts(values@) =~= seq![
                quoted(self.name_view()),
                decimal_text(category_installed(self@)),
                decimal_text(category_total(self@)),
                decimal_text(category_active(self@)),
            ]);
        }
        r
    }
}

impl BreakSomething for PowerCategory {
    open spec fn break_outcome(
        &self,
        after: Seq<SectionView>,
        outcome: Result<Seq<char>, BreakError>,
    ) -> bool {
        category_break_outcome(self@, Self::module_names(), after, outcome)
    }

    fn break_something(&mut self) -> (r: Result<String, BreakError>) {
        let pick = chance::pick(PowerCategory::SECTIONS_AVAILABLE as usize) as u16;
        let r = self.break_section(pick);
        proof {
            assert(section_break_outcome(
                old(self)@[pick - 1],
                Self::module_names()[pick - 1],
                self@[pick - 1],
                outcome_view(r),
            ));
        }
        r
    }
}

impl Repair for PowerCategory {
    open spec fn is_repairable(&self) -> bool {
        category_active(self@) < category_total(self@)
    }

    open spec fn slot_count(&self) -> nat {
        5
    }

    open spec fn slot_repairable(&self, slot: int) -> bool {
        self@[slot].needs_repair()
    }

    open spec fn slot_label(&self, slot: int) -> Seq<char> {
        repair_label(Self::section_names()[slot], self@[slot].active(), self@[slot].total())
    }

    fn repairable(&self) -> (r: bool) {
        let r = self.active_modules < self.total_modules;
        assert(r == self.is_repairable());
        r
    }

    fn slots(&self) -> (r: usize) {
        5
    }

    fn slot_is_repairable(&self, slot: usize) -> (r: bool) {
        if slot == 0 {
            self.section_fossil_power.repairable()
        } else if slot == 1 {
            self.section_fusion_power.repairable()
        } else if slot == 2 {
            self.section_nuclear_power.repairable()
        } else if slot == 3 {
            self.section_radiation_power.repairable()
        } else {
            self.section_solar_power.repairable()
        }
    }

    fn slot_display(&self, slot: usize) -> (r: String) {
        if slot == 0 {
            self.section_fossil_power.repair_display()
        } else if slot == 1 {
            self.section_fusion_power.repair_display()
        } else if slot == 2 {
            self.section_nuclear_power.repair_display()
        } else if slot == 3 {
            self.section_radiation_power.repair_display()
        } else {
            self.section_solar_power.repair_display()
        }
    }
}

impl PowerDown for PowerCategory {
    open spec fn powered_down_view(&self) -> Seq<SectionView> {
        category_powered_down(self@)
    }

    fn power_down(&mut self) {
        self.section_fossil_power.power_down();
        self.section_fusion_power.power_down();
        self.section_nuclear_power.power_down();
        self.section_radiation_power.power_down();
        self.section_solar_power.power_down();
        proof {
            assert(self@ =~= category_powered_down(old(self)@));
            reveal_with_fuel(sum_prefix, 6);
        }
        self.update_active_modules();
    }
}

} // verus!
