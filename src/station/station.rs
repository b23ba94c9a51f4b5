//! The station: six categories of sections, a name, a version and a
//! mission day, and the day-by-day course of failures and repairs.
use vstd::prelude::*;

use crate::category::common::{
    category_active, category_break_outcome, category_installed, category_powered_down,
    category_repaired, category_status_text, category_total, fresh_sections, installation_bounded,
    installation_of, lemma_powered_down_inactive, lemma_powered_down_shape, lemma_repaired_shape,
    lemma_category_power_down_idempotent, lemma_same_shape, lemma_sum_zeros, section_actives,
};
use crate::category::{comms, crew, maneuver, misc, power, research};
use crate::chance;
use crate::section::common::{lemma_active_le_total, section_break_outcome, SectionView};
use crate::station::components::{
    counts_view, lemma_sum_le, lemma_sum_prefix_monotone, option_view, outcome_view,
    repair_choices, repair_label, sum_counts, sum_prefix, BreakError,
    BreakSomething, ModuleCounts, Name, PowerDown, Repair, RepairOption, SectionCounts, Status,
    UpdateModules,
};
use crate::station::name::{station_name_at, StationName, STATION_NAMES};
use crate::terminalisp::station::{decimal, decimal_text, quote, quoted, status_text, texts};
use crate::terminalisp::station as tl_station;

verus! {

pub trait SectionGroups {
    const SECTION_GROUPS: u8;
}

#[verifier::ext_equal]
pub struct StationView {
    pub name: StationName,
    pub version: u8,
    pub mission_day: u16,
    /// The sections of each category, in the order comms, crew, maneuver,
    /// misc, power, research.
    pub categories: Seq<Seq<SectionView>>,
}

/// How many sections there are, installed or not.
pub open spec fn station_sections(cs: Seq<Seq<SectionView>>) -> nat {
    sum_counts(cs.map_values(|c: Seq<SectionView>| c.len() as int)) as nat
}

/// How many sections are installed.
pub open spec fn station_installed(cs: Seq<Seq<SectionView>>) -> nat {
    sum_counts(cs.map_values(|c: Seq<SectionView>| category_installed(c) as int)) as nat
}

/// How many modules the installed sections hold.
pub open spec fn station_total(cs: Seq<Seq<SectionView>>) -> nat {
    sum_counts(cs.map_values(|c: Seq<SectionView>| category_total(c) as int)) as nat
}

/// The active-module count of each category.
pub open spec fn category_actives(cs: Seq<Seq<SectionView>>) -> Seq<int> {
    cs.map_values(|c: Seq<SectionView>| category_active(c) as int)
}

/// How many modules are active, over the whole station.
pub open spec fn station_active(cs: Seq<Seq<SectionView>>) -> nat {
    sum_counts(category_actives(cs)) as nat
}

pub open spec fn category_names() -> Seq<Seq<char>> {
    seq![
        "Comms Category"@,
        "Crew Category"@,
        "Maneuver Category"@,
        "Misc Category"@,
        "Power Category"@,
        "Research Category"@,
    ]
}

pub open spec fn station_section_names() -> Seq<Seq<Seq<char>>> {
    seq![
        comms::CommsCategory::section_names(),
        crew::CrewCategory::section_names(),
        maneuver::ManeuverCategory::section_names(),
        misc::MiscCategory::section_names(),
        power::PowerCategory::section_names(),
        research::ResearchCategory::section_names(),
    ]
}

pub open spec fn station_module_names() -> Seq<Seq<Seq<Seq<char>>>> {
    seq![
        comms::CommsCategory::module_names(),
        crew::CrewCategory::module_names(),
        maneuver::ManeuverCategory::module_names(),
        misc::MiscCategory::module_names(),
        power::PowerCategory::module_names(),
        research::ResearchCategory::module_names(),
    ]
}

pub open spec fn station_section_sizes() -> Seq<Seq<nat>> {
    seq![
        comms::CommsCategory::section_sizes(),
        crew::CrewCategory::section_sizes(),
        maneuver::ManeuverCategory::section_sizes(),
        misc::MiscCategory::section_sizes(),
        power::PowerCategory::section_sizes(),
        research::ResearchCategory::section_sizes(),
    ]
}

/// A category as `new(min_count, max_count)` builds it.
pub open spec fn built_with(
    c: Seq<SectionView>,
    sizes: Seq<nat>,
    min_count: u16,
    max_count: u16,
) -> bool {
    &&& installation_bounded(installation_of(c), sizes.len() as u16, min_count, max_count)
    &&& c == fresh_sections(installation_of(c), sizes)
}

/// What breaking something at the station came to.
pub enum Failure {
    /// A module broke; its name.
    SectionFailure(String),
    /// The pick landed on a section that is not installed, and nothing at
    /// the station is broken.
    SectionsOk,
    /// Nothing changed, and something at the station is broken already.
    NoEffect,
}

/// The station after breaking something in category `k`, reported as `r`.
pub open spec fn station_break_outcome(
    before: StationView,
    after: StationView,
    k: int,
    r: Failure,
) -> bool {
    &&& 0 <= k < 6
    &&& after.name == before.name
    &&& after.version == before.version
    &&& after.mission_day == before.mission_day
    &&& after.categories == before.categories.update(k, after.categories[k])
    &&& match r {
        Failure::SectionFailure(name) => category_break_outcome(
            before.categories[k],
            station_module_names()[k],
            after.categories[k],
            Ok(name@),
        ),
        Failure::SectionsOk => category_break_outcome(
            before.categories[k],
            station_module_names()[k],
            after.categories[k],
            Err(BreakError::NotInstalled),
        ) && station_active(after.categories) == station_total(after.categories),
        Failure::NoEffect => category_break_outcome(
            before.categories[k],
            station_module_names()[k],
            after.categories[k],
            Err(BreakError::NotInstalled),
        ) && station_active(after.categories) != station_total(after.categories),
    }
}

/// What a new day came to.
pub enum DayReport {
    /// The station is shut down; nothing happened.
    EndOfTransmission,
    /// A day passed: the status as it began, what broke, and how many
    /// modules are still active.
    Day { status: String, failure: Failure, days_left: u16 },
}

/// The status block of the station: its fields if `show_fields`, the blocks
/// of its categories if `show_inner`.
pub open spec fn station_status_text(
    v: StationView,
    indent: nat,
    show_fields: bool,
    show_inner: bool,
) -> Seq<char> {
    status_text(
        "station"@,
        show_fields,
        seq![":name"@, ":version"@, ":mission-day"@, ":total-modules"@, ":active-modules"@],
        seq![
            quoted(v.name.text()),
            decimal_text(v.version as nat),
            decimal_text(v.mission_day as nat),
            decimal_text(station_total(v.categories)),
            decimal_text(station_active(v.categories)),
        ],
        show_inner,
        ":categories"@,
        Seq::new(
            6,
            |i: int|
                category_status_text(
                    category_names()[i],
                    station_section_names()[i],
                    station_module_names()[i],
                    v.categories[i],
                    indent + 2,
                ),
        ),
        indent,
    )
}

/// The station after a request to repair module `module` of section
/// `section` of category `category`: nothing changes where the station is
/// shut down or that category has nothing to repair.
pub open spec fn station_repaired(
    v: StationView,
    category: int,
    section: int,
    module: int,
) -> StationView {
    if station_active(v.categories) > 0 && 0 <= category < v.categories.len() && category_active(
        v.categories[category],
    ) < category_total(v.categories[category]) {
        StationView {
            categories: v.categories.update(
                category,
                category_repaired(v.categories[category], section, module),
            ),
            ..v
        }
    } else {
        v
    }
}

/// The station one mission day later; the day count stops at its largest value.
pub open spec fn next_day(v: StationView) -> StationView {
    StationView { mission_day: v.mission_day.saturating_add(1), ..v }
}

pub open spec fn station_powered_down(v: StationView) -> StationView {
    StationView {
        categories: v.categories.map_values(|c: Seq<SectionView>| category_powered_down(c)),
        ..v
    }
}

/// Changing one category, but not its section and module totals, keeps
/// the station's totals.
pub proof fn lemma_station_same_shape(cs: Seq<Seq<SectionView>>, k: int, c: Seq<SectionView>)
    requires
        0 <= k < cs.len(),
        c.len() == cs[k].len(),
        category_total(c) == category_total(cs[k]),
        category_installed(c) == category_installed(cs[k]),
    ensures
        station_total(cs.update(k, c)) == station_total(cs),
        station_installed(cs.update(k, c)) == station_installed(cs),
        station_sections(cs.update(k, c)) == station_sections(cs),
{
    let after = cs.update(k, c);
    assert(after.map_values(|c: Seq<SectionView>| category_total(c) as int) =~= cs.map_values(
        |c: Seq<SectionView>| category_total(c) as int,
    ));
    assert(after.map_values(|c: Seq<SectionView>| category_installed(c) as int) =~= cs.map_values(
        |c: Seq<SectionView>| category_installed(c) as int,
    ));
    assert(after.map_values(|c: Seq<SectionView>| c.len() as int) =~= cs.map_values(
        |c: Seq<SectionView>| c.len() as int,
    ));
}

/// Breaking something in a category keeps its section and module totals.
proof fn lemma_break_keeps_shape(
    before: Seq<SectionView>,
    names: Seq<Seq<Seq<char>>>,
    after: Seq<SectionView>,
    outcome: Result<Seq<char>, BreakError>,
)
    requires
        category_break_outcome(before, names, after, outcome),
    ensures
        after.len() == before.len(),
        category_total(after) == category_total(before),
        category_installed(after) == category_installed(before),
{
    let i = choose|i: int|
        0 <= i < before.len() && after == before.update(i, after[i]) && #[trigger] section_break_outcome(
            before[i],
            names[i],
            after[i],
            outcome,
        );
    lemma_same_shape(before, i, after[i]);
}

/// The active modules of the station are no more than it counts in all.
proof fn lemma_station_active_le_total(cs: Seq<Seq<SectionView>>)
    requires
        forall|k: int| 0 <= k < cs.len() ==> category_active(#[trigger] cs[k]) <= category_total(cs[k]),
    ensures
        station_active(cs) <= station_total(cs),
{
    let totals = cs.map_values(|c: Seq<SectionView>| category_total(c) as int);
    assert forall|k: int| 0 <= k < cs.len() implies category_actives(cs)[k] <= #[trigger] totals[k] by {
        assert(category_active(cs[k]) <= category_total(cs[k]));
    }
    lemma_sum_le(category_actives(cs), totals);
    lemma_sum_prefix_monotone(category_actives(cs), 0, cs.len() as int);
    lemma_sum_prefix_monotone(totals, 0, cs.len() as int);
}

/// A station that has shut down stays shut down: a repair request changes
/// nothing, and powering down leaves no module active.
pub proof fn lemma_shut_down_is_final(v: StationView, category: int, section: int, module: int)
    requires
        station_active(v.categories) == 0,
    ensures
        station_repaired(v, category, section, module) == v,
        station_active(station_powered_down(v).categories) == 0,
{
    lemma_power_down_idempotent(v);
}

/// Powering the station down twice leaves it as powering it down once, with
/// no module active.
pub proof fn lemma_power_down_idempotent(v: StationView)
    ensures
        station_powered_down(station_powered_down(v)) == station_powered_down(v),
        station_active(station_powered_down(v).categories) == 0,
{
    let p = station_powered_down(v);
    assert forall|k: int| 0 <= k < p.categories.len() implies #[trigger] category_powered_down(
        p.categories[k],
    ) == p.categories[k] && category_actives(p.categories)[k] == 0 by {
        lemma_category_power_down_idempotent(v.categories[k]);
    }
    assert(station_powered_down(p) =~= p);
    lemma_sum_zeros(category_actives(p.categories));
}

pub struct Station {
    name: StationName,
    version: u8,
    mission_day: u16,
    disabled: bool,
    sections_comm: comms::CommsCategory,
    sections_crew: crew::CrewCategory,
    sections_maneuver: maneuver::ManeuverCategory,
    sections_misc: misc::MiscCategory,
    sections_power: power::PowerCategory,
    sections_research: research::ResearchCategory,
    total_sections: u16,
    installed_sections: u16,
    total_modules: u16,
    active_modules: u16,
}

impl SectionGroups for Station {
    const SECTION_GROUPS: u8 = 6;
}

impl View for Station {
    type V = StationView;

    closed spec fn view(&self) -> StationView {
        StationView {
            name: self.name,
            version: self.version,
            mission_day: self.mission_day,
            categories: seq![
                self.sections_comm@,
                self.sections_crew@,
                self.sections_maneuver@,
                self.sections_misc@,
                self.sections_power@,
                self.sections_research@,
            ],
        }
    }
}

impl Station {
    pub closed spec fn categories_well_formed(&self) -> bool {
        &&& self.sections_comm.well_formed()
        &&& self.sections_crew.well_formed()
        &&& self.sections_maneuver.well_formed()
        &&& self.sections_misc.well_formed()
        &&& self.sections_power.well_formed()
        &&& self.sections_research.well_formed()
    }

    pub closed spec fn totals_cached(&self) -> bool {
        &&& self.total_sections == station_sections(self@.categories)
        &&& self.installed_sections == station_installed(self@.categories)
        &&& self.total_modules == station_total(self@.categories)
    }

    pub closed spec fn active_cached(&self) -> bool {
        &&& self.active_modules == station_active(self@.categories)
        &&& self.disabled == (self.active_modules == 0)
    }

    /// Shut down: no module is active, and none will be again. Shutting
    /// down is final: once it has happened, repairs, breaks and new days
    /// change nothing.
    pub open spec fn is_disabled(&self) -> bool {
        station_active(self@.categories) == 0
    }

    /// Builds a station with a random name and version, at least one comms,
    /// maneuver and power section, and any number of the others.
    pub fn new() -> (r: Self)
        ensures
            r.well_formed(),
            r@.mission_day == 0,
            built_with(r@.categories[0], comms::CommsCategory::section_sizes(), 1, 100),
            built_with(r@.categories[1], crew::CrewCategory::section_sizes(), 0, 100),
            built_with(r@.categories[2], maneuver::ManeuverCategory::section_sizes(), 1, 100),
            built_with(r@.categories[3], misc::MiscCategory::section_sizes(), 0, 100),
            built_with(r@.categories[4], power::PowerCategory::section_sizes(), 1, 100),
            built_with(r@.categories[5], research::ResearchCategory::section_sizes(), 0, 100),
    {
        let name = station_name_at((chance::pick(STATION_NAMES as usize) - 1) as u16);
        let version: u8 = rand::random();
        Station::build(
            name,
            version,
            comms::CommsCategory::new(1, 100),
            crew::CrewCategory::new(0, 100),
            maneuver::ManeuverCategory::new(1, 100),
            misc::MiscCategory::new(0, 100),
            power::PowerCategory::new(1, 100),
            research::ResearchCategory::new(0, 100),
        )
    }

    /// Builds a station from its name, version and categories, on mission day 0.
    pub fn build(
        name: StationName,
        version: u8,
        comms: comms::CommsCategory,
        crew: crew::CrewCategory,
        maneuver: maneuver::ManeuverCategory,
        misc: misc::MiscCategory,
        power: power::PowerCategory,
        research: research::ResearchCategory,
    ) -> (r: Self)
        requires
            comms.well_formed(),
            crew.well_formed(),
            maneuver.well_formed(),
            misc.well_formed(),
            power.well_formed(),
            research.well_formed(),
        ensures
            r.well_formed(),
            r@ == (StationView {
                name,
                version,
                mission_day: 0,
                categories: seq![comms@, crew@, maneuver@, misc@, power@, research@],
            }),
    {
        let mut station = Station {
            name,
            version,
            mission_day: 0,
            disabled: false,
            sections_comm: comms,
            sections_crew: crew,
            sections_maneuver: maneuver,
            sections_misc: misc,
            sections_power: power,
            sections_research: research,
            total_sections: 0,
            installed_sections: 0,
            total_modules: 0,
            active_modules: 0,
        };
        station.total_sections = station.sections_comm.total_sections()
            + station.sections_crew.total_sections()
            + station.sections_maneuver.total_sections()
            + station.sections_misc.total_sections()
            + station.sections_power.total_sections()
            + station.sections_research.total_sections();
        station.installed_sections = station.sections_comm.installed_sections()
            + station.sections_crew.installed_sections()
            + station.sections_maneuver.installed_sections()
            + station.sections_misc.installed_sections()
            + station.sections_power.installed_sections()
            + station.sections_research.installed_sections();
        station.total_modules = station.sections_comm.total_modules()
            + station.sections_crew.total_modules()
            + station.sections_maneuver.total_modules()
            + station.sections_misc.total_modules()
            + station.sections_power.total_modules()
            + station.sections_research.total_modules();
        proof {
            reveal_with_fuel(sum_prefix, 7);
        }
        station.update_active_modules();
        station
    }

    /// Whether the station has shut down: no module is left active.
    pub fn is_shut_down(&self) -> (r: bool)
        requires
            self.well_formed(),
        ensures
            r == self.is_disabled(),
    {
        self.active_modules < 1
    }

    pub fn disabled(&self) -> (r: bool)
        requires
            self.well_formed(),
        ensures
            r == self.is_disabled(),
    {
        self.disabled
    }

    pub fn mission_day(&self) -> (r: u16)
        ensures
            r == self@.mission_day,
    {
        self.mission_day
    }

    pub fn version(&self) -> (r: u8)
        ensures
            r == self@.version,
    {
        self.version
    }

    pub fn station_name(&self) -> (r: StationName)
        ensures
            r == self@.name,
    {
        self.name
    }

    /// Starts a new day where the station still runs: the mission day goes up
    /// (saturating), the status is rendered, and one thing is broken.
    pub fn new_day(&mut self) -> (r: DayReport)
        requires
            old(self).well_formed(),
        ensures
            final(self).well_formed(),
            old(self).is_disabled() ==> final(self)@ == old(self)@ && r is EndOfTransmission,
            !old(self).is_disabled() ==> {
                let started = next_day(old(self)@);
                &&& r is Day
                &&& r->status@ == station_status_text(started, 0, false, false)
                &&& exists|k: int|
                    #[trigger] station_break_outcome(started, final(self)@, k, r->failure)
                &&& r->days_left == station_active(final(self)@.categories)
            },
    {
        if self.disabled {
            return DayReport::EndOfTransmission;
        }
        self.increment_mission_day();
        let status = self.status(0, false, false);
        let failure = self.break_something();
        let days_left = self.active_modules();
        DayReport::Day { status, failure, days_left }
    }

    /// Breaks something somewhere, as a day does.
    pub fn science(&mut self) -> (r: Failure)
        requires
            old(self).well_formed(),
        ensures
            final(self).well_formed(),
            old(self).is_disabled() ==> final(self)@ == old(self)@ && r is NoEffect,
            !old(self).is_disabled() ==> exists|k: int|
                #[trigger] station_break_outcome(old(self)@, final(self)@, k, r),
    {
        self.break_something()
    }

    pub fn name_display(&self) -> (r: String)
        ensures
            r@ == "Station "@ + quoted(self@.name.text()) + " v"@ + decimal_text(
                self@.version as nat,
            ),
    {
        let mut r = String::from_str("Station ");
        r.append(quote(self.name.as_str()).as_str());
        r.append(" v");
        r.append(decimal(self.version as u16).as_str());
        r
    }

    pub fn mission_day_display(&self) -> (r: String)
        ensures
            r@ == "Mission Day "@ + decimal_text(self@.mission_day as nat),
    {
        let mut r = String::from_str("Mission Day ");
        r.append(decimal(self.mission_day).as_str());
        r
    }

    fn increment_mission_day(&mut self)
        requires
            old(self).well_formed(),
        ensures
            final(self).well_formed(),
            final(self)@ == next_day(old(self)@),
    {
        self.mission_day = self.mission_day.saturating_add(1);
        proof {
            assert(self@ =~= next_day(old(self)@));
        }
    }

    /// Renders the station: its own fields if `show_fields`, and the blocks
    /// of its categories if `show_inner`.
    pub fn status(&self, indent: u8, show_fields: bool, show_inner: bool) -> (r: String)
        requires
            self.well_formed(),
            indent <= 249,
        ensures
            r@ == station_status_text(self@, indent as nat, show_fields, show_inner),
    {
        let keys = vec![
            String::from_str(":name"),
            String::from_str(":version"),
            String::from_str(":mission-day"),
            String::from_str(":total-modules"),
            String::from_str(":active-modules"),
        ];
        let values = vec![
            quote(self.name.as_str()),
            decimal(self.version as u16),
            decimal(self.mission_day),
            decimal(self.total_modules),
            decimal(self.active_modules),
        ];
        let categories = vec![
            self.sections_comm.status(indent + 2),
            self.sections_crew.status(indent + 2),
            self.sections_maneuver.status(indent + 2),
            self.sections_misc.status(indent + 2),
            self.sections_power.status(indent + 2),
            self.sections_research.status(indent + 2),
        ];
        proof {
            assert(texts(keys@) =~= seq![
                ":name"@,
                ":version"@,
                ":mission-day"@,
                ":total-modules"@,
                ":active-modules"@,
            ]);
            assert(texts(values@) =~= seq![
                quoted(self@.name.text()),
                decimal_text(self@.version as nat),
                decimal_text(self@.mission_day as nat),
                decimal_text(station_total(self@.categories)),
                decimal_text(station_active(self@.categories)),
            ]);
            assert(texts(categories@) =~= Seq::new(
                6,
                |i: int|
                    category_status_text(
                        category_names()[i],
                        station_section_names()[i],
                        station_module_names()[i],
                        self@.categories[i],
                        (indent + 2) as nat,
                    ),
            ));
        }
        tl_station::status(
            String::from_str("station"),
            show_fields,
            keys,
            values,
            show_inner,
            String::from_str(":categories"),
            categories,
            indent,
        )
    }

    /// Breaks something in a category picked at random.
    pub fn break_something(&mut self) -> (r: Failure)
        requires
            old(self).well_formed(),
        ensures
            final(self).well_formed(),
            old(self).is_disabled() ==> final(self)@ == old(self)@ && r is NoEffect,
            !old(self).is_disabled() ==> exists|k: int|
                #[trigger] station_break_outcome(old(self)@, final(self)@, k, r),
    {
        let pick = chance::pick(Station::SECTION_GROUPS as usize) as u16;
        let r = self.break_category(pick);
        proof {
            if !old(self).is_disabled() {
                assert(station_break_outcome(old(self)@, self@, pick - 1, r));
            }
        }
        r
    }

    /// Breaks something in the category at position `pick`, counted from 1
    /// in the order comms, crew, maneuver, misc, power, research. A station
    /// that has shut down is left as it is.
    pub fn break_category(&mut self, pick: u16) -> (r: Failure)
        requires
            old(self).well_formed(),
            1 <= pick <= 6,
        ensures
            final(self).well_formed(),
            old(self).is_disabled() ==> final(self)@ == old(self)@ && r is NoEffect,
            !old(self).is_disabled() ==> station_break_outcome(
                old(self)@,
                final(self)@,
                pick - 1,
                r,
            ),
    {
        if self.disabled {
            return Failure::NoEffect;
        }
        let broken = if pick == 1 {
            self.sections_comm.break_something()
        } else if pick == 2 {
            self.sections_crew.break_something()
        } else if pick == 3 {
            self.sections_maneuver.break_something()
        } else if pick == 4 {
            self.sections_misc.break_something()
        } else if pick == 5 {
            self.sections_power.break_something()
        } else {
            self.sections_research.break_something()
        };
        proof {
            let k = pick - 1;
            let after = self@.categories[k];
            lemma_break_keeps_shape(
                old(self)@.categories[k],
                station_module_names()[k],
                after,
                outcome_view(broken),
            );
            assert(self@.categories =~= old(self)@.categories.update(k, after));
            lemma_station_same_shape(old(self)@.categories, k, after);
        }
        self.update_active_modules();
        match broken {
            Ok(name) => Failure::SectionFailure(name),
            Err(_) => {
                if self.active_modules == self.total_modules {
                    Failure::SectionsOk
                } else {
                    Failure::NoEffect
                }
            },
        }
    }

    /// The sections of category `category` that can be repaired.
    pub fn category_repair_options(&self, category: usize) -> (r: Vec<RepairOption>)
        requires
            self.well_formed(),
            category < 6,
        ensures
            r@.map_values(|o: RepairOption| option_view(o)) == repair_choices(
                Seq::new(
                    station_section_sizes()[category as int].len(),
                    |i: int| self@.categories[category as int][i].needs_repair(),
                ),
                Seq::new(
                    station_section_sizes()[category as int].len(),
                    |i: int|
                        repair_label(
                            station_section_names()[category as int][i],
                            self@.categories[category as int][i].active(),
                            self@.categories[category as int][i].total(),
                        ),
                ),
                station_section_sizes()[category as int].len() as int,
            ),
    {
        if category == 0 {
            let r = self.sections_comm.repair_options();
            proof {
                let category = &self.sections_comm;
                assert(Seq::new(category.slot_count(), |i: int| category.slot_repairable(i))
                    =~= Seq::new(
                    station_section_sizes()[0].len(),
                    |i: int| self@.categories[0][i].needs_repair(),
                ));
                assert(Seq::new(category.slot_count(), |i: int| category.slot_label(i))
                    =~= Seq::new(
                    station_section_sizes()[0].len(),
                    |i: int|
                        repair_label(
                            station_section_names()[0][i],
                            self@.categories[0][i].active(),
                            self@.categories[0][i].total(),
                        ),
                ));
            }
            r
        } else if category == 1 {
            let r = self.sections_crew.repair_options();
            proof {
                let category = &self.sections_crew;
                assert(Seq::new(category.slot_count(), |i: int| category.slot_repairable(i))
                    =~= Seq::new(
                    station_section_sizes()[1].len(),
                    |i: int| self@.categories[1][i].needs_repair(),
                ));
                assert(Seq::new(category.slot_count(), |i: int| category.slot_label(i))
                    =~= Seq::new(
                    station_section_sizes()[1].len(),
                    |i: int|
                        repair_label(
                            station_section_names()[1][i],
                            self@.categories[1][i].active(),
                            self@.categories[1][i].total(),
                        ),
                ));
            }
            r
        } else if category == 2 {
            let r = self.sections_maneuver.repair_options();
            proof {
                let category = &self.sections_maneuver;
                assert(Seq::new(category.slot_count(), |i: int| category.slot_repairable(i))
                    =~= Seq::new(
                    station_section_sizes()[2].len(),
                    |i: int| self@.categories[2][i].needs_repair(),
                ));
                assert(Seq::new(category.slot_count(), |i: int| category.slot_label(i))
                    =~= Seq::new(
                    station_section_sizes()[2].len(),
                    |i: int|
                        repair_label(
                            station_section_names()[2][i],
                            self@.categories[2][i].active(),
                            self@.categories[2][i].total(),
                        ),
                ));
            }
            r
        } else if category == 3 {
            let r = self.sections_misc.repair_options();
            proof {
                let category = &self.sections_misc;
                assert(Seq::new(category.slot_count(), |i: int| category.slot_repairable(i))
                    =~= Seq::new(
                    station_section_sizes()[3].len(),
                    |i: int| self@.categories[3][i].needs_repair(),
                ));
                assert(Seq::new(category.slot_count(), |i: int| category.slot_label(i))
                    =~= Seq::new(
                    station_section_sizes()[3].len(),
                    |i: int|
                        repair_label(
                            station_section_names()[3][i],
                            self@.categories[3][i].active(),
                            self@.categories[3][i].total(),
                        ),
                ));
            }
            r
        } else if category == 4 {
            let r = self.sections_power.repair_options();
            proof {
                let category = &self.sections_power;
                assert(Seq::new(category.slot_count(), |i: int| category.slot_repairable(i))
                    =~= Seq::new(
                    station_section_sizes()[4].len(),
                    |i: int| self@.categories[4][i].needs_repair(),
                ));
                assert(Seq::new(category.slot_count(), |i: int| category.slot_label(i))
                    =~= Seq::new(
                    station_section_sizes()[4].len(),
                    |i: int|
                        repair_label(
                            station_section_names()[4][i],
                            self@.categories[4][i].active(),
                            self@.categories[4][i].total(),
                        ),
                ));
            }
            r
        } else {
            let r = self.sections_research.repair_options();
            proof {
                let category = &self.sections_research;
                assert(Seq::new(category.slot_count(), |i: int| category.slot_repairable(i))
                    =~= Seq::new(
                    station_section_sizes()[5].len(),
                    |i: int| self@.categories[5][i].needs_repair(),
                ));
                assert(Seq::new(category.slot_count(), |i: int| category.slot_label(i))
                    =~= Seq::new(
                    station_section_sizes()[5].len(),
                    |i: int|
                        repair_label(
                            station_section_names()[5][i],
                            self@.categories[5][i].active(),
                            self@.categories[5][i].total(),
                        ),
                ));
            }
            r
        }
    }

    /// The modules of section `section` of category `category` that can be repaired.
    pub fn section_repair_options(&self, category: usize, section: usize) -> (r: Vec<RepairOption>)
        requires
            self.well_formed(),
            category < 6,
            section < station_section_sizes()[category as int].len(),
        ensures
            r@.map_values(|o: RepairOption| option_view(o)) == repair_choices(
                Seq::new(
                    station_section_sizes()[category as int][section as int],
                    |i: int| self@.categories[category as int][section as int].module_repairable(i),
                ),
                station_module_names()[category as int][section as int],
                station_section_sizes()[category as int][section as int] as int,
            ),
    {
        if category == 0 {
            self.sections_comm.section_repair_options(section)
        } else if category == 1 {
            self.sections_crew.section_repair_options(section)
        } else if category == 2 {
            self.sections_maneuver.section_repair_options(section)
        } else if category == 3 {
            self.sections_misc.section_repair_options(section)
        } else if category == 4 {
            self.sections_power.section_repair_options(section)
        } else {
            self.sections_research.section_repair_options(section)
        }
    }

    /// Repairs module `module` of section `section` of category `category`,
    /// all counted from 0, where the station still runs, that category has
    /// something to repair, that section is repairable and the module broken.
    pub fn repair(&mut self, category: usize, section: usize, module: usize)
        requires
            old(self).well_formed(),
        ensures
            final(self).well_formed(),
            final(self)@ == station_repaired(
                old(self)@,
                category as int,
                section as int,
                module as int,
            ),
    {
        if category < 6 && self.slot_is_repairable(category) {
            if category == 0 {
                self.sections_comm.repair(section, module);
            } else if category == 1 {
                self.sections_crew.repair(section, module);
            } else if category == 2 {
                self.sections_maneuver.repair(section, module);
            } else if category == 3 {
                self.sections_misc.repair(section, module);
            } else if category == 4 {
                self.sections_power.repair(section, module);
            } else {
                self.sections_research.repair(section, module);
            }
            proof {
                let k = category as int;
                lemma_repaired_shape(old(self)@.categories[k], section as int, module as int);
                assert(self@ =~= station_repaired(
                    old(self)@,
                    category as int,
                    section as int,
                    module as int,
                ));
                lemma_station_same_shape(old(self)@.categories, k, self@.categories[k]);
            }
            self.update_active_modules();
        }
    }
}

/// At every level of a well-formed station no more modules are active than
/// are counted there, and each level's active count is the sum of the
/// active counts one level down.
pub proof fn lemma_counts_consistent(s: &Station)
    requires
        s.well_formed(),
    ensures
        s.active_count() <= s.total_count(),
        s.active_count() == sum_counts(category_actives(s@.categories)),
        forall|k: int|
            0 <= k < s@.categories.len() ==> category_active(#[trigger] s@.categories[k]) <= category_total(
                s@.categories[k],
            ) && category_active(s@.categories[k]) == sum_counts(section_actives(s@.categories[k])),
        forall|k: int, j: int|
            0 <= k < s@.categories.len() && 0 <= j < s@.categories[k].len() ==> (
            #[trigger] s@.categories[k][j]).active() <= s@.categories[k][j].total()
                && s@.categories[k][j].active() == sum_counts(s@.categories[k][j].counts()),
{
    assert forall|k: int| 0 <= k < s@.categories.len() implies category_active(
        #[trigger] s@.categories[k],
    ) <= category_total(s@.categories[k]) && category_active(s@.categories[k]) == sum_counts(
        section_actives(s@.categories[k]),
    ) by {
                assert(s.sections_comm.active_count()
                    <= s.sections_comm.total_count());
                assert(s.sections_crew.active_count()
                    <= s.sections_crew.total_count());
                assert(s.sections_maneuver.active_count()
                    <= s.sections_maneuver.total_count());
                assert(s.sections_misc.active_count()
                    <= s.sections_misc.total_count());
                assert(s.sections_power.active_count()
                    <= s.sections_power.total_count());
                assert(s.sections_research.active_count()
                    <= s.sections_research.total_count());
        lemma_sum_prefix_monotone(
            section_actives(s@.categories[k]),
            0,
            s@.categories[k].len() as int,
        );
    }
    lemma_sum_prefix_monotone(category_actives(s@.categories), 0, 6);
    assert forall|k: int, j: int| 0 <= k < s@.categories.len() && 0 <= j < s@.categories[k].len() implies (
    #[trigger] s@.categories[k][j]).active() <= s@.categories[k][j].total() && s@.categories[k][j].active()
        == sum_counts(s@.categories[k][j].counts()) by {
        lemma_active_le_total(s@.categories[k][j]);
    }
}

impl Name for Station {
    open spec fn name_view(&self) -> Seq<char> {
        self@.name.text()
    }

    fn name(&self) -> (r: String) {
        self.name.to_string()
    }
}

impl SectionCounts for Station {
    open spec fn section_count(&self) -> nat {
        station_sections(self@.categories)
    }

    open spec fn installed_section_count(&self) -> nat {
        station_installed(self@.categories)
    }

    fn total_sections(&self) -> (r: u16) {
        self.total_sections
    }

    fn installed_sections(&self) -> (r: u16) {
        self.installed_sections
    }
}

impl ModuleCounts for Station {
    open spec fn well_formed(&self) -> bool {
        &&& self.categories_well_formed()
        &&& self.totals_cached()
        &&& self.active_cached()
        &&& station_active(self@.categories) <= station_total(self@.categories)
        &&& station_total(self@.categories) <= 36
    }

    open spec fn total_count(&self) -> nat {
        station_total(self@.categories)
    }

    open spec fn active_count(&self) -> nat {
        station_active(self@.categories)
    }

    fn total_modules(&self) -> (r: u16) {
        self.total_modules
    }

    fn active_modules(&self) -> (r: u16) {
        self.active_modules
    }
}

impl UpdateModules for Station {
    open spec fn child_counts(&self) -> Seq<int> {
        category_actives(self@.categories)
    }

    open spec fn counts_well_formed(&self) -> bool {
        &&& self.categories_well_formed()
        &&& self.totals_cached()
        &&& station_total(self@.categories) <= 36
    }

    fn active_module_counts(&self) -> (r: Vec<u16>) {
        let r = vec![
            self.sections_comm.active_modules(),
            self.sections_crew.active_modules(),
            self.sections_maneuver.active_modules(),
            self.sections_misc.active_modules(),
            self.sections_power.active_modules(),
            self.sections_research.active_modules(),
        ];
        proof {
            assert(counts_view(r@) =~= category_actives(self@.categories));
        }
        r
    }

    /// Recounts the active modules, and shuts the station down where none is left.
    fn update_active_modules(&mut self) {
        proof {
            assert forall|k: int| 0 <= k < 6 implies category_active(#[trigger] self@.categories[k])
                <= category_total(self@.categories[k]) by {
                assert(self.sections_comm.active_count()
                    <= self.sections_comm.total_count());
                assert(self.sections_crew.active_count()
                    <= self.sections_crew.total_count());
                assert(self.sections_maneuver.active_count()
                    <= self.sections_maneuver.total_count());
                assert(self.sections_misc.active_count()
                    <= self.sections_misc.total_count());
                assert(self.sections_power.active_count()
                    <= self.sections_power.total_count());
                assert(self.sections_research.active_count()
                    <= self.sections_research.total_count());
            }
            lemma_station_active_le_total(self@.categories);
        }
        self.active_modules = self.active_module_sum();
        self.disabled = self.active_modules == 0;
    }
}

impl Repair for Station {
    open spec fn is_repairable(&self) -> bool {
        !self.is_disabled() && station_active(self@.categories) < station_total(self@.categories)
    }

    open spec fn slot_count(&self) -> nat {
        6
    }

    open spec fn slot_repairable(&self, slot: int) -> bool {
        !self.is_disabled() && category_active(self@.categories[slot]) < category_total(
            self@.categories[slot],
        )
    }

    open spec fn slot_label(&self, slot: int) -> Seq<char> {
        repair_label(
            category_names()[slot],
            category_active(self@.categories[slot]),
            category_total(self@.categories[slot]),
        )
    }

    fn repairable(&self) -> (r: bool) {
        let r = !self.disabled && self.active_modules < self.total_modules;
        assert(r == self.is_repairable());
        r
    }

    fn slots(&self) -> (r: usize) {
        6
    }

    fn slot_is_repairable(&self, slot: usize) -> (r: bool) {
        !self.disabled && if slot == 0 {
            self.sections_comm.repairable()
        } else if slot == 1 {
            self.sections_crew.repairable()
        } else if slot == 2 {
            self.sections_maneuver.repairable()
        } else if slot == 3 {
            self.sections_misc.repairable()
        } else if slot == 4 {
            self.sections_power.repairable()
        } else {
            self.sections_research.repairable()
        }
    }

    fn slot_display(&self, slot: usize) -> (r: String) {
        if slot == 0 {
            self.sections_comm.repair_display()
        } else if slot == 1 {
            self.sections_crew.repair_display()
        } else if slot == 2 {
            self.sections_maneuver.repair_display()
        } else if slot == 3 {
            self.sections_misc.repair_display()
        } else if slot == 4 {
            self.sections_power.repair_display()
        } else {
            self.sections_research.repair_display()
        }
    }
}

impl PowerDown for Station {
    open spec fn powered_down_view(&self) -> StationView {
        station_powered_down(self@)
    }

    /// Powers every module down, which shuts the station down.
    fn power_down(&mut self) {
        self.sections_comm.power_down();
        self.sections_crew.power_down();
        self.sections_maneuver.power_down();
        self.sections_misc.power_down();
        self.sections_power.power_down();
        self.sections_research.power_down();
        proof {
            lemma_powered_down_shape(old(self)@.categories[0]);
            lemma_powered_down_inactive(old(self)@.categories[0]);
            lemma_powered_down_shape(old(self)@.categories[1]);
            lemma_powered_down_inactive(old(self)@.categories[1]);
            lemma_powered_down_shape(old(self)@.categories[2]);
            lemma_powered_down_inactive(old(self)@.categories[2]);
            lemma_powered_down_shape(old(self)@.categories[3]);
            lemma_powered_down_inactive(old(self)@.categories[3]);
            lemma_powered_down_shape(old(self)@.categories[4]);
            lemma_powered_down_inactive(old(self)@.categories[4]);
            lemma_powered_down_shape(old(self)@.categories[5]);
            lemma_powered_down_inactive(old(self)@.categories[5]);
            assert(self@ =~= station_powered_down(old(self)@));
            assert forall|i: int| 0 <= i < 6 implies #[trigger] category_actives(
                self@.categories,
            )[i] == 0 by {
            }
            lemma_sum_zeros(category_actives(self@.categories));
            reveal_with_fuel(sum_prefix, 7);
        }
        self.update_active_modules();
    }
}

} // verus!
