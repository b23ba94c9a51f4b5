use found_terminal::category::comms::CommsCategory;
use found_terminal::category::crew::CrewCategory;
use found_terminal::category::maneuver::ManeuverCategory;
use found_terminal::category::misc::MiscCategory;
use found_terminal::category::power::PowerCategory;
use found_terminal::category::research::ResearchCategory;
use found_terminal::journal::Journal;
use found_terminal::station::components::{ModuleCounts, PowerDown, Repair, SectionCounts};
use found_terminal::station::name::StationName;
use found_terminal::station::station::{DayReport, Failure, Station};
use found_terminal::terminalisp::journal::{journal_entry_status_error, journal_entry_status_saved};
use found_terminal::terminalisp::station::{decimal, quote, status};

fn empty_station() -> Station {
    Station::build(
        StationName::Akira,
        7,
        CommsCategory::new(0, 0),
        CrewCategory::new(0, 0),
        ManeuverCategory::new(0, 0),
        MiscCategory::new(0, 0),
        PowerCategory::new(0, 0),
        ResearchCategory::new(0, 0),
    )
}

fn comms_only_station() -> Station {
    Station::build(
        StationName::Nova,
        1,
        CommsCategory::with_installation(&vec![true, false, false]),
        CrewCategory::with_installation(&vec![false]),
        ManeuverCategory::with_installation(&vec![false, false]),
        MiscCategory::with_installation(&vec![false]),
        PowerCategory::with_installation(&vec![false, false, false, false, false]),
        ResearchCategory::with_installation(&vec![false, false, false]),
    )
}

#[test]
fn station_with_nothing_installed_is_shut_down_at_once() {
    let mut s = empty_station();
    assert_eq!(s.active_modules(), 0);
    assert_eq!(s.total_modules(), 0);
    assert!(s.is_shut_down());
    assert!(s.disabled());
    assert!(matches!(s.new_day(), DayReport::EndOfTransmission));
    assert_eq!(s.mission_day(), 0);
}

#[test]
fn new_station_is_running() {
    for _ in 0..20 {
        let s = Station::new();
        assert_eq!(s.mission_day(), 0);
        assert!(!s.is_shut_down());
        assert!(!s.disabled());
        assert_eq!(s.total_sections(), 15);
        assert!(s.installed_sections() >= 3);
        assert_eq!(s.active_modules(), s.total_modules());
    }
}

#[test]
fn new_day_breaks_one_thing() {
    let mut s = comms_only_station();
    assert_eq!(s.active_modules(), 1);
    match s.new_day() {
        DayReport::Day { status, failure, days_left } => {
            assert_eq!(status, "(station)\n");
            assert_eq!(days_left, s.active_modules());
            match failure {
                Failure::SectionFailure(name) => {
                    assert_eq!(name, "Antenna");
                    assert_eq!(days_left, 0);
                },
                Failure::SectionsOk => assert_eq!(days_left, 1),
                Failure::NoEffect => panic!("nothing was broken before"),
            }
        },
        DayReport::EndOfTransmission => panic!("the station was running"),
    }
    assert_eq!(s.mission_day(), 1);
    assert_eq!(s.mission_day_display(), "Mission Day 1");
}

#[test]
fn breaking_the_last_module_shuts_the_station_down() {
    let mut s = comms_only_station();
    assert!(matches!(s.break_category(2), Failure::SectionsOk));
    match s.break_category(1) {
        Failure::SectionFailure(name) => assert!(name == "Antenna" || name == "Tracking" || name == "Transponder"),
        _ => {},
    }
    while !s.is_shut_down() {
        s.science();
    }
    assert!(s.disabled());
    assert!(matches!(s.break_category(1), Failure::NoEffect));
    let options = s.repair_options();
    assert!(options.is_empty());
    s.repair(0, 0, 0);
    assert!(s.is_shut_down());
    assert!(matches!(s.new_day(), DayReport::EndOfTransmission));
}

#[test]
fn quiet_break_when_something_is_broken() {
    let mut s = Station::build(
        StationName::Nova,
        1,
        CommsCategory::with_installation(&vec![true, true, false]),
        CrewCategory::with_installation(&vec![false]),
        ManeuverCategory::with_installation(&vec![false, false]),
        MiscCategory::with_installation(&vec![false]),
        PowerCategory::with_installation(&vec![false, false, false, false, false]),
        ResearchCategory::with_installation(&vec![false, false, false]),
    );
    assert_eq!(s.active_modules(), 2);
    while s.active_modules() == 2 {
        s.break_category(1);
    }
    assert!(matches!(s.break_category(2), Failure::NoEffect));
}

#[test]
fn station_repair_by_position() {
    let mut s = comms_only_station();
    while s.active_modules() == 1 {
        s.break_category(1);
    }
    // the last module is gone: the station is down and stays down
    assert!(s.is_shut_down());
    let mut s = Station::build(
        StationName::Nova,
        1,
        CommsCategory::with_installation(&vec![true, true, false]),
        CrewCategory::with_installation(&vec![false]),
        ManeuverCategory::with_installation(&vec![false, false]),
        MiscCategory::with_installation(&vec![false]),
        PowerCategory::with_installation(&vec![false, false, false, false, false]),
        ResearchCategory::with_installation(&vec![false, false, false]),
    );
    while s.active_modules() == 2 {
        s.break_category(1);
    }
    assert!(Repair::repairable(&s));
    let options = s.repair_options();
    assert_eq!(options.len(), 1);
    assert_eq!(options[0].slot, 0);
    assert_eq!(options[0].label, "Comms Category (1/2)");
    let sections = s.category_repair_options(0);
    assert_eq!(sections.len(), 1);
    let section = sections[0].slot;
    let modules = s.section_repair_options(0, section);
    assert_eq!(modules.len(), 1);
    s.repair(0, section, modules[0].slot);
    assert_eq!(s.active_modules(), 2);
    assert!(!Repair::repairable(&s));
}

#[test]
fn station_power_down_twice_is_power_down_once() {
    let mut s = Station::new();
    s.power_down();
    assert_eq!(s.active_modules(), 0);
    assert!(s.is_shut_down());
    let once = s.status(0, true, true);
    s.power_down();
    assert_eq!(s.status(0, true, true), once);
    assert!(s.disabled());
}

#[test]
fn station_texts() {
    let s = empty_station();
    assert_eq!(s.name_display(), "Station \"Akira\" v7");
    assert_eq!(s.mission_day_display(), "Mission Day 0");
    assert_eq!(
        s.status(0, true, false),
        "(station :name \"Akira\" :version 7 :mission-day 0 :total-modules 0 :active-modules 0)\n"
    );
    assert_eq!(StationName::Shelley.as_str(), "Shelley");
}

#[test]
fn decimal_and_quote() {
    assert_eq!(decimal(0), "0");
    assert_eq!(decimal(305), "305");
    assert_eq!(decimal(65535), "65535");
    assert_eq!(quote("x"), "\"x\"");
}

#[test]
fn status_block_nested() {
    let r = status(
        String::from("a"),
        true,
        vec![String::from(":k")],
        vec![String::from("v"), String::from("ignored")],
        true,
        String::from(":inner"),
        vec![String::from("x\n")],
        1,
    );
    assert_eq!(r, "    (a\n        :k v\n        :inner (\nx\n        )\n    )\n");
    let r = status(String::from("b"), false, vec![], vec![], false, String::new(), vec![], 0);
    assert_eq!(r, "(b)\n");
}

#[test]
fn journal_keeps_entries_in_order() {
    let mut j = Journal::new(String::from("STATION LOG"), String::from("Station \"Nova\" v1"));
    assert!(j.entries().is_empty());
    j.add_entry(String::from("Mission Day 0"));
    j.add_entry(String::from("all fine"));
    assert_eq!(j.entries(), &vec![String::from("Mission Day 0"), String::from("all fine")]);
    assert_eq!(j.header(), "STATION LOG");
    assert_eq!(j.title(), "Station \"Nova\" v1");
}

#[test]
fn journal_status_lines() {
    assert_eq!(journal_entry_status_saved(), "(journal-entry-status 'SAVED)");
    assert_eq!(
        journal_entry_status_error(String::from("oops")),
        "(journal-entry-status 'ERROR \"oops\")"
    );
}
