use found_terminal::classic::{science, Name, RepairError, Station};
use found_terminal::section::section::{Section, SectionName};

fn small_station() -> Station {
    Station {
        name: Name::Sagan,
        version: 42,
        sections: vec![
            Section { name: SectionName::Solar, active: true },
            Section { name: SectionName::Galley, active: false },
            Section { name: SectionName::Antenna, active: true },
        ],
    }
}

#[test]
fn classic_counts_and_lists_sections() {
    let s = small_station();
    assert_eq!(s.days_left(), 2);
    assert_eq!(s.working_sections(), vec![String::from("Solar"), String::from("Antenna")]);
    assert_eq!(s.broken_sections(), vec![String::from("Galley")]);
    assert_eq!(s.log_header(), "Station \"Sagan\" v42");
}

#[test]
fn classic_break_at_position() {
    let mut s = small_station();
    assert_eq!(s.break_at(1), None);
    assert_eq!(s.days_left(), 2);
    assert_eq!(s.break_at(2), Some(SectionName::Antenna));
    assert_eq!(s.days_left(), 1);
    assert_eq!(s.broken_sections(), vec![String::from("Galley"), String::from("Antenna")]);
}

#[test]
fn classic_repair_by_name() {
    let mut s = small_station();
    assert_eq!(s.repair(SectionName::Galley), Ok(()));
    assert_eq!(s.days_left(), 3);
    assert_eq!(s.repair(SectionName::Tracking), Err(RepairError::NotFound));
    assert_eq!(s.days_left(), 3);
}

#[test]
fn classic_days_run_out() {
    let mut s = small_station();
    let mut turns = 0;
    while s.days_left() > 0 && turns < 10_000 {
        if turns % 2 == 0 {
            s.new_day();
        } else {
            science(&mut s);
        }
        turns += 1;
    }
    assert_eq!(s.days_left(), 0);
    assert_eq!(s.new_day(), None);
}

#[test]
fn classic_new_station_has_ten_sections() {
    let s = Station::new();
    assert_eq!(s.sections.len(), 10);
    assert_eq!(s.working_sections().len() + s.broken_sections().len(), 10);
    assert_eq!(s.days_left(), s.working_sections().len());
}
