use found_terminal::category::comms::CommsCategory;
use found_terminal::category::common::{random_bools, random_positions, SectionsAvailable};
use found_terminal::category::misc::MiscCategory;
use found_terminal::category::power::PowerCategory;
use found_terminal::station::components::{
    BreakError, BreakSomething, ModuleCounts, PowerDown, Repair, SectionCounts, Status,
};

fn count_true(v: &[bool]) -> usize {
    v.iter().filter(|b| **b).count()
}

#[test]
fn random_bools_respects_its_bounds() {
    for _ in 0..200 {
        for count in 0..6u16 {
            for min_count in 0..7u16 {
                for max_count in 0..7u16 {
                    let r = random_bools(count, min_count, max_count);
                    assert_eq!(r.len(), count as usize);
                    let trues = count_true(&r);
                    if min_count < count {
                        assert!(trues >= min_count as usize);
                    }
                    assert!(trues <= std::cmp::max(max_count, count) as usize);
                    if max_count < count {
                        let forced_true = if min_count < count { min_count } else { 0 };
                        let forced_false = std::cmp::min(count - max_count, count - forced_true);
                        assert!(r.len() - trues >= forced_false as usize);
                    }
                }
            }
        }
    }
}

#[test]
fn random_bools_with_no_room_is_all_false() {
    for _ in 0..50 {
        assert_eq!(random_bools(3, 0, 0), vec![false, false, false]);
    }
}

#[test]
fn random_bools_with_equal_bounds_below_count_is_exact() {
    for _ in 0..50 {
        let r = random_bools(5, 2, 2);
        assert_eq!(count_true(&r), 2);
    }
}

#[test]
fn random_bools_with_min_above_max_keeps_the_forced_true() {
    for _ in 0..50 {
        let r = random_bools(5, 4, 2);
        assert_eq!(r.len(), 5);
        assert_eq!(count_true(&r), 4);
    }
}

#[test]
fn random_bools_of_nothing_is_empty() {
    assert!(random_bools(0, 3, 3).is_empty());
}

#[test]
fn random_positions_stay_in_range() {
    for _ in 0..200 {
        let r = random_positions(1, 5);
        assert!(r.len() >= 1 && r.len() < 5);
        assert!(r.iter().all(|p| *p >= 1 && *p <= 5));
    }
}

#[test]
fn category_with_no_room_installs_nothing() {
    for _ in 0..20 {
        let c = CommsCategory::new(0, 0);
        assert_eq!(c.total_sections(), 3);
        assert_eq!(c.installed_sections(), 0);
        assert_eq!(c.total_modules(), 0);
        assert_eq!(c.active_modules(), 0);
    }
}

#[test]
fn category_bounds_hold() {
    for _ in 0..50 {
        let c = PowerCategory::new(2, 3);
        assert_eq!(PowerCategory::SECTIONS_AVAILABLE, 5);
        assert!(c.installed_sections() >= 2 && c.installed_sections() <= 3);
        assert_eq!(c.active_modules(), c.total_modules());
    }
}

#[test]
fn category_counts_follow_its_installation() {
    let c = CommsCategory::with_installation(&vec![true, false, true]);
    assert_eq!(c.total_sections(), 3);
    assert_eq!(c.installed_sections(), 2);
    assert_eq!(c.total_modules(), 2);
    assert_eq!(c.active_modules(), 2);
    assert!(!Repair::repairable(&c));
    assert_eq!(c.repair_display(), "Comms Category (2/2)");
}

#[test]
fn category_break_by_position() {
    let mut c = CommsCategory::with_installation(&vec![true, false, true]);
    assert_eq!(c.break_section(2), Err(BreakError::NotInstalled));
    assert_eq!(c.active_modules(), 2);
    assert_eq!(c.break_section(3).unwrap(), "Transponder");
    assert_eq!(c.active_modules(), 1);
    assert!(Repair::repairable(&c));
    let options = c.repair_options();
    assert_eq!(options.len(), 1);
    assert_eq!(options[0].slot, 2);
    assert_eq!(options[0].label, "Transponder Section (0/1)");
    let modules = c.section_repair_options(2);
    assert_eq!(modules.len(), 1);
    assert_eq!(modules[0].label, "Transponder");
    c.repair(2, 0);
    assert_eq!(c.active_modules(), 2);
}

#[test]
fn category_random_break_keeps_counts_consistent() {
    let mut c = PowerCategory::with_installation(&vec![true, true, true, true, true]);
    assert_eq!(c.total_modules(), 11);
    match BreakSomething::break_something(&mut c) {
        Ok(_) => assert_eq!(c.active_modules(), 10),
        Err(_) => panic!("every section is installed"),
    }
}

#[test]
fn category_power_down_twice_is_power_down_once() {
    let mut c = PowerCategory::with_installation(&vec![true, false, true, false, true]);
    c.power_down();
    let once = c.status(0);
    assert_eq!(c.active_modules(), 0);
    c.power_down();
    assert_eq!(c.status(0), once);
    assert_eq!(c.total_modules(), 7);
}

#[test]
fn category_status_lists_installed_sections_only() {
    let c = MiscCategory::with_installation(&vec![false]);
    let expected = "(category\n    :name \"Misc Category\"\n    :installed-sections 0\n    :total-modules 0\n    :active-modules 0\n    :sections (\n    )\n)\n";
    assert_eq!(c.status(0), expected);
}

#[test]
fn random_bools_places_forced_values_anywhere() {
    let mut first_false = false;
    let mut last_true = false;
    for _ in 0..400 {
        let r = random_bools(6, 3, 3);
        assert_eq!(count_true(&r), 3);
        first_false |= !r[0];
        last_true |= r[5];
    }
    assert!(first_false && last_true);
}

#[test]
fn random_breaks_reach_different_modules() {
    let mut seen: Vec<String> = Vec::new();
    for _ in 0..400 {
        let mut c = PowerCategory::with_installation(&vec![true, true, true, true, true]);
        let name = BreakSomething::break_something(&mut c).unwrap();
        if !seen.contains(&name) {
            seen.push(name);
        }
    }
    assert!(seen.len() >= 5);
}
