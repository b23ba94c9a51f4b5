use found_terminal::module::comms::Antenna;
use found_terminal::module::common::{Active, BreakModule, PowerDownModule, RepairModule, StatusModule};
use found_terminal::module::crew::Galley;
use found_terminal::section::comms::AntennaSection;
use found_terminal::section::common::{Installed, ModulesContained};
use found_terminal::section::crew::CrewModuleSection;
use found_terminal::section::power::FossilPowerSection;
use found_terminal::section::section::{Section, SectionName};
use found_terminal::station::components::{
    BreakError, BreakSomething, ModuleCounts, Name, PowerDown, Repair, Status,
};

#[test]
fn module_switches_and_reports_its_name() {
    let mut m = Antenna::new(true);
    assert!(m.active());
    assert_eq!(m.name(), "Antenna");
    assert_eq!(BreakModule::break_something(&mut m), "Antenna");
    assert!(!m.active());
    assert!(RepairModule::repairable(&m));
    assert_eq!(RepairModule::repair(&mut m), "Antenna");
    assert!(m.active());
    PowerDownModule::power_down(&mut m);
    assert!(!m.active());
    m.activate();
    assert!(m.active());
    m.deactivate();
    assert!(!m.active());
}

#[test]
fn module_status_line() {
    let m = Galley::new(true);
    assert_eq!(StatusModule::status(&m, 0), "(module :name \"Galley\" :status 'OK)\n");
    let m = Galley::new(false);
    assert_eq!(StatusModule::status(&m, 1), "    (module :name \"Galley\" :status 'INACTIVE)\n");
}

#[test]
fn installed_section_starts_fully_active() {
    let s = CrewModuleSection::new(true);
    assert!(s.installed());
    assert_eq!(CrewModuleSection::MODULES_CONTAINED, 8);
    assert_eq!(s.total_modules(), 8);
    assert_eq!(s.active_modules(), 8);
    assert!(!Repair::repairable(&s));
    assert_eq!(s.repair_display(), "Crew Module Section (8/8)");
}

#[test]
fn uninstalled_section_has_nothing_active_and_cannot_break() {
    let mut s = FossilPowerSection::new(false);
    assert_eq!(s.total_modules(), 2);
    assert_eq!(s.active_modules(), 0);
    assert!(!Repair::repairable(&s));
    assert_eq!(s.break_module(1), Err(BreakError::NotInstalled));
    assert!(matches!(BreakSomething::break_something(&mut s), Err(BreakError::NotInstalled)));
    assert_eq!(s.active_modules(), 0);
    assert!(s.repair_options().is_empty());
    s.repair(0);
    assert_eq!(s.active_modules(), 0);
}

#[test]
fn break_module_picks_by_position() {
    let mut s = FossilPowerSection::new(true);
    assert_eq!(s.break_module(2).unwrap(), "Fossil Fuel Storage");
    assert_eq!(s.active_modules(), 1);
    assert_eq!(s.break_module(1).unwrap(), "Combustion Turbine Generator");
    assert_eq!(s.active_modules(), 0);
    // breaking a module that is already broken still names it
    assert_eq!(s.break_module(1).unwrap(), "Combustion Turbine Generator");
    assert_eq!(s.active_modules(), 0);
}

#[test]
fn random_break_on_installed_section_breaks_one_module() {
    let mut s = FossilPowerSection::new(true);
    let name = BreakSomething::break_something(&mut s).unwrap();
    assert!(name == "Combustion Turbine Generator" || name == "Fossil Fuel Storage");
    assert_eq!(s.active_modules(), 1);
}

#[test]
fn repair_then_break_restores_the_section() {
    let mut s = FossilPowerSection::new(true);
    s.break_module(2).unwrap();
    let before = s.active_modules();
    let options = s.repair_options();
    assert_eq!(options.len(), 1);
    assert_eq!(options[0].slot, 1);
    assert_eq!(options[0].label, "Fossil Fuel Storage");
    s.repair(1);
    assert_eq!(s.active_modules(), 2);
    s.break_module(2).unwrap();
    assert_eq!(s.active_modules(), before);
    assert_eq!(s.repair_options()[0].slot, 1);
}

#[test]
fn repair_of_a_working_module_changes_nothing() {
    let mut s = FossilPowerSection::new(true);
    s.break_module(1).unwrap();
    s.repair(1);
    assert_eq!(s.active_modules(), 1);
    s.repair(7);
    assert_eq!(s.active_modules(), 1);
}

#[test]
fn section_power_down_twice_is_power_down_once() {
    let mut s = CrewModuleSection::new(true);
    s.power_down();
    assert_eq!(s.active_modules(), 0);
    let once = s.status(0);
    s.power_down();
    assert_eq!(s.active_modules(), 0);
    assert_eq!(s.status(0), once);
    assert_eq!(s.total_modules(), 8);
}

#[test]
fn section_status_block() {
    let s = AntennaSection::new(true);
    let expected = "(section\n    :name \"Antenna Section\"\n    :modules (\n        (module :name \"Antenna\" :status 'OK)\n    )\n)\n";
    assert_eq!(s.status(0), expected);
}

#[test]
fn single_level_section_data() {
    let s = Section { name: SectionName::Solar, active: true };
    assert_eq!(s.name.as_str(), "Solar");
    assert!(s.active);
    assert_eq!(SectionName::AstroScience.as_str(), "AstroScience");
}
