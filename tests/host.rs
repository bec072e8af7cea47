use uniprint::ipp::{
    color_mode_of, finishings_of, flag_of, printer_state_of, state_reason_of, ColorMode, Finishings,
    PrinterState, StateReason,
};
use uniprint::options::{find_option, option_map, NamedOption};
use uniprint::status::StatusFlags;
use uniprint::units::measure;
use uniprint::{PrintError, Status};

#[test]
fn measure_inch_and_metric() {
    assert_eq!(measure(25_400, false), 100);
    assert_eq!(measure(25_400, true), 254);
}

#[test]
fn measure_rounds_and_saturates() {
    assert_eq!(measure(0, false), 0);
    assert_eq!(measure(149, true), 1);
    assert_eq!(measure(150, true), 2);
    assert_eq!(measure(126, false), 0);
    assert_eq!(measure(127, false), 1);
    assert_eq!(measure(u32::MAX, true), u16::MAX);
}

#[test]
fn option_map_picks_entry_or_first() {
    let table = [("auto", 0u8), ("monochrome", 1), ("color", 2)];
    assert_eq!(option_map("color", &table), 2);
    assert_eq!(option_map("monochrome", &table), 1);
    assert_eq!(option_map("sepia", &table), 0);
    assert_eq!(option_map("", &[("true", true), ("false", false)]), true);
}

fn opt(name: &str, value: &str) -> NamedOption {
    NamedOption { name: name.as_bytes().to_vec(), value: value.to_string() }
}

#[test]
fn find_option_in_sorted_list() {
    let opts = vec![
        opt("copies", "1"),
        opt("device-uri", "usb://x"),
        opt("printer-info", "Label"),
        opt("printer-state", "3"),
    ];
    assert_eq!(find_option(b"copies", &opts), Some(0));
    assert_eq!(find_option(b"printer-state", &opts), Some(3));
    assert_eq!(find_option(b"device-uri", &opts), Some(1));
    assert_eq!(find_option(b"printer", &opts), None);
    assert_eq!(find_option(b"zzz", &opts), None);
    assert_eq!(find_option(b"a", &[]), None);
}

#[test]
fn status_priorities() {
    let idle = StatusFlags::default();
    assert_eq!(idle.status(), Status::Idle);
    assert_eq!(StatusFlags { paper_jam: true, ..idle }.status(), Status::Error);
    assert_eq!(StatusFlags { toner_low: true, paper_jam: true, ..idle }.status(), Status::Warn);
    assert_eq!(StatusFlags { paused: true, toner_low: true, ..idle }.status(), Status::Stopped);
    assert_eq!(StatusFlags { printing: true, offline: true, ..idle }.status(), Status::Busy);
}

#[test]
fn error_messages() {
    assert_eq!(PrintError::NotFound.message(), "Printer not found.");
    assert_eq!(PrintError::NoDefaultPrinter.message(), "No default printer.");
    assert_eq!(PrintError::DocumentOpen.message(), "Document already open.");
    assert_eq!(PrintError::InteriorNulInCStr.message(), "Invalid NUL found.");
    assert_eq!(PrintError::LayoutError.message(), "Can't create memory layout.");
    assert_eq!(PrintError::ParseIntError.message(), "Parse int error.");
    assert_eq!(PrintError::Print("jam".to_string()).message(), "jam");
}

#[test]
fn ipp_color_modes() {
    assert_eq!(color_mode_of("auto"), ColorMode::Auto);
    assert_eq!(color_mode_of("monochrome"), ColorMode::Monochrome);
    assert_eq!(color_mode_of("color"), ColorMode::Color);
    assert_eq!(color_mode_of("Color"), ColorMode::Auto);
    assert_eq!(color_mode_of(""), ColorMode::Auto);
}

#[test]
fn ipp_finishings_and_states() {
    assert_eq!(finishings_of("3"), Finishings::NoFinishing);
    assert_eq!(finishings_of("4"), Finishings::Staple);
    assert_eq!(finishings_of("5"), Finishings::Punch);
    assert_eq!(finishings_of("6"), Finishings::Cover);
    assert_eq!(finishings_of("7"), Finishings::Bind);
    assert_eq!(finishings_of("10"), Finishings::Fold);
    assert_eq!(finishings_of("11"), Finishings::Trim);
    assert_eq!(finishings_of("8"), Finishings::NoFinishing);
    assert_eq!(printer_state_of("3"), PrinterState::Idle);
    assert_eq!(printer_state_of("4"), PrinterState::Printing);
    assert_eq!(printer_state_of("5"), PrinterState::Stopped);
    assert_eq!(printer_state_of("stopped"), PrinterState::Idle);
}

#[test]
fn ipp_flags() {
    assert!(flag_of("true"));
    assert!(!flag_of("false"));
    assert!(flag_of(""));
}

#[test]
fn ipp_state_reasons() {
    assert_eq!(state_reason_of("none"), Some(StateReason::NoReason));
    assert_eq!(state_reason_of("door-open"), Some(StateReason::DoorOpen));
    assert_eq!(state_reason_of("media-jam"), Some(StateReason::MediaJam));
    assert_eq!(
        state_reason_of("waiting-for-job-completed"),
        Some(StateReason::WaitingForJobCompleted)
    );
    assert_eq!(state_reason_of("toner-low-warning"), None);
    assert_eq!(state_reason_of(""), None);
}
