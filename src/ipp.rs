//! Attribute values that the CUPS printing system reports for a printer,
//! mapped onto this library's types.
use vstd::prelude::*;

use crate::options::{first_value, option_map, same_text};

verus! {

/// Colour mode of a print job.
#[derive(Debug, Clone, Copy, Default, PartialEq, Eq, Structural)]
pub enum ColorMode {
    #[default]
    Auto,
    Monochrome,
    Color,
}

/// Finishing of the printed sheets.
#[derive(Debug, Clone, Copy, Default, PartialEq, Eq, Structural)]
pub enum Finishings {
    #[default]
    NoFinishing,
    Staple,
    Punch,
    Cover,
    Bind,
    Fold,
    Trim,
}

/// What the printer is doing.
#[derive(Debug, Clone, Copy, Default, PartialEq, Eq, Structural)]
pub enum PrinterState {
    #[default]
    Idle,
    Printing,
    Stopped,
}

/// The colour mode named by `s`; `Auto` for any other text.
pub open spec fn color_mode_named(s: Seq<char>) -> ColorMode {
    if s == "monochrome"@ {
        ColorMode::Monochrome
    } else if s == "color"@ {
        ColorMode::Color
    } else {
        ColorMode::Auto
    }
}

/// The colour mode named by the attribute value `s`.
pub fn color_mode_of(s: &str) -> (r: ColorMode)
    ensures
        r == color_mode_named(s@),
{
    let table = [
        ("auto", ColorMode::Auto),
        ("monochrome", ColorMode::Monochrome),
        ("color", ColorMode::Color),
    ];
    let t = table.as_slice();
    let r = option_map(s, t);
    proof {
        reveal_strlit("auto");
        reveal_strlit("monochrome");
        reveal_strlit("color");
        reveal_with_fuel(first_value, 8);
        assert(t@ == seq![
            ("auto", ColorMode::Auto),
            ("monochrome", ColorMode::Monochrome),
            ("color", ColorMode::Color),
        ]);
        // the keywords differ in length or in one character
        assert("auto"@.len() == 4);
        assert("monochrome"@.len() == 10);
        assert("color"@.len() == 5);
        assert(r == color_mode_named(s@));
    }
    r
}

/// The finishing whose enumeration value is written `s`; `NoFinishing` for any other
/// text.
pub open spec fn finishings_named(s: Seq<char>) -> Finishings {
    if s == "4"@ {
        Finishings::Staple
    } else if s == "5"@ {
        Finishings::Punch
    } else if s == "6"@ {
        Finishings::Cover
    } else if s == "7"@ {
        Finishings::Bind
    } else if s == "10"@ {
        Finishings::Fold
    } else if s == "11"@ {
        Finishings::Trim
    } else {
        Finishings::NoFinishing
    }
}

/// The finishing named by the attribute value `s`.
pub fn finishings_of(s: &str) -> (r: Finishings)
    ensures
        r == finishings_named(s@),
{
    let table = [
        ("3", Finishings::NoFinishing),
        ("4", Finishings::Staple),
        ("5", Finishings::Punch),
        ("6", Finishings::Cover),
        ("7", Finishings::Bind),
        ("10", Finishings::Fold),
        ("11", Finishings::Trim),
    ];
    let t = table.as_slice();
    let r = option_map(s, t);
    proof {
        reveal_strlit("3");
        reveal_strlit("4");
        reveal_strlit("5");
        reveal_strlit("6");
        reveal_strlit("7");
        reveal_strlit("10");
        reveal_strlit("11");
        reveal_with_fuel(first_value, 8);
        assert(t@ == seq![
            ("3", Finishings::NoFinishing),
            ("4", Finishings::Staple),
            ("5", Finishings::Punch),
            ("6", Finishings::Cover),
            ("7", Finishings::Bind),
            ("10", Finishings::Fold),
            ("11", Finishings::Trim),
        ]);
        // the keywords differ in length or in one character
        assert("3"@[0] == '3');
        assert("4"@[0] == '4');
        assert("5"@[0] == '5');
        assert("6"@[0] == '6');
        assert("7"@[0] == '7');
        assert("3"@.len() == 1);
        assert("10"@.len() == 2);
        assert("11"@.len() == 2);
        assert("4"@.len() == 1);
        assert("5"@.len() == 1);
        assert("6"@.len() == 1);
        assert("7"@.len() == 1);
        assert("10"@[1] == '0');
        assert("11"@[1] == '1');
        assert(r == finishings_named(s@));
    }
    r
}

/// The printer state whose enumeration value is written `s`; `Idle` for any
/// other text.
pub open spec fn printer_state_named(s: Seq<char>) -> PrinterState {
    if s == "4"@ {
        PrinterState::Printing
    } else if s == "5"@ {
        PrinterState::Stopped
    } else {
        PrinterState::Idle
    }
}

/// The printer state named by the attribute value `s`.
pub fn printer_state_of(s: &str) -> (r: PrinterState)
    ensures
        r == printer_state_named(s@),
{
    let table = [
        ("3", PrinterState::Idle),
        ("4", PrinterState::Printing),
        ("5", PrinterState::Stopped),
    ];
    let t = table.as_slice();
    let r = option_map(s, t);
    proof {
        reveal_strlit("3");
        reveal_strlit("4");
        reveal_strlit("5");
        reveal_with_fuel(first_value, 8);
        assert(t@ == seq![
            ("3", PrinterState::Idle),
            ("4", PrinterState::Printing),
            ("5", PrinterState::Stopped),
        ]);
        // the keywords differ in length or in one character
        assert("3"@[0] == '3');
        assert("4"@[0] == '4');
        assert("5"@[0] == '5');
        assert(r == printer_state_named(s@));
    }
    r
}

/// The truth value written `s`: false only for `false`.
pub fn flag_of(s: &str) -> (r: bool)
    ensures
        r == (s@ != "false"@),
{
    let table = [("true", true), ("false", false)];
    let t = table.as_slice();
    let r = option_map(s, t);
    proof {
        reveal_strlit("true");
        reveal_strlit("false");
        reveal_with_fuel(first_value, 8);
        assert(t@ == seq![("true", true), ("false", false)]);
        // the keywords differ in length or in one character
        assert("true"@.len() == 4);
        assert("false"@.len() == 5);
        assert(r == (s@ != "false"@));
    }
    r
}

/// A reason that the printer gives for its state.
#[derive(Debug, Clone, Copy, PartialEq, Eq, Structural)]
pub enum StateReason {
    NoReason,
    Other,
    DeveloperLow,
    DoorOpen,
    FuserOverTemp,
    FuserUnderTemp,
    InputTrayMissing,
    InterlockOpen,
    InterpreterResourceUnavailable,
    MarkerSupplyEmpty,
    MarkerSupplyLow,
    WasteAlmostFull,
    WasteFull,
    MediaEmpty,
    MediaJam,
    MediaLow,
    MediaNeeded,
    MovingToPaused,
    OpcLifeOver,
    OpcNearEol,
    OutputAreaAlmostFull,
    OutputAreaFull,
    OutputTrayMissing,
    Paused,
    Shutdown,
    SpoolAreaFull,
    StoppedPartly,
    Stopping,
    TimedOut,
    TonerEmpty,
    TonerLow,
    ConnectionToDevice,
    OfflineReport,
    InsecureFilterWarning,
    MissingFilterWarning,
    RemoteAborted,
    RemoteCanceled,
    RemoteCompleted,
    RemotePending,
    RemotePendingHeld,
    RemoteProcessing,
    RemoteStopped,
    WaitingForJobCompleted,
}

/// The keyword that names a state reason.
pub open spec fn reason_keyword(reason: StateReason) -> Seq<char> {
    match reason {
        StateReason::NoReason => "none"@,
        StateReason::Other => "other"@,
        StateReason::DeveloperLow => "developer-low"@,
        StateReason::DoorOpen => "door-open"@,
        StateReason::FuserOverTemp => "fuser-over-temp"@,
        StateReason::FuserUnderTemp => "fuser-under-temp"@,
        StateReason::InputTrayMissing => "input-tray-missing"@,
        StateReason::InterlockOpen => "interlock-open"@,
        StateReason::InterpreterResourceUnavailable => "interpreter-resource-unavailable"@,
        StateReason::MarkerSupplyEmpty => "marker-supply-empty"@,
        StateReason::MarkerSupplyLow => "marker-supply-low"@,
        StateReason::WasteAlmostFull => "waste-almost-full"@,
        StateReason::WasteFull => "waste-full"@,
        StateReason::MediaEmpty => "media-empty"@,
        StateReason::MediaJam => "media-jam"@,
        StateReason::MediaLow => "media-low"@,
        StateReason::MediaNeeded => "media-needed"@,
        StateReason::MovingToPaused => "moving-to-paused"@,
        StateReason::OpcLifeOver => "opc-life-over"@,
        StateReason::OpcNearEol => "opc-near-eol"@,
        StateReason::OutputAreaAlmostFull => "output-area-almost-full"@,
        StateReason::OutputAreaFull => "output-area-full"@,
        StateReason::OutputTrayMissing => "output-tray-missing"@,
        StateReason::Paused => "paused"@,
        StateReason::Shutdown => "shutdown"@,
        StateReason::SpoolAreaFull => "spool-area-full"@,
        StateReason::StoppedPartly => "stopped-partly"@,
        StateReason::Stopping => "stopping"@,
        StateReason::TimedOut => "timed-out"@,
        StateReason::TonerEmpty => "toner-empty"@,
        StateReason::TonerLow => "toner-low"@,
        StateReason::ConnectionToDevice => "connection-to-device"@,
        StateReason::OfflineReport => "offline-report"@,
        StateReason::InsecureFilterWarning => "insecure-filter-warning"@,
        StateReason::MissingFilterWarning => "missing-filter-warning"@,
        StateReason::RemoteAborted => "remote-aborted"@,
        StateReason::RemoteCanceled => "remote-canceled"@,
        StateReason::RemoteCompleted => "remote-completed"@,
        StateReason::RemotePending => "remote-pending"@,
        StateReason::RemotePendingHeld => "remote-pending-held"@,
        StateReason::RemoteProcessing => "remote-processing"@,
        StateReason::RemoteStopped => "remote-stopped"@,
        StateReason::WaitingForJobCompleted => "waiting-for-job-completed"@,
    }
}

/// The state reason named by the keyword `s`, if any.
pub fn state_reason_of(s: &str) -> (r: Option<StateReason>)
    ensures
        r matches Some(reason) ==> reason_keyword(reason) == s@,
        r is None ==> forall|reason: StateReason| reason_keyword(reason) != s@,
{
    if same_text(s, "none") {
        Some(StateReason::NoReason)
    } else if same_text(s, "other") {
        Some(StateReason::Other)
    } else if same_text(s, "developer-low") {
        Some(StateReason::DeveloperLow)
    } else if same_text(s, "door-open") {
        Some(StateReason::DoorOpen)
    } else if same_text(s, "fuser-over-temp") {
        Some(StateReason::FuserOverTemp)
    } else if same_text(s, "fuser-under-temp") {
        Some(StateReason::FuserUnderTemp)
    } else if same_text(s, "input-tray-missing") {
        Some(StateReason::InputTrayMissing)
    } else if same_text(s, "interlock-open") {
        Some(StateReason::InterlockOpen)
    } else if same_text(s, "interpreter-resource-unavailable") {
        Some(StateReason::InterpreterResourceUnavailable)
    } else if same_text(s, "marker-supply-empty") {
        Some(StateReason::MarkerSupplyEmpty)
    } else if same_text(s, "marker-supply-low") {
        Some(StateReason::MarkerSupplyLow)
    } else if same_text(s, "waste-almost-full") {
        Some(StateReason::WasteAlmostFull)
    } else if same_text(s, "waste-full") {
        Some(StateReason::WasteFull)
    } else if same_text(s, "media-empty") {
        Some(StateReason::MediaEmpty)
    } else if same_text(s, "media-jam") {
        Some(StateReason::MediaJam)
    } else if same_text(s, "media-low") {
        Some(StateReason::MediaLow)
    } else if same_text(s, "media-needed") {
        Some(StateReason::MediaNeeded)
    } else if same_text(s, "moving-to-paused") {
        Some(StateReason::MovingToPaused)
    } else if same_text(s, "opc-life-over") {
        Some(StateReason::OpcLifeOver)
    } else if same_text(s, "opc-near-eol") {
        Some(StateReason::OpcNearEol)
    } else if same_text(s, "output-area-almost-full") {
        Some(StateReason::OutputAreaAlmostFull)
    } else if same_text(s, "output-area-full") {
        Some(StateReason::OutputAreaFull)
    } else if same_text(s, "output-tray-missing") {
        Some(StateReason::OutputTrayMissing)
    } else if same_text(s, "paused") {
        Some(StateReason::Paused)
    } else if same_text(s, "shutdown") {
        Some(StateReason::Shutdown)
    } else if same_text(s, "spool-area-full") {
        Some(StateReason::SpoolAreaFull)
    } else if same_text(s, "stopped-partly") {
        Some(StateReason::StoppedPartly)
    } else if same_text(s, "stopping") {
        Some(StateReason::Stopping)
    } else if same_text(s, "timed-out") {
        Some(StateReason::TimedOut)
    } else if same_text(s, "toner-empty") {
        Some(StateReason::TonerEmpty)
    } else if same_text(s, "toner-low") {
        Some(StateReason::TonerLow)
    } else if same_text(s, "connection-to-device") {
        Some(StateReason::ConnectionToDevice)
    } else if same_text(s, "offline-report") {
        Some(StateReason::OfflineReport)
    } else if same_text(s, "insecure-filter-warning") {
        Some(StateReason::InsecureFilterWarning)
    } else if same_text(s, "missing-filter-warning") {
        Some(StateReason::MissingFilterWarning)
    } else if same_text(s, "remote-aborted") {
        Some(StateReason::RemoteAborted)
    } else if same_text(s, "remote-canceled") {
        Some(StateReason::RemoteCanceled)
    } else if same_text(s, "remote-completed") {
        Some(StateReason::RemoteCompleted)
    } else if same_text(s, "remote-pending") {
        Some(StateReason::RemotePending)
    } else if same_text(s, "remote-pending-held") {
        Some(StateReason::RemotePendingHeld)
    } else if same_text(s, "remote-processing") {
        Some(StateReason::RemoteProcessing)
    } else if same_text(s, "remote-stopped") {
        Some(StateReason::RemoteStopped)
    } else if same_text(s, "waiting-for-job-completed") {
        Some(StateReason::WaitingForJobCompleted)
    } else {
        Option::None
    }
}

} // verus!
