//! The printer's condition flags, summed up in one [`Status`].
use vstd::prelude::*;

use crate::Status;

verus! {

/// Condition flags that a print spooler reports for a printer.
#[derive(Debug, Clone, Copy, Default, PartialEq, Eq, Structural)]
pub struct StatusFlags {
    pub busy: bool,
    pub door_open: bool,
    pub error: bool,
    pub initializing: bool,
    pub io_active: bool,
    pub manual_feed: bool,
    pub no_toner: bool,
    pub not_available: bool,
    pub offline: bool,
    pub out_of_memory: bool,
    pub output_bin_full: bool,
    pub page_punt: bool,
    pub paper_jam: bool,
    pub paper_out: bool,
    pub paper_problem: bool,
    pub paused: bool,
    pub pending_deletion: bool,
    pub power_save: bool,
    pub printing: bool,
    pub processing: bool,
    pub server_unknown: bool,
    pub toner_low: bool,
    pub user_intervention: bool,
    pub waiting: bool,
    pub warming_up: bool,
}

impl StatusFlags {
    /// The printer is at work, or getting ready for it.
    pub open spec fn working(self) -> bool {
        self.busy || self.printing || self.initializing || self.io_active || self.processing
            || self.waiting || self.warming_up
    }

    /// The printer was taken out of service.
    pub open spec fn halted(self) -> bool {
        self.offline || self.paused || self.power_save
    }

    /// The printer needs attention but can go on.
    pub open spec fn needs_attention(self) -> bool {
        self.toner_low || self.manual_feed || self.output_bin_full || self.paper_out
            || self.paper_problem || self.user_intervention
    }

    /// The printer cannot print.
    pub open spec fn failed(self) -> bool {
        self.door_open || self.error || self.no_toner || self.not_available || self.out_of_memory
            || self.page_punt || self.paper_jam || self.pending_deletion || self.server_unknown
    }

    /// The first that holds of busy, stopped, warning and error, else idle.
    pub open spec fn summary(self) -> Status {
        if self.working() {
            Status::Busy
        } else if self.halted() {
            Status::Stopped
        } else if self.needs_attention() {
            Status::Warn
        } else if self.failed() {
            Status::Error
        } else {
            Status::Idle
        }
    }

    /// Sums up the flags.
    pub fn status(&self) -> (r: Status)
        ensures
            r == self.summary(),
    {
        if self.busy || self.printing || self.initializing || self.io_active || self.processing
            || self.waiting || self.warming_up {
            Status::Busy
        } else if self.offline || self.paused || self.power_save {
            Status::Stopped
        } else if self.toner_low || self.manual_feed || self.output_bin_full || self.paper_out
            || self.paper_problem || self.user_intervention {
            Status::Warn
        } else if self.door_open || self.error || self.no_toner || self.not_available
            || self.out_of_memory || self.page_punt || self.paper_jam || self.pending_deletion
            || self.server_unknown {
            Status::Error
        } else {
            Status::Idle
        }
    }
}

} // verus!
