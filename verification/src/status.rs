//! The status line's state: how many requests are under way, and whether the
//! spinner ticks.

use crate::protocol::DbRequest;
use vstd::prelude::*;

verus! {

/// The switch that the spinner's event source reads: while it is on, every
/// poll gives a tick. There is one switch, so the port is neither copied nor
/// cloned; whoever polls reads the port that was set.
#[derive(Debug, PartialEq, Eq)]
pub struct SpinnerTickingPort {
    ticking: bool,
}

impl SpinnerTickingPort {
    /// Whether the port is on.
    pub closed spec fn ticking(&self) -> bool {
        self.ticking
    }

    /// A port that is off.
    pub fn new() -> (port: Self)
        ensures
            !port.ticking(),
    {
        SpinnerTickingPort { ticking: false }
    }

    /// Turns the port on or off.
    pub fn set_ticking(&mut self, ticking: bool)
        ensures
            final(self).ticking() == ticking,
    {
        self.ticking = ticking;
    }

    /// Whether a poll gives a tick now.
    pub fn poll(&self) -> (tick: bool)
        ensures
            tick == self.ticking(),
    {
        self.ticking
    }
}

/// What the status line knows of the requests under way.
#[derive(Debug, PartialEq, Eq)]
pub struct AppStatus {
    requests_in_progress: i32,
    doing: String,
    query_processing: bool,
}

impl AppStatus {
    /// The number of requests that were sent and not yet answered.
    pub closed spec fn pending(&self) -> int {
        self.requests_in_progress as int
    }

    /// Whether a request is shown as being processed.
    pub closed spec fn processing(&self) -> bool {
        self.query_processing
    }

    /// The state with nothing under way.
    pub fn new() -> (status: Self)
        ensures
            status.pending() == 0,
            !status.processing(),
    {
        AppStatus { requests_in_progress: 0, doing: String::new(), query_processing: false }
    }

    pub fn requests_in_progress(&self) -> (count: i32)
        ensures
            count == self.pending(),
    {
        self.requests_in_progress
    }

    pub fn query_processing(&self) -> (processing: bool)
        ensures
            processing == self.processing(),
    {
        self.query_processing
    }

    /// Counts a request that is being sent, and starts the spinner.
    pub fn push_db_request(
        &mut self,
        db_request: &DbRequest,
        spinner_ticking_port: &mut SpinnerTickingPort,
    )
        requires
            old(self).pending() < i32::MAX,
        ensures
            final(self).pending() == old(self).pending() + 1,
            final(self).processing(),
            final(spinner_ticking_port).ticking(),
    {
        self.requests_in_progress = self.requests_in_progress + 1;
        self.query_processing = true;
        spinner_ticking_port.set_ticking(true);
    }

    /// Counts a request that was answered. The count never goes below zero;
    /// when it reaches zero nothing is being processed any more, and the
    /// spinner stops.
    pub fn pop_db_request(&mut self, spinner_ticking_port: &mut SpinnerTickingPort)
        ensures
            final(self).pending() == if old(self).pending() > 1 {
                old(self).pending() - 1
            } else {
                0
            },
            final(self).processing() == (old(self).processing() && final(self).pending() != 0),
            final(spinner_ticking_port).ticking() == final(self).processing(),
    {
        if self.requests_in_progress > 1 {
            self.requests_in_progress = self.requests_in_progress - 1;
        } else {
            self.requests_in_progress = 0;
        }
        if self.requests_in_progress == 0 {
            self.query_processing = false;
        }
        spinner_ticking_port.set_ticking(self.query_processing);
    }
}

impl Default for AppStatus {
    fn default() -> (status: Self)
        ensures
            status.pending() == 0,
            !status.processing(),
    {
        AppStatus::new()
    }
}

} // verus!
