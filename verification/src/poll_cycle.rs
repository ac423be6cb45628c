//! The timed poll cycle: a single-flight state machine that decides when a
//! new poll may start, and applies a finished poll's result to the
//! published snapshot.
//!
//! At most one poll is in flight at a time: a poll can only start from the
//! idle state, starting moves to polling, and only applying a result moves
//! back. The caller runs the actual poll off the interactive thread and
//! hands the result back; a failed poll leaves the last good snapshot in
//! place, so the consumer never sees an empty state merely because one
//! cycle failed.

use vstd::prelude::*;

use crate::live_match::MatchHandler;
use crate::settings::{refresh_due, Settings};

verus! {

/// Whether a poll is currently in flight.
#[derive(Debug, Clone, Copy, PartialEq, Eq, Structural)]
pub enum PollState {
    Idle,
    Polling,
}

/// The poll scheduler: its state, its timers, and the published snapshot.
#[derive(Debug, Clone)]
pub struct PollCycle {
    pub state: PollState,
    pub settings: Settings,
    pub snapshot: Option<MatchHandler>,
}

impl PollCycle {
    /// A cycle that has never polled: idle, no snapshot, timers at their
    /// defaults.
    pub fn new(settings: Settings) -> (c: PollCycle)
        ensures
            c.state is Idle,
            c.settings == settings,
            c.snapshot is None,
    {
        PollCycle { state: PollState::Idle, settings: settings, snapshot: None }
    }

    /// The match id the last applied snapshot carries, to hand to the next
    /// poll as `previous_match_id`; empty before any snapshot exists.
    pub fn latest_match_id(&self) -> (r: String)
        ensures
            match self.snapshot {
                Some(h) => r@ == h.match_id@,
                None => r@ == Seq::<char>::empty(),
            },
    {
        match &self.snapshot {
            Some(h) => h.match_id.clone(),
            None => String::new(),
        }
    }

    /// Decide at time `now` whether to start a poll. A poll starts exactly
    /// when none is in flight, automatic refresh is on, and the refresh
    /// interval has passed; starting restarts the timer at `now` and moves
    /// to the polling state, so no second poll can start before
    /// `apply_result`.
    pub fn tick(&mut self, now: u64) -> (start: bool)
        ensures
            start == (old(self).state is Idle && old(self).settings.auto_refresh && refresh_due(
                old(self).settings,
                now,
            )),
            start ==> *final(self) == (PollCycle {
                state: PollState::Polling,
                settings: Settings { last_checked: now, ..old(self).settings },
                snapshot: old(self).snapshot,
            }),
            !start ==> *final(self) == *old(self),
    {
        match self.state {
            PollState::Idle => {
                if self.settings.auto_refresh {
                    if self.settings.refresh_due_at(now) {
                        self.state = PollState::Polling;
                        true
                    } else {
                        false
                    }
                } else {
                    false
                }
            },
            PollState::Polling => false,
        }
    }

    /// A manual refresh request: restart the timer at zero so the next tick
    /// polls immediately, whatever time has elapsed. Does not interrupt a
    /// poll already in flight.
    pub fn force_refresh(&mut self)
        ensures
            *final(self) == (PollCycle {
                state: old(self).state,
                settings: Settings { last_checked: 0, ..old(self).settings },
                snapshot: old(self).snapshot,
            }),
    {
        self.settings.last_checked = 0;
    }

    /// Apply the result of the poll in flight. A new snapshot replaces the
    /// published one; a failed poll keeps the previous snapshot. Either way
    /// the cycle is idle again, and only now may the next poll start.
    pub fn apply_result(&mut self, result: Option<MatchHandler>)
        ensures
            final(self).state is Idle,
            final(self).settings == old(self).settings,
            match result {
                Some(h) => final(self).snapshot == Some(h),
                None => final(self).snapshot == old(self).snapshot,
            },
    {
        match result {
            Some(h) => {
                self.snapshot = Some(h);
            },
            None => {},
        }
        self.state = PollState::Idle;
    }
}

} // verus!
