//! Polling configuration and its timers: whether enough time has passed to
//! poll again, and how long until the next automatic refresh.
//!
//! The system clock is the one outside input here. Every decision is made by
//! a verified function of an explicit `now`, and the clock-reading entry
//! points state what holds whatever the clock returned.

use std::time::{SystemTime, UNIX_EPOCH};
use vstd::prelude::*;

verus! {

/// Polling configuration: the automatic-refresh switch, the two intervals
/// (seconds), and when the timer last restarted (seconds since the epoch).
#[derive(Debug, Clone, Copy, PartialEq, Eq, Structural)]
pub struct Settings {
    pub auto_refresh: bool,
    pub wait_time: u64,
    pub refresh_time: u64,
    pub last_checked: u64,
}

impl Default for Settings {
    /// Automatic refresh on, 15 s between client probes, 10 s between match
    /// polls, timer never started.
    fn default() -> (s: Settings)
        ensures
            s == (Settings { auto_refresh: true, wait_time: 15, refresh_time: 10, last_checked: 0 }),
    {
        Settings { auto_refresh: true, wait_time: 15, refresh_time: 10, last_checked: 0 }
    }
}

/// Whether, at time `now`, more than the refresh interval has elapsed since
/// the timer last restarted. A clock that went backwards never makes a
/// refresh due.
pub open spec fn refresh_due(s: Settings, now: u64) -> bool {
    now > s.last_checked + s.refresh_time
}

/// Whether, at time `now`, more than the wait interval has elapsed since the
/// timer last restarted.
pub open spec fn wait_due(s: Settings, now: u64) -> bool {
    now > s.last_checked + s.wait_time
}

/// Seconds left at time `now` until a refresh is due: the refresh interval
/// less the elapsed time, clamped at zero; the full interval if the clock
/// went backwards.
pub open spec fn remaining_refresh(s: Settings, now: u64) -> int {
    if now >= s.last_checked {
        if now - s.last_checked >= s.refresh_time {
            0
        } else {
            s.refresh_time - (now - s.last_checked)
        }
    } else {
        s.refresh_time as int
    }
}

impl Settings {
    /// Seconds since the Unix epoch, read from the system clock; zero on a
    /// clock before the epoch.
    ///
    /// Relies on std::time::SystemTime::now and
    /// SystemTime::duration_since(UNIX_EPOCH): the wall clock as a duration
    /// past the epoch. Nothing can be promised of the value; callers hand
    /// it to the verified timer functions below.
    #[verifier::external_body]
    pub fn time_now(&self) -> u64 {
        match SystemTime::now().duration_since(UNIX_EPOCH) {
            Ok(d) => d.as_secs(),
            Err(_) => 0,
        }
    }

    /// Whether a refresh is due at time `now`; when it is, the timer
    /// restarts at `now`.
    pub fn refresh_due_at(&mut self, now: u64) -> (r: bool)
        ensures
            r == refresh_due(*old(self), now),
            r ==> *final(self) == (Settings { last_checked: now, ..*old(self) }),
            !r ==> *final(self) == *old(self),
    {
        if now >= self.last_checked && now - self.last_checked > self.refresh_time {
            self.last_checked = now;
            true
        } else {
            false
        }
    }

    /// Whether the wait interval has passed at time `now`; when it has, the
    /// timer restarts at `now`.
    pub fn wait_due_at(&mut self, now: u64) -> (r: bool)
        ensures
            r == wait_due(*old(self), now),
            r ==> *final(self) == (Settings { last_checked: now, ..*old(self) }),
            !r ==> *final(self) == *old(self),
    {
        if now >= self.last_checked && now - self.last_checked > self.wait_time {
            self.last_checked = now;
            true
        } else {
            false
        }
    }

    /// Seconds left at time `now` until a refresh is due.
    pub fn refresh_remaining_at(&self, now: u64) -> (r: u64)
        ensures
            r == remaining_refresh(*self, now),
    {
        if now >= self.last_checked {
            let elapsed = now - self.last_checked;
            if elapsed >= self.refresh_time {
                0
            } else {
                self.refresh_time - elapsed
            }
        } else {
            self.refresh_time
        }
    }

    /// Whether the refresh interval has passed, against the system clock.
    /// On success the timer restarts at the clock value it read, which the
    /// new `last_checked` records.
    pub fn can_refresh(&mut self) -> (r: bool)
        ensures
            r ==> *final(self) == (Settings {
                last_checked: final(self).last_checked,
                ..*old(self)
            }) && refresh_due(*old(self), final(self).last_checked),
            !r ==> *final(self) == *old(self),
    {
        let now = self.time_now();
        self.refresh_due_at(now)
    }

    /// Whether the wait interval has passed, against the system clock. On
    /// success the timer restarts at the clock value it read.
    pub fn can_wait(&mut self) -> (r: bool)
        ensures
            r ==> *final(self) == (Settings {
                last_checked: final(self).last_checked,
                ..*old(self)
            }) && wait_due(*old(self), final(self).last_checked),
            !r ==> *final(self) == *old(self),
    {
        let now = self.time_now();
        self.wait_due_at(now)
    }

    /// Seconds left until a refresh is due, against the system clock. The
    /// result is the remaining time for the clock value read, and never
    /// more than the refresh interval, whatever the clock said.
    pub fn get_refresh_time(&mut self) -> (r: u64)
        ensures
            *final(self) == *old(self),
            r <= old(self).refresh_time,
            exists|now: u64| r == remaining_refresh(*old(self), now),
    {
        let now = self.time_now();
        let r = self.refresh_remaining_at(now);
        proof {
            assert(r == remaining_refresh(*self, now));
        }
        r
    }
}

} // verus!
