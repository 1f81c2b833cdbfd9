//! The timing of a periodic task: when a period started, how late it started, and how long
//! its work took. Times and durations are in microseconds.
use vstd::prelude::*;
use crate::messages::Diagnostics;

verus! {

/// The timing of a periodic task.
#[derive(Debug, PartialEq, Eq, Structural, Clone, Copy)]
pub struct Timer {
    /// The period.
    pub duration: u64,
    /// When the current period's work started.
    pub start_time: u64,
    /// When the next period's work is due, if that time is known.
    pub expected_time: Option<u64>,
    /// The diagnostics of the current period.
    pub diagnostics: Diagnostics,
}

/// How late `now` is after `expected`, or zero when it is not late.
pub open spec fn lateness(now: u64, expected: Option<u64>) -> u64 {
    match expected {
        None => 0,
        Some(time) => if now >= time {
            (now - time) as u64
        } else {
            0
        },
    }
}

/// A time plus a duration, unless the sum overflows.
pub open spec fn checked_later(time: u64, duration: u64) -> Option<u64> {
    if time + duration <= u64::MAX {
        Some((time + duration) as u64)
    } else {
        None
    }
}

/// The timer after a period's work starts at `now`: the next period is due one period after
/// the one that was due, or after now at the first period.
pub open spec fn started(timer: Timer, now: u64) -> Timer {
    Timer {
        start_time: now,
        expected_time: match timer.expected_time {
            None => checked_later(now, timer.duration),
            Some(expected) => checked_later(expected, timer.duration),
        },
        diagnostics: Diagnostics {
            timestamp_us: now,
            jitter_in_us: lateness(now, timer.expected_time),
            ..timer.diagnostics
        },
        ..timer
    }
}

/// The timer after a period's work ends at `now`.
pub open spec fn stopped(timer: Timer, now: u64) -> Timer {
    Timer {
        diagnostics: Diagnostics {
            execution_us: if now >= timer.start_time {
                (now - timer.start_time) as u64
            } else {
                0
            },
            ..timer.diagnostics
        },
        ..timer
    }
}

/// `checked_add` on times: the sum, unless it overflows.
fn checked_add(time: u64, duration: u64) -> (sum: Option<u64>)
    ensures
        sum == checked_later(time, duration),
{
    time.checked_add(duration)
}

/// `checked_duration_since` on times: how long after `earlier` the time `later` is, if it is.
fn checked_duration_since(later: u64, earlier: u64) -> (duration: Option<u64>)
    ensures
        later >= earlier ==> duration == Some((later - earlier) as u64),
        later < earlier ==> duration is None,
{
    later.checked_sub(earlier)
}

impl Timer {
    /// A timer with the given period, created at `now`.
    pub fn new(duration: u64, now: u64) -> (timer: Timer)
        ensures
            timer.duration == duration,
            timer.start_time == now,
            timer.expected_time is None,
            timer.diagnostics == (Diagnostics {
                timestamp_us: 0,
                execution_us: 0,
                jitter_in_us: 0,
                period_in_us: duration,
            }),
    {
        Timer {
            duration,
            start_time: now,
            expected_time: None,
            diagnostics: Diagnostics {
                timestamp_us: 0,
                execution_us: 0,
                jitter_in_us: 0,
                period_in_us: duration,
            },
        }
    }

    /// Records that a period's work starts at `now`.
    pub fn start(&mut self, now: u64)
        ensures
            *final(self) == started(*old(self), now),
    {
        self.start_time = now;

        let jitter = match self.expected_time {
            None => 0,
            Some(expected_time) => match checked_duration_since(self.start_time, expected_time) {
                Some(duration) => duration,
                None => 0,
            },
        };

        self.diagnostics.timestamp_us = self.start_time;
        self.diagnostics.jitter_in_us = jitter;
        self.expected_time = match self.expected_time {
            None => checked_add(self.start_time, self.duration),
            Some(expected_time) => checked_add(expected_time, self.duration),
        };
    }

    /// Records that the period's work ends at `now`, and returns the period's diagnostics.
    pub fn stop(&mut self, now: u64) -> (diagnostics: Diagnostics)
        ensures
            *final(self) == stopped(*old(self), now),
            diagnostics == final(self).diagnostics,
    {
        self.diagnostics.execution_us = match checked_duration_since(now, self.start_time) {
            Some(duration) => duration,
            None => 0,
        };
        Diagnostics { ..self.diagnostics }
    }
}

/// Periods do not drift: while the due times fit, each start moves the due time by exactly
/// one period, however late the work started.
pub proof fn lemma_periods_do_not_drift(timer: Timer, now: u64)
    requires
        timer.expected_time matches Some(expected) && expected + timer.duration <= u64::MAX,
    ensures
        started(timer, now).expected_time == Some(
            (timer.expected_time->0 + timer.duration) as u64,
        ),
{
}

/// Jitter is how late the work started against the due time, and zero when it was early or
/// nothing was due.
pub proof fn lemma_jitter_is_lateness(timer: Timer, now: u64, expected: u64)
    ensures
        timer.expected_time == Some(expected) && now >= expected
            ==> started(timer, now).diagnostics.jitter_in_us == now - expected,
        timer.expected_time == Some(expected) && now < expected
            ==> started(timer, now).diagnostics.jitter_in_us == 0,
        timer.expected_time is None ==> started(timer, now).diagnostics.jitter_in_us == 0,
{
}

/// Stopping reports how long the work took since it started, and keeps the start's timestamp
/// and jitter.
pub proof fn lemma_stop_reports_execution_time(timer: Timer, start: u64, end: u64)
    requires
        start <= end,
    ensures
        stopped(started(timer, start), end).diagnostics.execution_us == end - start,
        stopped(started(timer, start), end).diagnostics.timestamp_us == start,
        stopped(started(timer, start), end).diagnostics.jitter_in_us == started(
            timer,
            start,
        ).diagnostics.jitter_in_us,
        stopped(started(timer, start), end).diagnostics.period_in_us
            == timer.diagnostics.period_in_us,
{
}

/// The first period is due one period after the work first started, and a period's start
/// records its time as the report's timestamp and keeps the period; a stop before the start
/// reports no execution time.
pub proof fn lemma_first_period_and_early_stop(timer: Timer, now: u64, end: u64)
    ensures
        timer.expected_time is None && now + timer.duration <= u64::MAX ==> started(
            timer,
            now,
        ).expected_time == Some((now + timer.duration) as u64),
        timer.expected_time is None && now + timer.duration > u64::MAX ==> started(
            timer,
            now,
        ).expected_time is None,
        started(timer, now).start_time == now,
        started(timer, now).duration == timer.duration,
        started(timer, now).diagnostics.timestamp_us == now,
        started(timer, now).diagnostics.period_in_us == timer.diagnostics.period_in_us,
        end < timer.start_time ==> stopped(timer, end).diagnostics.execution_us == 0,
        stopped(timer, end).start_time == timer.start_time,
        stopped(timer, end).expected_time == timer.expected_time,
{
}

} // verus!
