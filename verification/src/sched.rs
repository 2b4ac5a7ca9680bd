//! The scheduler's clock-comparison state machine: four registers that
//! remember the last observed second, minute, hour and day, and the
//! per-tick computation of which cadences changed.
//!
//! The loop that samples the clock and sleeps lives outside the library;
//! it feeds each observed timestamp through `tick`.

use vstd::prelude::*;

use crate::message::{build, spec_build, spec_messages_of, BuilderParams, Message};
use crate::order::{clone_orders, Order};
use crate::time::Timestamp;
use crate::unit::SyncFlag;

verus! {

/// An unreachable register value: no clock field ever reads it, so the
/// first comparison against it always reports a change.
pub open spec fn spec_unset_register() -> u32 {
    0xffff_ffff
}

/// The scheduler's comparison registers.
#[derive(Debug, Clone, Copy, PartialEq, Eq, Structural)]
pub struct SchedulerState {
    pub current_second: u32,
    pub current_minute: u32,
    pub current_hour: u32,
    pub current_day: u32,
}

/// The change flags a tick at `t` computes out of the state `s`, and the
/// registers it leaves behind: with `send_all` every flag is set and the
/// registers keep their values; otherwise each cadence bit reports its
/// own field differing from its register, and exactly the changed
/// registers take the new field.
pub open spec fn spec_flags_after(s: SchedulerState, t: Timestamp, send_all: bool) -> (
    SyncFlag,
    SchedulerState,
) {
    if send_all {
        (SyncFlag { minute: true, hour: true, day: true }, s)
    } else {
        let minute_changed = t.minute != s.current_minute;
        let hour_changed = t.hour != s.current_hour;
        let day_changed = t.day != s.current_day;
        (
            SyncFlag { minute: minute_changed, hour: hour_changed, day: day_changed },
            SchedulerState {
                current_second: s.current_second,
                current_minute: if minute_changed {
                    t.minute
                } else {
                    s.current_minute
                },
                current_hour: if hour_changed {
                    t.hour
                } else {
                    s.current_hour
                },
                current_day: if day_changed {
                    t.day
                } else {
                    s.current_day
                },
            },
        )
    }
}

impl SchedulerState {
    /// A fresh scheduler: the second register holds the second observed
    /// before the alignment wait; the three cadence registers hold the
    /// unreachable value, so the first tick reports every cadence
    /// changed.
    pub fn new(initial_second: u32) -> (r: SchedulerState)
        ensures
            r == (SchedulerState {
                current_second: initial_second,
                current_minute: spec_unset_register(),
                current_hour: spec_unset_register(),
                current_day: spec_unset_register(),
            }),
    {
        SchedulerState {
            current_second: initial_second,
            current_minute: 0xffff_ffff,
            current_hour: 0xffff_ffff,
            current_day: 0xffff_ffff,
        }
    }

    /// Whether the rate-restricted loop keeps waiting at `t`: only under
    /// the restriction, and only while the second has not moved on.
    pub fn should_defer(&self, restrict_send_rate: bool, t: &Timestamp) -> (r: bool)
        ensures
            r == (restrict_send_rate && t.second == self.current_second),
    {
        restrict_send_rate && t.second == self.current_second
    }

    /// Compute this tick's change flags and update the cadence registers,
    /// as `spec_flags_after` says.
    pub fn compute_flags(&mut self, t: &Timestamp, send_all: bool) -> (r: SyncFlag)
        ensures
            r == spec_flags_after(*old(self), *t, send_all).0,
            *final(self) == spec_flags_after(*old(self), *t, send_all).1,
    {
        if send_all {
            SyncFlag { minute: true, hour: true, day: true }
        } else {
            let minute_changed = t.minute != self.current_minute;
            let hour_changed = t.hour != self.current_hour;
            let day_changed = t.day != self.current_day;
            if minute_changed {
                self.current_minute = t.minute;
            }
            if hour_changed {
                self.current_hour = t.hour;
            }
            if day_changed {
                self.current_day = t.day;
            }
            SyncFlag { minute: minute_changed, hour: hour_changed, day: day_changed }
        }
    }

    /// One scheduler tick at the observed time `t`: compute the change
    /// flags, build the messages for the given sender orders under them,
    /// and remember `t`'s second.
    pub fn tick(&mut self, t: &Timestamp, send_all: bool, orders: &Vec<Order>) -> (r: Vec<
        Message,
    >)
        requires
            t.wf(),
        ensures
            ({
                let (flags, regs) = spec_flags_after(*old(self), *t, send_all);
                &&& spec_messages_of(r@) == spec_build(orders@, *t, flags)
                &&& *final(self) == (SchedulerState { current_second: t.second, ..regs })
            }),
    {
        let flags = self.compute_flags(t, send_all);
        let params = BuilderParams { orders: clone_orders(orders), sync_flag: flags };
        let messages = build(params, t);
        self.current_second = t.second;
        messages
    }
}

} // verus!
