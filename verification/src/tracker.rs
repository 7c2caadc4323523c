//! Tracker-side logic: edge timing on three sensor channels and the
//! localization decision built on it.
//!
//! Times are nanoseconds read from a monotonic clock started at zero, held
//! as non-negative `i64` values so that any difference of two of them again
//! fits an `i64`. Each poll hands the current level of the three channels
//! and the current time to `Workspace::poll`, which updates the per-channel
//! transition records and reports a localization event when the validity
//! predicate holds.

use vstd::prelude::*;
use crate::common::ControlData;

verus! {

/// Minimum time, in nanoseconds, a channel must hold its active level before
/// that level is trusted (stability window, 100 ms).
pub const STABILITY_WINDOW_NS: i64 = 100_000_000;

/// Maximum allowed spread, in nanoseconds, between the three channels'
/// transition times for them to count as one physical event (coincidence
/// window, 50 ms).
pub const COINCIDENCE_WINDOW_NS: i64 = 50_000_000;

/// Per-channel record of the last observed level and the time of the last
/// level change.
#[derive(Clone, Copy, Debug, PartialEq, Eq, Structural)]
pub struct ChannelTimestamp {
    /// Last observed boolean level of the channel.
    pub level: bool,
    /// Monotonic time, in nanoseconds, of the most recent level change.
    pub last_transition: i64,
}

impl ChannelTimestamp {
    /// A transition time is a reading of the monotonic clock, never negative.
    pub open spec fn wf(self) -> bool {
        0 <= self.last_transition
    }

    /// A fresh record: inactive since time zero.
    pub fn new() -> (r: Self)
        ensures
            r.wf(),
            r.level == false,
            r.last_transition == 0,
    {
        Self { level: false, last_transition: 0 }
    }

    /// One poll of this channel: the recorded transition time moves to `now`
    /// exactly when the observed level differs from the recorded one.
    pub fn observe(&mut self, level: bool, now: i64) -> (changed: bool)
        requires
            old(self).wf(),
            old(self).last_transition <= now,
        ensures
            final(self).wf(),
            changed == (level != old(self).level),
            final(self).level == level,
            final(self).last_transition == if level != old(self).level {
                now
            } else {
                old(self).last_transition
            },
    {
        if level != self.level {
            self.level = level;
            self.last_transition = now;
            true
        } else {
            false
        }
    }
}

/// A snapshot of the three channels' last-transition times, produced only
/// when the validity criteria hold. Times are nanoseconds, non-negative.
#[derive(Clone, Copy, Debug, PartialEq, Eq, Structural)]
pub struct StateData {
    pub a: i64,
    pub b: i64,
    pub c: i64,
}

impl StateData {
    pub open spec fn wf(self) -> bool {
        0 <= self.a && 0 <= self.b && 0 <= self.c
    }
}

/// The tracker's three sensor channels.
#[derive(Clone, Copy, Debug, PartialEq, Eq, Structural)]
pub struct Workspace {
    pub recv_a: ChannelTimestamp,
    pub recv_b: ChannelTimestamp,
    pub recv_c: ChannelTimestamp,
}

/// The earliest of the three transition times.
pub open spec fn earliest_of(a: int, b: int, c: int) -> int {
    if a <= b && a <= c {
        a
    } else if b <= a && b <= c {
        b
    } else {
        c
    }
}

impl Workspace {
    pub open spec fn wf(self) -> bool {
        self.recv_a.wf() && self.recv_b.wf() && self.recv_c.wf()
    }

    /// All transition records lie at or before `now`.
    pub open spec fn up_to(self, now: i64) -> bool {
        self.recv_a.last_transition <= now && self.recv_b.last_transition <= now
            && self.recv_c.last_transition <= now
    }

    /// A fresh workspace: all channels inactive since time zero.
    pub fn new() -> (r: Self)
        ensures
            r.wf(),
            r.up_to(0),
            r == (Workspace {
                recv_a: ChannelTimestamp { level: false, last_transition: 0 },
                recv_b: ChannelTimestamp { level: false, last_transition: 0 },
                recv_c: ChannelTimestamp { level: false, last_transition: 0 },
            }),
    {
        Workspace { recv_a: ChannelTimestamp::new(), recv_b: ChannelTimestamp::new(), recv_c: ChannelTimestamp::new() }
    }

    /// The localizer's validity predicate at time `now`: all three channels
    /// active, each continuously active for longer than the stability
    /// window, and the three transition times clustered within the
    /// coincidence window of the earliest one.
    pub open spec fn valid_event(self, now: i64) -> bool {
        let ta = self.recv_a.last_transition as int;
        let tb = self.recv_b.last_transition as int;
        let tc = self.recv_c.last_transition as int;
        let earliest = earliest_of(ta, tb, tc);
        &&& self.recv_a.level
        &&& self.recv_b.level
        &&& self.recv_c.level
        &&& now - ta > STABILITY_WINDOW_NS
        &&& now - tb > STABILITY_WINDOW_NS
        &&& now - tc > STABILITY_WINDOW_NS
        &&& ta - earliest < COINCIDENCE_WINDOW_NS
        &&& tb - earliest < COINCIDENCE_WINDOW_NS
        &&& tc - earliest < COINCIDENCE_WINDOW_NS
    }

    /// The snapshot a valid event yields: the three transition times.
    pub open spec fn snapshot(self) -> StateData {
        StateData {
            a: self.recv_a.last_transition,
            b: self.recv_b.last_transition,
            c: self.recv_c.last_transition,
        }
    }

    /// Localization decision at time `now`: a snapshot exactly when the
    /// validity predicate holds, nothing otherwise.
    pub fn check_event(&self, now: i64) -> (r: Option<StateData>)
        requires
            self.wf(),
            self.up_to(now),
        ensures
            r is Some <==> self.valid_event(now),
            r is Some ==> r->0 == self.snapshot() && r->0.wf(),
    {
        let ta = self.recv_a.last_transition;
        let tb = self.recv_b.last_transition;
        let tc = self.recv_c.last_transition;
        let earliest = if ta <= tb && ta <= tc {
            ta
        } else if tb <= ta && tb <= tc {
            tb
        } else {
            tc
        };
        if self.recv_a.level && self.recv_b.level && self.recv_c.level
            && now - ta > STABILITY_WINDOW_NS && now - tb > STABILITY_WINDOW_NS
            && now - tc > STABILITY_WINDOW_NS && ta - earliest < COINCIDENCE_WINDOW_NS
            && tb - earliest < COINCIDENCE_WINDOW_NS && tc - earliest < COINCIDENCE_WINDOW_NS {
            Some(StateData { a: ta, b: tb, c: tc })
        } else {
            None
        }
    }

    /// One poll cycle: record the three current levels, moving each
    /// channel's transition time to `now` exactly when its level changed,
    /// then report a localization event if the updated records validate.
    pub fn poll(&mut self, a: bool, b: bool, c: bool, now: i64) -> (r: Option<StateData>)
        requires
            old(self).wf(),
            old(self).up_to(now),
        ensures
            final(self).wf(),
            final(self).up_to(now),
            final(self).recv_a.level == a && final(self).recv_b.level == b && final(self).recv_c.level
                == c,
            final(self).recv_a.last_transition == if a != old(self).recv_a.level {
                now
            } else {
                old(self).recv_a.last_transition
            },
            final(self).recv_b.last_transition == if b != old(self).recv_b.level {
                now
            } else {
                old(self).recv_b.last_transition
            },
            final(self).recv_c.last_transition == if c != old(self).recv_c.level {
                now
            } else {
                old(self).recv_c.last_transition
            },
            r is Some <==> final(self).valid_event(now),
            r is Some ==> r->0 == final(self).snapshot() && r->0.wf(),
    {
        self.recv_a.observe(a, now);
        self.recv_b.observe(b, now);
        self.recv_c.observe(c, now);
        self.check_event(now)
    }
}

/// The localization value a snapshot stands for: the signed difference, in
/// nanoseconds, between channel A's and channel B's transition times, with B
/// as the reference. A after B gives a positive offset, a tie gives zero.
pub open spec fn offset_of(data: StateData) -> int {
    data.a - data.b
}

/// Turns a validated snapshot into the wire/control value.
pub fn calculate(data: StateData) -> (r: ControlData)
    requires
        data.wf(),
    ensures
        r.offset == offset_of(data),
{
    if data.a >= data.b {
        ControlData { offset: data.a - data.b }
    } else {
        ControlData { offset: -(data.b - data.a) }
    }
}

/// Law: the offset's sign follows the order of A's and B's transition
/// times. Strictly later A gives a strictly positive offset equal to the
/// time difference; a tie gives exactly zero; earlier A gives the negated
/// magnitude.
pub proof fn lemma_offset_sign(data: StateData)
    requires
        data.wf(),
    ensures
        data.a > data.b ==> offset_of(data) > 0 && offset_of(data) == data.a - data.b,
        data.a == data.b ==> offset_of(data) == 0,
        data.a < data.b ==> offset_of(data) == -(data.b - data.a) && offset_of(data) < 0,
{
}

} // verus!
