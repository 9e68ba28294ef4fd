//! The cooperative schedule: five independently periodic actions multiplexed
//! onto one loop.
//!
//! The loop runs whichever action falls due first, to completion, then waits
//! again; no two actions overlap. Actions due at the same instant are
//! resolved by one fixed priority order — sample, upload, heartbeat,
//! ota-check, shadow-check — so the tie-break is deterministic and stable.
//! Replacing a period discards the old timer: the next firing is the current
//! instant plus the new period, with no phase carried over.
use vstd::prelude::*;

verus! {

/// The five periodic activities, in their fixed tie-break order.
#[derive(Clone, Copy, Debug, PartialEq, Eq, Structural)]
pub enum ActionKind {
    Sample,
    Upload,
    Heartbeat,
    OtaCheck,
    ShadowCheck,
}

/// Tie-break rank of an action: lower runs first among actions due at the
/// same instant.
pub open spec fn priority(k: ActionKind) -> int {
    match k {
        ActionKind::Sample => 0,
        ActionKind::Upload => 1,
        ActionKind::Heartbeat => 2,
        ActionKind::OtaCheck => 3,
        ActionKind::ShadowCheck => 4,
    }
}

/// Addition on the clock: a deadline past the end of the representable
/// range saturates instead of wrapping.
pub open spec fn sat_add(a: u64, b: u64) -> u64 {
    if a + b <= u64::MAX {
        (a + b) as u64
    } else {
        u64::MAX
    }
}

/// One periodic trigger: its period and the instant it next fires, both in
/// seconds of one monotone clock.
pub struct Timer {
    pub period_secs: u64,
    pub next_due: u64,
}

/// The agent's schedule: a monotone clock and one timer per action.
pub struct Scheduler {
    pub now: u64,
    pub sample: Timer,
    pub upload: Timer,
    pub heartbeat: Timer,
    pub ota_check: Timer,
    pub shadow_check: Timer,
}

impl Scheduler {
    /// The timer of one action.
    pub open spec fn timer_of(self, k: ActionKind) -> Timer {
        match k {
            ActionKind::Sample => self.sample,
            ActionKind::Upload => self.upload,
            ActionKind::Heartbeat => self.heartbeat,
            ActionKind::OtaCheck => self.ota_check,
            ActionKind::ShadowCheck => self.shadow_check,
        }
    }

    /// The instant one action next fires.
    pub open spec fn due_of(self, k: ActionKind) -> u64 {
        self.timer_of(k).next_due
    }

    /// The period of one action.
    pub open spec fn period_of(self, k: ActionKind) -> u64 {
        self.timer_of(k).period_secs
    }

    /// The scheduler after one action's period is replaced: that timer is
    /// discarded and re-armed at `now` plus the new period; nothing else
    /// moves.
    pub open spec fn spec_reconfigured(self, k: ActionKind, new_period: u64) -> Scheduler {
        let t = Timer { period_secs: new_period, next_due: sat_add(self.now, new_period) };
        match k {
            ActionKind::Sample => Scheduler { sample: t, ..self },
            ActionKind::Upload => Scheduler { upload: t, ..self },
            ActionKind::Heartbeat => Scheduler { heartbeat: t, ..self },
            ActionKind::OtaCheck => Scheduler { ota_check: t, ..self },
            ActionKind::ShadowCheck => Scheduler { shadow_check: t, ..self },
        }
    }

    /// A fresh schedule: every timer armed one period from `now`.
    pub fn new(
        now: u64,
        sample_period: u64,
        upload_period: u64,
        heartbeat_period: u64,
        ota_check_period: u64,
        shadow_check_period: u64,
    ) -> (s: Scheduler)
        ensures
            s.now == now,
            s.sample == (Timer { period_secs: sample_period, next_due: sat_add(now, sample_period) }),
            s.upload == (Timer { period_secs: upload_period, next_due: sat_add(now, upload_period) }),
            s.heartbeat == (Timer {
                period_secs: heartbeat_period,
                next_due: sat_add(now, heartbeat_period),
            }),
            s.ota_check == (Timer {
                period_secs: ota_check_period,
                next_due: sat_add(now, ota_check_period),
            }),
            s.shadow_check == (Timer {
                period_secs: shadow_check_period,
                next_due: sat_add(now, shadow_check_period),
            }),
    {
        Scheduler {
            now,
            sample: Timer { period_secs: sample_period, next_due: saturating_add(now, sample_period) },
            upload: Timer { period_secs: upload_period, next_due: saturating_add(now, upload_period) },
            heartbeat: Timer {
                period_secs: heartbeat_period,
                next_due: saturating_add(now, heartbeat_period),
            },
            ota_check: Timer {
                period_secs: ota_check_period,
                next_due: saturating_add(now, ota_check_period),
            },
            shadow_check: Timer {
                period_secs: shadow_check_period,
                next_due: saturating_add(now, shadow_check_period),
            },
        }
    }

    /// Replace one action's period, discarding its old timer.
    pub fn reconfigure(&mut self, k: ActionKind, new_period: u64)
        ensures
            *final(self) == old(self).spec_reconfigured(k, new_period),
    {
        let t = Timer { period_secs: new_period, next_due: saturating_add(self.now, new_period) };
        match k {
            ActionKind::Sample => self.sample = t,
            ActionKind::Upload => self.upload = t,
            ActionKind::Heartbeat => self.heartbeat = t,
            ActionKind::OtaCheck => self.ota_check = t,
            ActionKind::ShadowCheck => self.shadow_check = t,
        }
    }

    /// Move the clock forward; no timer moves.
    pub fn advance(&mut self, t: u64)
        requires
            old(self).now <= t,
        ensures
            *final(self) == (Scheduler { now: t, ..*old(self) }),
    {
        self.now = t;
    }

    /// The action the loop runs next: the one whose deadline is earliest,
    /// and among actions sharing that deadline, the one of highest priority.
    /// Also returns that deadline.
    pub fn next_action(&self) -> (r: (ActionKind, u64))
        ensures
            r.1 == self.due_of(r.0),
            forall|k: ActionKind| self.due_of(r.0) <= #[trigger] self.due_of(k),
            forall|k: ActionKind|
                self.due_of(r.0) == #[trigger] self.due_of(k) ==> priority(r.0) <= priority(k),
    {
        let mut best = ActionKind::Sample;
        let mut due = self.sample.next_due;
        if self.upload.next_due < due {
            best = ActionKind::Upload;
            due = self.upload.next_due;
        }
        if self.heartbeat.next_due < due {
            best = ActionKind::Heartbeat;
            due = self.heartbeat.next_due;
        }
        if self.ota_check.next_due < due {
            best = ActionKind::OtaCheck;
            due = self.ota_check.next_due;
        }
        if self.shadow_check.next_due < due {
            best = ActionKind::ShadowCheck;
            due = self.shadow_check.next_due;
        }
        (best, due)
    }

    /// Note that one action just ran: re-arm its timer one period from now.
    pub fn fire(&mut self, k: ActionKind)
        ensures
            *final(self) == (Scheduler {
                now: old(self).now,
                ..old(self).spec_reconfigured(k, old(self).period_of(k))
            }),
            final(self).period_of(k) == old(self).period_of(k),
            final(self).due_of(k) == sat_add(old(self).now, old(self).period_of(k)),
    {
        let t = Timer {
            period_secs: self.period_of_exec(k),
            next_due: saturating_add(self.now, self.period_of_exec(k)),
        };
        match k {
            ActionKind::Sample => self.sample = t,
            ActionKind::Upload => self.upload = t,
            ActionKind::Heartbeat => self.heartbeat = t,
            ActionKind::OtaCheck => self.ota_check = t,
            ActionKind::ShadowCheck => self.shadow_check = t,
        }
    }

    /// The period of one action, for callers outside ghost code.
    pub fn period_of_exec(&self, k: ActionKind) -> (p: u64)
        ensures
            p == self.period_of(k),
    {
        match k {
            ActionKind::Sample => self.sample.period_secs,
            ActionKind::Upload => self.upload.period_secs,
            ActionKind::Heartbeat => self.heartbeat.period_secs,
            ActionKind::OtaCheck => self.ota_check.period_secs,
            ActionKind::ShadowCheck => self.shadow_check.period_secs,
        }
    }
}

/// `sat_add`, computed: the sum where it fits, the top of the range where
/// it does not.
pub fn saturating_add(a: u64, b: u64) -> (r: u64)
    ensures
        r == sat_add(a, b),
{
    if a <= u64::MAX - b {
        a + b
    } else {
        u64::MAX
    }
}

} // verus!
