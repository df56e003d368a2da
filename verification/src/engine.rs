//! The escalation engine: per owner and per pass it decides warn, clear or
//! nothing from the grace timer and one timestamp captured at the start of
//! the pass, and for each cleared owner it advances the violation and ban
//! counters and picks the message to send. The per-pass `micro` and
//! `cleared` sets stay disjoint, never hold the sentinel id, and never hold
//! an id twice, so each owner is decided, and each counter written, at most
//! once per pass.

use vstd::prelude::*;

use crate::snapshot::{contains_id, SENTINEL_OWNER};

verus! {

/// The configuration a pass runs under, immutable for its whole lifetime.
#[derive(Clone, Copy)]
pub struct PassConfig {
    /// The grace period in whole seconds; 0 means a violator is cleared on
    /// first sight, with no timer ever written.
    pub grace_secs: u64,
    /// Violations tolerated before exclusion starts.
    pub max_violations: u32,
    /// Temporary exclusions tolerated before a permanent one.
    pub max_bans: u32,
    /// Whether a disconnected owner's grace timer keeps running while the
    /// warning is suppressed. When false, a disconnected violator is not
    /// tracked this pass at all, and reconciliation drops any running timer
    /// so the grace window restarts when the owner is next seen connected.
    pub track_offline: bool,
}

/// What the engine decides for one owner seen violating this pass.
#[derive(Clone, Copy, Debug, PartialEq, Eq, Structural)]
pub enum OwnerAction {
    /// The owner was already decided earlier in this pass: do nothing.
    AlreadyHandled,
    /// The owner is disconnected and offline tracking is off: do nothing.
    Skipped,
    /// Remove the owner's content; the caller then advances the counters.
    Cleared,
    /// Write the grace timer at the pass timestamp; deliver the private
    /// warning iff `warn` (the owner is connected).
    StartTimer { warn: bool },
    /// A timer is already running and has not expired; deliver the private
    /// warning iff `warn`. Nothing is written.
    Warned { warn: bool },
}

/// The message a cleared owner receives once the counters are advanced.
#[derive(Clone, Copy, Debug, PartialEq, Eq, Structural)]
pub enum BanAction {
    /// A permanent exclusion.
    Permanent,
    /// A temporary exclusion; `remaining` further violations precede a
    /// permanent one.
    Temporary { remaining: i64 },
}

/// The kind of message a cleared owner receives, given the counters read
/// at the start of its clear step.
#[derive(Clone, Copy, Debug, PartialEq, Eq, Structural)]
pub enum MessageKind {
    /// A private status report: violations so far against the threshold.
    Status,
    /// A temporary exclusion.
    Temporary,
    /// A permanent exclusion.
    Permanent,
}

/// One enforcement pass: the configuration, the single timestamp every
/// time comparison of the pass uses, and the two per-pass owner sets.
pub struct Pass {
    /// The configuration this pass runs under.
    pub cfg: PassConfig,
    /// Epoch seconds captured once when the pass began.
    pub now: u64,
    /// Owners actively within their grace window this pass.
    pub micro: Vec<u128>,
    /// Owners whose content removal was triggered this pass.
    pub cleared: Vec<u128>,
}

/// `id` was already decided this pass.
pub open spec fn seen(p: Pass, id: u128) -> bool {
    p.micro@.contains(id) || p.cleared@.contains(id)
}

/// The engine's decision for one owner, from the pass state, the stored
/// grace-timer start (if any), and whether the owner is connected.
pub open spec fn decision(p: Pass, timer: Option<u64>, connected: bool, already: bool) -> OwnerAction {
    if already {
        OwnerAction::AlreadyHandled
    } else if !connected && !p.cfg.track_offline {
        OwnerAction::Skipped
    } else {
        match timer {
            Option::None => if p.cfg.grace_secs == 0 {
                OwnerAction::Cleared
            } else {
                (OwnerAction::StartTimer { warn: connected })
            },
            Option::Some(t) => if p.expired(t) {
                OwnerAction::Cleared
            } else {
                (OwnerAction::Warned { warn: connected })
            },
        }
    }
}

/// Reconciliation deletes the timer of `id` iff the owner was cleared this
/// pass or is no longer actively within a grace window.
pub open spec fn timer_should_delete(p: Pass, id: u128) -> bool {
    p.cleared@.contains(id) || !p.micro@.contains(id)
}

/// The message kind for a cleared owner whose counters read `v_before`
/// violations and `b_before` bans before this pass increments them.
pub open spec fn cleared_message_kind(cfg: PassConfig, v_before: int, b_before: int) -> MessageKind {
    if v_before + 1 <= cfg.max_violations as int {
        MessageKind::Status
    } else if b_before + 1 <= cfg.max_bans as int {
        MessageKind::Temporary
    } else {
        MessageKind::Permanent
    }
}

impl Pass {
    /// The per-pass sets hold no duplicate, are disjoint, and never hold
    /// the sentinel id.
    pub open spec fn wf(self) -> bool {
        &&& forall|j: int, k: int|
            0 <= j < k < self.micro@.len() ==> self.micro@[j] != self.micro@[k]
        &&& forall|j: int, k: int|
            0 <= j < k < self.cleared@.len() ==> self.cleared@[j] != self.cleared@[k]
        &&& forall|j: int, k: int|
            0 <= j < self.micro@.len() && 0 <= k < self.cleared@.len() ==> self.micro@[j]
                != self.cleared@[k]
        &&& forall|j: int| 0 <= j < self.micro@.len() ==> self.micro@[j] != SENTINEL_OWNER
        &&& forall|j: int| 0 <= j < self.cleared@.len() ==> self.cleared@[j] != SENTINEL_OWNER
    }

    /// The grace window that started at `t` is over at this pass's
    /// timestamp.
    pub open spec fn expired(self, t: u64) -> bool {
        self.now as int >= t as int + self.cfg.grace_secs as int
    }

    /// Starts a pass at an explicit timestamp.
    pub fn begin_at(cfg: PassConfig, now: u64) -> (p: Pass)
        ensures
            p.wf(),
            p.cfg == cfg,
            p.now == now,
            p.micro@ =~= Seq::<u128>::empty(),
            p.cleared@ =~= Seq::<u128>::empty(),
    {
        Pass { cfg, now, micro: Vec::new(), cleared: Vec::new() }
    }

    /// Starts a pass, capturing the one timestamp every time comparison of
    /// the pass uses.
    pub fn begin(cfg: PassConfig) -> (p: Pass)
        ensures
            p.wf(),
            p.cfg == cfg,
            p.micro@ =~= Seq::<u128>::empty(),
            p.cleared@ =~= Seq::<u128>::empty(),
    {
        let now = crate::clock::now_epoch_seconds();
        Pass::begin_at(cfg, now)
    }

    /// Decides whether the grace window that started at `t` is over,
    /// without overflowing.
    pub fn timer_expired(&self, t: u64) -> (r: bool)
        ensures
            r == self.expired(t),
    {
        self.cfg.grace_secs <= self.now && t <= self.now - self.cfg.grace_secs
    }

    /// Decides one owner seen placing a prohibited brick this pass:
    /// the returned action tells the caller what to perform (clear, write
    /// the timer, warn), and the pass records the owner in `cleared` or
    /// `micro` accordingly. Deciding the same owner again in one pass does
    /// nothing, so each owner is cleared, and each timer written, at most
    /// once per pass.
    pub fn observe_owner(&mut self, id: u128, timer: Option<u64>, roster: &Vec<u128>) -> (a:
        OwnerAction)
        requires
            old(self).wf(),
            id != SENTINEL_OWNER,
        ensures
            final(self).wf(),
            final(self).cfg == old(self).cfg,
            final(self).now == old(self).now,
            a == decision(*old(self), timer, roster@.contains(id), seen(*old(self), id)),
            final(self).micro@ == (if (a is StartTimer || a is Warned) {
                old(self).micro@.push(id)
            } else {
                old(self).micro@
            }),
            final(self).cleared@ == (if a is Cleared {
                old(self).cleared@.push(id)
            } else {
                old(self).cleared@
            }),
    {
        if contains_id(&self.micro, id) || contains_id(&self.cleared, id) {
            return OwnerAction::AlreadyHandled;
        }
        let connected = contains_id(roster, id);
        if !connected && !self.cfg.track_offline {
            return OwnerAction::Skipped;
        }
        let expired = match timer {
            Option::None => false,
            Option::Some(t) => self.timer_expired(t),
        };
        if (timer.is_none() && self.cfg.grace_secs == 0) || (timer.is_some() && expired) {
            let ghost c0 = self.cleared@;
            self.cleared.push(id);
            proof {
                assert(self.cleared@ == c0.push(id));
            }
            OwnerAction::Cleared
        } else {
            let ghost m0 = self.micro@;
            self.micro.push(id);
            proof {
                assert(self.micro@ == m0.push(id));
            }
            if timer.is_none() {
                OwnerAction::StartTimer { warn: connected }
            } else {
                OwnerAction::Warned { warn: connected }
            }
        }
    }

    /// The finalized cleared set of this pass, one id each.
    pub fn cleared_ids(&self) -> (r: Vec<u128>)
        ensures
            r@ == self.cleared@,
    {
        let mut r: Vec<u128> = Vec::new();
        let mut i: usize = 0;
        while i < self.cleared.len()
            invariant
                i <= self.cleared@.len(),
                r@ == self.cleared@.subrange(0, i as int),
            decreases self.cleared@.len() - i,
        {
            r.push(self.cleared[i]);
            proof {
                assert(r@ =~= self.cleared@.subrange(0, i as int + 1));
            }
            i = i + 1;
        }
        proof {
            assert(r@ =~= self.cleared@);
        }
        r
    }

    /// Reconciliation's per-timer decision: delete the timer of `id` iff
    /// the owner was cleared this pass or is not actively warned this pass.
    pub fn should_delete_timer(&self, id: u128) -> (r: bool)
        ensures
            r == timer_should_delete(*self, id),
    {
        contains_id(&self.cleared, id) || !contains_id(&self.micro, id)
    }
}

/// Advances a cleared owner's violation counter, read fresh from the
/// ledger this pass: the new value to write back is exactly one more, and
/// the second component says whether the exclusion step follows.
pub fn violation_step(cfg: &PassConfig, v_before: i64) -> (r: (i64, bool))
    requires
        0 <= v_before < i64::MAX,
    ensures
        r.0 == v_before + 1,
        r.1 == (r.0 > cfg.max_violations as i64),
        r.1 == (cleared_message_kind(*cfg, v_before as int, 0) != MessageKind::Status),
{
    let nv = v_before + 1;
    (nv, nv > cfg.max_violations as i64)
}

/// Advances a cleared owner's ban counter once the violation threshold is
/// crossed: the new value to write back is exactly one more, and the
/// action says whether the exclusion is temporary (with how many further
/// violations precede permanence) or permanent.
pub fn ban_step(cfg: &PassConfig, b_before: i64) -> (r: (i64, BanAction))
    requires
        0 <= b_before < i64::MAX,
    ensures
        r.0 == b_before + 1,
        r.0 > cfg.max_bans as i64 ==> r.1 == BanAction::Permanent,
        r.0 <= cfg.max_bans as i64 ==> r.1 == (BanAction::Temporary {
            remaining: (cfg.max_bans as i64 - r.0) as i64,
        }),
{
    let nb = b_before + 1;
    if nb > cfg.max_bans as i64 {
        (nb, BanAction::Permanent)
    } else {
        (nb, BanAction::Temporary { remaining: cfg.max_bans as i64 - nb })
    }
}

} // verus!
