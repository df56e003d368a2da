//! The library's stated laws: what holds of every pass, proved once and
//! for all over the engine's specification functions.

use vstd::prelude::*;

use crate::engine::{
    cleared_message_kind, decision, timer_should_delete, MessageKind, OwnerAction, Pass,
    PassConfig,
};
use crate::policy::prohibited;
use crate::snapshot::{Snapshot, SENTINEL_OWNER};

verus! {

/// In every pass, the actively-warned set and the cleared set are
/// disjoint, and neither ever contains the sentinel id.
pub proof fn law_sets_disjoint_no_sentinel(p: Pass)
    requires
        p.wf(),
    ensures
        forall|id: u128| !(p.micro@.contains(id) && p.cleared@.contains(id)),
        !p.micro@.contains(SENTINEL_OWNER),
        !p.cleared@.contains(SENTINEL_OWNER),
{
    assert forall|id: u128| !(p.micro@.contains(id) && p.cleared@.contains(id)) by {
        if p.micro@.contains(id) && p.cleared@.contains(id) {
            let j = choose|j: int| 0 <= j < p.micro@.len() && p.micro@[j] == id;
            let k = choose|k: int| 0 <= k < p.cleared@.len() && p.cleared@[k] == id;
            assert(p.micro@[j] != p.cleared@[k]);
        }
    }
    if p.micro@.contains(SENTINEL_OWNER) {
        let j = choose|j: int| 0 <= j < p.micro@.len() && p.micro@[j] == SENTINEL_OWNER;
        assert(p.micro@[j] != SENTINEL_OWNER);
    }
    if p.cleared@.contains(SENTINEL_OWNER) {
        let j = choose|j: int| 0 <= j < p.cleared@.len() && p.cleared@[j] == SENTINEL_OWNER;
        assert(p.cleared@[j] != SENTINEL_OWNER);
    }
}

/// With a zero grace period, a first-seen violating owner is cleared on
/// the same pass, and no timer is ever written for it.
pub proof fn law_zero_grace_clears_at_once(p: Pass, connected: bool)
    requires
        p.cfg.grace_secs == 0,
        connected || p.cfg.track_offline,
    ensures
        decision(p, Option::None, connected, false) == OwnerAction::Cleared,
        !(decision(p, Option::None, connected, false) is StartTimer),
{
}

/// While a running timer has not expired, a connected owner is warned, not
/// cleared, and nothing tells the caller to touch the timer.
pub proof fn law_unexpired_timer_warns(p: Pass, t: u64)
    requires
        (p.now as int) < t as int + p.cfg.grace_secs as int,
    ensures
        decision(p, Option::Some(t), true, false) == (OwnerAction::Warned { warn: true }),
        !(decision(p, Option::Some(t), true, false) is Cleared),
        !(decision(p, Option::Some(t), true, false) is StartTimer),
{
}

/// Once a running timer has expired, the owner is cleared; and a cleared
/// owner's timer is one that reconciliation deletes before the pass ends.
pub proof fn law_expired_timer_clears(p: Pass, t: u64, connected: bool, id: u128)
    requires
        p.now as int >= t as int + p.cfg.grace_secs as int,
        connected || p.cfg.track_offline,
        p.cleared@.contains(id),
    ensures
        decision(p, Option::Some(t), connected, false) == OwnerAction::Cleared,
        timer_should_delete(p, id),
{
}

/// A pass clears each owner at most once: the cleared set never repeats an
/// id, so the read-increment-write of `violation_step`, run once per entry
/// of that set, advances a cleared owner's counter by exactly one per
/// pass, and no other owner's at all.
pub proof fn law_one_clear_per_owner(p: Pass)
    requires
        p.wf(),
    ensures
        forall|j: int, k: int|
            0 <= j < k < p.cleared@.len() ==> p.cleared@[j] != p.cleared@[k],
{
}

/// Crossing the violation threshold switches a cleared owner's message
/// from a status report to a temporary exclusion, and crossing the ban
/// threshold switches temporary to permanent.
pub proof fn law_threshold_switches(cfg: PassConfig, v_before: int, b_before: int)
    ensures
        (cleared_message_kind(cfg, v_before, b_before) == MessageKind::Status) == (v_before + 1
            <= cfg.max_violations as int),
        (cleared_message_kind(cfg, v_before, b_before) == MessageKind::Temporary) == (v_before + 1
            > cfg.max_violations as int && b_before + 1 <= cfg.max_bans as int),
        (cleared_message_kind(cfg, v_before, b_before) == MessageKind::Permanent) == (v_before + 1
            > cfg.max_violations as int && b_before + 1 > cfg.max_bans as int),
{
}

/// The rewriter keeps a brick exactly when a cleared owner owns it and its
/// asset is not prohibited; in particular no brick of a non-cleared owner
/// survives.
pub proof fn law_rewriter_keeps_exactly(s: Snapshot, cleared: Seq<u128>, i: int)
    requires
        0 <= i < s.bricks@.len(),
    ensures
        s.keep_brick(cleared, i) == (s.bricks@[i].owner_index > 0 && cleared.contains(
            s.brick_owner_id(i),
        ) && !prohibited(s.brick_asset(i))),
        !cleared.contains(s.brick_owner_id(i)) ==> !s.keep_brick(cleared, i),
{
}

/// Reconciliation deletes every timer whose owner was not re-confirmed as
/// actively warned in the current pass.
pub proof fn law_reconcile_drops_stale(p: Pass, id: u128)
    requires
        !p.micro@.contains(id),
    ensures
        timer_should_delete(p, id),
{
}

} // verus!
