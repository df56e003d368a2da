use antimicro::engine::{ban_step, violation_step, BanAction, OwnerAction, Pass, PassConfig};
use antimicro::snapshot::{BrickRef, OwnerRec, Snapshot, SENTINEL_OWNER};

fn cfg(grace_secs: u64, max_violations: u32, max_bans: u32) -> PassConfig {
    PassConfig { grace_secs, max_violations, max_bans, track_offline: true }
}

#[test]
fn zero_grace_clears_first_sight() {
    let mut p = Pass::begin_at(cfg(0, 3, 2), 100);
    let roster: Vec<u128> = vec![];
    let a = p.observe_owner(7, None, &roster);
    assert_eq!(a, OwnerAction::Cleared);
    let cleared = p.cleared_ids();
    assert_eq!(cleared, vec![7]);
}

#[test]
fn first_sight_with_grace_starts_timer() {
    let mut p = Pass::begin_at(cfg(300, 3, 2), 1000);
    let roster: Vec<u128> = vec![5, 7];
    let a = p.observe_owner(7, None, &roster);
    assert_eq!(a, OwnerAction::StartTimer { warn: true });
    assert!(p.cleared_ids().is_empty());
}

#[test]
fn disconnected_owner_is_tracked_silently() {
    let mut p = Pass::begin_at(cfg(300, 3, 2), 1000);
    let roster: Vec<u128> = vec![5];
    let a = p.observe_owner(7, None, &roster);
    assert_eq!(a, OwnerAction::StartTimer { warn: false });
}

#[test]
fn disconnected_owner_skipped_when_offline_tracking_off() {
    let mut p = Pass::begin_at(
        PassConfig { grace_secs: 300, max_violations: 3, max_bans: 2, track_offline: false },
        1000,
    );
    let roster: Vec<u128> = vec![5];
    let a = p.observe_owner(7, Some(100), &roster);
    assert_eq!(a, OwnerAction::Skipped);
    assert!(p.should_delete_timer(7));
}

#[test]
fn unexpired_timer_warns_not_clears() {
    let mut p = Pass::begin_at(cfg(300, 3, 2), 1000);
    let roster: Vec<u128> = vec![7];
    let a = p.observe_owner(7, Some(900), &roster);
    assert_eq!(a, OwnerAction::Warned { warn: true });
    assert!(p.cleared_ids().is_empty());
    assert!(!p.should_delete_timer(7));
}

#[test]
fn expired_timer_clears_and_timer_goes() {
    // a timer set 10 minutes ago, grace 5 minutes: cleared, timer deleted
    let now = 10_000;
    let mut p = Pass::begin_at(cfg(300, 3, 2), now);
    let roster: Vec<u128> = vec![];
    let a = p.observe_owner(7, Some(now - 600), &roster);
    assert_eq!(a, OwnerAction::Cleared);
    assert_eq!(p.cleared_ids(), vec![7]);
    assert!(p.should_delete_timer(7));
}

#[test]
fn timer_expiring_exactly_now_clears() {
    let mut p = Pass::begin_at(cfg(300, 3, 2), 1300);
    let roster: Vec<u128> = vec![];
    let a = p.observe_owner(7, Some(1000), &roster);
    assert_eq!(a, OwnerAction::Cleared);
}

#[test]
fn owner_decided_once_per_pass() {
    let mut p = Pass::begin_at(cfg(0, 3, 2), 100);
    let roster: Vec<u128> = vec![];
    assert_eq!(p.observe_owner(7, None, &roster), OwnerAction::Cleared);
    assert_eq!(p.observe_owner(7, None, &roster), OwnerAction::AlreadyHandled);
    assert_eq!(p.cleared_ids(), vec![7]);
}

#[test]
fn warned_and_cleared_sets_stay_disjoint() {
    let now = 10_000;
    let mut p = Pass::begin_at(cfg(300, 3, 2), now);
    let roster: Vec<u128> = vec![7, 9];
    assert_eq!(p.observe_owner(7, Some(now - 600), &roster), OwnerAction::Cleared);
    assert_eq!(p.observe_owner(9, Some(now - 100), &roster), OwnerAction::Warned { warn: true });
    let cleared = p.cleared_ids();
    assert!(cleared.contains(&7));
    assert!(!cleared.contains(&9));
    assert!(!cleared.contains(&SENTINEL_OWNER));
}

#[test]
fn reconciliation_keeps_only_active_warnings() {
    let now = 10_000;
    let mut p = Pass::begin_at(cfg(300, 3, 2), now);
    let roster: Vec<u128> = vec![];
    p.observe_owner(7, Some(now - 600), &roster);  // cleared
    p.observe_owner(9, Some(now - 100), &roster);  // still warned
    assert!(p.should_delete_timer(7));  // cleared: timer no longer meaningful
    assert!(!p.should_delete_timer(9));  // actively warned: timer stays
    assert!(p.should_delete_timer(11));  // not seen this pass: stale
}

#[test]
fn violation_counter_advances_by_one() {
    let c = cfg(300, 3, 2);
    let (nv, escalate) = violation_step(&c, 0);
    assert_eq!(nv, 1);
    assert!(!escalate);
    let (nv, escalate) = violation_step(&c, 2);
    assert_eq!(nv, 3);
    assert!(!escalate);
}

#[test]
fn crossing_violation_threshold_escalates() {
    // violations become 4 with maxViolations = 3: the ban step runs;
    // bans become 1 with maxBans = 2: temporary, 1 violation from permanence
    let c = cfg(300, 3, 2);
    let (nv, escalate) = violation_step(&c, 3);
    assert_eq!(nv, 4);
    assert!(escalate);
    let (nb, action) = ban_step(&c, 0);
    assert_eq!(nb, 1);
    assert_eq!(action, BanAction::Temporary { remaining: 1 });
}

#[test]
fn crossing_ban_threshold_goes_permanent() {
    let c = cfg(300, 3, 2);
    let (nb, action) = ban_step(&c, 2);
    assert_eq!(nb, 3);
    assert_eq!(action, BanAction::Permanent);
}

#[test]
fn last_tolerated_ban_is_temporary_with_none_remaining() {
    let c = cfg(300, 3, 2);
    let (nb, action) = ban_step(&c, 1);
    assert_eq!(nb, 2);
    assert_eq!(action, BanAction::Temporary { remaining: 0 });
}

#[test]
fn full_pass_over_a_snapshot() {
    let alpha = 10u128;
    let beta = 20u128;
    let snap = Snapshot {
        assets: vec![b"PB_DefaultBrick".to_vec(), b"PB_DefaultMicroBrick".to_vec()],
        owners: vec![
            OwnerRec { id: alpha, name: b"alpha".to_vec(), brick_count: 3 },
            OwnerRec { id: beta, name: b"beta".to_vec(), brick_count: 1 },
        ],
        bricks: vec![
            BrickRef { asset_name_index: 0, owner_index: 1 },
            BrickRef { asset_name_index: 1, owner_index: 1 },
            BrickRef { asset_name_index: 1, owner_index: 2 },
            BrickRef { asset_name_index: 1, owner_index: 1 },
        ],
    };
    assert!(snap.validate());
    let violators = snap.violators();
    assert_eq!(violators, vec![0, 1]);

    let now = 10_000;
    let mut p = Pass::begin_at(cfg(300, 3, 2), now);
    let roster: Vec<u128> = vec![alpha, beta];
    // alpha's timer ran out; beta is seen for the first time
    assert_eq!(p.observe_owner(alpha, Some(now - 400), &roster), OwnerAction::Cleared);
    assert_eq!(p.observe_owner(beta, None, &roster), OwnerAction::StartTimer { warn: true });

    let cleared = p.cleared_ids();
    assert_eq!(cleared, vec![alpha]);
    // only alpha's legitimate brick survives the rewrite
    assert_eq!(snap.kept_indices(&cleared), vec![0]);
    // alpha's timer goes; beta's stays
    assert!(p.should_delete_timer(alpha));
    assert!(!p.should_delete_timer(beta));
}

#[test]
fn pass_begin_captures_a_timestamp() {
    let p = Pass::begin(cfg(300, 3, 2));
    assert!(p.cleared_ids().is_empty());
}
