use antimicro::policy::{dictionary_has_prohibited, name_is_prohibited};
use antimicro::snapshot::{BrickRef, OwnerRec, Snapshot, SENTINEL_OWNER};

fn owner(id: u128, name: &str) -> OwnerRec {
    OwnerRec { id, name: name.as_bytes().to_vec(), brick_count: 0 }
}

fn brick(asset: u32, owner: u32) -> BrickRef {
    BrickRef { asset_name_index: asset, owner_index: owner }
}

fn sample() -> Snapshot {
    Snapshot {
        assets: vec![
            b"PB_DefaultBrick".to_vec(),
            b"PB_DefaultMicroBrick".to_vec(),
            b"PB_DefaultMicroWedge".to_vec(),
        ],
        owners: vec![owner(10, "alpha"), owner(20, "beta"), owner(SENTINEL_OWNER, "public")],
        bricks: vec![
            brick(0, 1),  // alpha, plain
            brick(1, 1),  // alpha, prohibited
            brick(2, 2),  // beta, prohibited
            brick(1, 3),  // public sentinel, prohibited: exempt
            brick(1, 0),  // unowned, prohibited: exempt
            brick(2, 1),  // alpha again, prohibited
        ],
    }
}

#[test]
fn marker_detection() {
    assert!(name_is_prohibited(&b"PB_DefaultMicroBrick".to_vec()));
    assert!(name_is_prohibited(&b"Micro".to_vec()));
    assert!(!name_is_prohibited(&b"PB_DefaultBrick".to_vec()));
    assert!(!name_is_prohibited(&b"Mic".to_vec()));
    assert!(!name_is_prohibited(&b"".to_vec()));
    // the match is case-sensitive, as the policy marker is a fixed byte string
    assert!(!name_is_prohibited(&b"microbrick".to_vec()));
}

#[test]
fn dictionary_precheck() {
    let clean: Vec<Vec<u8>> = vec![b"PB_DefaultBrick".to_vec(), b"PB_DefaultWedge".to_vec()];
    assert!(!dictionary_has_prohibited(&clean));
    assert!(dictionary_has_prohibited(&sample().assets));
}

#[test]
fn validate_accepts_in_range_indices() {
    assert!(sample().validate());
}

#[test]
fn validate_rejects_asset_index_out_of_range() {
    let mut s = sample();
    s.bricks.push(brick(3, 1));
    assert!(!s.validate());
}

#[test]
fn validate_rejects_owner_index_out_of_range() {
    let mut s = sample();
    s.bricks.push(brick(0, 4));
    assert!(!s.validate());
}

#[test]
fn resolve_owner_exempts_unowned_and_sentinel() {
    let s = sample();
    assert_eq!(s.resolve_owner(0), Some(0));  // alpha
    assert_eq!(s.resolve_owner(2), Some(1));  // beta
    assert_eq!(s.resolve_owner(3), None);  // public sentinel
    assert_eq!(s.resolve_owner(4), None);  // unowned
}

#[test]
fn violators_are_distinct_non_sentinel_owners() {
    let s = sample();
    let v = s.violators();
    // alpha (index 0) first, then beta (index 1); sentinel and unowned skipped
    assert_eq!(v, vec![0, 1]);
}

#[test]
fn violators_empty_when_nothing_prohibited_is_owned() {
    let s = Snapshot {
        assets: vec![b"PB_DefaultMicroBrick".to_vec()],
        owners: vec![owner(SENTINEL_OWNER, "public")],
        bricks: vec![brick(0, 1), brick(0, 0)],
    };
    assert!(s.validate());
    assert!(s.violators().is_empty());
}

#[test]
fn rewriter_keeps_exactly_cleared_owners_clean_bricks() {
    let s = sample();
    let cleared: Vec<u128> = vec![10];  // alpha cleared
    let kept = s.kept_indices(&cleared);
    // of alpha's bricks only the non-prohibited one stays; nothing of
    // beta's or of the sentinel's survives
    assert_eq!(kept, vec![0]);
}

#[test]
fn rewriter_keeps_nothing_when_nobody_cleared() {
    let s = sample();
    let cleared: Vec<u128> = vec![];
    assert!(s.kept_indices(&cleared).is_empty());
}

#[test]
fn rewriter_with_two_cleared_owners() {
    let mut s = sample();
    s.bricks.push(brick(0, 2));  // beta, plain
    let cleared: Vec<u128> = vec![10, 20];
    assert_eq!(s.kept_indices(&cleared), vec![0, 6]);
}
