use antimicro::admin::{admin_decide, find_target, is_authorized, AdminAction, PlayerRef};

fn player(name: &str, id: u128) -> PlayerRef {
    PlayerRef { name: name.as_bytes().to_vec(), id }
}

fn args(words: &[&str]) -> Vec<Vec<u8>> {
    words.iter().map(|w| w.as_bytes().to_vec()).collect()
}

fn allowlist() -> Vec<Vec<u8>> {
    vec![b"Admin".to_vec(), b"Operator".to_vec()]
}

#[test]
fn authorization_is_case_insensitive_exact() {
    let list = allowlist();
    assert!(is_authorized(&b"admin".to_vec(), &list));
    assert!(is_authorized(&b"ADMIN".to_vec(), &list));
    assert!(is_authorized(&b"oPeRaToR".to_vec(), &list));
    assert!(!is_authorized(&b"admi".to_vec(), &list));
    assert!(!is_authorized(&b"administrator".to_vec(), &list));
    assert!(!is_authorized(&b"someone".to_vec(), &list));
}

#[test]
fn unauthorized_invoker_is_denied() {
    let roster = vec![player("alpha", 1)];
    let a = admin_decide(&b"someone".to_vec(), &args(&["wipe", "yes"]), &roster, &allowlist());
    assert_eq!(a, AdminAction::Denied);
}

#[test]
fn clean_matches_first_name_prefix_case_insensitively() {
    let roster = vec![player("Alpha", 1), player("alphonse", 2), player("Beta", 3)];
    let a = admin_decide(&b"admin".to_vec(), &args(&["clean", "ALPH"]), &roster, &allowlist());
    assert_eq!(a, AdminAction::Clean { target: 0 });
    let a = admin_decide(&b"admin".to_vec(), &args(&["clean", "bet"]), &roster, &allowlist());
    assert_eq!(a, AdminAction::Clean { target: 2 });
}

#[test]
fn clean_concatenates_its_arguments() {
    let roster = vec![player("Dr Brick", 1)];
    // the target is the concatenation of the remaining words
    let a = admin_decide(&b"admin".to_vec(), &args(&["clean", "dr", "b"]), &roster, &allowlist());
    assert_eq!(a, AdminAction::CleanNoTarget);
    let roster = vec![player("DrBrick", 1)];
    let a = admin_decide(&b"admin".to_vec(), &args(&["clean", "dr", "b"]), &roster, &allowlist());
    assert_eq!(a, AdminAction::Clean { target: 0 });
}

#[test]
fn clean_without_match_prompts() {
    let roster = vec![player("Alpha", 1)];
    let a = admin_decide(&b"admin".to_vec(), &args(&["clean", "zeta"]), &roster, &allowlist());
    assert_eq!(a, AdminAction::CleanNoTarget);
}

#[test]
fn find_target_reports_first_match_only() {
    let roster = vec![player("mia", 1), player("Mia", 2)];
    assert_eq!(find_target(&roster, &b"MIA".to_vec()), Some(0));
    assert_eq!(find_target(&roster, &b"nobody".to_vec()), None);
}

#[test]
fn wipe_requires_explicit_confirmation() {
    let roster: Vec<PlayerRef> = vec![];
    let a = admin_decide(&b"admin".to_vec(), &args(&["wipe"]), &roster, &allowlist());
    assert_eq!(a, AdminAction::WipePrompt);
    let a = admin_decide(&b"admin".to_vec(), &args(&["wipe", "no"]), &roster, &allowlist());
    assert_eq!(a, AdminAction::WipePrompt);
    let a = admin_decide(&b"admin".to_vec(), &args(&["wipe", "yes"]), &roster, &allowlist());
    assert_eq!(a, AdminAction::WipeConfirmed);
}

#[test]
fn unknown_or_missing_subcommand_is_invalid() {
    let roster: Vec<PlayerRef> = vec![];
    let a = admin_decide(&b"admin".to_vec(), &args(&["reset"]), &roster, &allowlist());
    assert_eq!(a, AdminAction::Invalid);
    let a = admin_decide(&b"admin".to_vec(), &args(&[]), &roster, &allowlist());
    assert_eq!(a, AdminAction::Invalid);
}
