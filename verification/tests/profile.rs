use jrnl::cli::Cli;
use jrnl::error::JournalError;
use jrnl::profile::{get_root_path, resolve_commit, select_profile, should_commit, ProfileConfig};

fn profile_of(entries: &[(&str, &str)]) -> ProfileConfig {
    ProfileConfig::new(entries.iter().map(|(k, v)| (k.to_string(), v.to_string())).collect())
}

fn flags(commit: bool, no_commit: bool) -> Cli {
    Cli { name: None, profile: None, debug: 0, commit, no_commit, command: None }
}

#[test]
fn root_is_read_from_the_profile() {
    let p = profile_of(&[("root", "/home/me/journal"), ("commit", "true")]);
    assert_eq!(p.get_root(), "/home/me/journal");
    assert_eq!(get_root_path(&p), "/home/me/journal");
    assert_eq!(p.root(), Ok(String::from("/home/me/journal")));
}

#[test]
fn missing_root_is_an_error() {
    let p = profile_of(&[("commit", "true")]);
    assert_eq!(p.root(), Err(JournalError::MissingRoot));
    assert_eq!(p.get("root"), None);
}

#[test]
fn later_entry_replaces_earlier_one() {
    let p = profile_of(&[("root", "/a"), ("commit", "false"), ("root", "/b")]);
    assert_eq!(p.get_root(), "/b");
    assert_eq!(p.get("commit"), Some(String::from("false")));
    assert_eq!(p.get("other"), None);
}

#[test]
fn commit_defaults_to_true() {
    assert!(profile_of(&[("root", "/a")]).get_commit());
    assert!(profile_of(&[("root", "/a"), ("commit", "true")]).get_commit());
    assert!(profile_of(&[("root", "/a"), ("commit", "maybe")]).get_commit());
    assert!(profile_of(&[("root", "/a"), ("commit", "False")]).get_commit());
    assert!(profile_of(&[("root", "/a"), ("commit", "")]).get_commit());
    assert!(!profile_of(&[("root", "/a"), ("commit", "false")]).get_commit());
}

#[test]
fn commit_policy_follows_profile_without_flags() {
    let p = profile_of(&[("root", "/a"), ("commit", "false")]);
    assert!(!should_commit(&p, &flags(false, false)));
    assert_eq!(resolve_commit(&p, &flags(false, false)), Ok(false));
    let q = profile_of(&[("root", "/a")]);
    assert!(should_commit(&q, &flags(false, false)));
}

#[test]
fn commit_flags_override_profile() {
    let off = profile_of(&[("root", "/a"), ("commit", "false")]);
    let on = profile_of(&[("root", "/a"), ("commit", "true")]);
    assert!(should_commit(&off, &flags(true, false)));
    assert!(!should_commit(&on, &flags(false, true)));
    assert_eq!(resolve_commit(&off, &flags(true, false)), Ok(true));
    assert_eq!(resolve_commit(&on, &flags(false, true)), Ok(false));
}

#[test]
fn conflicting_commit_flags_are_refused() {
    let p = profile_of(&[("root", "/a"), ("commit", "false")]);
    assert_eq!(resolve_commit(&p, &flags(true, true)), Err(JournalError::ConflictingCommitFlags));
}

#[test]
fn profile_selection_precedence() {
    assert_eq!(select_profile(Some(String::from("work")), Some(String::from("home"))), "work");
    assert_eq!(select_profile(Some(String::from("work")), None), "work");
    assert_eq!(select_profile(None, Some(String::from("home"))), "home");
    assert_eq!(select_profile(None, None), "default");
}
