use sdkman_core::install::{
    resolve_current_link_path, validate_version_path, CandidateState, RemovalError,
};

fn state_with_current(installed: &[&str], current: Option<&str>) -> CandidateState {
    let mut state = CandidateState::new();
    for v in installed {
        state.install_version(v.to_string());
    }
    if let Some(v) = current {
        state.set_current(&v.to_string());
    }
    state
}

#[test]
fn removal_of_current_version_is_refused_without_force() {
    let mut state = state_with_current(&["17.0.1-tem", "11.0.2-open"], Some("17.0.1-tem"));
    let before = state.clone();
    let r = state.remove_version(&"17.0.1-tem".to_string(), false);
    assert_eq!(r, Err(RemovalError::RefusedCurrentRemoval));
    assert_eq!(state, before);
}

#[test]
fn forced_removal_of_current_version_removes_link_and_directory() {
    let mut state = state_with_current(&["17.0.1-tem", "11.0.2-open"], Some("17.0.1-tem"));
    let r = state.remove_version(&"17.0.1-tem".to_string(), true);
    let plan = r.expect("forced removal must succeed");
    assert!(plan.remove_current_link);
    assert!(!state.has_version(&"17.0.1-tem".to_string()));
    assert!(state.has_version(&"11.0.2-open".to_string()));
    assert_eq!(state.resolve_current_link(), (None, false));
}

#[test]
fn removal_of_other_version_keeps_current_link() {
    let mut state = state_with_current(&["17.0.1-tem", "11.0.2-open"], Some("17.0.1-tem"));
    let r = state.remove_version(&"11.0.2-open".to_string(), false);
    let plan = r.expect("removing a version that is not current must succeed");
    assert!(!plan.remove_current_link);
    assert!(!state.has_version(&"11.0.2-open".to_string()));
    assert_eq!(
        state.resolve_current_link(),
        (Some("17.0.1-tem".to_string()), false)
    );
}

#[test]
fn broken_current_link_resolves_to_nothing_with_warning() {
    let mut state = state_with_current(&["17.0.1-tem"], Some("17.0.1-tem"));
    let r = state.remove_version(&"17.0.1-tem".to_string(), true);
    assert!(r.is_ok());
    // Model the link reappearing without its target: deleted out-of-band.
    state.install_version("17.0.1-tem".to_string());
    state.set_current(&"17.0.1-tem".to_string());
    let plan = state
        .remove_version(&"17.0.1-tem".to_string(), true)
        .expect("forced removal must succeed");
    assert!(plan.remove_current_link);
    let mut dangling = CandidateState::new();
    dangling.install_version("17.0.1-tem".to_string());
    dangling.set_current(&"17.0.1-tem".to_string());
    dangling.installed.clear();
    assert_eq!(dangling.resolve_current_link(), (None, true));
}

#[test]
fn current_link_resolves_to_version_directory_path() {
    let state = state_with_current(&["17.0.1-tem"], Some("17.0.1-tem"));
    assert_eq!(
        resolve_current_link_path("/home/someone/.sdkman", "java", &state),
        (
            Some("/home/someone/.sdkman/candidates/java/17.0.1-tem".to_string()),
            false
        )
    );
    let mut dangling = state.clone();
    dangling.installed.clear();
    assert_eq!(
        resolve_current_link_path("/home/someone/.sdkman", "java", &dangling),
        (None, true)
    );
}

#[test]
fn is_current_compares_resolved_link_target() {
    let state = state_with_current(&["17.0.1-tem", "11.0.2-open"], Some("17.0.1-tem"));
    assert!(state.is_current(&"17.0.1-tem".to_string()));
    assert!(!state.is_current(&"11.0.2-open".to_string()));
}

#[test]
fn validate_version_path_of_installed_version() {
    let state = state_with_current(&["17.0.1-tem"], None);
    let r = validate_version_path(
        "/home/someone/.sdkman",
        "java",
        &"17.0.1-tem".to_string(),
        &state,
    );
    assert_eq!(
        r.ok(),
        Some("/home/someone/.sdkman/candidates/java/17.0.1-tem".to_string())
    );
}

#[test]
fn validate_version_path_rejects_missing_version() {
    let state = state_with_current(&["17.0.1-tem"], None);
    let r = validate_version_path(
        "/home/someone/.sdkman",
        "java",
        &"99.99.99".to_string(),
        &state,
    );
    match r {
        Ok(_) => panic!("a version without a directory must be rejected"),
        Err(e) => {
            assert_eq!(e.candidate, "java".to_string());
            assert_eq!(e.version, "99.99.99".to_string());
        }
    }
}

#[test]
fn fresh_install_is_not_current_until_set() {
    let mut state = CandidateState::new();
    state.install_version("17.0.1-tem".to_string());
    assert!(state.has_version(&"17.0.1-tem".to_string()));
    assert_eq!(state.resolve_current_link(), (None, false));
    state.set_current(&"17.0.1-tem".to_string());
    assert_eq!(
        state.resolve_current_link(),
        (Some("17.0.1-tem".to_string()), false)
    );
}
