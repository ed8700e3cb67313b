use sdkman_core::paths::{
    candidate_dir, current_link, joined, manifest_path, version_dir, version_dir_in,
};

#[test]
fn candidate_dir_layout() {
    assert_eq!(
        candidate_dir("/home/someone/.sdkman", "java"),
        "/home/someone/.sdkman/candidates/java".to_string()
    );
}

#[test]
fn version_dir_layout() {
    assert_eq!(
        version_dir("/home/someone/.sdkman", "java", "17.0.1-tem"),
        "/home/someone/.sdkman/candidates/java/17.0.1-tem".to_string()
    );
}

#[test]
fn current_link_layout() {
    assert_eq!(
        current_link("/home/someone/.sdkman", "java"),
        "/home/someone/.sdkman/candidates/java/current".to_string()
    );
}

#[test]
fn manifest_path_layout() {
    assert_eq!(
        manifest_path("/home/someone/.sdkman"),
        "/home/someone/.sdkman/var/candidates".to_string()
    );
}

#[test]
fn version_dir_under_candidates_base() {
    assert_eq!(
        version_dir_in("/home/someone/.sdkman/candidates", "java", "99.99.99"),
        "/home/someone/.sdkman/candidates/java/99.99.99".to_string()
    );
}

#[test]
fn joined_adds_one_separator() {
    assert_eq!(joined("a", "b"), "a/b".to_string());
}
