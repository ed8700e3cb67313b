use sdkman_core::registry::{contains_candidate, known_candidates, validate_candidate};

#[test]
fn known_candidates_splits_and_trims() {
    let fields = known_candidates("java, kotlin ,scala");
    assert_eq!(
        fields,
        vec!["java".to_string(), "kotlin".to_string(), "scala".to_string()]
    );
}

#[test]
fn known_candidates_of_empty_content_is_one_empty_field() {
    assert_eq!(known_candidates(""), vec![String::new()]);
}

#[test]
fn known_candidates_keeps_empty_fields_between_commas() {
    let fields = known_candidates("java,,scala");
    assert_eq!(
        fields,
        vec!["java".to_string(), String::new(), "scala".to_string()]
    );
}

#[test]
fn known_candidates_of_single_name() {
    assert_eq!(known_candidates("java\n"), vec!["java".to_string()]);
}

#[test]
fn contains_candidate_finds_loaded_names() {
    let all = vec!["java".to_string(), "scala".to_string()];
    assert!(contains_candidate(&all, &"java".to_string()));
    assert!(!contains_candidate(&all, &"rust".to_string()));
}

#[test]
fn validate_candidate_accepts_known_name() {
    let all = vec!["java".to_string(), "scala".to_string()];
    let r = validate_candidate(&all, &"java".to_string());
    assert_eq!(r.ok(), Some("java".to_string()));
}

#[test]
fn validate_candidate_rejects_unknown_name() {
    let all = vec!["java".to_string(), "scala".to_string()];
    let r = validate_candidate(&all, &"rust".to_string());
    match r {
        Ok(_) => panic!("an unknown candidate must be rejected"),
        Err(e) => assert_eq!(e.candidate, "rust".to_string()),
    }
}
