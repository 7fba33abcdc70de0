use command_bridge::launch::{full_argv, launcher_candidates, Launcher, Resolver};

#[test]
fn candidates_come_in_fixed_priority_order() {
    let v = launcher_candidates();
    assert_eq!(v.len(), 3);
    assert_eq!(v[0].program, "python");
    assert!(v[0].prefix_args.is_empty());
    assert_eq!(v[1].program, "python3");
    assert!(v[1].prefix_args.is_empty());
    assert_eq!(v[2].program, "uv");
    assert_eq!(v[2].prefix_args, vec!["run".to_string(), "python".to_string()]);
}

#[test]
fn resolver_uses_third_candidate_after_two_start_failures() {
    let mut r = Resolver::new(launcher_candidates());
    let first = r.current().expect("first candidate");
    assert_eq!(first.program, "python");
    r.record_start_failure("failed to execute python".to_string());
    let second = r.current().expect("second candidate");
    assert_eq!(second.program, "python3");
    r.record_start_failure("failed to execute python3".to_string());
    let third = r.current().expect("third candidate");
    assert_eq!(third.program, "uv");
    assert!(!r.exhausted());
    assert_eq!(
        r.errors,
        vec![
            "failed to execute python".to_string(),
            "failed to execute python3".to_string(),
        ]
    );
}

#[test]
fn resolver_exhausts_and_keeps_last_error() {
    let mut r = Resolver::new(launcher_candidates());
    r.record_start_failure("e1".to_string());
    r.record_start_failure("e2".to_string());
    r.record_start_failure("e3".to_string());
    assert!(r.exhausted());
    assert!(r.current().is_none());
    assert_eq!(r.last_error(), Some(&"e3".to_string()));
}

#[test]
fn fresh_resolver_has_no_errors() {
    let r = Resolver::new(launcher_candidates());
    assert!(r.errors.is_empty());
    assert!(r.last_error().is_none());
    assert!(!r.exhausted());
}

#[test]
fn full_argv_places_module_marker_between_prefix_and_tokens() {
    let l = Launcher {
        program: "uv".to_string(),
        prefix_args: vec!["run".to_string(), "python".to_string()],
    };
    let tokens = vec!["list-projects".to_string()];
    assert_eq!(
        full_argv(&l, &tokens),
        vec![
            "run".to_string(),
            "python".to_string(),
            "-m".to_string(),
            "command_center.tauri_api".to_string(),
            "list-projects".to_string(),
        ]
    );
}

#[test]
fn full_argv_without_prefix_starts_with_module_marker() {
    let l = Launcher { program: "python".to_string(), prefix_args: Vec::new() };
    let tokens = vec!["day".to_string(), "--date".to_string(), "2025-03-05".to_string()];
    assert_eq!(
        full_argv(&l, &tokens),
        vec![
            "-m".to_string(),
            "command_center.tauri_api".to_string(),
            "day".to_string(),
            "--date".to_string(),
            "2025-03-05".to_string(),
        ]
    );
}
