use command_bridge::request::Request;

fn strings(v: &[&str]) -> Vec<String> {
    v.iter().map(|s| s.to_string()).collect()
}

#[test]
fn dashboard_encodes_without_project_token() {
    let req = Request::Dashboard {
        from: "2025-01-01".to_string(),
        to: "2025-12-31".to_string(),
        refresh: true,
        granularity: "month".to_string(),
        project_id: None,
    };
    assert_eq!(
        req.encode(),
        strings(&[
            "dashboard",
            "--from",
            "2025-01-01",
            "--to",
            "2025-12-31",
            "--refresh",
            "1",
            "--granularity",
            "month",
        ])
    );
}

#[test]
fn dashboard_encodes_project_filter_as_single_joined_token() {
    let req = Request::Dashboard {
        from: "2025-01-01".to_string(),
        to: "2025-01-31".to_string(),
        refresh: false,
        granularity: "day".to_string(),
        project_id: Some("proj-7".to_string()),
    };
    let argv = req.encode();
    assert_eq!(argv.len(), 10);
    assert_eq!(argv[6], "0");
    assert_eq!(argv[9], "--project-id=proj-7");
}

#[test]
fn encoding_is_idempotent() {
    let req = Request::Model {
        model: "opus".to_string(),
        from: "2025-02-01".to_string(),
        to: "2025-02-28".to_string(),
        project_id: Some("proj-a".to_string()),
    };
    assert_eq!(req.encode(), req.encode());
}

#[test]
fn day_encodes_date_then_optional_project() {
    let req = Request::Day { date: "2025-03-05".to_string(), project_id: None };
    assert_eq!(req.encode(), strings(&["day", "--date", "2025-03-05"]));
    let req = Request::Day {
        date: "2025-03-05".to_string(),
        project_id: Some("proj-b".to_string()),
    };
    assert_eq!(
        req.encode(),
        strings(&["day", "--date", "2025-03-05", "--project-id=proj-b"])
    );
}

#[test]
fn model_encodes_model_then_range() {
    let req = Request::Model {
        model: "sonnet".to_string(),
        from: "2025-01-01".to_string(),
        to: "2025-06-30".to_string(),
        project_id: None,
    };
    assert_eq!(
        req.encode(),
        strings(&[
            "model",
            "--model",
            "sonnet",
            "--from",
            "2025-01-01",
            "--to",
            "2025-06-30",
        ])
    );
}

#[test]
fn session_encodes_id_then_optional_project() {
    let req = Request::Session {
        session_id: "abc123".to_string(),
        project_id: Some("proj-c".to_string()),
    };
    assert_eq!(
        req.encode(),
        strings(&["session", "--id", "abc123", "--project-id=proj-c"])
    );
}

#[test]
fn limit_resets_encodes_range() {
    let req = Request::LimitResets {
        from: "2025-01-01".to_string(),
        to: "2025-12-31".to_string(),
    };
    assert_eq!(
        req.encode(),
        strings(&["limit-resets", "--from", "2025-01-01", "--to", "2025-12-31"])
    );
}

#[test]
fn png_export_encodes_range() {
    let req = Request::PngExport {
        from: "2025-01-01".to_string(),
        to: "2025-01-31".to_string(),
    };
    assert_eq!(
        req.encode(),
        strings(&["png-export", "--from", "2025-01-01", "--to", "2025-01-31"])
    );
}

#[test]
fn list_projects_encodes_keyword_alone() {
    let req = Request::ListProjects;
    assert_eq!(req.encode(), strings(&["list-projects"]));
}

#[test]
fn update_project_with_only_id_has_exactly_two_tokens() {
    let req = Request::UpdateProject {
        project_id: "proj-1".to_string(),
        name: None,
        description: None,
        visible: None,
    };
    assert_eq!(req.encode(), strings(&["update-project", "--project-id=proj-1"]));
}

#[test]
fn update_project_encodes_optional_fields_in_fixed_order() {
    let req = Request::UpdateProject {
        project_id: "proj-1".to_string(),
        name: Some("New Name".to_string()),
        description: Some("a description".to_string()),
        visible: Some(true),
    };
    assert_eq!(
        req.encode(),
        strings(&[
            "update-project",
            "--project-id=proj-1",
            "--name=New Name",
            "--description=a description",
            "--visible=1",
        ])
    );
}

#[test]
fn update_project_visible_false_renders_zero() {
    let req = Request::UpdateProject {
        project_id: "proj-1".to_string(),
        name: None,
        description: None,
        visible: Some(false),
    };
    assert_eq!(
        req.encode(),
        strings(&["update-project", "--project-id=proj-1", "--visible=0"])
    );
}

#[test]
fn hyphen_prefixed_project_id_stays_in_joined_token() {
    let req = Request::UpdateProject {
        project_id: "-weird-id".to_string(),
        name: None,
        description: None,
        visible: None,
    };
    assert_eq!(
        req.encode(),
        strings(&["update-project", "--project-id=-weird-id"])
    );
    let req = Request::Dashboard {
        from: "2025-01-01".to_string(),
        to: "2025-01-31".to_string(),
        refresh: false,
        granularity: "week".to_string(),
        project_id: Some("-weird-id".to_string()),
    };
    let argv = req.encode();
    assert_eq!(argv[9], "--project-id=-weird-id");
}
