use pulsar_ui::cloud::{
    login_result, normalize_url, project_from_record, ProjectRecord,
    cloud_panel, empty_projects_message, info_verdict, online_status, project_click, project_menu,
    project_status_label, project_status_tone, server_status_label, server_status_tone, servers_summary,
    CloudPanel, CloudProject, CloudProjectStatus, CloudServerStatus, InfoVerdict, ProjectAction,
};
use pulsar_ui::cloud_servers::CloudServerList;
use pulsar_ui::grid::{grid_row_range, grid_total_rows, results_row, results_row_count, should_load_more, ResultsRow};
use pulsar_ui::types::Tone;

fn project(id: &str, status: CloudProjectStatus) -> CloudProject {
    CloudProject {
        id: id.to_string(),
        name: format!("Project {id}"),
        description: String::new(),
        status,
        last_modified: String::new(),
        size_bytes: 0,
        owner: String::new(),
    }
}

fn online() -> CloudServerStatus {
    CloudServerStatus::Online { latency_ms: 12, version: "1.2".to_string(), active_users: 3, active_projects: 2 }
}

#[test]
fn cloud_panel_prefers_forms_then_valid_selection() {
    assert_eq!(cloud_panel(true, true, Some(0), 2), CloudPanel::AddServer);
    assert_eq!(cloud_panel(false, true, Some(1), 2), CloudPanel::CreateProject(1));
    assert_eq!(cloud_panel(false, true, Some(2), 2), CloudPanel::ServerList);
    assert_eq!(cloud_panel(false, false, Some(0), 2), CloudPanel::ServerDetail(0));
    assert_eq!(cloud_panel(false, false, Some(5), 2), CloudPanel::ServerList);
    assert_eq!(cloud_panel(false, false, None, 2), CloudPanel::ServerList);
}

#[test]
fn server_status_labels_and_tones() {
    assert_eq!(server_status_label(&online()), "Online");
    assert_eq!(server_status_label(&CloudServerStatus::Offline), "Offline");
    assert_eq!(server_status_label(&CloudServerStatus::Unauthorized), "Auth Error");
    assert_eq!(server_status_label(&CloudServerStatus::Connecting), "Connecting\u{2026}");
    assert_eq!(server_status_label(&CloudServerStatus::Unknown), "Unknown");
    assert_eq!(server_status_tone(&online()), Tone::Success);
    assert_eq!(server_status_tone(&CloudServerStatus::Offline), Tone::Danger);
    assert_eq!(server_status_tone(&CloudServerStatus::Unauthorized), Tone::Warning);
    assert_eq!(server_status_tone(&CloudServerStatus::Connecting), Tone::Info);
    assert_eq!(server_status_tone(&CloudServerStatus::Unknown), Tone::Neutral);
}

#[test]
fn servers_summary_counts_servers() {
    assert_eq!(servers_summary(0), "Connect to a Pulsar Host server to browse and prepare shared projects.");
    assert_eq!(servers_summary(1), "1 studio server configured");
    assert_eq!(servers_summary(3), "3 studio servers configured");
}

#[test]
fn project_status_labels() {
    assert_eq!(project_status_label(&CloudProjectStatus::Running { user_count: 1 }), "Running  \u{2022}  1 editor");
    assert_eq!(project_status_label(&CloudProjectStatus::Running { user_count: 4 }), "Running  \u{2022}  4 editors");
    assert_eq!(project_status_label(&CloudProjectStatus::Preparing), "Preparing");
    assert_eq!(project_status_label(&CloudProjectStatus::Error("disk full".to_string())), "Error: disk full");
    assert_eq!(project_status_label(&CloudProjectStatus::Idle), "Idle");
    assert_eq!(project_status_tone(&CloudProjectStatus::Preparing), Tone::Info);
    assert_eq!(project_status_tone(&CloudProjectStatus::Idle), Tone::Neutral);
}

#[test]
fn project_menu_depends_on_status() {
    assert_eq!(
        project_menu(&CloudProjectStatus::Running { user_count: 0 }),
        vec![ProjectAction::Open, ProjectAction::Stop, ProjectAction::Delete]
    );
    assert_eq!(
        project_menu(&CloudProjectStatus::Preparing),
        vec![ProjectAction::Prepare, ProjectAction::Stop, ProjectAction::Delete]
    );
    assert_eq!(project_menu(&CloudProjectStatus::Idle), vec![ProjectAction::Prepare, ProjectAction::Delete]);
    assert_eq!(project_click(&CloudProjectStatus::Preparing), None);
    assert_eq!(project_click(&CloudProjectStatus::Running { user_count: 2 }), Some(ProjectAction::Open));
    assert_eq!(project_click(&CloudProjectStatus::Error("x".to_string())), Some(ProjectAction::Prepare));
}

#[test]
fn empty_projects_messages() {
    assert_eq!(empty_projects_message(&online(), 0), Some("No projects on this server"));
    assert_eq!(empty_projects_message(&CloudServerStatus::Offline, 0), Some("Could not connect to server"));
    assert_eq!(empty_projects_message(&CloudServerStatus::Connecting, 0), None);
    assert_eq!(empty_projects_message(&online(), 3), None);
}

#[test]
fn info_replies_are_judged_by_status() {
    assert_eq!(info_verdict(None), InfoVerdict::Offline);
    assert_eq!(info_verdict(Some(401)), InfoVerdict::Unauthorized);
    assert_eq!(info_verdict(Some(403)), InfoVerdict::Unauthorized);
    assert_eq!(info_verdict(Some(500)), InfoVerdict::Offline);
    assert_eq!(info_verdict(Some(404)), InfoVerdict::Offline);
    assert_eq!(info_verdict(Some(200)), InfoVerdict::ReadInfo);
    assert_eq!(info_verdict(Some(204)), InfoVerdict::ReadInfo);
    match online_status(40, None, Some(7), Some((1u64 << 32) + 5)) {
        CloudServerStatus::Online { latency_ms, version, active_users, active_projects } => {
            assert_eq!(latency_ms, 40);
            assert_eq!(version, "?");
            assert_eq!(active_users, 7);
            assert_eq!(active_projects, 5);
        }
        other => panic!("unexpected {other:?}"),
    }
}

#[test]
fn server_list_add_refresh_remove() {
    let mut list = CloudServerList::new();
    list.show_add_server = true;
    assert_eq!(list.add_server("a".to_string(), "", "   ", String::new()), None);
    assert!(list.servers.is_empty());
    assert_eq!(list.add_server("a".to_string(), "", "host:7700/", "tok".to_string()), Some(0));
    assert!(!list.show_add_server);
    assert_eq!(list.servers[0].alias, "host:7700/");
    assert_eq!(list.servers[0].url, "host:7700");
    assert_eq!(list.add_server("b".to_string(), "Studio", "https://b.example", String::new()), Some(1));
    assert_eq!(list.unknown_servers(), vec![0, 1]);

    let (url, token) = list.begin_refresh(0).unwrap();
    assert_eq!(url, "http://host:7700");
    assert_eq!(token, "tok");
    assert!(matches!(list.servers[0].status, CloudServerStatus::Connecting));
    assert_eq!(list.unknown_servers(), vec![1]);
    list.finish_refresh(0, Some((online(), vec![project("p1", CloudProjectStatus::Idle)])));
    assert!(matches!(list.servers[0].status, CloudServerStatus::Online { .. }));
    assert_eq!(list.servers[0].projects.len(), 1);
    list.finish_refresh(1, None);
    assert!(matches!(list.servers[1].status, CloudServerStatus::Offline));
    assert!(list.begin_refresh(7).is_none());

    list.selected = Some(1);
    list.remove_server(0);
    assert_eq!(list.servers.len(), 1);
    assert_eq!(list.selected, Some(0));
    list.remove_server(0);
    assert_eq!(list.selected, None);
}

#[test]
fn server_list_project_requests() {
    let mut list = CloudServerList::new();
    list.add_server("a".to_string(), "A", " example.org/ ", "secret".to_string());
    list.finish_refresh(0, Some((online(), vec![
        project("p1", CloudProjectStatus::Running { user_count: 1 }),
        project("p2", CloudProjectStatus::Idle),
    ])));

    let prep = list.begin_prepare(0, "p2").unwrap();
    assert_eq!(prep.url, "http://example.org/api/v1/projects/p2/prepare");
    assert_eq!(prep.bearer.as_deref(), Some("secret"));
    assert!(matches!(list.servers[0].projects[1].status, CloudProjectStatus::Preparing));
    assert!(matches!(list.servers[0].projects[0].status, CloudProjectStatus::Running { .. }));

    let stop = list.begin_stop(0, "p1").unwrap();
    assert_eq!(stop.url, "http://example.org/api/v1/projects/p1/stop");
    assert!(matches!(list.servers[0].projects[0].status, CloudProjectStatus::Idle));

    let unchanged = list.begin_stop(0, "nope").unwrap();
    assert_eq!(unchanged.url, "http://example.org/api/v1/projects/nope/stop");

    let del = list.delete_request(0, "p2").unwrap();
    assert_eq!(del.url, "http://example.org/api/v1/projects/p2");
    assert!(list.delete_request(3, "p2").is_none());

    list.show_create_project = true;
    assert!(list.begin_create(0, "  ".to_string(), "d".to_string()).is_none());
    assert!(list.show_create_project);
    let create = list.begin_create(0, "Arena".to_string(), "PvP map".to_string()).unwrap();
    assert_eq!(create.url, "http://example.org/api/v1/projects");
    assert_eq!(create.name, "Arena");
    assert_eq!(create.description, "PvP map");
    assert!(!list.show_create_project);

    let open = list.open_target(0, "p1").unwrap();
    assert_eq!(open.base_url, "http://example.org");
    assert_eq!(open.auth_token.as_deref(), Some("secret"));
    assert_eq!(open.virtual_path, "cloud+pulsar://example.org/p1");
}

#[test]
fn bearer_follows_token() {
    let mut list = CloudServerList::new();
    list.add_server("a".to_string(), "", "https://h", "  ".to_string());
    let req = list.begin_prepare(0, "x").unwrap();
    assert_eq!(req.bearer.as_deref(), Some("  "));
    let open = list.open_target(0, "x").unwrap();
    assert_eq!(open.auth_token, None);
    let mut list2 = CloudServerList::new();
    list2.add_server("a".to_string(), "", "https://h", String::new());
    assert_eq!(list2.begin_prepare(0, "x").unwrap().bearer, None);
}

#[test]
fn grid_rows_cover_items() {
    assert_eq!(grid_total_rows(0, 3), 0);
    assert_eq!(grid_total_rows(9, 3), 3);
    assert_eq!(grid_total_rows(10, 3), 4);
    assert_eq!(grid_row_range(0, 3, 10), (0, 3));
    assert_eq!(grid_row_range(3, 3, 10), (9, 10));
    assert_eq!(grid_row_range(2, 4, 12), (8, 12));
    for total in 1..20usize {
        for cols in 1..6usize {
            let rows = grid_total_rows(total, cols);
            let mut seen = 0;
            for r in 0..rows {
                let (s, e) = grid_row_range(r, cols, total);
                assert_eq!(s, seen);
                seen = e;
            }
            assert_eq!(seen, total);
        }
    }
}

#[test]
fn results_rows_layout() {
    assert_eq!(results_row_count(10, 4, false, true), 3);
    assert_eq!(results_row_count(10, 4, true, true), 5);
    assert_eq!(results_row_count(10, 4, false, false), 4);
    assert_eq!(results_row(2, 10, 4, true), ResultsRow::Cards { start: 8, end: 10 });
    assert_eq!(results_row(3, 10, 4, true), ResultsRow::Placeholder);
    assert_eq!(results_row(4, 10, 4, true), ResultsRow::Placeholder);
    assert_eq!(results_row(3, 10, 4, false), ResultsRow::EndOfResults);
    assert!(should_load_more(false, false, true, 2, 3));
    assert!(!should_load_more(false, false, true, 0, 3));
    assert!(should_load_more(false, false, true, 0, 0));
    assert!(!should_load_more(true, false, true, 5, 3));
    assert!(!should_load_more(false, true, true, 5, 3));
    assert!(!should_load_more(false, false, false, 5, 3));
}

#[test]
fn normalizing_twice_changes_nothing() {
    for raw in ["  localhost:7700/ ", "https://studio.example.com//", "http://a", "host:1"] {
        let once = normalize_url(raw);
        assert_eq!(normalize_url(&once), once);
    }
    assert_eq!(normalize_url(""), "http://");
    assert_eq!(normalize_url("http://"), "http://http:");
}

fn record() -> ProjectRecord {
    ProjectRecord {
        id: Some("p1".to_string()),
        name: Some("Arena".to_string()),
        description: None,
        last_modified: Some("2024-05-01".to_string()),
        size_bytes: None,
        owner: Some("ann".to_string()),
        user_count: Some((1u64 << 32) + 3),
        status: Some("running".to_string()),
        error_msg: None,
    }
}

#[test]
fn project_records_become_projects() {
    let p = project_from_record(record()).unwrap();
    assert_eq!(p.id, "p1");
    assert_eq!(p.description, "");
    assert_eq!(p.size_bytes, 0);
    assert!(matches!(p.status, CloudProjectStatus::Running { user_count: 3 }));
    let mut r = record();
    r.status = Some("error".to_string());
    assert!(matches!(project_from_record(r).unwrap().status, CloudProjectStatus::Error(m) if m == "unknown"));
    let mut r = record();
    r.status = None;
    assert!(matches!(project_from_record(r).unwrap().status, CloudProjectStatus::Idle));
    let mut r = record();
    r.name = None;
    assert!(project_from_record(r).is_none());
    assert_eq!(
        login_result(true, Some("t".to_string()), Some("ann".to_string())),
        Some(("t".to_string(), "ann".to_string()))
    );
    assert_eq!(login_result(false, Some("t".to_string()), Some("ann".to_string())), None);
    assert_eq!(login_result(true, None, Some("ann".to_string())), None);
}
