use pulsar_ui::cloud::{normalize_url, project_status, new_cloud_server, selection_after_remove,
    CloudProjectStatus, CloudService, CloudServerStatus};
use pulsar_ui::thumbnails::{sanitize_repo_name, template_thumbnail_urls, project_thumbnail_path, git_dir_path};
use pulsar_ui::search_url::{LicenseFilter, SearchFilters, SortBy};
use pulsar_ui::relative_time::{elapsed_seconds, format_timestamp, relative_time_label, ClockReading};

#[test]
fn sanitize_repo_name_examples() {
    assert_eq!(sanitize_repo_name("https://github.com/pulsar-templates/core.git"), "pulsar-templates_core");
    assert_eq!(sanitize_repo_name("https://github.com/Far-Beyond-Pulsar/Template-Blank"), "Far-Beyond-Pulsar_Template-Blank");
    assert_eq!(sanitize_repo_name("https://github.com/a/b.git.git//"), "a_b.git.git");
    assert_eq!(sanitize_repo_name("https://github.com/a/b.git.git"), "a_b");
    assert_eq!(sanitize_repo_name("repo"), "repo");
    assert_eq!(sanitize_repo_name(""), "template");
    assert_eq!(sanitize_repo_name(".git"), "template");
    assert_eq!(sanitize_repo_name("x/"), "x");
    assert_eq!(sanitize_repo_name("/y"), "_y");
}

#[test]
fn template_thumbnail_urls_examples() {
    let u = template_thumbnail_urls("https://github.com/pulsar-templates/core.git");
    assert_eq!(u, vec![
        "https://raw.githubusercontent.com/pulsar-templates/core/main/.pulsar/thumbnail.png".to_string(),
        "https://raw.githubusercontent.com/pulsar-templates/core/master/.pulsar/thumbnail.png".to_string(),
    ]);
    assert!(template_thumbnail_urls("https://gitlab.com/a/b").is_empty());
    assert!(template_thumbnail_urls("https://github.com/owner").is_empty());
    let deep = template_thumbnail_urls("https://github.com/o/r/tree/x");
    assert_eq!(deep[0], "https://raw.githubusercontent.com/o/r/main/.pulsar/thumbnail.png");
}

#[test]
fn thumbnail_and_git_paths() {
    let sep = std::path::MAIN_SEPARATOR;
    assert_eq!(project_thumbnail_path("/home/u/game"), format!("/home/u/game{sep}.pulsar{sep}thumbnail.png"));
    assert_eq!(project_thumbnail_path(""), format!(".pulsar{sep}thumbnail.png"));
    assert_eq!(git_dir_path("/home/u/proj"), format!("/home/u/proj{sep}.git"));
    assert_eq!(git_dir_path("/home/u/proj/"), "/home/u/proj/.git");
    assert_eq!(git_dir_path(""), ".git");
}

#[test]
fn normalize_url_examples() {
    assert_eq!(normalize_url("  localhost:7700/ "), "http://localhost:7700");
    assert_eq!(normalize_url("https://studio.example.com//"), "https://studio.example.com");
    assert_eq!(normalize_url("http://x"), "http://x");
    assert_eq!(normalize_url(""), "http://");
}

#[test]
fn workspace_requests() {
    let r = CloudService::prepare_workspace("http://h", "w1", "");
    assert_eq!(r.url, "http://h/api/v1/workspaces/w1/prepare");
    assert_eq!(r.bearer, None);
    let s = CloudService::stop_workspace("http://h", "w1", "tok");
    assert_eq!(s.url, "http://h/api/v1/workspaces/w1/stop");
    assert_eq!(s.bearer, Some("tok".to_string()));
    assert_eq!(CloudService::workspace_virtual_path("https://h:1", "w"), "cloud+pulsar://h:1/w");
}

#[test]
fn project_status_examples() {
    assert!(matches!(project_status(Some("preparing"), 3, None), CloudProjectStatus::Preparing));
    assert!(matches!(project_status(Some("running"), 3, None), CloudProjectStatus::Running { user_count: 3 }));
    match project_status(Some("error"), 0, None) {
        CloudProjectStatus::Error(m) => assert_eq!(m, "unknown"),
        _ => panic!("expected error"),
    }
    match project_status(Some("error"), 0, Some("boom")) {
        CloudProjectStatus::Error(m) => assert_eq!(m, "boom"),
        _ => panic!("expected error"),
    }
    assert!(matches!(project_status(None, 0, None), CloudProjectStatus::Idle));
    assert!(matches!(project_status(Some("weird"), 0, None), CloudProjectStatus::Idle));
}

#[test]
fn cloud_server_records() {
    assert!(new_cloud_server("1".to_string(), "a", "   ", String::new()).is_none());
    let s = new_cloud_server("1".to_string(), " ", "http://h//", "t".to_string()).unwrap();
    assert_eq!(s.alias, "http://h//");
    assert_eq!(s.url, "http://h");
    assert!(matches!(s.status, CloudServerStatus::Unknown));
    assert_eq!(selection_after_remove(Some(2), 2), None);
    assert_eq!(selection_after_remove(Some(3), 1), Some(2));
    assert_eq!(selection_after_remove(Some(0), 1), Some(0));
    assert_eq!(selection_after_remove(None, 1), None);
}

#[test]
fn search_url_examples() {
    let f = SearchFilters {
        search_query: "  red car! ".to_string(),
        sort_by: SortBy::MostLiked,
        filter_downloadable: true,
        filter_animated: false,
        filter_staffpicked: true,
        filter_license: LicenseFilter::CcBySa,
    };
    assert_eq!(
        f.build_search_url(),
        "https://api.sketchfab.com/v3/search?type=models&q=red%20car%21&count=24&sort_by=-likeCount&downloadable=true&staffpicked=true&license=by-sa"
    );
    let g = SearchFilters {
        search_query: "é".to_string(),
        sort_by: SortBy::Relevance,
        filter_downloadable: false,
        filter_animated: true,
        filter_staffpicked: false,
        filter_license: LicenseFilter::All,
    };
    assert_eq!(g.build_search_url(), "https://api.sketchfab.com/v3/search?type=models&q=%C3%A9&count=24&animated=true");
    assert_eq!(SortBy::all().len(), 5);
    assert_eq!(LicenseFilter::all().len(), 10);
    assert_eq!(LicenseFilter::CcByNcNd.label(), "CC BY-NC-ND");
    assert_eq!(SortBy::Oldest.api_value(), Some("publishedAt"));
}

#[test]
fn relative_time_labels() {
    assert_eq!(relative_time_label(-5), "Just now");
    assert_eq!(relative_time_label(59), "Just now");
    assert_eq!(relative_time_label(60), "1 min ago");
    assert_eq!(relative_time_label(3599), "59 min ago");
    assert_eq!(relative_time_label(3600), "1 hr ago");
    assert_eq!(relative_time_label(86399), "23 hr ago");
    assert_eq!(relative_time_label(86400), "Yesterday");
    assert_eq!(relative_time_label(2 * 86400), "2 days ago");
    assert_eq!(relative_time_label(7 * 86400), "1 week ago");
    assert_eq!(relative_time_label(14 * 86400), "2 weeks ago");
    assert_eq!(relative_time_label(30 * 86400), "1 month ago");
    assert_eq!(relative_time_label(70 * 86400), "2 months ago");
    assert_eq!(relative_time_label(365 * 86400), "1 year ago");
    assert_eq!(relative_time_label(800 * 86400), "2 years ago");
}

#[test]
fn format_timestamp_examples() {
    assert_eq!(format_timestamp("not a date"), "Unknown");
    assert_eq!(format_timestamp("2000-01-01T00:00:00Z"), relative_time_label(
        (chrono::Utc::now() - chrono::DateTime::parse_from_rfc3339("2000-01-01T00:00:00Z").unwrap().with_timezone(&chrono::Utc)).num_seconds()));
}

#[test]
fn elapsed_seconds_from_instant_to_clock() {
    assert_eq!(elapsed_seconds((1000, 0), ClockReading::After { secs: 1060, nanos: 0 }), 60);
    assert_eq!(elapsed_seconds((0, 500_000_000), ClockReading::After { secs: 2, nanos: 0 }), 1);
    assert_eq!(elapsed_seconds((0, 500_000_000), ClockReading::After { secs: 0, nanos: 0 }), 0);
    assert_eq!(elapsed_seconds((10, 0), ClockReading::After { secs: 7, nanos: 900_000_000 }), -2);
    assert_eq!(elapsed_seconds((-100, 0), ClockReading::Before { secs: 40, nanos: 0 }), 60);
    assert_eq!(elapsed_seconds((i64::MIN, 0), ClockReading::After { secs: u64::MAX, nanos: 0 }), i64::MAX);
    assert_eq!(format_timestamp("2001-02-03T04:05:06Z").ends_with("ago"), true);
}
