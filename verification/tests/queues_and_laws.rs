use pulsar_ui::fetch_queue::{FetchQueue, MAX_THUMBNAIL_INFLIGHT};
use pulsar_ui::likes::{like_status_ok, unlike_url, LikeState};
use pulsar_ui::search_url::normalized_token;
use pulsar_ui::setup::DependencyStatus;
use pulsar_ui::thumbnails::project_folder_name;

#[test]
fn fetch_queue_limits_and_dedups() {
    let mut q = FetchQueue::new(2);
    assert_eq!(q.request("a".to_string()), Some("a".to_string()));
    assert_eq!(q.request("b".to_string()), Some("b".to_string()));
    assert_eq!(q.request("c".to_string()), None);
    assert_eq!(q.request("d".to_string()), None);
    assert_eq!(q.request("a".to_string()), None);
    assert_eq!(q.request(String::new()), None);
    assert_eq!(q.inflight, 2);
    assert_eq!(q.finish(), Some("c".to_string()));
    assert_eq!(q.finish(), Some("d".to_string()));
    assert_eq!(q.finish(), None);
    assert_eq!(q.inflight, 1);
    q.forget("a");
    assert_eq!(q.request("a".to_string()), Some("a".to_string()));
    assert_eq!(FetchQueue::new(MAX_THUMBNAIL_INFLIGHT).max_inflight, 4);
}

#[test]
fn likes_toggle_and_restore() {
    let mut l = LikeState::new();
    assert_eq!(l.toggle_like("m".to_string()), Some(false));
    assert!(l.is_liked("m"));
    assert_eq!(l.toggle_like("m".to_string()), None);
    l.like_finished("m", false, false);
    assert!(!l.is_liked("m"));
    assert_eq!(l.toggle_like("m".to_string()), Some(false));
    l.like_finished("m", false, true);
    assert!(l.is_liked("m"));
    assert_eq!(l.toggle_like("m".to_string()), Some(true));
    assert!(!l.is_liked("m"));
    l.like_finished("m", true, false);
    assert!(l.is_liked("m"));
    l.clear();
    assert!(!l.is_liked("m"));
    assert!(like_status_ok(204) && like_status_ok(200) && !like_status_ok(404));
    assert_eq!(unlike_url("x1"), "https://api.sketchfab.com/v3/me/likes/x1");
}

#[test]
fn small_decisions() {
    assert_eq!(normalized_token("  abc \n"), Some("abc".to_string()));
    assert_eq!(normalized_token("   "), None);
    assert_eq!(project_folder_name("My Cool Game"), "my_cool_game");
    let d = DependencyStatus { rust_installed: true, build_tools_installed: false, compiler_info: None };
    assert!(d.is_missing());
}
