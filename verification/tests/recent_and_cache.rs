use pulsar_ui::recent_projects::{RecentProject, RecentProjectsList};
use pulsar_ui::search_cache::{CacheValue, SearchCache, CACHE_CAP, CACHE_TTL_MS};

fn proj(name: &str, path: &str) -> RecentProject {
    RecentProject { name: name.to_string(), path: path.to_string(), last_opened: None, is_git: false }
}

fn paths(l: &RecentProjectsList) -> Vec<String> {
    l.projects.iter().map(|p| p.path.clone()).collect()
}

#[test]
fn add_or_update_puts_new_projects_first() {
    let mut l = RecentProjectsList::new();
    l.add_or_update(proj("a", "/a"));
    l.add_or_update(proj("b", "/b"));
    assert_eq!(paths(&l), vec!["/b", "/a"]);
}

#[test]
fn add_or_update_replaces_in_place() {
    let mut l = RecentProjectsList::new();
    l.add_or_update(proj("a", "/a"));
    l.add_or_update(proj("b", "/b"));
    l.add_or_update(proj("a2", "/a"));
    assert_eq!(paths(&l), vec!["/b", "/a"]);
    assert_eq!(l.projects[1].name, "a2");
}

#[test]
fn add_or_update_keeps_twenty() {
    let mut l = RecentProjectsList::new();
    for i in 0..25 {
        l.add_or_update(proj("p", &format!("/p{}", i)));
    }
    assert_eq!(l.projects.len(), 20);
    assert_eq!(l.projects[0].path, "/p24");
    assert_eq!(l.projects[19].path, "/p5");
}

#[test]
fn remove_drops_matching_paths_only() {
    let mut l = RecentProjectsList { projects: vec![proj("a", "/a"), proj("b", "/b"), proj("a", "/a"), proj("c", "/c")] };
    l.remove("/a");
    assert_eq!(paths(&l), vec!["/b", "/c"]);
    l.remove("/zzz");
    assert_eq!(paths(&l), vec!["/b", "/c"]);
}

#[test]
fn remove_undoes_add() {
    let mut l = RecentProjectsList { projects: vec![proj("a", "/a"), proj("b", "/b")] };
    l.add_or_update(proj("n", "/n"));
    l.remove("/n");
    assert_eq!(paths(&l), vec!["/a", "/b"]);
}

#[test]
fn cache_lookup_after_insert() {
    let mut c: SearchCache<u32, String> = SearchCache::new();
    c.insert_at("k".to_string(), CacheValue::Detail("v".to_string()), 1000);
    assert_eq!(c.lookup_detail("k"), Some("v".to_string()));
    assert_eq!(c.lookup_detail("other"), None);
    c.insert_at("k".to_string(), CacheValue::Page { models: vec![1, 2], next: None }, 1001);
    assert_eq!(c.lookup_detail("k"), None);
    assert_eq!(c.entries.len(), 1);
}

#[test]
fn cache_is_bounded_and_drops_oldest() {
    let mut c: SearchCache<u32, u32> = SearchCache::new();
    for i in 0..(CACHE_CAP as u32 + 5) {
        c.insert_at(format!("k{}", i), CacheValue::Detail(i), i as u64);
    }
    assert_eq!(c.entries.len(), CACHE_CAP);
    assert_eq!(c.lookup_detail("k0"), None);
    assert_eq!(c.lookup_detail("k5"), Some(5));
    assert_eq!(c.entries[0].key, "k5");
}

#[test]
fn cache_evicts_expired_entries() {
    let mut c: SearchCache<u32, u32> = SearchCache::new();
    c.insert_at("old".to_string(), CacheValue::Detail(1), 0);
    c.insert_at("new".to_string(), CacheValue::Detail(2), 500_000);
    c.evict_expired(CACHE_TTL_MS);
    assert_eq!(c.lookup_detail("old"), None);
    assert_eq!(c.lookup_detail("new"), Some(2));
    c.evict_expired(CACHE_TTL_MS - 1 + 500_000);
    assert_eq!(c.lookup_detail("new"), Some(2));
}

#[test]
fn cache_get_detail_with_clock() {
    let mut c: SearchCache<u32, u32> = SearchCache::new();
    c.insert("k".to_string(), CacheValue::Detail(7));
    assert_eq!(c.get_detail("k"), Some(7));
}

#[test]
fn cached_detail_survives_fewer_than_cap_inserts_within_ttl() {
    let mut c: SearchCache<u32, u32> = SearchCache::new();
    for i in 0..40u32 {
        c.insert_at(format!("pre{i}"), CacheValue::Detail(i), 0);
    }
    c.insert_at("k".to_string(), CacheValue::Detail(99), 1_000);
    for i in 0..(CACHE_CAP as u32 - 1) {
        c.insert_at(format!("other{i}"), CacheValue::Detail(i), 2_000 + i as u64);
        c.evict_expired(1_000 + CACHE_TTL_MS - 1);
    }
    assert_eq!(c.lookup_detail("k"), Some(99));
    c.insert_at("last".to_string(), CacheValue::Detail(0), 5_000);
    assert_eq!(c.lookup_detail("k"), None);
}
