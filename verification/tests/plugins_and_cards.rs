use pulsar_ui::integration::TargetOs;
use pulsar_ui::intro::{intro_seen, is_intro_flag};
use pulsar_ui::setup::{probe_order, Compiler};
use pulsar_ui::new_project::{can_create_project, project_subdirs, pulsar_manifest};
use pulsar_ui::plugins::{
    custom_installed, install_method_label, installed_index, matching_plugins, release_plan, text_contains, ReleasePlan,
};
use pulsar_ui::project_card::{
    fetch_status_of, last_opened_label, projects_to_check, pull_updates_label, updates_badge, FetchOutcome,
};
use pulsar_ui::recent_projects::{RecentProject, RecentProjectsList};
use pulsar_ui::types::{
    adds_upstream, category_tone, entry_layout, starts_update_check, CloneProgress, EntryLayout, EntryScreenView,
    GitFetchStatus, InstalledPlugin, PluginInstallMethod, RegistryPlugin, Tone,
};

fn chars(s: &str) -> Vec<char> {
    s.chars().collect()
}

fn reg(name: &str, desc: &str, author: &str, tags: &[&str], url: &str) -> RegistryPlugin {
    RegistryPlugin {
        name: name.to_string(),
        description: desc.to_string(),
        repo_url: url.to_string(),
        author: author.to_string(),
        tags: tags.iter().map(|t| t.to_string()).collect(),
        registry_url: "https://registry".to_string(),
    }
}

fn inst(url: &str) -> InstalledPlugin {
    InstalledPlugin {
        name: "x".to_string(),
        repo_url: url.to_string(),
        version: "v1".to_string(),
        installed_at: "2024-01-01 00:00:00".to_string(),
        install_method: PluginInstallMethod::BinaryDownload,
        library_path: "/tmp/x.so".to_string(),
    }
}

#[test]
fn substring_search() {
    assert!(text_contains(&chars("terrain tools"), &chars("tool")));
    assert!(text_contains(&chars("abc"), &chars("")));
    assert!(text_contains(&chars("abc"), &chars("abc")));
    assert!(!text_contains(&chars("abc"), &chars("abcd")));
    assert!(!text_contains(&chars("aab"), &chars("ba")));
    assert!(text_contains(&chars("xxaab"), &chars("aab")));
}

#[test]
fn plugin_search_ignores_case() {
    let plugins = vec![
        reg("Terrain Tools", "Sculpt landscapes", "Ann", &["world"], "https://g/a"),
        reg("Audio Mixer", "Mix sounds", "Bob", &["Sound", "FX"], "https://g/b"),
        reg("Shader Lab", "Materials", "TERRA inc", &[], "https://g/c"),
    ];
    assert_eq!(matching_plugins(&plugins, ""), vec![0, 1, 2]);
    assert_eq!(matching_plugins(&plugins, "TERRA"), vec![0, 2]);
    assert_eq!(matching_plugins(&plugins, "fx"), vec![1]);
    assert_eq!(matching_plugins(&plugins, "landscapes"), vec![0]);
    assert_eq!(matching_plugins(&plugins, "nothing"), Vec::<usize>::new());
}

#[test]
fn installed_plugins_lookup() {
    let registry = vec![reg("A", "", "", &[], "https://g/a"), reg("B", "", "", &[], "https://g/b")];
    let installed = vec![inst("https://g/b"), inst("https://own/c"), inst("https://g/a"), inst("https://own/d")];
    assert_eq!(installed_index(&installed, "https://g/a"), Some(2));
    assert_eq!(installed_index(&installed, "https://g/z"), None);
    assert_eq!(custom_installed(&installed, &registry), vec![1, 3]);
    assert_eq!(install_method_label(PluginInstallMethod::BinaryDownload), "Binary");
    assert_eq!(install_method_label(PluginInstallMethod::BuiltFromSource), "Source");
}

#[test]
fn release_plans() {
    assert!(matches!(release_plan("tools", None, "so"), ReleasePlan::NoRelease));
    match release_plan("tools", Some(("v1.2".to_string(), None)), "so") {
        ReleasePlan::Build { tag } => assert_eq!(tag, "v1.2"),
        other => panic!("unexpected {other:?}"),
    }
    match release_plan("tools", Some(("v1.2".to_string(), Some("https://dl/x".to_string()))), "dll") {
        ReleasePlan::Download { url, tag, lib_name } => {
            assert_eq!(url, "https://dl/x");
            assert_eq!(tag, "v1.2");
            assert_eq!(lib_name, "tools_v1.2.dll");
        }
        other => panic!("unexpected {other:?}"),
    }
}

#[test]
fn project_card_texts() {
    let behind = GitFetchStatus::UpdatesAvailable(1);
    assert_eq!(updates_badge(true, &behind).as_deref(), Some("1 update available"));
    assert_eq!(updates_badge(true, &GitFetchStatus::UpdatesAvailable(4)).as_deref(), Some("4 updates available"));
    assert_eq!(updates_badge(false, &behind), None);
    assert_eq!(updates_badge(true, &GitFetchStatus::UpToDate), None);
    assert_eq!(pull_updates_label(true, &GitFetchStatus::UpdatesAvailable(2)).as_deref(), Some("Pull 2 updates"));
    assert_eq!(pull_updates_label(true, &behind).as_deref(), Some("Pull 1 update"));
    assert_eq!(pull_updates_label(true, &GitFetchStatus::Fetching), None);
    assert_eq!(last_opened_label(None), "Never opened");
    assert_eq!(last_opened_label(Some("not a date")), "Unknown");
}

#[test]
fn update_checks() {
    let mut list = RecentProjectsList::new();
    for (name, git) in [("a", true), ("b", false), ("c", true)] {
        list.add_or_update(RecentProject {
            name: name.to_string(),
            path: format!("/p/{name}"),
            last_opened: None,
            is_git: git,
        });
    }
    let idx = projects_to_check(&list);
    let paths: Vec<&str> = idx.iter().map(|&i| list.projects[i].path.as_str()).collect();
    assert_eq!(paths, vec!["/p/c", "/p/a"]);
    assert!(matches!(fetch_status_of(FetchOutcome::Behind(0)), GitFetchStatus::UpToDate));
    assert!(matches!(fetch_status_of(FetchOutcome::Behind(3)), GitFetchStatus::UpdatesAvailable(3)));
    assert!(matches!(fetch_status_of(FetchOutcome::Failed("net".to_string())), GitFetchStatus::Error(e) if e == "net"));
    assert!(matches!(fetch_status_of(FetchOutcome::Crashed), GitFetchStatus::Error(e) if e == "Thread panicked"));
}

#[test]
fn layout_and_tones() {
    assert_eq!(entry_layout(true, true, true, true, EntryScreenView::Recent), EntryLayout::Onboarding);
    assert_eq!(entry_layout(false, true, true, true, EntryScreenView::Recent), EntryLayout::DependencySetup);
    assert_eq!(entry_layout(false, false, true, true, EntryScreenView::Recent), EntryLayout::UpstreamPrompt);
    assert_eq!(entry_layout(false, false, false, true, EntryScreenView::Recent), EntryLayout::ProjectSettings);
    assert_eq!(
        entry_layout(false, false, false, false, EntryScreenView::Templates),
        EntryLayout::Main(EntryScreenView::Templates)
    );
    assert!(starts_update_check(EntryLayout::Main(EntryScreenView::Recent), false));
    assert!(!starts_update_check(EntryLayout::Main(EntryScreenView::Recent), true));
    assert!(!starts_update_check(EntryLayout::Main(EntryScreenView::Friends), false));
    assert_eq!(category_tone("2D"), Tone::Success);
    assert_eq!(category_tone("3D"), Tone::Primary);
    assert_eq!(category_tone("Strategy"), Tone::Warning);
    assert_eq!(category_tone("RPG"), Tone::Info);
    assert_eq!(category_tone("Racing"), Tone::Danger);
    assert_eq!(category_tone("Puzzle"), Tone::Neutral);
}

#[test]
fn clone_progress_flow() {
    let mut p = CloneProgress::new();
    assert_eq!((p.current, p.total, p.message.as_str(), p.completed), (0, 100, "Initializing...", false));
    p.start_cloning();
    assert_eq!((p.current, p.message.as_str()), (10, "Cloning repository..."));
    let mut ok = p.clone();
    ok.finish_ok();
    assert!(ok.completed);
    assert_eq!((ok.current, ok.message.as_str()), (100, "Clone completed!"));
    let mut failed = p.clone();
    failed.finish_failed("auth required");
    assert_eq!(failed.error.as_deref(), Some("Clone failed: auth required"));
    assert_eq!(failed.message, "Error occurred");
    p.finish_crashed();
    assert_eq!(p.error.as_deref(), Some("Thread panic during clone"));
    assert!(adds_upstream(false, "git@github.com:me/game.git"));
    assert!(!adds_upstream(true, "git@github.com:me/game.git"));
    assert!(!adds_upstream(false, "   "));
}

#[test]
fn new_project_files() {
    assert!(!can_create_project(""));
    assert!(can_create_project("Game"));
    assert_eq!(
        pulsar_manifest("Game"),
        "[project]\nname = \"Game\"\nversion = \"0.1.0\"\nengine_version = \"0.1.23\"\n\n[settings]\ndefault_scene = \"scenes/main.scene\"\n"
    );
    assert_eq!(project_subdirs(), vec!["assets", "scenes", "scripts", "prefabs"]);
}

#[test]
fn compiler_probe_order_and_intro_flag() {
    assert_eq!(probe_order(TargetOs::Windows), vec![Compiler::Msvc, Compiler::Gcc, Compiler::Clang]);
    assert_eq!(probe_order(TargetOs::Linux), vec![Compiler::Gcc, Compiler::Clang]);
    assert_eq!(probe_order(TargetOs::MacOs), vec![Compiler::Clang, Compiler::Gcc]);
    assert!(is_intro_flag("--OOBE") && is_intro_flag("--oobe") && !is_intro_flag("--Oobe"));
    assert_eq!(intro_seen(true, false, true), (false, true));
    assert_eq!(intro_seen(true, true, true), (true, true));
    assert_eq!(intro_seen(false, false, false), (false, false));
    assert_eq!(intro_seen(false, false, true), (true, false));
}
