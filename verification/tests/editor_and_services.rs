use pulsar_ui::enum_asset::{EnumAsset, EnumVariant, StructField, TypeRef, VariantPayload, Visibility, type_ref_to_string};
use pulsar_ui::registry::{EnumAssetType, EnumEditorType};
use pulsar_ui::integration::{get_tool_display_name, IntegrationService, LaunchPlan, LaunchResult, TargetOs};
use pulsar_ui::setup::{DependencyService, SetupFlow, SetupNext, SetupTask, TaskStatus};
use pulsar_ui::types::{get_default_templates, view_title, EntryScreenView, TemplateIcon};

fn field(name: &str, t: TypeRef, vis: Visibility, doc: Option<&str>) -> StructField {
    StructField { name: name.to_string(), type_ref: t, visibility: vis, doc: doc.map(|d| d.to_string()) }
}

#[test]
fn generate_rust_code_example() {
    let asset = EnumAsset {
        schema_version: 1,
        name: "Shape".to_string(),
        display_name: "Shape".to_string(),
        description: Some("A shape".to_string()),
        variants: vec![
            EnumVariant { name: "Empty".to_string(), payload: VariantPayload::Unit, doc: None },
            EnumVariant {
                name: "Circle".to_string(),
                payload: VariantPayload::Single(TypeRef::Primitive { name: "f32".to_string() }),
                doc: Some("round".to_string()),
            },
            EnumVariant {
                name: "Rect".to_string(),
                payload: VariantPayload::Struct(vec![
                    field("w", TypeRef::Path { path: "crate::Len".to_string() }, Visibility::Public, Some("width")),
                    field("h", TypeRef::AliasRef { alias: "Len".to_string() }, Visibility::Crate, None),
                ]),
                doc: None,
            },
        ],
        visibility: Visibility::Crate,
    };
    let expected = "/// A shape\n#[derive(Debug, Clone, PartialEq, Eq)]\npub(crate) enum Shape {\n    Empty,\n    /// round\n    Circle(f32),\n    Rect {\n        /// width\n        pub w: crate::Len,\n        pub(crate) h: Len,\n    },\n}\n";
    assert_eq!(asset.generate_rust_code(), expected);
}

#[test]
fn empty_asset_and_variants() {
    let mut a = EnumAsset::create_empty_asset();
    assert_eq!(a.name, "NewEnum");
    assert_eq!(a.generate_rust_code(), "#[derive(Debug, Clone, PartialEq, Eq)]\npub enum NewEnum {\n}\n");
    a.add_variant();
    a.add_variant();
    assert_eq!(a.variants[1].name, "Variant2");
    a.remove_variant(0);
    assert_eq!(a.variants.len(), 1);
    assert_eq!(a.variants[0].name, "Variant2");
    a.remove_variant(5);
    assert_eq!(a.variants.len(), 1);
    a.add_variant();
    assert_eq!(a.variants[1].name, "Variant2");
    assert_eq!(type_ref_to_string(&TypeRef::Path { path: "a::B".to_string() }), "a::B");
}

#[test]
fn registry_values() {
    let t = EnumAssetType;
    assert_eq!(t.generate_template("My \"Enum\""), "{\"description\":\"\",\"name\":\"My \\\"Enum\\\"\",\"variants\":[]}");
    assert_eq!(
        t.generate_template("a\\b\n\t\u{1}\u{1f}\u{7f}\u{e9}"),
        "{\"description\":\"\",\"name\":\"a\\\\b\\n\\t\\u0001\\u001f\u{7f}\u{e9}\",\"variants\":[]}"
    );
    assert_eq!(t.type_id(), "enum");
    assert_eq!(t.extensions(), vec!["enum.json"]);
    assert_eq!(t.default_directory(), "types/enums");
    assert_eq!(EnumEditorType.editor_id(), "enum_editor");
}

#[test]
fn launch_plans() {
    assert!(matches!(IntegrationService::launch_editor("devenv"), LaunchPlan::VisualStudio));
    match IntegrationService::launch_editor("vim") {
        LaunchPlan::TerminalEditor { program } => assert_eq!(program, "vim"),
        _ => panic!(),
    }
    match IntegrationService::launch_editor("code") {
        LaunchPlan::Gui { program } => assert_eq!(program, "code"),
        _ => panic!(),
    }
    match IntegrationService::launch_git_tool("unknown") {
        LaunchPlan::Gui { program } => assert_eq!(program, "git"),
        _ => panic!(),
    }
    match IntegrationService::launch_git_tool("lazygit") {
        LaunchPlan::TerminalEditor { program } => assert_eq!(program, "lazygit"),
        _ => panic!(),
    }
    match IntegrationService::launch_file_manager(TargetOs::Linux) {
        LaunchPlan::Gui { program } => assert_eq!(program, "nautilus"),
        _ => panic!(),
    }
    let ok = LaunchResult::success();
    assert!(ok.success && ok.error.is_none());
    let e = LaunchResult::error("x".to_string());
    assert!(!e.success && e.error == Some("x".to_string()));
    assert_eq!(get_tool_display_name("nvim"), "Neovim");
    assert_eq!(get_tool_display_name("mytool"), "mytool");
}

#[test]
fn setup_flow_paths() {
    let t = SetupTask::new("a".to_string(), "b".to_string());
    assert!(matches!(t.status, TaskStatus::Pending));
    let mut f = SetupFlow::new();
    assert!(f.start_setup());
    assert!(!f.start_setup());
    assert!(matches!(f.setup_tasks[0].status, TaskStatus::InProgress));
    assert_eq!(f.finish_check(false), SetupNext::Install);
    f.finish_install(false);
    assert!(!f.setup_complete && !f.is_running);
    match &f.setup_tasks[1].status {
        TaskStatus::Failed(m) => assert_eq!(m, "rustup install failed"),
        _ => panic!(),
    }
    let mut g = SetupFlow::new();
    g.start_setup();
    assert_eq!(g.finish_check(true), SetupNext::Done);
    assert!(g.setup_complete && !g.is_running);
}

#[test]
fn dependency_probes() {
    let s = DependencyService::status_from_probes(TargetOs::Windows, true, false, true, true);
    assert!(s.rust_installed && s.build_tools_installed);
    assert_eq!(s.compiler_info.as_deref(), Some("GCC (MinGW)"));
    let m = DependencyService::status_from_probes(TargetOs::MacOs, false, true, true, true);
    assert_eq!(m.compiler_info.as_deref(), Some("Clang"));
    let n = DependencyService::status_from_probes(TargetOs::Linux, false, true, false, false);
    assert!(!n.build_tools_installed && n.compiler_info.is_none());
}

#[test]
fn templates_and_titles() {
    let t = get_default_templates();
    assert_eq!(t.len(), 12);
    assert_eq!(t[0].name, "Blank Project");
    assert_eq!(t[3].icon, TemplateIcon::WorldMap);
    assert_eq!(t[11].repo_url, "https://github.com/pulsar-templates/racing.git");
    assert_eq!(view_title(EntryScreenView::CloneGit), "Clone Repository");
}
