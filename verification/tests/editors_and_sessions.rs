use pulsar_ui::enum_asset::{doc_label, field_label, EnumAsset, EnumVariant, StructField, TypeRef, VariantPayload, Visibility};
use pulsar_ui::enum_editor::{EnumEditorState, LoadOutcome, PropertyField, SaveOutcome};
use pulsar_ui::variant_editor::{InputEventKind, VariantEditorState};
use pulsar_ui::search_session::{AuthSection, SearchPage, SearchSession};
use pulsar_ui::search_view::{card_subtitle, downloads_button_label, search_body, SearchBody, SearchViewState};
use pulsar_ui::sign_in::{avatar_initial, needs_avatar_fetch, profile_handle, profile_name, SignInState};

fn unit(name: &str) -> EnumVariant {
    EnumVariant { name: name.to_string(), payload: VariantPayload::Unit, doc: None }
}

fn string_type(t: &TypeRef) -> bool {
    matches!(t, TypeRef::Primitive { name } if name == "String")
}

#[test]
fn variant_payload_edits() {
    let mut v = unit("Idle");
    v.add_tuple_payload();
    assert!(matches!(&v.payload, VariantPayload::Single(t) if string_type(t)));
    v.convert_to_struct();
    match &v.payload {
        VariantPayload::Struct(fs) => {
            assert_eq!(fs.len(), 1);
            assert_eq!(fs[0].name, "value");
            assert!(string_type(&fs[0].type_ref));
            assert_eq!(fs[0].visibility, Visibility::Public);
        }
        other => panic!("unexpected {other:?}"),
    }
    v.add_field();
    v.add_field();
    match &v.payload {
        VariantPayload::Struct(fs) => {
            let names: Vec<&str> = fs.iter().map(|f| f.name.as_str()).collect();
            assert_eq!(names, vec!["value", "field2", "field3"]);
        }
        other => panic!("unexpected {other:?}"),
    }
    v.remove_field(0);
    v.remove_field(9);
    match &v.payload {
        VariantPayload::Struct(fs) => assert_eq!(fs.len(), 2),
        other => panic!("unexpected {other:?}"),
    }
    v.clear_payload();
    assert!(matches!(v.payload, VariantPayload::Unit));
    v.convert_to_struct();
    assert!(matches!(v.payload, VariantPayload::Unit));
    v.add_struct_payload();
    match &v.payload {
        VariantPayload::Struct(fs) => {
            assert_eq!(fs.len(), 1);
            assert_eq!(fs[0].name, "field1");
        }
        other => panic!("unexpected {other:?}"),
    }
    assert_eq!(v.name, "Idle");
}

#[test]
fn field_and_doc_labels() {
    let f = StructField {
        name: "speed".to_string(),
        type_ref: TypeRef::Path { path: "crate::Speed".to_string() },
        visibility: Visibility::Crate,
        doc: None,
    };
    assert_eq!(field_label(&f), "speed: crate::Speed");
    assert_eq!(doc_label(&Some("The state".to_string())), "/// The state");
    assert_eq!(doc_label(&None), "/// Click to add documentation");
}

#[test]
fn variant_editor_takes_input_only_while_editing() {
    let mut ed = VariantEditorState::new(unit("A"), 2);
    assert!(!ed.on_name_input(InputEventKind::Change, "B".to_string()));
    assert_eq!(ed.variant.name, "A");
    ed.begin_name_edit();
    assert!(ed.on_name_input(InputEventKind::Change, "B".to_string()));
    assert!(ed.editing_name);
    assert!(!ed.on_name_input(InputEventKind::Other, "C".to_string()));
    assert!(ed.on_name_input(InputEventKind::Blur, "Bee".to_string()));
    assert!(!ed.editing_name);
    assert_eq!(ed.variant.name, "Bee");
    assert!(!ed.shows_doc());
    ed.begin_doc_edit();
    assert!(ed.shows_doc());
    assert!(ed.on_doc_input(InputEventKind::Change, "docs".to_string()));
    assert_eq!(ed.variant.doc.as_deref(), Some("docs"));
    assert!(ed.on_doc_input(InputEventKind::Blur, String::new()));
    assert_eq!(ed.variant.doc, None);
    assert!(!ed.shows_doc());
    assert_eq!(ed.index, 2);
}

fn asset() -> EnumAsset {
    EnumAsset {
        schema_version: 1,
        name: "Mode".to_string(),
        display_name: "Mode".to_string(),
        description: None,
        variants: vec![unit("On"), unit("Off")],
        visibility: Visibility::Public,
    }
}

#[test]
fn enum_editor_load_outcomes() {
    let ok = EnumEditorState::from_load(LoadOutcome::Loaded(asset()));
    assert_eq!(ok.asset.name, "Mode");
    assert_eq!(ok.error_message, None);
    assert!(ok.show_preview && !ok.modified && !ok.preview_needs_update);
    let unread = EnumEditorState::from_load(LoadOutcome::ReadFailed("no such file".to_string()));
    assert_eq!(unread.error_message.as_deref(), Some("Failed to read file: no such file"));
    assert_eq!(unread.asset.name, "NewEnum");
    let bad = EnumEditorState::from_load(LoadOutcome::ParseFailed("expected value".to_string()));
    assert_eq!(bad.error_message.as_deref(), Some("Failed to parse enum: expected value"));
    assert!(bad.asset.variants.is_empty());
}

#[test]
fn enum_editor_edits_mark_modified() {
    let mut ed = EnumEditorState::from_load(LoadOutcome::Loaded(asset()));
    assert_eq!(ed.title(), "Mode");
    assert_eq!(ed.variants_heading(), "Variants (2)");
    ed.on_property_changed(PropertyField::DisplayName);
    assert!(ed.modified && !ed.preview_needs_update);
    assert_eq!(ed.title(), "Mode \u{2022}");
    ed.on_property_changed(PropertyField::Name);
    assert!(ed.preview_needs_update);
    let code = ed.refresh_preview().unwrap();
    assert!(code.contains("pub enum Mode {"));
    assert!(!ed.preview_needs_update);
    assert_eq!(ed.refresh_preview(), None);

    ed.on_variant_changed(1, unit("Standby"));
    assert_eq!(ed.asset.variants[1].name, "Standby");
    ed.on_variant_changed(9, unit("Ghost"));
    assert_eq!(ed.asset.variants.len(), 2);
    ed.add_variant();
    assert_eq!(ed.asset.variants[2].name, "Variant3");
    assert!(ed.remove_variant(0));
    assert!(!ed.remove_variant(5));
    assert_eq!(ed.variants_heading(), "Variants (2)");
    ed.sync_properties("Power".to_string(), "Power".to_string(), String::new());
    assert_eq!(ed.asset.description, None);
    assert_eq!(ed.preview_toggle_label(), "Hide Preview");
    ed.toggle_preview();
    assert!(!ed.show_preview);
    assert_eq!(ed.preview_toggle_label(), "Show Preview");

    ed.save_finished(SaveOutcome::WriteFailed("read-only".to_string()));
    assert!(ed.modified);
    assert_eq!(ed.error_message.as_deref(), Some("Failed to save: read-only"));
    ed.save_finished(SaveOutcome::SerializeFailed("bad".to_string()));
    assert_eq!(ed.error_message.as_deref(), Some("Failed to serialize: bad"));
    ed.save_finished(SaveOutcome::Saved);
    assert!(!ed.modified);
    assert_eq!(ed.error_message, None);
    assert_eq!(ed.title(), "Power");
}

fn view(is_loading: bool, has_error: bool, has_selection: bool, has_results: bool) -> SearchViewState {
    SearchViewState {
        is_loading,
        has_error,
        has_last_url: true,
        has_selection,
        detail_loading: false,
        has_detail_error: false,
        has_detail: true,
        has_results,
    }
}

#[test]
fn search_body_priorities() {
    assert_eq!(search_body(&view(true, true, true, true)), SearchBody::Searching);
    assert_eq!(search_body(&view(false, true, true, true)), SearchBody::SearchError { can_open_browser: true });
    assert_eq!(search_body(&view(false, false, true, true)), SearchBody::Detail);
    assert_eq!(search_body(&view(false, false, false, false)), SearchBody::Prompt);
    assert_eq!(search_body(&view(false, false, false, true)), SearchBody::Results);
    let mut v = view(false, false, true, true);
    v.detail_loading = true;
    assert_eq!(search_body(&v), SearchBody::DetailLoading);
    v.detail_loading = false;
    v.has_detail_error = true;
    assert_eq!(search_body(&v), SearchBody::DetailError);
    v.has_detail_error = false;
    v.has_detail = false;
    assert_eq!(search_body(&v), SearchBody::DetailPending);
}

#[test]
fn downloads_label_and_subtitle() {
    assert_eq!(downloads_button_label(0, 0), None);
    assert_eq!(downloads_button_label(3, 1).as_deref(), Some("\u{2193} 1 active"));
    assert_eq!(downloads_button_label(3, 0).as_deref(), Some("\u{2193} 3 done"));
    assert_eq!(card_subtitle("Ann", ""), "Ann");
    assert_eq!(card_subtitle("Ann", "Props"), "Ann \u{b7} Props");
}

#[test]
fn search_session_pages_and_details() {
    let mut s: SearchSession<u32, String, String> = SearchSession::new(None);
    assert!(!s.begin_search("   ", "u0".to_string()));
    assert!(!s.is_loading);
    assert!(s.begin_search(" tree ", "u1".to_string()));
    assert!(s.is_loading);
    assert_eq!(s.last_url.as_deref(), Some("u1"));
    s.search_finished(Ok(SearchPage { models: vec![1, 2], next: Some("p2".to_string()) }));
    assert!(!s.is_loading);
    assert_eq!(s.results, vec![1, 2]);
    assert_eq!(s.begin_load_more().as_deref(), Some("p2"));
    assert!(s.is_loading_more);
    s.load_more_finished(Ok(SearchPage { models: vec![3], next: None }));
    assert_eq!(s.results, vec![1, 2, 3]);
    assert_eq!(s.begin_load_more(), None);
    s.load_more_finished(Err("timeout".to_string()));
    assert_eq!(s.error.as_deref(), Some("timeout"));
    assert_eq!(s.results, vec![1, 2, 3]);

    assert!(s.open_detail("abc".to_string()));
    assert!(s.detail_loading);
    assert!(!s.open_detail("abc".to_string()));
    s.detail_finished(Ok("details".to_string()));
    assert_eq!(s.detail.as_deref(), Some("details"));
    assert!(s.view_state().has_detail);
    s.go_back();
    assert_eq!(s.selected_uid, None);
    assert_eq!(s.detail, None);
}

#[test]
fn search_session_token() {
    let mut s: SearchSession<u32, String, String> = SearchSession::new(None);
    assert_eq!(s.auth_section(), AuthSection::SignInButton);
    s.show_token_input = true;
    assert_eq!(s.auth_section(), AuthSection::TokenInput);
    assert_eq!(s.begin_fetch_me(), None);
    assert_eq!(s.set_token("   "), None);
    assert_eq!(s.set_token("  abc  ").as_deref(), Some("abc"));
    assert_eq!(s.api_token.as_deref(), Some("abc"));
    assert_eq!(s.auth_section(), AuthSection::SignedIn);
    assert_eq!(s.begin_fetch_me().as_deref(), Some("abc"));
    assert!(s.me_loading);
    assert_eq!(s.auth_section(), AuthSection::Verifying);
    s.me_finished(Err("401".to_string()));
    assert!(!s.me_loading);
    assert_eq!(s.api_token, None);
    s.set_token("def");
    s.begin_fetch_me();
    s.me_finished(Ok("Ann".to_string()));
    assert_eq!(s.me.as_deref(), Some("Ann"));
    s.clear_token();
    assert_eq!(s.api_token, None);
    assert_eq!(s.me, None);
}

#[test]
fn sign_in_flow() {
    let mut st = SignInState::new();
    st.missing_client_id();
    assert_eq!(st.message.as_deref(), Some("Set PULSAR_GITHUB_CLIENT_ID to enable GitHub sign-in."));
    st.start();
    assert!(st.loading);
    assert_eq!(st.message.as_deref(), Some("Starting GitHub sign-in\u{2026}"));
    st.flow_started("ABCD-1234".to_string(), "https://github.com/login/device".to_string());
    assert!(st.modal_visible && !st.loading);
    assert_eq!(st.device_code.as_deref(), Some("ABCD-1234"));
    st.profile_failed("HTTP 500");
    assert_eq!(st.message.as_deref(), Some("Failed to fetch profile: HTTP 500"));
    assert!(!st.modal_visible);
    st.start();
    st.token_failed();
    assert_eq!(st.message.as_deref(), Some("GitHub sign-in timed out or failed."));
    assert_eq!(st.device_code, None);
    st.start();
    st.flow_failed();
    assert!(!st.loading);
    assert_eq!(st.message.as_deref(), Some("Failed to start GitHub device flow."));
    st.start();
    st.flow_started("X".to_string(), "u".to_string());
    st.signed_in();
    assert_eq!(st.message, None);
    assert_eq!(st.device_code, None);
    st.start();
    st.cancel();
    assert!(!st.loading && st.message.is_none());
}

#[test]
fn profile_card_texts() {
    assert_eq!(avatar_initial("alice"), "A");
    assert_eq!(avatar_initial("Zed"), "Z");
    assert_eq!(avatar_initial("\u{e9}lan"), "\u{e9}");
    assert_eq!(avatar_initial("7up"), "7");
    assert_eq!(avatar_initial(""), "?");
    assert_eq!(profile_name(Some("Alice A."), "alice"), "Alice A.");
    assert_eq!(profile_name(None, "alice"), "alice");
    assert_eq!(profile_handle("alice"), "@alice");
    assert!(needs_avatar_fetch(Some("https://a/1.png"), None));
    assert!(needs_avatar_fetch(Some("https://a/2.png"), Some("https://a/1.png")));
    assert!(!needs_avatar_fetch(Some("https://a/1.png"), Some("https://a/1.png")));
    assert!(!needs_avatar_fetch(Some(""), None));
    assert!(!needs_avatar_fetch(None, None));
}
