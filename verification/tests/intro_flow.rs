use pulsar_ui::intro::{intro_nav, IntroPhase, IntroSound, IntroState, FADE_IN_MS};
use pulsar_ui::enum_asset::{doc_from_text, EnumAsset, EnumVariant, VariantPayload};

#[test]
fn intro_runs_through_its_phases() {
    let mut s = IntroState::new();
    assert_eq!(s.phase, IntroPhase::FadeIn);
    let fx = s.tick(FADE_IN_MS);
    assert!(!fx.phase_restarted);
    assert_eq!(s.phase, IntroPhase::FadeIn);
    let fx = s.tick(FADE_IN_MS + 1);
    assert_eq!(s.phase, IntroPhase::PageReveal);
    assert_eq!(fx.sounds, vec![IntroSound::Transition]);
    s.tick(801);
    assert_eq!(s.phase, IntroPhase::Ready);
    let fx = s.next_page(3);
    assert_eq!(s.current_page, 1);
    assert_eq!(s.phase, IntroPhase::PageTransition);
    assert_eq!(fx.sounds, vec![IntroSound::Click]);
    assert!(s.next_page(3).sounds.is_empty());
    s.tick(501);
    let fx = s.prev_page();
    assert_eq!(s.current_page, 0);
    assert_eq!(s.swipe_direction, -1);
    assert!(fx.page_restarted);
    s.tick(501);
    assert!(s.prev_page().sounds.is_empty());
    s.next_page(3);
    s.tick(501);
    s.next_page(3);
    s.tick(501);
    assert_eq!(s.current_page, 2);
    let fx = s.next_page(3);
    assert_eq!(fx.sounds, vec![IntroSound::Click, IntroSound::Complete]);
    assert_eq!(s.phase, IntroPhase::FadeOut);
    let fx = s.tick(501);
    assert!(fx.completed && fx.stop_audio);
    assert_eq!(s.phase, IntroPhase::Complete);
}

#[test]
fn intro_finishes_once() {
    let mut s = IntroState::new();
    let fx = s.skip();
    assert_eq!(fx.sounds, vec![IntroSound::Click, IntroSound::Complete]);
    assert_eq!(s.phase, IntroPhase::FadeOut);
    let fx = s.skip();
    assert_eq!(fx.sounds, vec![IntroSound::Click]);
    let fx = s.finish();
    assert!(fx.sounds.is_empty());
}

#[test]
fn enum_asset_edits() {
    let mut a = EnumAsset::create_empty_asset();
    a.add_variant();
    a.set_variant(0, EnumVariant { name: "Red".to_string(), payload: VariantPayload::Unit, doc: doc_from_text(String::new()) });
    assert_eq!(a.variants[0].name, "Red");
    assert!(a.variants[0].doc.is_none());
    a.set_variant(3, EnumVariant { name: "X".to_string(), payload: VariantPayload::Unit, doc: None });
    assert_eq!(a.variants.len(), 1);
    a.set_properties("Color".to_string(), "Color".to_string(), String::new());
    assert!(a.description.is_none());
    a.set_properties("Color".to_string(), "Color".to_string(), "Colours".to_string());
    assert_eq!(a.description.as_deref(), Some("Colours"));
    assert_eq!(a.generate_rust_code(), "/// Colours\n#[derive(Debug, Clone, PartialEq, Eq)]\npub enum Color {\n    Red,\n}\n");
}

#[test]
fn intro_navigation_bar() {
    let mut s = IntroState::new();
    let nav = intro_nav(&s, 4);
    assert!(!nav.forward_enabled && !nav.back_enabled);
    assert_eq!(nav.counter, "1 / 4");
    assert_eq!(nav.forward_label, "Next");
    s.phase = IntroPhase::Ready;
    let nav = intro_nav(&s, 4);
    assert!(nav.forward_enabled && !nav.back_enabled);
    s.current_page = 3;
    let nav = intro_nav(&s, 4);
    assert!(nav.back_enabled && nav.is_last_page);
    assert_eq!(nav.forward_label, "Get Started");
    assert_eq!(nav.counter, "4 / 4");
}
