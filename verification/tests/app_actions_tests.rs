use vjmapper::app_actions::{apply_action, AppAction, AppEffect, AppFlags};

fn flags() -> AppFlags {
    AppFlags { dirty: false, exit_requested: false, show_settings: false, language: "en".to_string() }
}

#[test]
fn save_and_load_use_a_dialog_without_a_path() {
    let mut f = flags();
    assert!(matches!(apply_action(&mut f, AppAction::SaveProject(String::new())), AppEffect::ChooseSavePath));
    assert!(matches!(apply_action(&mut f, AppAction::SaveProjectAs), AppEffect::ChooseSavePath));
    match apply_action(&mut f, AppAction::SaveProject("a.mflow".to_string())) {
        AppEffect::SaveTo(p) => assert_eq!(p, "a.mflow"),
        _ => panic!("expected a save"),
    }
    assert!(matches!(apply_action(&mut f, AppAction::LoadProject(String::new())), AppEffect::ChooseLoadPath));
    match apply_action(&mut f, AppAction::LoadRecentProject("b.mflow".to_string())) {
        AppEffect::LoadFrom(p) => assert_eq!(p, "b.mflow"),
        _ => panic!("expected a load"),
    }
    assert!(!f.dirty);
}

#[test]
fn flags_follow_the_actions() {
    let mut f = flags();
    match apply_action(&mut f, AppAction::SetLanguage("de".to_string())) {
        AppEffect::SwitchLocale(l) => assert_eq!(l, "de"),
        _ => panic!("expected a locale switch"),
    }
    assert_eq!(f.language, "de");
    assert!(f.dirty);
    let mut f = flags();
    assert!(matches!(apply_action(&mut f, AppAction::OpenSettings), AppEffect::Nothing));
    assert!(f.show_settings);
    assert!(matches!(apply_action(&mut f, AppAction::Exit), AppEffect::Nothing));
    assert!(f.exit_requested);
    assert!(!f.dirty);
    assert!(matches!(apply_action(&mut f, AppAction::OtherUi), AppEffect::Nothing));
}

#[test]
fn mcp_and_paint_actions() {
    let mut f = flags();
    assert!(matches!(apply_action(&mut f, AppAction::McpTriggerCue(4294967296 + 3)), AppEffect::GotoCue(3)));
    assert!(!f.dirty);
    assert!(matches!(apply_action(&mut f, AppAction::McpNextCue), AppEffect::NextCue));
    assert!(matches!(apply_action(&mut f, AppAction::McpOther), AppEffect::Nothing));
    assert!(matches!(apply_action(&mut f, AppAction::McpRemoveLayer(5)), AppEffect::RemoveLayer(5)));
    assert!(f.dirty);
    let mut f = flags();
    assert!(matches!(apply_action(&mut f, AppAction::RemovePaint(2)), AppEffect::RemovePaint(2)));
    assert!(f.dirty);
}
