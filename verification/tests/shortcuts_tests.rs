use vjmapper::shortcuts::{
    context_display_name, Modifiers, Shortcut, ShortcutAction, ShortcutContext, ShortcutPanel,
};

const NONE: Modifiers = Modifiers { ctrl: false, alt: false, shift: false, meta: false };
const CTRL: Modifiers = Modifiers { ctrl: true, alt: false, shift: false, meta: false };

fn shortcut(description: &str, key: u32, modifiers: Modifiers, context: ShortcutContext) -> Shortcut {
    Shortcut { description: description.to_string(), key, modifiers, context }
}

fn defaults() -> Vec<Shortcut> {
    vec![
        shortcut("Save Project", 18, CTRL, ShortcutContext::Global),
        shortcut("Play/Pause", 52, NONE, ShortcutContext::Timeline),
        shortcut("Delete Layer", 60, NONE, ShortcutContext::Editor),
    ]
}

#[test]
fn test_shortcut_panel_creation() {
    let panel = ShortcutPanel::new();
    assert!(!panel.visible);
    assert!(panel.shortcuts().is_empty());
}

#[test]
fn initialize_loads_defaults_once() {
    let mut panel = ShortcutPanel::default();
    panel.initialize(defaults());
    assert_eq!(panel.shortcuts().len(), 3);
    panel.initialize(Vec::new());
    assert_eq!(panel.shortcuts().len(), 3);
}

#[test]
fn list_filters_by_search_and_context() {
    let mut panel = ShortcutPanel::new();
    panel.initialize(defaults());
    assert_eq!(panel.listed_shortcuts(), vec![0, 1, 2]);
    panel.set_search_filter("PLAY".to_string());
    assert_eq!(panel.listed_shortcuts(), vec![1]);
    panel.set_search_filter("e".to_string());
    assert_eq!(panel.listed_shortcuts(), vec![0, 1, 2]);
    panel.set_context_filter(Some(ShortcutContext::Editor));
    assert_eq!(panel.listed_shortcuts(), vec![2]);
    panel.set_context_filter(Some(ShortcutContext::LayerPanel));
    assert!(panel.listed_shortcuts().is_empty());
}

#[test]
fn recording_sets_keys_and_stops() {
    let mut panel = ShortcutPanel::new();
    panel.initialize(defaults());
    assert_eq!(panel.record_key(1, CTRL), None);
    panel.start_recording(1);
    assert_eq!(panel.record_key(33, CTRL), Some(ShortcutAction::SetShortcut(1, 33, CTRL)));
    assert_eq!(panel.shortcuts()[1].key, 33);
    assert_eq!(panel.shortcuts()[1].modifiers, CTRL);
    assert_eq!(panel.shortcuts()[1].description, "Play/Pause");
    assert_eq!(panel.record_key(34, NONE), None);
    panel.start_recording(7);
    assert_eq!(panel.record_key(34, NONE), None);
    panel.start_recording(0);
    panel.cancel_recording();
    assert_eq!(panel.record_key(34, NONE), None);
    assert_eq!(panel.shortcuts()[0].key, 18);
}

#[test]
fn reset_restores_default_keys() {
    let mut panel = ShortcutPanel::new();
    panel.initialize(defaults());
    panel.start_recording(2);
    panel.record_key(1, CTRL);
    assert_eq!(panel.reset_shortcut(2, &defaults()), Some(ShortcutAction::ResetShortcut(2)));
    assert_eq!(panel.shortcuts()[2].key, 60);
    assert_eq!(panel.shortcuts()[2].modifiers, NONE);
    assert_eq!(panel.reset_shortcut(5, &defaults()), None);
    assert_eq!(panel.reset_all(Vec::new()), ShortcutAction::ResetAllShortcuts);
    assert!(panel.shortcuts().is_empty());
}

#[test]
fn context_names() {
    assert_eq!(context_display_name(ShortcutContext::Global), "Global");
    assert_eq!(context_display_name(ShortcutContext::MainWindow), "Main Window");
    assert_eq!(context_display_name(ShortcutContext::OutputWindow), "Output Window");
    assert_eq!(context_display_name(ShortcutContext::LayerPanel), "Layer Panel");
}
