use vjmapper::effects::{
    preset_matches_search, CardEdit, EffectChainAction, EffectChainPanel, EffectType, PresetEntry, UIEffect,
    UIEffectChain,
};

#[test]
fn test_ui_effect_chain_creation() {
    let mut chain = UIEffectChain::new();

    let id1 = chain.add_effect(EffectType::Blur);
    let id2 = chain.add_effect(EffectType::ColorAdjust);

    assert_eq!(chain.effects.len(), 2);
    assert_eq!(chain.effects[0].id, id1);
    assert_eq!(chain.effects[1].id, id2);
}

#[test]
fn test_ui_effect_chain_reorder() {
    let mut chain = UIEffectChain::new();

    let id1 = chain.add_effect(EffectType::Blur);
    let id2 = chain.add_effect(EffectType::ColorAdjust);

    chain.move_up(id2);

    assert_eq!(chain.effects[0].id, id2);
    assert_eq!(chain.effects[1].id, id1);
}

#[test]
fn test_effect_panel_actions() {
    let mut panel = EffectChainPanel::new();

    panel.chain.add_effect(EffectType::Blur);
    panel
        .actions
        .push(EffectChainAction::AddEffect(EffectType::Blur));

    let actions = panel.take_actions();
    assert_eq!(actions.len(), 1);
    assert!(panel.actions.is_empty());
}

fn ids(chain: &UIEffectChain) -> Vec<u64> {
    chain.effects.iter().map(|e| e.id).collect()
}

#[test]
fn chain_ids_start_at_one_and_increase() {
    let mut chain = UIEffectChain::new();
    assert_eq!(chain.add_effect(EffectType::Glow), 1);
    assert_eq!(chain.add_effect(EffectType::Glow), 2);
    assert_eq!(chain.add_effect(EffectType::Invert), 3);
    assert_eq!(chain.next_id, 4);
}

#[test]
fn move_up_first_and_move_down_last_do_nothing() {
    let mut chain = UIEffectChain::new();
    let a = chain.add_effect(EffectType::Blur);
    let b = chain.add_effect(EffectType::Glow);
    chain.move_up(a);
    assert_eq!(ids(&chain), vec![a, b]);
    chain.move_down(b);
    assert_eq!(ids(&chain), vec![a, b]);
    chain.move_up(99);
    chain.move_down(99);
    assert_eq!(ids(&chain), vec![a, b]);
}

#[test]
fn move_up_then_down_restores_order() {
    let mut chain = UIEffectChain::new();
    let a = chain.add_effect(EffectType::Blur);
    let b = chain.add_effect(EffectType::Glow);
    let c = chain.add_effect(EffectType::Vignette);
    chain.move_up(c);
    assert_eq!(ids(&chain), vec![a, c, b]);
    chain.move_down(c);
    assert_eq!(ids(&chain), vec![a, b, c]);
    chain.move_down(a);
    assert_eq!(ids(&chain), vec![b, a, c]);
    chain.move_up(a);
    assert_eq!(ids(&chain), vec![a, b, c]);
}

#[test]
fn remove_effect_keeps_others_in_order() {
    let mut chain = UIEffectChain::new();
    let a = chain.add_effect(EffectType::Blur);
    let b = chain.add_effect(EffectType::Glow);
    let c = chain.add_effect(EffectType::Vignette);
    chain.remove_effect(b);
    assert_eq!(ids(&chain), vec![a, c]);
    chain.remove_effect(42);
    assert_eq!(ids(&chain), vec![a, c]);
    chain.remove_effect(a);
    chain.remove_effect(c);
    assert!(chain.effects.is_empty());
    assert_eq!(chain.add_effect(EffectType::Blur), 4);
}

#[test]
fn new_effect_defaults() {
    let e = UIEffect::new(7, EffectType::ColorAdjust);
    assert_eq!(e.id, 7);
    assert!(e.enabled);
    assert!(e.expanded);
    assert_eq!(f32::from_bits(e.intensity), 1.0);
    assert_eq!(f32::from_bits(e.get_param("brightness", 9.0f32.to_bits())), 0.0);
    assert_eq!(f32::from_bits(e.get_param("contrast", 9.0f32.to_bits())), 1.0);
    assert_eq!(f32::from_bits(e.get_param("saturation", 9.0f32.to_bits())), 1.0);
    assert_eq!(e.parameters.len(), 3);

    let g = UIEffect::new(1, EffectType::Glow);
    assert_eq!(f32::from_bits(g.get_param("threshold", 0)), 0.5);
    assert_eq!(f32::from_bits(g.get_param("radius", 0)), 10.0);
    let c = UIEffect::new(1, EffectType::ChromaticAberration);
    assert_eq!(f32::from_bits(c.get_param("amount", 0)), 0.01);
    let f = UIEffect::new(1, EffectType::FilmGrain);
    assert_eq!(f32::from_bits(f.get_param("amount", 0)), 0.1);
    assert_eq!(f32::from_bits(f.get_param("speed", 0)), 1.0);
    let k = UIEffect::new(1, EffectType::Kaleidoscope);
    assert_eq!(f32::from_bits(k.get_param("segments", 0)), 6.0);
    let p = UIEffect::new(1, EffectType::Pixelate);
    assert_eq!(f32::from_bits(p.get_param("pixel_size", 0)), 8.0);
    let b = UIEffect::new(1, EffectType::Blur);
    assert_eq!(f32::from_bits(b.get_param("radius", 0)), 5.0);
    assert!(UIEffect::new(1, EffectType::Custom).parameters.is_empty());
    assert!(UIEffect::new(1, EffectType::Invert).parameters.is_empty());
}

#[test]
fn set_param_overwrites_and_adds() {
    let mut e = UIEffect::new(1, EffectType::Blur);
    e.set_param("radius", 2.5f32.to_bits());
    assert_eq!(f32::from_bits(e.get_param("radius", 0)), 2.5);
    assert_eq!(e.parameters.len(), 1);
    e.set_param("extra", 3.0f32.to_bits());
    assert_eq!(f32::from_bits(e.get_param("extra", 0)), 3.0);
    assert_eq!(e.get_param("missing", 77), 77);
}

#[test]
fn effect_type_menu_and_icons() {
    let all = EffectType::all();
    assert_eq!(all.len(), 10);
    assert!(!all.contains(&EffectType::Custom));
    assert_eq!(all[0], EffectType::ColorAdjust);
    assert_eq!(all[9], EffectType::FilmGrain);
    assert_eq!(EffectType::Blur.icon(), "🌫️");
    assert_eq!(EffectType::Custom.icon(), "⚙️");
    assert_eq!(EffectType::ColorAdjust.name_key(), "effect-name-color-adjust");
    assert_eq!(EffectType::FilmGrain.name_key(), "effect-name-film-grain");
}

#[test]
fn preset_search_is_case_insensitive() {
    assert!(preset_matches_search("Neon Glow", ""));
    assert!(preset_matches_search("Neon Glow", "glow"));
    assert!(preset_matches_search("Neon Glow", "NEON"));
    assert!(!preset_matches_search("Neon Glow", "blur"));

    let mut panel = EffectChainPanel::new();
    let entry = |name: &str| PresetEntry {
        name: name.to_string(),
        category: "c".to_string(),
        path: format!("/p/{}", name),
        is_favorite: false,
    };
    panel.set_presets(vec![entry("Soft Blur"), entry("Neon Glow"), entry("Blurry")]);
    assert_eq!(panel.listed_presets(), vec![0, 1, 2]);
    panel.preset_search = "blur".to_string();
    assert_eq!(panel.listed_presets(), vec![0, 2]);
}

fn action_names(actions: &[EffectChainAction]) -> Vec<String> {
    actions.iter().map(|a| format!("{:?}", a)).collect()
}

#[test]
fn panel_menu_and_clear() {
    let mut panel = EffectChainPanel::new();
    panel.toggle_add_menu();
    assert!(panel.show_add_menu);
    let id = panel.add_from_menu(EffectType::Vignette);
    assert_eq!(id, 1);
    assert!(!panel.show_add_menu);
    assert_eq!(panel.chain.effects.len(), 1);
    panel.clear_all();
    assert!(panel.chain.effects.is_empty());
    assert_eq!(panel.chain.next_id, 2);
    let actions = panel.take_actions();
    assert_eq!(action_names(&actions), vec!["AddEffect(Vignette)", "ClearAll"]);
}

#[test]
fn panel_preset_browser_actions() {
    let mut panel = EffectChainPanel::new();
    panel.set_presets(vec![PresetEntry {
        name: "Warm".to_string(),
        category: "Color".to_string(),
        path: "presets/warm.json".to_string(),
        is_favorite: true,
    }]);
    panel.toggle_preset_browser();
    assert!(panel.show_preset_browser);
    panel.save_preset();
    assert!(panel.actions.is_empty());
    panel.save_preset_name = "Mine".to_string();
    panel.save_preset();
    assert!(panel.save_preset_name.is_empty());
    panel.load_preset(0);
    assert!(!panel.show_preset_browser);
    panel.open_save_dialog();
    assert!(panel.show_preset_browser);
    panel.close_preset_browser();
    assert!(!panel.show_preset_browser);
    assert_eq!(
        action_names(&panel.take_actions()),
        vec!["SavePreset(\"Mine\")", "LoadPreset(\"presets/warm.json\")"]
    );
}

#[test]
fn card_edit_updates_effect_and_reports() {
    let mut panel = EffectChainPanel::new();
    let id = panel.add_from_menu(EffectType::Blur);
    panel.take_actions();
    let edit = CardEdit {
        enabled: false,
        expanded: false,
        intensity: Some(0.5f32.to_bits()),
        param_changes: vec![("radius".to_string(), 3.0f32.to_bits()), ("radius".to_string(), 4.0f32.to_bits())],
    };
    panel.apply_card_edit(0, &edit);
    let e = &panel.chain.effects[0];
    assert!(!e.enabled);
    assert!(!e.expanded);
    assert_eq!(f32::from_bits(e.intensity), 0.5);
    assert_eq!(f32::from_bits(e.get_param("radius", 0)), 4.0);
    let actions = panel.take_actions();
    assert_eq!(actions.len(), 4);
    assert!(matches!(actions[0], EffectChainAction::ToggleEnabled(x) if x == id));
    assert!(matches!(actions[1], EffectChainAction::SetIntensity(x, v) if x == id && v == 0.5f32.to_bits()));
    assert!(matches!(&actions[3], EffectChainAction::SetParameter(x, n, v) if *x == id && n == "radius" && *v == 4.0f32.to_bits()));

    let unchanged = CardEdit { enabled: false, expanded: true, intensity: None, param_changes: vec![] };
    panel.apply_card_edit(0, &unchanged);
    assert!(panel.take_actions().is_empty());
    assert!(panel.chain.effects[0].expanded);
}

#[test]
fn list_requests_apply_in_order() {
    let mut panel = EffectChainPanel::new();
    let a = panel.add_from_menu(EffectType::Blur);
    let b = panel.add_from_menu(EffectType::Glow);
    let c = panel.add_from_menu(EffectType::Invert);
    panel.take_actions();
    panel.apply_list_requests(Some(a), Some(c), None);
    assert_eq!(ids(&panel.chain), vec![c, b]);
    panel.apply_list_requests(None, None, Some(c));
    assert_eq!(ids(&panel.chain), vec![b, c]);
    assert_eq!(
        action_names(&panel.take_actions()),
        vec![format!("RemoveEffect({})", a), format!("MoveUp({})", c), format!("MoveDown({})", c)]
    );
}

#[test]
fn get_effect_mut_changes_the_first_effect_with_the_id() {
    let mut chain = UIEffectChain::new();
    let a = chain.add_effect(EffectType::Blur);
    let b = chain.add_effect(EffectType::Glow);
    match chain.get_effect_mut(b) {
        Some(e) => e.enabled = false,
        None => panic!("effect not found"),
    }
    assert!(chain.effects[0].enabled);
    assert!(!chain.effects[1].enabled);
    assert_eq!(chain.effects[0].id, a);
    assert!(chain.get_effect_mut(99).is_none());
    assert_eq!(ids(&chain), vec![a, b]);
}

#[test]
fn defaults_are_empty_and_hidden() {
    let chain = UIEffectChain::default();
    assert!(chain.effects.is_empty());
    assert_eq!(chain.next_id, 0);
    let panel = EffectChainPanel::default();
    assert!(!panel.visible);
    assert!(!panel.show_add_menu);
    assert!(!panel.show_preset_browser);
    assert!(panel.chain.effects.is_empty());
    assert_eq!(panel.chain.next_id, 0);
    assert!(panel.preset_search.is_empty());
    assert!(panel.presets.is_empty());
    assert!(panel.dragging_effect.is_none());
    assert!(panel.save_preset_name.is_empty());
    assert!(panel.actions.is_empty());
}

#[test]
fn parameter_names_stay_distinct() {
    for t in [EffectType::ColorAdjust, EffectType::Glow, EffectType::Vignette, EffectType::Custom] {
        let mut e = UIEffect::new(1, t);
        e.set_param("radius", 7);
        e.set_param("extra", 8);
        e.set_param("radius", 9);
        let mut names: Vec<&str> = e.parameters.iter().map(|(n, _)| n.as_str()).collect();
        let len = names.len();
        names.sort();
        names.dedup();
        assert_eq!(names.len(), len);
        assert_eq!(e.get_param("radius", 0), 9);
    }
}
