use vjmapper::assignment_table::{
    assignment_listed, assignment_matches_search, AssignmentTablePanel, AssignmentTarget,
    FunctionAssignment,
};

fn row(element: &str, target: AssignmentTarget, function: &str, description: &str) -> FunctionAssignment {
    FunctionAssignment {
        element_id: element.to_string(),
        target,
        function: function.to_string(),
        description: description.to_string(),
    }
}

fn table() -> Vec<FunctionAssignment> {
    vec![
        row("CH1_FADER", AssignmentTarget::MapFlow, "layer_opacity", "Layer 1 Deckkraft"),
        row("CH2_FADER", AssignmentTarget::Mixxx, "volume", "Deck 2 Lautstärke"),
        row("FX_BUTTON", AssignmentTarget::StreamerBot, "scene_switch", "Szene wechseln"),
        row("SPARE_KNOB", AssignmentTarget::Unassigned, "", ""),
    ]
}

#[test]
fn search_matches_any_column_ignoring_case() {
    let t = table();
    assert!(assignment_matches_search(&t[0], ""));
    assert!(assignment_matches_search(&t[0], "ch1"));
    assert!(assignment_matches_search(&t[1], "VOLUME"));
    assert!(assignment_matches_search(&t[2], "szene"));
    assert!(!assignment_matches_search(&t[3], "fader"));
}

#[test]
fn target_filter_keeps_only_that_target() {
    let t = table();
    assert!(assignment_listed(&t[0], "", Some("MapFlow"), false));
    assert!(!assignment_listed(&t[1], "", Some("MapFlow"), false));
    assert!(assignment_listed(&t[2], "", Some("Streamer.bot"), false));
    assert!(assignment_listed(&t[1], "", Some("Other"), false));
    assert!(assignment_listed(&t[3], "", None, false));
    assert!(!assignment_listed(&t[3], "", None, true));
}

#[test]
fn panel_lists_rows_through_all_filters() {
    let mut panel = AssignmentTablePanel::new(Vec::new());
    assert!(!panel.visible);
    assert!(panel.listed_rows().is_empty());
    panel.load_table(table());
    assert_eq!(panel.rows().len(), 4);
    assert_eq!(panel.listed_rows(), vec![0, 1, 2, 3]);
    panel.set_show_assigned_only(true);
    assert_eq!(panel.listed_rows(), vec![0, 1, 2]);
    panel.set_search_filter("fader".to_string());
    assert_eq!(panel.listed_rows(), vec![0, 1]);
    panel.set_filter_target(Some("Mixxx".to_string()));
    assert_eq!(panel.listed_rows(), vec![1]);
    panel.set_filter_target(None);
    panel.set_search_filter(String::new());
    panel.set_show_assigned_only(false);
    panel.select_element("CH1_FADER".to_string());
    assert_eq!(panel.listed_rows(), vec![0, 1, 2, 3]);
    let d = AssignmentTablePanel::new(table());
    assert_eq!(d.rows().len(), 4);
    assert_eq!(d.listed_rows(), vec![0, 1, 2, 3]);
}
