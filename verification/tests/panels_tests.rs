use vjmapper::panels::{format_duration, AssignmentPanel, MenuBar, ModuleSidebar, OscillatorPanel};

#[test]
fn durations_are_minutes_and_seconds() {
    assert_eq!(format_duration(0), "00:00");
    assert_eq!(format_duration(65), "01:05");
    assert_eq!(format_duration(599), "09:59");
    assert_eq!(format_duration(3600), "60:00");
    assert_eq!(format_duration(6000), "100:00");
}

#[test]
fn panels_start_hidden() {
    let p = AssignmentPanel::new();
    assert!(!p.visible);
    assert!(!AssignmentPanel::default().visible);
    assert!(!OscillatorPanel::default().visible);
    let _ = MenuBar::default();
    let _ = ModuleSidebar::default();
}
