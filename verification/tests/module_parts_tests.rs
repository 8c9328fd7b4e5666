use vjmapper::module_parts::{
    default_presets, part_style, socket_color, sockets_for_part, PartKind, Rgb, SocketType,
};

#[test]
fn sockets_of_each_kind() {
    let (inputs, outputs) = sockets_for_part(PartKind::Mask);
    let names: Vec<&str> = inputs.iter().map(|s| s.name.as_str()).collect();
    assert_eq!(names, vec!["Media In", "Mask In"]);
    assert_eq!(outputs.len(), 1);
    assert_eq!(outputs[0].socket_type, SocketType::Media);
    let (inputs, outputs) = sockets_for_part(PartKind::Trigger);
    assert!(inputs.is_empty());
    assert_eq!(outputs[0].name, "Trigger Out");
    let (inputs, outputs) = sockets_for_part(PartKind::Output);
    assert_eq!(inputs[0].socket_type, SocketType::Layer);
    assert!(outputs.is_empty());
    let (_, outputs) = sockets_for_part(PartKind::Mesh);
    assert_eq!(outputs[0].name, "Mesh Out");
    assert_eq!(outputs[0].socket_type, SocketType::Layer);
}

#[test]
fn styles_and_socket_colors() {
    let s = part_style(PartKind::Output);
    assert_eq!(s.background, Rgb { r: 70, g: 50, b: 50 });
    assert_eq!(s.title, Rgb { r: 180, g: 80, b: 80 });
    assert_eq!(s.icon, "📺");
    assert_eq!(part_style(PartKind::Trigger).icon, "⚡");
    assert_eq!(socket_color(SocketType::Media), Rgb { r: 100, g: 180, b: 220 });
    assert_eq!(socket_color(SocketType::Output), Rgb { r: 220, g: 100, b: 100 });
}

#[test]
fn preset_connections_join_matching_sockets() {
    let presets = default_presets();
    let names: Vec<&str> = presets.iter().map(|p| p.name.as_str()).collect();
    assert_eq!(names, vec!["Simple Media Chain", "Effect Chain", "Audio Reactive", "Masked Media"]);
    assert_eq!(presets[2].parts.len(), 5);
    assert_eq!(presets[2].parts[4].position.x, 850.0f32.to_bits());
    assert_eq!(presets[0].parts[0].position.y, 100.0f32.to_bits());
    for p in &presets {
        for &(fp, fs, tp, ts) in &p.connections {
            assert_ne!(fp, tp);
            let (_, outputs) = sockets_for_part(p.parts[fp].kind);
            let (inputs, _) = sockets_for_part(p.parts[tp].kind);
            assert_eq!(outputs[fs].socket_type, inputs[ts].socket_type);
        }
    }
}
