//! The kinds of part a module is built from, as the canvas shows them: each
//! kind's input and output sockets, its colours and icon, the colour of each
//! socket type, and the built-in module presets, whose connections always
//! join an output and an input of the same socket type.

use vstd::prelude::*;
use crate::canvas::Position;

verus! {

/// The kind of a module part.
#[derive(Clone, Copy, Debug, PartialEq, Eq, Structural)]
pub enum PartKind {
    Trigger,
    Source,
    Mask,
    Modulizer,
    LayerAssignment,
    Mesh,
    Output,
}

/// What flows through a socket.
#[derive(Clone, Copy, Debug, PartialEq, Eq, Structural)]
pub enum SocketType {
    Trigger,
    Media,
    Effect,
    Layer,
    Output,
}

/// A socket of a part: its label and what flows through it.
#[derive(Clone, Debug)]
pub struct ModuleSocket {
    pub name: String,
    pub socket_type: SocketType,
}

/// An RGB colour.
#[derive(Clone, Copy, Debug, PartialEq, Eq, Structural)]
pub struct Rgb {
    pub r: u8,
    pub g: u8,
    pub b: u8,
}

/// How a part kind is drawn: body colour, title colour and icon.
#[derive(Clone, Copy, Debug)]
pub struct PartStyle {
    pub background: Rgb,
    pub title: Rgb,
    pub icon: &'static str,
}

/// The sockets as (label, type) pairs.
pub open spec fn sockets_view(s: Seq<ModuleSocket>) -> Seq<(Seq<char>, SocketType)> {
    s.map_values(|k: ModuleSocket| (k.name@, k.socket_type))
}

/// The input sockets of a part kind, in order.
pub open spec fn kind_inputs(k: PartKind) -> Seq<(Seq<char>, SocketType)> {
    match k {
        PartKind::Trigger => seq![],
        PartKind::Source => seq![("Trigger In"@, SocketType::Trigger)],
        PartKind::Mask => seq![("Media In"@, SocketType::Media), ("Mask In"@, SocketType::Media)],
        PartKind::Modulizer => seq![
            ("Media In"@, SocketType::Media),
            ("Trigger In"@, SocketType::Trigger),
        ],
        PartKind::LayerAssignment => seq![("Media In"@, SocketType::Media)],
        PartKind::Mesh => seq![("Media In"@, SocketType::Media)],
        PartKind::Output => seq![("Layer In"@, SocketType::Layer)],
    }
}

/// The output sockets of a part kind, in order.
pub open spec fn kind_outputs(k: PartKind) -> Seq<(Seq<char>, SocketType)> {
    match k {
        PartKind::Trigger => seq![("Trigger Out"@, SocketType::Trigger)],
        PartKind::Source => seq![("Media Out"@, SocketType::Media)],
        PartKind::Mask => seq![("Media Out"@, SocketType::Media)],
        PartKind::Modulizer => seq![("Media Out"@, SocketType::Media)],
        PartKind::LayerAssignment => seq![("Layer Out"@, SocketType::Layer)],
        PartKind::Mesh => seq![("Mesh Out"@, SocketType::Layer)],
        PartKind::Output => seq![],
    }
}

fn socket(name: &str, socket_type: SocketType) -> (s: ModuleSocket)
    ensures
        s.name@ == name@,
        s.socket_type == socket_type,
{
    ModuleSocket { name: String::from_str(name), socket_type }
}

fn sockets(list: &[(&str, SocketType)]) -> (v: Vec<ModuleSocket>)
    ensures
        sockets_view(v@) == list@.map_values(|e: (&str, SocketType)| (e.0@, e.1)),
{
    let mut v: Vec<ModuleSocket> = Vec::new();
    let mut i: usize = 0;
    while i < list.len()
        invariant
            i <= list.len(),
            v@.len() == i,
            sockets_view(v@) == list@.subrange(0, i as int).map_values(
                |e: (&str, SocketType)| (e.0@, e.1),
            ),
        decreases list.len() - i,
    {
        let ghost before = v@;
        v.push(socket(list[i].0, list[i].1));
        proof {
            assert(v@ =~= before.push(v@[i as int]));
            assert(list@.subrange(0, i + 1) =~= list@.subrange(0, i as int).push(list@[i as int]));
            assert(sockets_view(v@) =~= sockets_view(before).push((list@[i as int].0@, list@[i as int].1)));
            assert(list@.subrange(0, i + 1).map_values(|e: (&str, SocketType)| (e.0@, e.1))
                =~= list@.subrange(0, i as int).map_values(|e: (&str, SocketType)| (e.0@, e.1)).push(
                (list@[i as int].0@, list@[i as int].1),
            ));
        }
        i = i + 1;
    }
    assert(list@.subrange(0, list.len() as int) =~= list@);
    v
}

/// The input and output sockets of a part of this kind.
pub fn sockets_for_part(k: PartKind) -> (r: (Vec<ModuleSocket>, Vec<ModuleSocket>))
    ensures
        sockets_view(r.0@) == kind_inputs(k),
        sockets_view(r.1@) == kind_outputs(k),
{
    let (inputs, outputs) = match k {
        PartKind::Trigger => (sockets(&[]), sockets(&[("Trigger Out", SocketType::Trigger)])),
        PartKind::Source => (
            sockets(&[("Trigger In", SocketType::Trigger)]),
            sockets(&[("Media Out", SocketType::Media)]),
        ),
        PartKind::Mask => (
            sockets(&[("Media In", SocketType::Media), ("Mask In", SocketType::Media)]),
            sockets(&[("Media Out", SocketType::Media)]),
        ),
        PartKind::Modulizer => (
            sockets(&[("Media In", SocketType::Media), ("Trigger In", SocketType::Trigger)]),
            sockets(&[("Media Out", SocketType::Media)]),
        ),
        PartKind::LayerAssignment => (
            sockets(&[("Media In", SocketType::Media)]),
            sockets(&[("Layer Out", SocketType::Layer)]),
        ),
        PartKind::Mesh => (
            sockets(&[("Media In", SocketType::Media)]),
            sockets(&[("Mesh Out", SocketType::Layer)]),
        ),
        PartKind::Output => (sockets(&[("Layer In", SocketType::Layer)]), sockets(&[])),
    };
    assert(sockets_view(inputs@) =~= kind_inputs(k));
    assert(sockets_view(outputs@) =~= kind_outputs(k));
    (inputs, outputs)
}

/// The colour of a socket of this type.
pub open spec fn socket_rgb(t: SocketType) -> Rgb {
    match t {
        SocketType::Trigger => Rgb { r: 180, g: 100, b: 220 },
        SocketType::Media => Rgb { r: 100, g: 180, b: 220 },
        SocketType::Effect => Rgb { r: 220, g: 180, b: 100 },
        SocketType::Layer => Rgb { r: 100, g: 220, b: 140 },
        SocketType::Output => Rgb { r: 220, g: 100, b: 100 },
    }
}

/// The colour of a socket of this type.
pub fn socket_color(t: SocketType) -> (c: Rgb)
    ensures
        c == socket_rgb(t),
{
    match t {
        SocketType::Trigger => Rgb { r: 180, g: 100, b: 220 },
        SocketType::Media => Rgb { r: 100, g: 180, b: 220 },
        SocketType::Effect => Rgb { r: 220, g: 180, b: 100 },
        SocketType::Layer => Rgb { r: 100, g: 220, b: 140 },
        SocketType::Output => Rgb { r: 220, g: 100, b: 100 },
    }
}

/// Body colour, title colour and icon of a part kind.
pub open spec fn kind_style(k: PartKind) -> (Rgb, Rgb, Seq<char>) {
    match k {
        PartKind::Trigger => (Rgb { r: 60, g: 50, b: 70 }, Rgb { r: 130, g: 80, b: 180 }, "⚡"@),
        PartKind::Source => (Rgb { r: 50, g: 60, b: 70 }, Rgb { r: 80, g: 140, b: 180 }, "🎬"@),
        PartKind::Mask => (Rgb { r: 60, g: 55, b: 70 }, Rgb { r: 160, g: 100, b: 180 }, "🎭"@),
        PartKind::Modulizer => (Rgb { r: 60, g: 60, b: 50 }, Rgb { r: 180, g: 140, b: 60 }, "〰️"@),
        PartKind::LayerAssignment => (
            Rgb { r: 50, g: 70, b: 60 },
            Rgb { r: 80, g: 180, b: 120 },
            "📑"@,
        ),
        PartKind::Mesh => (Rgb { r: 55, g: 60, b: 70 }, Rgb { r: 100, g: 150, b: 200 }, "🔷"@),
        PartKind::Output => (Rgb { r: 70, g: 50, b: 50 }, Rgb { r: 180, g: 80, b: 80 }, "📺"@),
    }
}

/// How a part of this kind is drawn (see `kind_style`).
pub fn part_style(k: PartKind) -> (s: PartStyle)
    ensures
        (s.background, s.title, s.icon@) == kind_style(k),
{
    match k {
        PartKind::Trigger => PartStyle {
            background: Rgb { r: 60, g: 50, b: 70 },
            title: Rgb { r: 130, g: 80, b: 180 },
            icon: "⚡",
        },
        PartKind::Source => PartStyle {
            background: Rgb { r: 50, g: 60, b: 70 },
            title: Rgb { r: 80, g: 140, b: 180 },
            icon: "🎬",
        },
        PartKind::Mask => PartStyle {
            background: Rgb { r: 60, g: 55, b: 70 },
            title: Rgb { r: 160, g: 100, b: 180 },
            icon: "🎭",
        },
        PartKind::Modulizer => PartStyle {
            background: Rgb { r: 60, g: 60, b: 50 },
            title: Rgb { r: 180, g: 140, b: 60 },
            icon: "〰️",
        },
        PartKind::LayerAssignment => PartStyle {
            background: Rgb { r: 50, g: 70, b: 60 },
            title: Rgb { r: 80, g: 180, b: 120 },
            icon: "📑",
        },
        PartKind::Mesh => PartStyle {
            background: Rgb { r: 55, g: 60, b: 70 },
            title: Rgb { r: 100, g: 150, b: 200 },
            icon: "🔷",
        },
        PartKind::Output => PartStyle {
            background: Rgb { r: 70, g: 50, b: 50 },
            title: Rgb { r: 180, g: 80, b: 80 },
            icon: "📺",
        },
    }
}

/// A part of a preset: its kind, position and optional size.
#[derive(Clone, Copy, Debug, PartialEq, Eq, Structural)]
pub struct PresetPart {
    pub kind: PartKind,
    pub position: Position,
    pub size: Option<Position>,
}

/// A connection of a preset: (from part, from output socket, to part, to
/// input socket), parts given by their position in the preset.
pub type PresetConnection = (usize, usize, usize, usize);

/// A saved module preset/template
#[derive(Clone, Debug)]
pub struct ModulePreset {
    pub name: String,
    pub parts: Vec<PresetPart>,
    pub connections: Vec<PresetConnection>,
}

/// Bit patterns of the `f32` coordinates the presets use.
pub const X_50: u32 = 0x4248_0000;
pub const Y_100: u32 = 0x42C8_0000;
pub const X_250: u32 = 0x437A_0000;
pub const X_450: u32 = 0x43E1_0000;
pub const X_650: u32 = 0x4422_8000;
pub const X_850: u32 = 0x4454_8000;

/// A preset part at (x, 100) with no size.
pub open spec fn at(kind: PartKind, x: u32) -> PresetPart {
    PresetPart { kind, position: Position { x, y: Y_100 }, size: None }
}

/// The built-in presets: name, parts and connections.
pub open spec fn builtin_presets() -> Seq<(Seq<char>, Seq<PresetPart>, Seq<PresetConnection>)> {
    seq![
        (
            "Simple Media Chain"@,
            seq![at(PartKind::Trigger, X_50), at(PartKind::Source, X_250), at(PartKind::Output, X_450)],
            seq![(0usize, 0usize, 1usize, 0usize)],
        ),
        (
            "Effect Chain"@,
            seq![
                at(PartKind::Trigger, X_50),
                at(PartKind::Source, X_250),
                at(PartKind::Modulizer, X_450),
                at(PartKind::Output, X_650),
            ],
            seq![(0usize, 0usize, 1usize, 0usize), (1usize, 0usize, 2usize, 0usize)],
        ),
        (
            "Audio Reactive"@,
            seq![
                at(PartKind::Trigger, X_50),
                at(PartKind::Source, X_250),
                at(PartKind::Modulizer, X_450),
                at(PartKind::LayerAssignment, X_650),
                at(PartKind::Output, X_850),
            ],
            seq![
                (0usize, 0usize, 1usize, 0usize),
                (1usize, 0usize, 2usize, 0usize),
                (2usize, 0usize, 3usize, 0usize),
            ],
        ),
        (
            "Masked Media"@,
            seq![
                at(PartKind::Trigger, X_50),
                at(PartKind::Source, X_250),
                at(PartKind::Mask, X_450),
                at(PartKind::Output, X_650),
            ],
            seq![(0usize, 0usize, 1usize, 0usize), (1usize, 0usize, 2usize, 0usize)],
        ),
    ]
}

/// The ghost form of a preset.
pub open spec fn preset_view(p: ModulePreset) -> (Seq<char>, Seq<PresetPart>, Seq<PresetConnection>) {
    (p.name@, p.parts@, p.connections@)
}

/// A connection of a preset joins two different parts of it, from an
/// existing output socket to an existing input socket of the same type.
pub open spec fn connection_fits(parts: Seq<PresetPart>, c: PresetConnection) -> bool {
    &&& c.0 < parts.len()
    &&& c.2 < parts.len()
    &&& c.0 != c.2
    &&& c.1 < kind_outputs(parts[c.0 as int].kind).len()
    &&& c.3 < kind_inputs(parts[c.2 as int].kind).len()
    &&& kind_outputs(parts[c.0 as int].kind)[c.1 as int].1 == kind_inputs(
        parts[c.2 as int].kind,
    )[c.3 as int].1
}

fn part_at(kind: PartKind, x: u32) -> (p: PresetPart)
    ensures
        p == at(kind, x),
{
    PresetPart { kind, position: Position { x, y: Y_100 }, size: None }
}

fn preset(name: &str, parts: Vec<PresetPart>, connections: Vec<PresetConnection>) -> (p:
    ModulePreset)
    ensures
        preset_view(p) == (name@, parts@, connections@),
{
    ModulePreset { name: String::from_str(name), parts, connections }
}

/// The built-in module presets (see `builtin_presets`).
pub fn default_presets() -> (v: Vec<ModulePreset>)
    ensures
        v@.map_values(|p: ModulePreset| preset_view(p)) == builtin_presets(),
{
    let mut v: Vec<ModulePreset> = Vec::new();
    v.push(
        preset(
            "Simple Media Chain",
            vec![
                part_at(PartKind::Trigger, X_50),
                part_at(PartKind::Source, X_250),
                part_at(PartKind::Output, X_450),
            ],
            vec![(0, 0, 1, 0)],
        ),
    );
    v.push(
        preset(
            "Effect Chain",
            vec![
                part_at(PartKind::Trigger, X_50),
                part_at(PartKind::Source, X_250),
                part_at(PartKind::Modulizer, X_450),
                part_at(PartKind::Output, X_650),
            ],
            vec![(0, 0, 1, 0), (1, 0, 2, 0)],
        ),
    );
    v.push(
        preset(
            "Audio Reactive",
            vec![
                part_at(PartKind::Trigger, X_50),
                part_at(PartKind::Source, X_250),
                part_at(PartKind::Modulizer, X_450),
                part_at(PartKind::LayerAssignment, X_650),
                part_at(PartKind::Output, X_850),
            ],
            vec![(0, 0, 1, 0), (1, 0, 2, 0), (2, 0, 3, 0)],
        ),
    );
    v.push(
        preset(
            "Masked Media",
            vec![
                part_at(PartKind::Trigger, X_50),
                part_at(PartKind::Source, X_250),
                part_at(PartKind::Mask, X_450),
                part_at(PartKind::Output, X_650),
            ],
            vec![(0, 0, 1, 0), (1, 0, 2, 0)],
        ),
    );
    assert(v@.map_values(|p: ModulePreset| preset_view(p)) =~~= builtin_presets());
    v
}

/// Every connection of every built-in preset joins two different parts of
/// the preset, from an existing output socket to an existing input socket of
/// the same socket type.
pub proof fn lemma_presets_connect_compatible_sockets()
    ensures
        forall|i: int, j: int|
            0 <= i < builtin_presets().len() && 0 <= j < builtin_presets()[i].2.len()
                ==> connection_fits(builtin_presets()[i].1, #[trigger] builtin_presets()[i].2[j]),
{
    let ps = builtin_presets();
    assert forall|i: int, j: int|
        0 <= i < ps.len() && 0 <= j < ps[i].2.len() implies connection_fits(
        ps[i].1,
        #[trigger] ps[i].2[j],
    ) by {
        assert(i == 0 || i == 1 || i == 2 || i == 3);
        assert(j == 0 || j == 1 || j == 2);
    }
}

} // verus!
