//! Which controller elements an incoming MIDI message drives, and how: the
//! matching rules of the controller overlay.

use vstd::prelude::*;

verus! {

/// The MIDI messages the overlay reacts to, with the fields it reads.
#[derive(Clone, Copy, Debug, PartialEq, Eq, Structural)]
pub enum MidiMessage {
    NoteOn { channel: u8, note: u8, velocity: u8 },
    NoteOff { channel: u8, note: u8 },
    ControlChange { channel: u8, controller: u8, value: u8 },
    /// Any other message.
    Other,
}

/// The MIDI binding of a controller element.
#[derive(Clone, Copy, Debug, PartialEq, Eq, Structural)]
pub enum MidiConfig {
    /// An absolute control change.
    Cc { channel: u8, controller: u8 },
    /// A relative (endless) control change.
    CcRelative { channel: u8, controller: u8 },
    /// A note (key or pad).
    Note { channel: u8, note: u8 },
    /// Any other binding.
    Other,
}

/// How a matching message changes an element's state.
#[derive(Clone, Copy, Debug, PartialEq, Eq, Structural)]
pub enum ElementUpdate {
    /// A control change with this value.
    ControlValue(u8),
    /// A note pressed with this velocity.
    NoteOn(u8),
    /// A note released.
    NoteOff,
}

/// A control change drives both kinds of CC binding on the same channel and
/// controller; note-on and note-off drive a note binding on the same channel
/// and note; nothing else matches.
pub open spec fn matches(message: MidiMessage, config: MidiConfig) -> bool {
    match (message, config) {
        (
            MidiMessage::ControlChange { channel, controller, .. },
            MidiConfig::Cc { channel: c, controller: k },
        ) => channel == c && controller == k,
        (
            MidiMessage::ControlChange { channel, controller, .. },
            MidiConfig::CcRelative { channel: c, controller: k },
        ) => channel == c && controller == k,
        (MidiMessage::NoteOn { channel, note, .. }, MidiConfig::Note { channel: c, note: n }) =>
            channel == c && note == n,
        (MidiMessage::NoteOff { channel, note }, MidiConfig::Note { channel: c, note: n }) =>
            channel == c && note == n,
        _ => false,
    }
}

/// The state change a message carries, if it carries one.
pub open spec fn update_of(message: MidiMessage) -> Option<ElementUpdate> {
    match message {
        MidiMessage::ControlChange { value, .. } => Some(ElementUpdate::ControlValue(value)),
        MidiMessage::NoteOn { velocity, .. } => Some(ElementUpdate::NoteOn(velocity)),
        MidiMessage::NoteOff { .. } => Some(ElementUpdate::NoteOff),
        MidiMessage::Other => None,
    }
}

/// Whether a MIDI message matches an element's binding.
pub fn message_matches_config(message: &MidiMessage, config: &MidiConfig) -> (r: bool)
    ensures
        r == matches(*message, *config),
{
    match (message, config) {
        (
            MidiMessage::ControlChange { channel, controller, .. },
            MidiConfig::Cc { channel: cfg_ch, controller: cfg_cc },
        ) => *channel == *cfg_ch && *controller == *cfg_cc,
        (
            MidiMessage::ControlChange { channel, controller, .. },
            MidiConfig::CcRelative { channel: cfg_ch, controller: cfg_cc },
        ) => *channel == *cfg_ch && *controller == *cfg_cc,
        (
            MidiMessage::NoteOn { channel, note, .. },
            MidiConfig::Note { channel: cfg_ch, note: cfg_note },
        ) => *channel == *cfg_ch && *note == *cfg_note,
        (
            MidiMessage::NoteOff { channel, note },
            MidiConfig::Note { channel: cfg_ch, note: cfg_note },
        ) => *channel == *cfg_ch && *note == *cfg_note,
        _ => false,
    }
}

/// The state change a message carries, if it carries one.
pub fn element_update(message: &MidiMessage) -> (u: Option<ElementUpdate>)
    ensures
        u == update_of(*message),
{
    match message {
        MidiMessage::ControlChange { value, .. } => Some(ElementUpdate::ControlValue(*value)),
        MidiMessage::NoteOn { velocity, .. } => Some(ElementUpdate::NoteOn(*velocity)),
        MidiMessage::NoteOff { .. } => Some(ElementUpdate::NoteOff),
        MidiMessage::Other => None,
    }
}

/// An element takes part when it has a binding that the message matches.
pub open spec fn element_driven(message: MidiMessage, binding: Option<MidiConfig>) -> bool {
    match binding {
        Some(c) => matches(message, c),
        None => false,
    }
}

/// Positions of the elements (given by their bindings) that a message
/// drives, in order.
pub open spec fn driven_elements(message: MidiMessage, bindings: Seq<Option<MidiConfig>>) -> Seq<
    int,
>
    decreases bindings.len(),
{
    if bindings.len() == 0 {
        seq![]
    } else {
        let rest = driven_elements(message, bindings.drop_last());
        if element_driven(message, bindings.last()) {
            rest.push(bindings.len() - 1)
        } else {
            rest
        }
    }
}

/// The elements a message drives, by position, with the change each gets;
/// a message that carries no change drives none.
pub fn midi_updates(message: &MidiMessage, bindings: &Vec<Option<MidiConfig>>) -> (r: Vec<
    (usize, ElementUpdate),
>)
    ensures
        update_of(*message) is None ==> r@.len() == 0,
        update_of(*message) matches Some(u) ==> r@.map_values(|p: (usize, ElementUpdate)| p.0 as int)
            == driven_elements(*message, bindings@) && forall|i: int|
            0 <= i < r@.len() ==> (#[trigger] r@[i]).1 == u,
{
    let mut r: Vec<(usize, ElementUpdate)> = Vec::new();
    let update = match element_update(message) {
        Some(u) => u,
        None => return r,
    };
    let mut i: usize = 0;
    while i < bindings.len()
        invariant
            i <= bindings.len(),
            update_of(*message) == Some(update),
            r@.map_values(|p: (usize, ElementUpdate)| p.0 as int) == driven_elements(
                *message,
                bindings@.subrange(0, i as int),
            ),
            forall|k: int| 0 <= k < r@.len() ==> (#[trigger] r@[k]).1 == update,
        decreases bindings.len() - i,
    {
        let ghost pre = bindings@.subrange(0, i + 1);
        let ghost before = r@;
        let driven = match &bindings[i] {
            Some(c) => message_matches_config(message, c),
            None => false,
        };
        if driven {
            r.push((i, update));
        }
        proof {
            assert(pre.drop_last() =~= bindings@.subrange(0, i as int));
            assert(pre.last() == bindings@[i as int]);
            assert(r@.map_values(|p: (usize, ElementUpdate)| p.0 as int) =~= driven_elements(
                *message,
                pre,
            ));
        }
        i = i + 1;
    }
    assert(bindings@.subrange(0, bindings.len() as int) =~= bindings@);
    r
}


/// A relative CC binding is driven by exactly the messages that drive an
/// absolute CC binding on the same channel and controller: control changes
/// whose channel and controller number both equal the binding's. A note
/// binding is driven by exactly the note-on and note-off messages on its
/// channel and note. Other bindings and other messages never match.
pub proof fn lemma_binding_rules(m: MidiMessage, channel: u8, number: u8)
    ensures
        matches(m, MidiConfig::CcRelative { channel, controller: number }) == matches(
            m,
            MidiConfig::Cc { channel, controller: number },
        ),
        matches(m, MidiConfig::Cc { channel, controller: number }) <==> (exists|v: u8|
            m == MidiMessage::ControlChange { channel, controller: number, value: v }),
        matches(m, MidiConfig::Note { channel, note: number }) <==> ((exists|v: u8|
            m == MidiMessage::NoteOn { channel, note: number, velocity: v }) || m
            == MidiMessage::NoteOff { channel, note: number }),
        !matches(m, MidiConfig::Other),
        !matches(MidiMessage::Other, MidiConfig::Cc { channel, controller: number }),
{
    if let MidiMessage::ControlChange { channel: c, controller: k, value: v } = m {
        assert(m == MidiMessage::ControlChange { channel: c, controller: k, value: v });
    }
    if let MidiMessage::NoteOn { channel: c, note: n, velocity: v } = m {
        assert(m == MidiMessage::NoteOn { channel: c, note: n, velocity: v });
    }
}
} // verus!
