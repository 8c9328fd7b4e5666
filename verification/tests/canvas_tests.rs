use vjmapper::canvas::{
    connection_for_drag, CanvasAction, CanvasEdits, CanvasPart, Connection, ModuleGraph, Position,
    SocketEnd,
};

fn pos(x: f32, y: f32) -> Position {
    Position { x: x.to_bits(), y: y.to_bits() }
}

fn part(id: u64, x: f32, y: f32) -> CanvasPart {
    CanvasPart { id, position: pos(x, y) }
}

fn link(from_part: u64, to_part: u64) -> Connection {
    Connection { from_part, from_socket: 0, to_part, to_socket: 1 }
}

fn graph() -> ModuleGraph {
    ModuleGraph {
        parts: vec![part(1, 0.0, 0.0), part(2, 100.0, 0.0), part(3, 200.0, 50.0)],
        connections: vec![link(1, 2), link(2, 3), link(1, 3)],
    }
}

#[test]
fn delete_selected_removes_parts_and_their_connections() {
    let mut g = graph();
    let mut edits = CanvasEdits::new();
    edits.delete_selected(&mut g);
    assert_eq!(g.parts.len(), 3);
    edits.selected_parts = vec![2];
    edits.delete_selected(&mut g);
    assert_eq!(g.parts, vec![part(1, 0.0, 0.0), part(3, 200.0, 50.0)]);
    assert_eq!(g.connections, vec![link(1, 3)]);
    assert!(edits.selected_parts.is_empty());
}

#[test]
fn select_all_takes_every_part_in_order() {
    let g = graph();
    let mut edits = CanvasEdits::new();
    edits.select_all(&g);
    assert_eq!(edits.selected_parts, vec![1, 2, 3]);
}

#[test]
fn undo_and_redo_move_actions_between_stacks() {
    let mut g = graph();
    let mut edits = CanvasEdits::new();
    edits.undo(&mut g);
    edits.redo(&mut g);
    assert_eq!(g.parts.len(), 3);

    let added = part(4, 10.0, 10.0);
    g.parts.push(added);
    edits.undo_stack.push(CanvasAction::AddPart { part_id: 4, part_data: added });
    edits.undo(&mut g);
    assert_eq!(g.parts.len(), 3);
    assert!(edits.undo_stack.is_empty());
    assert_eq!(edits.redo_stack.len(), 1);
    edits.redo(&mut g);
    assert_eq!(g.parts.last(), Some(&added));
    assert_eq!(edits.undo_stack.len(), 1);
    assert!(edits.redo_stack.is_empty());
}

#[test]
fn undo_then_redo_restores_each_kind_of_edit() {
    let before = graph();
    let actions = vec![
        CanvasAction::MovePart { part_id: 2, old_pos: pos(5.0, 5.0), new_pos: pos(100.0, 0.0) },
        CanvasAction::DeletePart { part_data: part(9, 1.0, 1.0) },
        CanvasAction::AddConnection { connection: link(1, 3) },
        CanvasAction::DeleteConnection { connection: link(3, 1) },
        CanvasAction::AddPart { part_id: 3, part_data: part(3, 200.0, 50.0) },
    ];
    for a in actions {
        let mut g = graph();
        let mut edits = CanvasEdits::new();
        edits.undo_stack.push(a);
        edits.undo(&mut g);
        edits.redo(&mut g);
        assert_eq!(g.parts, before.parts);
        assert_eq!(g.connections, before.connections);
        assert_eq!(edits.undo_stack.len(), 1);
        assert!(edits.redo_stack.is_empty());
    }
}

#[test]
fn undo_of_a_move_restores_the_old_position() {
    let mut g = graph();
    let mut edits = CanvasEdits::new();
    edits.undo_stack.push(CanvasAction::MovePart {
        part_id: 2,
        old_pos: pos(5.0, 6.0),
        new_pos: pos(100.0, 0.0),
    });
    edits.undo(&mut g);
    assert_eq!(g.parts[1], part(2, 5.0, 6.0));
    edits.undo_stack.push(CanvasAction::DeleteConnection { connection: link(3, 1) });
    edits.undo(&mut g);
    assert_eq!(g.connections.last(), Some(&link(3, 1)));
    edits.undo_stack.push(CanvasAction::AddConnection { connection: link(1, 2) });
    edits.undo(&mut g);
    assert_eq!(g.connections, vec![link(2, 3), link(1, 3), link(3, 1)]);
}

#[test]
fn clicks_replace_or_toggle_the_selection() {
    let mut edits = CanvasEdits::new();
    edits.click_part(2, false);
    assert_eq!(edits.selected_parts, vec![2]);
    edits.click_part(3, true);
    edits.click_part(1, true);
    assert_eq!(edits.selected_parts, vec![2, 3, 1]);
    edits.click_part(3, true);
    assert_eq!(edits.selected_parts, vec![2, 1]);
    edits.click_part(5, false);
    assert_eq!(edits.selected_parts, vec![5]);
    edits.start_drag(5);
    assert_eq!(edits.selected_parts, vec![5]);
    edits.start_drag(7);
    assert_eq!(edits.selected_parts, vec![7]);
}

#[test]
fn box_selection_adds_hits_once() {
    let mut edits = CanvasEdits::new();
    edits.selected_parts = vec![4];
    edits.box_select(&vec![1, 4, 2], true);
    assert_eq!(edits.selected_parts, vec![4, 1, 2]);
    edits.box_select(&vec![2, 3], false);
    assert_eq!(edits.selected_parts, vec![2, 3]);
}

#[test]
fn dragged_connections_run_from_output_to_input() {
    let out = SocketEnd { part: 1, socket: 0, is_output: true };
    let inp = SocketEnd { part: 2, socket: 1, is_output: false };
    let c = Connection { from_part: 1, from_socket: 0, to_part: 2, to_socket: 1 };
    assert_eq!(connection_for_drag(out, inp), Some(c));
    assert_eq!(connection_for_drag(inp, out), Some(c));
    assert_eq!(connection_for_drag(out, SocketEnd { part: 2, socket: 0, is_output: true }), None);
    assert_eq!(connection_for_drag(out, SocketEnd { part: 1, socket: 1, is_output: false }), None);
}
