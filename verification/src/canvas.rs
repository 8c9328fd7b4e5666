//! The bookkeeping of the module canvas: deleting the selected parts, and
//! undoing and redoing recorded edits of a module's parts and connections.
//! A part is known by its id and position (the bit patterns of its two `f32`
//! coordinates); a connection by the parts and sockets it joins.

use vstd::prelude::*;
use crate::seqs::lemma_filter_keeps_all;

verus! {

/// A position on the canvas: the bit patterns of the `f32` x and y.
#[derive(Clone, Copy, Debug, PartialEq, Eq, Structural)]
pub struct Position {
    pub x: u32,
    pub y: u32,
}

/// A part of a module, as the canvas's history records it.
#[derive(Clone, Copy, Debug, PartialEq, Eq, Structural)]
pub struct CanvasPart {
    pub id: u64,
    pub position: Position,
}

/// A connection from an output socket of one part to an input socket of
/// another.
#[derive(Clone, Copy, Debug, PartialEq, Eq, Structural)]
pub struct Connection {
    pub from_part: u64,
    pub from_socket: usize,
    pub to_part: u64,
    pub to_socket: usize,
}

/// Actions that can be undone/redone
#[derive(Clone, Copy, Debug)]
pub enum CanvasAction {
    AddPart { part_id: u64, part_data: CanvasPart },
    DeletePart { part_data: CanvasPart },
    MovePart { part_id: u64, old_pos: Position, new_pos: Position },
    AddConnection { connection: Connection },
    DeleteConnection { connection: Connection },
}

/// The parts and connections of the module being edited.
#[derive(Clone, Debug)]
pub struct ModuleGraph {
    pub parts: Vec<CanvasPart>,
    pub connections: Vec<Connection>,
}

/// What the canvas keeps between frames for editing: the selected parts and
/// the undo and redo stacks (last element on top).
#[derive(Clone, Debug)]
pub struct CanvasEdits {
    pub selected_parts: Vec<u64>,
    pub undo_stack: Vec<CanvasAction>,
    pub redo_stack: Vec<CanvasAction>,
}

/// The parts without any part of this id.
pub open spec fn without_part(s: Seq<CanvasPart>, id: u64) -> Seq<CanvasPart> {
    s.filter(|p: CanvasPart| p.id != id)
}

/// Whether a connection joins other sockets than `c`.
pub open spec fn differs_from(c: Connection) -> spec_fn(Connection) -> bool {
    |x: Connection| x != c
}

/// The connections without any that joins the same sockets as `c`.
pub open spec fn without_connection(s: Seq<Connection>, c: Connection) -> Seq<Connection> {
    s.filter(differs_from(c))
}

/// `i` is the first position of a part with this id.
pub open spec fn first_part_at(s: Seq<CanvasPart>, id: u64, i: int) -> bool {
    &&& 0 <= i < s.len()
    &&& s[i].id == id
    &&& forall|j: int| 0 <= j < i ==> s[j].id != id
}

/// The parts with the first part of this id moved to `pos`; unchanged when no
/// part has the id.
pub open spec fn moved_part(s: Seq<CanvasPart>, id: u64, pos: Position) -> Seq<CanvasPart> {
    if exists|i: int| first_part_at(s, id, i) {
        let i = choose|i: int| first_part_at(s, id, i);
        s.update(i, CanvasPart { id: s[i].id, position: pos })
    } else {
        s
    }
}

/// The parts after undoing `a`: an added part is removed, a deleted one put
/// back at the end, a moved one returned to its old position.
pub open spec fn parts_after_undo(s: Seq<CanvasPart>, a: CanvasAction) -> Seq<CanvasPart> {
    match a {
        CanvasAction::AddPart { part_id, .. } => without_part(s, part_id),
        CanvasAction::DeletePart { part_data } => s.push(part_data),
        CanvasAction::MovePart { part_id, old_pos, .. } => moved_part(s, part_id, old_pos),
        _ => s,
    }
}

/// The connections after undoing `a`.
pub open spec fn connections_after_undo(s: Seq<Connection>, a: CanvasAction) -> Seq<Connection> {
    match a {
        CanvasAction::AddConnection { connection } => without_connection(s, connection),
        CanvasAction::DeleteConnection { connection } => s.push(connection),
        _ => s,
    }
}

/// The parts after redoing `a`: an added part is added again, a deleted one
/// removed again, a moved one taken to its new position.
pub open spec fn parts_after_redo(s: Seq<CanvasPart>, a: CanvasAction) -> Seq<CanvasPart> {
    match a {
        CanvasAction::AddPart { part_data, .. } => s.push(part_data),
        CanvasAction::DeletePart { part_data } => without_part(s, part_data.id),
        CanvasAction::MovePart { part_id, new_pos, .. } => moved_part(s, part_id, new_pos),
        _ => s,
    }
}

/// The connections after redoing `a`.
pub open spec fn connections_after_redo(s: Seq<Connection>, a: CanvasAction) -> Seq<
    Connection,
> {
    match a {
        CanvasAction::AddConnection { connection } => s.push(connection),
        CanvasAction::DeleteConnection { connection } => without_connection(s, connection),
        _ => s,
    }
}

/// The graph is as `a` left it: an added part or connection is the last one
/// and has no twin, a deleted one is absent, a moved part stands at its new
/// position.
pub open spec fn left_by(parts: Seq<CanvasPart>, connections: Seq<Connection>, a: CanvasAction) -> bool {
    match a {
        CanvasAction::AddPart { part_id, part_data } => {
            &&& part_data.id == part_id
            &&& parts.len() > 0
            &&& parts.last() == part_data
            &&& forall|j: int| 0 <= j < parts.len() - 1 ==> parts[j].id != part_id
        },
        CanvasAction::DeletePart { part_data } => forall|j: int|
            0 <= j < parts.len() ==> parts[j].id != part_data.id,
        CanvasAction::MovePart { part_id, new_pos, .. } => exists|i: int|
            first_part_at(parts, part_id, i) && parts[i].position == new_pos,
        CanvasAction::AddConnection { connection } => {
            &&& connections.len() > 0
            &&& connections.last() == connection
            &&& forall|j: int| 0 <= j < connections.len() - 1 ==> connections[j] != connection
        },
        CanvasAction::DeleteConnection { connection } => forall|j: int|
            0 <= j < connections.len() ==> connections[j] != connection,
    }
}

/// Whether a part survives deleting the selection.
pub open spec fn part_kept(selected: Seq<u64>) -> spec_fn(CanvasPart) -> bool {
    |p: CanvasPart| !selected.contains(p.id)
}

/// Whether a connection survives deleting the selection: it touches no
/// selected part.
pub open spec fn connection_kept(selected: Seq<u64>) -> spec_fn(Connection) -> bool {
    |c: Connection| !selected.contains(c.from_part) && !selected.contains(c.to_part)
}

fn contains_id(ids: &Vec<u64>, id: u64) -> (r: bool)
    ensures
        r == ids@.contains(id),
{
    let mut i: usize = 0;
    while i < ids.len()
        invariant
            i <= ids.len(),
            forall|j: int| 0 <= j < i ==> ids@[j] != id,
        decreases ids.len() - i,
    {
        if ids[i] == id {
            assert(ids@[i as int] == id);
            return true;
        }
        i = i + 1;
    }
    false
}

fn keep_parts(parts: &Vec<CanvasPart>, selected: &Vec<u64>) -> (r: Vec<CanvasPart>)
    ensures
        r@ == parts@.filter(part_kept(selected@)),
{
    broadcast use vstd::seq_lib::group_filter_ensures;

    let ghost keep = part_kept(selected@);
    let mut r: Vec<CanvasPart> = Vec::new();
    let mut i: usize = 0;
    proof {
        reveal(Seq::filter);
        assert(parts@.subrange(0, 0) =~= Seq::<CanvasPart>::empty());
    }
    while i < parts.len()
        invariant
            i <= parts.len(),
            keep == part_kept(selected@),
            r@ == parts@.subrange(0, i as int).filter(keep),
        decreases parts.len() - i,
    {
        let p = parts[i];
        proof {
            assert(parts@.subrange(0, i + 1) =~= parts@.subrange(0, i as int).push(p));
            parts@.subrange(0, i as int).lemma_filter_push(p, keep);
        }
        if !contains_id(selected, p.id) {
            r.push(p);
        }
        i = i + 1;
    }
    assert(parts@.subrange(0, parts.len() as int) =~= parts@);
    r
}

fn keep_connections(connections: &Vec<Connection>, selected: &Vec<u64>) -> (r: Vec<Connection>)
    ensures
        r@ == connections@.filter(connection_kept(selected@)),
{
    broadcast use vstd::seq_lib::group_filter_ensures;

    let ghost keep = connection_kept(selected@);
    let mut r: Vec<Connection> = Vec::new();
    let mut i: usize = 0;
    proof {
        reveal(Seq::filter);
        assert(connections@.subrange(0, 0) =~= Seq::<Connection>::empty());
    }
    while i < connections.len()
        invariant
            i <= connections.len(),
            keep == connection_kept(selected@),
            r@ == connections@.subrange(0, i as int).filter(keep),
        decreases connections.len() - i,
    {
        let c = connections[i];
        proof {
            assert(connections@.subrange(0, i + 1) =~= connections@.subrange(0, i as int).push(c));
            connections@.subrange(0, i as int).lemma_filter_push(c, keep);
        }
        if !contains_id(selected, c.from_part) && !contains_id(selected, c.to_part) {
            r.push(c);
        }
        i = i + 1;
    }
    assert(connections@.subrange(0, connections.len() as int) =~= connections@);
    r
}

fn remove_part(parts: &mut Vec<CanvasPart>, id: u64)
    ensures
        final(parts)@ == without_part(old(parts)@, id),
{
    let mut selected: Vec<u64> = Vec::new();
    selected.push(id);
    let kept = keep_parts(parts, &selected);
    proof {
        assert forall|p: CanvasPart| #[trigger] part_kept(selected@)(p) == (p.id != id) by {
            if p.id == id {
                assert(selected@[0] == id);
            }
        }
        assert(part_kept(selected@) =~= (|p: CanvasPart| p.id != id));
    }
    *parts = kept;
}

fn remove_connection(connections: &mut Vec<Connection>, c: Connection)
    ensures
        final(connections)@ == without_connection(old(connections)@, c),
{
    broadcast use vstd::seq_lib::group_filter_ensures;

    let ghost keep = differs_from(c);
    let mut r: Vec<Connection> = Vec::new();
    let mut i: usize = 0;
    proof {
        reveal(Seq::filter);
        assert(connections@.subrange(0, 0) =~= Seq::<Connection>::empty());
    }
    while i < connections.len()
        invariant
            i <= connections.len(),
            keep == differs_from(c),
            connections@ == old(connections)@,
            r@ == connections@.subrange(0, i as int).filter(keep),
        decreases connections.len() - i,
    {
        let x = connections[i];
        proof {
            assert(connections@.subrange(0, i + 1) =~= connections@.subrange(0, i as int).push(x));
            connections@.subrange(0, i as int).lemma_filter_push(x, keep);
        }
        if !(x.from_part == c.from_part && x.to_part == c.to_part && x.from_socket == c.from_socket
            && x.to_socket == c.to_socket) {
            r.push(x);
        }
        i = i + 1;
    }
    assert(connections@.subrange(0, connections.len() as int) =~= connections@);
    *connections = r;
}

fn move_part(parts: &mut Vec<CanvasPart>, id: u64, pos: Position)
    ensures
        final(parts)@ == moved_part(old(parts)@, id, pos),
{
    let mut i: usize = 0;
    while i < parts.len()
        invariant
            i <= parts.len(),
            parts@ == old(parts)@,
            forall|j: int| 0 <= j < i ==> parts@[j].id != id,
        decreases parts.len() - i,
    {
        if parts[i].id == id {
            proof {
                assert(first_part_at(parts@, id, i as int));
                let k = choose|k: int| first_part_at(parts@, id, k);
                if k < i {
                    assert(parts@[k].id == id);
                } else if i < k {
                    assert(parts@[i as int].id == id);
                }
            }
            let old_id = parts[i].id;
            parts.set(i, CanvasPart { id: old_id, position: pos });
            return;
        }
        i = i + 1;
    }
    assert(!exists|k: int| first_part_at(parts@, id, k));
}

/// Whether an id is other than `id`.
pub open spec fn other_id(id: u64) -> spec_fn(u64) -> bool {
    |x: u64| x != id
}

/// The selection after clicking a part: with shift held the part is taken
/// out of the selection if it is in it and added at the end otherwise;
/// without shift it becomes the only selected part.
pub open spec fn selection_after_click(sel: Seq<u64>, id: u64, shift: bool) -> Seq<u64> {
    if !shift {
        seq![id]
    } else if sel.contains(id) {
        sel.filter(other_id(id))
    } else {
        sel.push(id)
    }
}

/// The selection after a box selection that hit these parts (in part
/// order): the hit parts not yet selected are added at the end, to the
/// current selection with shift held and to an empty one without.
pub open spec fn selection_after_box(sel: Seq<u64>, hits: Seq<u64>) -> Seq<u64>
    decreases hits.len(),
{
    if hits.len() == 0 {
        sel
    } else {
        let s = selection_after_box(sel, hits.drop_last());
        if s.contains(hits.last()) {
            s
        } else {
            s.push(hits.last())
        }
    }
}

/// One end of a connection being drawn: a socket of a part, and whether it
/// is an output.
#[derive(Clone, Copy, Debug, PartialEq, Eq, Structural)]
pub struct SocketEnd {
    pub part: u64,
    pub socket: usize,
    pub is_output: bool,
}

/// The connection made by dragging from one socket and releasing over
/// another: none unless the sockets belong to different parts and one is an
/// output and the other an input; it always runs from the output to the
/// input.
pub open spec fn dragged_connection(from: SocketEnd, to: SocketEnd) -> Option<Connection> {
    if to.part != from.part && to.is_output != from.is_output {
        if from.is_output {
            Some(
                Connection {
                    from_part: from.part,
                    from_socket: from.socket,
                    to_part: to.part,
                    to_socket: to.socket,
                },
            )
        } else {
            Some(
                Connection {
                    from_part: to.part,
                    from_socket: to.socket,
                    to_part: from.part,
                    to_socket: from.socket,
                },
            )
        }
    } else {
        None
    }
}

/// The connection to add when a drag from `from` is released over `to`
/// (see `dragged_connection`).
pub fn connection_for_drag(from: SocketEnd, to: SocketEnd) -> (r: Option<Connection>)
    ensures
        r == dragged_connection(from, to),
{
    if to.part != from.part && to.is_output != from.is_output {
        if from.is_output {
            Some(
                Connection {
                    from_part: from.part,
                    from_socket: from.socket,
                    to_part: to.part,
                    to_socket: to.socket,
                },
            )
        } else {
            Some(
                Connection {
                    from_part: to.part,
                    from_socket: to.socket,
                    to_part: from.part,
                    to_socket: from.socket,
                },
            )
        }
    } else {
        None
    }
}

fn without_id(ids: &Vec<u64>, id: u64) -> (r: Vec<u64>)
    ensures
        r@ == ids@.filter(other_id(id)),
{
    broadcast use vstd::seq_lib::group_filter_ensures;

    let ghost keep = other_id(id);
    let mut r: Vec<u64> = Vec::new();
    let mut i: usize = 0;
    proof {
        reveal(Seq::filter);
        assert(ids@.subrange(0, 0) =~= Seq::<u64>::empty());
    }
    while i < ids.len()
        invariant
            i <= ids.len(),
            keep == other_id(id),
            r@ == ids@.subrange(0, i as int).filter(keep),
        decreases ids.len() - i,
    {
        let x = ids[i];
        proof {
            assert(ids@.subrange(0, i + 1) =~= ids@.subrange(0, i as int).push(x));
            ids@.subrange(0, i as int).lemma_filter_push(x, keep);
        }
        if x != id {
            r.push(x);
        }
        i = i + 1;
    }
    assert(ids@.subrange(0, ids.len() as int) =~= ids@);
    r
}

impl CanvasEdits {
    /// A click on a part (see `selection_after_click`).
    pub fn click_part(&mut self, id: u64, shift: bool)
        ensures
            final(self).selected_parts@ == selection_after_click(
                old(self).selected_parts@,
                id,
                shift,
            ),
            final(self).undo_stack@ == old(self).undo_stack@,
            final(self).redo_stack@ == old(self).redo_stack@,
    {
        if !shift {
            let mut only: Vec<u64> = Vec::new();
            only.push(id);
            assert(only@ =~= seq![id]);
            self.selected_parts = only;
        } else if contains_id(&self.selected_parts, id) {
            let kept = without_id(&self.selected_parts, id);
            self.selected_parts = kept;
        } else {
            self.selected_parts.push(id);
        }
    }

    /// A drag starting on a part: a part that is not selected becomes the
    /// only selected one; a selected part keeps the selection.
    pub fn start_drag(&mut self, id: u64)
        ensures
            final(self).selected_parts@ == if old(self).selected_parts@.contains(id) {
                old(self).selected_parts@
            } else {
                seq![id]
            },
            final(self).undo_stack@ == old(self).undo_stack@,
            final(self).redo_stack@ == old(self).redo_stack@,
    {
        if !contains_id(&self.selected_parts, id) {
            let mut only: Vec<u64> = Vec::new();
            only.push(id);
            assert(only@ =~= seq![id]);
            self.selected_parts = only;
        }
    }

    /// The end of a box selection that hit these parts, in part order (see
    /// `selection_after_box`).
    pub fn box_select(&mut self, hits: &Vec<u64>, shift: bool)
        ensures
            final(self).selected_parts@ == selection_after_box(
                if shift {
                    old(self).selected_parts@
                } else {
                    Seq::empty()
                },
                hits@,
            ),
            final(self).undo_stack@ == old(self).undo_stack@,
            final(self).redo_stack@ == old(self).redo_stack@,
    {
        if !shift {
            self.selected_parts = Vec::new();
        }
        let ghost start = self.selected_parts@;
        let mut i: usize = 0;
        assert(hits@.subrange(0, 0) =~= Seq::<u64>::empty());
        while i < hits.len()
            invariant
                i <= hits.len(),
                self.selected_parts@ == selection_after_box(start, hits@.subrange(0, i as int)),
                self.undo_stack@ == old(self).undo_stack@,
                self.redo_stack@ == old(self).redo_stack@,
            decreases hits.len() - i,
        {
            let h = hits[i];
            proof {
                assert(hits@.subrange(0, i + 1).drop_last() =~= hits@.subrange(0, i as int));
            }
            if !contains_id(&self.selected_parts, h) {
                self.selected_parts.push(h);
            }
            i = i + 1;
        }
        assert(hits@.subrange(0, hits.len() as int) =~= hits@);
    }

    /// Nothing selected, nothing to undo or redo.
    pub fn new() -> (e: Self)
        ensures
            e.selected_parts@.len() == 0,
            e.undo_stack@.len() == 0,
            e.redo_stack@.len() == 0,
    {
        CanvasEdits { selected_parts: Vec::new(), undo_stack: Vec::new(), redo_stack: Vec::new() }
    }

    /// Selects every part of the module, in its order.
    pub fn select_all(&mut self, graph: &ModuleGraph)
        ensures
            final(self).selected_parts@ == graph.parts@.map_values(|p: CanvasPart| p.id),
            final(self).undo_stack@ == old(self).undo_stack@,
            final(self).redo_stack@ == old(self).redo_stack@,
    {
        let mut ids: Vec<u64> = Vec::new();
        let mut i: usize = 0;
        while i < graph.parts.len()
            invariant
                i <= graph.parts.len(),
                ids@ == graph.parts@.subrange(0, i as int).map_values(|p: CanvasPart| p.id),
            decreases graph.parts.len() - i,
        {
            proof {
                assert(graph.parts@.subrange(0, i + 1).map_values(|p: CanvasPart| p.id)
                    =~= graph.parts@.subrange(0, i as int).map_values(|p: CanvasPart| p.id).push(
                    graph.parts@[i as int].id,
                ));
            }
            ids.push(graph.parts[i].id);
            i = i + 1;
        }
        assert(graph.parts@.subrange(0, graph.parts.len() as int) =~= graph.parts@);
        self.selected_parts = ids;
    }

    /// Deletes the selected parts and every connection that touches one of
    /// them, then clears the selection. Does nothing when nothing is selected.
    pub fn delete_selected(&mut self, graph: &mut ModuleGraph)
        ensures
            old(self).selected_parts@.len() == 0 ==> final(graph).parts@ == old(graph).parts@
                && final(graph).connections@ == old(graph).connections@,
            old(self).selected_parts@.len() > 0 ==> {
                &&& final(graph).parts@ == old(graph).parts@.filter(
                    part_kept(old(self).selected_parts@),
                )
                &&& final(graph).connections@ == old(graph).connections@.filter(
                    connection_kept(old(self).selected_parts@),
                )
            },
            final(self).selected_parts@.len() == 0,
            final(self).undo_stack@ == old(self).undo_stack@,
            final(self).redo_stack@ == old(self).redo_stack@,
    {
        if self.selected_parts.len() == 0 {
            return;
        }
        let connections = keep_connections(&graph.connections, &self.selected_parts);
        let parts = keep_parts(&graph.parts, &self.selected_parts);
        graph.connections = connections;
        graph.parts = parts;
        self.selected_parts = Vec::new();
    }

    /// Undoes the action on top of the undo stack and moves it to the redo
    /// stack; does nothing when there is none.
    pub fn undo(&mut self, graph: &mut ModuleGraph)
        ensures
            old(self).undo_stack@.len() == 0 ==> {
                &&& final(self).undo_stack@ == old(self).undo_stack@
                &&& final(self).redo_stack@ == old(self).redo_stack@
                &&& final(self).selected_parts@ == old(self).selected_parts@
                &&& final(graph).parts@ == old(graph).parts@
                &&& final(graph).connections@ == old(graph).connections@
            },
            old(self).undo_stack@.len() > 0 ==> {
                let a = old(self).undo_stack@.last();
                &&& final(self).undo_stack@ == old(self).undo_stack@.drop_last()
                &&& final(self).redo_stack@ == old(self).redo_stack@.push(a)
                &&& final(self).selected_parts@ == old(self).selected_parts@
                &&& final(graph).parts@ == parts_after_undo(old(graph).parts@, a)
                &&& final(graph).connections@ == connections_after_undo(
                    old(graph).connections@,
                    a,
                )
            },
    {
        match self.undo_stack.pop() {
            None => {},
            Some(action) => {
                match action {
                    CanvasAction::AddPart { part_id, .. } => remove_part(&mut graph.parts, part_id),
                    CanvasAction::DeletePart { part_data } => graph.parts.push(part_data),
                    CanvasAction::MovePart { part_id, old_pos, .. } => move_part(
                        &mut graph.parts,
                        part_id,
                        old_pos,
                    ),
                    CanvasAction::AddConnection { connection } => remove_connection(
                        &mut graph.connections,
                        connection,
                    ),
                    CanvasAction::DeleteConnection { connection } => graph.connections.push(
                        connection,
                    ),
                }
                self.redo_stack.push(action);
            },
        }
    }

    /// Redoes the action on top of the redo stack and moves it back to the
    /// undo stack; does nothing when there is none.
    pub fn redo(&mut self, graph: &mut ModuleGraph)
        ensures
            old(self).redo_stack@.len() == 0 ==> {
                &&& final(self).undo_stack@ == old(self).undo_stack@
                &&& final(self).redo_stack@ == old(self).redo_stack@
                &&& final(self).selected_parts@ == old(self).selected_parts@
                &&& final(graph).parts@ == old(graph).parts@
                &&& final(graph).connections@ == old(graph).connections@
            },
            old(self).redo_stack@.len() > 0 ==> {
                let a = old(self).redo_stack@.last();
                &&& final(self).redo_stack@ == old(self).redo_stack@.drop_last()
                &&& final(self).undo_stack@ == old(self).undo_stack@.push(a)
                &&& final(self).selected_parts@ == old(self).selected_parts@
                &&& final(graph).parts@ == parts_after_redo(old(graph).parts@, a)
                &&& final(graph).connections@ == connections_after_redo(
                    old(graph).connections@,
                    a,
                )
            },
    {
        match self.redo_stack.pop() {
            None => {},
            Some(action) => {
                match action {
                    CanvasAction::AddPart { part_data, .. } => graph.parts.push(part_data),
                    CanvasAction::DeletePart { part_data } => remove_part(
                        &mut graph.parts,
                        part_data.id,
                    ),
                    CanvasAction::MovePart { part_id, new_pos, .. } => move_part(
                        &mut graph.parts,
                        part_id,
                        new_pos,
                    ),
                    CanvasAction::AddConnection { connection } => graph.connections.push(
                        connection,
                    ),
                    CanvasAction::DeleteConnection { connection } => remove_connection(
                        &mut graph.connections,
                        connection,
                    ),
                }
                self.undo_stack.push(action);
            },
        }
    }
}


/// The graph is as it was before `a`: an added part or connection is absent,
/// a deleted one is the last one and has no twin, a moved part stands at its
/// old position.
pub open spec fn before(parts: Seq<CanvasPart>, connections: Seq<Connection>, a: CanvasAction) -> bool {
    match a {
        CanvasAction::AddPart { part_id, part_data } => {
            &&& part_data.id == part_id
            &&& forall|j: int| 0 <= j < parts.len() ==> parts[j].id != part_id
        },
        CanvasAction::DeletePart { part_data } => {
            &&& parts.len() > 0
            &&& parts.last() == part_data
            &&& forall|j: int| 0 <= j < parts.len() - 1 ==> parts[j].id != part_data.id
        },
        CanvasAction::MovePart { part_id, old_pos, .. } => exists|i: int|
            first_part_at(parts, part_id, i) && parts[i].position == old_pos,
        CanvasAction::AddConnection { connection } => forall|j: int|
            0 <= j < connections.len() ==> connections[j] != connection,
        CanvasAction::DeleteConnection { connection } => {
            &&& connections.len() > 0
            &&& connections.last() == connection
            &&& forall|j: int| 0 <= j < connections.len() - 1 ==> connections[j] != connection
        },
    }
}

/// Filtering out what only the last element fails drops just that element;
/// filtering a sequence with one more failing element at its end gives the
/// same as filtering the sequence.
proof fn lemma_filter_last<A>(s: Seq<A>, f: spec_fn(A) -> bool)
    requires
        s.len() > 0,
        !f(s.last()),
        forall|j: int| 0 <= j < s.len() - 1 ==> f(s[j]),
    ensures
        s.filter(f) == s.drop_last(),
{
    reveal(Seq::filter);
    lemma_filter_keeps_all(s.drop_last(), f);
}

proof fn lemma_first_part_unique(s: Seq<CanvasPart>, id: u64, i: int)
    requires
        first_part_at(s, id, i),
    ensures
        (choose|k: int| first_part_at(s, id, k)) == i,
{
    let k = choose|k: int| first_part_at(s, id, k);
    if k < i {
        assert(s[k].id == id);
    } else if i < k {
        assert(s[i].id == id);
    }
}

proof fn lemma_move_back(s: Seq<CanvasPart>, id: u64, from: Position, to: Position)
    requires
        exists|i: int| first_part_at(s, id, i) && s[i].position == from,
    ensures
        moved_part(moved_part(s, id, to), id, from) == s,
{
    let i = choose|i: int| first_part_at(s, id, i) && s[i].position == from;
    lemma_first_part_unique(s, id, i);
    let t = moved_part(s, id, to);
    assert(t == s.update(i, CanvasPart { id: s[i].id, position: to }));
    assert(first_part_at(t, id, i));
    lemma_first_part_unique(t, id, i);
    assert(moved_part(t, id, from) =~= s);
}

/// Redoing an action right after undoing it gives back the history and the
/// graph as the action left them.
pub proof fn lemma_undo_then_redo(
    undo_stack: Seq<CanvasAction>,
    redo_stack: Seq<CanvasAction>,
    parts: Seq<CanvasPart>,
    connections: Seq<Connection>,
)
    requires
        undo_stack.len() > 0,
        left_by(parts, connections, undo_stack.last()),
    ensures
        ({
            let a = undo_stack.last();
            &&& undo_stack.drop_last().push(a) == undo_stack
            &&& redo_stack.push(a).drop_last() == redo_stack
            &&& parts_after_redo(parts_after_undo(parts, a), a) == parts
            &&& connections_after_redo(connections_after_undo(connections, a), a) == connections
        }),
{
    let a = undo_stack.last();
    assert(undo_stack.drop_last().push(a) =~= undo_stack);
    assert(redo_stack.push(a).drop_last() =~= redo_stack);
    match a {
        CanvasAction::AddPart { part_id, part_data } => {
            lemma_filter_last(parts, |p: CanvasPart| p.id != part_id);
            assert(parts.drop_last().push(part_data) =~= parts);
        },
        CanvasAction::DeletePart { part_data } => {
            let f = |p: CanvasPart| p.id != part_data.id;
            lemma_filter_last(parts.push(part_data), f);
            assert(parts.push(part_data).drop_last() =~= parts);
        },
        CanvasAction::MovePart { part_id, old_pos, new_pos } => {
            lemma_move_back(parts, part_id, new_pos, old_pos);
        },
        CanvasAction::AddConnection { connection } => {
            lemma_filter_last(connections, differs_from(connection));
            assert(connections.drop_last().push(connection) =~= connections);
        },
        CanvasAction::DeleteConnection { connection } => {
            lemma_filter_last(connections.push(connection), differs_from(connection));
            assert(connections.push(connection).drop_last() =~= connections);
        },
    }
}

/// Undoing an action right after redoing it gives back the history and the
/// graph as they were before the action.
pub proof fn lemma_redo_then_undo(
    undo_stack: Seq<CanvasAction>,
    redo_stack: Seq<CanvasAction>,
    parts: Seq<CanvasPart>,
    connections: Seq<Connection>,
)
    requires
        redo_stack.len() > 0,
        before(parts, connections, redo_stack.last()),
    ensures
        ({
            let a = redo_stack.last();
            &&& redo_stack.drop_last().push(a) == redo_stack
            &&& undo_stack.push(a).drop_last() == undo_stack
            &&& parts_after_undo(parts_after_redo(parts, a), a) == parts
            &&& connections_after_undo(connections_after_redo(connections, a), a) == connections
        }),
{
    let a = redo_stack.last();
    assert(redo_stack.drop_last().push(a) =~= redo_stack);
    assert(undo_stack.push(a).drop_last() =~= undo_stack);
    match a {
        CanvasAction::AddPart { part_id, part_data } => {
            lemma_filter_last(parts.push(part_data), |p: CanvasPart| p.id != part_id);
            assert(parts.push(part_data).drop_last() =~= parts);
        },
        CanvasAction::DeletePart { part_data } => {
            lemma_filter_last(parts, |p: CanvasPart| p.id != part_data.id);
            assert(parts.drop_last().push(part_data) =~= parts);
        },
        CanvasAction::MovePart { part_id, old_pos, new_pos } => {
            lemma_move_back(parts, part_id, old_pos, new_pos);
        },
        CanvasAction::AddConnection { connection } => {
            lemma_filter_last(connections.push(connection), differs_from(connection));
            assert(connections.push(connection).drop_last() =~= connections);
        },
        CanvasAction::DeleteConnection { connection } => {
            lemma_filter_last(connections, differs_from(connection));
            assert(connections.drop_last().push(connection) =~= connections);
        },
    }
}


/// Undoing an edit does to the graph exactly the reverse of the edit, on
/// every graph: undoing an added part removes every part with its id and
/// keeps all other parts in order; undoing a deletion appends the deleted
/// part after all present ones; undoing a move puts the first part with the
/// id back at its old position and changes nothing else; undoing an added
/// connection removes every connection joining the same sockets and keeps
/// the others in order; undoing a deleted connection appends it. Part edits
/// leave the connections alone and connection edits leave the parts alone.
pub proof fn lemma_undo_reverses_each_edit(
    parts: Seq<CanvasPart>,
    connections: Seq<Connection>,
    a: CanvasAction,
)
    ensures
        ({
            let p = parts_after_undo(parts, a);
            let c = connections_after_undo(connections, a);
            match a {
                CanvasAction::AddPart { part_id, .. } => {
                    &&& p == parts.filter(|q: CanvasPart| q.id != part_id)
                    &&& forall|i: int| 0 <= i < p.len() ==> p[i].id != part_id
                    &&& c == connections
                },
                CanvasAction::DeletePart { part_data } => {
                    &&& p.len() == parts.len() + 1
                    &&& p[parts.len() as int] == part_data
                    &&& forall|i: int| 0 <= i < parts.len() ==> p[i] == parts[i]
                    &&& c == connections
                },
                CanvasAction::MovePart { part_id, old_pos, .. } => {
                    &&& forall|i: int|
                        first_part_at(parts, part_id, i) ==> p == parts.update(
                            i,
                            CanvasPart { id: part_id, position: old_pos },
                        )
                    &&& (forall|i: int| 0 <= i < parts.len() ==> parts[i].id != part_id) ==> p
                        == parts
                    &&& c == connections
                },
                CanvasAction::AddConnection { connection } => {
                    &&& c == connections.filter(|x: Connection| x != connection)
                    &&& forall|i: int| 0 <= i < c.len() ==> c[i] != connection
                    &&& p == parts
                },
                CanvasAction::DeleteConnection { connection } => {
                    &&& c.len() == connections.len() + 1
                    &&& c[connections.len() as int] == connection
                    &&& forall|i: int| 0 <= i < connections.len() ==> c[i] == connections[i]
                    &&& p == parts
                },
            }
        }),
{
    broadcast use vstd::seq_lib::group_filter_ensures;

    match a {
        CanvasAction::AddPart { part_id, .. } => {
            let f = |q: CanvasPart| q.id != part_id;
            assert(without_part(parts, part_id) == parts.filter(f)) by {
                assert((|p: CanvasPart| p.id != part_id) =~= f);
            }
            let p = parts.filter(f);
            assert forall|i: int| 0 <= i < p.len() implies p[i].id != part_id by {
                parts.lemma_filter_pred(f, i);
            }
        },
        CanvasAction::MovePart { part_id, old_pos, .. } => {
            assert forall|i: int| first_part_at(parts, part_id, i) implies moved_part(
                parts,
                part_id,
                old_pos,
            ) == parts.update(i, CanvasPart { id: part_id, position: old_pos }) by {
                lemma_first_part_unique(parts, part_id, i);
            }
        },
        CanvasAction::AddConnection { connection } => {
            let f = |x: Connection| x != connection;
            assert(differs_from(connection) =~= f);
            let c = connections.filter(f);
            assert forall|i: int| 0 <= i < c.len() implies c[i] != connection by {
                connections.lemma_filter_pred(f, i);
            }
        },
        _ => {},
    }
}

/// Redoing an edit does it again, on every graph: a redone added part is
/// appended after all present parts; a redone deletion removes every part
/// with the deleted part's id and keeps the others in order; a redone move
/// puts the first part with the id at its new position; a redone added
/// connection is appended; a redone deleted connection is removed wherever
/// it occurs, the others kept in order.
pub proof fn lemma_redo_repeats_each_edit(
    parts: Seq<CanvasPart>,
    connections: Seq<Connection>,
    a: CanvasAction,
)
    ensures
        ({
            let p = parts_after_redo(parts, a);
            let c = connections_after_redo(connections, a);
            match a {
                CanvasAction::AddPart { part_data, .. } => {
                    &&& p.len() == parts.len() + 1
                    &&& p[parts.len() as int] == part_data
                    &&& forall|i: int| 0 <= i < parts.len() ==> p[i] == parts[i]
                    &&& c == connections
                },
                CanvasAction::DeletePart { part_data } => {
                    &&& p == parts.filter(|q: CanvasPart| q.id != part_data.id)
                    &&& forall|i: int| 0 <= i < p.len() ==> p[i].id != part_data.id
                    &&& c == connections
                },
                CanvasAction::MovePart { part_id, new_pos, .. } => {
                    &&& forall|i: int|
                        first_part_at(parts, part_id, i) ==> p == parts.update(
                            i,
                            CanvasPart { id: part_id, position: new_pos },
                        )
                    &&& (forall|i: int| 0 <= i < parts.len() ==> parts[i].id != part_id) ==> p
                        == parts
                    &&& c == connections
                },
                CanvasAction::AddConnection { connection } => {
                    &&& c.len() == connections.len() + 1
                    &&& c[connections.len() as int] == connection
                    &&& forall|i: int| 0 <= i < connections.len() ==> c[i] == connections[i]
                    &&& p == parts
                },
                CanvasAction::DeleteConnection { connection } => {
                    &&& c == connections.filter(|x: Connection| x != connection)
                    &&& forall|i: int| 0 <= i < c.len() ==> c[i] != connection
                    &&& p == parts
                },
            }
        }),
{
    broadcast use vstd::seq_lib::group_filter_ensures;

    match a {
        CanvasAction::DeletePart { part_data } => {
            let f = |q: CanvasPart| q.id != part_data.id;
            assert(without_part(parts, part_data.id) == parts.filter(f)) by {
                assert((|p: CanvasPart| p.id != part_data.id) =~= f);
            }
            let p = parts.filter(f);
            assert forall|i: int| 0 <= i < p.len() implies p[i].id != part_data.id by {
                parts.lemma_filter_pred(f, i);
            }
        },
        CanvasAction::MovePart { part_id, new_pos, .. } => {
            assert forall|i: int| first_part_at(parts, part_id, i) implies moved_part(
                parts,
                part_id,
                new_pos,
            ) == parts.update(i, CanvasPart { id: part_id, position: new_pos }) by {
                lemma_first_part_unique(parts, part_id, i);
            }
        },
        CanvasAction::DeleteConnection { connection } => {
            let f = |x: Connection| x != connection;
            assert(differs_from(connection) =~= f);
            let c = connections.filter(f);
            assert forall|i: int| 0 <= i < c.len() implies c[i] != connection by {
                connections.lemma_filter_pred(f, i);
            }
        },
        _ => {},
    }
}

} // verus!
