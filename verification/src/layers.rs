//! The decisions of the layer panel: what its toolbar buttons ask for, how a
//! click selects a layer, and where a dragged layer is moved when dropped.

use vstd::prelude::*;

verus! {

/// A button of the layer panel's toolbar.
#[derive(Clone, Copy, Debug, PartialEq, Eq, Structural)]
pub enum LayerClick {
    Add,
    Remove,
    Duplicate,
    EjectAll,
}

/// What the toolbar asks the application to do.
#[derive(Clone, Copy, Debug, PartialEq, Eq, Structural)]
pub enum LayerToolbarAction {
    AddLayer,
    RemoveLayer(u64),
    DuplicateLayer(u64),
    EjectAllLayers,
}

/// A toolbar click: Add and Eject All always act; Remove and Duplicate act
/// on the selected layer and do nothing without one; Remove also clears the
/// selection.
pub fn layer_toolbar(selected: &mut Option<u64>, click: LayerClick) -> (a: Option<
    LayerToolbarAction,
>)
    ensures
        match click {
            LayerClick::Add => {
                &&& a == Some(LayerToolbarAction::AddLayer)
                &&& *final(selected) == *old(selected)
            },
            LayerClick::EjectAll => {
                &&& a == Some(LayerToolbarAction::EjectAllLayers)
                &&& *final(selected) == *old(selected)
            },
            LayerClick::Remove => {
                &&& *final(selected) is None
                &&& a == match *old(selected) {
                    Some(id) => Some(LayerToolbarAction::RemoveLayer(id)),
                    None => None,
                }
            },
            LayerClick::Duplicate => {
                &&& *final(selected) == *old(selected)
                &&& a == match *old(selected) {
                    Some(id) => Some(LayerToolbarAction::DuplicateLayer(id)),
                    None => None,
                }
            },
        },
{
    match click {
        LayerClick::Add => Some(LayerToolbarAction::AddLayer),
        LayerClick::EjectAll => Some(LayerToolbarAction::EjectAllLayers),
        LayerClick::Remove => match *selected {
            Some(id) => {
                *selected = None;
                Some(LayerToolbarAction::RemoveLayer(id))
            },
            None => None,
        },
        LayerClick::Duplicate => match *selected {
            Some(id) => Some(LayerToolbarAction::DuplicateLayer(id)),
            None => None,
        },
    }
}

/// Clicking a layer of the list selects it.
pub fn click_layer(selected: &mut Option<u64>, id: u64)
    ensures
        *final(selected) == Some(id),
{
    *selected = Some(id);
}

/// The move a drop makes: the dragged layer's position and the position it
/// moves to, which is one less than the drop target when the layer moves
/// down the list; `None` when the dragged layer is not in the list.
pub open spec fn drop_move(ids: Seq<u64>, dragged: u64, target: usize) -> Option<(usize, usize)> {
    if exists|i: int| 0 <= i < ids.len() && ids[i] == dragged {
        let from = choose|i: int|
            0 <= i < ids.len() && ids[i] == dragged && forall|j: int|
                0 <= j < i ==> ids[j] != dragged;
        Some(
            (
                from as usize,
                if from < target {
                    (target - 1) as usize
                } else {
                    target
                },
            ),
        )
    } else {
        None
    }
}

/// Where dropping the dragged layer on the drop target at `target` moves it
/// (see `drop_move`); the first position holding the dragged id counts.
pub fn layer_drop(ids: &Vec<u64>, dragged: u64, target: usize) -> (r: Option<(usize, usize)>)
    ensures
        r == drop_move(ids@, dragged, target),
{
    let mut i: usize = 0;
    while i < ids.len()
        invariant
            i <= ids.len(),
            forall|j: int| 0 <= j < i ==> ids@[j] != dragged,
        decreases ids.len() - i,
    {
        if ids[i] == dragged {
            proof {
                let from = choose|k: int|
                    0 <= k < ids@.len() && ids@[k] == dragged && forall|j: int|
                        0 <= j < k ==> ids@[j] != dragged;
                assert(0 <= i < ids@.len() && ids@[i as int] == dragged && forall|j: int|
                    0 <= j < i ==> ids@[j] != dragged);
                if from < i {
                    assert(ids@[from] == dragged);
                } else if i < from {
                    assert(ids@[i as int] == dragged);
                }
                assert(from == i);
            }
            let to = if i < target {
                target - 1
            } else {
                target
            };
            return Some((i, to));
        }
        i = i + 1;
    }
    None
}


/// Dropping a layer on the drop target in front of another layer puts it
/// directly above that layer: taking the dragged layer out of the list and
/// putting it back at the move's destination leaves it immediately before
/// the layer that stood at the target position, whether it moved up or down.
pub proof fn lemma_drop_lands_above_target(ids: Seq<u64>, dragged: u64, target: usize)
    requires
        ids.len() <= usize::MAX,
        target < ids.len(),
        ids[target as int] != dragged,
        exists|i: int| 0 <= i < ids.len() && ids[i] == dragged,
    ensures
        drop_move(ids, dragged, target) matches Some((from, to)) && {
            let moved = ids.remove(from as int).insert(to as int, dragged);
            &&& ids[from as int] == dragged
            &&& to + 1 < moved.len()
            &&& moved[to as int] == dragged
            &&& moved[to + 1] == ids[target as int]
        },
{
    let w = choose|i: int| 0 <= i < ids.len() && ids[i] == dragged;
    lemma_first_exists(ids, dragged, w);
    let from = choose|i: int|
        0 <= i < ids.len() && ids[i] == dragged && forall|j: int| 0 <= j < i ==> ids[j] != dragged;
    assert(from != target);
    let to: int = if from < target {
        target - 1
    } else {
        target as int
    };
    assert(drop_move(ids, dragged, target) == Some((from as usize, to as usize)));
    let rest = ids.remove(from);
    let moved = rest.insert(to, dragged);
    if from < target {
        assert(rest[target - 1] == ids[target as int]);
        assert(moved[to + 1] == rest[to]);
    } else {
        assert(rest[target as int] == ids[target as int]);
        assert(moved[to + 1] == rest[to]);
    }
}

proof fn lemma_first_exists(ids: Seq<u64>, d: u64, w: int)
    requires
        0 <= w < ids.len(),
        ids[w] == d,
    ensures
        exists|i: int| 0 <= i < ids.len() && ids[i] == d && forall|j: int| 0 <= j < i ==> ids[j] != d,
    decreases w,
{
    if forall|j: int| 0 <= j < w ==> ids[j] != d {
    } else {
        let j = choose|j: int| 0 <= j < w && ids[j] == d;
        lemma_first_exists(ids, d, j);
    }
}
} // verus!
