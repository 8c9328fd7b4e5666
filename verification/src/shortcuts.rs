//! The keyboard shortcut panel: which shortcuts it lists for the search text
//! and context filter, and how recording, resetting and resetting all change
//! the editable copy of the shortcuts. A key is carried as its code.

use vstd::prelude::*;
use crate::text::{contains_seq, str_contains, to_lowercase, unicode_lowercase};

verus! {

/// Where a shortcut applies.
#[derive(Clone, Copy, Debug, PartialEq, Eq, Structural)]
pub enum ShortcutContext {
    Global,
    MainWindow,
    OutputWindow,
    Editor,
    Timeline,
    LayerPanel,
}

/// The modifier keys held with a shortcut's key.
#[derive(Clone, Copy, Debug, PartialEq, Eq, Structural)]
pub struct Modifiers {
    pub ctrl: bool,
    pub alt: bool,
    pub shift: bool,
    pub meta: bool,
}

/// One shortcut: what it does, its key (by code) and modifiers, and where it
/// applies.
#[derive(Clone, Debug)]
pub struct Shortcut {
    pub description: String,
    pub key: u32,
    pub modifiers: Modifiers,
    pub context: ShortcutContext,
}

/// Actions that can be triggered by the shortcut panel
#[derive(Clone, Copy, Debug, PartialEq, Eq, Structural)]
pub enum ShortcutAction {
    /// Set a new shortcut for an action
    SetShortcut(usize, u32, Modifiers),
    /// Reset a shortcut to default
    ResetShortcut(usize),
    /// Reset all shortcuts to defaults
    ResetAllShortcuts,
}

/// The name the panel shows for a context.
pub open spec fn context_name(c: ShortcutContext) -> Seq<char> {
    match c {
        ShortcutContext::Global => "Global"@,
        ShortcutContext::MainWindow => "Main Window"@,
        ShortcutContext::OutputWindow => "Output Window"@,
        ShortcutContext::Editor => "Editor"@,
        ShortcutContext::Timeline => "Timeline"@,
        ShortcutContext::LayerPanel => "Layer Panel"@,
    }
}

/// The name the panel shows for a context.
pub fn context_display_name(c: ShortcutContext) -> (s: &'static str)
    ensures
        s@ == context_name(c),
{
    match c {
        ShortcutContext::Global => "Global",
        ShortcutContext::MainWindow => "Main Window",
        ShortcutContext::OutputWindow => "Output Window",
        ShortcutContext::Editor => "Editor",
        ShortcutContext::Timeline => "Timeline",
        ShortcutContext::LayerPanel => "Layer Panel",
    }
}

/// Whether the panel lists a shortcut: an empty search matches every one,
/// otherwise its description contains the search text, case ignored; and its
/// context is the filtered one, if any.
pub open spec fn shortcut_listed(
    s: Shortcut,
    search: Seq<char>,
    context: Option<ShortcutContext>,
) -> bool {
    &&& (search.len() == 0 || contains_seq(
        unicode_lowercase(s.description@),
        unicode_lowercase(search),
    ))
    &&& match context {
        Some(c) => s.context == c,
        None => true,
    }
}

/// `s` with the key and modifiers of the shortcut at `i` replaced.
pub open spec fn rebound(s: Seq<Shortcut>, i: int, key: u32, modifiers: Modifiers) -> Seq<
    Shortcut,
> {
    s.update(i, Shortcut { key, modifiers, ..s[i] })
}

/// Shortcut panel state
pub struct ShortcutPanel {
    /// Whether the panel is visible
    pub visible: bool,
    /// Current shortcuts (editable copy)
    pub shortcuts: Vec<Shortcut>,
    /// Search filter
    pub search_filter: String,
    /// Currently recording shortcut for this index
    pub recording_index: Option<usize>,
    /// Filter by context
    pub context_filter: Option<ShortcutContext>,
    /// Initialized flag
    pub initialized: bool,
}

impl ShortcutPanel {
    /// The editable shortcuts.
    pub open spec fn shortcut_list(&self) -> Seq<Shortcut> {
        self.shortcuts@
    }

    /// The search text.
    pub open spec fn search_text(&self) -> Seq<char> {
        self.search_filter@
    }

    /// The position of the shortcut whose keys are being recorded.
    pub open spec fn recording(&self) -> Option<usize> {
        self.recording_index
    }

    /// The context the list is filtered by.
    pub open spec fn context(&self) -> Option<ShortcutContext> {
        self.context_filter
    }

    /// Whether the default shortcuts were loaded.
    pub open spec fn is_initialized(&self) -> bool {
        self.initialized
    }

    /// Whether the panel is shown.
    pub open spec fn is_visible(&self) -> bool {
        self.visible
    }

    /// A hidden panel with no shortcuts yet, no search, no filter, nothing
    /// being recorded.
    pub fn new() -> (p: Self)
        ensures
            !p.is_visible(),
            p.shortcut_list().len() == 0,
            p.search_text().len() == 0,
            p.recording() is None,
            p.context() is None,
            !p.is_initialized(),
    {
        ShortcutPanel {
            visible: false,
            shortcuts: Vec::new(),
            search_filter: String::new(),
            recording_index: None,
            context_filter: None,
            initialized: false,
        }
    }

    /// The current shortcuts.
    pub fn shortcuts(&self) -> (s: &Vec<Shortcut>)
        ensures
            s@ == self.shortcut_list(),
    {
        &self.shortcuts
    }

    /// Loads the default shortcuts the first time; later calls change
    /// nothing.
    pub fn initialize(&mut self, defaults: Vec<Shortcut>)
        ensures
            final(self).is_initialized(),
            final(self).shortcut_list() == if old(self).is_initialized() {
                old(self).shortcut_list()
            } else {
                defaults@
            },
            final(self).search_text() == old(self).search_text(),
            final(self).recording() == old(self).recording(),
            final(self).context() == old(self).context(),
            final(self).is_visible() == old(self).is_visible(),
    {
        if !self.initialized {
            self.shortcuts = defaults;
            self.initialized = true;
        }
    }

    /// Sets the search text.
    pub fn set_search_filter(&mut self, search: String)
        ensures
            final(self).search_text() == search@,
            final(self).shortcut_list() == old(self).shortcut_list(),
            final(self).recording() == old(self).recording(),
            final(self).context() == old(self).context(),
            final(self).is_initialized() == old(self).is_initialized(),
            final(self).is_visible() == old(self).is_visible(),
    {
        self.search_filter = search;
    }

    /// Filters the list by this context, or shows all contexts.
    pub fn set_context_filter(&mut self, context: Option<ShortcutContext>)
        ensures
            final(self).context() == context,
            final(self).shortcut_list() == old(self).shortcut_list(),
            final(self).search_text() == old(self).search_text(),
            final(self).recording() == old(self).recording(),
            final(self).is_initialized() == old(self).is_initialized(),
            final(self).is_visible() == old(self).is_visible(),
    {
        self.context_filter = context;
    }

    /// Starts recording new keys for the shortcut at `index`.
    pub fn start_recording(&mut self, index: usize)
        ensures
            final(self).recording() == Some(index),
            final(self).shortcut_list() == old(self).shortcut_list(),
            final(self).search_text() == old(self).search_text(),
            final(self).context() == old(self).context(),
            final(self).is_initialized() == old(self).is_initialized(),
            final(self).is_visible() == old(self).is_visible(),
    {
        self.recording_index = Some(index);
    }

    /// Stops recording without changing any shortcut.
    pub fn cancel_recording(&mut self)
        ensures
            final(self).recording() is None,
            final(self).shortcut_list() == old(self).shortcut_list(),
            final(self).search_text() == old(self).search_text(),
            final(self).context() == old(self).context(),
            final(self).is_initialized() == old(self).is_initialized(),
            final(self).is_visible() == old(self).is_visible(),
    {
        self.recording_index = None;
    }

    /// A key was pressed while recording: the recorded shortcut (if it
    /// exists) takes the key and modifiers, and recording stops. Returns the
    /// action that reports the change; `None` when nothing was recorded or the
    /// position has no shortcut.
    pub fn record_key(&mut self, key: u32, modifiers: Modifiers) -> (r: Option<ShortcutAction>)
        ensures
            match old(self).recording() {
                Some(i) if i < old(self).shortcut_list().len() => {
                    &&& r == Some(ShortcutAction::SetShortcut(i, key, modifiers))
                    &&& final(self).shortcut_list() == rebound(
                        old(self).shortcut_list(),
                        i as int,
                        key,
                        modifiers,
                    )
                    &&& final(self).recording() is None
                },
                Some(_) => {
                    &&& r is None
                    &&& final(self).shortcut_list() == old(self).shortcut_list()
                    &&& final(self).recording() is None
                },
                None => {
                    &&& r is None
                    &&& final(self).shortcut_list() == old(self).shortcut_list()
                    &&& final(self).recording() is None
                },
            },
            final(self).search_text() == old(self).search_text(),
            final(self).context() == old(self).context(),
            final(self).is_initialized() == old(self).is_initialized(),
            final(self).is_visible() == old(self).is_visible(),
    {
        match self.recording_index {
            Some(i) => {
                let mut r = None;
                if i < self.shortcuts.len() {
                    let ghost before = self.shortcuts@;
                    let description = self.shortcuts[i].description.clone();
                    let context = self.shortcuts[i].context;
                    self.shortcuts.set(i, Shortcut { description, key, modifiers, context });
                    proof {
                        assert(self.shortcuts@ =~= rebound(before, i as int, key, modifiers));
                    }
                    r = Some(ShortcutAction::SetShortcut(i, key, modifiers));
                }
                self.recording_index = None;
                r
            },
            None => None,
        }
    }

    /// Resets the shortcut at `index` to its default keys, where both the
    /// shortcut and its default exist; the action reports it.
    pub fn reset_shortcut(&mut self, index: usize, defaults: &Vec<Shortcut>) -> (r: Option<
        ShortcutAction,
    >)
        ensures
            if index < old(self).shortcut_list().len() && index < defaults@.len() {
                &&& r == Some(ShortcutAction::ResetShortcut(index))
                &&& final(self).shortcut_list() == rebound(
                    old(self).shortcut_list(),
                    index as int,
                    defaults@[index as int].key,
                    defaults@[index as int].modifiers,
                )
            } else {
                &&& r is None
                &&& final(self).shortcut_list() == old(self).shortcut_list()
            },
            final(self).search_text() == old(self).search_text(),
            final(self).recording() == old(self).recording(),
            final(self).context() == old(self).context(),
            final(self).is_initialized() == old(self).is_initialized(),
            final(self).is_visible() == old(self).is_visible(),
    {
        if index < defaults.len() && index < self.shortcuts.len() {
            let key = defaults[index].key;
            let modifiers = defaults[index].modifiers;
            let ghost before = self.shortcuts@;
            let description = self.shortcuts[index].description.clone();
            let context = self.shortcuts[index].context;
            self.shortcuts.set(index, Shortcut { description, key, modifiers, context });
            proof {
                assert(self.shortcuts@ =~= rebound(before, index as int, key, modifiers));
            }
            Some(ShortcutAction::ResetShortcut(index))
        } else {
            None
        }
    }

    /// Replaces every shortcut by the defaults.
    pub fn reset_all(&mut self, defaults: Vec<Shortcut>) -> (r: ShortcutAction)
        ensures
            r == ShortcutAction::ResetAllShortcuts,
            final(self).shortcut_list() == defaults@,
            final(self).search_text() == old(self).search_text(),
            final(self).recording() == old(self).recording(),
            final(self).context() == old(self).context(),
            final(self).is_initialized() == old(self).is_initialized(),
            final(self).is_visible() == old(self).is_visible(),
    {
        self.shortcuts = defaults;
        ShortcutAction::ResetAllShortcuts
    }

    /// The positions of the shortcuts the panel lists, in order.
    pub fn listed_shortcuts(&self) -> (v: Vec<usize>)
        ensures
            v@ == Seq::new(self.shortcut_list().len(), |i: int| i as usize).filter(
                |i: usize|
                    shortcut_listed(self.shortcut_list()[i as int], self.search_text(), self.context()),
            ),
    {
        broadcast use vstd::seq_lib::group_filter_ensures;

        let ghost pred = |i: usize|
            shortcut_listed(self.shortcut_list()[i as int], self.search_text(), self.context());
        let ghost all = Seq::new(self.shortcuts@.len(), |i: int| i as usize);
        let empty_search = self.search_filter.unicode_len() == 0;
        let search_lower = to_lowercase(self.search_filter.as_str());
        let mut v: Vec<usize> = Vec::new();
        let mut i: usize = 0;
        assert(all.subrange(0, 0) =~= Seq::<usize>::empty());
        proof {
            reveal(Seq::filter);
        }
        while i < self.shortcuts.len()
            invariant
                i <= self.shortcuts.len(),
                all == Seq::new(self.shortcuts@.len(), |i: int| i as usize),
                pred == (|i: usize|
                    shortcut_listed(self.shortcut_list()[i as int], self.search_text(), self.context())),
                empty_search == (self.search_filter@.len() == 0),
                search_lower@ == unicode_lowercase(self.search_filter@),
                v@ == all.subrange(0, i as int).filter(pred),
            decreases self.shortcuts.len() - i,
        {
            let ghost pre = all.subrange(0, i as int);
            let s = &self.shortcuts[i];
            let mut listed = true;
            if !empty_search {
                let description = to_lowercase(s.description.as_str());
                listed = str_contains(description.as_str(), search_lower.as_str());
            }
            match self.context_filter {
                Some(c) => {
                    if s.context != c {
                        listed = false;
                    }
                },
                None => {},
            }
            proof {
                assert(all.subrange(0, i + 1) =~= pre.push(i));
                pre.lemma_filter_push(i, pred);
            }
            if listed {
                v.push(i);
            }
            i = i + 1;
        }
        assert(all.subrange(0, self.shortcuts.len() as int) =~= all);
        v
    }
}

impl Default for ShortcutPanel {
    fn default() -> (p: Self)
        ensures
            !p.is_visible(),
            p.shortcut_list().len() == 0,
            p.search_text().len() == 0,
            p.recording() is None,
            p.context() is None,
            !p.is_initialized(),
    {
        ShortcutPanel::new()
    }
}

} // verus!
