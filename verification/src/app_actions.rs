//! How the application answers the actions of its menus, panels and MCP
//! server: which of its flags change and what outside work (file dialogs,
//! saving and loading, the layer manager, the cue list) it must then do.

use vstd::prelude::*;

verus! {

/// The application flags the actions change.
#[derive(Debug)]
pub struct AppFlags {
    /// Unsaved changes exist.
    pub dirty: bool,
    /// The user asked to quit.
    pub exit_requested: bool,
    /// The settings window is shown.
    pub show_settings: bool,
    /// The interface language code.
    pub language: String,
}

/// An action from the menus, a panel or the MCP server. A path or name is
/// empty where the menu left it unset.
#[derive(Debug)]
pub enum AppAction {
    SaveProjectAs,
    SaveProject(String),
    LoadProject(String),
    LoadRecentProject(String),
    SetLanguage(String),
    Exit,
    OpenSettings,
    /// A menu action the application does not handle.
    OtherUi,
    McpSaveProject(String),
    McpLoadProject(String),
    McpAddLayer(String),
    McpRemoveLayer(u64),
    McpTriggerCue(u64),
    McpNextCue,
    McpPrevCue,
    /// An MCP action the application only logs.
    McpOther,
    AddPaint,
    RemovePaint(u64),
}

/// The outside work an action leaves to do.
#[derive(Debug)]
pub enum AppEffect {
    Nothing,
    /// Ask for a file to save to, then save there.
    ChooseSavePath,
    SaveTo(String),
    /// Ask for a file to load, then load it.
    ChooseLoadPath,
    LoadFrom(String),
    SwitchLocale(String),
    CreateLayer(String),
    RemoveLayer(u64),
    GotoCue(u32),
    NextCue,
    PrevCue,
    /// Add a new white colour paint.
    AddPaint,
    RemovePaint(u64),
}

/// Ghost form of an effect.
pub enum EffectView {
    Nothing,
    ChooseSavePath,
    SaveTo(Seq<char>),
    ChooseLoadPath,
    LoadFrom(Seq<char>),
    SwitchLocale(Seq<char>),
    CreateLayer(Seq<char>),
    RemoveLayer(u64),
    GotoCue(u32),
    NextCue,
    PrevCue,
    AddPaint,
    RemovePaint(u64),
}

/// The ghost form of an effect.
pub open spec fn effect_view(e: AppEffect) -> EffectView {
    match e {
        AppEffect::Nothing => EffectView::Nothing,
        AppEffect::ChooseSavePath => EffectView::ChooseSavePath,
        AppEffect::SaveTo(p) => EffectView::SaveTo(p@),
        AppEffect::ChooseLoadPath => EffectView::ChooseLoadPath,
        AppEffect::LoadFrom(p) => EffectView::LoadFrom(p@),
        AppEffect::SwitchLocale(l) => EffectView::SwitchLocale(l@),
        AppEffect::CreateLayer(n) => EffectView::CreateLayer(n@),
        AppEffect::RemoveLayer(id) => EffectView::RemoveLayer(id),
        AppEffect::GotoCue(c) => EffectView::GotoCue(c),
        AppEffect::NextCue => EffectView::NextCue,
        AppEffect::PrevCue => EffectView::PrevCue,
        AppEffect::AddPaint => EffectView::AddPaint,
        AppEffect::RemovePaint(id) => EffectView::RemovePaint(id),
    }
}

/// The work an action leaves: saving and loading go through a file dialog
/// when the menu gave no path (a recent project is loaded by its path as
/// given); a language switch switches the locale; the MCP layer and cue
/// actions go to the layer manager and the cue list (a cue number is cut to
/// 32 bits); paints are added and removed; the rest leaves nothing to do.
pub open spec fn action_effect(a: AppAction) -> EffectView {
    match a {
        AppAction::SaveProjectAs => EffectView::ChooseSavePath,
        AppAction::SaveProject(p) => if p@.len() == 0 {
            EffectView::ChooseSavePath
        } else {
            EffectView::SaveTo(p@)
        },
        AppAction::LoadProject(p) => if p@.len() == 0 {
            EffectView::ChooseLoadPath
        } else {
            EffectView::LoadFrom(p@)
        },
        AppAction::LoadRecentProject(p) => EffectView::LoadFrom(p@),
        AppAction::SetLanguage(l) => EffectView::SwitchLocale(l@),
        AppAction::McpSaveProject(p) => EffectView::SaveTo(p@),
        AppAction::McpLoadProject(p) => EffectView::LoadFrom(p@),
        AppAction::McpAddLayer(n) => EffectView::CreateLayer(n@),
        AppAction::McpRemoveLayer(id) => EffectView::RemoveLayer(id),
        AppAction::McpTriggerCue(id) => EffectView::GotoCue(id as u32),
        AppAction::McpNextCue => EffectView::NextCue,
        AppAction::McpPrevCue => EffectView::PrevCue,
        AppAction::AddPaint => EffectView::AddPaint,
        AppAction::RemovePaint(id) => EffectView::RemovePaint(id),
        _ => EffectView::Nothing,
    }
}

/// The actions that leave unsaved changes: a language switch, adding or
/// removing a layer over MCP, adding or removing a paint.
pub open spec fn marks_dirty(a: AppAction) -> bool {
    ||| a is SetLanguage
    ||| a is McpAddLayer
    ||| a is McpRemoveLayer
    ||| a is AddPaint
    ||| a is RemovePaint
}

/// Applies an action to the flags and returns the work it leaves to do.
pub fn apply_action(flags: &mut AppFlags, action: AppAction) -> (effect: AppEffect)
    ensures
        effect_view(effect) == action_effect(action),
        final(flags).dirty == (old(flags).dirty || marks_dirty(action)),
        final(flags).exit_requested == (old(flags).exit_requested || action is Exit),
        final(flags).show_settings == (old(flags).show_settings || action is OpenSettings),
        final(flags).language@ == match action {
            AppAction::SetLanguage(l) => l@,
            _ => old(flags).language@,
        },
{
    match action {
        AppAction::SaveProjectAs => AppEffect::ChooseSavePath,
        AppAction::SaveProject(p) => {
            if p.unicode_len() == 0 {
                AppEffect::ChooseSavePath
            } else {
                AppEffect::SaveTo(p)
            }
        },
        AppAction::LoadProject(p) => {
            if p.unicode_len() == 0 {
                AppEffect::ChooseLoadPath
            } else {
                AppEffect::LoadFrom(p)
            }
        },
        AppAction::LoadRecentProject(p) => AppEffect::LoadFrom(p),
        AppAction::SetLanguage(l) => {
            flags.language = String::from_str(l.as_str());
            flags.dirty = true;
            AppEffect::SwitchLocale(l)
        },
        AppAction::Exit => {
            flags.exit_requested = true;
            AppEffect::Nothing
        },
        AppAction::OpenSettings => {
            flags.show_settings = true;
            AppEffect::Nothing
        },
        AppAction::OtherUi => AppEffect::Nothing,
        AppAction::McpSaveProject(p) => AppEffect::SaveTo(p),
        AppAction::McpLoadProject(p) => AppEffect::LoadFrom(p),
        AppAction::McpAddLayer(n) => {
            flags.dirty = true;
            AppEffect::CreateLayer(n)
        },
        AppAction::McpRemoveLayer(id) => {
            flags.dirty = true;
            AppEffect::RemoveLayer(id)
        },
        AppAction::McpTriggerCue(id) => AppEffect::GotoCue(id as u32),
        AppAction::McpNextCue => AppEffect::NextCue,
        AppAction::McpPrevCue => AppEffect::PrevCue,
        AppAction::McpOther => AppEffect::Nothing,
        AppAction::AddPaint => {
            flags.dirty = true;
            AppEffect::AddPaint
        },
        AppAction::RemovePaint(id) => {
            flags.dirty = true;
            AppEffect::RemovePaint(id)
        },
    }
}

} // verus!
