//! Panel states that hold no rendering resources: the assignment panel, the
//! menu bar, the module sidebar and the oscillator panel; and the time text
//! of the playback dashboard.

use vstd::prelude::*;
use crate::text::{decimal, decimal_pad2, decimal_string, push_char};

verus! {

/// State for the Assignment Panel.
#[derive(Debug)]
pub struct AssignmentPanel {
    /// Is the panel currently visible?
    pub visible: bool,
    /// ID of the assignment being edited, if any.
    editing_id: Option<u64>,
    /// Temporary storage for the name of the assignment being edited.
    edited_name: String,
}

impl View for AssignmentPanel {
    /// (visible, id being edited, name being edited).
    type V = (bool, Option<u64>, Seq<char>);

    closed spec fn view(&self) -> (bool, Option<u64>, Seq<char>) {
        (self.visible, self.editing_id, self.edited_name@)
    }
}

impl AssignmentPanel {
    /// A hidden panel that edits nothing.
    pub fn new() -> (p: Self)
        ensures
            p@ == (false, None::<u64>, Seq::<char>::empty()),
    {
        AssignmentPanel { visible: false, editing_id: None, edited_name: String::new() }
    }
}

impl Default for AssignmentPanel {
    /// The same as `new`.
    fn default() -> (p: Self)
        ensures
            p@ == (false, None::<u64>, Seq::<char>::empty()),
    {
        AssignmentPanel::new()
    }
}

/// State-holding struct for the main menu bar.
#[derive(Default, Debug)]
pub struct MenuBar {}

/// State of the module sidebar.
#[derive(Default, Debug)]
pub struct ModuleSidebar {}

/// Panel for controlling oscillator distortion effects.
#[derive(Default, Debug)]
pub struct OscillatorPanel {
    pub visible: bool,
}

/// "MM:SS" for a duration of `total_seconds`: whole minutes (at least two
/// digits) and the remaining seconds (two digits).
pub open spec fn duration_text(total_seconds: nat) -> Seq<char> {
    decimal_pad2(total_seconds / 60) + seq![':'] + decimal_pad2(total_seconds % 60)
}

fn pad2(n: u64) -> (s: String)
    ensures
        s@ == decimal_pad2(n as nat),
{
    let mut s = String::new();
    if n < 10 {
        push_char(&mut s, '0');
    }
    let d = decimal_string(n);
    s.append(d.as_str());
    assert(s@ =~= decimal_pad2(n as nat));
    s
}

/// Formats a duration given in whole seconds as "MM:SS".
pub fn format_duration(total_seconds: u64) -> (s: String)
    ensures
        s@ == duration_text(total_seconds as nat),
{
    let minutes = total_seconds / 60;
    let seconds = total_seconds % 60;
    let mut s = pad2(minutes);
    push_char(&mut s, ':');
    let tail = pad2(seconds);
    s.append(tail.as_str());
    s
}

/// Below one hundred minutes the text is five characters "MM:SS" with
/// the colon in the middle; the seconds part always has two digits.
pub proof fn lemma_duration_shape(total_seconds: nat)
    ensures
        decimal_pad2(total_seconds % 60).len() == 2,
        total_seconds < 6000 ==> duration_text(total_seconds).len() == 5 && duration_text(
            total_seconds,
        )[2] == ':',
{
    let m = total_seconds / 60;
    let sec = total_seconds % 60;
    if sec >= 10 {
        assert(decimal(sec / 10).len() == 1);
    }
    if total_seconds < 6000 && m >= 10 {
        assert(decimal(m / 10).len() == 1);
    }
}

} // verus!
