//! User preferences: language, last project, recently opened files, UI scale
//! and theme, and the rule that keeps the recent-files list.

use vstd::prelude::*;
use crate::seqs::lemma_filter_keeps_all;
use crate::text::str_eq;

verus! {

/// Colour theme of the interface.
#[derive(Clone, Copy, Debug, PartialEq, Eq, Structural)]
pub enum Theme {
    Dark,
    Light,
}

/// Most files the recent-files list keeps.
pub const MAX_RECENT_FILES: usize = 10;

/// Bit pattern of `1.0f32`, the default UI scale.
pub const DEFAULT_UI_SCALE: u32 = 0x3F80_0000;

/// User configuration settings.
#[derive(Clone, Debug)]
pub struct UserConfig {
    /// Preferred language code (e.g., "en", "de")
    pub language: String,
    /// Last opened project path
    pub last_project: Option<String>,
    /// Recently opened files, most recent first
    pub recent_files: Vec<String>,
    /// Last used UI scale (bit pattern of the `f32` value)
    pub ui_scale: Option<u32>,
    /// Last used theme
    pub theme: Option<Theme>,
}

/// The texts of a list of strings.
pub open spec fn texts(v: Seq<String>) -> Seq<Seq<char>> {
    v.map_values(|s: String| s@)
}

/// Keeps the entries other than `path`.
pub open spec fn not_path(path: Seq<char>) -> spec_fn(Seq<char>) -> bool {
    |p: Seq<char>| p != path
}

/// The first `n` entries of `s` (all of them when there are fewer).
pub open spec fn at_most(s: Seq<Seq<char>>, n: nat) -> Seq<Seq<char>> {
    if s.len() <= n {
        s
    } else {
        s.subrange(0, n as int)
    }
}

/// The recent-files list after opening `path`: `path` first, then the
/// earlier entries other than `path` in their order, at most ten in all.
pub open spec fn recent_after(recent: Seq<Seq<char>>, path: Seq<char>) -> Seq<Seq<char>> {
    at_most(seq![path] + recent.filter(not_path(path)), MAX_RECENT_FILES as nat)
}

impl Default for UserConfig {
    /// English, no project, no recent files, scale 1.0, dark theme.
    fn default() -> (c: Self)
        ensures
            c.language@ == "en"@,
            c.last_project is None,
            c.recent_files@.len() == 0,
            c.ui_scale == Some(DEFAULT_UI_SCALE),
            c.theme == Some(Theme::Dark),
    {
        UserConfig {
            language: String::from_str("en"),
            last_project: None,
            recent_files: Vec::new(),
            ui_scale: Some(DEFAULT_UI_SCALE),
            theme: Some(Theme::Dark),
        }
    }
}

impl UserConfig {
    /// Sets the preferred language; saving the configuration is up to the caller.
    pub fn set_language(&mut self, lang: &str)
        ensures
            final(self).language@ == lang@,
            final(self).recent_files@ == old(self).recent_files@,
            final(self).last_project == old(self).last_project,
            final(self).ui_scale == old(self).ui_scale,
            final(self).theme == old(self).theme,
    {
        self.language = String::from_str(lang);
    }

    /// Puts `path` at the front of the recent files, dropping its earlier
    /// occurrences and keeping at most ten entries; saving the configuration
    /// is up to the caller.
    pub fn add_recent_file(&mut self, path: &str)
        ensures
            texts(final(self).recent_files@) == recent_after(texts(old(self).recent_files@), path@),
            final(self).language == old(self).language,
            final(self).last_project == old(self).last_project,
            final(self).ui_scale == old(self).ui_scale,
            final(self).theme == old(self).theme,
    {
        broadcast use vstd::seq_lib::group_filter_ensures;
        let ghost orig = texts(self.recent_files@);
        let ghost keep = not_path(path@);
        let n = self.recent_files.len();
        let mut i: usize = n;
        proof {
            reveal(Seq::filter);
            assert(orig.subrange(n as int, n as int).filter(keep) =~= Seq::<Seq<char>>::empty());
            assert(texts(self.recent_files@) =~= orig.subrange(0, n as int) + orig.subrange(
                n as int,
                n as int,
            ).filter(keep));
        }
        while i > 0
            invariant
                n == orig.len(),
                i <= n,
                i <= self.recent_files@.len(),
                keep == not_path(path@),
                self.language == old(self).language,
                self.last_project == old(self).last_project,
                self.ui_scale == old(self).ui_scale,
                self.theme == old(self).theme,
                texts(self.recent_files@) == orig.subrange(0, i as int) + orig.subrange(
                    i as int,
                    n as int,
                ).filter(keep),
            decreases i,
        {
            i = i - 1;
            let ghost tail = orig.subrange(i + 1, n as int);
            let ghost before = self.recent_files@;
            proof {
                assert(orig.subrange(i as int, n as int) =~= seq![orig[i as int]] + tail);
                tail.lemma_filter_prepend(orig[i as int], keep);
                assert(texts(before)[i as int] == orig[i as int]);
            }
            if str_eq(self.recent_files[i].as_str(), path) {
                self.recent_files.remove(i);
                assert(!keep(orig[i as int]));
                assert(texts(self.recent_files@) =~= texts(before).remove(i as int));
                assert(texts(self.recent_files@) =~= orig.subrange(0, i as int) + orig.subrange(
                    i as int,
                    n as int,
                ).filter(keep));
            } else {
                assert(texts(self.recent_files@) =~= orig.subrange(0, i as int) + orig.subrange(
                    i as int,
                    n as int,
                ).filter(keep));
            }
        }
        assert(orig.subrange(0, n as int) =~= orig);
        let ghost filtered = self.recent_files@;
        self.recent_files.insert(0, String::from_str(path));
        assert(texts(self.recent_files@) =~= seq![path@] + texts(filtered));
        self.recent_files.truncate(MAX_RECENT_FILES);
        assert(texts(self.recent_files@) =~= recent_after(orig, path@));
    }
}

/// Opening the same file twice in a row leaves the list as after the first time.
pub proof fn lemma_recent_idempotent(recent: Seq<Seq<char>>, path: Seq<char>)
    ensures
        recent_after(recent_after(recent, path), path) == recent_after(recent, path),
{
    broadcast use vstd::seq_lib::group_filter_ensures;
    let f = recent.filter(not_path(path));
    let once = recent_after(recent, path);
    assert forall|i: int| 0 <= i < f.len() implies (#[trigger] f[i]) != path by {
        recent.lemma_filter_pred(not_path(path), i);
    }
    let rest = once.subrange(1, once.len() as int);
    assert(once =~= seq![path] + rest);
    assert forall|i: int| 0 <= i < rest.len() implies not_path(path)(#[trigger] rest[i]) by {
        assert(rest[i] == f[i]);
    }
    lemma_filter_keeps_all(rest, not_path(path));
    (seq![path]).lemma_filter_prepend(path, not_path(path));
    rest.lemma_filter_prepend(path, not_path(path));
    assert(once.filter(not_path(path)) == rest);
    assert(recent_after(once, path) =~= once);
}

/// After opening a file it is the most recent one, it appears only once, and
/// the list holds at most ten entries.
pub proof fn lemma_recent_front(recent: Seq<Seq<char>>, path: Seq<char>)
    ensures
        recent_after(recent, path).len() >= 1,
        recent_after(recent, path)[0] == path,
        recent_after(recent, path).len() <= MAX_RECENT_FILES,
        forall|i: int|
            1 <= i < recent_after(recent, path).len() ==> #[trigger] recent_after(recent, path)[i]
                != path,
{
    broadcast use vstd::seq_lib::group_filter_ensures;
    let f = recent.filter(not_path(path));
    assert forall|i: int| 1 <= i < recent_after(recent, path).len() implies #[trigger] recent_after(
        recent,
        path,
    )[i] != path by {
        assert(recent_after(recent, path)[i] == f[i - 1]);
        recent.lemma_filter_pred(not_path(path), i - 1);
    }
}

} // verus!
