//! Toast and thumbnail-card kinds and their fixed attributes.

use vstd::prelude::*;

verus! {

/// A success or an error toast.
#[derive(PartialEq, Eq, Structural, Clone, Copy, Debug)]
pub enum ToastKind {
    Success,
    Failure,
}

impl ToastKind {
    /// Seconds before the toast dismisses itself: 4 for success, 6 for
    /// errors.
    pub fn lifetime_secs(self) -> (s: u64)
        ensures
            s == (if self == ToastKind::Success {
                4u64
            } else {
                6u64
            }),
    {
        match self {
            ToastKind::Success => 4,
            ToastKind::Failure => 6,
        }
    }

    /// The icon chip: icon key, ink color and CSS class.
    pub fn icon(self) -> (r: (&'static str, &'static str, &'static str))
        ensures
            self == ToastKind::Success ==> r.0@ == "check"@ && r.1@ == "#6FD79E"@ && r.2@ == "ok"@,
            self == ToastKind::Failure ==> r.0@ == "alert"@ && r.1@ == "#FF5D5D"@ && r.2@ == "err"@,
    {
        match self {
            ToastKind::Success => ("check", "#6FD79E", "ok"),
            ToastKind::Failure => ("alert", "#FF5D5D", "err"),
        }
    }
}

/// What a thumbnail card shows.
#[derive(PartialEq, Eq, Structural, Clone, Copy, Debug)]
pub enum ThumbKind {
    Screenshot,
    Recording,
}

impl ThumbKind {
    /// The badge in the card's corner.
    pub fn badge_label(self) -> (r: &'static str)
        ensures
            self == ThumbKind::Screenshot ==> r@ == "SCREENSHOT"@,
            self == ThumbKind::Recording ==> r@ == "RECORDING"@,
    {
        match self {
            ThumbKind::Screenshot => "SCREENSHOT",
            ThumbKind::Recording => "RECORDING",
        }
    }

    /// Annotation is for screenshots only.
    pub fn can_annotate(self) -> (b: bool)
        ensures
            b == (self == ThumbKind::Screenshot),
    {
        match self {
            ThumbKind::Screenshot => true,
            ThumbKind::Recording => false,
        }
    }
}

/// The save state shown after a card's meta line.
#[derive(PartialEq, Eq, Structural, Clone, Copy, Debug)]
pub enum SaveState {
    /// Saved before the card appeared (autosave on).
    AutoSaved,
    /// Saved with the Save button (autosave off).
    Saved,
    /// Still a temporary file.
    Pinned,
}

/// The save state of a card: pinned until saved; a saved card reads
/// `saved` when autosave is off (the user pressed Save), `auto-saved`
/// otherwise.
pub fn save_state(saved: bool, autosave: bool) -> (s: SaveState)
    ensures
        !saved ==> s == SaveState::Pinned,
        saved && autosave ==> s == SaveState::AutoSaved,
        saved && !autosave ==> s == SaveState::Saved,
{
    if !saved {
        SaveState::Pinned
    } else if autosave {
        SaveState::AutoSaved
    } else {
        SaveState::Saved
    }
}

impl SaveState {
    /// The state's markup, colored green when saved.
    pub fn markup(self) -> (r: &'static str)
        ensures
            self == SaveState::AutoSaved ==> r@ == "<span foreground=\"#6FD79E\">auto-saved</span>"@,
            self == SaveState::Saved ==> r@ == "<span foreground=\"#6FD79E\">saved</span>"@,
            self == SaveState::Pinned ==> r@ == "<span foreground=\"#9A9CA6\">pinned</span>"@,
    {
        match self {
            SaveState::AutoSaved => "<span foreground=\"#6FD79E\">auto-saved</span>",
            SaveState::Saved => "<span foreground=\"#6FD79E\">saved</span>",
            SaveState::Pinned => "<span foreground=\"#9A9CA6\">pinned</span>",
        }
    }
}

/// Whether a card dismisses itself: saved cards do, after a non-zero
/// timeout; pinned cards wait for the user.
pub fn auto_dismisses(saved: bool, timeout_secs: u64) -> (b: bool)
    ensures
        b == (saved && timeout_secs > 0),
{
    saved && timeout_secs > 0
}

/// Whether closing a card deletes its file: only a still-pinned temp, and
/// only when the close asks for it (Close and replacement do, the
/// auto-dismiss timer does not). Saved files are never deleted implicitly.
pub fn deletes_on_close(delete_unsaved: bool, saved: bool) -> (b: bool)
    ensures
        b == (delete_unsaved && !saved),
        saved ==> !b,
{
    delete_unsaved && !saved
}

} // verus!

verus! {

/// The files closing a card removes, in order: its file when the close
/// deletes it (see `deletes_on_close`), then its display image when that
/// is a temporary one (a recording's poster frame).
pub open spec fn dismiss_files(
    delete_unsaved: bool,
    saved: bool,
    file_path: Seq<char>,
    display_is_temp: bool,
    display_path: Option<Seq<char>>,
) -> Seq<Seq<char>> {
    (if delete_unsaved && !saved {
        seq![file_path]
    } else {
        Seq::empty()
    }) + match display_path {
        Some(d) => if display_is_temp {
            seq![d]
        } else {
            Seq::empty()
        },
        None => Seq::empty(),
    }
}

/// The files to remove when a card closes.
pub fn dismiss_deletions(
    delete_unsaved: bool,
    saved: bool,
    file_path: &str,
    display_is_temp: bool,
    display_path: Option<&str>,
) -> (out: Vec<String>)
    ensures
        crate::capture::texts(out@) == dismiss_files(
            delete_unsaved,
            saved,
            file_path@,
            display_is_temp,
            match display_path {
                Some(d) => Some(d@),
                None => None,
            },
        ),
{
    let mut out: Vec<String> = Vec::new();
    if deletes_on_close(delete_unsaved, saved) {
        out.push(file_path.to_owned());
    }
    if display_is_temp {
        match display_path {
            Some(d) => out.push(d.to_owned()),
            None => {},
        }
    }
    proof {
        let dv = match display_path {
            Some(d) => Some(d@),
            None => None,
        };
        assert(crate::capture::texts(out@) =~= dismiss_files(
            delete_unsaved,
            saved,
            file_path@,
            display_is_temp,
            dv,
        ));
    }
    out
}

} // verus!
