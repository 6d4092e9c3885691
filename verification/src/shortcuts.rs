//! The application's global shortcuts and their user-facing descriptions.
use vstd::prelude::*;
use vstd::string::StringExecFns;

verus! {

/// Keys the default shortcuts use.
#[derive(Debug, Clone, Copy, PartialEq, Eq, Structural)]
pub enum ShortcutKey {
    Equal,
    Minus,
}

/// A key chord: modifier flags and a key.
#[derive(Debug, Clone, Copy, PartialEq, Eq, Structural)]
pub struct ShortcutDef {
    pub ctrl: bool,
    pub alt: bool,
    pub shift: bool,
    pub meta: bool,
    pub key: ShortcutKey,
}

/// The application's global shortcuts.
#[derive(Debug, Clone, Copy, PartialEq, Eq, Structural)]
pub enum AppShortcut {
    CaptureNote,
    OpenConfiguration,
}

/// A shortcut as presented to the user.
#[derive(Debug, Clone)]
pub struct AppShortcutDetails {
    pub title: String,
    pub description: Option<String>,
    pub shortcut: Vec<String>,
}

pub open spec fn spec_key_str(key: ShortcutKey) -> Seq<char> {
    if key is Equal {
        "="@
    } else {
        "-"@
    }
}

/// The textual parts of a chord, modifiers first in a fixed order, the key
/// last.
pub open spec fn spec_shortcut_parts(def: ShortcutDef) -> Seq<Seq<char>> {
    (if def.ctrl {
        seq!["Ctrl"@]
    } else {
        Seq::empty()
    }) + (if def.alt {
        seq!["Alt"@]
    } else {
        Seq::empty()
    }) + (if def.shift {
        seq!["Shift"@]
    } else {
        Seq::empty()
    }) + (if def.meta {
        seq!["Meta"@]
    } else {
        Seq::empty()
    }) + seq![spec_key_str(def.key)]
}

/// Renders a chord as its textual parts.
pub fn shortcut_to_string(shortcut: &ShortcutDef) -> (parts: Vec<String>)
    ensures
        parts.deep_view() == spec_shortcut_parts(*shortcut),
{
    let mut parts: Vec<String> = Vec::new();
    if shortcut.ctrl {
        parts.push(String::from_str("Ctrl"));
    }
    if shortcut.alt {
        parts.push(String::from_str("Alt"));
    }
    if shortcut.shift {
        parts.push(String::from_str("Shift"));
    }
    if shortcut.meta {
        parts.push(String::from_str("Meta"));
    }
    match shortcut.key {
        ShortcutKey::Equal => parts.push(String::from_str("=")),
        ShortcutKey::Minus => parts.push(String::from_str("-")),
    }
    proof {
        assert(parts.deep_view() =~~= spec_shortcut_parts(*shortcut));
    }
    parts
}

pub open spec fn spec_default_shortcut(s: AppShortcut) -> ShortcutDef {
    ShortcutDef {
        ctrl: true,
        alt: true,
        shift: false,
        meta: false,
        key: if s is CaptureNote {
            ShortcutKey::Equal
        } else {
            ShortcutKey::Minus
        },
    }
}

pub open spec fn spec_title(s: AppShortcut) -> Seq<char> {
    if s is CaptureNote {
        "Capture Note"@
    } else {
        "Open Configuration"@
    }
}

/// What a correct user-facing description of shortcut `s` holds.
pub open spec fn spec_details_ok(d: AppShortcutDetails, s: AppShortcut) -> bool {
    &&& d.title@ == spec_title(s)
    &&& match d.description {
        Some(text) => s is CaptureNote && text@ == "When recording in progress."@,
        None => s is OpenConfiguration,
    }
    &&& d.shortcut.deep_view() == spec_shortcut_parts(spec_default_shortcut(s))
}

impl AppShortcut {
    pub fn title(&self) -> (t: &str)
        ensures
            t@ == spec_title(*self),
    {
        match self {
            AppShortcut::CaptureNote => "Capture Note",
            AppShortcut::OpenConfiguration => "Open Configuration",
        }
    }

    pub fn description(&self) -> (d: Option<&str>)
        ensures
            match d {
                Some(text) => *self is CaptureNote && text@ == "When recording in progress."@,
                None => *self is OpenConfiguration,
            },
    {
        match self {
            AppShortcut::CaptureNote => Some("When recording in progress."),
            AppShortcut::OpenConfiguration => None,
        }
    }

    pub fn default_shortcut(&self) -> (r: ShortcutDef)
        ensures
            r == spec_default_shortcut(*self),
    {
        match self {
            AppShortcut::CaptureNote => ShortcutDef {
                ctrl: true,
                alt: true,
                shift: false,
                meta: false,
                key: ShortcutKey::Equal,
            },
            AppShortcut::OpenConfiguration => ShortcutDef {
                ctrl: true,
                alt: true,
                shift: false,
                meta: false,
                key: ShortcutKey::Minus,
            },
        }
    }

    pub fn to_details(self) -> (d: AppShortcutDetails)
        ensures
            spec_details_ok(d, self),
    {
        let title = String::from_str(self.title());
        let description = match self.description() {
            Some(text) => Some(String::from_str(text)),
            None => None,
        };
        let shortcut = shortcut_to_string(&self.default_shortcut());
        AppShortcutDetails { title, description, shortcut }
    }

    /// Every shortcut's description, in declaration order.
    pub fn all_shortcuts() -> (v: Vec<AppShortcutDetails>)
        ensures
            v@.len() == 2,
            spec_details_ok(v@[0], AppShortcut::CaptureNote),
            spec_details_ok(v@[1], AppShortcut::OpenConfiguration),
    {
        let mut v: Vec<AppShortcutDetails> = Vec::new();
        v.push(AppShortcut::CaptureNote.to_details());
        v.push(AppShortcut::OpenConfiguration.to_details());
        v
    }
}

} // verus!
