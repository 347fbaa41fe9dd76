//! Global keyboard shortcuts: which ones were registered, which action a
//! pressed shortcut asks for, and the messages for the ones that failed.
use vstd::prelude::*;

verus! {

/// Which global shortcuts the system accepted.
#[derive(Clone, Copy, PartialEq, Eq, Structural, Debug)]
pub struct Shortcuts {
    pub new_registered: bool,
    pub search_registered: bool,
    pub alt_new_registered: bool,
    pub alt_search_registered: bool,
}

impl Shortcuts {
    /// No global shortcut registered.
    pub fn none() -> (s: Shortcuts)
        ensures
            !s.new_registered && !s.search_registered && !s.alt_new_registered
                && !s.alt_search_registered,
    {
        Shortcuts {
            new_registered: false,
            search_registered: false,
            alt_new_registered: false,
            alt_search_registered: false,
        }
    }

    /// Whether any global shortcut needs a listener.
    pub fn any(&self) -> (r: bool)
        ensures
            r == (self.new_registered || self.search_registered || self.alt_new_registered
                || self.alt_search_registered),
    {
        self.new_registered || self.search_registered || self.alt_new_registered
            || self.alt_search_registered
    }
}

/// What a global shortcut asks for.
#[derive(Clone, Copy, PartialEq, Eq, Structural, Debug)]
pub enum HotkeyAction {
    NewNote,
    Search,
}

/// The ids of the four global shortcuts (Ctrl+N, Ctrl+M, Alt+N, Alt+M) and
/// which of them were registered.
#[derive(Clone, Copy, PartialEq, Eq, Structural, Debug)]
pub struct HotkeyIds {
    pub new_id: u32,
    pub search_id: u32,
    pub alt_new_id: u32,
    pub alt_search_id: u32,
}

/// The action of a shortcut event: only a press of a registered shortcut
/// counts; Ctrl+N and Alt+N create a note, Ctrl+M and Alt+M open search.
pub open spec fn hotkey_action_spec(ids: HotkeyIds, registered: Shortcuts, pressed: bool, id: u32) -> Option<HotkeyAction> {
    if !pressed {
        None
    } else if (registered.new_registered && id == ids.new_id) || (registered.alt_new_registered
        && id == ids.alt_new_id) {
        Some(HotkeyAction::NewNote)
    } else if (registered.search_registered && id == ids.search_id) || (
    registered.alt_search_registered && id == ids.alt_search_id) {
        Some(HotkeyAction::Search)
    } else {
        None
    }
}

/// The action that a global shortcut event with this id asks for, if any.
pub fn hotkey_action(ids: HotkeyIds, registered: Shortcuts, pressed: bool, id: u32) -> (action:
    Option<HotkeyAction>)
    ensures
        action == hotkey_action_spec(ids, registered, pressed, id),
{
    if !pressed {
        None
    } else if (registered.new_registered && id == ids.new_id) || (registered.alt_new_registered
        && id == ids.alt_new_id) {
        Some(HotkeyAction::NewNote)
    } else if (registered.search_registered && id == ids.search_id) || (
    registered.alt_search_registered && id == ids.alt_search_id) {
        Some(HotkeyAction::Search)
    } else {
        None
    }
}

/// The four global shortcuts.
#[derive(Clone, Copy, PartialEq, Eq, Structural, Debug)]
pub enum ShortcutKey {
    CtrlN,
    CtrlM,
    AltN,
    AltM,
}

/// How a shortcut is written in messages.
pub open spec fn shortcut_label(key: ShortcutKey) -> Seq<char> {
    match key {
        ShortcutKey::CtrlN => "Ctrl+N"@,
        ShortcutKey::CtrlM => "Ctrl+M"@,
        ShortcutKey::AltN => "Alt+N"@,
        ShortcutKey::AltM => "Alt+M"@,
    }
}

/// The message for a shortcut that could not be registered.
pub fn shortcut_unavailable(key: ShortcutKey, error: &str) -> (message: String)
    ensures
        message@ == shortcut_label(key) + " is unavailable: "@ + error@,
{
    let mut message = match key {
        ShortcutKey::CtrlN => String::from_str("Ctrl+N"),
        ShortcutKey::CtrlM => String::from_str("Ctrl+M"),
        ShortcutKey::AltN => String::from_str("Alt+N"),
        ShortcutKey::AltM => String::from_str("Alt+M"),
    };
    message.append(" is unavailable: ");
    message.append(error);
    message
}

/// The message for a shortcut manager that could not start.
pub fn shortcuts_unavailable(error: &str) -> (message: String)
    ensures
        message@ == "Global shortcuts could not start: "@ + error@,
{
    let mut message = String::from_str("Global shortcuts could not start: ");
    message.append(error);
    message
}

/// The texts of `parts` joined with single spaces.
pub open spec fn joined(parts: Seq<Seq<char>>) -> Seq<char>
    decreases parts.len(),
{
    if parts.len() == 0 {
        Seq::empty()
    } else if parts.len() == 1 {
        parts[0]
    } else {
        joined(parts.drop_last()) + " "@ + parts.last()
    }
}

/// The error that the settings page shows for the shortcuts: the failure
/// messages joined with spaces, or none when nothing failed.
pub fn shortcut_error(errors: &Vec<String>) -> (error: Option<String>)
    ensures
        match error {
            Some(e) => errors.len() > 0 && e@ == joined(errors@.map_values(|m: String| m@)),
            None => errors.len() == 0,
        },
{
    if errors.len() == 0 {
        return None;
    }
    let ghost parts = errors@.map_values(|m: String| m@);
    let mut text = errors[0].clone();
    let mut i: usize = 1;
    assert(parts.take(1).drop_last() =~= Seq::<Seq<char>>::empty());
    while i < errors.len()
        invariant
            1 <= i <= errors.len(),
            parts == errors@.map_values(|m: String| m@),
            text@ == joined(parts.take(i as int)),
        decreases errors.len() - i,
    {
        text.append(" ");
        text.append(errors[i].as_str());
        assert(parts.take(i + 1).drop_last() =~= parts.take(i as int));
        i = i + 1;
    }
    assert(parts.take(errors.len() as int) =~= parts);
    Some(text)
}

} // verus!
