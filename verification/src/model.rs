//! The notebook as a mathematical state machine.
//!
//! The notebook holds the notes as the store last listed them, the note
//! being edited, the search and the state of the windows. Its operations
//! alternate with the note store: an operation runs until it needs the store,
//! then stops with a `Request`; the store's `Reply` resumes it. A stack of
//! frames remembers where each unfinished operation stands. This module
//! defines every step; `notebook` implements them and `laws` proves what
//! they add up to.
use crate::semantic::{endpoint_verdict, url_scheme, UpdateView};
use crate::shortcuts::Shortcuts;
use crate::storage::{NoteView, SettingsView};
use crate::text::{contains_seq, lowercase, trimmed};
use vstd::prelude::*;

verus! {

/// The page that the search window shows.
#[derive(Clone, Copy, PartialEq, Eq, Structural, Debug)]
pub enum Page {
    Notes,
    Settings,
}

/// What the notebook asks of the note store, or that the operation is over.
#[derive(Clone, Copy, PartialEq, Eq, Structural, Debug)]
pub enum Request {
    /// List all notes, most recently updated first.
    ListNotes,
    /// Store the current draft as the body of this note.
    UpdateNote { id: i64 },
    /// Create an empty note.
    CreateNote,
    /// Delete this note.
    DeleteNote { id: i64 },
    /// Store the current settings.
    SaveSettings,
    /// The operation is over; `ok` is false when it stopped on a failure.
    Done { ok: bool },
}

/// Something for the windowing side to do.
#[derive(Clone, Copy, PartialEq, Eq, Structural, Debug)]
pub enum Effect {
    /// (Re)start the delay after which the semantic search runs.
    StartSearchTimer,
    /// Cancel the delayed semantic search.
    StopSearchTimer,
    CloseEditorWindow,
    CloseSearchWindow,
    CloseMainWindow,
}

/// Where an unfinished operation stands.
#[derive(Clone, Copy, PartialEq, Eq, Structural, Debug)]
pub enum Frame {
    /// Waiting for the list of notes.
    Reload,
    /// Waiting for the store to save the draft of this note.
    SaveAwaitUpdate { id: i64 },
    /// A save: the draft is stored, the notes are being listed.
    SaveAfterReload,
    /// Waiting for the store to delete this note; `replacement` is the note
    /// to select afterwards if it is still there.
    DeleteAwait { id: i64, replacement: Option<i64> },
    /// A deletion: the note is deleted, the notes are being listed.
    DeleteAfterReload { replacement: Option<i64> },
    /// A selection of this note: the current note is being saved or deleted.
    SelectAfter { id: i64 },
    /// A creation: the current note is being finished.
    CreateAfterFinish,
    /// A creation: the current note is being saved.
    CreateAfterSave,
    /// Waiting for the store to create a note.
    CreateAwait,
    /// A creation: note `id` exists, the notes are being listed.
    CreateAfterReload { id: i64 },
    /// A creation: the new note is being selected.
    CreateAfterSelect,
    /// "New note": the note is being created.
    NewNoteAfterCreate,
    /// "Open search": the current note is being saved.
    OpenSearchAfterSave,
    /// Closing the editor: the current note is being finished.
    CloseEditorAfterFinish,
    /// Quitting: the current note is being finished.
    QuitAfterFinish,
    /// A keyboard selection of this note, which then gets the list focus.
    FocusAfterSelect { id: i64 },
    /// Opening a note: it is being selected.
    OpenEditorAfterSelect,
    /// Waiting for the store to save the settings.
    SettingsAwait,
}

/// A reply of the note store, as a mathematical value.
pub enum ReplyView {
    Listed(Result<Seq<NoteView>, Seq<char>>),
    Updated(Result<(), Seq<char>>),
    Created(Result<i64, Seq<char>>),
    Deleted(Result<(), Seq<char>>),
    SettingsSaved(Result<(), Seq<char>>),
}

/// The notebook's state.
pub struct Model {
    pub notes: Seq<NoteView>,
    pub settings: SettingsView,
    pub shortcuts: Shortcuts,
    pub page: Page,
    pub selected: Option<i64>,
    pub draft: Seq<char>,
    pub dirty: bool,
    pub search: Seq<char>,
    pub error: Option<Seq<char>>,
    pub show_editor: bool,
    pub focus_editor: bool,
    pub focus_editor_window: bool,
    pub focus_search: bool,
    pub focus_settings: bool,
    pub focus_list_id: Option<i64>,
    pub search_has_focus: bool,
    pub list_has_focus: bool,
    pub search_visible: bool,
    pub focus_search_window: bool,
    pub quitting: bool,
    pub generation: u64,
    pub search_scheduled: bool,
    pub semantic_matches: Set<i64>,
    pub semantic_pending: bool,
    pub semantic_error: Option<Seq<char>>,
    pub frames: Seq<Frame>,
    pub effects: Seq<Effect>,
}

/// A result of a step: the next state and the next request.
pub type Step = (Model, Request);

// ---------------------------------------------------------------------------
// Plain facts about the notes
// ---------------------------------------------------------------------------

/// The ids of `notes`, in order.
pub open spec fn ids(notes: Seq<NoteView>) -> Seq<i64> {
    notes.map_values(|n: NoteView| n.id)
}

/// The body of the first note with this id, if any.
pub open spec fn body_of(notes: Seq<NoteView>, id: i64) -> Option<Seq<char>> {
    match ids(notes).index_of_first(id) {
        Some(i) => Some(notes[i].body),
        None => None,
    }
}

/// Whether a note is in the list for the lowercase query `query` with these
/// semantic matches: every note when the query is empty, and otherwise the
/// notes whose lowercase body contains the query, and the semantic matches.
pub open spec fn shown(n: NoteView, query: Seq<char>, matches: Set<i64>) -> bool {
    query.len() == 0 || contains_seq(lowercase(n.body), query) || matches.contains(n.id)
}

/// The ids of the notes in the list, in the order of `notes`.
pub open spec fn shown_ids(notes: Seq<NoteView>, query: Seq<char>, matches: Set<i64>) -> Seq<i64>
    decreases notes.len(),
{
    if notes.len() == 0 {
        Seq::empty()
    } else {
        shown_ids(notes.drop_last(), query, matches) + if shown(notes.last(), query, matches) {
            seq![notes.last().id]
        } else {
            Seq::empty()
        }
    }
}

/// The lowercase form of the trimmed search text.
pub open spec fn query_of(m: Model) -> Seq<char> {
    lowercase(trimmed(m.search))
}

/// The ids of the notes that the list shows.
pub open spec fn visible(m: Model) -> Seq<i64> {
    shown_ids(m.notes, query_of(m), m.semantic_matches)
}

/// The notes whose lowercase body does not contain the lowercase query:
/// the ones left for the semantic search.
pub open spec fn non_literal(notes: Seq<NoteView>, query: Seq<char>) -> Seq<NoteView>
    decreases notes.len(),
{
    if notes.len() == 0 {
        Seq::empty()
    } else {
        non_literal(notes.drop_last(), query) + if contains_seq(lowercase(notes.last().body), query) {
            Seq::empty()
        } else {
            seq![notes.last()]
        }
    }
}

/// The note to select after deleting `id` from the list `vis`: the next one
/// in the list, else the previous one.
pub open spec fn replacement_for(vis: Seq<i64>, id: i64) -> Option<i64> {
    match vis.index_of_first(id) {
        Some(i) => if i + 1 < vis.len() {
            Some(vis[i + 1])
        } else if i >= 1 {
            Some(vis[i - 1])
        } else {
            None
        },
        None => None,
    }
}

/// The index that `move_selection` moves to: one step in `direction` from
/// the selected note, kept within the list, or the first entry when the
/// selected note is not in the list.
pub open spec fn moved_index(vis: Seq<i64>, selected: Option<i64>, direction: int) -> int {
    let current = match selected {
        Some(id) => vis.index_of_first(id),
        None => None,
    };
    match current {
        Some(i) => {
            let t = i + direction;
            if t < 0 {
                0
            } else if t > vis.len() - 1 {
                vis.len() - 1
            } else {
                t
            }
        },
        None => 0,
    }
}

/// The next generation: one more, wrapping around.
pub open spec fn next_generation(g: u64) -> u64 {
    if g == u64::MAX {
        0
    } else {
        (g + 1) as u64
    }
}

// ---------------------------------------------------------------------------
// Messages
// ---------------------------------------------------------------------------

pub open spec fn load_error(e: Seq<char>) -> Seq<char> {
    "Could not load notes: "@ + e
}

pub open spec fn save_error(e: Seq<char>) -> Seq<char> {
    "Could not save note: "@ + e + ". Try again."@
}

pub open spec fn delete_error(e: Seq<char>) -> Seq<char> {
    "Could not delete note: "@ + e
}

pub open spec fn create_error(e: Seq<char>) -> Seq<char> {
    "Could not create note: "@ + e
}

pub open spec fn settings_error(e: Seq<char>) -> Seq<char> {
    "Could not save settings: "@ + e
}

// ---------------------------------------------------------------------------
// Plain state changes
// ---------------------------------------------------------------------------

pub open spec fn push_frame(m: Model, f: Frame) -> Model {
    Model { frames: m.frames.push(f), ..m }
}

pub open spec fn with_frames(m: Model, frames: Seq<Frame>) -> Model {
    Model { frames, ..m }
}

pub open spec fn emit(m: Model, e: Effect) -> Model {
    Model { effects: m.effects.push(e), ..m }
}

/// Drops the semantic results: a new generation, no matches, no error, no
/// search running; a search is scheduled when semantic search is on and the
/// query is not blank.
pub open spec fn invalidate(m: Model) -> Model {
    let scheduled = m.settings.semantic_enabled && trimmed(m.search).len() > 0;
    Model {
        generation: next_generation(m.generation),
        semantic_matches: Set::empty(),
        semantic_error: None,
        semantic_pending: false,
        search_scheduled: scheduled,
        effects: m.effects.push(
            if scheduled {
                Effect::StartSearchTimer
            } else {
                Effect::StopSearchTimer
            },
        ),
        ..m
    }
}

/// Opens the editor on the selected note, if there is one.
pub open spec fn open_editor(m: Model) -> Model {
    if m.selected is Some {
        Model { show_editor: true, focus_editor: true, focus_editor_window: true, ..m }
    } else {
        m
    }
}

pub open spec fn show_search(m: Model) -> Model {
    Model { search_visible: true, focus_search_window: true, ..m }
}

pub open spec fn hide_search(m: Model) -> Model {
    emit(Model { search_visible: false, focus_search_window: false, ..m }, Effect::CloseSearchWindow)
}

pub open spec fn open_settings(m: Model) -> Model {
    Model { page: Page::Settings, focus_settings: true, ..m }
}

pub open spec fn back_to_notes(m: Model) -> Model {
    Model { page: Page::Notes, focus_list_id: m.selected, ..m }
}

/// Selects note `id` after the current note was saved or deleted (`ok`),
/// if it is in the list.
pub open spec fn select_after(m: Model, id: i64, ok: bool) -> Model {
    if !ok {
        m
    } else {
        match body_of(m.notes, id) {
            Some(body) => Model { selected: Some(id), draft: body, ..m },
            None => m,
        }
    }
}

/// The note to select after a deletion: the replacement if it is still
/// listed, else the first note.
pub open spec fn selection_after_delete(notes: Seq<NoteView>, replacement: Option<i64>) -> Option<i64> {
    match replacement {
        Some(r) if ids(notes).contains(r) => Some(r),
        _ => if notes.len() > 0 {
            Some(notes[0].id)
        } else {
            None
        },
    }
}

/// The body of the note `sel`, or nothing.
pub open spec fn draft_for(notes: Seq<NoteView>, sel: Option<i64>) -> Seq<char> {
    match sel {
        Some(s) => match body_of(notes, s) {
            Some(b) => b,
            None => Seq::empty(),
        },
        None => Seq::empty(),
    }
}

/// After a deletion and a successful reload: select the replacement if it
/// is still there, else the first note; load its body; close the editor
/// when nothing is left; focus the list (or the search when it is empty).
pub open spec fn after_delete_reload(m: Model, replacement: Option<i64>) -> Model {
    let sel = selection_after_delete(m.notes, replacement);
    invalidate(
        Model {
            selected: sel,
            draft: draft_for(m.notes, sel),
            show_editor: m.show_editor && sel is Some,
            focus_list_id: sel,
            focus_search: sel is None,
            ..m
        },
    )
}

/// The list focus goes to note `id`.
pub open spec fn focus_list(m: Model, id: i64) -> Model {
    Model { focus_list_id: Some(id), ..m }
}

pub open spec fn new_note_after(m: Model) -> Model {
    if m.show_editor {
        if m.search_visible {
            hide_search(m)
        } else {
            m
        }
    } else {
        show_search(m)
    }
}

pub open spec fn open_search_after(m: Model) -> Model {
    let m1 = invalidate(Model { page: Page::Notes, search: Seq::empty(), ..m });
    show_search(Model { focus_search: true, focus_list_id: None, list_has_focus: false, ..m1 })
}

pub open spec fn close_editor_after(m: Model) -> Model {
    emit(
        Model { show_editor: false, focus_editor: false, focus_editor_window: false, ..m },
        Effect::CloseEditorWindow,
    )
}

pub open spec fn quit_now(m: Model) -> Model {
    emit(Model { quitting: true, ..m }, Effect::CloseMainWindow)
}

// ---------------------------------------------------------------------------
// Operations up to their first request
// ---------------------------------------------------------------------------

/// Whether the draft is blank.
pub open spec fn draft_blank(m: Model) -> bool {
    trimmed(m.draft).len() == 0
}

pub open spec fn reload_begin(m: Model) -> Step {
    (push_frame(m, Frame::Reload), Request::ListNotes)
}

/// Saving: nothing to do unless the draft changed and a note is selected.
pub open spec fn save_begin(m: Model) -> Step {
    match m.selected {
        Some(id) => if m.dirty {
            (push_frame(m, Frame::SaveAwaitUpdate { id }), Request::UpdateNote { id })
        } else {
            (m, Request::Done { ok: true })
        },
        None => (m, Request::Done { ok: true }),
    }
}

/// Deleting the selected note, if any.
pub open spec fn delete_begin(m: Model) -> Step {
    match m.selected {
        Some(id) => (
            push_frame(
                m,
                Frame::DeleteAwait { id, replacement: replacement_for(visible(m), id) },
            ),
            Request::DeleteNote { id },
        ),
        None => (m, Request::Done { ok: true }),
    }
}

/// Finishing the current note: a selected note whose draft is blank is
/// deleted, any other is saved.
pub open spec fn finish_begin(m: Model) -> Step {
    if m.selected is Some && draft_blank(m) {
        delete_begin(m)
    } else {
        save_begin(m)
    }
}

/// Selecting note `id`: the open blank note is deleted (any other current
/// note is saved) first; if that fails the selection stays.
pub open spec fn select_begin(m: Model, id: i64) -> Step {
    if m.selected == Some(id) {
        (m, Request::Done { ok: true })
    } else {
        let c = select_child(m, id);
        match c.1 {
            Request::Done { ok } => (
                select_after(with_frames(c.0, m.frames), id, ok),
                Request::Done { ok: true },
            ),
            _ => c,
        }
    }
}

/// The nested operation that selecting note `id` starts.
#[verifier::opaque]
pub open spec fn select_child(m: Model, id: i64) -> Step {
    let m1 = push_frame(m, Frame::SelectAfter { id });
    if m.show_editor && draft_blank(m) {
        delete_begin(m1)
    } else {
        save_begin(m1)
    }
}

pub open spec fn create_after_save(m: Model, ok: bool) -> Step {
    if !ok {
        (m, Request::Done { ok: true })
    } else {
        (push_frame(m, Frame::CreateAwait), Request::CreateNote)
    }
}

/// The save that a creation starts with.
#[verifier::opaque]
pub open spec fn create_save_child(m: Model) -> Step {
    save_begin(push_frame(m, Frame::CreateAfterSave))
}

pub open spec fn create_save(m: Model) -> Step {
    let c = create_save_child(m);
    match c.1 {
        Request::Done { ok } => create_after_save(with_frames(c.0, m.frames), ok),
        _ => c,
    }
}

pub open spec fn create_after_finish(m: Model, ok: bool) -> Step {
    if !ok {
        (m, Request::Done { ok: true })
    } else {
        create_save(m)
    }
}

/// The finishing of the open note that a creation starts with.
#[verifier::opaque]
pub open spec fn create_finish_child(m: Model) -> Step {
    finish_begin(push_frame(m, Frame::CreateAfterFinish))
}

/// Creating a note: finish the open note, save the current one, then ask
/// the store for a new note.
pub open spec fn create_begin(m: Model) -> Step {
    if m.show_editor {
        let c = create_finish_child(m);
        match c.1 {
            Request::Done { ok } => create_after_finish(with_frames(c.0, m.frames), ok),
            _ => c,
        }
    } else {
        create_save(m)
    }
}

/// The selection of the new note.
#[verifier::opaque]
pub open spec fn create_select_child(m: Model, id: i64) -> Step {
    select_begin(push_frame(m, Frame::CreateAfterSelect), id)
}

/// The notes page with an empty search, as a creation leaves it.
pub open spec fn created_page(m: Model) -> Model {
    invalidate(Model { page: Page::Notes, search: Seq::empty(), ..m })
}

/// After a creation and a reload (`ok`): back to the notes page with an
/// empty search, then select the new note and open it.
pub open spec fn create_after_reload(m: Model, id: i64, ok: bool) -> Step {
    if !ok {
        (m, Request::Done { ok: true })
    } else {
        let m1 = created_page(m);
        let c = create_select_child(m1, id);
        match c.1 {
            Request::Done { .. } => (
                open_editor(with_frames(c.0, m1.frames)),
                Request::Done { ok: true },
            ),
            _ => c,
        }
    }
}

// ---------------------------------------------------------------------------
// Resuming
// ---------------------------------------------------------------------------

/// Resumes the operation of frame `f` (already popped from `m`) after the
/// nested operation returned `ok`.
#[verifier::opaque]
pub open spec fn resume_frame(m: Model, f: Frame, ok: bool) -> Step {
    match f {
        Frame::SaveAfterReload => if ok {
            (invalidate(m), Request::Done { ok: true })
        } else {
            (m, Request::Done { ok: false })
        },
        Frame::DeleteAfterReload { replacement } => (
            if ok {
                after_delete_reload(m, replacement)
            } else {
                m
            },
            Request::Done { ok: true },
        ),
        Frame::SelectAfter { id } => (select_after(m, id, ok), Request::Done { ok: true }),
        Frame::CreateAfterFinish => create_after_finish(m, ok),
        Frame::CreateAfterSave => create_after_save(m, ok),
        Frame::CreateAfterReload { id } => create_after_reload(m, id, ok),
        Frame::CreateAfterSelect => (open_editor(m), Request::Done { ok: true }),
        Frame::NewNoteAfterCreate => (new_note_after(m), Request::Done { ok: true }),
        Frame::OpenSearchAfterSave => (open_search_after(m), Request::Done { ok: true }),
        Frame::CloseEditorAfterFinish => (
            if ok {
                close_editor_after(m)
            } else {
                m
            },
            Request::Done { ok: true },
        ),
        Frame::QuitAfterFinish => (
            if ok {
                quit_now(m)
            } else {
                m
            },
            Request::Done { ok: true },
        ),
        Frame::FocusAfterSelect { id } => (focus_list(m, id), Request::Done { ok: true }),
        Frame::OpenEditorAfterSelect => (open_editor(m), Request::Done { ok: true }),
        _ => (m, Request::Done { ok }),
    }
}

/// Returns `ok` to the operations on the stack, innermost first, until one
/// of them needs the store or the stack is empty.
#[verifier::opaque]
pub open spec fn ret(m: Model, ok: bool) -> Step
    decreases m.frames.len(),
{
    if m.frames.len() == 0 {
        (m, Request::Done { ok })
    } else {
        let p = with_frames(m, m.frames.drop_last());
        let c = resume_frame(p, m.frames.last(), ok);
        match c.1 {
            Request::Done { ok: k } => ret(with_frames(c.0, p.frames), k),
            _ => c,
        }
    }
}

/// The request that the notebook waits on.
pub open spec fn pending(m: Model) -> Request {
    if m.frames.len() == 0 {
        Request::Done { ok: true }
    } else {
        match m.frames.last() {
            Frame::Reload => Request::ListNotes,
            Frame::SaveAwaitUpdate { id } => Request::UpdateNote { id },
            Frame::DeleteAwait { id, .. } => Request::DeleteNote { id },
            Frame::CreateAwait => Request::CreateNote,
            Frame::SettingsAwait => Request::SaveSettings,
            _ => Request::Done { ok: true },
        }
    }
}

/// The operation on top of the stack, taken off it.
pub open spec fn pop_top(m: Model) -> Model {
    with_frames(m, m.frames.drop_last())
}

/// The notes were listed (`p` no longer holds the waiting frame).
pub open spec fn listed(p: Model, r: Result<Seq<NoteView>, Seq<char>>) -> Step {
    match r {
        Ok(notes) => ret(Model { notes, error: None, ..p }, true),
        Err(e) => ret(Model { error: Some(load_error(e)), ..p }, false),
    }
}

/// The draft was stored, or not.
pub open spec fn updated(p: Model, r: Result<(), Seq<char>>) -> Step {
    match r {
        Ok(()) => reload_begin(push_frame(Model { dirty: false, ..p }, Frame::SaveAfterReload)),
        Err(e) => ret(Model { error: Some(save_error(e)), ..p }, false),
    }
}

/// The note was deleted, or not.
pub open spec fn deleted(p: Model, replacement: Option<i64>, r: Result<(), Seq<char>>) -> Step {
    match r {
        Ok(()) => reload_begin(
            push_frame(
                Model { selected: None, draft: Seq::empty(), dirty: false, ..p },
                Frame::DeleteAfterReload { replacement },
            ),
        ),
        Err(e) => ret(Model { error: Some(delete_error(e)), ..p }, false),
    }
}

/// A note was created, or not.
pub open spec fn created(p: Model, r: Result<i64, Seq<char>>) -> Step {
    match r {
        Ok(id) => reload_begin(push_frame(p, Frame::CreateAfterReload { id })),
        Err(e) => ret(Model { error: Some(create_error(e)), ..p }, true),
    }
}

/// The settings were stored, or not.
pub open spec fn settings_saved(p: Model, r: Result<(), Seq<char>>) -> Step {
    match r {
        Ok(()) => ret(Model { error: None, ..p }, true),
        Err(e) => ret(Model { error: Some(settings_error(e)), ..p }, false),
    }
}

/// The store's reply to the request on top of the stack resumes the
/// operation; a reply to anything else changes nothing and the pending
/// request stands.
pub open spec fn resume(m: Model, reply: ReplyView) -> Step {
    if m.frames.len() == 0 {
        (m, Request::Done { ok: true })
    } else {
        let top = m.frames.last();
        match reply {
            ReplyView::Listed(r) => if top == Frame::Reload {
                listed(pop_top(m), r)
            } else {
                (m, pending(m))
            },
            ReplyView::Updated(r) => if top is SaveAwaitUpdate {
                updated(pop_top(m), r)
            } else {
                (m, pending(m))
            },
            ReplyView::Deleted(r) => match top {
                Frame::DeleteAwait { replacement, .. } => deleted(pop_top(m), replacement, r),
                _ => (m, pending(m)),
            },
            ReplyView::Created(r) => if top == Frame::CreateAwait {
                created(pop_top(m), r)
            } else {
                (m, pending(m))
            },
            ReplyView::SettingsSaved(r) => if top == Frame::SettingsAwait {
                settings_saved(pop_top(m), r)
            } else {
                (m, pending(m))
            },
        }
    }
}

// ---------------------------------------------------------------------------
// Commands
// ---------------------------------------------------------------------------

/// Whether an operation is unfinished.
pub open spec fn busy(m: Model) -> bool {
    m.frames.len() > 0
}

/// Runs `c` on `m` unless an operation is unfinished; then nothing changes
/// and the pending request stands.
pub open spec fn when_idle(m: Model, c: Step) -> Step {
    if busy(m) {
        (m, pending(m))
    } else {
        c
    }
}

/// The creation that "New note" starts.
#[verifier::opaque]
pub open spec fn new_note_child(m: Model) -> Step {
    create_begin(push_frame(m, Frame::NewNoteAfterCreate))
}

/// "New note": create a note; then, if its editor opened, hide the search
/// window, else show the search window.
#[verifier::opaque]
pub open spec fn new_note_spec(m: Model) -> Step {
    let c = new_note_child(m);
    match c.1 {
        Request::Done { .. } => (
            new_note_after(with_frames(c.0, m.frames)),
            Request::Done { ok: true },
        ),
        _ => c,
    }
}

/// The save that "Search" starts.
#[verifier::opaque]
pub open spec fn open_search_child(m: Model) -> Step {
    save_begin(push_frame(m, Frame::OpenSearchAfterSave))
}

/// "Search": save the current note, then show the notes page with an empty,
/// focused search.
#[verifier::opaque]
pub open spec fn open_search_spec(m: Model) -> Step {
    let c = open_search_child(m);
    match c.1 {
        Request::Done { .. } => (
            open_search_after(with_frames(c.0, m.frames)),
            Request::Done { ok: true },
        ),
        _ => c,
    }
}

/// The finishing that closing the editor starts.
#[verifier::opaque]
pub open spec fn close_editor_child(m: Model) -> Step {
    finish_begin(push_frame(m, Frame::CloseEditorAfterFinish))
}

/// Closing the editor: finish the note; close the window only if that
/// worked.
#[verifier::opaque]
pub open spec fn close_editor_spec(m: Model) -> Step {
    let c = close_editor_child(m);
    match c.1 {
        Request::Done { ok } => (
            if ok {
                close_editor_after(with_frames(c.0, m.frames))
            } else {
                with_frames(c.0, m.frames)
            },
            Request::Done { ok: true },
        ),
        _ => c,
    }
}

/// The finishing that quitting starts.
#[verifier::opaque]
pub open spec fn quit_child(m: Model) -> Step {
    finish_begin(push_frame(m, Frame::QuitAfterFinish))
}

/// "Quit": finish the open note first; quit only if that worked.
#[verifier::opaque]
pub open spec fn quit_spec(m: Model) -> Step {
    if !m.show_editor {
        (quit_now(m), Request::Done { ok: true })
    } else {
        let c = quit_child(m);
        match c.1 {
            Request::Done { ok } => (
                if ok {
                    quit_now(with_frames(c.0, m.frames))
                } else {
                    with_frames(c.0, m.frames)
                },
                Request::Done { ok: true },
            ),
            _ => c,
        }
    }
}

/// The selection that a keyboard move starts.
#[verifier::opaque]
pub open spec fn focus_select_child(m: Model, id: i64) -> Step {
    select_begin(push_frame(m, Frame::FocusAfterSelect { id }), id)
}

/// Selecting note `id`, which then gets the list focus.
#[verifier::opaque]
pub open spec fn focus_select(m: Model, id: i64) -> Step {
    let c = focus_select_child(m, id);
    match c.1 {
        Request::Done { .. } => (
            focus_list(with_frames(c.0, m.frames), id),
            Request::Done { ok: true },
        ),
        _ => c,
    }
}

/// The selection that opening a note starts.
#[verifier::opaque]
pub open spec fn open_note_child(m: Model, id: i64) -> Step {
    select_begin(push_frame(m, Frame::OpenEditorAfterSelect), id)
}

/// Opening note `id` in the editor.
#[verifier::opaque]
pub open spec fn open_note_spec(m: Model, id: i64) -> Step {
    let c = open_note_child(m, id);
    match c.1 {
        Request::Done { .. } => (
            open_editor(with_frames(c.0, m.frames)),
            Request::Done { ok: true },
        ),
        _ => c,
    }
}

/// Moving the selection one step in `direction` within the list.
#[verifier::opaque]
pub open spec fn move_selection_spec(m: Model, direction: int) -> Step {
    let vis = visible(m);
    if vis.len() == 0 {
        (m, Request::Done { ok: true })
    } else {
        focus_select(m, vis[moved_index(vis, m.selected, direction)])
    }
}

/// The draft changed: it is marked dirty and saved.
pub open spec fn edit_draft_spec(m: Model, text: Seq<char>) -> Step {
    save_begin(Model { draft: text, dirty: true, ..m })
}

/// The settings changed: the semantic results are dropped and the settings
/// are stored.
pub open spec fn change_settings_spec(m: Model, settings: SettingsView) -> Step {
    (
        push_frame(invalidate(Model { settings, ..m }), Frame::SettingsAwait),
        Request::SaveSettings,
    )
}

/// The keys pressed in the search window in one frame.
#[derive(Clone, Copy, PartialEq, Eq, Structural, Debug)]
pub struct SearchKeys {
    pub command_n: bool,
    pub command_m: bool,
    pub command_comma: bool,
    pub escape: bool,
    pub arrow_down: bool,
    pub arrow_up: bool,
    pub enter: bool,
    pub delete: bool,
    pub command_w: bool,
    pub alt_n: bool,
    pub alt_m: bool,
}

/// The keys pressed in the note window in one frame.
#[derive(Clone, Copy, PartialEq, Eq, Structural, Debug)]
pub struct NoteKeys {
    /// The window was asked to close, or Ctrl+W was pressed.
    pub close: bool,
    pub command_n: bool,
    pub command_m: bool,
    pub command_comma: bool,
    pub alt_n: bool,
    pub alt_m: bool,
}

/// Whether a "new note" key that no global shortcut handles was pressed.
pub open spec fn wants_new_note(command_n: bool, alt_n: bool, s: Shortcuts) -> bool {
    (command_n && !s.new_registered) || (alt_n && !s.alt_new_registered)
}

/// Whether a "search" key that no global shortcut handles was pressed.
pub open spec fn wants_search(command_m: bool, alt_m: bool, s: Shortcuts) -> bool {
    (command_m && !s.search_registered) || (alt_m && !s.alt_search_registered)
}

/// The keyboard in the search window: Ctrl+W hides it; Ctrl/Alt+N and
/// Ctrl/Alt+M work when no global shortcut took them; Ctrl+, opens the
/// settings, where Esc goes back. In the list, Delete removes the selected
/// note, Down/Up move the selection, Enter opens it and Esc returns to the
/// search; from the search, Down/Up select the first/last note of the list.
pub open spec fn handle_keys_spec(m: Model, k: SearchKeys) -> Step {
    if k.command_w {
        (hide_search(m), Request::Done { ok: true })
    } else if wants_new_note(k.command_n, k.alt_n, m.shortcuts) {
        new_note_spec(m)
    } else if wants_search(k.command_m, k.alt_m, m.shortcuts) {
        open_search_spec(m)
    } else if k.command_comma {
        (open_settings(m), Request::Done { ok: true })
    } else if m.page == Page::Settings {
        (
            if k.escape {
                back_to_notes(m)
            } else {
                m
            },
            Request::Done { ok: true },
        )
    } else if m.list_has_focus {
        if k.delete {
            delete_begin(m)
        } else if k.arrow_down {
            move_selection_spec(m, 1)
        } else if k.arrow_up {
            move_selection_spec(m, -1)
        } else if k.enter {
            (open_editor(m), Request::Done { ok: true })
        } else if k.escape {
            (Model { focus_search: true, ..m }, Request::Done { ok: true })
        } else {
            (m, Request::Done { ok: true })
        }
    } else if m.search_has_focus && (k.arrow_down || k.arrow_up) {
        let vis = visible(m);
        if vis.len() == 0 {
            (m, Request::Done { ok: true })
        } else {
            focus_select(
                m,
                if k.arrow_down {
                    vis[0]
                } else {
                    vis.last()
                },
            )
        }
    } else {
        (m, Request::Done { ok: true })
    }
}

/// Whether the note window's keys take over the frame.
pub open spec fn note_keys_act(m: Model, k: NoteKeys) -> bool {
    k.close || wants_new_note(k.command_n, k.alt_n, m.shortcuts) || wants_search(
        k.command_m,
        k.alt_m,
        m.shortcuts,
    ) || k.command_comma
}

/// The keyboard in the note window: closing closes the editor; Ctrl/Alt+N
/// and Ctrl/Alt+M work when no global shortcut took them; Ctrl+, shows the
/// settings in the search window.
pub open spec fn note_keys_spec(m: Model, k: NoteKeys) -> Step {
    if k.close {
        close_editor_spec(m)
    } else if wants_new_note(k.command_n, k.alt_n, m.shortcuts) {
        new_note_spec(m)
    } else if wants_search(k.command_m, k.alt_m, m.shortcuts) {
        open_search_spec(m)
    } else if k.command_comma {
        (show_search(open_settings(m)), Request::Done { ok: true })
    } else {
        (m, Request::Done { ok: true })
    }
}

// ---------------------------------------------------------------------------
// Semantic search
// ---------------------------------------------------------------------------

/// An update of the current generation is applied; any other is stale and
/// ignored. A match adds its note; "finished" ends the wait; an error ends
/// it too, drops the matches and is shown.
pub open spec fn apply_update(m: Model, u: UpdateView) -> Model {
    match u {
        UpdateView::Match { generation, note_id } => if generation == m.generation {
            Model { semantic_matches: m.semantic_matches.insert(note_id), ..m }
        } else {
            m
        },
        UpdateView::Finished { generation } => if generation == m.generation {
            Model { semantic_pending: false, ..m }
        } else {
            m
        },
        UpdateView::Error { generation, message } => if generation == m.generation {
            Model {
                semantic_pending: false,
                semantic_matches: Set::empty(),
                semantic_error: Some(message),
                ..m
            }
        } else {
            m
        },
    }
}

/// The search text changed: the semantic results are dropped.
pub open spec fn set_search_spec(m: Model, text: Seq<char>) -> Model {
    invalidate(Model { search: text, ..m })
}

/// The endpoint that a semantic search uses: the setting, trimmed.
pub open spec fn search_endpoint(m: Model) -> Seq<char> {
    trimmed(m.settings.laya_endpoint)
}

/// The verdict on the endpoint, as `validate_endpoint` gives it.
pub open spec fn endpoint_check(m: Model) -> Result<(), Seq<char>> {
    endpoint_verdict(url_scheme(trimmed(search_endpoint(m))))
}

/// Starting the scheduled semantic search: the schedule is used up; a bad
/// endpoint is reported instead; otherwise the search is pending.
pub open spec fn start_search_state(m: Model) -> Model {
    let m1 = Model { search_scheduled: false, ..m };
    match endpoint_check(m) {
        Err(msg) => Model { semantic_error: Some(msg), ..m1 },
        Ok(()) => Model { semantic_pending: true, ..m1 },
    }
}

// ---------------------------------------------------------------------------
// Facts used by the implementation
// ---------------------------------------------------------------------------

pub proof fn lemma_ret_empty(m: Model, ok: bool)
    requires
        m.frames.len() == 0,
    ensures
        ret(m, ok) == (m, Request::Done { ok }),
{
    reveal(ret);
}

pub proof fn lemma_with_own_frames(m: Model)
    ensures
        with_frames(m, m.frames) == m,
{
}

pub proof fn lemma_ret_unfold(m: Model, ok: bool)
    requires
        m.frames.len() > 0,
    ensures
        ret(m, ok) == ({
            let p = with_frames(m, m.frames.drop_last());
            let c = resume_frame(p, m.frames.last(), ok);
            match c.1 {
                Request::Done { ok: k } => ret(with_frames(c.0, p.frames), k),
                _ => c,
            }
        }),
{
    reveal(ret);
}

pub proof fn lemma_ret_step(m: Model, ok: bool)
    requires
        m.frames.len() > 0,
    ensures
        ({
            let p = with_frames(m, m.frames.drop_last());
            let c = resume_frame(p, m.frames.last(), ok);
            ret(m, ok) == match c.1 {
                Request::Done { ok: k } => ret(c.0, k),
                _ => c,
            }
        }),
{
    lemma_ret_unfold(m, ok);
    let p = with_frames(m, m.frames.drop_last());
    let c = resume_frame(p, m.frames.last(), ok);
    lemma_resume_frame_done(p, m.frames.last(), ok);
    if c.1 is Done {
        lemma_with_own_frames(c.0);
    }
}

pub proof fn lemma_save_begin_done(m: Model)
    ensures
        save_begin(m).1 is Done ==> save_begin(m).0 == m,
{
}

pub proof fn lemma_delete_begin_done(m: Model)
    ensures
        delete_begin(m).1 is Done ==> delete_begin(m).0 == m,
{
}

pub proof fn lemma_finish_begin_done(m: Model)
    ensures
        finish_begin(m).1 is Done ==> finish_begin(m).0 == m,
{
}

pub proof fn lemma_select_child_done(m: Model, id: i64)
    ensures
        select_child(m, id).1 is Done ==> select_child(m, id).0 == push_frame(
            m,
            Frame::SelectAfter { id },
        ),
{
    reveal(select_child);
    lemma_save_begin_done(push_frame(m, Frame::SelectAfter { id }));
    lemma_delete_begin_done(push_frame(m, Frame::SelectAfter { id }));
}

pub proof fn lemma_select_begin_done(m: Model, id: i64)
    ensures
        select_begin(m, id).1 is Done ==> select_begin(m, id).0.frames == m.frames,
{
}

pub proof fn lemma_create_save_done(m: Model)
    ensures
        create_save(m).1 is Done ==> create_save(m).0.frames == m.frames,
{
}

pub proof fn lemma_create_begin_done(m: Model)
    ensures
        create_begin(m).1 is Done ==> create_begin(m).0.frames == m.frames,
{
    lemma_create_save_done(m);
}

pub proof fn lemma_create_after_reload_done(m: Model, id: i64, ok: bool)
    ensures
        create_after_reload(m, id, ok).1 is Done ==> create_after_reload(m, id, ok).0.frames
            == m.frames,
{
}

pub proof fn lemma_resume_frame_done(m: Model, f: Frame, ok: bool)
    ensures
        resume_frame(m, f, ok).1 is Done ==> resume_frame(m, f, ok).0.frames == m.frames,
{
    reveal(resume_frame);
    lemma_create_save_done(m);
    match f {
        Frame::CreateAfterReload { id } => lemma_create_after_reload_done(m, id, ok),
        _ => {},
    }
}

} // verus!
