//! The notebook: the state behind the search window and the note editor,
//! and the operations on it. Operations that need the note store stop with
//! a `Request`; the caller performs it and hands the `Reply` to `resume`,
//! until the request is `Done`.
use crate::model::{
    after_delete_reload, back_to_notes, draft_for, lemma_finish_begin_done,
    lemma_save_begin_done, lemma_select_child_done, lemma_select_begin_done,
    lemma_resume_frame_done, create_after_save, create_save_child, create_save, create_after_finish,
    create_finish_child, create_begin, created_page, create_select_child, create_after_reload,
    new_note_after, open_search_after, lemma_ret_empty, pending, resume, new_note_spec, new_note_child, open_search_spec,
    open_search_child, close_editor_spec, close_editor_child, quit_spec, quit_child, focus_select,
    focus_select_child, open_note_spec, open_note_child, move_selection_spec, busy, when_idle,
    edit_draft_spec, change_settings_spec, focus_list, SearchKeys, NoteKeys, handle_keys_spec,
    note_keys_spec, note_keys_act, set_search_spec, apply_update, non_literal, start_search_state,
    endpoint_check, search_endpoint, lemma_create_begin_done, listed, updated, deleted, created, settings_saved, lemma_ret_step, close_editor_after, quit_now, resume_frame, ret, selection_after_delete, body_of, delete_begin, draft_blank, emit, finish_begin,
    hide_search, ids, invalidate, next_generation, open_editor, open_settings, push_frame, query_of, reload_begin,
    save_begin, select_after, select_begin, select_child, show_search, shown_ids, visible, with_frames, Effect,
    Frame, Model, Page, ReplyView, Request,
};
use crate::semantic::{validate_endpoint, SearchUpdate, UpdateView};
use crate::shortcuts::Shortcuts;
use crate::storage::{Note, NoteView, Settings};
use crate::text::{chars_of, contains_chars, lowercase_text, trim_str, trimmed};
use std::collections::HashSet;
use vstd::prelude::*;

verus! {

/// A reply of the note store to a `Request`; errors are given as text.
pub enum Reply {
    Listed(Result<Vec<Note>, String>),
    Updated(Result<(), String>),
    Created(Result<i64, String>),
    Deleted(Result<(), String>),
    SettingsSaved(Result<(), String>),
}

/// The views of a list of notes.
pub open spec fn notes_view(notes: Seq<Note>) -> Seq<NoteView> {
    notes.map_values(|n: Note| n@)
}

/// An optional text as a mathematical value.
pub open spec fn text_view(t: Option<String>) -> Option<Seq<char>> {
    match t {
        Some(s) => Some(s@),
        None => None,
    }
}

pub open spec fn unit_view(r: Result<(), String>) -> Result<(), Seq<char>> {
    match r {
        Ok(()) => Ok(()),
        Err(e) => Err(e@),
    }
}

impl View for Reply {
    type V = ReplyView;

    open spec fn view(&self) -> ReplyView {
        match self {
            Reply::Listed(Ok(notes)) => ReplyView::Listed(Ok(notes_view(notes@))),
            Reply::Listed(Err(e)) => ReplyView::Listed(Err(e@)),
            Reply::Updated(r) => ReplyView::Updated(unit_view(*r)),
            Reply::Created(Ok(id)) => ReplyView::Created(Ok(*id)),
            Reply::Created(Err(e)) => ReplyView::Created(Err(e@)),
            Reply::Deleted(r) => ReplyView::Deleted(unit_view(*r)),
            Reply::SettingsSaved(r) => ReplyView::SettingsSaved(unit_view(*r)),
        }
    }
}

/// What a semantic search needs: the endpoint, the query, the notes that do
/// not contain the query literally, and the generation of the search.
pub struct SearchJob {
    pub endpoint: String,
    pub query: String,
    pub candidates: Vec<Note>,
    pub generation: u64,
}

/// The notebook's state; see `model::Model`.
pub struct Notebook {
    notes: Vec<Note>,
    settings: Settings,
    shortcuts: Shortcuts,
    page: Page,
    selected: Option<i64>,
    draft: String,
    dirty: bool,
    search: String,
    error: Option<String>,
    show_editor: bool,
    focus_editor: bool,
    focus_editor_window: bool,
    focus_search: bool,
    focus_settings: bool,
    focus_list_id: Option<i64>,
    search_has_focus: bool,
    list_has_focus: bool,
    search_visible: bool,
    focus_search_window: bool,
    quitting: bool,
    generation: u64,
    search_scheduled: bool,
    semantic_matches: HashSet<i64>,
    semantic_pending: bool,
    semantic_error: Option<String>,
    frames: Vec<Frame>,
    effects: Vec<Effect>,
}

impl View for Notebook {
    type V = Model;

    closed spec fn view(&self) -> Model {
        Model {
            notes: notes_view(self.notes@),
            settings: self.settings@,
            shortcuts: self.shortcuts,
            page: self.page,
            selected: self.selected,
            draft: self.draft@,
            dirty: self.dirty,
            search: self.search@,
            error: text_view(self.error),
            show_editor: self.show_editor,
            focus_editor: self.focus_editor,
            focus_editor_window: self.focus_editor_window,
            focus_search: self.focus_search,
            focus_settings: self.focus_settings,
            focus_list_id: self.focus_list_id,
            search_has_focus: self.search_has_focus,
            list_has_focus: self.list_has_focus,
            search_visible: self.search_visible,
            focus_search_window: self.focus_search_window,
            quitting: self.quitting,
            generation: self.generation,
            search_scheduled: self.search_scheduled,
            semantic_matches: self.semantic_matches@,
            semantic_pending: self.semantic_pending,
            semantic_error: text_view(self.semantic_error),
            frames: self.frames@,
            effects: self.effects@,
        }
    }
}

/// The state right after start-up: the first listed note is selected and
/// its body is the draft; the windows are hidden and nothing is pending.
pub open spec fn initial_model(notes: Seq<NoteView>, settings: crate::storage::SettingsView, shortcuts: Shortcuts) -> Model {
    Model {
        notes,
        settings,
        shortcuts,
        page: Page::Notes,
        selected: if notes.len() > 0 {
            Some(notes[0].id)
        } else {
            None
        },
        draft: if notes.len() > 0 {
            notes[0].body
        } else {
            Seq::empty()
        },
        dirty: false,
        search: Seq::empty(),
        error: None,
        show_editor: false,
        focus_editor: false,
        focus_editor_window: false,
        focus_search: false,
        focus_settings: false,
        focus_list_id: None,
        search_has_focus: false,
        list_has_focus: false,
        search_visible: false,
        focus_search_window: false,
        quitting: false,
        generation: 0,
        search_scheduled: false,
        semantic_matches: Set::empty(),
        semantic_pending: false,
        semantic_error: None,
        frames: Seq::empty(),
        effects: Seq::empty(),
    }
}

/// The line in place of the notes list when it shows no note.
pub open spec fn empty_list_text(m: Model) -> Option<Seq<char>> {
    if visible(m).len() > 0 {
        None
    } else if m.notes.len() == 0 {
        Some("No notes yet. Press Ctrl+N to start."@)
    } else {
        Some("No matching notes."@)
    }
}

/// The generation after `g`.
fn next_gen(g: u64) -> (n: u64)
    ensures
        n == next_generation(g),
{
    if g == u64::MAX {
        0
    } else {
        g + 1
    }
}

/// `prefix` followed by `e`.
fn message(prefix: &str, e: &str) -> (m: String)
    ensures
        m@ == prefix@ + e@,
{
    let mut m = String::from_str(prefix);
    m.append(e);
    m
}

/// The first index of `x` in `v`, if any.
fn position(v: &Vec<i64>, x: i64) -> (r: Option<usize>)
    ensures
        match r {
            Some(i) => v@.index_of_first(x) == Some(i as int) && i < v.len(),
            None => v@.index_of_first(x) is None,
        },
{
    proof {
        v@.index_of_first_ensures(x);
    }
    let mut i: usize = 0;
    while i < v.len()
        invariant
            i <= v.len(),
            forall|j: int| 0 <= j < i ==> v@[j] != x,
        decreases v.len() - i,
    {
        if v[i] == x {
            proof {
                v@.index_of_first_ensures(x);
                if v@.index_of_first(x) is Some {
                    let k = v@.index_of_first(x)->0;
                    assert(k == i);
                }
            }
            return Some(i);
        }
        i = i + 1;
    }
    proof {
        v@.index_of_first_ensures(x);
        if v@.index_of_first(x) is Some {
            let k = v@.index_of_first(x)->0;
            assert(v@[k] == x);
        }
    }
    None
}

impl Notebook {
    /// The notebook right after start-up with the listed notes, the stored
    /// settings and the global shortcuts that were registered.
    pub fn new(notes: Vec<Note>, settings: Settings, shortcuts: Shortcuts) -> (nb: Notebook)
        ensures
            nb@ == initial_model(notes_view(notes@), settings@, shortcuts),
    {
        let (selected, draft) = if notes.len() > 0 {
            (Some(notes[0].id), notes[0].body.clone())
        } else {
            (None, String::new())
        };
        Notebook {
            notes,
            settings,
            shortcuts,
            page: Page::Notes,
            selected,
            draft,
            dirty: false,
            search: String::new(),
            error: None,
            show_editor: false,
            focus_editor: false,
            focus_editor_window: false,
            focus_search: false,
            focus_settings: false,
            focus_list_id: None,
            search_has_focus: false,
            list_has_focus: false,
            search_visible: false,
            focus_search_window: false,
            quitting: false,
            generation: 0,
            search_scheduled: false,
            semantic_matches: HashSet::new(),
            semantic_pending: false,
            semantic_error: None,
            frames: Vec::new(),
            effects: Vec::new(),
        }
    }

    // -----------------------------------------------------------------------
    // Plain state changes
    // -----------------------------------------------------------------------

    fn push_frame(&mut self, f: Frame)
        ensures
            final(self)@ == push_frame(old(self)@, f),
    {
        self.frames.push(f);
    }

    fn emit(&mut self, e: Effect)
        ensures
            final(self)@ == emit(old(self)@, e),
    {
        self.effects.push(e);
    }

    fn draft_blank(&self) -> (r: bool)
        ensures
            r == draft_blank(self@),
    {
        trim_str(self.draft.as_str()).is_empty()
    }

    fn reset_semantic(&mut self)
        ensures
            final(self)@ == (Model {
                generation: next_generation(old(self)@.generation),
                semantic_matches: Set::empty(),
                semantic_error: None,
                semantic_pending: false,
                ..old(self)@
            }),
    {
        self.generation = next_gen(self.generation);
        self.semantic_matches.clear();
        self.semantic_error = None;
        self.semantic_pending = false;
    }

    fn invalidate(&mut self)
        ensures
            final(self)@ == invalidate(old(self)@),
    {
        let blank = trim_str(self.search.as_str()).is_empty();
        let scheduled = self.settings.semantic_enabled && !blank;
        let effect = if scheduled {
            Effect::StartSearchTimer
        } else {
            Effect::StopSearchTimer
        };
        self.reset_semantic();
        self.search_scheduled = scheduled;
        self.effects.push(effect);
    }

    fn focus_list_now(&mut self, id: i64)
        ensures
            final(self)@ == focus_list(old(self)@, id),
    {
        self.focus_list_id = Some(id);
    }

    fn open_editor_now(&mut self)
        ensures
            final(self)@ == open_editor(old(self)@),
    {
        if self.selected.is_some() {
            self.show_editor = true;
            self.focus_editor = true;
            self.focus_editor_window = true;
        }
    }

    fn show_search_now(&mut self)
        ensures
            final(self)@ == show_search(old(self)@),
    {
        self.search_visible = true;
        self.focus_search_window = true;
    }

    fn hide_search_now(&mut self)
        ensures
            final(self)@ == hide_search(old(self)@),
    {
        self.search_visible = false;
        self.focus_search_window = false;
        self.emit(Effect::CloseSearchWindow);
    }

    fn open_settings_now(&mut self)
        ensures
            final(self)@ == open_settings(old(self)@),
    {
        self.page = Page::Settings;
        self.focus_settings = true;
    }

    fn back_to_notes_now(&mut self)
        ensures
            final(self)@ == back_to_notes(old(self)@),
    {
        self.page = Page::Notes;
        self.focus_list_id = self.selected;
    }

    /// The index of the first note with this id, if any.
    fn note_index(&self, id: i64) -> (r: Option<usize>)
        ensures
            match r {
                Some(i) => i < self.notes.len() && ids(self@.notes).index_of_first(id) == Some(
                    i as int,
                ) && body_of(self@.notes, id) == Some(self.notes@[i as int].body@),
                None => ids(self@.notes).index_of_first(id) is None && body_of(self@.notes, id) is None,
            },
    {
        let ghost ns = self@.notes;
        let mut v: Vec<i64> = Vec::new();
        let mut i: usize = 0;
        while i < self.notes.len()
            invariant
                i <= self.notes.len(),
                ns == notes_view(self.notes@),
                v@ == ids(ns).take(i as int),
            decreases self.notes.len() - i,
        {
            v.push(self.notes[i].id);
            assert(ids(ns).take(i + 1) =~= ids(ns).take(i as int).push(ns[i as int].id));
            i = i + 1;
        }
        assert(ids(ns).take(self.notes.len() as int) =~= ids(ns));
        position(&v, id)
    }

    fn select_after(&mut self, id: i64, ok: bool)
        ensures
            final(self)@ == select_after(old(self)@, id, ok),
    {
        if ok {
            match self.note_index(id) {
                Some(i) => {
                    self.selected = Some(id);
                    self.draft = self.notes[i].body.clone();
                },
                None => {},
            }
        }
    }

    fn selection_after_delete(&self, replacement: Option<i64>) -> (sel: Option<i64>)
        ensures
            sel == selection_after_delete(self@.notes, replacement),
    {
        let kept = match replacement {
            Some(r) => {
                proof {
                    ids(self@.notes).index_of_first_ensures(r);
                }
                self.note_index(r).is_some()
            },
            None => false,
        };
        if kept {
            replacement
        } else if self.notes.len() > 0 {
            Some(self.notes[0].id)
        } else {
            None
        }
    }

    fn draft_for(&self, sel: Option<i64>) -> (d: String)
        ensures
            d@ == draft_for(self@.notes, sel),
    {
        match sel {
            Some(s) => match self.note_index(s) {
                Some(i) => self.notes[i].body.clone(),
                None => String::new(),
            },
            None => String::new(),
        }
    }

    fn after_delete_reload(&mut self, replacement: Option<i64>)
        ensures
            final(self)@ == after_delete_reload(old(self)@, replacement),
    {
        let sel = self.selection_after_delete(replacement);
        let draft = self.draft_for(sel);
        let none = sel.is_none();
        self.selected = sel;
        self.draft = draft;
        self.show_editor = self.show_editor && !none;
        self.focus_list_id = sel;
        self.focus_search = none;
        self.invalidate();
    }

    /// The line that the notes list shows when it shows no note: whether
    /// there are no notes at all or none matches the search.
    pub fn empty_list_message(&self) -> (r: Option<String>)
        ensures
            text_view(r) == empty_list_text(self@),
    {
        let shown = self.visible_ids();
        if shown.len() > 0 {
            None
        } else if self.notes.len() == 0 {
            Some(String::from_str("No notes yet. Press Ctrl+N to start."))
        } else {
            Some(String::from_str("No matching notes."))
        }
    }

    /// The ids of the notes that the list shows, in order: with a blank
    /// search all notes; otherwise the notes whose lowercase body contains
    /// the lowercase search text, and the semantic matches.
    pub fn visible_ids(&self) -> (v: Vec<i64>)
        ensures
            v@ == visible(self@),
    {
        broadcast use vstd::std_specs::hash::group_hash_axioms;

        let q = lowercase_text(trim_str(self.search.as_str()));
        let qc = chars_of(q.as_str());
        let ghost ns = self@.notes;
        let mut out: Vec<i64> = Vec::new();
        let mut i: usize = 0;
        assert(ns.take(0) =~= Seq::<NoteView>::empty());
        while i < self.notes.len()
            invariant
                i <= self.notes.len(),
                ns == notes_view(self.notes@),
                qc@ == query_of(self@),
                out@ == shown_ids(ns.take(i as int), query_of(self@), self@.semantic_matches),
            decreases self.notes.len() - i,
        {
            let n = &self.notes[i];
            let show = if qc.len() == 0 {
                true
            } else {
                let lower = lowercase_text(n.body.as_str());
                let lc = chars_of(lower.as_str());
                contains_chars(&lc, &qc) || self.semantic_matches.contains(&n.id)
            };
            assert(ns.take(i + 1).drop_last() =~= ns.take(i as int));
            assert(ns.take(i + 1).last() == ns[i as int]);
            if show {
                out.push(n.id);
            }
            i = i + 1;
        }
        assert(ns.take(self.notes.len() as int) =~= ns);
        out
    }

    // -----------------------------------------------------------------------
    // Operations up to their first request
    // -----------------------------------------------------------------------

    fn reload_begin(&mut self) -> (r: Request)
        ensures
            (final(self)@, r) == reload_begin(old(self)@),
    {
        self.push_frame(Frame::Reload);
        Request::ListNotes
    }

    fn save_begin(&mut self) -> (r: Request)
        ensures
            (final(self)@, r) == save_begin(old(self)@),
    {
        match self.selected {
            Some(id) => {
                if self.dirty {
                    self.push_frame(Frame::SaveAwaitUpdate { id });
                    Request::UpdateNote { id }
                } else {
                    Request::Done { ok: true }
                }
            },
            None => Request::Done { ok: true },
        }
    }

    fn delete_begin(&mut self) -> (r: Request)
        ensures
            (final(self)@, r) == delete_begin(old(self)@),
    {
        match self.selected {
            Some(id) => {
                let vis = self.visible_ids();
                let replacement = match position(&vis, id) {
                    Some(i) => {
                        if i + 1 < vis.len() {
                            Some(vis[i + 1])
                        } else if i >= 1 {
                            Some(vis[i - 1])
                        } else {
                            None
                        }
                    },
                    None => None,
                };
                self.push_frame(Frame::DeleteAwait { id, replacement });
                Request::DeleteNote { id }
            },
            None => Request::Done { ok: true },
        }
    }

    fn finish_begin(&mut self) -> (r: Request)
        ensures
            (final(self)@, r) == finish_begin(old(self)@),
    {
        if self.selected.is_some() && self.draft_blank() {
            self.delete_begin()
        } else {
            self.save_begin()
        }
    }

    fn select_child(&mut self, id: i64) -> (r: Request)
        ensures
            (final(self)@, r) == select_child(old(self)@, id),
    {
        proof {
            reveal(select_child);
        }
        let blank = self.show_editor && self.draft_blank();
        self.push_frame(Frame::SelectAfter { id });
        if blank {
            self.delete_begin()
        } else {
            self.save_begin()
        }
    }

    /// Pops the continuation frame that a nested operation left on top of
    /// `frames` because it returned at once.
    fn pop_frame(&mut self, Ghost(frames): Ghost<Seq<Frame>>, Ghost(f): Ghost<Frame>)
        requires
            old(self)@.frames == frames.push(f),
        ensures
            final(self)@ == with_frames(old(self)@, frames),
    {
        proof {
            assert(frames.push(f).drop_last() =~= frames);
        }
        self.frames.pop();
    }

    fn select_begin(&mut self, id: i64) -> (r: Request)
        ensures
            (final(self)@, r) == select_begin(old(self)@, id),
    {
        let already = match self.selected {
            Some(s) => s == id,
            None => false,
        };
        if already {
            return Request::Done { ok: true };
        }
        let ghost m = self@;
        let c = self.select_child(id);
        match c {
            Request::Done { ok } => {
                proof {
                    lemma_select_child_done(m, id);
                }
                self.pop_frame(Ghost(m.frames), Ghost(Frame::SelectAfter { id }));
                self.select_after(id, ok);
                Request::Done { ok: true }
            },
            _ => c,
        }
    }

    fn create_after_save(&mut self, ok: bool) -> (r: Request)
        ensures
            (final(self)@, r) == create_after_save(old(self)@, ok),
    {
        if !ok {
            Request::Done { ok: true }
        } else {
            self.push_frame(Frame::CreateAwait);
            Request::CreateNote
        }
    }

    fn create_save_child(&mut self) -> (r: Request)
        ensures
            (final(self)@, r) == create_save_child(old(self)@),
    {
        proof {
            reveal(create_save_child);
        }
        self.push_frame(Frame::CreateAfterSave);
        self.save_begin()
    }

    fn create_save(&mut self) -> (r: Request)
        ensures
            (final(self)@, r) == create_save(old(self)@),
    {
        let ghost m = self@;
        let c = self.create_save_child();
        match c {
            Request::Done { ok } => {
                proof {
                    reveal(create_save_child);
                    lemma_save_begin_done(push_frame(m, Frame::CreateAfterSave));
                }
                self.pop_frame(Ghost(m.frames), Ghost(Frame::CreateAfterSave));
                self.create_after_save(ok)
            },
            _ => c,
        }
    }

    fn create_after_finish(&mut self, ok: bool) -> (r: Request)
        ensures
            (final(self)@, r) == create_after_finish(old(self)@, ok),
    {
        if !ok {
            Request::Done { ok: true }
        } else {
            self.create_save()
        }
    }

    fn create_finish_child(&mut self) -> (r: Request)
        ensures
            (final(self)@, r) == create_finish_child(old(self)@),
    {
        proof {
            reveal(create_finish_child);
        }
        self.push_frame(Frame::CreateAfterFinish);
        self.finish_begin()
    }

    fn create_begin(&mut self) -> (r: Request)
        ensures
            (final(self)@, r) == create_begin(old(self)@),
    {
        if self.show_editor {
            let ghost m = self@;
            let c = self.create_finish_child();
            match c {
                Request::Done { ok } => {
                    proof {
                        reveal(create_finish_child);
                        lemma_finish_begin_done(push_frame(m, Frame::CreateAfterFinish));
                    }
                    self.pop_frame(Ghost(m.frames), Ghost(Frame::CreateAfterFinish));
                    self.create_after_finish(ok)
                },
                _ => c,
            }
        } else {
            self.create_save()
        }
    }

    fn created_page(&mut self)
        ensures
            final(self)@ == created_page(old(self)@),
    {
        self.page = Page::Notes;
        self.search = String::new();
        self.invalidate();
    }

    fn create_select_child(&mut self, id: i64) -> (r: Request)
        ensures
            (final(self)@, r) == create_select_child(old(self)@, id),
    {
        proof {
            reveal(create_select_child);
        }
        self.push_frame(Frame::CreateAfterSelect);
        self.select_begin(id)
    }

    fn create_after_reload(&mut self, id: i64, ok: bool) -> (r: Request)
        ensures
            (final(self)@, r) == create_after_reload(old(self)@, id, ok),
    {
        if !ok {
            return Request::Done { ok: true };
        }
        self.created_page();
        let ghost m1 = self@;
        let c = self.create_select_child(id);
        match c {
            Request::Done { .. } => {
                proof {
                    reveal(create_select_child);
                    lemma_select_begin_done(push_frame(m1, Frame::CreateAfterSelect), id);
                }
                self.pop_frame(Ghost(m1.frames), Ghost(Frame::CreateAfterSelect));
                self.open_editor_now();
                Request::Done { ok: true }
            },
            _ => c,
        }
    }

    fn new_note_after(&mut self)
        ensures
            final(self)@ == new_note_after(old(self)@),
    {
        if self.show_editor {
            if self.search_visible {
                self.hide_search_now();
            }
        } else {
            self.show_search_now();
        }
    }

    fn open_search_after(&mut self)
        ensures
            final(self)@ == open_search_after(old(self)@),
    {
        self.page = Page::Notes;
        self.search = String::new();
        self.invalidate();
        self.focus_search = true;
        self.focus_list_id = None;
        self.list_has_focus = false;
        self.show_search_now();
    }

    fn close_editor_after(&mut self)
        ensures
            final(self)@ == close_editor_after(old(self)@),
    {
        self.show_editor = false;
        self.focus_editor = false;
        self.focus_editor_window = false;
        self.emit(Effect::CloseEditorWindow);
    }

    fn quit_now(&mut self)
        ensures
            final(self)@ == quit_now(old(self)@),
    {
        self.quitting = true;
        self.emit(Effect::CloseMainWindow);
    }

    #[verifier::rlimit(80)]
    /// Resumes the operation of frame `f` after its nested operation
    /// returned `ok`.
    fn resume_frame(&mut self, f: Frame, ok: bool) -> (r: Request)
        ensures
            (final(self)@, r) == resume_frame(old(self)@, f, ok),
    {
        proof {
            reveal(resume_frame);
        }
        match f {
            Frame::SaveAfterReload => {
                if ok {
                    self.invalidate();
                    Request::Done { ok: true }
                } else {
                    Request::Done { ok: false }
                }
            },
            Frame::DeleteAfterReload { replacement } => {
                if ok {
                    self.after_delete_reload(replacement);
                }
                Request::Done { ok: true }
            },
            Frame::SelectAfter { id } => {
                self.select_after(id, ok);
                Request::Done { ok: true }
            },
            Frame::CreateAfterFinish => self.create_after_finish(ok),
            Frame::CreateAfterSave => self.create_after_save(ok),
            Frame::CreateAfterReload { id } => self.create_after_reload(id, ok),
            Frame::CreateAfterSelect => {
                self.open_editor_now();
                Request::Done { ok: true }
            },
            Frame::NewNoteAfterCreate => {
                self.new_note_after();
                Request::Done { ok: true }
            },
            Frame::OpenSearchAfterSave => {
                self.open_search_after();
                Request::Done { ok: true }
            },
            Frame::CloseEditorAfterFinish => {
                if ok {
                    self.close_editor_after();
                }
                Request::Done { ok: true }
            },
            Frame::QuitAfterFinish => {
                if ok {
                    self.quit_now();
                }
                Request::Done { ok: true }
            },
            Frame::FocusAfterSelect { id } => {
                self.focus_list_now(id);
                Request::Done { ok: true }
            },
            Frame::OpenEditorAfterSelect => {
                self.open_editor_now();
                Request::Done { ok: true }
            },
            _ => Request::Done { ok },
        }
    }

    /// Takes the innermost unfinished operation off the stack.
    fn take_frame(&mut self) -> (f: Frame)
        requires
            old(self)@.frames.len() > 0,
        ensures
            f == old(self)@.frames.last(),
            final(self)@ == with_frames(old(self)@, old(self)@.frames.drop_last()),
    {
        self.frames.pop().unwrap()
    }

    /// Returns `ok` to the unfinished operations, innermost first.
    fn ret(&mut self, ok0: bool) -> (r: Request)
        ensures
            (final(self)@, r) == ret(old(self)@, ok0),
    {
        let ghost target = ret(self@, ok0);
        let mut ok = ok0;
        loop
            invariant
                ret(self@, ok) == target,
                target == ret(old(self)@, ok0),
            decreases self@.frames.len(),
        {
            if self.frames.len() == 0 {
                proof {
                    lemma_ret_empty(self@, ok);
                }
                return Request::Done { ok };
            }
            let ghost m = self@;
            proof {
                lemma_ret_step(m, ok);
            }
            let f = self.take_frame();
            let ghost p = self@;
            let c = self.resume_frame(f, ok);
            match c {
                Request::Done { ok: k } => {
                    proof {
                        lemma_resume_frame_done(p, f, ok);
                    }
                    ok = k;
                },
                _ => {
                    return c;
                },
            }
        }
    }

    /// The request that the notebook waits on (`Done` when it waits on
    /// nothing).
    pub fn pending(&self) -> (r: Request)
        ensures
            r == pending(self@),
    {
        if self.frames.len() == 0 {
            return Request::Done { ok: true };
        }
        match self.frames[self.frames.len() - 1] {
            Frame::Reload => Request::ListNotes,
            Frame::SaveAwaitUpdate { id } => Request::UpdateNote { id },
            Frame::DeleteAwait { id, .. } => Request::DeleteNote { id },
            Frame::CreateAwait => Request::CreateNote,
            Frame::SettingsAwait => Request::SaveSettings,
            _ => Request::Done { ok: true },
        }
    }

    fn top_frame(&self) -> (f: Option<Frame>)
        ensures
            match f {
                Some(t) => self@.frames.len() > 0 && t == self@.frames.last(),
                None => self@.frames.len() == 0,
            },
    {
        if self.frames.len() == 0 {
            None
        } else {
            Some(self.frames[self.frames.len() - 1])
        }
    }

    fn on_listed(&mut self, r: Result<Vec<Note>, String>) -> (req: Request)
        ensures
            (final(self)@, req) == listed(
                old(self)@,
                match r {
                    Ok(notes) => Ok(notes_view(notes@)),
                    Err(e) => Err(e@),
                },
            ),
    {
        match r {
            Ok(notes) => {
                self.notes = notes;
                self.error = None;
                self.ret(true)
            },
            Err(e) => {
                self.error = Some(message("Could not load notes: ", e.as_str()));
                self.ret(false)
            },
        }
    }

    fn on_updated(&mut self, r: Result<(), String>) -> (req: Request)
        ensures
            (final(self)@, req) == updated(old(self)@, unit_view(r)),
    {
        match r {
            Ok(()) => {
                self.dirty = false;
                self.push_frame(Frame::SaveAfterReload);
                self.reload_begin()
            },
            Err(e) => {
                let mut m = message("Could not save note: ", e.as_str());
                m.append(". Try again.");
                self.error = Some(m);
                self.ret(false)
            },
        }
    }

    fn on_deleted(&mut self, replacement: Option<i64>, r: Result<(), String>) -> (req: Request)
        ensures
            (final(self)@, req) == deleted(old(self)@, replacement, unit_view(r)),
    {
        match r {
            Ok(()) => {
                self.selected = None;
                self.draft = String::new();
                self.dirty = false;
                self.push_frame(Frame::DeleteAfterReload { replacement });
                self.reload_begin()
            },
            Err(e) => {
                self.error = Some(message("Could not delete note: ", e.as_str()));
                self.ret(false)
            },
        }
    }

    fn on_created(&mut self, r: Result<i64, String>) -> (req: Request)
        ensures
            (final(self)@, req) == created(
                old(self)@,
                match r {
                    Ok(id) => Ok(id),
                    Err(e) => Err(e@),
                },
            ),
    {
        match r {
            Ok(id) => {
                self.push_frame(Frame::CreateAfterReload { id });
                self.reload_begin()
            },
            Err(e) => {
                self.error = Some(message("Could not create note: ", e.as_str()));
                self.ret(true)
            },
        }
    }

    fn on_settings_saved(&mut self, r: Result<(), String>) -> (req: Request)
        ensures
            (final(self)@, req) == settings_saved(old(self)@, unit_view(r)),
    {
        match r {
            Ok(()) => {
                self.error = None;
                self.ret(true)
            },
            Err(e) => {
                self.error = Some(message("Could not save settings: ", e.as_str()));
                self.ret(false)
            },
        }
    }

    /// Hands the note store's reply to the notebook: the unfinished
    /// operation continues up to its next request. A reply that does not
    /// answer the pending request changes nothing, and that request stands.
    pub fn resume(&mut self, reply: Reply) -> (r: Request)
        ensures
            (final(self)@, r) == resume(old(self)@, reply@),
    {
        let top = self.top_frame();
        match top {
            None => Request::Done { ok: true },
            Some(f) => match reply {
                Reply::Listed(r) => match f {
                    Frame::Reload => {
                        self.take_frame();
                        self.on_listed(r)
                    },
                    _ => self.pending(),
                },
                Reply::Updated(r) => match f {
                    Frame::SaveAwaitUpdate { .. } => {
                        self.take_frame();
                        self.on_updated(r)
                    },
                    _ => self.pending(),
                },
                Reply::Deleted(r) => match f {
                    Frame::DeleteAwait { replacement, .. } => {
                        self.take_frame();
                        self.on_deleted(replacement, r)
                    },
                    _ => self.pending(),
                },
                Reply::Created(r) => match f {
                    Frame::CreateAwait => {
                        self.take_frame();
                        self.on_created(r)
                    },
                    _ => self.pending(),
                },
                Reply::SettingsSaved(r) => match f {
                    Frame::SettingsAwait => {
                        self.take_frame();
                        self.on_settings_saved(r)
                    },
                    _ => self.pending(),
                },
            },
        }
    }

    // -----------------------------------------------------------------------
    // Commands
    // -----------------------------------------------------------------------

    fn new_note_op(&mut self) -> (r: Request)
        ensures
            (final(self)@, r) == new_note_spec(old(self)@),
    {
        proof {
            reveal(new_note_spec);
        }
        let ghost m = self@;
        proof {
            reveal(new_note_child);
        }
        self.push_frame(Frame::NewNoteAfterCreate);
        let c = self.create_begin();
        match c {
            Request::Done { .. } => {
                proof {
                    lemma_create_begin_done(push_frame(m, Frame::NewNoteAfterCreate));
                }
                self.pop_frame(Ghost(m.frames), Ghost(Frame::NewNoteAfterCreate));
                self.new_note_after();
                Request::Done { ok: true }
            },
            _ => c,
        }
    }

    fn open_search_op(&mut self) -> (r: Request)
        ensures
            (final(self)@, r) == open_search_spec(old(self)@),
    {
        proof {
            reveal(open_search_spec);
        }
        let ghost m = self@;
        proof {
            reveal(open_search_child);
        }
        self.push_frame(Frame::OpenSearchAfterSave);
        let c = self.save_begin();
        match c {
            Request::Done { .. } => {
                proof {
                    lemma_save_begin_done(push_frame(m, Frame::OpenSearchAfterSave));
                }
                self.pop_frame(Ghost(m.frames), Ghost(Frame::OpenSearchAfterSave));
                self.open_search_after();
                Request::Done { ok: true }
            },
            _ => c,
        }
    }

    fn close_editor_op(&mut self) -> (r: Request)
        ensures
            (final(self)@, r) == close_editor_spec(old(self)@),
    {
        proof {
            reveal(close_editor_spec);
        }
        let ghost m = self@;
        proof {
            reveal(close_editor_child);
        }
        self.push_frame(Frame::CloseEditorAfterFinish);
        let c = self.finish_begin();
        match c {
            Request::Done { ok } => {
                proof {
                    lemma_finish_begin_done(push_frame(m, Frame::CloseEditorAfterFinish));
                }
                self.pop_frame(Ghost(m.frames), Ghost(Frame::CloseEditorAfterFinish));
                if ok {
                    self.close_editor_after();
                }
                Request::Done { ok: true }
            },
            _ => c,
        }
    }

    fn quit_op(&mut self) -> (r: Request)
        ensures
            (final(self)@, r) == quit_spec(old(self)@),
    {
        proof {
            reveal(quit_spec);
        }
        if !self.show_editor {
            self.quit_now();
            return Request::Done { ok: true };
        }
        let ghost m = self@;
        proof {
            reveal(quit_child);
        }
        self.push_frame(Frame::QuitAfterFinish);
        let c = self.finish_begin();
        match c {
            Request::Done { ok } => {
                proof {
                    lemma_finish_begin_done(push_frame(m, Frame::QuitAfterFinish));
                }
                self.pop_frame(Ghost(m.frames), Ghost(Frame::QuitAfterFinish));
                if ok {
                    self.quit_now();
                }
                Request::Done { ok: true }
            },
            _ => c,
        }
    }

    fn focus_select_op(&mut self, id: i64) -> (r: Request)
        ensures
            (final(self)@, r) == focus_select(old(self)@, id),
    {
        proof {
            reveal(focus_select);
        }
        let ghost m = self@;
        proof {
            reveal(focus_select_child);
        }
        self.push_frame(Frame::FocusAfterSelect { id });
        let c = self.select_begin(id);
        match c {
            Request::Done { .. } => {
                proof {
                    lemma_select_begin_done(push_frame(m, Frame::FocusAfterSelect { id }), id);
                }
                self.pop_frame(Ghost(m.frames), Ghost(Frame::FocusAfterSelect { id }));
                self.focus_list_now(id);
                Request::Done { ok: true }
            },
            _ => c,
        }
    }

    fn open_note_op(&mut self, id: i64) -> (r: Request)
        ensures
            (final(self)@, r) == open_note_spec(old(self)@, id),
    {
        proof {
            reveal(open_note_spec);
        }
        let ghost m = self@;
        proof {
            reveal(open_note_child);
        }
        self.push_frame(Frame::OpenEditorAfterSelect);
        let c = self.select_begin(id);
        match c {
            Request::Done { .. } => {
                proof {
                    lemma_select_begin_done(push_frame(m, Frame::OpenEditorAfterSelect), id);
                }
                self.pop_frame(Ghost(m.frames), Ghost(Frame::OpenEditorAfterSelect));
                self.open_editor_now();
                Request::Done { ok: true }
            },
            _ => c,
        }
    }

    fn move_selection_op(&mut self, direction: isize) -> (r: Request)
        ensures
            (final(self)@, r) == move_selection_spec(old(self)@, direction as int),
    {
        proof {
            reveal(move_selection_spec);
        }
        let vis = self.visible_ids();
        if vis.len() == 0 {
            return Request::Done { ok: true };
        }
        let current = match self.selected {
            Some(id) => position(&vis, id),
            None => None,
        };
        let next: usize = match current {
            Some(i) => {
                let t: i128 = i as i128 + direction as i128;
                let last: i128 = (vis.len() - 1) as i128;
                if t < 0 {
                    0
                } else if t > last {
                    vis.len() - 1
                } else {
                    t as usize
                }
            },
            None => 0,
        };
        self.focus_select_op(vis[next])
    }

    /// Whether an operation is unfinished (the notebook waits on the store).
    pub fn is_busy(&self) -> (r: bool)
        ensures
            r == busy(self@),
    {
        self.frames.len() > 0
    }

    /// "New note" (the tray, a global shortcut, Ctrl/Alt+N, the list's
    /// button): finish the open note, create a note, select it and open it;
    /// then hide the search window if the editor opened, else show it.
    pub fn new_note(&mut self) -> (r: Request)
        ensures
            (final(self)@, r) == when_idle(old(self)@, new_note_spec(old(self)@)),
    {
        if self.is_busy() {
            return self.pending();
        }
        self.new_note_op()
    }

    /// "Search" (the tray, a global shortcut, Ctrl/Alt+M): save the current
    /// note and show the notes list with an empty, focused search.
    pub fn open_search(&mut self) -> (r: Request)
        ensures
            (final(self)@, r) == when_idle(old(self)@, open_search_spec(old(self)@)),
    {
        if self.is_busy() {
            return self.pending();
        }
        self.open_search_op()
    }

    /// Closing the note window: a blank note is deleted, any other saved;
    /// the window closes only if that worked.
    pub fn close_editor(&mut self) -> (r: Request)
        ensures
            (final(self)@, r) == when_idle(old(self)@, close_editor_spec(old(self)@)),
    {
        if self.is_busy() {
            return self.pending();
        }
        self.close_editor_op()
    }

    /// "Quit" from the tray: the open note is finished first; the app quits
    /// only if that worked.
    pub fn quit(&mut self) -> (r: Request)
        ensures
            (final(self)@, r) == when_idle(old(self)@, quit_spec(old(self)@)),
    {
        if self.is_busy() {
            return self.pending();
        }
        self.quit_op()
    }

    /// A note of the list gained the keyboard focus: it is selected.
    pub fn select_note(&mut self, id: i64) -> (r: Request)
        ensures
            (final(self)@, r) == when_idle(old(self)@, select_begin(old(self)@, id)),
    {
        if self.is_busy() {
            return self.pending();
        }
        self.select_begin(id)
    }

    /// A note of the list was clicked: it is selected and opened.
    pub fn open_note(&mut self, id: i64) -> (r: Request)
        ensures
            (final(self)@, r) == when_idle(old(self)@, open_note_spec(old(self)@, id)),
    {
        if self.is_busy() {
            return self.pending();
        }
        self.open_note_op(id)
    }

    /// The text in the editor changed: it becomes the draft, which is saved
    /// at once.
    pub fn edit_draft(&mut self, text: String) -> (r: Request)
        ensures
            (final(self)@, r) == when_idle(old(self)@, edit_draft_spec(old(self)@, text@)),
    {
        if self.is_busy() {
            return self.pending();
        }
        self.draft = text;
        self.dirty = true;
        self.save_begin()
    }

    /// "Retry save" after a failed save.
    pub fn retry_save(&mut self) -> (r: Request)
        ensures
            (final(self)@, r) == when_idle(old(self)@, save_begin(old(self)@)),
    {
        if self.is_busy() {
            return self.pending();
        }
        self.save_begin()
    }

    /// The settings were edited: the semantic results are dropped and the
    /// new settings are stored.
    pub fn change_settings(&mut self, settings: Settings) -> (r: Request)
        ensures
            (final(self)@, r) == when_idle(
                old(self)@,
                change_settings_spec(old(self)@, settings@),
            ),
    {
        if self.is_busy() {
            return self.pending();
        }
        self.settings = settings;
        self.invalidate();
        self.push_frame(Frame::SettingsAwait);
        Request::SaveSettings
    }

    /// Up/Down in the list: move the selection one step, staying within the
    /// list; with no selection in the list, select its first note.
    pub fn move_selection(&mut self, direction: isize) -> (r: Request)
        ensures
            (final(self)@, r) == when_idle(
                old(self)@,
                move_selection_spec(old(self)@, direction as int),
            ),
    {
        if self.is_busy() {
            return self.pending();
        }
        self.move_selection_op(direction)
    }

    fn search_edge_op(&mut self, down: bool) -> (r: Request)
        ensures
            (final(self)@, r) == ({
                let vis = visible(old(self)@);
                if vis.len() == 0 {
                    (old(self)@, Request::Done { ok: true })
                } else {
                    focus_select(
                        old(self)@,
                        if down {
                            vis[0]
                        } else {
                            vis.last()
                        },
                    )
                }
            }),
    {
        let vis = self.visible_ids();
        if vis.len() == 0 {
            return Request::Done { ok: true };
        }
        let id = if down {
            vis[0]
        } else {
            vis[vis.len() - 1]
        };
        self.focus_select_op(id)
    }

    fn list_keys_op(&mut self, k: SearchKeys) -> (r: Request)
        ensures
            (final(self)@, r) == (if k.delete {
                delete_begin(old(self)@)
            } else if k.arrow_down {
                move_selection_spec(old(self)@, 1)
            } else if k.arrow_up {
                move_selection_spec(old(self)@, -1)
            } else if k.enter {
                (open_editor(old(self)@), Request::Done { ok: true })
            } else if k.escape {
                (Model { focus_search: true, ..old(self)@ }, Request::Done { ok: true })
            } else {
                (old(self)@, Request::Done { ok: true })
            }),
    {
        if k.delete {
            self.delete_begin()
        } else if k.arrow_down {
            self.move_selection_op(1)
        } else if k.arrow_up {
            self.move_selection_op(-1)
        } else if k.enter {
            self.open_editor_now();
            Request::Done { ok: true }
        } else if k.escape {
            self.focus_search = true;
            Request::Done { ok: true }
        } else {
            Request::Done { ok: true }
        }
    }

    /// The keys pressed in the search window; see `model::handle_keys_spec`.
    pub fn handle_keys(&mut self, k: SearchKeys) -> (r: Request)
        ensures
            (final(self)@, r) == when_idle(old(self)@, handle_keys_spec(old(self)@, k)),
    {
        if self.is_busy() {
            return self.pending();
        }
        self.keys_op(k)
    }

    fn keys_op(&mut self, k: SearchKeys) -> (r: Request)
        ensures
            (final(self)@, r) == handle_keys_spec(old(self)@, k),
    {
        let s = self.shortcuts;
        if k.command_w {
            self.hide_search_now();
            Request::Done { ok: true }
        } else if (k.command_n && !s.new_registered) || (k.alt_n && !s.alt_new_registered) {
            self.new_note_op()
        } else if (k.command_m && !s.search_registered) || (k.alt_m && !s.alt_search_registered) {
            self.open_search_op()
        } else if k.command_comma {
            self.open_settings_now();
            Request::Done { ok: true }
        } else if self.page == Page::Settings {
            if k.escape {
                self.back_to_notes_now();
            }
            Request::Done { ok: true }
        } else if self.list_has_focus {
            self.list_keys_op(k)
        } else if self.search_has_focus && (k.arrow_down || k.arrow_up) {
            self.search_edge_op(k.arrow_down)
        } else {
            Request::Done { ok: true }
        }
    }

    /// Whether the note window's keys take over this frame.
    pub fn note_keys_act(&self, k: NoteKeys) -> (r: bool)
        ensures
            r == note_keys_act(self@, k),
    {
        let s = self.shortcuts;
        k.close || (k.command_n && !s.new_registered) || (k.alt_n && !s.alt_new_registered) || (
        k.command_m && !s.search_registered) || (k.alt_m && !s.alt_search_registered)
            || k.command_comma
    }

    fn note_keys_op(&mut self, k: NoteKeys) -> (r: Request)
        ensures
            (final(self)@, r) == note_keys_spec(old(self)@, k),
    {
        let s = self.shortcuts;
        if k.close {
            self.close_editor_op()
        } else if (k.command_n && !s.new_registered) || (k.alt_n && !s.alt_new_registered) {
            self.new_note_op()
        } else if (k.command_m && !s.search_registered) || (k.alt_m && !s.alt_search_registered) {
            self.open_search_op()
        } else if k.command_comma {
            self.open_settings_now();
            self.show_search_now();
            Request::Done { ok: true }
        } else {
            Request::Done { ok: true }
        }
    }

    /// The keys pressed in the note window; see `model::note_keys_spec`.
    pub fn handle_note_keys(&mut self, k: NoteKeys) -> (r: Request)
        ensures
            (final(self)@, r) == when_idle(old(self)@, note_keys_spec(old(self)@, k)),
    {
        if self.is_busy() {
            return self.pending();
        }
        self.note_keys_op(k)
    }

    // -----------------------------------------------------------------------
    // Search
    // -----------------------------------------------------------------------

    /// The search text was edited: the semantic results are dropped (and a
    /// semantic search is scheduled when it is on and the text not blank).
    pub fn set_search(&mut self, text: String)
        ensures
            final(self)@ == set_search_spec(old(self)@, text@),
    {
        self.search = text;
        self.invalidate();
    }

    fn add_semantic_match(&mut self, id: i64)
        ensures
            final(self)@ == (Model {
                semantic_matches: old(self)@.semantic_matches.insert(id),
                ..old(self)@
            }),
    {
        broadcast use vstd::std_specs::hash::group_hash_axioms;

        self.semantic_matches.insert(id);
    }

    fn fail_semantic(&mut self, message: String)
        ensures
            final(self)@ == (Model {
                semantic_pending: false,
                semantic_matches: Set::empty(),
                semantic_error: Some(message@),
                ..old(self)@
            }),
    {
        self.semantic_pending = false;
        self.semantic_matches.clear();
        self.semantic_error = Some(message);
    }

    fn on_match(&mut self, generation: u64, note_id: i64)
        ensures
            final(self)@ == apply_update(old(self)@, UpdateView::Match { generation, note_id }),
    {
        if generation == self.generation {
            self.add_semantic_match(note_id);
        }
    }

    fn on_finished(&mut self, generation: u64)
        ensures
            final(self)@ == apply_update(old(self)@, UpdateView::Finished { generation }),
    {
        if generation == self.generation {
            self.semantic_pending = false;
        }
    }

    fn on_error(&mut self, generation: u64, message: String)
        ensures
            final(self)@ == apply_update(
                old(self)@,
                UpdateView::Error { generation, message: message@ },
            ),
    {
        if generation == self.generation {
            self.fail_semantic(message);
        }
    }

    /// Applies an update of a semantic search; updates of an older search
    /// are ignored.
    pub fn apply_search_update(&mut self, update: SearchUpdate)
        ensures
            final(self)@ == apply_update(old(self)@, update@),
    {
        match update {
            SearchUpdate::Match { generation, note_id } => self.on_match(generation, note_id),
            SearchUpdate::Finished { generation } => self.on_finished(generation),
            SearchUpdate::Error { generation, message } => self.on_error(generation, message),
        }
    }

    /// The notes whose lowercase body does not contain `lower_query`.
    fn non_literal_notes(&self, lower_query: &str) -> (c: Vec<Note>)
        ensures
            notes_view(c@) == non_literal(self@.notes, lower_query@),
    {
        let qc = chars_of(lower_query);
        let ghost ns = self@.notes;
        let mut out: Vec<Note> = Vec::new();
        let mut i: usize = 0;
        assert(ns.take(0) =~= Seq::<NoteView>::empty());
        assert(notes_view(out@) =~= Seq::<NoteView>::empty());
        while i < self.notes.len()
            invariant
                i <= self.notes.len(),
                ns == notes_view(self.notes@),
                qc@ == lower_query@,
                notes_view(out@) == non_literal(ns.take(i as int), lower_query@),
            decreases self.notes.len() - i,
        {
            let lower = lowercase_text(self.notes[i].body.as_str());
            let lc = chars_of(lower.as_str());
            assert(ns.take(i + 1).drop_last() =~= ns.take(i as int));
            assert(ns.take(i + 1).last() == ns[i as int]);
            if !contains_chars(&lc, &qc) {
                let ghost before = out@;
                out.push(self.notes[i].clone());
                assert(notes_view(out@) =~= notes_view(before).push(ns[i as int]));
            }
            i = i + 1;
        }
        assert(ns.take(self.notes.len() as int) =~= ns);
        out
    }

    /// The scheduled semantic search is due: the schedule is used up. With
    /// an endpoint that is no HTTP(S) URL the error is shown and nothing
    /// runs; otherwise the search is pending and the job says what to send:
    /// the trimmed endpoint and query, the notes that do not already match
    /// literally, and the current generation.
    #[verifier::rlimit(40)]
    pub fn start_due_search(&mut self) -> (job: Option<SearchJob>)
        ensures
            final(self)@ == start_search_state(old(self)@),
            job is Some <==> endpoint_check(old(self)@) is Ok,
            match job {
                Some(j) => {
                    &&& j.endpoint@ == search_endpoint(old(self)@)
                    &&& j.query@ == trimmed(old(self)@.search)
                    &&& j.generation == old(self)@.generation
                    &&& notes_view(j.candidates@) == non_literal(old(self)@.notes, query_of(old(self)@))
                },
                None => true,
            },
    {
        self.search_scheduled = false;
        let endpoint = trim_str(self.settings.laya_endpoint.as_str());
        match validate_endpoint(endpoint) {
            Err(msg) => {
                self.semantic_error = Some(msg);
                None
            },
            Ok(()) => {
                self.semantic_pending = true;
                let query = trim_str(self.search.as_str());
                let lower = lowercase_text(query);
                let candidates = self.non_literal_notes(lower.as_str());
                Some(
                    SearchJob {
                        endpoint: String::from_str(endpoint),
                        query: String::from_str(query),
                        candidates,
                        generation: self.generation,
                    },
                )
            },
        }
    }

    // -----------------------------------------------------------------------
    // Windows and focus
    // -----------------------------------------------------------------------

    /// Enter in the list: open the selected note in the editor.
    pub fn open_editor(&mut self)
        ensures
            final(self)@ == open_editor(old(self)@),
    {
        self.open_editor_now();
    }

    pub fn show_search_window(&mut self)
        ensures
            final(self)@ == show_search(old(self)@),
    {
        self.show_search_now();
    }

    pub fn hide_search_window(&mut self)
        ensures
            final(self)@ == hide_search(old(self)@),
    {
        self.hide_search_now();
    }

    /// "Settings" (Ctrl+, or the list's button).
    pub fn open_settings(&mut self)
        ensures
            final(self)@ == open_settings(old(self)@),
    {
        self.open_settings_now();
    }

    /// "Back to notes" (Esc or the button): the list focus returns to the
    /// selected note.
    pub fn back_to_notes(&mut self)
        ensures
            final(self)@ == back_to_notes(old(self)@),
    {
        self.back_to_notes_now();
    }

    /// Whether the search field should take the focus now; the request is
    /// used up.
    pub fn take_focus_search(&mut self) -> (r: bool)
        ensures
            r == old(self)@.focus_search,
            final(self)@ == (Model { focus_search: false, ..old(self)@ }),
    {
        let r = self.focus_search;
        self.focus_search = false;
        r
    }

    /// Whether note `id` of the list should take the focus now; the request
    /// is used up if so.
    pub fn take_focus_list(&mut self, id: i64) -> (r: bool)
        ensures
            r == (old(self)@.focus_list_id == Some(id)),
            final(self)@ == if r {
                Model { focus_list_id: None, ..old(self)@ }
            } else {
                old(self)@
            },
    {
        let r = match self.focus_list_id {
            Some(f) => f == id,
            None => false,
        };
        if r {
            self.focus_list_id = None;
        }
        r
    }

    /// Whether the editor's text should take the focus now; used up.
    pub fn take_focus_editor(&mut self) -> (r: bool)
        ensures
            r == old(self)@.focus_editor,
            final(self)@ == (Model { focus_editor: false, ..old(self)@ }),
    {
        let r = self.focus_editor;
        self.focus_editor = false;
        r
    }

    /// Whether the note window should come to the front now; used up.
    pub fn take_focus_editor_window(&mut self) -> (r: bool)
        ensures
            r == old(self)@.focus_editor_window,
            final(self)@ == (Model { focus_editor_window: false, ..old(self)@ }),
    {
        let r = self.focus_editor_window;
        self.focus_editor_window = false;
        r
    }

    /// Whether the search window should come to the front now; used up.
    pub fn take_focus_search_window(&mut self) -> (r: bool)
        ensures
            r == old(self)@.focus_search_window,
            final(self)@ == (Model { focus_search_window: false, ..old(self)@ }),
    {
        let r = self.focus_search_window;
        self.focus_search_window = false;
        r
    }

    /// Whether the settings' first control should take the focus; used up.
    pub fn take_focus_settings(&mut self) -> (r: bool)
        ensures
            r == old(self)@.focus_settings,
            final(self)@ == (Model { focus_settings: false, ..old(self)@ }),
    {
        let r = self.focus_settings;
        self.focus_settings = false;
        r
    }

    /// Records whether the search field has the keyboard focus.
    pub fn set_search_has_focus(&mut self, has_focus: bool)
        ensures
            final(self)@ == (Model { search_has_focus: has_focus, ..old(self)@ }),
    {
        self.search_has_focus = has_focus;
    }

    /// Records whether a note of the list has the keyboard focus.
    pub fn set_list_has_focus(&mut self, has_focus: bool)
        ensures
            final(self)@ == (Model { list_has_focus: has_focus, ..old(self)@ }),
    {
        self.list_has_focus = has_focus;
    }

    /// The effects produced since the last call, in order; they are handed
    /// over once.
    pub fn take_effects(&mut self) -> (e: Vec<Effect>)
        ensures
            e@ == old(self)@.effects,
            final(self)@ == (Model { effects: Seq::empty(), ..old(self)@ }),
    {
        let mut e: Vec<Effect> = Vec::new();
        std::mem::swap(&mut e, &mut self.effects);
        e
    }

    // -----------------------------------------------------------------------
    // Reading the state
    // -----------------------------------------------------------------------

    pub fn notes(&self) -> (r: &Vec<Note>)
        ensures
            notes_view(r@) == self@.notes,
    {
        &self.notes
    }

    pub fn settings(&self) -> (r: &Settings)
        ensures
            r@ == self@.settings,
    {
        &self.settings
    }

    pub fn shortcuts(&self) -> (r: Shortcuts)
        ensures
            r == self@.shortcuts,
    {
        self.shortcuts
    }

    pub fn page(&self) -> (r: Page)
        ensures
            r == self@.page,
    {
        self.page
    }

    pub fn selected(&self) -> (r: Option<i64>)
        ensures
            r == self@.selected,
    {
        self.selected
    }

    pub fn draft(&self) -> (r: &str)
        ensures
            r@ == self@.draft,
    {
        self.draft.as_str()
    }

    pub fn is_dirty(&self) -> (r: bool)
        ensures
            r == self@.dirty,
    {
        self.dirty
    }

    pub fn search(&self) -> (r: &str)
        ensures
            r@ == self@.search,
    {
        self.search.as_str()
    }

    pub fn error(&self) -> (r: &Option<String>)
        ensures
            text_view(*r) == self@.error,
    {
        &self.error
    }

    pub fn show_editor(&self) -> (r: bool)
        ensures
            r == self@.show_editor,
    {
        self.show_editor
    }

    pub fn search_visible(&self) -> (r: bool)
        ensures
            r == self@.search_visible,
    {
        self.search_visible
    }

    pub fn search_has_focus(&self) -> (r: bool)
        ensures
            r == self@.search_has_focus,
    {
        self.search_has_focus
    }

    pub fn list_has_focus(&self) -> (r: bool)
        ensures
            r == self@.list_has_focus,
    {
        self.list_has_focus
    }

    pub fn is_quitting(&self) -> (r: bool)
        ensures
            r == self@.quitting,
    {
        self.quitting
    }

    pub fn generation(&self) -> (r: u64)
        ensures
            r == self@.generation,
    {
        self.generation
    }

    pub fn semantic_pending(&self) -> (r: bool)
        ensures
            r == self@.semantic_pending,
    {
        self.semantic_pending
    }

    pub fn search_scheduled(&self) -> (r: bool)
        ensures
            r == self@.search_scheduled,
    {
        self.search_scheduled
    }

    pub fn semantic_error(&self) -> (r: &Option<String>)
        ensures
            text_view(*r) == self@.semantic_error,
    {
        &self.semantic_error
    }
}

} // verus!
