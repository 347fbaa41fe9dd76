//! What the notebook's operations add up to.
use crate::model::{create_begin, create_save, create_finish_child, open_search_child, open_search_spec, quit_child, quit_spec, set_search_spec, Effect, close_editor_after, close_editor_child, close_editor_spec, delete_begin, delete_error, draft_blank, draft_for, selection_after_delete, ret, select_after, body_of, created_page, create_after_reload, create_save_child, create_select_child, ids, new_note_child, new_note_spec, push_frame, save_begin, select_begin, select_child, Page, apply_update, busy, edit_draft_spec, lemma_ret_empty, lemma_ret_step, pop_top, resume, resume_frame, save_error, with_frames, Frame, ReplyView, Request, invalidate, moved_index, non_literal, query_of, replacement_for, shown, shown_ids, visible, Model};
use crate::semantic::{is_last_word, run_after, run_output, run_step, RunEvent, RunOutput, RunView, UpdateView, update_generation};
use crate::storage::NoteView;
use crate::text::{contains_seq, lowercase, trimmed};
use vstd::prelude::*;

verus! {

proof fn lemma_shown_ids_contains(notes: Seq<NoteView>, q: Seq<char>, matches: Set<i64>, i: int)
    requires
        0 <= i < notes.len(),
        shown(notes[i], q, matches),
    ensures
        shown_ids(notes, q, matches).contains(notes[i].id),
    decreases notes.len(),
{
    let rest = shown_ids(notes.drop_last(), q, matches);
    let tail = if shown(notes.last(), q, matches) {
        seq![notes.last().id]
    } else {
        Seq::<i64>::empty()
    };
    assert(shown_ids(notes, q, matches) == rest + tail);
    if i == notes.len() - 1 {
        assert((rest + tail)[rest.len() as int] == notes[i].id);
    } else {
        lemma_shown_ids_contains(notes.drop_last(), q, matches, i);
        let k = choose|k: int| 0 <= k < rest.len() && rest[k] == notes[i].id;
        assert((rest + tail)[k] == notes[i].id);
    }
}

proof fn lemma_shown_ids_only(notes: Seq<NoteView>, q: Seq<char>, matches: Set<i64>, id: i64)
    requires
        shown_ids(notes, q, matches).contains(id),
    ensures
        exists|i: int| 0 <= i < notes.len() && notes[i].id == id && shown(notes[i], q, matches),
    decreases notes.len(),
{
    let rest = shown_ids(notes.drop_last(), q, matches);
    let tail = if shown(notes.last(), q, matches) {
        seq![notes.last().id]
    } else {
        Seq::<i64>::empty()
    };
    assert(shown_ids(notes, q, matches) == rest + tail);
    let k = choose|k: int|
        0 <= k < shown_ids(notes, q, matches).len() && shown_ids(notes, q, matches)[k] == id;
    if k < rest.len() {
        assert(rest[k] == id);
        lemma_shown_ids_only(notes.drop_last(), q, matches, id);
        let i = choose|i: int|
            0 <= i < notes.drop_last().len() && notes.drop_last()[i].id == id && shown(
                notes.drop_last()[i],
                q,
                matches,
            );
        assert(notes[i] == notes.drop_last()[i]);
    } else {
        assert(notes[notes.len() - 1].id == id);
    }
}

/// Search always finds plain-text matches: whatever the semantic search
/// found or failed to find, every note whose lowercase body contains the
/// lowercase search text is in the list, and with a blank search every note
/// is.
pub proof fn literal_matches_stay_visible(m: Model, i: int)
    requires
        0 <= i < m.notes.len(),
        query_of(m).len() == 0 || contains_seq(lowercase(m.notes[i].body), query_of(m)),
    ensures
        visible(m).contains(m.notes[i].id),
{
    lemma_shown_ids_contains(m.notes, query_of(m), m.semantic_matches, i);
}

/// The list holds only notes of the notebook that match the search
/// literally or were found by the semantic search.
pub proof fn visible_notes_match(m: Model, id: i64)
    requires
        visible(m).contains(id),
    ensures
        exists|i: int|
            0 <= i < m.notes.len() && m.notes[i].id == id && (query_of(m).len() == 0
                || contains_seq(lowercase(m.notes[i].body), query_of(m))
                || m.semantic_matches.contains(id)),
{
    lemma_shown_ids_only(m.notes, query_of(m), m.semantic_matches, id);
}

/// A note that the current semantic search reports as a match is listed.
pub proof fn semantic_match_becomes_visible(m: Model, i: int)
    requires
        0 <= i < m.notes.len(),
    ensures
        visible(
            apply_update(
                m,
                UpdateView::Match { generation: m.generation, note_id: m.notes[i].id },
            ),
        ).contains(m.notes[i].id),
{
    let m2 = apply_update(m, UpdateView::Match { generation: m.generation, note_id: m.notes[i].id });
    assert(m2.semantic_matches.contains(m.notes[i].id));
    assert(m2.notes == m.notes);
    lemma_shown_ids_contains(m2.notes, query_of(m2), m2.semantic_matches, i);
}

/// Updates of an older (or newer) semantic search change nothing.
pub proof fn stale_updates_are_ignored(m: Model, u: UpdateView)
    requires
        match u {
            UpdateView::Match { generation, .. } => generation != m.generation,
            UpdateView::Finished { generation } => generation != m.generation,
            UpdateView::Error { generation, .. } => generation != m.generation,
        },
    ensures
        apply_update(m, u) == m,
{
}

/// Once the search text, the notes or the settings change, the results of
/// the search that was running are ignored.
pub proof fn invalidated_search_is_ignored(m: Model, u: UpdateView)
    requires
        match u {
            UpdateView::Match { generation, .. } => generation == m.generation,
            UpdateView::Finished { generation } => generation == m.generation,
            UpdateView::Error { generation, .. } => generation == m.generation,
        },
    ensures
        apply_update(invalidate(m), u) == invalidate(m),
        invalidate(m).semantic_matches == Set::<i64>::empty(),
        invalidate(m).semantic_error is None,
{
}

proof fn lemma_non_literal(notes: Seq<NoteView>, q: Seq<char>)
    ensures
        forall|j: int|
            #![trigger non_literal(notes, q)[j]]
            0 <= j < non_literal(notes, q).len() ==> !contains_seq(
                lowercase(non_literal(notes, q)[j].body),
                q,
            ) && notes.contains(non_literal(notes, q)[j]),
        forall|i: int|
            0 <= i < notes.len() && !contains_seq(lowercase(notes[i].body), q) ==> non_literal(
                notes,
                q,
            ).contains(#[trigger] notes[i]),
    decreases notes.len(),
{
    if notes.len() > 0 {
        let init = notes.drop_last();
        lemma_non_literal(init, q);
        let rest = non_literal(init, q);
        let tail = if contains_seq(lowercase(notes.last().body), q) {
            Seq::<NoteView>::empty()
        } else {
            seq![notes.last()]
        };
        assert(non_literal(notes, q) == rest + tail);
        assert forall|j: int|
            #![trigger non_literal(notes, q)[j]]
            0 <= j < non_literal(notes, q).len() implies !contains_seq(
            lowercase(non_literal(notes, q)[j].body),
            q,
        ) && notes.contains(non_literal(notes, q)[j]) by {
            if j < rest.len() {
                assert(non_literal(notes, q)[j] == rest[j]);
                assert(rest[j] == non_literal(init, q)[j]);
                assert(init.contains(rest[j]));
                let k = choose|k: int| 0 <= k < init.len() && init[k] == rest[j];
                assert(notes[k] == init[k]);
            } else {
                assert(non_literal(notes, q)[j] == notes[notes.len() - 1]);
            }
        }
        assert forall|i: int|
            0 <= i < notes.len() && !contains_seq(lowercase(notes[i].body), q) implies non_literal(
            notes,
            q,
        ).contains(#[trigger] notes[i]) by {
            if i < notes.len() - 1 {
                assert(init[i] == notes[i]);
                assert(rest.contains(init[i]));
                let k = choose|k: int| 0 <= k < rest.len() && rest[k] == init[i];
                assert(non_literal(notes, q)[k] == notes[i]);
            } else {
                assert(non_literal(notes, q)[rest.len() as int] == notes[i]);
            }
        }
    }
}

/// The semantic search is asked only about notes that do not already match
/// literally, and about every one of them.
pub proof fn semantic_candidates_are_the_non_literal_notes(notes: Seq<NoteView>, q: Seq<char>)
    ensures
        forall|j: int|
            #![trigger non_literal(notes, q)[j]]
            0 <= j < non_literal(notes, q).len() ==> !contains_seq(
                lowercase(non_literal(notes, q)[j].body),
                q,
            ) && notes.contains(non_literal(notes, q)[j]),
        forall|i: int|
            0 <= i < notes.len() && !contains_seq(lowercase(notes[i].body), q) ==> non_literal(
                notes,
                q,
            ).contains(#[trigger] notes[i]),
{
    lemma_non_literal(notes, q);
}

/// Up/Down in the list never leave it: the new index is within the list;
/// Down from the last note and Up from the first stay put; otherwise the
/// selection moves by one.
pub proof fn moving_stays_in_the_list(vis: Seq<i64>, selected: Option<i64>, direction: int)
    requires
        vis.len() > 0,
        direction == 1 || direction == -1,
    ensures
        0 <= moved_index(vis, selected, direction) < vis.len(),
        match selected {
            Some(id) => match vis.index_of_first(id) {
                Some(i) => moved_index(vis, selected, direction) == if 0 <= i + direction
                    < vis.len() {
                    i + direction
                } else {
                    i
                },
                None => moved_index(vis, selected, direction) == 0,
            },
            None => moved_index(vis, selected, direction) == 0,
        },
{
    match selected {
        Some(id) => {
            vis.index_of_first_ensures(id);
        },
        None => {},
    }
}

/// After deleting a note of the list, the next note of the list is chosen,
/// or the previous one when it was the last.
pub proof fn deletion_picks_a_neighbour(vis: Seq<i64>, i: int)
    requires
        0 <= i < vis.len(),
        vis.no_duplicates(),
    ensures
        replacement_for(vis, vis[i]) == if i + 1 < vis.len() {
            Some(vis[i + 1])
        } else if i >= 1 {
            Some(vis[i - 1])
        } else {
            None::<i64>
        },
{
    vis.index_of_first_ensures(vis[i]);
    let k = vis.index_of_first(vis[i])->0;
    assert(k == i);
}

/// Typing saves immediately: when a note is selected, a change of the
/// draft asks the store to save it; once the store has saved it and listed
/// the notes, the draft is no longer dirty, the list is the store's, no
/// error is shown and nothing is pending.
pub proof fn typing_saves_immediately(m: Model, text: Seq<char>, listed: Seq<NoteView>)
    requires
        !busy(m),
        m.selected is Some,
    ensures
        ({
            let s1 = edit_draft_spec(m, text);
            let s2 = resume(s1.0, ReplyView::Updated(Ok(())));
            let s3 = resume(s2.0, ReplyView::Listed(Ok(listed)));
            &&& s1.1 == Request::UpdateNote { id: m.selected->0 }
            &&& s2.1 == Request::ListNotes
            &&& s3.1 == Request::Done { ok: true }
            &&& s3.0.notes == listed
            &&& !s3.0.dirty
            &&& s3.0.draft == text
            &&& s3.0.selected == m.selected
            &&& s3.0.error is None
            &&& !busy(s3.0)
        }),
{
    reveal(resume_frame);
    let s1 = edit_draft_spec(m, text);
    let s2 = resume(s1.0, ReplyView::Updated(Ok(())));
    assert(s2.0.frames == seq![Frame::SaveAfterReload, Frame::Reload]);
    let p = pop_top(s2.0);
    let q = Model { notes: listed, error: None, ..p };
    assert(q.frames.drop_last() =~= Seq::<Frame>::empty());
    lemma_ret_step(q, true);
    let r = resume_frame(with_frames(q, q.frames.drop_last()), Frame::SaveAfterReload, true);
    lemma_ret_empty(r.0, true);
}

/// A save that the store refuses keeps the draft and its "dirty" mark and
/// shows the store's error with "Try again.".
pub proof fn refused_save_keeps_the_draft(m: Model, text: Seq<char>, e: Seq<char>)
    requires
        !busy(m),
        m.selected is Some,
    ensures
        ({
            let s1 = edit_draft_spec(m, text);
            let s2 = resume(s1.0, ReplyView::Updated(Err(e)));
            &&& s2.1 == Request::Done { ok: false }
            &&& s2.0.dirty
            &&& s2.0.draft == text
            &&& s2.0.error == Some(save_error(e))
            &&& !busy(s2.0)
        }),
{
    let s1 = edit_draft_spec(m, text);
    let p = pop_top(s1.0);
    assert(p.frames =~= Seq::<Frame>::empty());
    lemma_ret_empty(Model { error: Some(save_error(e)), ..p }, false);
}

/// "New note" (Alt+N) creates a note and opens only the note window: from
/// a notebook with no open editor and no unsaved draft, once the store has
/// created note `id` and listed the notes (among them `id`), the new note is
/// selected and its body is the draft, the editor is open, the search window
/// is hidden, the notes page shows an empty search, and nothing is pending.
#[verifier::rlimit(50)]
pub proof fn new_note_opens_only_the_editor(m: Model, id: i64, listed: Seq<NoteView>)
    requires
        !busy(m),
        !m.show_editor,
        !m.dirty,
        m.selected != Some(id),
        ids(listed).contains(id),
    ensures
        ({
            let s1 = new_note_spec(m);
            let s2 = resume(s1.0, ReplyView::Created(Ok(id)));
            let s3 = resume(s2.0, ReplyView::Listed(Ok(listed)));
            &&& s1.1 == Request::CreateNote
            &&& s2.1 == Request::ListNotes
            &&& s3.1 == Request::Done { ok: true }
            &&& s3.0.notes == listed
            &&& s3.0.selected == Some(id)
            &&& Some(s3.0.draft) == body_of(listed, id)
            &&& s3.0.show_editor
            &&& !s3.0.search_visible
            &&& s3.0.page == Page::Notes
            &&& s3.0.search.len() == 0
            &&& !busy(s3.0)
        }),
{
    reveal(new_note_spec);
    reveal(new_note_child);
    reveal(create_save_child);
    reveal(create_select_child);
    reveal(select_child);
    reveal(resume_frame);
    ids(listed).index_of_first_ensures(id);
    let m0 = push_frame(m, Frame::NewNoteAfterCreate);
    let c0 = create_save_child(m0);
    assert(c0.1 == Request::Done { ok: true });
    assert(c0.0 == push_frame(m0, Frame::CreateAfterSave));
    let s1 = new_note_spec(m);
    assert(s1.0.frames == m0.frames.push(Frame::CreateAwait));
    assert(s1.1 == Request::CreateNote);
    let s2 = resume(s1.0, ReplyView::Created(Ok(id)));
    assert(pop_top(s1.0).frames =~= m0.frames);
    assert(s2.1 == Request::ListNotes);
    let p2 = pop_top(s2.0);
    assert(p2.frames =~= m0.frames.push(Frame::CreateAfterReload { id }));
    let q = Model { notes: listed, error: None, ..p2 };
    lemma_ret_step(q, true);
    let pq = with_frames(q, q.frames.drop_last());
    assert(pq.frames =~= m0.frames);
    let m4 = created_page(pq);
    let m5 = push_frame(m4, Frame::CreateAfterSelect);
    assert(m4.selected == m.selected);
    let m6 = push_frame(m5, Frame::SelectAfter { id });
    assert(select_child(m5, id) == save_begin(m6));
    assert(save_begin(m6) == (m6, Request::Done { ok: true }));
    assert(with_frames(m6, m5.frames) == m5);
    assert(select_begin(m5, id).0 == select_after(m5, id, true));
    assert(select_after(m5, id, true).draft == body_of(listed, id)->0);
    let c = create_after_reload(pq, id, true);
    assert(c.1 == Request::Done { ok: true });
    assert(c.0.frames == m0.frames);
    assert(c.0.show_editor);
    assert(c.0.selected == Some(id));
    lemma_ret_step(c.0, true);
    assert(c.0.frames.drop_last() =~= Seq::<Frame>::empty());
    let r = resume_frame(with_frames(c.0, c.0.frames.drop_last()), Frame::NewNoteAfterCreate, true);
    lemma_ret_empty(r.0, true);
    let s3 = resume(s2.0, ReplyView::Listed(Ok(listed)));
    assert(s3 == ret(q, true));
    assert(ret(q, true) == ret(c.0, true));
    assert(ret(c.0, true) == ret(r.0, true));
    assert(s3 == (r.0, Request::Done { ok: true }));
    assert(r.0.notes == listed);
    assert(r.0.selected == Some(id));
    assert(Some(r.0.draft) == body_of(listed, id));
    assert(r.0.show_editor);
    assert(!r.0.search_visible);
    assert(r.0.page == Page::Notes);
    assert(r.0.search.len() == 0);
}

/// Deleting the selected note (Delete in the list): the store is asked to
/// delete it; once it has, and has listed the remaining notes, the note
/// chosen before the deletion (the next one in the list, else the previous
/// one) is selected if it is still there, else the first note; its body is
/// the draft and it has the list focus. The search gets the focus exactly
/// when no note is left; the editor stays as it was while a note is
/// selected, and closes when none is left.
pub proof fn deleting_selects_a_neighbour(m: Model, listed: Seq<NoteView>)
    requires
        !busy(m),
        m.selected is Some,
    ensures
        ({
            let id = m.selected->0;
            let s1 = delete_begin(m);
            let s2 = resume(s1.0, ReplyView::Deleted(Ok(())));
            let s3 = resume(s2.0, ReplyView::Listed(Ok(listed)));
            let sel = selection_after_delete(listed, replacement_for(visible(m), id));
            &&& s1.1 == Request::DeleteNote { id }
            &&& s2.1 == Request::ListNotes
            &&& s3.1 == Request::Done { ok: true }
            &&& s3.0.notes == listed
            &&& s3.0.selected == sel
            &&& s3.0.draft == draft_for(listed, sel)
            &&& s3.0.focus_list_id == sel
            &&& !s3.0.dirty
            &&& s3.0.focus_search == (sel is None)
            &&& s3.0.show_editor == (m.show_editor && sel is Some)
            &&& !busy(s3.0)
        }),
{
    reveal(resume_frame);
    let id = m.selected->0;
    let s1 = delete_begin(m);
    let s2 = resume(s1.0, ReplyView::Deleted(Ok(())));
    assert(pop_top(s1.0).frames =~= Seq::<Frame>::empty());
    let p2 = pop_top(s2.0);
    let q = Model { notes: listed, error: None, ..p2 };
    assert(q.frames =~= seq![Frame::DeleteAfterReload { replacement: replacement_for(visible(m), id) }]);
    lemma_ret_step(q, true);
    let pq = with_frames(q, q.frames.drop_last());
    assert(pq.frames =~= Seq::<Frame>::empty());
    let r = resume_frame(pq, q.frames.last(), true);
    lemma_ret_empty(r.0, true);
}

/// A deletion that the store refuses keeps the note selected and shows the
/// store's error.
pub proof fn refused_deletion_keeps_the_note(m: Model, e: Seq<char>)
    requires
        !busy(m),
        m.selected is Some,
    ensures
        ({
            let s1 = delete_begin(m);
            let s2 = resume(s1.0, ReplyView::Deleted(Err(e)));
            &&& s2.1 == Request::Done { ok: false }
            &&& s2.0.selected == m.selected
            &&& s2.0.draft == m.draft
            &&& s2.0.notes == m.notes
            &&& s2.0.error == Some(delete_error(e))
            &&& !busy(s2.0)
        }),
{
    let s1 = delete_begin(m);
    let p = pop_top(s1.0);
    assert(p.frames =~= Seq::<Frame>::empty());
    lemma_ret_empty(Model { error: Some(delete_error(e)), ..p }, false);
}

/// Closing the editor finishes the note: a blank note is deleted, a changed
/// one is saved, and an unchanged one lets the window close at once.
pub proof fn closing_the_editor_finishes_the_note(m: Model)
    requires
        !busy(m),
        m.selected is Some,
    ensures
        draft_blank(m) ==> close_editor_spec(m).1 == (Request::DeleteNote { id: m.selected->0 }),
        !draft_blank(m) && m.dirty ==> close_editor_spec(m).1 == (Request::UpdateNote {
            id: m.selected->0,
        }),
        !draft_blank(m) && !m.dirty ==> close_editor_spec(m) == (
            close_editor_after(m),
            Request::Done { ok: true },
        ),
{
    reveal(close_editor_spec);
    reveal(close_editor_child);
    let m1 = push_frame(m, Frame::CloseEditorAfterFinish);
    assert(with_frames(m1, m.frames) == m);
}

/// When Laya fails, search keeps showing the literal matches and shows the
/// error: the semantic matches are dropped, the error is kept, and every
/// note that contains the search text is still listed.
pub proof fn laya_failure_keeps_literal_matches(m: Model, message: Seq<char>, i: int)
    requires
        0 <= i < m.notes.len(),
        query_of(m).len() == 0 || contains_seq(lowercase(m.notes[i].body), query_of(m)),
    ensures
        ({
            let m2 = apply_update(m, UpdateView::Error { generation: m.generation, message });
            &&& m2.semantic_error == Some(message)
            &&& !m2.semantic_pending
            &&& visible(m2).contains(m.notes[i].id)
        }),
{
    let m2 = apply_update(m, UpdateView::Error { generation: m.generation, message });
    assert(m2.notes == m.notes && m2.search == m.search);
    literal_matches_stay_visible(m2, i);
}


// ---------------------------------------------------------------------------
// Search runs
// ---------------------------------------------------------------------------

/// Whether the event cancels the run: a newer search is active while
/// candidates are left.
pub open spec fn cancels(s: RunView, e: RunEvent) -> bool {
    &&& !s.stopped
    &&& s.position < s.ids.len()
    &&& e matches RunEvent::Next { active } && active != s.generation
}

proof fn lemma_run_after_next(s: RunView, events: Seq<RunEvent>, i: int)
    requires
        0 <= i < events.len(),
    ensures
        run_after(s, events.take(i + 1)) == run_step(run_after(s, events.take(i)), events[i]).0,
{
    assert(events.take(i + 1).drop_last() =~= events.take(i));
    assert(events.take(i + 1).last() == events[i]);
}

proof fn lemma_run_keeps(s: RunView, events: Seq<RunEvent>, i: int)
    requires
        0 <= i <= events.len(),
    ensures
        run_after(s, events.take(i)).generation == s.generation,
        run_after(s, events.take(i)).ids == s.ids,
    decreases i,
{
    if i == 0 {
        assert(events.take(0) =~= Seq::<RunEvent>::empty());
    } else {
        lemma_run_keeps(s, events, i - 1);
        lemma_run_after_next(s, events, i - 1);
    }
}

proof fn lemma_run_stays_stopped(s: RunView, events: Seq<RunEvent>, k: int, j: int)
    requires
        0 <= k <= j <= events.len(),
        run_after(s, events.take(k)).stopped,
    ensures
        run_after(s, events.take(j)).stopped,
    decreases j - k,
{
    if j > k {
        lemma_run_stays_stopped(s, events, k, j - 1);
        lemma_run_after_next(s, events, j - 1);
    }
}

/// A semantic search run speaks for its own generation only, and says its
/// last word at most once: once it has sent "finished" or an error, or a
/// newer search has cancelled it, it asks Laya nothing more and sends
/// nothing more. (A failure to make any request comes, if at all, before
/// anything else.)
pub proof fn search_run_ends_once(generation: u64, ids: Seq<i64>, events: Seq<RunEvent>)
    requires
        forall|i: int| 0 < i < events.len() ==> !(#[trigger] events[i] is Failed),
    ensures
        ({
            let s = RunView { generation, ids, position: 0, stopped: false };
            &&& forall|i: int|
                0 <= i < events.len() ==> (#[trigger] run_output(s, events, i) matches RunOutput::Say {
                    update,
                } ==> update_generation(update) == generation)
            &&& forall|i: int, j: int|
                0 <= i < j < events.len() && is_last_word(#[trigger] run_output(s, events, i))
                    ==> #[trigger] run_output(s, events, j) == RunOutput::Quiet
            &&& forall|i: int, j: int|
                0 <= i < j < events.len() && cancels(
                    #[trigger] run_after(s, events.take(i)),
                    events[i],
                ) ==> run_output(s, events, i) == RunOutput::Quiet && #[trigger] run_output(
                    s,
                    events,
                    j,
                ) == RunOutput::Quiet
        }),
{
    let s = RunView { generation, ids, position: 0, stopped: false };
    assert forall|i: int|
        0 <= i < events.len() implies (#[trigger] run_output(s, events, i) matches RunOutput::Say {
        update,
    } ==> update_generation(update) == generation) by {
        lemma_run_keeps(s, events, i);
    }
    assert forall|i: int, j: int|
        0 <= i < j < events.len() && is_last_word(#[trigger] run_output(s, events, i)) implies #[trigger] run_output(
        s,
        events,
        j,
    ) == RunOutput::Quiet by {
        lemma_run_after_next(s, events, i);
        lemma_run_stays_stopped(s, events, i + 1, j);
        assert(!(events[j] is Failed));
    }
    assert forall|i: int, j: int|
        0 <= i < j < events.len() && cancels(
            #[trigger] run_after(s, events.take(i)),
            events[i],
        ) implies run_output(s, events, i) == RunOutput::Quiet && #[trigger] run_output(
        s,
        events,
        j,
    ) == RunOutput::Quiet by {
        lemma_run_after_next(s, events, i);
        lemma_run_stays_stopped(s, events, i + 1, j);
        assert(!(events[j] is Failed));
    }
}


// ---------------------------------------------------------------------------
// Search scheduling, opening search, quitting, selecting, creating
// ---------------------------------------------------------------------------

/// Editing the search text schedules a semantic search only when semantic
/// search is on and the text is not blank; otherwise the timer is stopped,
/// so nothing is sent to Laya. Either way the earlier semantic results are
/// dropped under a new generation.
pub proof fn search_edits_schedule_only_when_enabled(m: Model, text: Seq<char>)
    ensures
        ({
            let r = set_search_spec(m, text);
            let on = m.settings.semantic_enabled && trimmed(text).len() > 0;
            &&& r.search == text
            &&& r.search_scheduled == on
            &&& r.effects == m.effects.push(
                if on {
                    Effect::StartSearchTimer
                } else {
                    Effect::StopSearchTimer
                },
            )
            &&& r.semantic_matches == Set::<i64>::empty()
            &&& !r.semantic_pending
            &&& r.generation != m.generation
        }),
{
}

/// "Search" (Alt+M, the tray): from an idle notebook with nothing unsaved,
/// the search window opens at once on the notes page, with an empty,
/// focused search; with an unsaved draft, the store is first asked to save
/// it.
pub proof fn search_opens_the_notes_list(m: Model)
    requires
        !busy(m),
    ensures
        (!m.dirty || m.selected is None) ==> ({
            let r = open_search_spec(m);
            &&& r.1 == Request::Done { ok: true }
            &&& r.0.search_visible
            &&& r.0.focus_search_window
            &&& r.0.page == Page::Notes
            &&& r.0.search.len() == 0
            &&& r.0.focus_search
            &&& !r.0.list_has_focus
            &&& !busy(r.0)
        }),
        (m.dirty && m.selected is Some) ==> open_search_spec(m).1 == (Request::UpdateNote {
            id: m.selected->0,
        }),
{
    reveal(open_search_spec);
    reveal(open_search_child);
    let m1 = push_frame(m, Frame::OpenSearchAfterSave);
    assert(with_frames(m1, m.frames) == m) by {
        assert(m1.frames.drop_last() =~= m.frames);
        assert(with_frames(m1, m.frames).frames =~= m.frames);
    }
}

/// "Quit" from the tray with no note open quits at once: the notebook is
/// quitting and the main window is asked to close. With the editor open,
/// the note is finished first; when that needs no store request and
/// succeeds, the app quits too.
pub proof fn quit_quits(m: Model)
    requires
        !busy(m),
    ensures
        !m.show_editor ==> ({
            let r = quit_spec(m);
            &&& r.1 == Request::Done { ok: true }
            &&& r.0.quitting
            &&& r.0.effects == m.effects.push(Effect::CloseMainWindow)
        }),
        (m.show_editor && m.selected is Some && !draft_blank(m) && !m.dirty) ==> ({
            let r = quit_spec(m);
            &&& r.1 == Request::Done { ok: true }
            &&& r.0.quitting
            &&& r.0.effects == m.effects.push(Effect::CloseMainWindow)
        }),
{
    reveal(quit_spec);
    reveal(quit_child);
    let m1 = push_frame(m, Frame::QuitAfterFinish);
    assert(with_frames(m1, m.frames) == m) by {
        assert(with_frames(m1, m.frames).frames =~= m.frames);
    }
}

/// Moving to another note while the editor shows a blank draft of the
/// selected note deletes that blank note first; otherwise an unsaved draft
/// is saved first; with nothing to finish, the other note is selected at
/// once.
pub proof fn selecting_away_from_a_blank_note_deletes_it(m: Model, id: i64)
    requires
        !busy(m),
        m.selected is Some,
        m.selected != Some(id),
    ensures
        (m.show_editor && draft_blank(m)) ==> select_begin(m, id).1 == (Request::DeleteNote {
            id: m.selected->0,
        }),
        (!(m.show_editor && draft_blank(m)) && m.dirty) ==> select_begin(m, id).1
            == (Request::UpdateNote { id: m.selected->0 }),
        (!(m.show_editor && draft_blank(m)) && !m.dirty && (body_of(m.notes, id) is Some)) ==> ({
            let r = select_begin(m, id);
            &&& r.1 == Request::Done { ok: true }
            &&& r.0.selected == Some(id)
            &&& Some(r.0.draft) == body_of(m.notes, id)
        }),
{
    reveal(select_child);
    let m1 = push_frame(m, Frame::SelectAfter { id });
    assert(with_frames(m1, m.frames) == m) by {
        assert(with_frames(m1, m.frames).frames =~= m.frames);
    }
}

/// "New note" (Alt+N, the tray): from an idle notebook whose open note
/// finishes and saves without a store request, the store is asked to
/// create a note.
pub proof fn new_note_asks_for_a_note(m: Model)
    requires
        !busy(m),
        m.selected is None || (!draft_blank(m) && !m.dirty),
    ensures
        new_note_spec(m).1 == Request::CreateNote,
{
    let m0 = push_frame(m, Frame::NewNoteAfterCreate);
    let m1 = push_frame(m0, Frame::CreateAfterFinish);
    let m2 = push_frame(m0, Frame::CreateAfterSave);
    assert(create_save(m0).1 == Request::CreateNote) by {
        reveal(create_save_child);
        assert(create_save_child(m0) == (m2, Request::Done { ok: true }));
        assert(with_frames(m2, m0.frames).frames =~= m0.frames);
        assert(with_frames(m2, m0.frames) == m0);
    }
    if m.show_editor {
        assert(create_finish_child(m0) == (m1, Request::Done { ok: true })) by {
            reveal(create_finish_child);
        }
        assert(with_frames(m1, m0.frames) == m0) by {
            assert(with_frames(m1, m0.frames).frames =~= m0.frames);
        }
    }
    assert(create_begin(m0).1 == Request::CreateNote);
    assert(new_note_child(m) == create_begin(m0)) by {
        reveal(new_note_child);
    }
    reveal(new_note_spec);
}

} // verus!
