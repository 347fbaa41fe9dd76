use notiz::model::{Effect, NoteKeys, Page, Request, SearchKeys};
use notiz::notebook::{Notebook, Reply};
use notiz::semantic::SearchUpdate;
use notiz::shortcuts::Shortcuts;
use notiz::storage::{Note, Settings};

struct FakeStore {
    rows: Vec<(i64, String, i64)>,
    next_id: i64,
    clock: i64,
    fail_updates: bool,
    settings: Option<Settings>,
}

impl FakeStore {
    fn new(bodies: &[&str]) -> FakeStore {
        let mut store = FakeStore { rows: Vec::new(), next_id: 1, clock: 0, fail_updates: false, settings: None };
        for body in bodies {
            store.clock += 1;
            store.rows.push((store.next_id, body.to_string(), store.clock));
            store.next_id += 1;
        }
        store
    }

    fn list(&self) -> Vec<Note> {
        let mut rows = self.rows.clone();
        rows.sort_by(|a, b| b.2.cmp(&a.2).then(b.0.cmp(&a.0)));
        rows.into_iter().map(|(id, body, _)| Note { id, body }).collect()
    }

    fn body(&self, id: i64) -> Option<String> {
        self.rows.iter().find(|r| r.0 == id).map(|r| r.1.clone())
    }
}

fn settings(enabled: bool) -> Settings {
    Settings { semantic_enabled: enabled, laya_endpoint: "http://127.0.0.1:8000/v1/systemone".to_string() }
}

fn drive(nb: &mut Notebook, store: &mut FakeStore, mut request: Request) -> bool {
    loop {
        let reply = match request {
            Request::Done { ok } => return ok,
            Request::ListNotes => Reply::Listed(Ok(store.list())),
            Request::UpdateNote { id } => {
                if store.fail_updates {
                    Reply::Updated(Err("disk full".to_string()))
                } else {
                    store.clock += 1;
                    let clock = store.clock;
                    let draft = nb.draft().to_string();
                    for row in store.rows.iter_mut() {
                        if row.0 == id {
                            row.1 = draft.clone();
                            row.2 = clock;
                        }
                    }
                    Reply::Updated(Ok(()))
                }
            }
            Request::CreateNote => {
                store.clock += 1;
                let id = store.next_id;
                store.next_id += 1;
                store.rows.push((id, String::new(), store.clock));
                Reply::Created(Ok(id))
            }
            Request::DeleteNote { id } => {
                store.rows.retain(|r| r.0 != id);
                Reply::Deleted(Ok(()))
            }
            Request::SaveSettings => {
                store.settings = Some(nb.settings().clone());
                Reply::SettingsSaved(Ok(()))
            }
        };
        request = nb.resume(reply);
    }
}

fn open(store: &FakeStore, enabled: bool) -> Notebook {
    Notebook::new(store.list(), settings(enabled), Shortcuts::none())
}

fn no_keys() -> SearchKeys {
    SearchKeys {
        command_n: false,
        command_m: false,
        command_comma: false,
        escape: false,
        arrow_down: false,
        arrow_up: false,
        enter: false,
        delete: false,
        command_w: false,
        alt_n: false,
        alt_m: false,
    }
}

#[test]
fn starts_with_the_most_recent_note_selected() {
    let store = FakeStore::new(&["old", "new"]);
    let nb = open(&store, false);
    assert_eq!(nb.selected(), Some(2));
    assert_eq!(nb.draft(), "new");
    assert!(!nb.is_busy());
    assert_eq!(nb.page(), Page::Notes);
}

#[test]
fn new_note_opens_only_the_editor_and_typing_saves() {
    let mut store = FakeStore::new(&["first"]);
    let mut nb = open(&store, false);
    nb.show_search_window();
    let r = nb.new_note();
    assert_eq!(r, Request::CreateNote);
    assert!(drive(&mut nb, &mut store, r));
    assert_eq!(nb.selected(), Some(2));
    assert!(nb.show_editor());
    assert!(!nb.search_visible());
    assert!(nb.take_effects().contains(&Effect::CloseSearchWindow));
    let r = nb.edit_draft("Groceries\nmilk".to_string());
    assert_eq!(r, Request::UpdateNote { id: 2 });
    assert!(drive(&mut nb, &mut store, r));
    assert_eq!(store.body(2).unwrap(), "Groceries\nmilk");
    assert!(!nb.is_dirty());
    assert_eq!(nb.notes()[0].id, 2);
}

#[test]
fn closing_a_blank_note_deletes_it() {
    let mut store = FakeStore::new(&["keep"]);
    let mut nb = open(&store, false);
    let r = nb.new_note();
    drive(&mut nb, &mut store, r);
    assert_eq!(store.rows.len(), 2);
    let r = nb.close_editor();
    assert_eq!(r, Request::DeleteNote { id: 2 });
    drive(&mut nb, &mut store, r);
    assert_eq!(store.rows.len(), 1);
    assert!(!nb.show_editor());
    assert_eq!(nb.selected(), Some(1));
    assert_eq!(nb.draft(), "keep");
    assert!(nb.take_effects().contains(&Effect::CloseEditorWindow));
}

#[test]
fn delete_selects_the_next_note_in_the_list() {
    let mut store = FakeStore::new(&["c", "b", "a"]);
    let mut nb = open(&store, false);
    assert_eq!(nb.visible_ids(), vec![3, 2, 1]);
    let r = nb.select_note(2);
    drive(&mut nb, &mut store, r);
    nb.set_list_has_focus(true);
    let r = nb.handle_keys(SearchKeys { delete: true, ..no_keys() });
    assert_eq!(r, Request::DeleteNote { id: 2 });
    drive(&mut nb, &mut store, r);
    assert_eq!(nb.selected(), Some(1));
    assert_eq!(nb.draft(), "c");
    assert!(nb.take_focus_list(1));
    let r = nb.handle_keys(SearchKeys { delete: true, ..no_keys() });
    drive(&mut nb, &mut store, r);
    assert_eq!(nb.selected(), Some(3));
    let r = nb.handle_keys(SearchKeys { delete: true, ..no_keys() });
    drive(&mut nb, &mut store, r);
    assert_eq!(nb.selected(), None);
    assert!(nb.take_focus_search());
}

#[test]
fn search_shows_literal_and_semantic_matches() {
    let store = FakeStore::new(&["Tomatoes need water", "Garden plan", "Taxes"]);
    let mut nb = open(&store, true);
    nb.set_search("  GARDEN ".to_string());
    assert_eq!(nb.visible_ids(), vec![2]);
    assert!(nb.search_scheduled());
    assert_eq!(nb.take_effects(), vec![Effect::StartSearchTimer]);
    let job = nb.start_due_search().unwrap();
    assert_eq!(job.query, "GARDEN");
    assert_eq!(job.endpoint, "http://127.0.0.1:8000/v1/systemone");
    let candidates: Vec<i64> = job.candidates.iter().map(|n| n.id).collect();
    assert_eq!(candidates, vec![3, 1]);
    assert!(nb.semantic_pending());
    nb.apply_search_update(SearchUpdate::Match { generation: job.generation, note_id: 1 });
    nb.apply_search_update(SearchUpdate::Match { generation: job.generation + 1, note_id: 3 });
    assert_eq!(nb.visible_ids(), vec![2, 1]);
    nb.apply_search_update(SearchUpdate::Finished { generation: job.generation });
    assert!(!nb.semantic_pending());
    nb.apply_search_update(SearchUpdate::Error { generation: job.generation, message: "down".to_string() });
    assert_eq!(nb.semantic_error().as_deref(), Some("down"));
    assert_eq!(nb.visible_ids(), vec![2]);
    nb.set_search("   ".to_string());
    assert_eq!(nb.visible_ids(), vec![3, 2, 1]);
    assert!(!nb.search_scheduled());
    assert_eq!(nb.semantic_error(), &None);
}

#[test]
fn bad_endpoint_is_reported_instead_of_searching() {
    let store = FakeStore::new(&["x"]);
    let mut nb = open(&store, true);
    let mut s = settings(true);
    s.laya_endpoint = "file:///tmp/laya".to_string();
    let mut store2 = FakeStore::new(&["x"]);
    let r = nb.change_settings(s);
    assert_eq!(r, Request::SaveSettings);
    assert!(drive(&mut nb, &mut store2, r));
    assert!(store2.settings.as_ref().unwrap().laya_endpoint == "file:///tmp/laya");
    nb.set_search("x".to_string());
    assert!(nb.start_due_search().is_none());
    assert_eq!(nb.semantic_error().as_deref(), Some("The endpoint must use HTTP or HTTPS."));
    drop(store);
}

#[test]
fn arrows_move_within_the_list() {
    let mut store = FakeStore::new(&["c", "b", "a"]);
    let mut nb = open(&store, false);
    nb.set_search_has_focus(true);
    let r = nb.handle_keys(SearchKeys { arrow_up: true, ..no_keys() });
    drive(&mut nb, &mut store, r);
    assert_eq!(nb.selected(), Some(1));
    assert!(nb.take_focus_list(1));
    nb.set_search_has_focus(false);
    nb.set_list_has_focus(true);
    let r = nb.handle_keys(SearchKeys { arrow_down: true, ..no_keys() });
    drive(&mut nb, &mut store, r);
    assert_eq!(nb.selected(), Some(1));
    let r = nb.handle_keys(SearchKeys { arrow_up: true, ..no_keys() });
    drive(&mut nb, &mut store, r);
    assert_eq!(nb.selected(), Some(2));
    assert_eq!(nb.draft(), "b");
    let r = nb.handle_keys(SearchKeys { enter: true, ..no_keys() });
    drive(&mut nb, &mut store, r);
    assert!(nb.show_editor());
    let r = nb.handle_keys(SearchKeys { escape: true, ..no_keys() });
    drive(&mut nb, &mut store, r);
    assert!(nb.take_focus_search());
}

#[test]
fn settings_page_opens_and_escape_returns() {
    let mut store = FakeStore::new(&["a"]);
    let mut nb = open(&store, false);
    let r = nb.handle_keys(SearchKeys { command_comma: true, ..no_keys() });
    drive(&mut nb, &mut store, r);
    assert_eq!(nb.page(), Page::Settings);
    assert!(nb.take_focus_settings());
    let r = nb.handle_keys(SearchKeys { escape: true, ..no_keys() });
    drive(&mut nb, &mut store, r);
    assert_eq!(nb.page(), Page::Notes);
    let r = nb.handle_keys(SearchKeys { command_w: true, ..no_keys() });
    drive(&mut nb, &mut store, r);
    assert!(!nb.search_visible());
}

#[test]
fn failed_save_keeps_the_draft_and_says_so() {
    let mut store = FakeStore::new(&["a"]);
    let mut nb = open(&store, false);
    store.fail_updates = true;
    let r = nb.edit_draft("changed".to_string());
    assert!(!drive(&mut nb, &mut store, r));
    assert!(nb.is_dirty());
    assert_eq!(nb.error().as_deref(), Some("Could not save note: disk full. Try again."));
    store.fail_updates = false;
    let r = nb.retry_save();
    assert!(drive(&mut nb, &mut store, r));
    assert!(!nb.is_dirty());
    assert_eq!(nb.error(), &None);
    assert_eq!(store.body(1).unwrap(), "changed");
}

#[test]
fn quitting_finishes_the_open_note_first() {
    let mut store = FakeStore::new(&["a"]);
    let mut nb = open(&store, false);
    let r = nb.new_note();
    drive(&mut nb, &mut store, r);
    let r = nb.quit();
    assert_eq!(r, Request::DeleteNote { id: 2 });
    drive(&mut nb, &mut store, r);
    assert!(nb.is_quitting());
    assert!(nb.take_effects().contains(&Effect::CloseMainWindow));
    assert_eq!(store.rows.len(), 1);
}

#[test]
fn note_window_keys_close_and_open_settings() {
    let mut store = FakeStore::new(&["a"]);
    let mut nb = open(&store, false);
    nb.open_editor();
    let keys = NoteKeys { close: false, command_n: false, command_m: false, command_comma: true, alt_n: false, alt_m: false };
    assert!(nb.note_keys_act(keys));
    let r = nb.handle_note_keys(keys);
    drive(&mut nb, &mut store, r);
    assert_eq!(nb.page(), Page::Settings);
    assert!(nb.search_visible());
    let close = NoteKeys { close: true, ..keys };
    let r = nb.handle_note_keys(close);
    drive(&mut nb, &mut store, r);
    assert!(!nb.show_editor());
}

#[test]
fn replies_that_answer_nothing_change_nothing() {
    let mut store = FakeStore::new(&["a"]);
    let mut nb = open(&store, false);
    assert_eq!(nb.resume(Reply::Created(Ok(9))), Request::Done { ok: true });
    let r = nb.edit_draft("b".to_string());
    assert_eq!(r, Request::UpdateNote { id: 1 });
    assert_eq!(nb.resume(Reply::Deleted(Ok(()))), Request::UpdateNote { id: 1 });
    assert_eq!(nb.new_note(), Request::UpdateNote { id: 1 });
    assert!(nb.is_busy());
    drive(&mut nb, &mut store, r);
    assert!(!nb.is_busy());
}

#[test]
fn empty_list_says_why_it_is_empty() {
    let mut store = FakeStore::new(&[]);
    let nb = Notebook::new(store.list(), settings(false), Shortcuts::none());
    assert_eq!(nb.empty_list_message(), Some("No notes yet. Press Ctrl+N to start.".to_string()));

    store = FakeStore::new(&["apples", "pears"]);
    let mut nb = Notebook::new(store.list(), settings(false), Shortcuts::none());
    assert_eq!(nb.empty_list_message(), None);
    nb.set_search("plums".to_string());
    assert_eq!(nb.empty_list_message(), Some("No matching notes.".to_string()));
    nb.set_search("PEAR".to_string());
    assert_eq!(nb.empty_list_message(), None);
}
