//! Semantic search through a Laya endpoint: which endpoints are accepted,
//! the request that asks Laya whether a note matches a query, and the
//! decisions of a search run over the candidate notes.
use crate::probability::{bool_result_view, invalid_probability, probability_match, probability_verdict};
use crate::text::{same_text, trim_str, trimmed};
use vstd::prelude::*;

verus! {

/// A message from a running semantic search, tagged with the generation of
/// the search that sent it.
pub enum SearchUpdate {
    Match { generation: u64, note_id: i64 },
    Finished { generation: u64 },
    Error { generation: u64, message: String },
}

/// A semantic update, as a mathematical value.
pub enum UpdateView {
    Match { generation: u64, note_id: i64 },
    Finished { generation: u64 },
    Error { generation: u64, message: Seq<char> },
}

impl View for SearchUpdate {
    type V = UpdateView;

    open spec fn view(&self) -> UpdateView {
        match self {
            SearchUpdate::Match { generation, note_id } => UpdateView::Match {
                generation: *generation,
                note_id: *note_id,
            },
            SearchUpdate::Finished { generation } => UpdateView::Finished {
                generation: *generation,
            },
            SearchUpdate::Error { generation, message } => UpdateView::Error {
                generation: *generation,
                message: message@,
            },
        }
    }
}

// ---------------------------------------------------------------------------
// Endpoints
// ---------------------------------------------------------------------------

/// The scheme of the URL that `reqwest::Url::parse` makes of `input`, or
/// `None` when it does not parse.
pub uninterp spec fn url_scheme(input: Seq<char>) -> Option<Seq<char>>;

/// `reqwest::Url::parse` followed by `Url::scheme`: the (lower-case) scheme of
/// the parsed URL, or `None` when `input` is no URL. The contract only names
/// the result; the URL grammar is the `url` crate's.
#[verifier::external_body]
fn parse_url_scheme(input: &str) -> (r: Option<String>)
    ensures
        match r {
            Some(s) => url_scheme(input@) == Some(s@),
            None => url_scheme(input@) is None,
        },
{
    match reqwest::Url::parse(input) {
        Ok(url) => Some(url.scheme().to_string()),
        Err(_) => None,
    }
}

/// The verdict on an endpoint whose URL has the scheme `scheme` (`None`: it
/// is no URL): only HTTP and HTTPS are accepted.
pub open spec fn endpoint_verdict(scheme: Option<Seq<char>>) -> Result<(), Seq<char>> {
    match scheme {
        None => Err("Enter a full HTTP or HTTPS URL."@),
        Some(s) => if s == "http"@ || s == "https"@ {
            Ok(())
        } else {
            Err("The endpoint must use HTTP or HTTPS."@)
        },
    }
}

/// A `Result<(), String>` as a mathematical value.
pub open spec fn unit_result_view(r: Result<(), String>) -> Result<(), Seq<char>> {
    match r {
        Ok(()) => Ok(()),
        Err(m) => Err(m@),
    }
}

/// Decides on an endpoint from the scheme of its URL (`None`: it is no URL).
pub fn check_endpoint_scheme(scheme: Option<String>) -> (r: Result<(), String>)
    ensures
        unit_result_view(r) == endpoint_verdict(
            match scheme {
                Some(s) => Some(s@),
                None => None,
            },
        ),
{
    match scheme {
        None => Err(String::from_str("Enter a full HTTP or HTTPS URL.")),
        Some(s) => {
            if same_text(s.as_str(), "http") || same_text(s.as_str(), "https") {
                Ok(())
            } else {
                Err(String::from_str("The endpoint must use HTTP or HTTPS."))
            }
        },
    }
}

/// Accepts an endpoint, surrounding whitespace aside, only when it is a full
/// HTTP or HTTPS URL; otherwise says what is wrong with it.
pub fn validate_endpoint(endpoint: &str) -> (r: Result<(), String>)
    ensures
        unit_result_view(r) == endpoint_verdict(url_scheme(trimmed(endpoint@))),
{
    let input = trim_str(endpoint);
    check_endpoint_scheme(parse_url_scheme(input))
}

// ---------------------------------------------------------------------------
// Requests
// ---------------------------------------------------------------------------

/// The lowercase hexadecimal digit for `d < 16`.
pub open spec fn hex_digit(d: u32) -> char {
    "0123456789abcdef"@[d as int]
}

/// How a JSON string literal writes the character `c`.
pub open spec fn json_escape(c: char) -> Seq<char> {
    if c == '"' {
        seq!['\\', '"']
    } else if c == '\\' {
        seq!['\\', '\\']
    } else if c == '\u{8}' {
        seq!['\\', 'b']
    } else if c == '\u{c}' {
        seq!['\\', 'f']
    } else if c == '\n' {
        seq!['\\', 'n']
    } else if c == '\r' {
        seq!['\\', 'r']
    } else if c == '\t' {
        seq!['\\', 't']
    } else if (c as u32) < 0x20 {
        seq!['\\', 'u', '0', '0', hex_digit((c as u32) / 16), hex_digit((c as u32) % 16)]
    } else {
        seq![c]
    }
}

/// The characters of `s`, each written as a JSON string literal writes it.
pub open spec fn json_escaped(s: Seq<char>) -> Seq<char>
    decreases s.len(),
{
    if s.len() == 0 {
        Seq::empty()
    } else {
        json_escape(s[0]) + json_escaped(s.skip(1))
    }
}

/// The JSON string literal for `s`.
pub open spec fn json_string(s: Seq<char>) -> Seq<char> {
    seq!['"'] + json_escaped(s) + seq!['"']
}

/// `serde_json::to_string` on a string: the JSON string literal for `s`. It
/// writes into a `Vec<u8>`, which cannot fail, so it always returns `Ok`; it
/// escapes `"` and `\` with a backslash, backspace, form feed, newline,
/// carriage return and tab as `\b \f \n \r \t`, the other characters below
/// U+0020 as `\u00` and two lowercase hex digits, and writes every other
/// character as it is.
#[verifier::external_body]
fn json_quote(s: &str) -> (r: String)
    ensures
        r@ == json_string(s@),
{
    match serde_json::to_string(s) {
        Ok(t) => t,
        Err(_) => String::new(),
    }
}

/// The part of a request before the note.
pub open spec fn request_head() -> Seq<char> {
    "{\"questions\":{\"match\":{\"criteria\":{\"false\":\"The note is unrelated to the search query.\",\"true\":\"The note discusses or answers the search query.\"},\"instructions\":\"Is this note relevant to the search query, including paraphrases and related concepts?\",\"type\":\"noul\"}},\"state\":{\"note\":"@
}

/// The JSON text that asks Laya whether `note` is relevant to `query`: the
/// "match" question of type "noul", with the query and the note as state.
pub open spec fn request_text(query: Seq<char>, note: Seq<char>) -> Seq<char> {
    request_head() + json_string(note) + ",\"query\":"@ + json_string(query) + "}}"@
}

/// The body of the request that asks Laya whether `note` is relevant to
/// `query`, as compact JSON.
pub fn request_body(query: &str, note: &str) -> (body: String)
    ensures
        body@ == request_text(query@, note@),
{
    let mut body = String::from_str(
        "{\"questions\":{\"match\":{\"criteria\":{\"false\":\"The note is unrelated to the search query.\",\"true\":\"The note discusses or answers the search query.\"},\"instructions\":\"Is this note relevant to the search query, including paraphrases and related concepts?\",\"type\":\"noul\"}},\"state\":{\"note\":",
    );
    let n = json_quote(note);
    body.append(n.as_str());
    body.append(",\"query\":");
    let q = json_quote(query);
    body.append(q.as_str());
    body.append("}}");
    body
}

// ---------------------------------------------------------------------------
// Answers
// ---------------------------------------------------------------------------

/// What `serde_json::from_slice` makes of the bytes `body`, then
/// `Value::pointer` at `path`: `None` when `body` is no JSON document;
/// `Some(Some(t))` when a JSON number stands at `path`, `t` being the text
/// that serde_json's `Display` for numbers writes of it; `Some(None)` when
/// nothing, or something other than a number, stands there.
pub uninterp spec fn json_number_at(body: Seq<u8>, path: Seq<char>) -> Option<Option<Seq<char>>>;

/// A number text found in a JSON document, as mathematical values.
pub open spec fn number_text_view(r: Option<Option<String>>) -> Option<Option<Seq<char>>> {
    match r {
        Some(Some(t)) => Some(Some(t@)),
        Some(None) => Some(None),
        None => None,
    }
}

/// `serde_json::from_slice` into a `Value`, then `Value::pointer` at
/// `path`, and `Number`'s `Display` for a number found there. The result is
/// named by `json_number_at`; the JSON grammar and the number format are
/// serde_json's.
#[verifier::external_body]
fn json_number_text_at(body: &[u8], path: &str) -> (r: Option<Option<String>>)
    ensures
        number_text_view(r) == json_number_at(body@, path@),
{
    match serde_json::from_slice::<serde_json::Value>(body) {
        Err(_) => None,
        Ok(v) => match v.pointer(path) {
            Some(serde_json::Value::Number(n)) => Some(Some(n.to_string())),
            _ => Some(None),
        },
    }
}

/// Where Laya's answer holds the match probability.
pub open spec fn probability_path() -> Seq<char> {
    "/answers/match/noul"@
}

/// The message for an answer without a match probability.
pub open spec fn missing_probability() -> Seq<char> {
    "Laya response is missing answers.match.noul."@
}

/// The verdict on an answer whose match probability is written `noul`
/// (`None`: the answer holds no number there).
pub open spec fn answer_verdict(noul: Option<Seq<char>>) -> Result<bool, Seq<char>> {
    match noul {
        None => Err(missing_probability()),
        Some(t) => probability_verdict(t),
    }
}

/// Decides on the match probability of an answer, given as the text of the
/// number found under `answers.match.noul` (`None`: there is none).
pub fn match_verdict(noul: Option<String>) -> (r: Result<bool, String>)
    ensures
        bool_result_view(r) == answer_verdict(
            match noul {
                Some(t) => Some(t@),
                None => None,
            },
        ),
{
    match noul {
        None => Err(String::from_str("Laya response is missing answers.match.noul.")),
        Some(t) => probability_match(t.as_str()),
    }
}

/// The message for an answer that is no JSON document: the words with
/// which `reqwest`'s `Response::json` reports such a body.
pub open spec fn unreadable_answer() -> Seq<char> {
    "Could not read Laya response: error decoding response body"@
}

/// The reading of an answer whose body gave `found` at the probability's
/// path: a body that is no JSON cannot be read, else the probability
/// decides.
pub open spec fn answer_reading(found: Option<Option<Seq<char>>>) -> Result<bool, Seq<char>> {
    match found {
        None => Err(unreadable_answer()),
        Some(noul) => answer_verdict(noul),
    }
}

/// Reads Laya's answer, given as the bytes of its body: it must be a JSON
/// document, the probability under `answers.match.noul` must be a number in
/// [0, 1], and the note matches when it is at least 1/2.
pub fn parse_match(body: &[u8]) -> (r: Result<bool, String>)
    ensures
        bool_result_view(r) == answer_reading(json_number_at(body@, probability_path())),
{
    let path = "/answers/match/noul";
    proof {
        assert(path@ == probability_path());
    }
    match json_number_text_at(body, path) {
        None => Err(String::from_str("Could not read Laya response: error decoding response body")),
        Some(noul) => match_verdict(noul),
    }
}

// ---------------------------------------------------------------------------
// Search delay
// ---------------------------------------------------------------------------

/// How long the semantic search waits after the search text last changed,
/// in milliseconds.
pub const SEARCH_DELAY_MS: u64 = 350;

/// When a semantic search scheduled at `now_ms` (milliseconds on a steady
/// clock) is due: the delay later, or the end of the clock's range.
pub fn search_due_at(now_ms: u64) -> (due: u64)
    ensures
        due == if now_ms + SEARCH_DELAY_MS <= u64::MAX {
            (now_ms + SEARCH_DELAY_MS) as u64
        } else {
            u64::MAX
        },
{
    now_ms.saturating_add(SEARCH_DELAY_MS)
}

/// How long a search due at `due_ms` still waits at `now_ms`; `None` once it
/// is due.
pub fn search_wait(due_ms: u64, now_ms: u64) -> (r: Option<u64>)
    ensures
        now_ms < due_ms ==> r == Some((due_ms - now_ms) as u64),
        now_ms >= due_ms ==> r is None,
{
    if now_ms < due_ms {
        Some(due_ms - now_ms)
    } else {
        None
    }
}

// ---------------------------------------------------------------------------
// Search runs
// ---------------------------------------------------------------------------

/// What a search run asks for next.
pub enum SearchStep {
    /// Ask Laya about the candidate with this index.
    Classify { index: usize },
    /// Send this update; the run has ended.
    Send { update: SearchUpdate },
    /// The run has ended; send nothing more.
    Stop,
}

/// A search run as a mathematical value: its generation, the ids of its
/// candidates, how many have been classified, and whether it has ended.
pub struct RunView {
    pub generation: u64,
    pub ids: Seq<i64>,
    pub position: nat,
    pub stopped: bool,
}

/// What a search run is told: the active generation is asked for the next
/// step, Laya's verdict on the candidate asked about has come, or no request
/// could be made at all.
pub enum RunEvent {
    Next { active: u64 },
    Classified { verdict: Result<bool, Seq<char>> },
    Failed { message: Seq<char> },
}

/// What a search run answers: ask Laya about a candidate, send an update,
/// or nothing.
pub enum RunOutput {
    Ask { index: nat },
    Say { update: UpdateView },
    Quiet,
}

/// One step of a search run.
pub open spec fn run_step(s: RunView, e: RunEvent) -> (RunView, RunOutput) {
    match e {
        RunEvent::Next { active } => if s.stopped {
            (s, RunOutput::Quiet)
        } else if s.position < s.ids.len() {
            if active == s.generation {
                (s, RunOutput::Ask { index: s.position })
            } else {
                (RunView { stopped: true, ..s }, RunOutput::Quiet)
            }
        } else {
            (
                RunView { stopped: true, ..s },
                RunOutput::Say { update: UpdateView::Finished { generation: s.generation } },
            )
        },
        RunEvent::Classified { verdict } => if s.stopped || s.position >= s.ids.len() {
            (s, RunOutput::Quiet)
        } else {
            match verdict {
                Ok(true) => (
                    RunView { position: s.position + 1, ..s },
                    RunOutput::Say {
                        update: UpdateView::Match {
                            generation: s.generation,
                            note_id: s.ids[s.position as int],
                        },
                    },
                ),
                Ok(false) => (RunView { position: s.position + 1, ..s }, RunOutput::Quiet),
                Err(message) => (
                    RunView { stopped: true, ..s },
                    RunOutput::Say { update: UpdateView::Error { generation: s.generation, message } },
                ),
            }
        },
        RunEvent::Failed { message } => (
            RunView { stopped: true, ..s },
            RunOutput::Say { update: UpdateView::Error { generation: s.generation, message } },
        ),
    }
}

/// The run after the events `events`, from `s`.
pub open spec fn run_after(s: RunView, events: Seq<RunEvent>) -> RunView
    decreases events.len(),
{
    if events.len() == 0 {
        s
    } else {
        run_step(run_after(s, events.drop_last()), events.last()).0
    }
}

/// What the run answers to the event at `i`.
pub open spec fn run_output(s: RunView, events: Seq<RunEvent>, i: int) -> RunOutput {
    run_step(run_after(s, events.take(i)), events[i]).1
}

/// Whether an update ends the run: "finished" or an error.
pub open spec fn is_last_word(o: RunOutput) -> bool {
    match o {
        RunOutput::Say { update: UpdateView::Finished { .. } } => true,
        RunOutput::Say { update: UpdateView::Error { .. } } => true,
        _ => false,
    }
}

/// The generation that an update carries.
pub open spec fn update_generation(u: UpdateView) -> u64 {
    match u {
        UpdateView::Match { generation, .. } => generation,
        UpdateView::Finished { generation } => generation,
        UpdateView::Error { generation, .. } => generation,
    }
}

/// What the executable answers of a search run stand for.
pub open spec fn step_output(step: SearchStep) -> RunOutput {
    match step {
        SearchStep::Classify { index } => RunOutput::Ask { index: index as nat },
        SearchStep::Send { update } => RunOutput::Say { update: update@ },
        SearchStep::Stop => RunOutput::Quiet,
    }
}

pub open spec fn update_output(u: Option<SearchUpdate>) -> RunOutput {
    match u {
        Some(u) => RunOutput::Say { update: u@ },
        None => RunOutput::Quiet,
    }
}

pub open spec fn verdict_view(v: Result<bool, String>) -> Result<bool, Seq<char>> {
    match v {
        Ok(b) => Ok(b),
        Err(m) => Err(m@),
    }
}

/// The decisions of one semantic search over a list of candidate notes: it
/// asks about each candidate in order while its generation is still the
/// active one, reports every match, and ends with "finished", or with the
/// first error.
pub struct SearchRun {
    generation: u64,
    note_ids: Vec<i64>,
    next: usize,
    stopped: bool,
}

impl SearchRun {
    pub closed spec fn generation_spec(&self) -> u64 {
        self.generation
    }

    pub closed spec fn note_ids_spec(&self) -> Seq<i64> {
        self.note_ids@
    }

    /// How many candidates have been classified.
    pub closed spec fn position(&self) -> nat {
        self.next as nat
    }

    pub closed spec fn stopped_spec(&self) -> bool {
        self.stopped
    }

    pub closed spec fn wf(&self) -> bool {
        self.next <= self.note_ids.len()
    }

    /// The run as a mathematical value.
    pub closed spec fn run_view(&self) -> RunView {
        RunView {
            generation: self.generation,
            ids: self.note_ids@,
            position: self.next as nat,
            stopped: self.stopped,
        }
    }

    /// A run of the search with this generation over the candidates with
    /// these ids, in order.
    pub fn new(generation: u64, note_ids: Vec<i64>) -> (run: Self)
        ensures
            run.wf(),
            run.generation_spec() == generation,
            run.note_ids_spec() == note_ids@,
            run.position() == 0,
            !run.stopped_spec(),
            run.run_view() == (RunView { generation, ids: note_ids@, position: 0, stopped: false }),
    {
        SearchRun { generation, note_ids, next: 0, stopped: false }
    }

    /// What to do next, given the generation that is active now: ask about
    /// the next candidate while the run is current; stop without a word once
    /// a newer search has begun; report "finished" after the last candidate.
    pub fn next(&mut self, active_generation: u64) -> (step: SearchStep)
        requires
            old(self).wf(),
        ensures
            final(self).wf(),
            final(self).generation_spec() == old(self).generation_spec(),
            final(self).note_ids_spec() == old(self).note_ids_spec(),
            final(self).position() == old(self).position(),
            old(self).stopped_spec() ==> step is Stop && final(self).stopped_spec(),
            !old(self).stopped_spec() && old(self).position() < old(self).note_ids_spec().len()
                ==> if active_generation == old(self).generation_spec() {
                step == (SearchStep::Classify { index: old(self).position() as usize })
                    && !final(self).stopped_spec()
            } else {
                step is Stop && final(self).stopped_spec()
            },
            !old(self).stopped_spec() && old(self).position() == old(self).note_ids_spec().len()
                ==> step == (SearchStep::Send {
                update: SearchUpdate::Finished { generation: old(self).generation_spec() },
            }) && final(self).stopped_spec(),
            (final(self).run_view(), step_output(step)) == run_step(
                old(self).run_view(),
                RunEvent::Next { active: active_generation },
            ),
    {
        if self.stopped {
            return SearchStep::Stop;
        }
        if self.next < self.note_ids.len() {
            if active_generation != self.generation {
                self.stopped = true;
                SearchStep::Stop
            } else {
                SearchStep::Classify { index: self.next }
            }
        } else {
            self.stopped = true;
            SearchStep::Send { update: SearchUpdate::Finished { generation: self.generation } }
        }
    }

    /// Records Laya's verdict on the candidate that was asked about: a match
    /// is reported, a non-match is not, and an error is reported and ends the
    /// run. A verdict that comes when nothing was asked is ignored.
    pub fn classified(&mut self, verdict: Result<bool, String>) -> (update: Option<SearchUpdate>)
        requires
            old(self).wf(),
        ensures
            final(self).wf(),
            final(self).generation_spec() == old(self).generation_spec(),
            final(self).note_ids_spec() == old(self).note_ids_spec(),
            old(self).stopped_spec() || old(self).position() >= old(self).note_ids_spec().len()
                ==> update is None && final(self).position() == old(self).position()
                && final(self).stopped_spec() == old(self).stopped_spec(),
            !old(self).stopped_spec() && old(self).position() < old(self).note_ids_spec().len()
                ==> match verdict {
                Ok(true) => update == Some(
                    SearchUpdate::Match {
                        generation: old(self).generation_spec(),
                        note_id: old(self).note_ids_spec()[old(self).position() as int],
                    },
                ) && final(self).position() == old(self).position() + 1
                    && !final(self).stopped_spec(),
                Ok(false) => update is None && final(self).position() == old(self).position() + 1
                    && !final(self).stopped_spec(),
                Err(message) => (match update {
                    Some(SearchUpdate::Error { generation, message: m }) => generation
                        == old(self).generation_spec() && m@ == message@,
                    _ => false,
                }) && final(self).position() == old(self).position()
                    && final(self).stopped_spec(),
            },
            (final(self).run_view(), update_output(update)) == run_step(
                old(self).run_view(),
                RunEvent::Classified { verdict: verdict_view(verdict) },
            ),
    {
        if self.stopped || self.next >= self.note_ids.len() {
            return None;
        }
        match verdict {
            Ok(true) => {
                let id = self.note_ids[self.next];
                self.next = self.next + 1;
                Some(SearchUpdate::Match { generation: self.generation, note_id: id })
            },
            Ok(false) => {
                self.next = self.next + 1;
                None
            },
            Err(message) => {
                self.stopped = true;
                Some(SearchUpdate::Error { generation: self.generation, message })
            },
        }
    }

    /// Ends the run because no request could be made at all; the error is
    /// reported under the run's generation.
    pub fn failed(&mut self, message: String) -> (update: SearchUpdate)
        requires
            old(self).wf(),
        ensures
            final(self).wf(),
            final(self).stopped_spec(),
            final(self).generation_spec() == old(self).generation_spec(),
            final(self).note_ids_spec() == old(self).note_ids_spec(),
            final(self).position() == old(self).position(),
            match update {
                SearchUpdate::Error { generation, message: m } => generation
                    == old(self).generation_spec() && m@ == message@,
                _ => false,
            },
            (final(self).run_view(), RunOutput::Say { update: update@ }) == run_step(
                old(self).run_view(),
                RunEvent::Failed { message: message@ },
            ),
    {
        self.stopped = true;
        SearchUpdate::Error { generation: self.generation, message }
    }
}

} // verus!
