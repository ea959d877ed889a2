//! The orchestrator of the pipeline, as a state machine. Each non-terminal
//! stage names the one outside action the driver must perform next (an HTTP
//! call, a file write, the restore subprocess, a database statement); the
//! driver reports what happened as an event, and `step` decides the next
//! stage. All ordering rules of the pipeline — extraction before cleanup,
//! nothing after a restore failure, submission data captured before cleanup —
//! are properties of `step` and are proved below over whole runs.

use vstd::prelude::*;
use crate::payload::{decode_ok, decoded_text, decode_payload};

verus! {

/// The terminal outcomes of a run.
#[derive(Clone, Copy, Debug, PartialEq, Eq, Structural)]
pub enum Outcome {
    /// Every stage succeeded and the solution was submitted.
    Success,
    /// Fetching, decoding, or writing the script failed; the database was
    /// never touched.
    FailedBeforeRestore,
    /// The restore subprocess failed; no query was issued afterwards.
    FailedAtRestore,
    /// Extraction or submission failed after the restore had mutated the
    /// database.
    FailedAfterRestore,
}

/// The stage a run is in. Each variant carries the data the next action
/// needs; `Done` requests nothing.
pub enum Stage {
    /// Next action: fetch the problem from the challenge service.
    FetchPending,
    /// Next action: write the decoded SQL script to the transient file.
    WritePending { sql: String },
    /// Next action: run the restore subprocess on the written script.
    RestorePending,
    /// Next action: run the extraction query.
    ExtractPending,
    /// Next action: run the destructive cleanup statement. The extraction
    /// result is already captured here and cleanup cannot change it.
    CleanupPending { rows: Vec<String> },
    /// Next action: build the submission payload from the rows and post it.
    SubmitPending { rows: Vec<String> },
    /// The run is over.
    Done { outcome: Outcome },
}

/// What the driver reports after performing the requested action.
pub enum Event {
    /// The fetch finished: the response body, or `None` on an HTTP failure.
    FetchDone { body: Option<String> },
    /// The script write finished.
    WriteDone { ok: bool },
    /// The restore subprocess exited; `ok` is its success signal.
    RestoreDone { ok: bool },
    /// The extraction query finished: the rows in database order, or `None`
    /// on a connection or query failure.
    ExtractDone { rows: Option<Vec<String>> },
    /// The cleanup statement finished. A failure here is non-fatal.
    CleanupDone { ok: bool },
    /// The submission finished.
    SubmitDone { ok: bool },
}

/// The mathematical value of a stage.
pub enum StageView {
    FetchPending,
    WritePending { sql: Seq<char> },
    RestorePending,
    ExtractPending,
    CleanupPending { rows: Seq<Seq<char>> },
    SubmitPending { rows: Seq<Seq<char>> },
    Done { outcome: Outcome },
}

/// The mathematical value of an event.
pub enum EventView {
    FetchDone { body: Option<Seq<char>> },
    WriteDone { ok: bool },
    RestoreDone { ok: bool },
    ExtractDone { rows: Option<Seq<Seq<char>>> },
    CleanupDone { ok: bool },
    SubmitDone { ok: bool },
}

impl View for Stage {
    type V = StageView;

    open spec fn view(&self) -> StageView {
        match self {
            Stage::FetchPending => StageView::FetchPending,
            Stage::WritePending { sql } => StageView::WritePending { sql: sql@ },
            Stage::RestorePending => StageView::RestorePending,
            Stage::ExtractPending => StageView::ExtractPending,
            Stage::CleanupPending { rows } => StageView::CleanupPending { rows: rows.deep_view() },
            Stage::SubmitPending { rows } => StageView::SubmitPending { rows: rows.deep_view() },
            Stage::Done { outcome } => StageView::Done { outcome: *outcome },
        }
    }
}

impl View for Event {
    type V = EventView;

    open spec fn view(&self) -> EventView {
        match self {
            Event::FetchDone { body } => EventView::FetchDone { body: body.deep_view() },
            Event::WriteDone { ok } => EventView::WriteDone { ok: *ok },
            Event::RestoreDone { ok } => EventView::RestoreDone { ok: *ok },
            Event::ExtractDone { rows } => EventView::ExtractDone { rows: rows.deep_view() },
            Event::CleanupDone { ok } => EventView::CleanupDone { ok: *ok },
            Event::SubmitDone { ok } => EventView::SubmitDone { ok: *ok },
        }
    }
}

/// What a fetch response body yields: `Some` of the value of the `dump`
/// field where the body is a JSON object holding a string under that key,
/// `None` otherwise. The result depends on the characters of the body alone.
pub uninterp spec fn dump_field_of(s: Seq<char>) -> Option<Seq<char>>;

/// Relies on serde_json's `from_str`, `Value::get` and `Value::as_str`:
/// parses the body as JSON and reads the string under the `dump` key; the
/// outcome is a function of the body text alone.
#[verifier::external_body]
fn dump_of_response(body: &str) -> (r: Option<String>)
    ensures
        match r {
            Some(d) => dump_field_of(body@) == Some(d@),
            None => dump_field_of(body@) is None,
        },
{
    let parsed: Option<serde_json::Value> = serde_json::from_str(body).ok();
    match parsed {
        Some(v) => match v.get("dump") {
            Some(d) => d.as_str().map(|s| s.to_string()),
            None => None,
        },
        None => None,
    }
}

/// What the fetch stage turns a response into: the decoded SQL script where
/// the body holds a decodable dump, a terminal failure otherwise.
pub open spec fn fetch_step(body: Option<Seq<char>>) -> StageView {
    match body {
        Some(text) => match dump_field_of(text) {
            Some(dump) => if decode_ok(dump) {
                StageView::WritePending { sql: decoded_text(dump) }
            } else {
                StageView::Done { outcome: Outcome::FailedBeforeRestore }
            },
            None => StageView::Done { outcome: Outcome::FailedBeforeRestore },
        },
        None => StageView::Done { outcome: Outcome::FailedBeforeRestore },
    }
}

/// The transition relation of the pipeline. An event that does not belong to
/// the stage changes nothing; a terminal stage absorbs every event.
pub open spec fn step_spec(s: StageView, e: EventView) -> StageView {
    match (s, e) {
        (StageView::FetchPending, EventView::FetchDone { body }) => fetch_step(body),
        (StageView::WritePending { .. }, EventView::WriteDone { ok }) => if ok {
            StageView::RestorePending
        } else {
            StageView::Done { outcome: Outcome::FailedBeforeRestore }
        },
        (StageView::RestorePending, EventView::RestoreDone { ok }) => if ok {
            StageView::ExtractPending
        } else {
            StageView::Done { outcome: Outcome::FailedAtRestore }
        },
        (StageView::ExtractPending, EventView::ExtractDone { rows }) => match rows {
            Some(r) => StageView::CleanupPending { rows: r },
            None => StageView::Done { outcome: Outcome::FailedAfterRestore },
        },
        (StageView::CleanupPending { rows }, EventView::CleanupDone { .. }) =>
            StageView::SubmitPending { rows },
        (StageView::SubmitPending { .. }, EventView::SubmitDone { ok }) => StageView::Done {
            outcome: if ok {
                Outcome::Success
            } else {
                Outcome::FailedAfterRestore
            },
        },
        (StageView::Done { outcome }, _) => StageView::Done { outcome },
        (other, _) => other,
    }
}

/// Advances one stage on one event. The fetch event carries the raw response
/// body; the step itself extracts the dump field and decodes the payload, so
/// a malformed response or payload ends the run before the database is
/// touched.
pub fn step(stage: Stage, event: Event) -> (r: Stage)
    ensures
        r@ == step_spec(stage@, event@),
{
    match (stage, event) {
        (Stage::FetchPending, Event::FetchDone { body }) => match body {
            Some(text) => match dump_of_response(text.as_str()) {
                Some(dump) => match decode_payload(dump.as_str()) {
                    Ok(sql) => Stage::WritePending { sql },
                    Err(_) => Stage::Done { outcome: Outcome::FailedBeforeRestore },
                },
                None => Stage::Done { outcome: Outcome::FailedBeforeRestore },
            },
            None => Stage::Done { outcome: Outcome::FailedBeforeRestore },
        },
        (Stage::WritePending { .. }, Event::WriteDone { ok }) => if ok {
            Stage::RestorePending
        } else {
            Stage::Done { outcome: Outcome::FailedBeforeRestore }
        },
        (Stage::RestorePending, Event::RestoreDone { ok }) => if ok {
            Stage::ExtractPending
        } else {
            Stage::Done { outcome: Outcome::FailedAtRestore }
        },
        (Stage::ExtractPending, Event::ExtractDone { rows }) => match rows {
            Some(r) => Stage::CleanupPending { rows: r },
            None => Stage::Done { outcome: Outcome::FailedAfterRestore },
        },
        (Stage::CleanupPending { rows }, Event::CleanupDone { .. }) => Stage::SubmitPending {
            rows,
        },
        (Stage::SubmitPending { .. }, Event::SubmitDone { ok }) => Stage::Done {
            outcome: if ok {
                Outcome::Success
            } else {
                Outcome::FailedAfterRestore
            },
        },
        (s, _) => s,
    }
}

/// The stage a run reaches from `s0` after the whole event sequence.
pub open spec fn run(s0: StageView, evs: Seq<EventView>) -> StageView
    decreases evs.len(),
{
    if evs.len() == 0 {
        s0
    } else {
        run(step_spec(s0, evs.first()), evs.drop_first())
    }
}

/// The stage a run is in after the first `i` events.
pub open spec fn stage_at(s0: StageView, evs: Seq<EventView>, i: int) -> StageView
    recommends
        0 <= i <= evs.len(),
{
    run(s0, evs.take(i))
}

/// A run over a sequence ending in one event is the run over the rest,
/// advanced by that event.
pub proof fn lemma_run_snoc(s0: StageView, evs: Seq<EventView>)
    requires
        evs.len() > 0,
    ensures
        run(s0, evs) == step_spec(run(s0, evs.drop_last()), evs.last()),
    decreases evs.len(),
{
    if evs.len() == 1 {
        assert(evs.drop_last() =~= Seq::<EventView>::empty());
    } else {
        let s1 = step_spec(s0, evs.first());
        lemma_run_snoc(s1, evs.drop_first());
        assert(evs.drop_first().drop_last() =~= evs.drop_last().drop_first());
        assert(evs.drop_last().first() == evs.first());
        assert(evs.drop_first().last() == evs.last());
    }
}

/// Each stage of a run follows from the one before it by one step.
pub proof fn lemma_stage_at_unfold(s0: StageView, evs: Seq<EventView>, i: int)
    requires
        0 < i <= evs.len(),
    ensures
        stage_at(s0, evs, i) == step_spec(stage_at(s0, evs, i - 1), evs[i - 1]),
{
    lemma_run_snoc(s0, evs.take(i));
    assert(evs.take(i).drop_last() =~= evs.take(i - 1));
    assert(evs.take(i).last() == evs[i - 1]);
}

/// A terminal stage is absorbing: once a run is done, every later stage of
/// the run is the same terminal stage.
pub proof fn lemma_done_stays(s0: StageView, evs: Seq<EventView>, i: int, j: int)
    requires
        0 <= i <= j <= evs.len(),
        stage_at(s0, evs, i) matches StageView::Done { .. },
    ensures
        stage_at(s0, evs, j) == stage_at(s0, evs, i),
    decreases j - i,
{
    if j > i {
        lemma_done_stays(s0, evs, i, j - 1);
        lemma_stage_at_unfold(s0, evs, j);
    }
}

/// If the restore subprocess fails, the run is terminal at once with the
/// restore failure, and stays so: no later stage of the run requests the
/// extraction query, the cleanup statement, or a submission.
pub proof fn lemma_restore_failure_halts(s0: StageView, evs: Seq<EventView>, i: int, j: int)
    requires
        0 <= i < evs.len(),
        i < j <= evs.len(),
        stage_at(s0, evs, i) == StageView::RestorePending,
        evs[i] == (EventView::RestoreDone { ok: false }),
    ensures
        stage_at(s0, evs, j) == (StageView::Done { outcome: Outcome::FailedAtRestore }),
{
    lemma_stage_at_unfold(s0, evs, i + 1);
    lemma_done_stays(s0, evs, i + 1, j);
}

/// Cleanup is requested only after the extraction query has returned
/// successfully, and with exactly the rows that query returned: the
/// destructive call never precedes extraction, and never sees other data.
pub proof fn lemma_cleanup_follows_extraction(
    s0: StageView,
    evs: Seq<EventView>,
    i: int,
    rows: Seq<Seq<char>>,
)
    requires
        0 <= i <= evs.len(),
        s0 == StageView::FetchPending,
        stage_at(s0, evs, i) == (StageView::CleanupPending { rows }),
    ensures
        exists|j: int|
            0 <= j < i && stage_at(s0, evs, j) == StageView::ExtractPending && evs[j]
                == (EventView::ExtractDone { rows: Some(rows) }),
    decreases i,
{
    assert(evs.take(0) =~= Seq::<EventView>::empty());
    lemma_stage_at_unfold(s0, evs, i);
    let prev = stage_at(s0, evs, i - 1);
    if prev == (StageView::CleanupPending { rows }) {
        lemma_cleanup_follows_extraction(s0, evs, i - 1, rows);
        let j = choose|j: int|
            0 <= j < i - 1 && stage_at(s0, evs, j) == StageView::ExtractPending && evs[j]
                == (EventView::ExtractDone { rows: Some(rows) });
        assert(0 <= j < i && stage_at(s0, evs, j) == StageView::ExtractPending && evs[j]
            == (EventView::ExtractDone { rows: Some(rows) }));
    } else {
        assert(prev == StageView::ExtractPending);
        assert(stage_at(s0, evs, i - 1) == StageView::ExtractPending && evs[i - 1]
            == (EventView::ExtractDone { rows: Some(rows) }));
    }
}

/// The submission is built only from extraction data captured before the
/// cleanup: a stage that requests the submission carries exactly the rows
/// that the extraction query returned earlier, whatever the cleanup reported
/// in between.
pub proof fn lemma_submission_data_from_extraction(
    s0: StageView,
    evs: Seq<EventView>,
    i: int,
    rows: Seq<Seq<char>>,
)
    requires
        0 <= i <= evs.len(),
        s0 == StageView::FetchPending,
        stage_at(s0, evs, i) == (StageView::SubmitPending { rows }),
    ensures
        exists|j: int|
            0 <= j < i && stage_at(s0, evs, j) == StageView::ExtractPending && evs[j]
                == (EventView::ExtractDone { rows: Some(rows) }),
    decreases i,
{
    assert(evs.take(0) =~= Seq::<EventView>::empty());
    lemma_stage_at_unfold(s0, evs, i);
    let prev = stage_at(s0, evs, i - 1);
    if prev == (StageView::SubmitPending { rows }) {
        lemma_submission_data_from_extraction(s0, evs, i - 1, rows);
        let j = choose|j: int|
            0 <= j < i - 1 && stage_at(s0, evs, j) == StageView::ExtractPending && evs[j]
                == (EventView::ExtractDone { rows: Some(rows) });
        assert(0 <= j < i && stage_at(s0, evs, j) == StageView::ExtractPending && evs[j]
            == (EventView::ExtractDone { rows: Some(rows) }));
    } else {
        assert(prev == (StageView::CleanupPending { rows }));
        lemma_cleanup_follows_extraction(s0, evs, i - 1, rows);
        let j = choose|j: int|
            0 <= j < i - 1 && stage_at(s0, evs, j) == StageView::ExtractPending && evs[j]
                == (EventView::ExtractDone { rows: Some(rows) });
        assert(0 <= j < i && stage_at(s0, evs, j) == StageView::ExtractPending && evs[j]
            == (EventView::ExtractDone { rows: Some(rows) }));
    }
}

} // verus!
