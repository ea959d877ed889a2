use backup_restore::payload::encode_for_transport;
use backup_restore::pipeline::{step, Event, Outcome, Stage};
use backup_restore::submission::build_submission;

/// A test double for the database: it holds the rows of the known table and
/// records every call, so a run's order of operations can be observed.
struct FakeDb {
    table: Option<Vec<(String, String)>>,
    calls: Vec<&'static str>,
}

impl FakeDb {
    fn new(rows: Vec<(&str, &str)>) -> FakeDb {
        FakeDb {
            table: Some(
                rows.into_iter().map(|(s, st)| (s.to_string(), st.to_string())).collect(),
            ),
            calls: Vec::new(),
        }
    }

    /// The extraction query: the identifiers of the rows whose status is the
    /// live marker, in table order.
    fn query_alive(&mut self) -> Option<Vec<String>> {
        self.calls.push("extract");
        self.table.as_ref().map(|rows| {
            rows.iter().filter(|(_, st)| st == "alive").map(|(ssn, _)| ssn.clone()).collect()
        })
    }

    /// The destructive cleanup statement: drops the table.
    fn drop_table(&mut self) -> bool {
        self.calls.push("cleanup");
        self.table.take().is_some()
    }
}

/// Drives the state machine against the test double, simulating a fetch body,
/// a restore signal, and a submission sink. Returns the outcome and the
/// submitted payload, if a submission happened.
fn drive(body: Option<String>, restore_ok: bool, db: &mut FakeDb) -> (Outcome, Option<String>) {
    let mut stage = Stage::FetchPending;
    let mut submitted: Option<String> = None;
    let mut fuel = 0;
    loop {
        fuel += 1;
        assert!(fuel < 20, "the run must terminate");
        let event = match &stage {
            Stage::FetchPending => Event::FetchDone { body: body.clone() },
            Stage::WritePending { .. } => Event::WriteDone { ok: true },
            Stage::RestorePending => Event::RestoreDone { ok: restore_ok },
            Stage::ExtractPending => Event::ExtractDone { rows: db.query_alive() },
            Stage::CleanupPending { .. } => Event::CleanupDone { ok: db.drop_table() },
            Stage::SubmitPending { rows } => {
                submitted = Some(build_submission(rows));
                Event::SubmitDone { ok: true }
            },
            Stage::Done { outcome } => {
                return (*outcome, submitted);
            },
        };
        stage = step(stage, event);
    }
}

fn fetch_body_for(sql: &str) -> String {
    let dump = encode_for_transport(sql);
    format!("{{\"dump\":\"{}\"}}", dump)
}

const SQL: &str = "CREATE TABLE public.criminal_records(ssn text, status text); INSERT ...";

#[test]
fn end_to_end_success_submits_the_alive_identifiers() {
    let mut db = FakeDb::new(vec![
        ("111-22-3333", "alive"),
        ("999-99-9999", "dead"),
        ("444-55-6666", "alive"),
    ]);
    let (outcome, submitted) = drive(Some(fetch_body_for(SQL)), true, &mut db);
    assert_eq!(outcome, Outcome::Success);
    assert_eq!(
        submitted.unwrap(),
        "{\"alive_ssns\":[\"111-22-3333\",\"444-55-6666\"]}"
    );
    // The table no longer exists after the run.
    assert!(db.table.is_none());
}

#[test]
fn cleanup_is_observed_strictly_after_extraction() {
    let mut db = FakeDb::new(vec![("111-22-3333", "alive")]);
    let (outcome, _) = drive(Some(fetch_body_for(SQL)), true, &mut db);
    assert_eq!(outcome, Outcome::Success);
    assert_eq!(db.calls, vec!["extract", "cleanup"]);
}

#[test]
fn decoded_script_reaches_the_write_stage_unchanged() {
    let stage = step(
        Stage::FetchPending,
        Event::FetchDone { body: Some(fetch_body_for(SQL)) },
    );
    match stage {
        Stage::WritePending { sql } => assert_eq!(sql, SQL),
        _ => panic!("a decodable fetch body must lead to the write stage"),
    }
}

#[test]
fn restore_failure_issues_no_query_cleanup_or_submission() {
    let mut db = FakeDb::new(vec![("111-22-3333", "alive")]);
    let (outcome, submitted) = drive(Some(fetch_body_for(SQL)), false, &mut db);
    assert_eq!(outcome, Outcome::FailedAtRestore);
    assert!(submitted.is_none());
    assert!(db.calls.is_empty());
    assert!(db.table.is_some());
}

#[test]
fn a_terminal_stage_absorbs_further_events() {
    let stage = step(Stage::RestorePending, Event::RestoreDone { ok: false });
    assert!(matches!(stage, Stage::Done { outcome: Outcome::FailedAtRestore }));
    let stage = step(stage, Event::ExtractDone { rows: Some(vec!["x".to_string()]) });
    assert!(matches!(stage, Stage::Done { outcome: Outcome::FailedAtRestore }));
}

#[test]
fn fetch_failure_ends_the_run_before_restore() {
    let mut db = FakeDb::new(vec![]);
    let (outcome, submitted) = drive(None, true, &mut db);
    assert_eq!(outcome, Outcome::FailedBeforeRestore);
    assert!(submitted.is_none());
    assert!(db.calls.is_empty());
}

#[test]
fn missing_dump_field_ends_the_run_before_restore() {
    let mut db = FakeDb::new(vec![]);
    let body = "{\"other\":\"value\"}".to_string();
    let (outcome, _) = drive(Some(body), true, &mut db);
    assert_eq!(outcome, Outcome::FailedBeforeRestore);
    assert!(db.calls.is_empty());
}

#[test]
fn malformed_response_json_ends_the_run_before_restore() {
    let mut db = FakeDb::new(vec![]);
    let (outcome, _) = drive(Some("not json".to_string()), true, &mut db);
    assert_eq!(outcome, Outcome::FailedBeforeRestore);
    assert!(db.calls.is_empty());
}

#[test]
fn undecodable_dump_ends_the_run_before_restore() {
    let mut db = FakeDb::new(vec![]);
    let body = "{\"dump\":\"!!! not base64 !!!\"}".to_string();
    let (outcome, _) = drive(Some(body), true, &mut db);
    assert_eq!(outcome, Outcome::FailedBeforeRestore);
    assert!(db.calls.is_empty());
}

#[test]
fn extraction_failure_ends_the_run_without_submission() {
    // A double whose table is already gone: the extraction query fails.
    let mut db = FakeDb::new(vec![]);
    db.table = None;
    let (outcome, submitted) = drive(Some(fetch_body_for(SQL)), true, &mut db);
    assert_eq!(outcome, Outcome::FailedAfterRestore);
    assert!(submitted.is_none());
    assert_eq!(db.calls, vec!["extract"]);
}

#[test]
fn cleanup_failure_is_nonfatal_and_submission_proceeds() {
    let stage = Stage::CleanupPending { rows: vec!["111-22-3333".to_string()] };
    let stage = step(stage, Event::CleanupDone { ok: false });
    match stage {
        Stage::SubmitPending { rows } => assert_eq!(rows, vec!["111-22-3333".to_string()]),
        _ => panic!("a cleanup failure must still lead to submission"),
    }
}

#[test]
fn submit_failure_ends_the_run_as_failed_after_restore() {
    let stage = Stage::SubmitPending { rows: vec![] };
    let stage = step(stage, Event::SubmitDone { ok: false });
    assert!(matches!(stage, Stage::Done { outcome: Outcome::FailedAfterRestore }));
}

#[test]
fn write_failure_ends_the_run_before_restore() {
    let stage = Stage::WritePending { sql: SQL.to_string() };
    let stage = step(stage, Event::WriteDone { ok: false });
    assert!(matches!(stage, Stage::Done { outcome: Outcome::FailedBeforeRestore }));
}
