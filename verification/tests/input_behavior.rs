use mailmigrate::input::{jobs_from_rows, load_jobs, InputError};
use mailmigrate::job::MigrationJob;
use mailmigrate::runner::Runner;
use mailmigrate::job::RunConfig;

fn row(fields: &[&str]) -> Vec<String> {
    fields.iter().map(|f| String::from(*f)).collect()
}

#[test]
fn csv_bytes_become_jobs_in_row_order() {
    let bytes: Vec<u8> =
        b"a@x,SECRET-REDACTED,a@y,SECRET-REDACTED\nb@x,SECRET-REDACTED,b@y,SECRET-REDACTED\n"
            .to_vec();
    let jobs = load_jobs(&bytes).expect("both rows are complete");
    assert_eq!(jobs.len(), 2);
    assert_eq!(jobs[0].old_email, "a@x");
    assert_eq!(jobs[0].new_email, "a@y");
    assert_eq!(jobs[1].old_email, "b@x");
    assert_eq!(jobs[1].new_email, "b@y");
}

#[test]
fn first_row_is_data_not_a_header() {
    let bytes: Vec<u8> = b"old_email,old_password,new_email,new_password\nu@x,pw,u@y,pw\n".to_vec();
    let jobs = load_jobs(&bytes).expect("both rows parse");
    assert_eq!(jobs.len(), 2);
    assert_eq!(jobs[0].old_email, "old_email");
    assert_eq!(jobs[1].old_email, "u@x");
}

#[test]
fn short_row_aborts_before_any_job_runs() {
    // A row with only 3 fields fails the whole operation: no job list exists,
    // so no runner is built and no external process is ever invoked.
    let bytes: Vec<u8> = b"a@x,pw,a@y\nb@x,pw,b@y\n".to_vec();
    match load_jobs(&bytes) {
        Err(InputError::ShortRow(index)) => assert_eq!(index, 0),
        other => panic!("expected a short-row error, got {:?}", other),
    }
}

#[test]
fn error_names_the_first_short_row() {
    let rows = vec![
        row(&["a@x", "pw", "a@y", "pw"]),
        row(&["b@x", "pw", "b@y"]),
        row(&["c@x", "pw"]),
    ];
    assert!(matches!(jobs_from_rows(&rows), Err(InputError::ShortRow(1))));
}

#[test]
fn extra_fields_beyond_four_are_tolerated() {
    let rows = vec![row(&["a@x", "pw", "a@y", "pw", "note", "more"])];
    let jobs = jobs_from_rows(&rows).expect("first four fields suffice");
    assert_eq!(jobs.len(), 1);
    assert_eq!(jobs[0].old_email, "a@x");
    assert_eq!(jobs[0].old_password, "pw");
    assert_eq!(jobs[0].new_email, "a@y");
    assert_eq!(jobs[0].new_password, "pw");
}

#[test]
fn empty_input_yields_an_empty_job_list() {
    let jobs = load_jobs(&Vec::new()).expect("no rows, no failure");
    assert_eq!(jobs.len(), 0);
}

#[test]
fn unparseable_row_structure_is_a_structure_error() {
    // Default CSV parsing rejects rows whose field counts disagree.
    let bytes: Vec<u8> = b"a@x,pw,a@y,pw\nb@x,pw,b@y,pw,extra\n".to_vec();
    assert!(matches!(load_jobs(&bytes), Err(InputError::Structure)));
}

#[test]
fn duplicate_rows_are_kept_not_deduplicated() {
    let rows = vec![row(&["a@x", "pw", "a@y", "pw"]), row(&["a@x", "pw", "a@y", "pw"])];
    let jobs = jobs_from_rows(&rows).expect("duplicates are legal");
    assert_eq!(jobs.len(), 2);
    assert_eq!(jobs[0].old_email, jobs[1].old_email);
}

#[test]
fn loaded_jobs_drive_a_full_run() {
    let bytes: Vec<u8> = b"a@x,pw,a@y,pw\nb@x,pw,b@y,pw\nc@x,pw,c@y,pw\n".to_vec();
    let jobs: Vec<MigrationJob> = load_jobs(&bytes).expect("all rows complete");
    let config = RunConfig {
        old_host: String::from("h1"),
        new_host: String::from("h2"),
        concurrency: 2,
    };
    let mut runner = Runner::new(jobs, config);
    while !runner.is_done() {
        while runner.try_start().is_some() {}
        runner.complete(0, true, None);
    }
    assert_eq!(runner.outcome_count(), 3);
}
