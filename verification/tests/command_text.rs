use mailmigrate::command::{build_command, completion_line, outcome_line, start_line};
use mailmigrate::job::{JobOutcome, MigrationJob, RunConfig};
use mailmigrate::limits::{default_concurrency, derive_concurrency};

fn job() -> MigrationJob {
    MigrationJob {
        old_email: String::from("alice@old.example"),
        old_password: String::from("SECRET-REDACTED"),
        new_email: String::from("alice@new.example"),
        new_password: String::from("SECRET-REDACTED"),
    }
}

fn config() -> RunConfig {
    RunConfig {
        old_host: String::from("imap.old.example"),
        new_host: String::from("imap.new.example"),
        concurrency: 1,
    }
}

#[test]
fn command_interpolates_the_fixed_template() {
    let command = build_command(&config(), &job());
    assert_eq!(
        command,
        "imapsync --host1 imap.old.example --user1 alice@old.example \
         --password1 SECRET-REDACTED --host2 imap.new.example \
         --user2 alice@new.example --password2 SECRET-REDACTED --ssl1 --noid"
    );
}

#[test]
fn start_line_names_both_mailboxes() {
    assert_eq!(
        start_line(&job()),
        "Migrating alice@old.example to alice@new.example"
    );
}

#[test]
fn success_line_names_the_old_mailbox() {
    let outcome = JobOutcome { job: job(), success: true, diagnostic: None };
    assert_eq!(outcome_line(&outcome), "Successfully migrated alice@old.example");
}

#[test]
fn failure_line_carries_the_diagnostic() {
    let outcome = JobOutcome {
        job: job(),
        success: false,
        diagnostic: Some(String::from("LOGIN failed")),
    };
    assert_eq!(
        outcome_line(&outcome),
        "Error migrating alice@old.example: LOGIN failed"
    );
}

#[test]
fn failure_line_without_diagnostic_ends_after_the_colon() {
    let outcome = JobOutcome { job: job(), success: false, diagnostic: None };
    assert_eq!(outcome_line(&outcome), "Error migrating alice@old.example: ");
}

#[test]
fn completion_line_is_fixed() {
    assert_eq!(completion_line(), "Migration complete.");
}

#[test]
fn concurrency_is_clamped_to_at_least_one() {
    // A quarter of 1, 2 or 3 CPUs would be zero; the heuristic clamps it.
    assert_eq!(derive_concurrency(1), 1);
    assert_eq!(derive_concurrency(2), 1);
    assert_eq!(derive_concurrency(3), 1);
    assert_eq!(derive_concurrency(4), 1);
    assert_eq!(derive_concurrency(8), 2);
    assert_eq!(derive_concurrency(17), 4);
    assert_eq!(derive_concurrency(0), 1);
}

#[test]
fn host_derived_concurrency_is_positive() {
    // Whatever CPU count this machine reports, the cap is at least 1.
    assert!(default_concurrency() >= 1);
}
