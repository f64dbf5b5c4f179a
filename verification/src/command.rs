use vstd::prelude::*;
use vstd::string::StringExecFns;

use crate::job::{ConfigView, JobOutcome, JobView, MigrationJob, OutcomeView, RunConfig};

verus! {

/// The exact command line handed to the shell for one job: the fixed
/// synchronization-tool template with the two hosts and the job's four
/// credential fields interpolated.
pub open spec fn spec_command(c: ConfigView, j: JobView) -> Seq<char> {
    "imapsync --host1 "@ + c.old_host + " --user1 "@ + j.old_email + " --password1 "@
        + j.old_password + " --host2 "@ + c.new_host + " --user2 "@ + j.new_email
        + " --password2 "@ + j.new_password + " --ssl1 --noid"@
}

/// Builds the shell command line for one job, exactly as `spec_command` states.
pub fn build_command(config: &RunConfig, job: &MigrationJob) -> (r: String)
    ensures
        r@ == spec_command(config@, job@),
{
    let r = String::new()
        .concat("imapsync --host1 ")
        .concat(config.old_host.as_str())
        .concat(" --user1 ")
        .concat(job.old_email.as_str())
        .concat(" --password1 ")
        .concat(job.old_password.as_str())
        .concat(" --host2 ")
        .concat(config.new_host.as_str())
        .concat(" --user2 ")
        .concat(job.new_email.as_str())
        .concat(" --password2 ")
        .concat(job.new_password.as_str())
        .concat(" --ssl1 --noid");
    proof {
        assert(r@ =~= spec_command(config@, job@));
    }
    r
}

/// The console line announcing that a job is being dispatched.
pub open spec fn spec_start_line(j: JobView) -> Seq<char> {
    "Migrating "@ + j.old_email + " to "@ + j.new_email
}

pub fn start_line(job: &MigrationJob) -> (r: String)
    ensures
        r@ == spec_start_line(job@),
{
    let r = String::new()
        .concat("Migrating ")
        .concat(job.old_email.as_str())
        .concat(" to ")
        .concat(job.new_email.as_str());
    proof {
        assert(r@ =~= spec_start_line(job@));
    }
    r
}

/// The console line reporting one finished job: a success line naming the old
/// mailbox, or a failure line naming it together with the captured diagnostic.
pub open spec fn spec_outcome_line(o: OutcomeView) -> Seq<char> {
    if o.success {
        "Successfully migrated "@ + o.job.old_email
    } else {
        "Error migrating "@ + o.job.old_email + ": "@ + (match o.diagnostic {
            Some(d) => d,
            None => ""@,
        })
    }
}

pub fn outcome_line(outcome: &JobOutcome) -> (r: String)
    ensures
        r@ == spec_outcome_line(outcome@),
{
    if outcome.success {
        let r = String::new()
            .concat("Successfully migrated ")
            .concat(outcome.job.old_email.as_str());
        proof {
            assert(r@ =~= spec_outcome_line(outcome@));
        }
        r
    } else {
        let head = String::new()
            .concat("Error migrating ")
            .concat(outcome.job.old_email.as_str())
            .concat(": ");
        let r = match &outcome.diagnostic {
            Some(d) => head.concat(d.as_str()),
            None => head,
        };
        proof {
            reveal_strlit("");
            assert(r@ =~= spec_outcome_line(outcome@));
        }
        r
    }
}

/// The console line printed once after every job has completed.
pub fn completion_line() -> (r: String)
    ensures
        r@ == "Migration complete."@,
{
    String::from_str("Migration complete.")
}

} // verus!
