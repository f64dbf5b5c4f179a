use vstd::prelude::*;

verus! {

/// One account-pair migration request: the credentials of the mailbox to copy
/// from and the credentials of the mailbox to copy into.
#[derive(Debug)]
pub struct MigrationJob {
    pub old_email: String,
    pub old_password: String,
    pub new_email: String,
    pub new_password: String,
}

/// Mathematical value of a `MigrationJob`: the four credential fields as
/// character sequences.
#[verifier::ext_equal]
pub struct JobView {
    pub old_email: Seq<char>,
    pub old_password: Seq<char>,
    pub new_email: Seq<char>,
    pub new_password: Seq<char>,
}

impl View for MigrationJob {
    type V = JobView;

    open spec fn view(&self) -> JobView {
        JobView {
            old_email: self.old_email@,
            old_password: self.old_password@,
            new_email: self.new_email@,
            new_password: self.new_password@,
        }
    }
}

impl DeepView for MigrationJob {
    type V = JobView;

    open spec fn deep_view(&self) -> JobView {
        self.view()
    }
}

impl Clone for MigrationJob {
    fn clone(&self) -> (r: Self)
        ensures
            r@ == self@,
    {
        MigrationJob {
            old_email: self.old_email.clone(),
            old_password: self.old_password.clone(),
            new_email: self.new_email.clone(),
            new_password: self.new_password.clone(),
        }
    }
}

/// The views of a sequence of jobs, element by element.
pub open spec fn job_views(s: Seq<MigrationJob>) -> Seq<JobView> {
    s.map_values(|j: MigrationJob| j@)
}

/// Configuration shared read-only by a whole run: the two hosts and the cap on
/// simultaneously active migrations.
#[derive(Debug)]
pub struct RunConfig {
    pub old_host: String,
    pub new_host: String,
    pub concurrency: usize,
}

/// Mathematical value of a `RunConfig`.
#[verifier::ext_equal]
pub struct ConfigView {
    pub old_host: Seq<char>,
    pub new_host: Seq<char>,
    pub concurrency: usize,
}

impl View for RunConfig {
    type V = ConfigView;

    open spec fn view(&self) -> ConfigView {
        ConfigView {
            old_host: self.old_host@,
            new_host: self.new_host@,
            concurrency: self.concurrency,
        }
    }
}

impl RunConfig {
    /// A configuration is usable only with at least one concurrency slot;
    /// a cap of zero would let no job ever start.
    pub open spec fn well_formed(self) -> bool {
        self.concurrency >= 1
    }
}

/// The result of one finished job: the job itself, whether its external
/// process exited successfully, and the captured diagnostic text on failure.
#[derive(Debug)]
pub struct JobOutcome {
    pub job: MigrationJob,
    pub success: bool,
    pub diagnostic: Option<String>,
}

/// Mathematical value of a `JobOutcome`.
#[verifier::ext_equal]
pub struct OutcomeView {
    pub job: JobView,
    pub success: bool,
    pub diagnostic: Option<Seq<char>>,
}

impl View for JobOutcome {
    type V = OutcomeView;

    open spec fn view(&self) -> OutcomeView {
        OutcomeView {
            job: self.job@,
            success: self.success,
            diagnostic: match self.diagnostic {
                Some(d) => Some(d@),
                None => None,
            },
        }
    }
}

/// The views of a sequence of outcomes, element by element.
pub open spec fn outcome_views(s: Seq<JobOutcome>) -> Seq<OutcomeView> {
    s.map_values(|o: JobOutcome| o@)
}

/// The view of an optional diagnostic text.
pub open spec fn diagnostic_view(d: Option<String>) -> Option<Seq<char>> {
    match d {
        Some(s) => Some(s@),
        None => None,
    }
}

} // verus!
