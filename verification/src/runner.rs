use vstd::prelude::*;
use vstd::multiset::Multiset;

use crate::command::{build_command, spec_command};
use crate::input::jobs_match_rows;
use crate::job::{
    job_views, ConfigView, JobOutcome, JobView, MigrationJob, OutcomeView, RunConfig,
    diagnostic_view,
};

verus! {

broadcast use
    vstd::multiset::group_multiset_axioms,
    vstd::multiset::lemma_multiset_empty_len,
    vstd::seq_lib::group_to_multiset_ensures,
;

/// The jobs of a sequence of outcomes, in recording order.
pub open spec fn outcome_jobs(s: Seq<OutcomeView>) -> Seq<JobView> {
    s.map_values(|o: OutcomeView| o.job)
}

/// The jobs a sequence of in-flight indices points at.
pub open spec fn flight_jobs(fl: Seq<usize>, jobs: Seq<JobView>) -> Seq<JobView> {
    fl.map_values(|k: usize| jobs[k as int])
}

/// Mathematical state of a run: the job list and configuration it was built
/// from, how many jobs have been dispatched so far, which dispatched jobs are
/// still waiting for their external process, and the outcomes recorded so far.
#[verifier::ext_equal]
pub struct RunnerView {
    pub jobs: Seq<JobView>,
    pub config: ConfigView,
    pub started: usize,
    pub in_flight: Seq<usize>,
    pub outcomes: Seq<OutcomeView>,
}

impl RunnerView {
    /// The runner's invariant, established by `Runner::new` and preserved by
    /// every step: jobs are dispatched in order and never beyond the list; a
    /// dispatched job is either in flight or recorded, never both and never
    /// twice; and no more jobs are in flight than the concurrency cap allows.
    pub open spec fn well_formed(self) -> bool {
        &&& self.config.concurrency >= 1
        &&& self.jobs.len() <= usize::MAX
        &&& self.started <= self.jobs.len()
        &&& self.in_flight.len() + self.outcomes.len() == self.started
        &&& self.in_flight.len() <= self.config.concurrency
        &&& forall|i: int|
            0 <= i < self.in_flight.len() ==> #[trigger] self.in_flight[i] < self.started
        &&& outcome_jobs(self.outcomes).to_multiset().add(
            flight_jobs(self.in_flight, self.jobs).to_multiset(),
        ) == self.jobs.take(self.started as int).to_multiset()
    }

    /// A further job may be dispatched now: one is left, and a slot is free.
    pub open spec fn can_start(self) -> bool {
        self.started < self.jobs.len() && self.in_flight.len() < self.config.concurrency
    }

    /// The state after dispatching the next job in submission order.
    pub open spec fn start_one(self) -> RunnerView
        recommends
            self.can_start(),
    {
        RunnerView {
            jobs: self.jobs,
            config: self.config,
            started: (self.started + 1) as usize,
            in_flight: self.in_flight.push(self.started),
            outcomes: self.outcomes,
        }
    }

    /// The state after the in-flight job at `slot` finishes with the given
    /// result: its slot is freed and its outcome recorded. The scheduling
    /// components of the state do not depend on `success` or `diagnostic`.
    pub open spec fn complete_one(
        self,
        slot: int,
        success: bool,
        diagnostic: Option<Seq<char>>,
    ) -> RunnerView
        recommends
            0 <= slot < self.in_flight.len(),
            self.in_flight[slot] < self.jobs.len(),
    {
        RunnerView {
            jobs: self.jobs,
            config: self.config,
            started: self.started,
            in_flight: self.in_flight.remove(slot),
            outcomes: self.outcomes.push(
                OutcomeView { job: self.jobs[self.in_flight[slot] as int], success, diagnostic },
            ),
        }
    }
}

/// The bounded job runner's state. It dispatches the jobs of its list in
/// submission order, never letting more than the configured concurrency cap be
/// in flight at once, and records exactly one outcome per dispatched job. The
/// caller performs the external-process work between `try_start` and
/// `complete`; every scheduling decision is made here.
pub struct Runner {
    jobs: Vec<MigrationJob>,
    config: RunConfig,
    next_to_start: usize,
    in_flight: Vec<usize>,
    outcomes: Vec<JobOutcome>,
}

impl View for Runner {
    type V = RunnerView;

    closed spec fn view(&self) -> RunnerView {
        RunnerView {
            jobs: job_views(self.jobs@),
            config: self.config@,
            started: self.next_to_start,
            in_flight: self.in_flight@,
            outcomes: self.outcomes@.map_values(|o: JobOutcome| o@),
        }
    }
}

impl Runner {
    /// A fresh run over the given jobs: nothing dispatched, nothing in flight,
    /// no outcome recorded. The configuration must grant at least one slot.
    pub fn new(jobs: Vec<MigrationJob>, config: RunConfig) -> (r: Runner)
        requires
            config@.concurrency >= 1,
        ensures
            r@.well_formed(),
            r@.jobs == job_views(jobs@),
            r@.config == config@,
            r@.started == 0,
            r@.in_flight == Seq::<usize>::empty(),
            r@.outcomes == Seq::<OutcomeView>::empty(),
    {
        let job_count = jobs.len();
        let r = Runner {
            jobs,
            config,
            next_to_start: 0,
            in_flight: Vec::new(),
            outcomes: Vec::new(),
        };
        proof {
            assert(r@.jobs.len() == job_count);
            assert(r@.in_flight =~= Seq::<usize>::empty());
            assert(r@.outcomes =~= Seq::<OutcomeView>::empty());
            assert(outcome_jobs(r@.outcomes) =~= Seq::<JobView>::empty());
            assert(flight_jobs(r@.in_flight, r@.jobs) =~= Seq::<JobView>::empty());
            assert(r@.jobs.take(0) =~= Seq::<JobView>::empty());
            assert(Seq::<JobView>::empty().to_multiset().len() == 0);
            assert(outcome_jobs(r@.outcomes).to_multiset().add(
                flight_jobs(r@.in_flight, r@.jobs).to_multiset(),
            ) =~= r@.jobs.take(r@.started as int).to_multiset());
        }
        r
    }

    /// Dispatches the next job if both a job and a concurrency slot are free,
    /// and says which job it was; otherwise changes nothing. A `Some` answer
    /// is owed exactly when `can_start` holds of the state before the call.
    pub fn try_start(&mut self) -> (r: Option<usize>)
        requires
            old(self)@.well_formed(),
        ensures
            final(self)@.well_formed(),
            old(self)@.can_start() ==> {
                &&& r == Some(old(self)@.started)
                &&& final(self)@ == old(self)@.start_one()
            },
            !old(self)@.can_start() ==> {
                &&& r is None
                &&& final(self)@ == old(self)@
            },
    {
        if self.next_to_start < self.jobs.len() && self.in_flight.len() < self.config.concurrency
        {
            let ghost pre = self@;
            let idx = self.next_to_start;
            self.in_flight.push(idx);
            self.next_to_start = idx + 1;
            proof {
                assert(self@ =~= pre.start_one());
                Self::lemma_start_one_well_formed(pre);
            }
            Some(idx)
        } else {
            None
        }
    }

    proof fn lemma_start_one_well_formed(v: RunnerView)
        requires
            v.well_formed(),
            v.can_start(),
        ensures
            v.start_one().well_formed(),
    {
        let w = v.start_one();
        let x = v.jobs[v.started as int];
        assert(flight_jobs(w.in_flight, w.jobs) =~= flight_jobs(v.in_flight, v.jobs).push(x));
        assert(w.jobs.take(w.started as int) =~= v.jobs.take(v.started as int).push(x));
        assert(flight_jobs(v.in_flight, v.jobs).push(x).to_multiset() =~= flight_jobs(
            v.in_flight,
            v.jobs,
        ).to_multiset().insert(x));
        assert(outcome_jobs(w.outcomes).to_multiset().add(
            flight_jobs(w.in_flight, w.jobs).to_multiset(),
        ) =~= w.jobs.take(w.started as int).to_multiset());
    }

    /// Records the result of the in-flight job at `slot`: frees its slot and
    /// appends its outcome. Which slots are in flight afterwards, and how many
    /// jobs were dispatched, never depend on whether the job succeeded.
    pub fn complete(&mut self, slot: usize, success: bool, diagnostic: Option<String>)
        requires
            old(self)@.well_formed(),
            slot < old(self)@.in_flight.len(),
        ensures
            final(self)@.well_formed(),
            final(self)@ == old(self)@.complete_one(
                slot as int,
                success,
                diagnostic_view(diagnostic),
            ),
    {
        let ghost pre = self@;
        let idx = self.in_flight[slot];
        proof {
            assert(pre.in_flight[slot as int] < pre.started);
            assert(idx < self.jobs.len());
        }
        let job = self.jobs[idx].clone();
        let outcome = JobOutcome { job, success, diagnostic };
        self.outcomes.push(outcome);
        self.in_flight.remove(slot);
        proof {
            assert(self@.outcomes =~= pre.outcomes.push(
                OutcomeView {
                    job: pre.jobs[pre.in_flight[slot as int] as int],
                    success: success,
                    diagnostic: diagnostic_view(diagnostic),
                },
            ));
            assert(self@ =~= pre.complete_one(slot as int, success, diagnostic_view(diagnostic)));
            Self::lemma_complete_one_well_formed(
                pre,
                slot as int,
                success,
                diagnostic_view(diagnostic),
            );
        }
    }

    proof fn lemma_complete_one_well_formed(
        v: RunnerView,
        slot: int,
        success: bool,
        diagnostic: Option<Seq<char>>,
    )
        requires
            v.well_formed(),
            0 <= slot < v.in_flight.len(),
        ensures
            v.complete_one(slot, success, diagnostic).well_formed(),
    {
        let w = v.complete_one(slot, success, diagnostic);
        let x = v.jobs[v.in_flight[slot] as int];
        let out_ms = outcome_jobs(v.outcomes).to_multiset();
        let fl = flight_jobs(v.in_flight, v.jobs);
        assert(fl[slot] == x);
        assert(fl.contains(x));
        assert(fl.to_multiset().count(x) > 0);
        assert(outcome_jobs(w.outcomes) =~= outcome_jobs(v.outcomes).push(x));
        assert(outcome_jobs(w.outcomes).to_multiset() =~= out_ms.insert(x));
        assert(flight_jobs(w.in_flight, w.jobs) =~= fl.remove(slot));
        assert(fl.remove(slot).to_multiset() == fl.to_multiset().remove(x));
        assert forall|e: JobView|
            out_ms.insert(x).add(fl.to_multiset().remove(x)).count(e) == out_ms.add(
                fl.to_multiset(),
            ).count(e) by {
            if e == x {
                assert(fl.to_multiset().count(x) >= 1);
            }
        }
        assert(out_ms.insert(x).add(fl.to_multiset().remove(x)) =~= out_ms.add(fl.to_multiset()));
        assert(outcome_jobs(w.outcomes).to_multiset().add(
            flight_jobs(w.in_flight, w.jobs).to_multiset(),
        ) == w.jobs.take(w.started as int).to_multiset());
    }

    /// Every outcome has been recorded: the run is over.
    pub fn is_done(&self) -> (r: bool)
        ensures
            r == (self@.outcomes.len() == self@.jobs.len()),
    {
        self.outcomes.len() == self.jobs.len()
    }

    /// How many jobs the run was given.
    pub fn total_jobs(&self) -> (n: usize)
        ensures
            n == self@.jobs.len(),
    {
        self.jobs.len()
    }

    /// How many jobs are dispatched and still waiting for their process.
    pub fn active_count(&self) -> (n: usize)
        ensures
            n == self@.in_flight.len(),
    {
        self.in_flight.len()
    }

    /// How many outcomes have been recorded so far.
    pub fn outcome_count(&self) -> (n: usize)
        ensures
            n == self@.outcomes.len(),
    {
        self.outcomes.len()
    }

    /// The job at the given position of the submission order.
    pub fn job(&self, i: usize) -> (j: &MigrationJob)
        requires
            i < self@.jobs.len(),
        ensures
            j@ == self@.jobs[i as int],
    {
        &self.jobs[i]
    }

    /// The submission index of the in-flight job filed at `slot`.
    pub fn active_job(&self, slot: usize) -> (i: usize)
        requires
            slot < self@.in_flight.len(),
        ensures
            i == self@.in_flight[slot as int],
    {
        self.in_flight[slot]
    }

    /// The outcome recorded at the given position of the completion order.
    pub fn outcome(&self, i: usize) -> (o: &JobOutcome)
        requires
            i < self@.outcomes.len(),
        ensures
            o@ == self@.outcomes[i as int],
    {
        &self.outcomes[i]
    }

    /// The run's configuration.
    pub fn config(&self) -> (c: &RunConfig)
        ensures
            c@ == self@.config,
    {
        &self.config
    }

    /// The shell command line for the job at the given position.
    pub fn command_for(&self, i: usize) -> (r: String)
        requires
            i < self@.jobs.len(),
        ensures
            r@ == spec_command(self@.config, self@.jobs[i as int]),
    {
        build_command(&self.config, &self.jobs[i])
    }
}

/// Law: recorded outcomes never influence scheduling. In particular, a job
/// whose external process exited non-zero blocks nobody: completing the same
/// in-flight job of the same state twice — once reporting failure, once
/// reporting success, with any diagnostics — yields states that agree on every
/// scheduling component, and so admit exactly the same further starts.
pub proof fn lemma_failed_job_does_not_block(
    v: RunnerView,
    slot: int,
    d1: Option<Seq<char>>,
    d2: Option<Seq<char>>,
)
    requires
        v.well_formed(),
        0 <= slot < v.in_flight.len(),
    ensures
        ({
            let after_failure = v.complete_one(slot, false, d1);
            let after_success = v.complete_one(slot, true, d2);
            &&& after_failure.jobs == after_success.jobs
            &&& after_failure.config == after_success.config
            &&& after_failure.started == after_success.started
            &&& after_failure.in_flight == after_success.in_flight
            &&& after_failure.can_start() == after_success.can_start()
            &&& after_failure.well_formed()
            &&& after_success.well_formed()
        }),
{
    Runner::lemma_complete_one_well_formed(v, slot, false, d1);
    Runner::lemma_complete_one_well_formed(v, slot, true, d2);
}

/// Law: a finished run accounts for every job exactly once. When as many
/// outcomes are recorded as jobs were given, nothing is left in flight, every
/// job was dispatched, and the recorded outcomes' jobs are exactly the input
/// jobs — one outcome per job, duplicates included.
pub proof fn lemma_done_accounts_for_every_job(v: RunnerView)
    requires
        v.well_formed(),
        v.outcomes.len() == v.jobs.len(),
    ensures
        v.in_flight.len() == 0,
        v.started == v.jobs.len(),
        outcome_jobs(v.outcomes).to_multiset() == v.jobs.to_multiset(),
{
    assert(v.jobs.take(v.started as int) =~= v.jobs);
    let out_ms = outcome_jobs(v.outcomes).to_multiset();
    let fl_ms = flight_jobs(v.in_flight, v.jobs).to_multiset();
    assert(flight_jobs(v.in_flight, v.jobs).len() == 0);
    assert(fl_ms =~= Multiset::<JobView>::empty());
    assert(out_ms.add(fl_ms) =~= out_ms);
}

/// Law: an input of N rows yields exactly N outcomes. For a job list built
/// from N complete rows — one job per row, as the job source guarantees — a
/// finished run holds exactly N recorded outcomes, however N compares to the
/// concurrency cap, and their jobs are exactly the rows' jobs.
pub proof fn lemma_n_rows_give_n_outcomes(rows: Seq<Seq<Seq<char>>>, v: RunnerView)
    requires
        jobs_match_rows(rows, v.jobs),
        v.well_formed(),
        v.outcomes.len() == v.jobs.len(),
    ensures
        v.outcomes.len() == rows.len(),
        outcome_jobs(v.outcomes).to_multiset() == v.jobs.to_multiset(),
{
    lemma_done_accounts_for_every_job(v);
}

/// Law: a well-formed run that is not finished can always make progress —
/// either a further job may start, or one is in flight whose completion will
/// free a slot. This is what a concurrency cap of at least 1 buys: with a cap
/// of 0, a state with pending jobs and nothing in flight could start nothing.
pub proof fn lemma_no_deadlock(v: RunnerView)
    requires
        v.well_formed(),
        v.outcomes.len() < v.jobs.len(),
    ensures
        v.can_start() || v.in_flight.len() > 0,
{
}

/// Law: at no well-formed state are more jobs in flight than the cap allows.
pub proof fn lemma_active_bounded(v: RunnerView)
    requires
        v.well_formed(),
    ensures
        v.in_flight.len() <= v.config.concurrency,
{
}

} // verus!
