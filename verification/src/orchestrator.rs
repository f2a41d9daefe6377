//! Per-account pipelines and the bounded fan-out scheduler.
//!
//! Each account runs one one-shot pipeline: assume the role, then, only on
//! success, execute the command; its terminal state is exactly one reported
//! outcome. Pipelines are independent: a failure is converted into an
//! outcome at the pipeline boundary and never surfaces as a run-level
//! failure. Only a failed account listing is fatal to the run.
use vstd::prelude::*;
use crate::aws::{active_pred, filter_active, Account, Aws, Credentials};
use crate::config::RunConfig;
use crate::exec::{exec, interpret_output_spec, shell_split, CommandOutput, ExecError, Spawner};

verus! {

/// The terminal result of one account's pipeline; produced exactly once,
/// never retried or mutated.
#[derive(Debug)]
pub enum PipelineOutcome {
    /// The command ran and exited zero; carries its captured output.
    Success { output: String },
    /// Role assumption failed; carries the identity exchange's diagnostic.
    RoleAssumptionFailed { diagnostic: String },
    /// The command could not run or exited non-zero; carries the diagnostic.
    ExecutionFailed { diagnostic: String },
}

/// One account's pipeline state. The pipeline is one-shot: no state is
/// revisited, and `Reported` is terminal.
#[derive(Debug)]
pub enum PipelineState {
    /// No external call has been made yet.
    Pending,
    /// The role assumption call is in flight.
    AssumeRole,
    /// Role assumption succeeded; command execution is next.
    Execute { credentials: Credentials },
    /// The pipeline has finished with exactly one outcome.
    Reported { outcome: PipelineOutcome },
}

/// The state a pipeline reaches when the role assumption call returns:
/// `Execute` carrying the credentials on success, `Reported` with the
/// diagnostic on failure — the execution stage is then never entered.
pub open spec fn step_assume_spec(r: Result<Credentials, String>) -> PipelineState {
    match r {
        Result::Ok(credentials) => PipelineState::Execute { credentials },
        Result::Err(d) => PipelineState::Reported {
            outcome: PipelineOutcome::RoleAssumptionFailed { diagnostic: d },
        },
    }
}

/// Advances a pipeline past the role assumption call.
pub fn step_assume(r: Result<Credentials, String>) -> (s: PipelineState)
    ensures
        s == step_assume_spec(r),
{
    match r {
        Result::Ok(credentials) => PipelineState::Execute { credentials },
        Result::Err(d) => PipelineState::Reported {
            outcome: PipelineOutcome::RoleAssumptionFailed { diagnostic: d },
        },
    }
}

/// The outcome a pipeline reports when the execution stage returns:
/// the captured output on success, else `ExecutionFailed` carrying the
/// executor's diagnostic.
pub open spec fn is_execute_outcome(r: Result<String, ExecError>, o: PipelineOutcome) -> bool {
    match r {
        Result::Ok(output) => o == PipelineOutcome::Success { output },
        Result::Err(e) => match o {
            PipelineOutcome::ExecutionFailed { diagnostic } => diagnostic@ == e.message_spec(),
            _ => false,
        },
    }
}

/// Turns the execution stage's result into the pipeline's terminal outcome.
pub fn step_execute(r: Result<String, ExecError>) -> (o: PipelineOutcome)
    ensures
        is_execute_outcome(r, o),
{
    match r {
        Result::Ok(output) => PipelineOutcome::Success { output },
        Result::Err(e) => PipelineOutcome::ExecutionFailed { diagnostic: e.message() },
    }
}

/// An outcome is consistent with the one-shot state machine run on the two
/// external results: a failed assumption reports directly, a successful one
/// reports whatever the execution stage produced.
pub open spec fn pipeline_consistent(
    ar: Result<Credentials, String>,
    er: Result<String, ExecError>,
    o: PipelineOutcome,
) -> bool {
    match ar {
        Result::Err(d) => o == PipelineOutcome::RoleAssumptionFailed { diagnostic: d },
        Result::Ok(_) => is_execute_outcome(er, o),
    }
}

/// Finishes one account's pipeline from the role assumption call's result.
/// A failed assumption reports `RoleAssumptionFailed` with that diagnostic
/// directly — the execution stage, and with it the spawner, is never
/// reached. A successful one runs the command and reports whatever the
/// execution stage produced.
pub fn pipeline_from_assume<S: Spawner>(
    spawner: &S,
    config: &RunConfig,
    account: &Account,
    ar: Result<Credentials, String>,
) -> (o: PipelineOutcome)
    ensures
        ar matches Err(d) ==> o == (PipelineOutcome::RoleAssumptionFailed { diagnostic: d }),
        ar is Ok ==> exists|er: Result<String, ExecError>| is_execute_outcome(er, o),
        ar is Ok && (shell_split(config.command_line@) is None || shell_split(
            config.command_line@,
        )->0.len() == 0) ==> match o {
            PipelineOutcome::ExecutionFailed { diagnostic } => diagnostic@ == "Empty command"@,
            _ => false,
        },
{
    let ghost gar = ar;
    match step_assume(ar) {
        PipelineState::Reported { outcome } => outcome,
        PipelineState::Execute { credentials } => {
            let er = exec(spawner, credentials, account.id.as_str(), config.command_line.as_str());
            let ghost ger = er;
            let o = step_execute(er);
            proof {
                assert(is_execute_outcome(ger, o));
            }
            o
        },
        // step_assume yields only Execute or Reported, so these arms are
        // provably unreachable
        PipelineState::Pending => {
            proof {
                assert(false);
            }
            PipelineOutcome::RoleAssumptionFailed { diagnostic: String::new() }
        },
        PipelineState::AssumeRole => {
            proof {
                assert(false);
            }
            PipelineOutcome::RoleAssumptionFailed { diagnostic: String::new() }
        },
    }
}

/// Runs one account's pipeline to its terminal outcome: assume the role,
/// then, only on success, execute the command. A failure at either stage is
/// captured as this pipeline's outcome and affects nothing else. What is
/// fixed for each value of the two port results stands in
/// `pipeline_from_assume`, `step_execute` and `interpret_output`.
pub fn run_pipeline<A: Aws, S: Spawner>(
    aws: &A,
    spawner: &S,
    config: &RunConfig,
    account: &Account,
) -> (o: PipelineOutcome)
    ensures
        exists|ar: Result<Credentials, String>, er: Result<String, ExecError>|
            pipeline_consistent(ar, er, o),
{
    let ar = aws.assume_role(account.id.clone(), config.role_name.clone());
    let ghost gar = ar;
    let o = pipeline_from_assume(spawner, config, account, ar);
    proof {
        if gar is Err {
            let er = Result::<String, ExecError>::Err(ExecError::EmptyCommand);
            assert(pipeline_consistent(gar, er, o));
        } else {
            let er = choose|er: Result<String, ExecError>| is_execute_outcome(er, o);
            assert(pipeline_consistent(gar, er, o));
        }
    }
    o
}

/// The concurrency ceiling: at most this many pipelines are ever in flight
/// at once.
pub const CONCURRENCY_LIMIT: usize = 8;

/// One account's report: the account and its terminal outcome.
#[derive(Debug)]
pub struct Report {
    pub account: Account,
    pub outcome: PipelineOutcome,
}

/// The bounded fan-out scheduler: admits only active accounts, launches each
/// exactly once, and never lets more than `CONCURRENCY_LIMIT` pipelines be
/// in flight simultaneously. Completion order is whatever the caller
/// observes; nothing here depends on it.
pub struct Scheduler {
    pending: Vec<Account>,
    in_flight: Vec<Account>,
    completed: Vec<Report>,
}

impl Scheduler {
    /// The accounts not yet launched, in arrival order.
    pub closed spec fn spec_pending(self) -> Seq<Account> {
        self.pending@
    }

    /// The accounts whose pipeline has an external call in flight.
    pub closed spec fn spec_in_flight(self) -> Seq<Account> {
        self.in_flight@
    }

    /// The reports of the pipelines that have completed, in completion order.
    pub closed spec fn spec_completed(self) -> Seq<Report> {
        self.completed@
    }

    /// The scheduler's invariant: the concurrency ceiling holds, and every
    /// account at any stage is active.
    pub open spec fn wf(self) -> bool {
        &&& self.spec_in_flight().len() <= CONCURRENCY_LIMIT
        &&& forall|i: int|
            0 <= i < self.spec_pending().len() ==> (#[trigger] self.spec_pending()[i]).is_active_spec()
        &&& forall|i: int|
            0 <= i < self.spec_in_flight().len() ==> (#[trigger] self.spec_in_flight()[i]).is_active_spec()
        &&& forall|i: int|
            0 <= i < self.spec_completed().len() ==> (#[trigger] self.spec_completed()[i]).account.is_active_spec()
    }

    /// Admits exactly the active accounts; nothing is in flight or completed
    /// yet.
    pub fn new(accounts: Vec<Account>) -> (s: Scheduler)
        ensures
            s.wf(),
            s.spec_pending() == accounts@.filter(active_pred()),
            s.spec_in_flight().len() == 0,
            s.spec_completed().len() == 0,
    {
        let pending = filter_active(accounts);
        proof {
            broadcast use vstd::seq_lib::group_filter_ensures;

            assert forall|i: int| 0 <= i < pending@.len() implies (#[trigger] pending@[i]).is_active_spec() by {
                assert(active_pred()(pending@[i]));
            }
        }
        Scheduler { pending, in_flight: Vec::new(), completed: Vec::new() }
    }

    /// How many accounts still wait for a slot.
    pub fn pending_len(&self) -> (n: usize)
        ensures
            n == self.spec_pending().len(),
    {
        self.pending.len()
    }

    /// How many pipelines are in flight right now.
    pub fn in_flight_len(&self) -> (n: usize)
        ensures
            n == self.spec_in_flight().len(),
    {
        self.in_flight.len()
    }

    /// Starts the next pipeline if one waits and a slot is free: the account
    /// handed out is active, and the ceiling is never exceeded.
    pub fn try_launch(&mut self) -> (r: Option<Account>)
        requires
            old(self).wf(),
        ensures
            final(self).wf(),
            final(self).spec_completed() == old(self).spec_completed(),
            old(self).spec_pending().len() == 0 || old(self).spec_in_flight().len()
                >= CONCURRENCY_LIMIT ==> r is None && *final(self) == *old(self),
            old(self).spec_pending().len() > 0 && old(self).spec_in_flight().len()
                < CONCURRENCY_LIMIT ==> {
                &&& r is Some
                &&& r->0 == old(self).spec_pending()[0]
                &&& r->0.is_active_spec()
                &&& final(self).spec_pending() == old(self).spec_pending().drop_first()
                &&& final(self).spec_in_flight() == old(self).spec_in_flight().push(
                    old(self).spec_pending()[0],
                )
            },
    {
        if self.pending.len() == 0 || self.in_flight.len() >= CONCURRENCY_LIMIT {
            return None;
        }
        let account = self.pending.remove(0);
        self.in_flight.push(account.clone());
        proof {
            assert(self.spec_pending() =~= old(self).spec_pending().drop_first());
        }
        Some(account)
    }

    /// Finds the slot of the first in-flight account with this id.
    pub fn find_in_flight(&self, id: &String) -> (r: Option<usize>)
        ensures
            r matches Some(slot) ==> slot < self.spec_in_flight().len()
                && self.spec_in_flight()[slot as int].id@ == id@ && forall|i: int|
                0 <= i < slot ==> (#[trigger] self.spec_in_flight()[i]).id@ != id@,
            r is None ==> forall|i: int|
                0 <= i < self.spec_in_flight().len() ==> (#[trigger] self.spec_in_flight()[i]).id@
                    != id@,
    {
        let mut i: usize = 0;
        while i < self.in_flight.len()
            invariant
                i <= self.spec_in_flight().len(),
                forall|j: int|
                    0 <= j < i ==> (#[trigger] self.spec_in_flight()[j]).id@ != id@,
            decreases self.spec_in_flight().len() - i,
        {
            if self.in_flight[i].id == *id {
                return Some(i);
            }
            i += 1;
        }
        None
    }

    /// Records the terminal outcome of the in-flight pipeline at `slot`,
    /// freeing its slot.
    pub fn complete(&mut self, slot: usize, outcome: PipelineOutcome)
        requires
            old(self).wf(),
            slot < old(self).spec_in_flight().len(),
        ensures
            final(self).wf(),
            final(self).spec_pending() == old(self).spec_pending(),
            final(self).spec_in_flight() == old(self).spec_in_flight().remove(slot as int),
            final(self).spec_completed() == old(self).spec_completed().push(
                Report { account: old(self).spec_in_flight()[slot as int], outcome },
            ),
    {
        let account = self.in_flight.remove(slot);
        self.completed.push(Report { account, outcome });
        proof {
            assert forall|i: int|
                0 <= i < self.spec_pending().len() implies (
            #[trigger] self.spec_pending()[i]).is_active_spec() by {
                assert(self.spec_pending()[i] == old(self).spec_pending()[i]);
            }
            assert forall|i: int|
                0 <= i < self.spec_in_flight().len() implies (
            #[trigger] self.spec_in_flight()[i]).is_active_spec() by {
                if i < slot {
                    assert(self.spec_in_flight()[i] == old(self).spec_in_flight()[i]);
                } else {
                    assert(self.spec_in_flight()[i] == old(self).spec_in_flight()[i + 1]);
                }
            }
            assert forall|i: int|
                0 <= i < self.spec_completed().len() implies (
            #[trigger] self.spec_completed()[i]).account.is_active_spec() by {
                if i < old(self).spec_completed().len() {
                    assert(self.spec_completed()[i] == old(self).spec_completed()[i]);
                } else {
                    assert(self.spec_completed()[i].account == old(self).spec_in_flight()[slot as int]);
                }
            }
        }
    }

    /// Surrenders the reports collected so far.
    pub fn into_reports(self) -> (r: Vec<Report>)
        ensures
            r@ == self.spec_completed(),
    {
        self.completed
    }
}

/// Begins a run from the directory listing's result. A failed listing is the
/// run's one fatal error, reported verbatim, and no scheduler — hence no
/// pipeline — ever exists; a successful one admits exactly the active
/// accounts.
pub fn start_run(listing: Result<Vec<Account>, String>) -> (r: Result<Scheduler, String>)
    ensures
        listing matches Err(d) ==> r is Err && r->Err_0 == d,
        listing matches Ok(accounts) ==> r is Ok && {
            &&& r->Ok_0.wf()
            &&& r->Ok_0.spec_pending() == accounts@.filter(active_pred())
            &&& r->Ok_0.spec_in_flight().len() == 0
            &&& r->Ok_0.spec_completed().len() == 0
        },
{
    match listing {
        Result::Err(d) => Err(d),
        Result::Ok(accounts) => Ok(Scheduler::new(accounts)),
    }
}

/// Drives every admitted pipeline to completion: one launch and exactly one
/// terminal outcome per pending account, in admission order, appended after
/// the reports already completed, which are preserved unchanged. The
/// concurrency ceiling holds throughout, by `Scheduler::wf`.
pub fn drive<A: Aws, S: Spawner>(
    scheduler: Scheduler,
    aws: &A,
    spawner: &S,
    config: &RunConfig,
) -> (r: Vec<Report>)
    requires
        config.wf(),
        scheduler.wf(),
        scheduler.spec_in_flight().len() == 0,
    ensures
        r@.len() == scheduler.spec_completed().len() + scheduler.spec_pending().len(),
        forall|i: int|
            0 <= i < scheduler.spec_completed().len() ==> #[trigger] r@[i]
                == scheduler.spec_completed()[i],
        forall|i: int|
            scheduler.spec_completed().len() <= i < r@.len() ==> (#[trigger] r@[i]).account
                == scheduler.spec_pending()[i - scheduler.spec_completed().len()],
        forall|i: int|
            scheduler.spec_completed().len() <= i < r@.len() ==> exists|
                ar: Result<Credentials, String>,
                er: Result<String, ExecError>,
            | pipeline_consistent(ar, er, (#[trigger] r@[i]).outcome),
        forall|i: int| 0 <= i < r@.len() ==> (#[trigger] r@[i]).account.is_active_spec(),
{
    let ghost orig_completed = scheduler.spec_completed();
    let ghost orig_pending = scheduler.spec_pending();
    let mut scheduler = scheduler;
    proof {
        assert(scheduler.spec_pending() =~= orig_pending.skip(0));
    }
    loop
        invariant
            config.wf(),
            scheduler.wf(),
            scheduler.spec_in_flight().len() == 0,
            orig_completed.len() <= scheduler.spec_completed().len(),
            scheduler.spec_completed().len() + scheduler.spec_pending().len()
                == orig_completed.len() + orig_pending.len(),
            forall|i: int|
                0 <= i < orig_completed.len() ==> #[trigger] scheduler.spec_completed()[i]
                    == orig_completed[i],
            forall|i: int|
                orig_completed.len() <= i < scheduler.spec_completed().len() ==> (
                #[trigger] scheduler.spec_completed()[i]).account == orig_pending[i
                    - orig_completed.len()],
            forall|i: int|
                orig_completed.len() <= i < scheduler.spec_completed().len() ==> exists|
                    ar: Result<Credentials, String>,
                    er: Result<String, ExecError>,
                | pipeline_consistent(ar, er, (#[trigger] scheduler.spec_completed()[i]).outcome),
            scheduler.spec_pending() =~= orig_pending.skip(
                scheduler.spec_completed().len() - orig_completed.len(),
            ),
        ensures
            scheduler.wf(),
            scheduler.spec_pending().len() == 0,
            scheduler.spec_completed().len() == orig_completed.len() + orig_pending.len(),
            forall|i: int|
                0 <= i < orig_completed.len() ==> #[trigger] scheduler.spec_completed()[i]
                    == orig_completed[i],
            forall|i: int|
                orig_completed.len() <= i < scheduler.spec_completed().len() ==> (
                #[trigger] scheduler.spec_completed()[i]).account == orig_pending[i
                    - orig_completed.len()],
            forall|i: int|
                orig_completed.len() <= i < scheduler.spec_completed().len() ==> exists|
                    ar: Result<Credentials, String>,
                    er: Result<String, ExecError>,
                | pipeline_consistent(ar, er, (#[trigger] scheduler.spec_completed()[i]).outcome),
        decreases scheduler.spec_pending().len(),
    {
        let next = scheduler.try_launch();
        match next {
            Option::None => {
                break;
            },
            Option::Some(account) => {
                let ghost pre = scheduler;
                let ghost done = pre.spec_completed().len() - orig_completed.len();
                let outcome = run_pipeline(aws, spawner, config, &account);
                scheduler.complete(0, outcome);
                proof {
                    assert(scheduler.spec_in_flight() =~= Seq::<Account>::empty());
                    assert(account == orig_pending[done]);
                    assert forall|i: int|
                        orig_completed.len() <= i < scheduler.spec_completed().len() implies (
                    #[trigger] scheduler.spec_completed()[i]).account == orig_pending[i
                        - orig_completed.len()] by {
                        if i < pre.spec_completed().len() {
                            assert(scheduler.spec_completed()[i] == pre.spec_completed()[i]);
                        } else {
                            assert(scheduler.spec_completed()[i].account == account);
                        }
                    }
                    assert forall|i: int|
                        orig_completed.len() <= i < scheduler.spec_completed().len() implies exists|
                        ar: Result<Credentials, String>,
                        er: Result<String, ExecError>,
                    | pipeline_consistent(
                        ar,
                        er,
                        (#[trigger] scheduler.spec_completed()[i]).outcome,
                    ) by {
                        if i < pre.spec_completed().len() {
                            assert(scheduler.spec_completed()[i] == pre.spec_completed()[i]);
                        } else {
                            assert(scheduler.spec_completed()[i].outcome == outcome);
                        }
                    }
                    assert(scheduler.spec_pending() =~= orig_pending.skip(
                        scheduler.spec_completed().len() - orig_completed.len(),
                    ));
                }
            },
        }
    }
    scheduler.into_reports()
}

/// Fetches the account set once, then drives one pipeline per active account
/// to completion under the concurrency bound. Only a failed listing makes
/// the run itself fail; every per-account failure is isolated inside its
/// report.
pub fn run<A: Aws, S: Spawner>(config: &RunConfig, aws: &A, spawner: &S) -> (r: Result<
    Vec<Report>,
    String,
>)
    requires
        config.wf(),
    ensures
        r matches Ok(reports) ==> forall|i: int|
            0 <= i < reports@.len() ==> (#[trigger] reports@[i]).account.is_active_spec(),
        r matches Ok(reports) ==> forall|i: int|
            0 <= i < reports@.len() ==> exists|
                ar: Result<Credentials, String>,
                er: Result<String, ExecError>,
            | pipeline_consistent(ar, er, (#[trigger] reports@[i]).outcome),
{
    let scheduler = match start_run(aws.accounts()) {
        Err(d) => {
            return Err(d);
        },
        Ok(s) => s,
    };
    Ok(drive(scheduler, aws, spawner, config))
}

// ---------------------------------------------------------------------------
// Laws of the orchestration, proved once and for all.
// ---------------------------------------------------------------------------
/// An account whose status is not "ACTIVE" never reaches the pipeline stage:
/// the filtered sequence that feeds the scheduler cannot contain it.
pub proof fn lemma_inactive_never_launched(accounts: Seq<Account>, a: Account)
    requires
        !a.is_active_spec(),
    ensures
        !accounts.filter(active_pred()).contains(a),
{
    broadcast use vstd::seq_lib::group_filter_ensures;

    if accounts.filter(active_pred()).contains(a) {
        let i = choose|i: int|
            0 <= i < accounts.filter(active_pred()).len() && accounts.filter(active_pred())[i]
                == a;
        assert(active_pred()(accounts.filter(active_pred())[i]));
    }
}

/// A pipeline whose role assumption fails reports `RoleAssumptionFailed`
/// with that diagnostic directly, and the execution stage is never entered.
pub proof fn lemma_assume_failure_reported(d: String)
    ensures
        step_assume_spec(Result::<Credentials, String>::Err(d)) == (PipelineState::Reported {
            outcome: PipelineOutcome::RoleAssumptionFailed { diagnostic: d },
        }),
        !(step_assume_spec(Result::<Credentials, String>::Err(d)) matches PipelineState::Execute {
            ..
        }),
{
}

/// A pipeline whose role assumption succeeds but whose command exits
/// non-zero reports `ExecutionFailed` carrying the captured stderr.
pub proof fn lemma_nonzero_exit_reported(
    creds: Credentials,
    out: CommandOutput,
    o: PipelineOutcome,
)
    requires
        !out.success,
        is_execute_outcome(
            interpret_output_spec(Result::<CommandOutput, String>::Ok(out)),
            o,
        ),
    ensures
        interpret_output_spec(Result::<CommandOutput, String>::Ok(out)) == Result::<
            String,
            ExecError,
        >::Err(ExecError::Command { diagnostic: out.stderr }),
        match o {
            PipelineOutcome::ExecutionFailed { diagnostic } => diagnostic@ == out.stderr@,
            _ => false,
        },
        pipeline_consistent(
            Result::<Credentials, String>::Ok(creds),
            interpret_output_spec(Result::<CommandOutput, String>::Ok(out)),
            o,
        ),
{
}

/// At no point does a well-formed scheduler have more than
/// `CONCURRENCY_LIMIT` pipelines in flight.
pub proof fn lemma_concurrency_bounded(s: Scheduler)
    requires
        s.wf(),
    ensures
        s.spec_in_flight().len() <= CONCURRENCY_LIMIT,
{
}

} // verus!
