use aws_crossing::aws::{filter_active, Account, Aws, Credentials};
use aws_crossing::config::RunConfig;
use aws_crossing::exec::{CommandOutput, ExecError, Invocation, Spawner};
use aws_crossing::orchestrator::{
    drive, pipeline_from_assume, run, step_assume, step_execute, PipelineOutcome, PipelineState,
    Scheduler, CONCURRENCY_LIMIT,
};
use aws_crossing::report::{assume_failure_message, exec_failure_message};

fn account(id: &str, name: &str, status: &str) -> Account {
    Account {
        id: id.into(),
        name: name.into(),
        status: status.into(),
    }
}

fn creds() -> Credentials {
    Credentials {
        access_key_id: "xxx".into(),
        secret_access_key: "yyy".into(),
        session_token: "zzz".into(),
    }
}

struct FailingAws;

impl Aws for FailingAws {
    fn accounts(&self) -> Result<Vec<Account>, String> {
        Err("boom".to_string())
    }

    fn assume_role(&self, _account_id: String, _role: String) -> Result<Credentials, String> {
        Ok(creds())
    }
}

struct EmptyAws;

impl Aws for EmptyAws {
    fn accounts(&self) -> Result<Vec<Account>, String> {
        Ok(Vec::new())
    }

    fn assume_role(&self, _account_id: String, _role: String) -> Result<Credentials, String> {
        Ok(creds())
    }
}

struct TwoAccountsAws;

impl Aws for TwoAccountsAws {
    fn accounts(&self) -> Result<Vec<Account>, String> {
        Ok(vec![
            account("111", "A", "ACTIVE"),
            account("222", "B", "SUSPENDED"),
        ])
    }

    fn assume_role(&self, account_id: String, _role: String) -> Result<Credentials, String> {
        if account_id == "222" {
            Err("access denied".to_string())
        } else {
            Ok(creds())
        }
    }
}

struct OkSpawner;

impl Spawner for OkSpawner {
    fn spawn(&self, invocation: &Invocation) -> Result<CommandOutput, String> {
        Ok(CommandOutput {
            success: true,
            stdout: format!("ran {}", invocation.program),
            stderr: String::new(),
        })
    }
}

struct FailSpawner;

impl Spawner for FailSpawner {
    fn spawn(&self, _invocation: &Invocation) -> Result<CommandOutput, String> {
        Ok(CommandOutput {
            success: false,
            stdout: String::new(),
            stderr: "command error".into(),
        })
    }
}

fn config() -> RunConfig {
    RunConfig::new("role", "test").unwrap()
}

#[test]
fn errs_if_accounts_fetch_fails() {
    match run(&config(), &FailingAws, &OkSpawner) {
        Err(e) => assert_eq!("boom", e),
        _ => unreachable!(),
    }
}

#[test]
fn runs_commands() {
    assert!(run(&config(), &EmptyAws, &OkSpawner).is_ok())
}

#[test]
fn only_active_accounts_get_a_pipeline() {
    let reports = run(&config(), &TwoAccountsAws, &OkSpawner).unwrap();
    assert_eq!(1, reports.len());
    assert_eq!("111", reports[0].account.id);
    assert!(matches!(
        reports[0].outcome,
        PipelineOutcome::Success { .. }
    ));
}

#[test]
fn filter_keeps_only_active() {
    let filtered = filter_active(vec![
        account("111", "A", "ACTIVE"),
        account("222", "B", "SUSPENDED"),
        account("333", "C", "active"),
    ]);
    assert_eq!(1, filtered.len());
    assert_eq!("111", filtered[0].id);
}

#[test]
fn account_activity_is_case_sensitive() {
    assert!(account("1", "a", "ACTIVE").is_active());
    assert!(!account("1", "a", "SUSPENDED").is_active());
    assert!(!account("1", "a", "active").is_active());
}

#[test]
fn assume_failure_is_reported_directly() {
    match step_assume(Err("denied".to_string())) {
        PipelineState::Reported {
            outcome: PipelineOutcome::RoleAssumptionFailed { diagnostic },
        } => assert_eq!("denied", diagnostic),
        _ => unreachable!(),
    }
}

#[test]
fn assume_success_enters_execute() {
    assert!(matches!(
        step_assume(Ok(creds())),
        PipelineState::Execute { .. }
    ));
}

#[test]
fn execution_failure_carries_diagnostic() {
    match step_execute(Err(ExecError::Command {
        diagnostic: "it broke".into(),
    })) {
        PipelineOutcome::ExecutionFailed { diagnostic } => assert_eq!("it broke", diagnostic),
        _ => unreachable!(),
    }
}

#[test]
fn failed_command_is_isolated_in_its_report() {
    let reports = run(&config(), &TwoAccountsAws, &FailSpawner).unwrap();
    assert_eq!(1, reports.len());
    match &reports[0].outcome {
        PipelineOutcome::ExecutionFailed { diagnostic } => {
            assert_eq!("command error", diagnostic)
        }
        _ => unreachable!(),
    }
}

#[test]
fn scheduler_never_exceeds_the_limit() {
    let accounts: Vec<Account> = (0..20)
        .map(|i| account(&format!("{}", i), "n", "ACTIVE"))
        .collect();
    let mut scheduler = Scheduler::new(accounts);
    for _ in 0..CONCURRENCY_LIMIT {
        assert!(scheduler.try_launch().is_some());
    }
    assert_eq!(CONCURRENCY_LIMIT, scheduler.in_flight_len());
    assert!(scheduler.try_launch().is_none());
    scheduler.complete(
        0,
        PipelineOutcome::Success {
            output: String::new(),
        },
    );
    assert!(scheduler.try_launch().is_some());
    assert_eq!(CONCURRENCY_LIMIT, scheduler.in_flight_len());
}

#[test]
fn scheduler_admits_only_active_accounts() {
    let mut scheduler = Scheduler::new(vec![
        account("111", "A", "ACTIVE"),
        account("222", "B", "SUSPENDED"),
    ]);
    assert_eq!(1, scheduler.pending_len());
    let launched = scheduler.try_launch().unwrap();
    assert_eq!("111", launched.id);
    assert!(scheduler.try_launch().is_none());
}

#[test]
fn failure_report_lines_are_exact() {
    assert_eq!(
        "Failed to assume role role in account B (222)",
        assume_failure_message("role", "B", "222")
    );
    assert_eq!(
        "Error executing command as role in account B (222)",
        exec_failure_message("role", "B", "222")
    );
}

struct PanickySpawner;

impl Spawner for PanickySpawner {
    fn spawn(&self, _invocation: &Invocation) -> Result<CommandOutput, String> {
        panic!("the spawner must never be reached")
    }
}

#[test]
fn drive_reports_every_admitted_account_in_order() {
    let scheduler = Scheduler::new(vec![
        account("111", "A", "ACTIVE"),
        account("333", "C", "ACTIVE"),
        account("222", "B", "SUSPENDED"),
    ]);
    let reports = drive(scheduler, &TwoAccountsAws, &OkSpawner, &config());
    assert_eq!(2, reports.len());
    assert_eq!("111", reports[0].account.id);
    assert_eq!("333", reports[1].account.id);
    assert!(matches!(
        reports[0].outcome,
        PipelineOutcome::Success { .. }
    ));
}

#[test]
fn assume_failure_never_reaches_the_spawner() {
    let outcome = pipeline_from_assume(
        &PanickySpawner,
        &config(),
        &account("1", "a", "ACTIVE"),
        Err("denied".to_string()),
    );
    match outcome {
        PipelineOutcome::RoleAssumptionFailed { diagnostic } => assert_eq!("denied", diagnostic),
        _ => unreachable!(),
    }
}
