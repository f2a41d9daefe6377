use aws_crossing::aws::{role_arn, session_name, Credentials};
use aws_crossing::exec::{
    build_invocation, exec, interpret_output, CommandOutput, ExecError, Invocation, Spawner,
};

fn creds() -> Credentials {
    Credentials {
        access_key_id: "xxx".into(),
        secret_access_key: "yyy".into(),
        session_token: "zzz".into(),
    }
}

struct EchoSpawner;

impl Spawner for EchoSpawner {
    fn spawn(&self, invocation: &Invocation) -> Result<CommandOutput, String> {
        Ok(CommandOutput {
            success: true,
            stdout: format!("{} {}", invocation.program, invocation.args.join("|")),
            stderr: String::new(),
        })
    }
}

#[test]
fn command_is_split_shell_style() {
    let invocation = build_invocation(creds(), "111", "echo 'a b' c").unwrap();
    assert_eq!("echo", invocation.program);
    assert_eq!(vec!["a b".to_string(), "c".to_string()], invocation.args);
}

#[test]
fn four_variables_are_injected() {
    let invocation = build_invocation(creds(), "111", "test").unwrap();
    let pairs: Vec<(String, String)> = invocation
        .env
        .iter()
        .map(|v| (v.name.clone(), v.value.clone()))
        .collect();
    assert_eq!(
        vec![
            ("AWS_ACCESS_KEY_ID".to_string(), "xxx".to_string()),
            ("AWS_SECRET_ACCESS_KEY".to_string(), "yyy".to_string()),
            ("AWS_SESSION_TOKEN".to_string(), "zzz".to_string()),
            ("AWS_ACCOUNT_ID".to_string(), "111".to_string()),
        ],
        pairs
    );
}

#[test]
fn whitespace_command_is_empty() {
    match build_invocation(creds(), "111", "   ") {
        Err(e) => assert_eq!("Empty command", e.message()),
        _ => unreachable!(),
    }
}

#[test]
fn unclosed_quote_is_refused() {
    assert!(matches!(
        build_invocation(creds(), "111", "echo 'oops"),
        Err(ExecError::EmptyCommand)
    ));
}

#[test]
fn exec_returns_captured_stdout() {
    let out = exec(&EchoSpawner, creds(), "111", "echo 'a b' c").unwrap();
    assert_eq!("echo a b|c", out);
}

#[test]
fn nonzero_exit_carries_stderr() {
    let interpreted = interpret_output(Ok(CommandOutput {
        success: false,
        stdout: "partial".into(),
        stderr: "it broke".into(),
    }));
    match interpreted {
        Err(e) => assert_eq!("it broke", e.message()),
        _ => unreachable!(),
    }
}

#[test]
fn zero_exit_carries_stdout() {
    let interpreted = interpret_output(Ok(CommandOutput {
        success: true,
        stdout: "fine".into(),
        stderr: String::new(),
    }));
    assert_eq!(Some("fine".to_string()), interpreted.ok());
}

#[test]
fn spawn_failure_carries_diagnostic() {
    match interpret_output(Err("no such program".to_string())) {
        Err(e) => assert_eq!("no such program", e.message()),
        _ => unreachable!(),
    }
}

#[test]
fn role_arn_is_fully_qualified() {
    assert_eq!(
        "arn:aws:iam::123456789012:role/Admin",
        role_arn("123456789012", "Admin")
    );
}

#[test]
fn session_name_is_derived_from_account() {
    assert_eq!("111-session-access", session_name("111"));
}
