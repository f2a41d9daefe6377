//! Scoped command execution: shell-style tokenization, per-invocation
//! environment assembly, and interpretation of the spawned command's output.
use vstd::prelude::*;
use crate::aws::Credentials;

verus! {

/// What `shlex::split` returns for a command line: shell-style word
/// splitting with quoting and escaping honored, `None` on erroneous input
/// such as an unclosed quote.
pub uninterp spec fn shell_split(s: Seq<char>) -> Option<Seq<Seq<char>>>;

/// Relies on shlex::split: POSIX-style word splitting, a function of the
/// input characters alone.
#[verifier::external_body]
fn shell_split_words(s: &str) -> (r: Option<Vec<String>>)
    ensures
        r is Some <==> shell_split(s@) is Some,
        r matches Some(v) ==> v.deep_view() == shell_split(s@)->0,
{
    shlex::split(s)
}

/// Why a scoped execution failed.
#[derive(Debug)]
pub enum ExecError {
    /// The command line tokenized to zero words.
    EmptyCommand,
    /// The command could not be spawned, or it exited non-zero; the
    /// diagnostic is the spawn error or the captured stderr.
    Command { diagnostic: String },
}

impl ExecError {
    /// The diagnostic text this failure carries.
    pub open spec fn message_spec(self) -> Seq<char> {
        match self {
            ExecError::EmptyCommand => "Empty command"@,
            ExecError::Command { diagnostic } => diagnostic@,
        }
    }

    /// Renders the diagnostic text for this failure.
    pub fn message(&self) -> (r: String)
        ensures
            r@ == self.message_spec(),
    {
        match self {
            ExecError::EmptyCommand => "Empty command".to_owned(),
            ExecError::Command { diagnostic } => diagnostic.clone(),
        }
    }
}

impl Clone for ExecError {
    fn clone(&self) -> (r: Self)
        ensures
            r == *self,
    {
        match self {
            ExecError::EmptyCommand => ExecError::EmptyCommand,
            ExecError::Command { diagnostic } => ExecError::Command {
                diagnostic: diagnostic.clone(),
            },
        }
    }
}

/// One variable of the spawned command's environment.
#[derive(Debug)]
pub struct EnvVar {
    pub name: String,
    pub value: String,
}

/// A fully assembled invocation: the program, its literal arguments, and the
/// variables injected into the child process environment only.
#[derive(Debug)]
pub struct Invocation {
    /// The first word: the executable, resolved on the search path.
    pub program: String,
    /// The remaining words, passed as literal arguments.
    pub args: Vec<String>,
    /// The injected variables; the orchestrator's own environment is never
    /// mutated.
    pub env: Vec<EnvVar>,
}

/// Exactly four variables are injected: the credential triple and the
/// account id under operation.
pub open spec fn env_injection(
    creds: Credentials,
    account_id: Seq<char>,
    env: Seq<EnvVar>,
) -> bool {
    &&& env.len() == 4
    &&& env[0].name@ == "AWS_ACCESS_KEY_ID"@ && env[0].value == creds.access_key_id
    &&& env[1].name@ == "AWS_SECRET_ACCESS_KEY"@ && env[1].value == creds.secret_access_key
    &&& env[2].name@ == "AWS_SESSION_TOKEN"@ && env[2].value == creds.session_token
    &&& env[3].name@ == "AWS_ACCOUNT_ID"@ && env[3].value@ == account_id
}

/// Tokenizes the command line and assembles the invocation. A command line
/// that yields no words fails with `EmptyCommand`; otherwise the first word
/// is the program, the rest are its arguments, and the environment carries
/// exactly the four injected variables.
pub fn build_invocation(credentials: Credentials, account_id: &str, command: &str) -> (r: Result<
    Invocation,
    ExecError,
>)
    ensures
        match shell_split(command@) {
            Option::Some(words) => {
                if words.len() == 0 {
                    r is Err && r->Err_0 == ExecError::EmptyCommand
                } else {
                    r is Ok && r->Ok_0.program@ == words[0] && r->Ok_0.args.deep_view()
                        == words.drop_first() && env_injection(
                        credentials,
                        account_id@,
                        r->Ok_0.env@,
                    )
                }
            },
            Option::None => r is Err && r->Err_0 == ExecError::EmptyCommand,
        },
{
    let words = match shell_split_words(command) {
        Option::None => {
            return Err(ExecError::EmptyCommand);
        },
        Option::Some(w) => w,
    };
    if words.len() == 0 {
        return Err(ExecError::EmptyCommand);
    }
    let mut rest = words;
    let ghost prev = rest@;
    let ghost all = rest.deep_view();
    let program = rest.remove(0);
    proof {
        assert(program@ == all[0]);
        assert forall|i: int| 0 <= i < rest.deep_view().len() implies rest.deep_view()[i]
            == all.drop_first()[i] by {
            assert(rest@[i] == prev[i + 1]);
        }
        assert(rest.deep_view() =~= all.drop_first());
    }
    let env: Vec<EnvVar> = vec![
        EnvVar { name: "AWS_ACCESS_KEY_ID".to_owned(), value: credentials.access_key_id },
        EnvVar {
            name: "AWS_SECRET_ACCESS_KEY".to_owned(),
            value: credentials.secret_access_key,
        },
        EnvVar { name: "AWS_SESSION_TOKEN".to_owned(), value: credentials.session_token },
        EnvVar { name: "AWS_ACCOUNT_ID".to_owned(), value: account_id.to_owned() },
    ];
    Ok(Invocation { program, args: rest, env })
}

/// What a spawned command produced: whether it exited successfully, and its
/// captured output channels as text.
#[derive(Debug)]
pub struct CommandOutput {
    pub success: bool,
    pub stdout: String,
    pub stderr: String,
}

/// The process-spawning port: runs an invocation to completion with the
/// invocation's environment injected into the child process only. `Err`
/// carries the diagnostic of a spawn that could not run at all.
pub trait Spawner {
    fn spawn(&self, invocation: &Invocation) -> Result<CommandOutput, String>;
}

/// The executor's result for a raw spawn result: captured stdout on a zero
/// exit, the captured stderr as diagnostic on a non-zero exit, the spawn
/// diagnostic when no command ran.
pub open spec fn interpret_output_spec(r: Result<CommandOutput, String>) -> Result<
    String,
    ExecError,
> {
    match r {
        Result::Ok(out) => if out.success {
            Result::Ok(out.stdout)
        } else {
            Result::Err(ExecError::Command { diagnostic: out.stderr })
        },
        Result::Err(d) => Result::Err(ExecError::Command { diagnostic: d }),
    }
}

/// Interprets a spawned command's raw result.
pub fn interpret_output(r: Result<CommandOutput, String>) -> (res: Result<String, ExecError>)
    ensures
        res == interpret_output_spec(r),
{
    match r {
        Result::Ok(out) => {
            if out.success {
                Ok(out.stdout)
            } else {
                Err(ExecError::Command { diagnostic: out.stderr })
            }
        },
        Result::Err(d) => Err(ExecError::Command { diagnostic: d }),
    }
}

/// Runs `command` in `account_id` with the credential-derived environment,
/// through the spawner port. A command line that yields no words is refused
/// before anything is spawned; every spawned result is interpreted exactly.
pub fn exec<S: Spawner>(
    spawner: &S,
    credentials: Credentials,
    account_id: &str,
    command: &str,
) -> (r: Result<String, ExecError>)
    ensures
        shell_split(command@) is None || shell_split(command@)->0.len() == 0 ==> r is Err
            && r->Err_0 == ExecError::EmptyCommand,
        shell_split(command@) is Some && shell_split(command@)->0.len() > 0 ==> exists|
            sr: Result<CommandOutput, String>,
        | r == interpret_output_spec(sr),
{
    let invocation = match build_invocation(credentials, account_id, command) {
        Err(e) => {
            return Err(e);
        },
        Ok(i) => i,
    };
    let sr = spawner.spawn(&invocation);
    let ghost gsr = sr;
    let res = interpret_output(sr);
    proof {
        assert(res == interpret_output_spec(gsr));
    }
    res
}

} // verus!
