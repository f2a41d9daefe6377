//! Operator-facing report lines for per-account failures. Each line carries
//! the identifying fields — role, display name, account id — as one unit, so
//! a concurrent writer can emit it atomically; styling is left to the caller.
use vstd::prelude::*;
use vstd::string::StringExecFns;

verus! {

/// The report line for a failed role assumption in one account.
pub open spec fn assume_failure_message_spec(
    role: Seq<char>,
    name: Seq<char>,
    id: Seq<char>,
) -> Seq<char> {
    "Failed to assume role "@ + role + " in account "@ + name + " ("@ + id + ")"@
}

/// Builds the report line for a failed role assumption.
pub fn assume_failure_message(role: &str, name: &str, id: &str) -> (r: String)
    ensures
        r@ == assume_failure_message_spec(role@, name@, id@),
{
    let mut s: String = "Failed to assume role ".to_owned();
    s.append(role);
    s.append(" in account ");
    s.append(name);
    s.append(" (");
    s.append(id);
    s.append(")");
    proof {
        assert(s@ =~= assume_failure_message_spec(role@, name@, id@));
    }
    s
}

/// The report line for a command that failed in one account.
pub open spec fn exec_failure_message_spec(
    role: Seq<char>,
    name: Seq<char>,
    id: Seq<char>,
) -> Seq<char> {
    "Error executing command as "@ + role + " in account "@ + name + " ("@ + id + ")"@
}

/// Builds the report line for a failed command execution.
pub fn exec_failure_message(role: &str, name: &str, id: &str) -> (r: String)
    ensures
        r@ == exec_failure_message_spec(role@, name@, id@),
{
    let mut s: String = "Error executing command as ".to_owned();
    s.append(role);
    s.append(" in account ");
    s.append(name);
    s.append(" (");
    s.append(id);
    s.append(")");
    proof {
        assert(s@ =~= exec_failure_message_spec(role@, name@, id@));
    }
    s
}

} // verus!
