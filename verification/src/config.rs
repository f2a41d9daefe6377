//! Run configuration: validation of the role name and the command line,
//! performed once before anything external is contacted.
use vstd::prelude::*;
use crate::text::{trim, trim_spec, has_arn_prefix, starts_with_arn};

verus! {

/// A configuration value that the validators refuse.
#[derive(Clone, Copy, PartialEq, Eq, Structural, Debug)]
pub enum ConfigError {
    /// The command line trims to the empty string.
    EmptyCommand,
    /// The role value is a fully-qualified role identifier, not a bare name.
    RoleIsArn,
}

impl ConfigError {
    /// The operator-facing message for this rejection.
    pub fn message(&self) -> (r: String)
        ensures
            *self == ConfigError::EmptyCommand ==> r@ == "Please provide a valid non-empty command"@,
            *self == ConfigError::RoleIsArn ==> r@ == "Please provide a role name, not a role arn"@,
    {
        match self {
            ConfigError::EmptyCommand => "Please provide a valid non-empty command".to_owned(),
            ConfigError::RoleIsArn => "Please provide a role name, not a role arn".to_owned(),
        }
    }
}

/// Accepts a command line whose trimmed form is non-empty and returns that
/// trimmed form; rejects one that trims to empty.
pub fn nonempty_command(src: &str) -> (r: Result<String, ConfigError>)
    ensures
        r is Err <==> trim_spec(src@).len() == 0,
        r is Err ==> r->Err_0 == ConfigError::EmptyCommand,
        r is Ok ==> r->Ok_0@ == trim_spec(src@),
{
    let t = trim(src);
    if t.as_str().is_empty() {
        Err(ConfigError::EmptyCommand)
    } else {
        Ok(t)
    }
}

/// Accepts a bare role name and returns its trimmed form; rejects a value
/// that begins with the fully-qualified role identifier prefix.
pub fn role_name(src: &str) -> (r: Result<String, ConfigError>)
    ensures
        r is Err <==> starts_with_arn(trim_spec(src@)),
        r is Err ==> r->Err_0 == ConfigError::RoleIsArn,
        r is Ok ==> r->Ok_0@ == trim_spec(src@),
{
    let role = trim(src);
    if has_arn_prefix(role.as_str()) {
        Err(ConfigError::RoleIsArn)
    } else {
        Ok(role)
    }
}

/// The validated, immutable configuration shared by every pipeline.
#[derive(Debug)]
pub struct RunConfig {
    /// Name of the role to assume, already a bare name.
    pub role_name: String,
    /// Command to execute, already trimmed and non-empty.
    pub command_line: String,
}

impl RunConfig {
    /// Both validations have passed: the command is non-empty and the role
    /// is a bare name.
    pub open spec fn wf(self) -> bool {
        self.command_line@.len() > 0 && !starts_with_arn(self.role_name@)
    }

    /// Validates both inputs, the role first; a rejection is fatal before
    /// any account is contacted.
    pub fn new(role_src: &str, command_src: &str) -> (r: Result<RunConfig, ConfigError>)
        ensures
            starts_with_arn(trim_spec(role_src@)) ==> r is Err && r->Err_0
                == ConfigError::RoleIsArn,
            !starts_with_arn(trim_spec(role_src@)) && trim_spec(command_src@).len() == 0 ==> r
                is Err && r->Err_0 == ConfigError::EmptyCommand,
            !starts_with_arn(trim_spec(role_src@)) && trim_spec(command_src@).len() > 0 ==> r
                is Ok && r->Ok_0.role_name@ == trim_spec(role_src@) && r->Ok_0.command_line@
                == trim_spec(command_src@) && r->Ok_0.wf(),
    {
        let role = match role_name(role_src) {
            Err(e) => {
                return Err(e);
            },
            Ok(role) => role,
        };
        let command = match nonempty_command(command_src) {
            Err(e) => {
                return Err(e);
            },
            Ok(command) => command,
        };
        Ok(RunConfig { role_name: role, command_line: command })
    }
}

impl Clone for RunConfig {
    fn clone(&self) -> (r: Self)
        ensures
            r == *self,
    {
        RunConfig { role_name: self.role_name.clone(), command_line: self.command_line.clone() }
    }
}

impl PartialEq for RunConfig {
    fn eq(&self, other: &Self) -> (r: bool) {
        self.role_name == other.role_name && self.command_line == other.command_line
    }
}

impl vstd::std_specs::cmp::PartialEqSpecImpl for RunConfig {
    open spec fn obeys_eq_spec() -> bool {
        true
    }

    open spec fn eq_spec(&self, other: &Self) -> bool {
        self.role_name@ == other.role_name@ && self.command_line@ == other.command_line@
    }
}

} // verus!
