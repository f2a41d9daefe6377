use aws_crossing::config::{nonempty_command, role_name, ConfigError, RunConfig};

#[test]
fn opts_errs_on_empty_command() {
    match RunConfig::new("role", "") {
        Err(e) => {
            assert!(e.message().contains("Please provide a valid non-empty command"))
        }
        _ => unreachable!(),
    }
}

#[test]
fn opts_errs_on_role_arn() {
    match RunConfig::new("arn:aws:iam::account-id:role/role-name-with-path", "test") {
        Err(e) => {
            assert!(e.message().contains("Please provide a role name, not a role arn"))
        }
        _ => unreachable!(),
    }
}

#[test]
fn opts_accepts_role_and_command() {
    assert_eq!(
        RunConfig {
            role_name: "role-name-with-path".into(),
            command_line: "test".into()
        },
        RunConfig::new("role-name-with-path", "test").unwrap()
    );
}

#[test]
fn empty_command_message_is_exact() {
    match nonempty_command("   ") {
        Err(e) => assert_eq!("Please provide a valid non-empty command", e.message()),
        _ => unreachable!(),
    }
}

#[test]
fn role_arn_message_is_exact() {
    match role_name("arn:aws:iam::123456789012:role/Admin") {
        Err(e) => assert_eq!("Please provide a role name, not a role arn", e.message()),
        _ => unreachable!(),
    }
}

#[test]
fn role_arn_detected_after_trimming() {
    assert!(matches!(
        role_name("  arn:aws:iam::1:role/r  "),
        Err(ConfigError::RoleIsArn)
    ));
}

#[test]
fn values_are_trimmed() {
    let config = RunConfig::new("  role  ", "\t test \n").unwrap();
    assert_eq!("role", config.role_name);
    assert_eq!("test", config.command_line);
}

#[test]
fn role_is_validated_before_command() {
    assert!(matches!(
        RunConfig::new("arn:aws:bad", "   "),
        Err(ConfigError::RoleIsArn)
    ));
}

#[test]
fn bare_role_with_arn_inside_is_accepted() {
    let role = role_name("my-arn:aws:role").unwrap();
    assert_eq!("my-arn:aws:role", role);
}
