use cargo_open::editor::cargo_editor;
use cargo_open::error::OpenError;
use cargo_open::package::{
    cargo_dir, derive_source_path, exit_status, launch_outcome, LaunchStatus, LockLookup,
    PackageIdentity,
};

fn foo() -> PackageIdentity {
    PackageIdentity {
        name: "foo".to_string(),
        version: "1.2.3".to_string(),
        source_host: "example.com".to_string(),
        source_hash: "0123456789abcdef".to_string(),
    }
}

#[test]
fn derive_is_idempotent() {
    let a = derive_source_path(&foo(), "/home/u/.cache");
    let b = derive_source_path(&foo(), "/home/u/.cache");
    assert_eq!(a, b);
    assert_eq!(a.as_bytes(), b.as_bytes());
}

#[test]
fn missing_lockfile_is_not_a_project() {
    let r = cargo_dir("foo", LockLookup::NoLockfile, "/home/u/.cache");
    assert_eq!(r, Err(OpenError::NotAProject));
    assert_eq!(r.unwrap_err().message(), "Not in a cargo-managed project");
}

#[test]
fn absent_package_is_ambiguous_or_missing() {
    let cause = "package ID specification `bar` did not match any packages".to_string();
    let r = cargo_dir("bar", LockLookup::NoSingleMatch { cause: cause.clone() }, "/home/u/.cache");
    assert_eq!(
        r,
        Err(OpenError::AmbiguousOrMissingPackage { query: "bar".to_string(), cause: cause.clone() })
    );
    assert_eq!(r.unwrap_err().message(), format!("Crate 'bar' not found: {}", cause));
}

#[test]
fn unreadable_lockfile_is_parse_error() {
    let r = cargo_dir("foo", LockLookup::Unreadable { cause: "bad toml".to_string() }, "/r");
    assert_eq!(r, Err(OpenError::LockfileParseError { cause: "bad toml".to_string() }));
    assert_eq!(r.unwrap_err().message(), "Cannot read the lockfile: bad toml");
}

#[test]
fn launch_outcomes() {
    assert_eq!(launch_outcome(LaunchStatus::Exited { code: Some(0) }), Ok(()));
    assert_eq!(
        launch_outcome(LaunchStatus::Exited { code: Some(2) }),
        Err(OpenError::AbnormalExit { code: Some(2) })
    );
    assert_eq!(
        launch_outcome(LaunchStatus::Exited { code: None }),
        Err(OpenError::AbnormalExit { code: None })
    );
    let r = launch_outcome(LaunchStatus::NotStarted { cause: "not found".to_string() });
    assert_eq!(r, Err(OpenError::LaunchFailed { cause: "not found".to_string() }));
    assert_eq!(r.unwrap_err().message(), "Cannot start the editor: not found");
}

#[test]
fn exit_statuses() {
    assert_eq!(exit_status(&Ok(())), 0);
    assert_eq!(exit_status(&Err(OpenError::AbnormalExit { code: Some(2) })), 2);
    assert_eq!(exit_status(&Err(OpenError::AbnormalExit { code: None })), 1);
    assert_eq!(exit_status(&Err(OpenError::NotAProject)), 1);
    assert_eq!(exit_status(&Err(OpenError::NoEditorConfigured)), 1);
    assert_eq!(OpenError::AbnormalExit { code: Some(7) }.message(), "The editor exited abnormally");
}

#[test]
fn end_to_end_foo_with_echo() {
    let dir = cargo_dir("foo", LockLookup::Found { identity: foo() }, "/home/u/.cache").unwrap();
    assert_eq!(dir, "/home/u/.cache/registry/src/example.com-0123456789abcdef/foo-1.2.3");
    let editor = cargo_editor(None, None, Some("echo")).unwrap();
    assert_eq!(editor, "echo");
    let outcome = launch_outcome(LaunchStatus::Exited { code: Some(0) });
    assert_eq!(exit_status(&outcome), 0);
}
