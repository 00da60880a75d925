use vstd::prelude::*;

verus! {

/// Why opening a dependency failed.
#[derive(Debug, PartialEq, Eq)]
pub enum OpenError {
    /// No lockfile stands at the project root.
    NotAProject,
    /// The lockfile exists but could not be read as one.
    LockfileParseError { cause: String },
    /// The lock graph has no package of that name, or more than one.
    AmbiguousOrMissingPackage { query: String, cause: String },
    /// None of the editor variables holds a command.
    NoEditorConfigured,
    /// The editor process could not be started.
    LaunchFailed { cause: String },
    /// The editor ran and did not exit with status zero; `None` when no exit
    /// code was reported (the process was stopped by a signal).
    AbnormalExit { code: Option<i32> },
}

/// The status the tool exits with after a failure.
pub open spec fn exit_code_spec(e: OpenError) -> i32 {
    match e {
        OpenError::AbnormalExit { code: Some(c) } => c,
        _ => 1,
    }
}

impl OpenError {
    /// The process exit status for this failure: the editor's own code when it
    /// reported one, else 1.
    pub fn exit_code(&self) -> (r: i32)
        ensures
            r == exit_code_spec(*self),
    {
        match self {
            OpenError::AbnormalExit { code: Some(c) } => *c,
            _ => 1,
        }
    }

    /// A message for the user that says what went wrong.
    pub fn message(&self) -> (r: String)
        ensures
            *self is NotAProject ==> r@ == "Not in a cargo-managed project"@,
            *self is NoEditorConfigured ==> r@
                == "Cannot find an editor. Please specify one of $CARGO_EDITOR, $VISUAL, or $EDITOR and try again."@,
            *self matches OpenError::LockfileParseError { cause } ==> r@
                == "Cannot read the lockfile: "@ + cause@,
            *self matches OpenError::AmbiguousOrMissingPackage { query, cause } ==> r@ == "Crate '"@
                + query@ + "' not found: "@ + cause@,
            *self matches OpenError::LaunchFailed { cause } ==> r@ == "Cannot start the editor: "@
                + cause@,
            *self is AbnormalExit ==> r@ == "The editor exited abnormally"@,
    {
        match self {
            OpenError::NotAProject => String::from_str("Not in a cargo-managed project"),
            OpenError::LockfileParseError { cause } => {
                let mut r = String::from_str("Cannot read the lockfile: ");
                r.append(cause.as_str());
                r
            },
            OpenError::AmbiguousOrMissingPackage { query, cause } => {
                let mut r = String::from_str("Crate '");
                r.append(query.as_str());
                r.append("' not found: ");
                r.append(cause.as_str());
                r
            },
            OpenError::NoEditorConfigured => String::from_str(
                "Cannot find an editor. Please specify one of $CARGO_EDITOR, $VISUAL, or $EDITOR and try again.",
            ),
            OpenError::LaunchFailed { cause } => {
                let mut r = String::from_str("Cannot start the editor: ");
                r.append(cause.as_str());
                r
            },
            OpenError::AbnormalExit { .. } => String::from_str("The editor exited abnormally"),
        }
    }
}

} // verus!
