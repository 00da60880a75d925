use vstd::prelude::*;
use crate::error::OpenError;
use crate::path::{compose_source_path, source_path_spec};

verus! {

/// A package as the lock graph pins it, with its registry source reduced to
/// the two parts that name the source's cache directory.
#[derive(Debug, PartialEq, Eq)]
pub struct PackageIdentity {
    pub name: String,
    pub version: String,
    /// The host of the registry's URL.
    pub source_host: String,
    /// The package manager's short hash of the registry source.
    pub source_hash: String,
}

impl PackageIdentity {
    /// Where this package's source lies under the cache root `root`.
    pub open spec fn source_path(self, root: Seq<char>) -> Seq<char> {
        source_path_spec(root, self.source_host@, self.source_hash@, self.name@, self.version@)
    }
}

/// Derives the directory that holds the unpacked source of `identity` under
/// the package cache root. No file system access takes place.
pub fn derive_source_path(identity: &PackageIdentity, cache_root: &str) -> (r: String)
    ensures
        r@ == identity.source_path(cache_root@),
{
    compose_source_path(
        cache_root,
        identity.source_host.as_str(),
        identity.source_hash.as_str(),
        identity.name.as_str(),
        identity.version.as_str(),
    )
}

/// The path depends on the views of its inputs alone: two derivations from
/// the same identity and the same cache root give the same path.
pub proof fn lemma_derivation_deterministic(
    a: PackageIdentity,
    b: PackageIdentity,
    root_a: Seq<char>,
    root_b: Seq<char>,
)
    requires
        a.name@ == b.name@,
        a.version@ == b.version@,
        a.source_host@ == b.source_host@,
        a.source_hash@ == b.source_hash@,
        root_a == root_b,
    ensures
        a.source_path(root_a) == b.source_path(root_b),
{
}

/// What loading the project's lockfile and asking it for one package gave.
#[derive(Debug, PartialEq, Eq)]
pub enum LockLookup {
    /// No lockfile stands at the project root.
    NoLockfile,
    /// The lockfile could not be loaded.
    Unreadable { cause: String },
    /// The lock graph holds no package of the name, or more than one.
    NoSingleMatch { cause: String },
    /// The one package that the name resolves to.
    Found { identity: PackageIdentity },
}

/// Turns the lookup of `crate_name` in the lockfile into the directory of its
/// source under `cache_root`, or into the error that the lookup calls for.
pub fn cargo_dir(crate_name: &str, lookup: LockLookup, cache_root: &str) -> (r: Result<
    String,
    OpenError,
>)
    ensures
        lookup is NoLockfile <==> r == Err::<String, OpenError>(OpenError::NotAProject),
        lookup matches LockLookup::Unreadable { cause } ==> r == Err::<String, OpenError>(
            OpenError::LockfileParseError { cause },
        ),
        lookup matches LockLookup::NoSingleMatch { cause } ==> (r matches Err(
            OpenError::AmbiguousOrMissingPackage { query, cause: c },
        ) && query@ == crate_name@ && c == cause),
        lookup is Found <==> r is Ok,
        lookup matches LockLookup::Found { identity } ==> (r matches Ok(p) && p@
            == identity.source_path(cache_root@)),
{
    match lookup {
        LockLookup::NoLockfile => Err(OpenError::NotAProject),
        LockLookup::Unreadable { cause } => Err(OpenError::LockfileParseError { cause }),
        LockLookup::NoSingleMatch { cause } => Err(
            OpenError::AmbiguousOrMissingPackage { query: String::from_str(crate_name), cause },
        ),
        LockLookup::Found { identity } => Ok(derive_source_path(&identity, cache_root)),
    }
}

/// How the editor process ended, as the operating system reported it.
#[derive(Debug, PartialEq, Eq)]
pub enum LaunchStatus {
    /// The process could not be started.
    NotStarted { cause: String },
    /// The process ran and ended, with its exit code when it had one.
    Exited { code: Option<i32> },
}

/// Decides the tool's outcome from how the editor ended: success only for
/// exit code zero.
pub fn launch_outcome(status: LaunchStatus) -> (r: Result<(), OpenError>)
    ensures
        r is Ok <==> status == (LaunchStatus::Exited { code: Some(0i32) }),
        status matches LaunchStatus::NotStarted { cause } ==> r == Err::<(), OpenError>(
            OpenError::LaunchFailed { cause },
        ),
        status matches LaunchStatus::Exited { code } ==> (code != Some(0i32) ==> r == Err::<
            (),
            OpenError,
        >(OpenError::AbnormalExit { code })),
{
    match status {
        LaunchStatus::NotStarted { cause } => Err(OpenError::LaunchFailed { cause }),
        LaunchStatus::Exited { code } => {
            match code {
                Some(c) => {
                    if c == 0 {
                        Ok(())
                    } else {
                        Err(OpenError::AbnormalExit { code: Some(c) })
                    }
                },
                None => Err(OpenError::AbnormalExit { code: None }),
            }
        },
    }
}

/// The status the tool exits with: zero on success, else the failure's own.
pub fn exit_status(outcome: &Result<(), OpenError>) -> (r: i32)
    ensures
        *outcome is Ok ==> r == 0,
        *outcome matches Err(e) ==> r == crate::error::exit_code_spec(e),
{
    match outcome {
        Ok(()) => 0,
        Err(e) => e.exit_code(),
    }
}

} // verus!
