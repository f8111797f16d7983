//! What the library reads of a filesystem policy, and what it asks the host
//! about one.

use std::path::PathBuf;
use vstd::prelude::*;

use crate::mode::FileSystemSandboxKind;

verus! {

/// The access that a policy entry grants, as far as the library tells accesses
/// apart.
#[derive(Debug, Clone, Copy, PartialEq, Eq, Structural)]
pub enum EntryAccess {
    /// Read access.
    Read,
    /// Any other access.
    Other,
}

/// The place that a policy entry speaks of, as far as the library tells places
/// apart.
#[derive(Debug)]
pub enum EntryPath {
    /// The project roots, or a path below them.
    ProjectRoots { subpath: Option<PathBuf> },
    /// Any other place.
    Other,
}

/// One entry of a filesystem policy.
#[derive(Debug)]
pub struct PolicyEntry {
    pub access: EntryAccess,
    pub path: EntryPath,
}

impl PolicyEntry {
    /// The subpath that the entry leaves readable below the project roots, if it
    /// is an entry of that sort.
    pub open spec fn readable_subpath(self) -> Option<PathBuf> {
        if self.access == EntryAccess::Read {
            match self.path {
                EntryPath::ProjectRoots { subpath } => subpath,
                EntryPath::Other => None,
            }
        } else {
            None
        }
    }

    /// Returns the subpath that the entry leaves readable below the project
    /// roots, if it is an entry of that sort.
    pub fn project_subpath(&self) -> (subpath: Option<&PathBuf>)
        ensures
            subpath is Some <==> self.readable_subpath() is Some,
            subpath is Some ==> *subpath->0 == self.readable_subpath()->0,
            match (self.access, self.path) {
                (EntryAccess::Read, EntryPath::ProjectRoots { subpath: Some(granted) }) => subpath
                    == Some(&granted),
                _ => subpath is None,
            },
    {
        match self.access {
            EntryAccess::Read => match &self.path {
                EntryPath::ProjectRoots { subpath: Some(subpath) } => Some(subpath),
                _ => None,
            },
            EntryAccess::Other => None,
        }
    }
}

/// A permission profile: the filesystem policy that it asks for, with the
/// entries of that policy in the library's terms. `P` is the host's policy.
pub struct PermissionProfile<P> {
    pub file_system_policy: P,
    pub entries: Vec<PolicyEntry>,
}

/// What a policy says once its symbolic entries are bound to a working
/// directory. `R` is the host's root, `W` its writable root.
pub struct PolicyFacts<R, W> {
    pub kind: FileSystemSandboxKind,
    pub readable_roots: Vec<R>,
    pub writable_roots: Vec<W>,
    pub unreadable_roots: Vec<R>,
    pub unreadable_globs: Vec<String>,
    pub include_platform_defaults: bool,
    pub glob_scan_max_depth: Option<usize>,
}

/// The host's operations on a filesystem policy. Each takes a policy and the
/// working directory of the profile.
pub struct PolicyHost<B, D, F> {
    /// Binds the symbolic project roots of a policy to the working directory.
    pub materialize_project_roots: B,
    /// Builds the matcher for the read denies of a policy, if it has any.
    pub read_deny_matcher: D,
    /// Reads the facts that a policy states.
    pub facts: F,
}

impl<B, D, F> PolicyHost<B, D, F> {
    /// The policy `source` can be bound to the working directory `cwd`, and
    /// whatever comes of it can be asked for its matcher and its facts. Nothing is
    /// asked of the policy before it is bound.
    pub open spec fn can_bind<P, R, W, M>(self, source: P, cwd: R) -> bool where
        B: Fn(P, &R) -> P,
        D: Fn(&P, &R) -> Option<M>,
        F: Fn(&P, &R) -> PolicyFacts<R, W>,
     {
        &&& call_requires(self.materialize_project_roots, (source, &cwd))
        &&& forall|bound: P| #[trigger]
            call_ensures(self.materialize_project_roots, (source, &cwd), bound) ==> {
                &&& call_requires(self.read_deny_matcher, (&bound, &cwd))
                &&& call_requires(self.facts, (&bound, &cwd))
            }
    }
}

/// An entry leaves a subpath readable exactly if it grants read access, speaks of
/// the project roots and names that subpath below them.
pub proof fn law_readable_subpath_is_the_one_granted(entry: PolicyEntry, granted: PathBuf)
    ensures
        entry.readable_subpath() == Some(granted) <==> entry.access is Read && entry.path == (
        EntryPath::ProjectRoots { subpath: Some(granted) }),
{
}

/// A policy can be bound by any host whose operations can be called on any policy.
pub proof fn law_ready_host_can_bind<B, D, F, P, R, W, M>(
    host: PolicyHost<B, D, F>,
    source: P,
    cwd: R,
) where
    B: Fn(P, &R) -> P,
    D: Fn(&P, &R) -> Option<M>,
    F: Fn(&P, &R) -> PolicyFacts<R, W>,

    requires
        forall|policy: P| #[trigger]
            call_requires(host.materialize_project_roots, (policy, &cwd)),
        forall|policy: P| #[trigger] call_requires(host.read_deny_matcher, (&policy, &cwd)),
        forall|policy: P| #[trigger] call_requires(host.facts, (&policy, &cwd)),
    ensures
        host.can_bind::<P, R, W, M>(source, cwd),
{
}

} // verus!
