//! The outer access mode and the sandbox kind that it is read from.

use vstd::prelude::*;

verus! {

/// How a filesystem policy is enforced.
#[derive(Debug, Clone, Copy, PartialEq, Eq, Structural)]
pub enum FileSystemSandboxKind {
    Restricted,
    Unrestricted,
    ExternalSandbox,
}

/// The outer filesystem access mode represented by effective permissions.
#[derive(Debug, Clone, Copy, PartialEq, Eq, Structural)]
pub enum FilesystemPermissionsMode {
    Restricted,
    Unrestricted,
    External,
}

impl FilesystemPermissionsMode {
    /// The mode that stands for a sandbox kind.
    pub open spec fn of_kind(kind: FileSystemSandboxKind) -> FilesystemPermissionsMode {
        match kind {
            FileSystemSandboxKind::Restricted => FilesystemPermissionsMode::Restricted,
            FileSystemSandboxKind::Unrestricted => FilesystemPermissionsMode::Unrestricted,
            FileSystemSandboxKind::ExternalSandbox => FilesystemPermissionsMode::External,
        }
    }

    /// Returns the mode that stands for `kind`.
    pub fn from_kind(kind: FileSystemSandboxKind) -> (mode: FilesystemPermissionsMode)
        ensures
            mode == Self::of_kind(kind),
            mode is Restricted <==> kind is Restricted,
            mode is Unrestricted <==> kind is Unrestricted,
            mode is External <==> kind is ExternalSandbox,
    {
        match kind {
            FileSystemSandboxKind::Restricted => FilesystemPermissionsMode::Restricted,
            FileSystemSandboxKind::Unrestricted => FilesystemPermissionsMode::Unrestricted,
            FileSystemSandboxKind::ExternalSandbox => FilesystemPermissionsMode::External,
        }
    }
}

/// Permissions are restricted, unrestricted or left to an external sandbox exactly
/// if the sandbox kind is.
pub proof fn law_mode_agrees_with_kind(kind: FileSystemSandboxKind)
    ensures
        FilesystemPermissionsMode::of_kind(kind) is Restricted <==> kind is Restricted,
        FilesystemPermissionsMode::of_kind(kind) is Unrestricted <==> kind is Unrestricted,
        FilesystemPermissionsMode::of_kind(kind) is External <==> kind is ExternalSandbox,
{
}

/// A mode tells its sandbox kind: two kinds with one mode are the same kind.
pub proof fn law_mode_tells_kind(left: FileSystemSandboxKind, right: FileSystemSandboxKind)
    ensures
        FilesystemPermissionsMode::of_kind(left) == FilesystemPermissionsMode::of_kind(right)
            <==> left == right,
{
}

} // verus!
