//! Effective filesystem enforcement facts derived from a permission profile.
//!
//! A sandbox host owns a filesystem policy; this library decides what a derived
//! set of permissions holds and how its queries are answered. Values that only
//! the host understands (roots, the policy itself, its read-deny matcher) are
//! type parameters that the library carries and hands back, and the host's
//! operations on them are closures. Nothing is taken for granted of a closure:
//! every contract holds whatever the closures answer, and says which arguments
//! they are asked about.

pub mod carveout;
pub mod error;
pub mod glob;
pub mod laws;
pub mod mode;
pub mod path;
pub mod permissions;
pub mod policy;

pub use carveout::MetadataHost;
pub use error::FilesystemPermissionsError;
pub use glob::ValidatedDenyGlob;
pub use mode::{FileSystemSandboxKind, FilesystemPermissionsMode};
pub use permissions::{EffectiveFilesystemPermissions, EnforcementState, FilesystemPermissionsContext};
pub use policy::{EntryAccess, EntryPath, PermissionProfile, PolicyEntry, PolicyFacts, PolicyHost};
