//! What the calls of the library do together, from arguments to results.
//!
//! Each law speaks of calls: `call_ensures(f, arguments, result)` says that `f`,
//! called with the arguments, may return the result. The laws hold of every result
//! that a call may return.

use std::path::{Path, PathBuf};
use vstd::prelude::*;

use crate::carveout::MetadataHost;
use crate::error::FilesystemPermissionsError;
use crate::glob::ValidatedDenyGlob;
use crate::mode::{FileSystemSandboxKind, FilesystemPermissionsMode};
use crate::permissions::{EffectiveFilesystemPermissions, FilesystemPermissionsContext};
use crate::policy::{EntryPath, PermissionProfile, PolicyEntry, PolicyFacts, PolicyHost};

verus! {

/// The mode made from a kind is restricted, unrestricted or external exactly if the
/// kind is.
pub proof fn law_mode_made_from_kind(kind: FileSystemSandboxKind, mode: FilesystemPermissionsMode)
    requires
        call_ensures(FilesystemPermissionsMode::from_kind, (kind,), mode),
    ensures
        mode is Restricted <==> kind is Restricted,
        mode is Unrestricted <==> kind is Unrestricted,
        mode is External <==> kind is ExternalSandbox,
{
}

/// Two globs compare equal exactly if their patterns read the same, and a clone
/// reads the same as the glob that it was made of.
pub proof fn law_globs_and_their_patterns(
    left: ValidatedDenyGlob,
    right: ValidatedDenyGlob,
    copy: ValidatedDenyGlob,
    left_text: &str,
    right_text: &str,
    copy_text: &str,
    same: bool,
)
    requires
        call_ensures(ValidatedDenyGlob::clone, (&left,), copy),
        call_ensures(ValidatedDenyGlob::pattern, (&left,), left_text),
        call_ensures(ValidatedDenyGlob::pattern, (&right,), right_text),
        call_ensures(ValidatedDenyGlob::pattern, (&copy,), copy_text),
        call_ensures(ValidatedDenyGlob::eq, (&left, &right), same),
    ensures
        same <==> left_text@ == right_text@,
        copy_text@ == left_text@,
{
}

/// An error shows the message that it was made with, a clone shows the same
/// message, and two errors compare equal exactly if their messages are the same.
pub proof fn law_errors_and_their_messages(
    left: String,
    right: String,
    shown: String,
    copy: FilesystemPermissionsError,
    same: bool,
)
    requires
        call_ensures(
            FilesystemPermissionsError::message,
            (&FilesystemPermissionsError::InvalidDenyGlob(left),),
            shown,
        ),
        call_ensures(
            FilesystemPermissionsError::clone,
            (&FilesystemPermissionsError::InvalidDenyGlob(left),),
            copy,
        ),
        call_ensures(
            FilesystemPermissionsError::eq,
            (
                &FilesystemPermissionsError::InvalidDenyGlob(left),
                &FilesystemPermissionsError::InvalidDenyGlob(right),
            ),
            same,
        ),
    ensures
        shown@ == left@,
        copy == FilesystemPermissionsError::InvalidDenyGlob(left),
        same <==> left@ == right@,
{
}

/// The subpath of an entry is the one that it names below the project roots, if it
/// grants read access, and there is none otherwise.
pub proof fn law_subpath_of_entry(
    entry: PolicyEntry,
    granted: PathBuf,
    subpath: Option<&PathBuf>,
)
    requires
        call_ensures(PolicyEntry::project_subpath, (&entry,), subpath),
    ensures
        subpath == Some(&granted) <==> entry.access is Read && entry.path == (
        EntryPath::ProjectRoots { subpath: Some(granted) }),
{
}

/// A path is kept, as it is, exactly if it does not exist.
pub proof fn law_missing_path_is_kept(path: PathBuf, exists: bool, kept: Option<PathBuf>)
    requires
        call_ensures(crate::carveout::keep_missing, (path, exists), kept),
    ensures
        kept is Some <==> !exists,
        kept is Some ==> kept->0 == path,
{
}

/// Assembled permissions hold each fact as it was stated: every list whole and in
/// order, every setting unchanged, whatever the other facts, the policy, the matcher
/// and the carveouts are.
pub proof fn law_assembled_permissions_hold_the_facts<R, W, P, M>(
    facts: PolicyFacts<R, W>,
    policy: P,
    matcher: Option<M>,
    carveouts: Vec<PathBuf>,
    cwd: R,
    permissions: EffectiveFilesystemPermissions<R, W, P, M>,
)
    requires
        call_ensures(
            EffectiveFilesystemPermissions::<R, W, P, M>::from_facts,
            (facts, policy, matcher, carveouts, cwd),
            permissions,
        ),
    ensures
        permissions.mode is Restricted <==> facts.kind is Restricted,
        permissions.mode is Unrestricted <==> facts.kind is Unrestricted,
        permissions.mode is External <==> facts.kind is ExternalSandbox,
        permissions.readable_roots == facts.readable_roots,
        permissions.writable_roots == facts.writable_roots,
        permissions.unreadable_roots == facts.unreadable_roots,
        permissions.unreadable_globs@.len() == facts.unreadable_globs@.len(),
        permissions.include_platform_defaults == facts.include_platform_defaults,
        permissions.glob_scan_max_depth == facts.glob_scan_max_depth,
{
}

/// The patterns of the globs that assembled permissions hold read as the facts state
/// them, each in its place.
pub proof fn law_assembled_globs_read_as_stated<R, W, P, M>(
    facts: PolicyFacts<R, W>,
    policy: P,
    matcher: Option<M>,
    carveouts: Vec<PathBuf>,
    cwd: R,
    permissions: EffectiveFilesystemPermissions<R, W, P, M>,
    i: int,
    text: &str,
)
    requires
        call_ensures(
            EffectiveFilesystemPermissions::<R, W, P, M>::from_facts,
            (facts, policy, matcher, carveouts, cwd),
            permissions,
        ),
        0 <= i < facts.unreadable_globs@.len(),
        call_ensures(ValidatedDenyGlob::pattern, (&permissions.unreadable_globs@[i],), text),
    ensures
        text@ == facts.unreadable_globs@[i]@,
{
    assert(permissions.unreadable_globs@[i]@ == facts.unreadable_globs@[i]@);
}

/// Whether a path is denied for reading is what the matcher that permissions were
/// assembled with says of that path, and no if there was none, whatever the facts,
/// the policy and the carveouts are.
pub proof fn law_denial_is_the_matchers<R, W, P, M, G>(
    facts: PolicyFacts<R, W>,
    policy: P,
    matcher: Option<M>,
    carveouts: Vec<PathBuf>,
    cwd: R,
    permissions: EffectiveFilesystemPermissions<R, W, P, M>,
    path: &Path,
    matcher_denies: G,
    denied: bool,
) where G: Fn(&M, &Path) -> bool
    requires
        call_ensures(
            EffectiveFilesystemPermissions::<R, W, P, M>::from_facts,
            (facts, policy, matcher, carveouts, cwd),
            permissions,
        ),
        call_ensures(
            EffectiveFilesystemPermissions::<R, W, P, M>::is_read_denied::<G>,
            (&permissions, path, matcher_denies),
            denied,
        ),
    ensures
        matcher is Some ==> call_ensures(matcher_denies, (&matcher->0, path), denied),
        matcher is None ==> !denied,
{
}

/// A path may be read exactly if the policy that permissions were assembled with
/// grants it and their matcher, if there is one, does not deny it, where each of the
/// two has one answer about the path.
pub proof fn law_reading_is_up_to_policy_and_matcher<R, W, P, M, C, G>(
    facts: PolicyFacts<R, W>,
    policy: P,
    matcher: Option<M>,
    carveouts: Vec<PathBuf>,
    cwd: R,
    permissions: EffectiveFilesystemPermissions<R, W, P, M>,
    path: &Path,
    policy_can_read: C,
    matcher_denies: G,
    granted: bool,
    denied: bool,
    readable: bool,
) where C: Fn(&P, &Path, &R) -> bool, G: Fn(&M, &Path) -> bool
    requires
        call_ensures(
            EffectiveFilesystemPermissions::<R, W, P, M>::from_facts,
            (facts, policy, matcher, carveouts, cwd),
            permissions,
        ),
        call_ensures(
            EffectiveFilesystemPermissions::<R, W, P, M>::can_read::<C, G>,
            (&permissions, path, policy_can_read, matcher_denies),
            readable,
        ),
        forall|answer: bool| #[trigger]
            call_ensures(policy_can_read, (&policy, path, &cwd), answer) ==> answer == granted,
        matcher is Some ==> forall|answer: bool| #[trigger]
            call_ensures(matcher_denies, (&matcher->0, path), answer) ==> answer == denied,
    ensures
        matcher is Some ==> readable == (granted && !denied),
        matcher is None ==> readable == granted,
{
}

/// A path that is denied for reading cannot be read, where the matcher has one
/// answer about it: the two queries agree.
pub proof fn law_denied_path_cannot_be_read<R, W, P, M, C, G>(
    permissions: EffectiveFilesystemPermissions<R, W, P, M>,
    path: &Path,
    policy_can_read: C,
    matcher_denies: G,
    denied: bool,
    readable: bool,
) where C: Fn(&P, &Path, &R) -> bool, G: Fn(&M, &Path) -> bool
    requires
        call_ensures(
            EffectiveFilesystemPermissions::<R, W, P, M>::is_read_denied::<G>,
            (&permissions, path, matcher_denies),
            denied,
        ),
        call_ensures(
            EffectiveFilesystemPermissions::<R, W, P, M>::can_read::<C, G>,
            (&permissions, path, policy_can_read, matcher_denies),
            readable,
        ),
        forall|matcher: M, one: bool, other: bool|
            #![trigger call_ensures(matcher_denies, (&matcher, path), one), call_ensures(matcher_denies, (&matcher, path), other)]
            call_ensures(matcher_denies, (&matcher, path), one) && call_ensures(
                matcher_denies,
                (&matcher, path),
                other,
            ) ==> one == other,
    ensures
        denied ==> !readable,
{
}

/// Whether a path may be written is what the policy that permissions were assembled
/// with says of that path, in their working directory.
pub proof fn law_writing_is_up_to_the_policy<R, W, P, M, C>(
    facts: PolicyFacts<R, W>,
    policy: P,
    matcher: Option<M>,
    carveouts: Vec<PathBuf>,
    cwd: R,
    permissions: EffectiveFilesystemPermissions<R, W, P, M>,
    path: &Path,
    policy_can_write: C,
    writable: bool,
) where C: Fn(&P, &Path, &R) -> bool
    requires
        call_ensures(
            EffectiveFilesystemPermissions::<R, W, P, M>::from_facts,
            (facts, policy, matcher, carveouts, cwd),
            permissions,
        ),
        call_ensures(
            EffectiveFilesystemPermissions::<R, W, P, M>::can_write::<C>,
            (&permissions, path, policy_can_write),
            writable,
        ),
    ensures
        call_ensures(policy_can_write, (&policy, path, &cwd), writable),
{
}

/// Whether the whole disk may be read, or written, is what the policy that
/// permissions were assembled with says.
pub proof fn law_full_disk_access_is_up_to_the_policy<R, W, P, M, C, D>(
    facts: PolicyFacts<R, W>,
    policy: P,
    matcher: Option<M>,
    carveouts: Vec<PathBuf>,
    cwd: R,
    permissions: EffectiveFilesystemPermissions<R, W, P, M>,
    policy_reads_all: C,
    policy_writes_all: D,
    reads_all: bool,
    writes_all: bool,
) where C: Fn(&P) -> bool, D: Fn(&P) -> bool
    requires
        call_ensures(
            EffectiveFilesystemPermissions::<R, W, P, M>::from_facts,
            (facts, policy, matcher, carveouts, cwd),
            permissions,
        ),
        call_ensures(
            EffectiveFilesystemPermissions::<R, W, P, M>::has_full_disk_read_access::<C>,
            (&permissions, policy_reads_all),
            reads_all,
        ),
        call_ensures(
            EffectiveFilesystemPermissions::<R, W, P, M>::has_full_disk_write_access::<D>,
            (&permissions, policy_writes_all),
            writes_all,
        ),
    ensures
        call_ensures(policy_reads_all, (&policy,), reads_all),
        call_ensures(policy_writes_all, (&policy,), writes_all),
{
}

/// A path is reported as a missing carveout exactly if it has the components of one
/// of the carveouts that permissions were assembled with.
pub proof fn law_assembled_carveouts_are_reported<R, W, P, M>(
    facts: PolicyFacts<R, W>,
    policy: P,
    matcher: Option<M>,
    carveouts: Vec<PathBuf>,
    cwd: R,
    permissions: EffectiveFilesystemPermissions<R, W, P, M>,
    path: &Path,
    missing: bool,
)
    requires
        call_ensures(
            EffectiveFilesystemPermissions::<R, W, P, M>::from_facts,
            (facts, policy, matcher, carveouts, cwd),
            permissions,
        ),
        call_ensures(
            EffectiveFilesystemPermissions::<R, W, P, M>::is_missing_protected_metadata_carveout,
            (&permissions, path),
            missing,
        ),
    ensures
        missing <==> exists|i: int|
            0 <= i < carveouts@.len() && crate::path::path_buf_components(
                &(#[trigger] carveouts@[i]),
            ) == crate::path::path_components(path),
{
}

/// Deriving always succeeds, and what it yields are the facts of the bound policy,
/// each as the host states it: every list whole and in order, every setting
/// unchanged. The host is taken to bind the policy of the profile in one way and to
/// state its facts in one way.
pub proof fn law_derived_permissions_hold_the_facts<R, W, P, M, N, V, E, B, D, F>(
    profile: PermissionProfile<P>,
    context: FilesystemPermissionsContext<'_, R>,
    metadata_host: &MetadataHost<N, V, E>,
    policy_host: &PolicyHost<B, D, F>,
    result: Result<EffectiveFilesystemPermissions<R, W, P, M>, FilesystemPermissionsError>,
    bound: P,
    facts: PolicyFacts<R, W>,
) where
    R: Clone,
    N: Fn(&PathBuf) -> bool,
    V: Fn(&PathBuf, &R) -> PathBuf,
    E: Fn(&PathBuf) -> bool,
    B: Fn(P, &R) -> P,
    D: Fn(&P, &R) -> Option<M>,
    F: Fn(&P, &R) -> PolicyFacts<R, W>,

    requires
        call_ensures(
            EffectiveFilesystemPermissions::<R, W, P, M>::from_profile::<N, V, E, B, D, F>,
            (profile, context, metadata_host, policy_host),
            result,
        ),
        forall|answer: P| #[trigger]
            call_ensures(
                policy_host.materialize_project_roots,
                (profile.file_system_policy, context.permission_profile_cwd),
                answer,
            ) ==> answer == bound,
        forall|answer: PolicyFacts<R, W>| #[trigger]
            call_ensures(
                policy_host.facts,
                (&bound, context.permission_profile_cwd),
                answer,
            ) ==> answer == facts,
    ensures
        result is Ok,
        result->Ok_0.mode is Restricted <==> facts.kind is Restricted,
        result->Ok_0.mode is Unrestricted <==> facts.kind is Unrestricted,
        result->Ok_0.mode is External <==> facts.kind is ExternalSandbox,
        result->Ok_0.readable_roots == facts.readable_roots,
        result->Ok_0.writable_roots == facts.writable_roots,
        result->Ok_0.unreadable_roots == facts.unreadable_roots,
        result->Ok_0.unreadable_globs@.len() == facts.unreadable_globs@.len(),
        forall|i: int|
            0 <= i < facts.unreadable_globs@.len() ==> (
            #[trigger] result->Ok_0.unreadable_globs@[i])@ == facts.unreadable_globs@[i]@,
        result->Ok_0.include_platform_defaults == facts.include_platform_defaults,
        result->Ok_0.glob_scan_max_depth == facts.glob_scan_max_depth,
{
}

/// Queries of derived permissions are put to the bound policy and to the matcher
/// built for it, with the working directory of the profile: a path may be read
/// exactly if that policy grants it and that matcher, if there is one, does not deny
/// it, and written if that policy says so. The host is taken to have one answer to
/// each question, and a clone of the working directory to be equal to it.
pub proof fn law_derived_queries_are_put_to_the_bound_policy<
    R,
    W,
    P,
    M,
    N,
    V,
    E,
    B,
    D,
    F,
    C,
    G,
    X,
>(
    profile: PermissionProfile<P>,
    context: FilesystemPermissionsContext<'_, R>,
    metadata_host: &MetadataHost<N, V, E>,
    policy_host: &PolicyHost<B, D, F>,
    result: Result<EffectiveFilesystemPermissions<R, W, P, M>, FilesystemPermissionsError>,
    bound: P,
    matcher: Option<M>,
    path: &Path,
    policy_can_read: C,
    matcher_denies: G,
    policy_can_write: X,
    granted: bool,
    denied: bool,
    readable: bool,
    read_denied: bool,
    writable: bool,
) where
    R: Clone,
    N: Fn(&PathBuf) -> bool,
    V: Fn(&PathBuf, &R) -> PathBuf,
    E: Fn(&PathBuf) -> bool,
    B: Fn(P, &R) -> P,
    D: Fn(&P, &R) -> Option<M>,
    F: Fn(&P, &R) -> PolicyFacts<R, W>,
    C: Fn(&P, &Path, &R) -> bool,
    G: Fn(&M, &Path) -> bool,
    X: Fn(&P, &Path, &R) -> bool,

    requires
        call_ensures(
            EffectiveFilesystemPermissions::<R, W, P, M>::from_profile::<N, V, E, B, D, F>,
            (profile, context, metadata_host, policy_host),
            result,
        ),
        forall|answer: P| #[trigger]
            call_ensures(
                policy_host.materialize_project_roots,
                (profile.file_system_policy, context.permission_profile_cwd),
                answer,
            ) ==> answer == bound,
        forall|answer: Option<M>| #[trigger]
            call_ensures(
                policy_host.read_deny_matcher,
                (&bound, context.permission_profile_cwd),
                answer,
            ) ==> answer == matcher,
        forall|copy: R| #[trigger]
            cloned(*context.permission_profile_cwd, copy) ==> copy
                == *context.permission_profile_cwd,
        forall|answer: bool| #[trigger]
            call_ensures(
                policy_can_read,
                (&bound, path, context.permission_profile_cwd),
                answer,
            ) ==> answer == granted,
        matcher is Some ==> forall|answer: bool| #[trigger]
            call_ensures(matcher_denies, (&matcher->0, path), answer) ==> answer == denied,
        call_ensures(
            EffectiveFilesystemPermissions::<R, W, P, M>::can_read::<C, G>,
            (&result->Ok_0, path, policy_can_read, matcher_denies),
            readable,
        ),
        call_ensures(
            EffectiveFilesystemPermissions::<R, W, P, M>::is_read_denied::<G>,
            (&result->Ok_0, path, matcher_denies),
            read_denied,
        ),
        call_ensures(
            EffectiveFilesystemPermissions::<R, W, P, M>::can_write::<X>,
            (&result->Ok_0, path, policy_can_write),
            writable,
        ),
    ensures
        matcher is Some ==> read_denied == denied,
        matcher is None ==> !read_denied,
        readable == (granted && !read_denied),
        call_ensures(
            policy_can_write,
            (&bound, path, context.permission_profile_cwd),
            writable,
        ),
{
}

/// Derived permissions report a path as a missing carveout exactly if some entry of
/// the profile grants reading of a subpath below the project roots whose name is
/// protected and which resolves to that path, however spelled, and the resolved path
/// does not exist. The host is taken to have one answer to each question.
pub proof fn law_derived_carveouts_are_reported<R, W, P, M, N, V, E, B, D, F>(
    profile: PermissionProfile<P>,
    context: FilesystemPermissionsContext<'_, R>,
    metadata_host: &MetadataHost<N, V, E>,
    policy_host: &PolicyHost<B, D, F>,
    result: Result<EffectiveFilesystemPermissions<R, W, P, M>, FilesystemPermissionsError>,
    protected: spec_fn(PathBuf) -> bool,
    resolved: spec_fn(PathBuf) -> PathBuf,
    present: spec_fn(PathBuf) -> bool,
    path: &Path,
    missing: bool,
) where
    R: Clone,
    N: Fn(&PathBuf) -> bool,
    V: Fn(&PathBuf, &R) -> PathBuf,
    E: Fn(&PathBuf) -> bool,
    B: Fn(P, &R) -> P,
    D: Fn(&P, &R) -> Option<M>,
    F: Fn(&P, &R) -> PolicyFacts<R, W>,

    requires
        call_ensures(
            EffectiveFilesystemPermissions::<R, W, P, M>::from_profile::<N, V, E, B, D, F>,
            (profile, context, metadata_host, policy_host),
            result,
        ),
        forall|subpath: PathBuf, answer: bool| #[trigger]
            call_ensures(metadata_host.is_protected_metadata_name, (&subpath,), answer)
                ==> answer == protected(subpath),
        forall|subpath: PathBuf, answer: PathBuf| #[trigger]
            call_ensures(
                metadata_host.resolve_path_against_base,
                (&subpath, context.permission_profile_cwd),
                answer,
            ) ==> answer == resolved(subpath),
        forall|target: PathBuf, answer: bool| #[trigger]
            call_ensures(metadata_host.exists, (&target,), answer) ==> answer == present(target),
        call_ensures(
            EffectiveFilesystemPermissions::<R, W, P, M>::is_missing_protected_metadata_carveout,
            (&result->Ok_0, path),
            missing,
        ),
    ensures
        missing <==> exists|i: int|
            {
                &&& 0 <= i < profile.entries@.len()
                &&& (#[trigger] profile.entries@[i]).access is Read
                &&& profile.entries@[i].path is ProjectRoots
                &&& profile.entries@[i].path->subpath is Some
                &&& protected(profile.entries@[i].path->subpath->0)
                &&& !present(resolved(profile.entries@[i].path->subpath->0))
                &&& crate::path::path_buf_components(
                    &resolved(profile.entries@[i].path->subpath->0),
                ) == crate::path::path_components(path)
            },
{
    let cwd = *context.permission_profile_cwd;
    let entries = profile.entries@;
    let answers = crate::carveout::MetadataAnswers { protected, resolved, present };
    let outcomes = choose|outcomes: Seq<Option<PathBuf>>|
        {
            &&& #[trigger] metadata_host.settles_all(cwd, entries, outcomes)
            &&& result->Ok_0.carveouts() == crate::carveout::collected(outcomes)
        };
    crate::permissions::law_missing_protected_metadata_is_reported(
        result->Ok_0,
        *metadata_host,
        cwd,
        answers,
        entries,
        outcomes,
        path,
    );
    assert forall|i: int| 0 <= i < entries.len() implies {
        &&& (#[trigger] entries[i]).readable_subpath() is Some <==> {
            &&& entries[i].access is Read
            &&& entries[i].path is ProjectRoots
            &&& entries[i].path->subpath is Some
        }
        &&& entries[i].readable_subpath() is Some ==> entries[i].readable_subpath()
            == entries[i].path->subpath
    } by {}
}

/// A profile can be derived from, whatever it holds, by hosts whose operations can
/// be called on anything.
pub proof fn law_ready_hosts_can_derive<R, W, P, M, N, V, E, B, D, F>(
    profile: PermissionProfile<P>,
    context: FilesystemPermissionsContext<'_, R>,
    metadata_host: &MetadataHost<N, V, E>,
    policy_host: &PolicyHost<B, D, F>,
) where
    R: Clone,
    N: Fn(&PathBuf) -> bool,
    V: Fn(&PathBuf, &R) -> PathBuf,
    E: Fn(&PathBuf) -> bool,
    B: Fn(P, &R) -> P,
    D: Fn(&P, &R) -> Option<M>,
    F: Fn(&P, &R) -> PolicyFacts<R, W>,

    requires
        forall|path: PathBuf| #[trigger]
            call_requires(metadata_host.is_protected_metadata_name, (&path,)),
        forall|path: PathBuf| #[trigger]
            call_requires(
                metadata_host.resolve_path_against_base,
                (&path, context.permission_profile_cwd),
            ),
        forall|path: PathBuf| #[trigger] call_requires(metadata_host.exists, (&path,)),
        forall|policy: P| #[trigger]
            call_requires(
                policy_host.materialize_project_roots,
                (policy, context.permission_profile_cwd),
            ),
        forall|policy: P| #[trigger]
            call_requires(
                policy_host.read_deny_matcher,
                (&policy, context.permission_profile_cwd),
            ),
        forall|policy: P| #[trigger]
            call_requires(policy_host.facts, (&policy, context.permission_profile_cwd)),
    ensures
        call_requires(
            EffectiveFilesystemPermissions::<R, W, P, M>::from_profile::<N, V, E, B, D, F>,
            (profile, context, metadata_host, policy_host),
        ),
{
}

} // verus!
