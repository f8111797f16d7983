//! Effective permissions: how they are derived, and how queries are answered.

use std::path::{Path, PathBuf};
use vstd::prelude::*;

use crate::carveout::{missing_carveouts, MetadataHost};
use crate::error::FilesystemPermissionsError;
use crate::glob::{retain_all, ValidatedDenyGlob};
use crate::mode::FilesystemPermissionsMode;
use crate::path::same_path;
use crate::policy::{PermissionProfile, PolicyFacts, PolicyHost};

verus! {

/// Inputs needed to bind any remaining symbolic filesystem permissions.
pub struct FilesystemPermissionsContext<'a, R> {
    pub permission_profile_cwd: &'a R,
}

/// Effective filesystem enforcement facts derived from a permission profile.
///
/// This representation centralizes effective roots, writable carveouts,
/// protected metadata, and read-deny matching before platform-specific lowering.
/// `R` is the host's root, `W` its writable root, `P` its policy and `M` its
/// matcher for read denies.
pub struct EffectiveFilesystemPermissions<R, W, P, M> {
    pub mode: FilesystemPermissionsMode,
    pub readable_roots: Vec<R>,
    pub writable_roots: Vec<W>,
    pub unreadable_roots: Vec<R>,
    pub unreadable_globs: Vec<ValidatedDenyGlob>,
    pub include_platform_defaults: bool,
    pub glob_scan_max_depth: Option<usize>,
    pub enforcement: EnforcementState<R, P, M>,
}

/// What queries about effective permissions are answered from.
pub struct EnforcementState<R, P, M> {
    file_system_policy: P,
    missing_protected_metadata_carveouts: Vec<PathBuf>,
    permission_profile_cwd: R,
    read_deny_matcher: Option<M>,
}

impl<R, P, M> EnforcementState<R, P, M> {
    /// The policy that queries are put to.
    pub closed spec fn policy(self) -> P {
        self.file_system_policy
    }

    /// The working directory that queries are put with.
    pub closed spec fn cwd(self) -> R {
        self.permission_profile_cwd
    }

    /// The matcher for explicit read denies, if the policy has any.
    pub closed spec fn matcher(self) -> Option<M> {
        self.read_deny_matcher
    }

    /// The protected metadata that is granted for reading and missing.
    pub closed spec fn carveouts(self) -> Seq<PathBuf> {
        self.missing_protected_metadata_carveouts@
    }
}

impl<R, W, P, M> EffectiveFilesystemPermissions<R, W, P, M> {
    /// The policy that queries are put to.
    pub open spec fn policy(self) -> P {
        self.enforcement.policy()
    }

    /// The working directory that queries are put with.
    pub open spec fn cwd(self) -> R {
        self.enforcement.cwd()
    }

    /// The matcher for explicit read denies, if the policy has any.
    pub open spec fn matcher(self) -> Option<M> {
        self.enforcement.matcher()
    }

    /// The protected metadata that is granted for reading and missing.
    pub open spec fn carveouts(self) -> Seq<PathBuf> {
        self.enforcement.carveouts()
    }

    /// The public fields hold what `facts` states: the mode stands for the kind,
    /// every glob is retained as it is written, and the rest is unchanged.
    pub open spec fn shows(self, facts: PolicyFacts<R, W>) -> bool {
        &&& self.mode == FilesystemPermissionsMode::of_kind(facts.kind)
        &&& self.readable_roots == facts.readable_roots
        &&& self.writable_roots == facts.writable_roots
        &&& self.unreadable_roots == facts.unreadable_roots
        &&& self.unreadable_globs@.len() == facts.unreadable_globs@.len()
        &&& forall|i: int|
            0 <= i < facts.unreadable_globs@.len() ==> (#[trigger] self.unreadable_globs@[i])@
                == facts.unreadable_globs@[i]@
        &&& self.include_platform_defaults == facts.include_platform_defaults
        &&& self.glob_scan_max_depth == facts.glob_scan_max_depth
    }

    /// Assembles permissions from a bound policy: what it states, the matcher for
    /// its read denies, the carveouts that are missing, and the working directory
    /// that it is bound to.
    pub fn from_facts(
        facts: PolicyFacts<R, W>,
        file_system_policy: P,
        read_deny_matcher: Option<M>,
        missing_protected_metadata_carveouts: Vec<PathBuf>,
        permission_profile_cwd: R,
    ) -> (permissions: Self)
        ensures
            permissions.shows(facts),
            permissions.mode is Restricted <==> facts.kind is Restricted,
            permissions.mode is Unrestricted <==> facts.kind is Unrestricted,
            permissions.mode is External <==> facts.kind is ExternalSandbox,
            permissions.readable_roots == facts.readable_roots,
            permissions.writable_roots == facts.writable_roots,
            permissions.unreadable_roots == facts.unreadable_roots,
            permissions.unreadable_globs@.len() == facts.unreadable_globs@.len(),
            forall|i: int|
                0 <= i < facts.unreadable_globs@.len() ==> (
                #[trigger] permissions.unreadable_globs@[i])@ == facts.unreadable_globs@[i]@,
            permissions.include_platform_defaults == facts.include_platform_defaults,
            permissions.glob_scan_max_depth == facts.glob_scan_max_depth,
            permissions.policy() == file_system_policy,
            permissions.matcher() == read_deny_matcher,
            permissions.carveouts() == missing_protected_metadata_carveouts@,
            permissions.cwd() == permission_profile_cwd,
    {
        EffectiveFilesystemPermissions {
            mode: FilesystemPermissionsMode::from_kind(facts.kind),
            readable_roots: facts.readable_roots,
            writable_roots: facts.writable_roots,
            unreadable_roots: facts.unreadable_roots,
            unreadable_globs: retain_all(facts.unreadable_globs),
            include_platform_defaults: facts.include_platform_defaults,
            glob_scan_max_depth: facts.glob_scan_max_depth,
            enforcement: EnforcementState {
                file_system_policy,
                missing_protected_metadata_carveouts,
                permission_profile_cwd,
                read_deny_matcher,
            },
        }
    }

    /// Derives effective filesystem enforcement facts for platform consumers.
    ///
    /// Callers must pass an effective profile, after runtime grants and configured
    /// workspace roots have been applied. Any symbolic workspace entry that
    /// remains is bound to `permission_profile_cwd`.
    ///
    /// Missing carveouts are looked for among the entries of the profile as it is
    /// passed, everything else is read from the policy once it is bound. The host
    /// has to be ready for no more questions than the entries raise. Deriving
    /// never fails: a malformed deny pattern is retained, and it is left to the
    /// matcher to fail closed on it.
    pub fn from_profile<N, V, E, B, D, F>(
        permission_profile: PermissionProfile<P>,
        context: FilesystemPermissionsContext<'_, R>,
        metadata_host: &MetadataHost<N, V, E>,
        policy_host: &PolicyHost<B, D, F>,
    ) -> (result: Result<Self, FilesystemPermissionsError>) where
        R: Clone,
        N: Fn(&PathBuf) -> bool,
        V: Fn(&PathBuf, &R) -> PathBuf,
        E: Fn(&PathBuf) -> bool,
        B: Fn(P, &R) -> P,
        D: Fn(&P, &R) -> Option<M>,
        F: Fn(&P, &R) -> PolicyFacts<R, W>,

        requires
            metadata_host.can_ask_all(
                *context.permission_profile_cwd,
                permission_profile.entries@,
            ),
            policy_host.can_bind::<P, R, W, M>(
                permission_profile.file_system_policy,
                *context.permission_profile_cwd,
            ),
        ensures
            result is Ok,
            exists|outcomes: Seq<Option<PathBuf>>|
                {
                    &&& #[trigger] metadata_host.settles_all(
                        *context.permission_profile_cwd,
                        permission_profile.entries@,
                        outcomes,
                    )
                    &&& result->Ok_0.carveouts() == crate::carveout::collected(outcomes)
                },
            call_ensures(
                policy_host.materialize_project_roots,
                (permission_profile.file_system_policy, context.permission_profile_cwd),
                result->Ok_0.policy(),
            ),
            call_ensures(
                policy_host.read_deny_matcher,
                (&result->Ok_0.policy(), context.permission_profile_cwd),
                result->Ok_0.matcher(),
            ),
            exists|facts: PolicyFacts<R, W>|
                {
                    &&& #[trigger] call_ensures(
                        policy_host.facts,
                        (&result->Ok_0.policy(), context.permission_profile_cwd),
                        facts,
                    )
                    &&& result->Ok_0.shows(facts)
                    &&& result->Ok_0.mode is Restricted <==> facts.kind is Restricted
                    &&& result->Ok_0.mode is Unrestricted <==> facts.kind is Unrestricted
                    &&& result->Ok_0.mode is External <==> facts.kind is ExternalSandbox
                    &&& result->Ok_0.readable_roots == facts.readable_roots
                    &&& result->Ok_0.writable_roots == facts.writable_roots
                    &&& result->Ok_0.unreadable_roots == facts.unreadable_roots
                    &&& result->Ok_0.unreadable_globs@.len() == facts.unreadable_globs@.len()
                    &&& forall|i: int|
                        0 <= i < facts.unreadable_globs@.len() ==> (
                        #[trigger] result->Ok_0.unreadable_globs@[i])@
                            == facts.unreadable_globs@[i]@
                    &&& result->Ok_0.include_platform_defaults == facts.include_platform_defaults
                    &&& result->Ok_0.glob_scan_max_depth == facts.glob_scan_max_depth
                },
            cloned(*context.permission_profile_cwd, result->Ok_0.cwd()),
    {
        let cwd = context.permission_profile_cwd;
        let carveouts = missing_carveouts(&permission_profile.entries, cwd, metadata_host);
        let policy = (policy_host.materialize_project_roots)(
            permission_profile.file_system_policy,
            cwd,
        );
        let matcher = (policy_host.read_deny_matcher)(&policy, cwd);
        let facts = (policy_host.facts)(&policy, cwd);
        Ok(Self::from_facts(facts, policy, matcher, carveouts, cwd.clone()))
    }

    /// `denied` is an answer to whether an explicit deny-read entry matches
    /// `path`: what the matcher says of the path, and no where there is no matcher.
    pub open spec fn denies<G>(self, path: &Path, matcher_denies: G, denied: bool) -> bool where
        G: Fn(&M, &Path) -> bool,
     {
        match self.matcher() {
            Some(matcher) => call_ensures(matcher_denies, (&matcher, path), denied),
            None => !denied,
        }
    }

    /// The matcher, if there is one, can be asked about `path`.
    pub open spec fn can_ask_matcher<G>(self, path: &Path, matcher_denies: G) -> bool where
        G: Fn(&M, &Path) -> bool,
     {
        self.matcher() is Some ==> call_requires(matcher_denies, (&self.matcher()->0, path))
    }

    /// `readable` is an answer to whether `path` may be read: no where the policy
    /// forbids it, and otherwise whether no explicit deny-read entry matches.
    pub open spec fn reads<C, G>(
        self,
        path: &Path,
        policy_can_read: C,
        matcher_denies: G,
        readable: bool,
    ) -> bool where C: Fn(&P, &Path, &R) -> bool, G: Fn(&M, &Path) -> bool {
        ||| {
            &&& call_ensures(policy_can_read, (&self.policy(), path, &self.cwd()), false)
            &&& !readable
        }
        ||| {
            &&& call_ensures(policy_can_read, (&self.policy(), path, &self.cwd()), true)
            &&& self.denies(path, matcher_denies, !readable)
        }
    }

    /// `path` is one of the missing carveouts, however it is spelled.
    pub open spec fn is_carveout(self, path: &Path) -> bool {
        exists|i: int|
            0 <= i < self.carveouts().len() && crate::path::path_buf_components(
                &(#[trigger] self.carveouts()[i]),
            ) == crate::path::path_components(path)
    }

    /// Returns whether a read is permitted after applying explicit read denies.
    ///
    /// `policy_can_read` tells whether a policy permits reading a path, with a
    /// working directory, `matcher_denies` whether a matcher denies reading it.
    /// The matcher is asked only where the policy permits, so only there it has to
    /// be ready to answer.
    pub fn can_read<C, G>(&self, path: &Path, policy_can_read: C, matcher_denies: G) -> (readable:
        bool) where C: Fn(&P, &Path, &R) -> bool, G: Fn(&M, &Path) -> bool
        requires
            call_requires(policy_can_read, (&self.policy(), path, &self.cwd())),
            call_ensures(policy_can_read, (&self.policy(), path, &self.cwd()), true)
                ==> self.can_ask_matcher(path, matcher_denies),
        ensures
            self.reads(path, policy_can_read, matcher_denies, readable),
            readable ==> call_ensures(
                policy_can_read,
                (&self.policy(), path, &self.cwd()),
                true,
            ),
            readable && self.matcher() is Some ==> call_ensures(
                matcher_denies,
                (&self.matcher()->0, path),
                false,
            ),
            !readable ==> {
                ||| call_ensures(policy_can_read, (&self.policy(), path, &self.cwd()), false)
                ||| self.matcher() is Some && call_ensures(
                    matcher_denies,
                    (&self.matcher()->0, path),
                    true,
                )
            },
    {
        policy_can_read(&self.enforcement.file_system_policy, path, &self.enforcement.permission_profile_cwd)
            && !self.is_read_denied(path, matcher_denies)
    }

    /// Returns whether a write is permitted, including protected metadata rules.
    ///
    /// `policy_can_write` tells whether a policy permits writing a path, with a
    /// working directory.
    pub fn can_write<C>(&self, path: &Path, policy_can_write: C) -> (writable: bool) where
        C: Fn(&P, &Path, &R) -> bool,

        requires
            call_requires(policy_can_write, (&self.policy(), path, &self.cwd())),
        ensures
            call_ensures(policy_can_write, (&self.policy(), path, &self.cwd()), writable),
    {
        policy_can_write(&self.enforcement.file_system_policy, path, &self.enforcement.permission_profile_cwd)
    }

    /// Returns whether `path` is matched by an explicit deny-read entry.
    ///
    /// `matcher_denies` tells whether a matcher denies reading a path.
    pub fn is_read_denied<G>(&self, path: &Path, matcher_denies: G) -> (denied: bool) where
        G: Fn(&M, &Path) -> bool,

        requires
            self.can_ask_matcher(path, matcher_denies),
        ensures
            self.denies(path, matcher_denies, denied),
            self.matcher() is Some ==> call_ensures(
                matcher_denies,
                (&self.matcher()->0, path),
                denied,
            ),
            self.matcher() is None ==> !denied,
    {
        match &self.enforcement.read_deny_matcher {
            Some(matcher) => matcher_denies(matcher, path),
            None => false,
        }
    }

    /// Returns whether the whole disk may be read, which `policy_reads_all` tells
    /// of a policy.
    pub fn has_full_disk_read_access<C>(&self, policy_reads_all: C) -> (full: bool) where
        C: Fn(&P) -> bool,

        requires
            call_requires(policy_reads_all, (&self.policy(),)),
        ensures
            call_ensures(policy_reads_all, (&self.policy(),), full),
    {
        policy_reads_all(&self.enforcement.file_system_policy)
    }

    /// Returns whether the whole disk may be written, which `policy_writes_all`
    /// tells of a policy.
    pub fn has_full_disk_write_access<C>(&self, policy_writes_all: C) -> (full: bool) where
        C: Fn(&P) -> bool,

        requires
            call_requires(policy_writes_all, (&self.policy(),)),
        ensures
            call_ensures(policy_writes_all, (&self.policy(),), full),
    {
        policy_writes_all(&self.enforcement.file_system_policy)
    }

    /// Returns whether `path` is a missing automatic metadata carveout that a
    /// platform lowerer must enforce without materializing it as a readable path.
    pub fn is_missing_protected_metadata_carveout(&self, path: &Path) -> (missing: bool)
        ensures
            missing == self.is_carveout(path),
            missing <==> exists|i: int|
                0 <= i < self.carveouts().len() && crate::path::path_buf_components(
                    &(#[trigger] self.carveouts()[i]),
                ) == crate::path::path_components(path),
    {
        let carveouts = &self.enforcement.missing_protected_metadata_carveouts;
        let mut next: usize = 0;
        while next < carveouts.len()
            invariant
                next <= carveouts@.len(),
                self.carveouts() == carveouts@,
                forall|i: int|
                    0 <= i < next ==> crate::path::path_buf_components(
                        &(#[trigger] self.carveouts()[i]),
                    ) != crate::path::path_components(path),
            decreases carveouts@.len() - next,
        {
            if same_path(&carveouts[next], path) {
                assert(self.carveouts()[next as int] == carveouts@[next as int]);
                return true;
            }
            next += 1;
        }
        false
    }
}

/// Reading is permitted exactly where the policy permits it and no explicit
/// deny-read entry matches, for a policy and a matcher that have one answer each.
pub proof fn law_reading_is_granted_less_denied<R, W, P, M, C, G>(
    permissions: EffectiveFilesystemPermissions<R, W, P, M>,
    path: &Path,
    policy_can_read: C,
    matcher_denies: G,
    granted: bool,
    denied: bool,
    readable: bool,
) where C: Fn(&P, &Path, &R) -> bool, G: Fn(&M, &Path) -> bool
    requires
        forall|answer: bool| #[trigger]
            call_ensures(
                policy_can_read,
                (&permissions.policy(), path, &permissions.cwd()),
                answer,
            ) ==> answer == granted,
        forall|answer: bool| #[trigger]
            permissions.denies(path, matcher_denies, answer) ==> answer == denied,
        permissions.reads(path, policy_can_read, matcher_denies, readable),
    ensures
        readable == (granted && !denied),
{
}

/// Whenever there is a matcher, whether a path is denied is what the matcher
/// answers about that path, whatever else the permissions hold.
pub proof fn law_matcher_decides_denial<R, W, P, M, G>(
    permissions: EffectiveFilesystemPermissions<R, W, P, M>,
    path: &Path,
    matcher_denies: G,
    matcher: M,
    denied: bool,
) where G: Fn(&M, &Path) -> bool
    requires
        permissions.matcher() == Some(matcher),
    ensures
        permissions.denies(path, matcher_denies, denied) <==> call_ensures(
            matcher_denies,
            (&matcher, path),
            denied,
        ),
{
}

/// With a matcher, where the policy has one answer and the matcher has one answer
/// about a path, the path may be read exactly if the policy grants it and the
/// matcher does not deny it, whatever else the permissions hold.
pub proof fn law_reading_needs_grant_and_no_denial<R, W, P, M, C, G>(
    permissions: EffectiveFilesystemPermissions<R, W, P, M>,
    path: &Path,
    policy_can_read: C,
    matcher_denies: G,
    matcher: M,
    granted: bool,
    denied: bool,
    readable: bool,
) where C: Fn(&P, &Path, &R) -> bool, G: Fn(&M, &Path) -> bool
    requires
        permissions.matcher() == Some(matcher),
        forall|answer: bool| #[trigger]
            call_ensures(
                policy_can_read,
                (&permissions.policy(), path, &permissions.cwd()),
                answer,
            ) ==> answer == granted,
        forall|answer: bool| #[trigger]
            call_ensures(matcher_denies, (&matcher, path), answer) ==> answer == denied,
        permissions.reads(path, policy_can_read, matcher_denies, readable),
    ensures
        readable == (granted && !denied),
{
}

/// Without a matcher, where the policy has one answer about a path, that answer
/// says whether the path may be read.
pub proof fn law_reading_needs_grant_alone_without_matcher<R, W, P, M, C, G>(
    permissions: EffectiveFilesystemPermissions<R, W, P, M>,
    path: &Path,
    policy_can_read: C,
    matcher_denies: G,
    granted: bool,
    readable: bool,
) where C: Fn(&P, &Path, &R) -> bool, G: Fn(&M, &Path) -> bool
    requires
        permissions.matcher() is None,
        forall|answer: bool| #[trigger]
            call_ensures(
                policy_can_read,
                (&permissions.policy(), path, &permissions.cwd()),
                answer,
            ) ==> answer == granted,
        permissions.reads(path, policy_can_read, matcher_denies, readable),
    ensures
        readable == granted,
{
}

/// A path that may be read was granted by the policy and, if there is a matcher,
/// not denied by it; a path that may not be read was refused by one of the two.
pub proof fn law_every_verdict_has_its_source<R, W, P, M, C, G>(
    permissions: EffectiveFilesystemPermissions<R, W, P, M>,
    path: &Path,
    policy_can_read: C,
    matcher_denies: G,
    readable: bool,
) where C: Fn(&P, &Path, &R) -> bool, G: Fn(&M, &Path) -> bool
    requires
        permissions.reads(path, policy_can_read, matcher_denies, readable),
    ensures
        readable ==> call_ensures(
            policy_can_read,
            (&permissions.policy(), path, &permissions.cwd()),
            true,
        ),
        readable && permissions.matcher() is Some ==> call_ensures(
            matcher_denies,
            (&permissions.matcher()->0, path),
            false,
        ),
        !readable ==> {
            ||| call_ensures(
                policy_can_read,
                (&permissions.policy(), path, &permissions.cwd()),
                false,
            )
            ||| permissions.matcher() is Some && call_ensures(
                matcher_denies,
                (&permissions.matcher()->0, path),
                true,
            )
        },
{
}

/// A matcher that can be asked about a path is all that a query asks for.
pub proof fn law_ready_matcher_can_be_asked<R, W, P, M, G>(
    permissions: EffectiveFilesystemPermissions<R, W, P, M>,
    path: &Path,
    matcher_denies: G,
) where G: Fn(&M, &Path) -> bool
    requires
        forall|matcher: M| #[trigger] call_requires(matcher_denies, (&matcher, path)),
    ensures
        permissions.can_ask_matcher(path, matcher_denies),
{
}

/// The roots of derived permissions are those that the facts of the bound policy
/// state, each list whole and in order, whatever the other facts are.
pub proof fn law_roots_are_those_of_the_policy<R, W, P, M>(
    permissions: EffectiveFilesystemPermissions<R, W, P, M>,
    facts: PolicyFacts<R, W>,
)
    requires
        permissions.shows(facts),
    ensures
        permissions.readable_roots == facts.readable_roots,
        permissions.writable_roots == facts.writable_roots,
        permissions.unreadable_roots == facts.unreadable_roots,
{
}

/// Every deny-read glob that the facts of the bound policy state is retained, in
/// order and with its pattern as its text, and there are no others, whatever the
/// other facts are.
pub proof fn law_every_glob_is_retained<R, W, P, M>(
    permissions: EffectiveFilesystemPermissions<R, W, P, M>,
    facts: PolicyFacts<R, W>,
)
    requires
        permissions.shows(facts),
    ensures
        permissions.unreadable_globs@.len() == facts.unreadable_globs@.len(),
        forall|i: int|
            0 <= i < facts.unreadable_globs@.len() ==> (
            #[trigger] permissions.unreadable_globs@[i])@ == facts.unreadable_globs@[i]@,
{
}

/// The mode of derived permissions follows the sandbox kind, the platform defaults
/// and the scan depth are those of the bound policy, each independent of every other
/// fact.
pub proof fn law_settings_are_those_of_the_policy<R, W, P, M>(
    permissions: EffectiveFilesystemPermissions<R, W, P, M>,
    facts: PolicyFacts<R, W>,
)
    requires
        permissions.shows(facts),
    ensures
        permissions.mode is Restricted <==> facts.kind is Restricted,
        permissions.mode is Unrestricted <==> facts.kind is Unrestricted,
        permissions.mode is External <==> facts.kind is ExternalSandbox,
        permissions.include_platform_defaults == facts.include_platform_defaults,
        permissions.glob_scan_max_depth == facts.glob_scan_max_depth,
{
}

/// A path is a missing carveout exactly if it has the components of one of the
/// carveouts, whatever else the permissions hold.
pub proof fn law_carveouts_are_told_by_components<R, W, P, M>(
    permissions: EffectiveFilesystemPermissions<R, W, P, M>,
    path: &Path,
)
    ensures
        permissions.is_carveout(path) <==> exists|i: int|
            0 <= i < permissions.carveouts().len() && crate::path::path_buf_components(
                &(#[trigger] permissions.carveouts()[i]),
            ) == crate::path::path_components(path),
{
}

/// An explicit read deny wins over any grant: a path that is denied is not
/// readable, whatever the policy says of it.
pub proof fn law_denied_path_is_unreadable<R, W, P, M, C, G>(
    permissions: EffectiveFilesystemPermissions<R, W, P, M>,
    path: &Path,
    policy_can_read: C,
    matcher_denies: G,
    readable: bool,
) where C: Fn(&P, &Path, &R) -> bool, G: Fn(&M, &Path) -> bool
    requires
        !permissions.denies(path, matcher_denies, false),
        permissions.reads(path, policy_can_read, matcher_denies, readable),
    ensures
        !readable,
{
}

/// Without a matcher no path is denied, and the policy alone decides what may be
/// read.
pub proof fn law_policy_decides_without_matcher<R, W, P, M, C, G>(
    permissions: EffectiveFilesystemPermissions<R, W, P, M>,
    path: &Path,
    policy_can_read: C,
    matcher_denies: G,
    denied: bool,
    readable: bool,
) where C: Fn(&P, &Path, &R) -> bool, G: Fn(&M, &Path) -> bool
    requires
        permissions.matcher() is None,
        permissions.denies(path, matcher_denies, denied),
        permissions.reads(path, policy_can_read, matcher_denies, readable),
    ensures
        !denied,
        call_ensures(
            policy_can_read,
            (&permissions.policy(), path, &permissions.cwd()),
            readable,
        ),
{
}

/// Whether a path is a missing carveout does not depend on how it is spelled.
pub proof fn law_spelling_does_not_matter<R, W, P, M>(
    permissions: EffectiveFilesystemPermissions<R, W, P, M>,
    left: &Path,
    right: &Path,
)
    requires
        crate::path::path_components(left) == crate::path::path_components(right),
    ensures
        permissions.is_carveout(left) == permissions.is_carveout(right),
{
}

/// Permissions that were derived from `entries`, by a host with one answer to each
/// question, report a path as a missing carveout exactly if some entry grants
/// reading of a protected subpath that resolves to that path and is missing.
pub proof fn law_missing_protected_metadata_is_reported<R, W, P, M, N, V, E>(
    permissions: EffectiveFilesystemPermissions<R, W, P, M>,
    host: MetadataHost<N, V, E>,
    cwd: R,
    answers: crate::carveout::MetadataAnswers,
    entries: Seq<crate::policy::PolicyEntry>,
    outcomes: Seq<Option<PathBuf>>,
    path: &Path,
) where N: Fn(&PathBuf) -> bool, V: Fn(&PathBuf, &R) -> PathBuf, E: Fn(&PathBuf) -> bool
    requires
        host.follows(cwd, answers),
        host.settles_all(cwd, entries, outcomes),
        permissions.carveouts() == crate::carveout::collected(outcomes),
    ensures
        permissions.is_carveout(path) <==> exists|i: int|
            {
                &&& 0 <= i < entries.len()
                &&& (#[trigger] entries[i]).readable_subpath() is Some
                &&& (answers.protected)(entries[i].readable_subpath()->0)
                &&& !(answers.present)((answers.resolved)(entries[i].readable_subpath()->0))
                &&& crate::path::path_buf_components(&(answers.resolved)(entries[i].readable_subpath()->0))
                    == crate::path::path_components(path)
            },
{
    crate::carveout::law_answers_decide(host, cwd, answers, entries, outcomes);
    let carveouts = permissions.carveouts();
    if permissions.is_carveout(path) {
        let k = choose|k: int|
            0 <= k < carveouts.len() && crate::path::path_buf_components(&(#[trigger] carveouts[k]))
                == crate::path::path_components(path);
        crate::carveout::law_kept_paths_are_missing_protected_metadata(answers, entries, carveouts[k]);
        assert(carveouts.contains(carveouts[k]));
    }
    assert forall|i: int|
        {
            &&& 0 <= i < entries.len()
            &&& (#[trigger] entries[i]).readable_subpath() is Some
            &&& (answers.protected)(entries[i].readable_subpath()->0)
            &&& !(answers.present)((answers.resolved)(entries[i].readable_subpath()->0))
            &&& crate::path::path_buf_components(&(answers.resolved)(entries[i].readable_subpath()->0))
                == crate::path::path_components(path)
        } implies permissions.is_carveout(path) by {
        let kept = (answers.resolved)(entries[i].readable_subpath()->0);
        crate::carveout::law_kept_paths_are_missing_protected_metadata(answers, entries, kept);
        let k = carveouts.index_of(kept);
        assert(carveouts[k] == kept);
    }
}

} // verus!
