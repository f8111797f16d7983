//! Protected metadata that a profile leaves readable and that is not there yet.
//!
//! A profile may grant read access to a metadata directory below the project
//! roots. Where that directory is missing, nothing on disk stands for the grant,
//! so the path is kept aside for platform code to enforce.

use std::path::PathBuf;
use vstd::prelude::*;

use crate::policy::PolicyEntry;

verus! {

/// The host's operations on the subpaths of a profile.
pub struct MetadataHost<N, V, E> {
    /// Tells whether a subpath is the name of protected metadata.
    pub is_protected_metadata_name: N,
    /// Resolves a subpath against the working directory of the profile.
    pub resolve_path_against_base: V,
    /// Tells whether a resolved path exists on disk.
    pub exists: E,
}

impl<N, V, E> MetadataHost<N, V, E> {
    /// With the working directory `cwd`, the host can be asked what there is to ask
    /// about `entry`: the name of the subpath that it leaves readable, if any; the
    /// path that the subpath resolves to, where that name is protected; and whether
    /// a path exists that came of resolving it. Nothing else is asked.
    pub open spec fn can_ask<R>(self, cwd: R, entry: PolicyEntry) -> bool where
        N: Fn(&PathBuf) -> bool,
        V: Fn(&PathBuf, &R) -> PathBuf,
        E: Fn(&PathBuf) -> bool,
     {
        match entry.readable_subpath() {
            None => true,
            Some(subpath) => {
                &&& call_requires(self.is_protected_metadata_name, (&subpath,))
                &&& call_ensures(self.is_protected_metadata_name, (&subpath,), true) ==> {
                    &&& call_requires(self.resolve_path_against_base, (&subpath, &cwd))
                    &&& forall|path: PathBuf| #[trigger]
                        call_ensures(self.resolve_path_against_base, (&subpath, &cwd), path)
                            ==> call_requires(self.exists, (&path,))
                }
            },
        }
    }

    /// With the working directory `cwd`, the host can be asked what there is to ask
    /// about each of `entries`.
    pub open spec fn can_ask_all<R>(self, cwd: R, entries: Seq<PolicyEntry>) -> bool where
        N: Fn(&PathBuf) -> bool,
        V: Fn(&PathBuf, &R) -> PathBuf,
        E: Fn(&PathBuf) -> bool,
     {
        forall|i: int| 0 <= i < entries.len() ==> self.can_ask(cwd, #[trigger] entries[i])
    }

    /// With the working directory `cwd`, the host may answer about `entry` in
    /// such a way that `outcome` is kept for it: nothing, unless the entry leaves
    /// a subpath readable, its name is protected and the resolved path is missing;
    /// then the resolved path.
    pub open spec fn settles<R>(self, cwd: R, entry: PolicyEntry, outcome: Option<PathBuf>) -> bool where
        N: Fn(&PathBuf) -> bool,
        V: Fn(&PathBuf, &R) -> PathBuf,
        E: Fn(&PathBuf) -> bool,
     {
        match entry.readable_subpath() {
            None => outcome is None,
            Some(subpath) => {
                ||| {
                    &&& call_ensures(self.is_protected_metadata_name, (&subpath,), false)
                    &&& outcome is None
                }
                ||| {
                    &&& call_ensures(self.is_protected_metadata_name, (&subpath,), true)
                    &&& exists|path: PathBuf|
                        {
                            &&& #[trigger] call_ensures(
                                self.resolve_path_against_base,
                                (&subpath, &cwd),
                                path,
                            )
                            &&& {
                                ||| call_ensures(self.exists, (&path,), true) && outcome is None
                                ||| call_ensures(self.exists, (&path,), false) && outcome == Some(
                                    path,
                                )
                            }
                        }
                }
            },
        }
    }

    /// With the working directory `cwd`, the host may answer about `entries` in
    /// such a way that `outcomes` are kept for them, one for each.
    pub open spec fn settles_all<R>(
        self,
        cwd: R,
        entries: Seq<PolicyEntry>,
        outcomes: Seq<Option<PathBuf>>,
    ) -> bool where
        N: Fn(&PathBuf) -> bool,
        V: Fn(&PathBuf, &R) -> PathBuf,
        E: Fn(&PathBuf) -> bool,
     {
        &&& outcomes.len() == entries.len()
        &&& forall|i: int|
            0 <= i < entries.len() ==> self.settles(cwd, entries[i], #[trigger] outcomes[i])
    }

    /// The host has one answer to each question, the one that `answers` holds.
    pub open spec fn follows<R>(self, cwd: R, answers: MetadataAnswers) -> bool where
        N: Fn(&PathBuf) -> bool,
        V: Fn(&PathBuf, &R) -> PathBuf,
        E: Fn(&PathBuf) -> bool,
     {
        &&& forall|path: PathBuf, answer: bool| #[trigger]
            call_ensures(self.is_protected_metadata_name, (&path,), answer) ==> answer == (
            answers.protected)(path)
        &&& forall|path: PathBuf, answer: PathBuf| #[trigger]
            call_ensures(self.resolve_path_against_base, (&path, &cwd), answer) ==> answer == (
            answers.resolved)(path)
        &&& forall|path: PathBuf, answer: bool| #[trigger]
            call_ensures(self.exists, (&path,), answer) ==> answer == (answers.present)(path)
    }
}

/// The answers of a host that answers each question in one way.
pub struct MetadataAnswers {
    /// Which subpaths are names of protected metadata.
    pub protected: spec_fn(PathBuf) -> bool,
    /// What each subpath resolves to.
    pub resolved: spec_fn(PathBuf) -> PathBuf,
    /// Which paths exist.
    pub present: spec_fn(PathBuf) -> bool,
}

impl MetadataAnswers {
    /// The path that is kept for `entry`, if any.
    pub open spec fn carveout(self, entry: PolicyEntry) -> Option<PathBuf> {
        match entry.readable_subpath() {
            Some(subpath) => {
                let path = (self.resolved)(subpath);
                if (self.protected)(subpath) && !(self.present)(path) {
                    Some(path)
                } else {
                    None
                }
            },
            None => None,
        }
    }

    /// The paths that are kept for `entries`, in the order of the entries.
    pub open spec fn carveouts(self, entries: Seq<PolicyEntry>) -> Seq<PathBuf> {
        collected(entries.map_values(|entry: PolicyEntry| self.carveout(entry)))
    }
}

/// The paths among `outcomes`, in order.
pub open spec fn collected(outcomes: Seq<Option<PathBuf>>) -> Seq<PathBuf>
    decreases outcomes.len(),
{
    if outcomes.len() == 0 {
        Seq::empty()
    } else {
        let before = collected(outcomes.drop_last());
        match outcomes.last() {
            Some(path) => before.push(path),
            None => before,
        }
    }
}

/// Returns `path` if it is missing, that is, unless it `exists`.
pub fn keep_missing(path: PathBuf, exists: bool) -> (kept: Option<PathBuf>)
    ensures
        kept == (if exists {
            None
        } else {
            Some(path)
        }),
{
    if exists {
        None
    } else {
        Some(path)
    }
}

/// Asks the host about one entry and returns the path that is kept for it. A
/// subpath is resolved only if its name is protected, and the disk is looked at
/// only for a resolved path.
pub(crate) fn missing_carveout<R, N, V, E>(
    entry: &PolicyEntry,
    cwd: &R,
    host: &MetadataHost<N, V, E>,
) -> (outcome: Option<PathBuf>) where
    N: Fn(&PathBuf) -> bool,
    V: Fn(&PathBuf, &R) -> PathBuf,
    E: Fn(&PathBuf) -> bool,

    requires
        host.can_ask(*cwd, *entry),
    ensures
        host.settles(*cwd, *entry, outcome),
{
    let subpath = match entry.project_subpath() {
        Some(subpath) => subpath,
        None => {
            return None;
        },
    };
    if !(host.is_protected_metadata_name)(subpath) {
        return None;
    }
    let path = (host.resolve_path_against_base)(subpath, cwd);
    let exists = (host.exists)(&path);
    keep_missing(path, exists)
}

/// Asks the host about every entry and returns the paths that are kept, in the
/// order of the entries.
pub(crate) fn missing_carveouts<R, N, V, E>(
    entries: &Vec<PolicyEntry>,
    cwd: &R,
    host: &MetadataHost<N, V, E>,
) -> (paths: Vec<PathBuf>) where
    N: Fn(&PathBuf) -> bool,
    V: Fn(&PathBuf, &R) -> PathBuf,
    E: Fn(&PathBuf) -> bool,

    requires
        host.can_ask_all(*cwd, entries@),
    ensures
        exists|outcomes: Seq<Option<PathBuf>>|
            {
                &&& #[trigger] host.settles_all(*cwd, entries@, outcomes)
                &&& paths@ == collected(outcomes)
            },
{
    let mut paths: Vec<PathBuf> = Vec::new();
    let ghost mut outcomes: Seq<Option<PathBuf>> = Seq::empty();
    let mut next: usize = 0;
    while next < entries.len()
        invariant
            next <= entries@.len(),
            host.can_ask_all(*cwd, entries@),
            host.settles_all(*cwd, entries@.take(next as int), outcomes),
            paths@ == collected(outcomes),
        decreases entries@.len() - next,
    {
        let outcome = missing_carveout(&entries[next], cwd, host);
        proof {
            assert(outcomes.push(outcome).drop_last() == outcomes);
            outcomes = outcomes.push(outcome);
        }
        if let Some(path) = outcome {
            paths.push(path);
        }
        next += 1;
    }
    assert(entries@.take(entries@.len() as int) == entries@);
    paths
}

/// Each entry that grants reading of a subpath has an outcome of its own. Where the
/// host has one answer to whether the name of the subpath is protected, one to what
/// it resolves to and one to whether that exists, the resolved path is kept exactly
/// if the name is protected and the path does not exist, whatever the other entries
/// are.
pub proof fn law_granted_subpath_is_kept_if_protected_and_missing<R, N, V, E>(
    host: MetadataHost<N, V, E>,
    cwd: R,
    entries: Seq<PolicyEntry>,
    outcomes: Seq<Option<PathBuf>>,
    i: int,
    subpath: PathBuf,
    protected: bool,
    resolved: PathBuf,
    present: bool,
) where N: Fn(&PathBuf) -> bool, V: Fn(&PathBuf, &R) -> PathBuf, E: Fn(&PathBuf) -> bool
    requires
        host.settles_all(cwd, entries, outcomes),
        0 <= i < entries.len(),
        entries[i].access is Read,
        entries[i].path == (crate::policy::EntryPath::ProjectRoots { subpath: Some(subpath) }),
        forall|answer: bool| #[trigger]
            call_ensures(host.is_protected_metadata_name, (&subpath,), answer) ==> answer
                == protected,
        forall|answer: PathBuf| #[trigger]
            call_ensures(host.resolve_path_against_base, (&subpath, &cwd), answer) ==> answer
                == resolved,
        forall|answer: bool| #[trigger]
            call_ensures(host.exists, (&resolved,), answer) ==> answer == present,
    ensures
        outcomes.len() == entries.len(),
        protected && !present ==> outcomes[i] == Some(resolved),
        !protected || present ==> outcomes[i] is None,
{
    assert(host.settles(cwd, entries[i], outcomes[i]));
}

/// A path is kept for an entry only on the host's word: it said that the name of
/// the subpath that the entry grants for reading is protected, that the subpath
/// resolves to the path, and that the path does not exist.
pub proof fn law_path_is_kept_on_the_hosts_word<R, N, V, E>(
    host: MetadataHost<N, V, E>,
    cwd: R,
    entries: Seq<PolicyEntry>,
    outcomes: Seq<Option<PathBuf>>,
    i: int,
    path: PathBuf,
) where N: Fn(&PathBuf) -> bool, V: Fn(&PathBuf, &R) -> PathBuf, E: Fn(&PathBuf) -> bool
    requires
        host.settles_all(cwd, entries, outcomes),
        0 <= i < entries.len(),
        outcomes[i] == Some(path),
    ensures
        entries[i].access is Read,
        entries[i].path is ProjectRoots,
        entries[i].path->subpath is Some,
        call_ensures(
            host.is_protected_metadata_name,
            (&entries[i].path->subpath->0,),
            true,
        ),
        call_ensures(
            host.resolve_path_against_base,
            (&entries[i].path->subpath->0, &cwd),
            path,
        ),
        call_ensures(host.exists, (&path,), false),
{
    assert(host.settles(cwd, entries[i], outcomes[i]));
}

/// An entry that grants reading of a subpath is passed over only on the host's
/// word: it said that the name is not protected, or that what the subpath resolves
/// to exists.
pub proof fn law_grant_is_passed_over_on_the_hosts_word<R, N, V, E>(
    host: MetadataHost<N, V, E>,
    cwd: R,
    entries: Seq<PolicyEntry>,
    outcomes: Seq<Option<PathBuf>>,
    i: int,
    subpath: PathBuf,
) where N: Fn(&PathBuf) -> bool, V: Fn(&PathBuf, &R) -> PathBuf, E: Fn(&PathBuf) -> bool
    requires
        host.settles_all(cwd, entries, outcomes),
        0 <= i < entries.len(),
        entries[i].access is Read,
        entries[i].path == (crate::policy::EntryPath::ProjectRoots { subpath: Some(subpath) }),
        outcomes[i] is None,
    ensures
        call_ensures(host.is_protected_metadata_name, (&subpath,), false) || exists|path: PathBuf|
            #[trigger] call_ensures(host.resolve_path_against_base, (&subpath, &cwd), path)
                && call_ensures(host.exists, (&path,), true),
{
    assert(host.settles(cwd, entries[i], outcomes[i]));
}

/// What is collected is every path that was kept and nothing else: nothing of
/// nothing, one path of one outcome that holds it, and of a list of outcomes what
/// its beginning holds, followed by what the rest holds.
pub proof fn law_kept_paths_are_collected_once_and_in_order(
    first: Seq<Option<PathBuf>>,
    second: Seq<Option<PathBuf>>,
    path: PathBuf,
)
    ensures
        collected(seq![]) == Seq::<PathBuf>::empty(),
        collected(seq![None]) == Seq::<PathBuf>::empty(),
        collected(seq![Some(path)]) == seq![path],
        collected(first + second) == collected(first) + collected(second),
{
    let nothing: Seq<Option<PathBuf>> = seq![None];
    let one: Seq<Option<PathBuf>> = seq![Some(path)];
    assert(nothing.drop_last() == Seq::<Option<PathBuf>>::empty());
    assert(one.drop_last() == Seq::<Option<PathBuf>>::empty());
    assert(collected(Seq::<Option<PathBuf>>::empty()) == Seq::<PathBuf>::empty());
    lemma_collected_append(first, second);
}

/// A host whose operations can be called on any path can be asked about any
/// entries.
pub proof fn law_ready_host_can_be_asked<R, N, V, E>(
    host: MetadataHost<N, V, E>,
    cwd: R,
    entries: Seq<PolicyEntry>,
) where N: Fn(&PathBuf) -> bool, V: Fn(&PathBuf, &R) -> PathBuf, E: Fn(&PathBuf) -> bool
    requires
        forall|path: PathBuf| #[trigger] call_requires(host.is_protected_metadata_name, (&path,)),
        forall|path: PathBuf| #[trigger]
            call_requires(host.resolve_path_against_base, (&path, &cwd)),
        forall|path: PathBuf| #[trigger] call_requires(host.exists, (&path,)),
    ensures
        host.can_ask_all(cwd, entries),
{
}

/// Where the host answers each question in one way, the paths that are kept are
/// those that its answers single out, whatever way it was asked.
pub proof fn law_answers_decide<R, N, V, E>(
    host: MetadataHost<N, V, E>,
    cwd: R,
    answers: MetadataAnswers,
    entries: Seq<PolicyEntry>,
    outcomes: Seq<Option<PathBuf>>,
) where N: Fn(&PathBuf) -> bool, V: Fn(&PathBuf, &R) -> PathBuf, E: Fn(&PathBuf) -> bool
    requires
        host.follows(cwd, answers),
        host.settles_all(cwd, entries, outcomes),
    ensures
        collected(outcomes) == answers.carveouts(entries),
{
    assert forall|i: int| 0 <= i < entries.len() implies outcomes[i] == answers.carveout(
        entries[i],
    ) by {
        assert(host.settles(cwd, entries[i], outcomes[i]));
    }
    assert(outcomes == entries.map_values(|entry: PolicyEntry| answers.carveout(entry)));
}

/// A path is among the collected ones exactly if it is the outcome of some entry.
proof fn lemma_collected_members(outcomes: Seq<Option<PathBuf>>, path: PathBuf)
    ensures
        collected(outcomes).contains(path) <==> outcomes.contains(Some(path)),
    decreases outcomes.len(),
{
    if outcomes.len() > 0 {
        let earlier = outcomes.drop_last();
        let before = collected(earlier);
        lemma_collected_members(earlier, path);
        assert(outcomes == earlier.push(outcomes.last()));
        if outcomes.contains(Some(path)) && outcomes.last() != Some(path) {
            let i = outcomes.index_of(Some(path));
            assert(earlier[i] == Some(path));
        }
        if earlier.contains(Some(path)) {
            let i = earlier.index_of(Some(path));
            assert(outcomes[i] == Some(path));
        }
        if before.contains(path) && outcomes.last() is Some {
            let i = before.index_of(path);
            assert(before.push(outcomes.last()->0)[i] == path);
        }
        if outcomes.last() == Some(path) {
            assert(before.push(path)[before.len() as int] == path);
            assert(outcomes[outcomes.len() - 1] == Some(path));
        }
    }
}

/// A path is kept exactly if some entry grants reading of a protected subpath
/// that resolves to it, and it is missing.
pub proof fn law_kept_paths_are_missing_protected_metadata(
    answers: MetadataAnswers,
    entries: Seq<PolicyEntry>,
    path: PathBuf,
)
    ensures
        answers.carveouts(entries).contains(path) <==> !(answers.present)(path) && exists|i: int|
            {
                &&& 0 <= i < entries.len()
                &&& (#[trigger] entries[i]).readable_subpath() is Some
                &&& (answers.protected)(entries[i].readable_subpath()->0)
                &&& (answers.resolved)(entries[i].readable_subpath()->0) == path
            },
{
    let outcomes = entries.map_values(|entry: PolicyEntry| answers.carveout(entry));
    lemma_collected_members(outcomes, path);
    if outcomes.contains(Some(path)) {
        let i = outcomes.index_of(Some(path));
        assert(answers.carveout(entries[i]) == Some(path));
    }
    assert forall|i: int|
        {
            &&& 0 <= i < entries.len()
            &&& (#[trigger] entries[i]).readable_subpath() is Some
            &&& (answers.protected)(entries[i].readable_subpath()->0)
            &&& (answers.resolved)(entries[i].readable_subpath()->0) == path
            &&& !(answers.present)(path)
        } implies outcomes.contains(Some(path)) by {
        assert(outcomes[i] == Some(path));
    }
}

/// The paths among two runs of outcomes are those of the first, then those of
/// the second.
proof fn lemma_collected_append(first: Seq<Option<PathBuf>>, second: Seq<Option<PathBuf>>)
    ensures
        collected(first + second) == collected(first) + collected(second),
    decreases second.len(),
{
    if second.len() == 0 {
        assert(first + second == first);
    } else {
        lemma_collected_append(first, second.drop_last());
        assert((first + second).drop_last() == first + second.drop_last());
    }
}

/// Entries are looked at one by one and in order: the paths kept for a list of
/// entries are those kept for its beginning, followed by those kept for the rest.
pub proof fn law_entries_settle_in_order(
    answers: MetadataAnswers,
    first: Seq<PolicyEntry>,
    second: Seq<PolicyEntry>,
)
    ensures
        answers.carveouts(first + second) == answers.carveouts(first) + answers.carveouts(second),
{
    let of = |entry: PolicyEntry| answers.carveout(entry);
    lemma_collected_append(first.map_values(of), second.map_values(of));
    assert((first + second).map_values(of) == first.map_values(of) + second.map_values(of));
}

/// An entry that grants no reading below the project roots keeps nothing, so
/// adding one changes nothing.
pub proof fn law_other_entries_keep_nothing(
    answers: MetadataAnswers,
    entries: Seq<PolicyEntry>,
    other: PolicyEntry,
)
    requires
        other.readable_subpath() is None,
    ensures
        answers.carveouts(entries.push(other)) == answers.carveouts(entries),
{
    let of = |entry: PolicyEntry| answers.carveout(entry);
    assert(entries.push(other).map_values(of).drop_last() == entries.map_values(of));
}

} // verus!
