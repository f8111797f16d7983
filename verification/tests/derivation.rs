use std::cell::{Cell, RefCell};
use std::path::{Path, PathBuf};

use sandboxing::carveout::keep_missing;
use sandboxing::{
    EffectiveFilesystemPermissions, EntryAccess, EntryPath, FileSystemSandboxKind,
    FilesystemPermissionsContext, FilesystemPermissionsError, FilesystemPermissionsMode,
    MetadataHost, PermissionProfile, PolicyEntry, PolicyFacts, PolicyHost,
};

/// A policy that remembers what it was bound to.
#[derive(Debug, Clone, PartialEq)]
struct Policy {
    name: String,
    kind: FileSystemSandboxKind,
    globs: Vec<String>,
    depth: Option<usize>,
}

type Permissions = EffectiveFilesystemPermissions<String, (String, u8), Policy, String>;

fn policy(kind: FileSystemSandboxKind, globs: &[&str], depth: Option<usize>) -> Policy {
    Policy {
        name: "source".to_string(),
        kind,
        globs: globs.iter().map(|glob| glob.to_string()).collect(),
        depth,
    }
}

fn project(access: EntryAccess, subpath: Option<&str>) -> PolicyEntry {
    PolicyEntry {
        access,
        path: EntryPath::ProjectRoots {
            subpath: subpath.map(PathBuf::from),
        },
    }
}

fn derive(source: Policy, entries: Vec<PolicyEntry>, present: &[&str]) -> Permissions {
    let profile = PermissionProfile {
        file_system_policy: source,
        entries,
    };
    let cwd = "/work".to_string();
    let metadata = MetadataHost {
        is_protected_metadata_name: |subpath: &PathBuf| {
            subpath == Path::new(".git") || subpath == Path::new(".agents")
        },
        resolve_path_against_base: |subpath: &PathBuf, base: &String| Path::new(base).join(subpath),
        exists: |path: &PathBuf| present.iter().any(|there| path == Path::new(there)),
    };
    let host = PolicyHost {
        materialize_project_roots: |policy: Policy, cwd: &String| Policy {
            name: format!("{} at {}", policy.name, cwd),
            ..policy
        },
        read_deny_matcher: |policy: &Policy, cwd: &String| {
            Some(format!("matcher of {} in {}", policy.name, cwd))
        },
        facts: |policy: &Policy, cwd: &String| PolicyFacts {
            kind: policy.kind,
            readable_roots: vec![format!("{cwd}/r1"), policy.name.clone()],
            writable_roots: vec![(format!("{cwd}/w"), 7)],
            unreadable_roots: vec![format!("{cwd}/secret")],
            unreadable_globs: policy.globs.clone(),
            include_platform_defaults: policy.depth.is_some(),
            glob_scan_max_depth: policy.depth,
        },
    };
    let context = FilesystemPermissionsContext {
        permission_profile_cwd: &cwd,
    };
    Permissions::from_profile(profile, context, &metadata, &host).unwrap()
}

fn is_missing(permissions: &Permissions, path: &str) -> bool {
    permissions.is_missing_protected_metadata_carveout(Path::new(path))
}

#[test]
fn facts_are_read_from_the_bound_policy() {
    let source = policy(FileSystemSandboxKind::Restricted, &["**/*.env"], Some(3));
    let permissions = derive(source, vec![], &[]);
    assert_eq!(permissions.mode, FilesystemPermissionsMode::Restricted);
    assert_eq!(
        permissions.readable_roots,
        vec!["/work/r1".to_string(), "source at /work".to_string()]
    );
    assert_eq!(permissions.writable_roots, vec![("/work/w".to_string(), 7)]);
    assert_eq!(permissions.unreadable_roots, vec!["/work/secret".to_string()]);
    assert!(permissions.include_platform_defaults);
    assert_eq!(permissions.glob_scan_max_depth, Some(3));
}

#[test]
fn policy_cwd_and_matcher_are_kept_for_queries() {
    let source = policy(FileSystemSandboxKind::Unrestricted, &[], None);
    let permissions = derive(source, vec![], &[]);
    let asked = RefCell::new(Vec::new());
    permissions.can_read(
        Path::new("/x"),
        |policy: &Policy, path: &Path, cwd: &String| {
            asked
                .borrow_mut()
                .push(format!("{} {} {}", policy.name, path.display(), cwd));
            true
        },
        |matcher: &String, path: &Path| {
            asked
                .borrow_mut()
                .push(format!("{} {}", matcher, path.display()));
            false
        },
    );
    assert_eq!(
        *asked.borrow(),
        vec![
            "source at /work /x /work".to_string(),
            "matcher of source at /work in /work /x".to_string(),
        ]
    );
    assert!(!permissions.include_platform_defaults);
    assert_eq!(permissions.glob_scan_max_depth, None);
}

#[test]
fn every_kind_has_its_mode() {
    let cases = [
        (
            FileSystemSandboxKind::Restricted,
            FilesystemPermissionsMode::Restricted,
        ),
        (
            FileSystemSandboxKind::Unrestricted,
            FilesystemPermissionsMode::Unrestricted,
        ),
        (
            FileSystemSandboxKind::ExternalSandbox,
            FilesystemPermissionsMode::External,
        ),
    ];
    for (kind, mode) in cases {
        assert_eq!(FilesystemPermissionsMode::from_kind(kind), mode);
        assert_eq!(derive(policy(kind, &[], None), vec![], &[]).mode, mode);
    }
}

#[test]
fn malformed_globs_are_retained_in_order() {
    let globs = ["**/*.pem", "[", "", "[", "caf\u{e9}/**"];
    let source = policy(FileSystemSandboxKind::Restricted, &globs, None);
    let permissions = derive(source, vec![], &[]);
    let patterns: Vec<&str> = permissions
        .unreadable_globs
        .iter()
        .map(|glob| glob.pattern())
        .collect();
    assert_eq!(patterns, globs);
    assert_eq!(permissions.unreadable_globs[1], permissions.unreadable_globs[3]);
    assert_ne!(permissions.unreadable_globs[0], permissions.unreadable_globs[1]);
    assert_eq!(
        format!("{:?}", permissions.unreadable_globs[1]),
        "ValidatedDenyGlob { pattern: \"[\" }"
    );
}

#[test]
fn globs_are_told_by_their_patterns() {
    let globs = ["a", "a", " a", "A", "", "caf\u{e9}"];
    let source = policy(FileSystemSandboxKind::Restricted, &globs, None);
    let permissions = derive(source, vec![], &[]);
    for (i, left) in permissions.unreadable_globs.iter().enumerate() {
        assert_eq!(left.clone().pattern(), globs[i]);
        assert_eq!(&left.clone(), left);
        for (j, right) in permissions.unreadable_globs.iter().enumerate() {
            assert_eq!(left == right, globs[i] == globs[j]);
        }
    }
}

#[test]
fn missing_protected_metadata_is_kept() {
    let source = policy(FileSystemSandboxKind::Restricted, &[], None);
    let entries = vec![project(EntryAccess::Read, Some(".git"))];
    let permissions = derive(source, entries, &[]);
    assert!(is_missing(&permissions, "/work/.git"));
    assert!(!is_missing(&permissions, "/work"));
    assert!(!is_missing(&permissions, "/work/.git/config"));
    assert!(!is_missing(&permissions, "/work/.agents"));
    assert!(!is_missing(&permissions, ".git"));
}

#[test]
fn present_metadata_is_not_kept() {
    let source = policy(FileSystemSandboxKind::Restricted, &[], None);
    let entries = vec![
        project(EntryAccess::Read, Some(".git")),
        project(EntryAccess::Read, Some(".agents")),
    ];
    let permissions = derive(source, entries, &["/work/.git"]);
    assert!(!is_missing(&permissions, "/work/.git"));
    assert!(is_missing(&permissions, "/work/.agents"));
}

#[test]
fn other_entries_are_not_kept() {
    let source = policy(FileSystemSandboxKind::Restricted, &[], None);
    let entries = vec![
        project(EntryAccess::Other, Some(".git")),
        project(EntryAccess::Read, None),
        project(EntryAccess::Read, Some("src")),
        PolicyEntry {
            access: EntryAccess::Read,
            path: EntryPath::Other,
        },
    ];
    let permissions = derive(source, entries, &[]);
    assert!(!is_missing(&permissions, "/work/.git"));
    assert!(!is_missing(&permissions, "/work"));
    assert!(!is_missing(&permissions, "/work/src"));
}

#[test]
fn host_is_asked_no_more_than_needed_and_in_order() {
    let asked = RefCell::new(Vec::new());
    let metadata = MetadataHost {
        is_protected_metadata_name: |subpath: &PathBuf| {
            asked.borrow_mut().push(format!("name {}", subpath.display()));
            subpath != Path::new("src")
        },
        resolve_path_against_base: |subpath: &PathBuf, base: &String| {
            asked
                .borrow_mut()
                .push(format!("resolve {} {}", subpath.display(), base));
            Path::new(base).join(subpath)
        },
        exists: |path: &PathBuf| {
            asked.borrow_mut().push(format!("exists {}", path.display()));
            false
        },
    };
    let bound = Cell::new(0);
    let host = PolicyHost {
        materialize_project_roots: |policy: u8, _cwd: &String| {
            bound.set(bound.get() + 1);
            policy + 1
        },
        read_deny_matcher: |_policy: &u8, _cwd: &String| None::<u8>,
        facts: |policy: &u8, _cwd: &String| PolicyFacts::<String, u8> {
            kind: FileSystemSandboxKind::Restricted,
            readable_roots: vec![],
            writable_roots: vec![*policy],
            unreadable_roots: vec![],
            unreadable_globs: vec![],
            include_platform_defaults: false,
            glob_scan_max_depth: None,
        },
    };
    let profile = PermissionProfile {
        file_system_policy: 1u8,
        entries: vec![
            project(EntryAccess::Read, Some("src")),
            project(EntryAccess::Other, Some(".git")),
            project(EntryAccess::Read, Some(".agents")),
            project(EntryAccess::Read, None),
            project(EntryAccess::Read, Some(".git")),
        ],
    };
    let cwd = "/p".to_string();
    let context = FilesystemPermissionsContext {
        permission_profile_cwd: &cwd,
    };
    let permissions: EffectiveFilesystemPermissions<String, u8, u8, u8> =
        EffectiveFilesystemPermissions::from_profile(profile, context, &metadata, &host).unwrap();
    assert_eq!(
        *asked.borrow(),
        vec![
            "name src".to_string(),
            "name .agents".to_string(),
            "resolve .agents /p".to_string(),
            "exists /p/.agents".to_string(),
            "name .git".to_string(),
            "resolve .git /p".to_string(),
            "exists /p/.git".to_string(),
        ]
    );
    assert_eq!(bound.get(), 1);
    assert_eq!(permissions.writable_roots, vec![2u8]);
}

#[test]
fn subpath_needs_read_access_and_a_project_root() {
    assert_eq!(
        project(EntryAccess::Read, Some(".git")).project_subpath(),
        Some(&PathBuf::from(".git"))
    );
    assert_eq!(project(EntryAccess::Other, Some(".git")).project_subpath(), None);
    assert_eq!(project(EntryAccess::Read, None).project_subpath(), None);
}

#[test]
fn only_missing_paths_are_kept() {
    let path = PathBuf::from("/work/.git");
    assert_eq!(keep_missing(path.clone(), false), Some(path.clone()));
    assert_eq!(keep_missing(path, true), None);
}

#[test]
fn error_shows_its_message() {
    let error = FilesystemPermissionsError::InvalidDenyGlob("bad glob `[`".to_string());
    assert_eq!(error.message(), "bad glob `[`");
    assert_eq!(error.clone(), error);
    assert_eq!(error.clone().message(), "bad glob `[`");
    assert_ne!(
        error,
        FilesystemPermissionsError::InvalidDenyGlob(String::new())
    );
    assert_eq!(format!("{error:?}"), "InvalidDenyGlob(\"bad glob `[`\")");
}
