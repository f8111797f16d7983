use std::cell::Cell;
use std::path::{Path, PathBuf};

use sandboxing::{
    EffectiveFilesystemPermissions, FileSystemSandboxKind, PolicyFacts,
};

type Permissions = EffectiveFilesystemPermissions<String, u8, u32, u16>;

fn permissions(matcher: Option<u16>, carveouts: &[&str]) -> Permissions {
    let facts = PolicyFacts {
        kind: FileSystemSandboxKind::Restricted,
        readable_roots: vec![],
        writable_roots: vec![],
        unreadable_roots: vec![],
        unreadable_globs: vec![],
        include_platform_defaults: false,
        glob_scan_max_depth: None,
    };
    let carveouts = carveouts.iter().map(PathBuf::from).collect();
    Permissions::from_facts(facts, 40, matcher, carveouts, "/work".to_string())
}

fn can_read(permissions: &Permissions, granted: bool, denied: bool) -> bool {
    permissions.can_read(
        Path::new("/work/a"),
        |_policy: &u32, _path: &Path, _cwd: &String| granted,
        |_matcher: &u16, _path: &Path| denied,
    )
}

#[test]
fn reading_is_granted_less_denied() {
    let with_matcher = permissions(Some(9), &[]);
    assert!(can_read(&with_matcher, true, false));
    assert!(!can_read(&with_matcher, true, true));
    assert!(!can_read(&with_matcher, false, false));
    assert!(!can_read(&with_matcher, false, true));
}

#[test]
fn policy_decides_without_matcher() {
    let without_matcher = permissions(None, &[]);
    assert!(can_read(&without_matcher, true, true));
    assert!(!can_read(&without_matcher, false, false));
    assert!(!without_matcher.is_read_denied(Path::new("/a"), |_matcher: &u16, _path: &Path| true));
}

#[test]
fn denied_path_is_unreadable() {
    let with_matcher = permissions(Some(9), &[]);
    let denies = |matcher: &u16, path: &Path| *matcher == 9 && path == Path::new("/secret");
    let grants = |_policy: &u32, _path: &Path, _cwd: &String| true;
    assert!(with_matcher.is_read_denied(Path::new("/secret"), denies));
    assert!(!with_matcher.can_read(Path::new("/secret"), grants, denies));
    assert!(!with_matcher.is_read_denied(Path::new("/public"), denies));
    assert!(with_matcher.can_read(Path::new("/public"), grants, denies));
}

#[test]
fn matcher_is_not_asked_where_the_policy_forbids() {
    let with_matcher = permissions(Some(9), &[]);
    let asked = Cell::new(0);
    let readable = with_matcher.can_read(
        Path::new("/work/a"),
        |_policy: &u32, _path: &Path, _cwd: &String| false,
        |_matcher: &u16, _path: &Path| {
            asked.set(asked.get() + 1);
            false
        },
    );
    assert!(!readable);
    assert_eq!(asked.get(), 0);
}

#[test]
fn writing_is_up_to_the_policy() {
    let with_matcher = permissions(Some(9), &[]);
    let writes = |policy: &u32, path: &Path, cwd: &String| {
        *policy == 40 && path.starts_with(cwd.as_str())
    };
    assert!(with_matcher.can_write(Path::new("/work/a"), writes));
    assert!(!with_matcher.can_write(Path::new("/etc"), writes));
}

#[test]
fn full_disk_access_is_up_to_the_policy() {
    let with_matcher = permissions(Some(9), &[]);
    assert!(with_matcher.has_full_disk_read_access(|policy: &u32| *policy == 40));
    assert!(!with_matcher.has_full_disk_read_access(|policy: &u32| *policy == 41));
    assert!(with_matcher.has_full_disk_write_access(|policy: &u32| *policy == 40));
    assert!(!with_matcher.has_full_disk_write_access(|policy: &u32| *policy == 41));
}

#[test]
fn carveouts_are_told_by_components() {
    let kept = permissions(None, &["/work/.git", "/work/.agents/"]);
    for path in [
        "/work/.git",
        "/work/.git/",
        "/work//.git",
        "/work/./.git",
        "/work/.agents",
    ] {
        assert!(kept.is_missing_protected_metadata_carveout(Path::new(path)), "{path}");
    }
    for path in [
        "work/.git",
        "/work",
        "/work/.git/config",
        "/work/x/../.git",
        "/work/.GIT",
        "",
    ] {
        assert!(!kept.is_missing_protected_metadata_carveout(Path::new(path)), "{path}");
    }
}

#[test]
fn nothing_is_a_carveout_of_none() {
    let none = permissions(Some(1), &[]);
    assert!(!none.is_missing_protected_metadata_carveout(Path::new("/work/.git")));
    assert!(!none.is_missing_protected_metadata_carveout(Path::new("")));
}
