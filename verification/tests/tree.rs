use temploy::materialize::{materialize, FileOperation};
use temploy::path::FsPath;
use temploy::walk::{has_vcs_segment, EntryKind, TreeEntry, WalkedEntry, VCS_DIR};
use temploy::TemployError;

fn names(list: &[&str]) -> Vec<String> {
    list.iter().map(|s| s.to_string()).collect()
}

fn found(path: &str, is_dir: bool) -> WalkedEntry {
    WalkedEntry { path: FsPath::parse(path), is_dir }
}

#[test]
fn version_control_directory_is_named_dot_git() {
    assert_eq!(VCS_DIR, ".git");
}

#[test]
fn segments_of_version_control_are_found() {
    assert!(has_vcs_segment(&names(&[".git"])));
    assert!(has_vcs_segment(&names(&[".git", "config"])));
    assert!(has_vcs_segment(&names(&["deep", "er", ".git", "objects", "ab"])));
    assert!(!has_vcs_segment(&names(&[])));
    assert!(!has_vcs_segment(&names(&["a.txt"])));
    assert!(!has_vcs_segment(&names(&[".gitignore"])));
    assert!(!has_vcs_segment(&names(&["x.git"])));
    assert!(!has_vcs_segment(&names(&[".GIT"])));
}

#[test]
fn root_of_the_walk_is_passed_over() {
    let root = FsPath::parse("tests/test-data");
    assert_eq!(TreeEntry::from_walked(&root, found("tests/test-data", true)), Ok(None));
}

#[test]
fn file_below_the_root_is_reproduced() {
    let root = FsPath::parse("tests/test-data");
    assert_eq!(
        TreeEntry::from_walked(&root, found("tests/test-data/sub/b.txt", false)),
        Ok(Some(TreeEntry {
            relative_path: names(&["sub", "b.txt"]),
            kind: EntryKind::File,
            absolute_source_path: FsPath::parse("tests/test-data/sub/b.txt"),
        }))
    );
}

#[test]
fn directory_below_the_root_is_reproduced() {
    let root = FsPath::parse("/srv/tpl");
    assert_eq!(
        TreeEntry::from_walked(&root, found("/srv/tpl/sub", true)),
        Ok(Some(TreeEntry {
            relative_path: names(&["sub"]),
            kind: EntryKind::Directory,
            absolute_source_path: FsPath::parse("/srv/tpl/sub"),
        }))
    );
}

#[test]
fn entries_of_version_control_are_passed_over() {
    let root = FsPath::parse("tests/test-data");
    assert_eq!(TreeEntry::from_walked(&root, found("tests/test-data/.git", true)), Ok(None));
    assert_eq!(TreeEntry::from_walked(&root, found("tests/test-data/.git/config", false)), Ok(None));
    assert_eq!(
        TreeEntry::from_walked(&root, found("tests/test-data/a/b/.git/objects/ab/cd", false)),
        Ok(None)
    );
}

#[test]
fn version_control_above_the_root_does_not_count() {
    let root = FsPath::parse("/home/u/.git/tpl");
    assert_eq!(
        TreeEntry::from_walked(&root, found("/home/u/.git/tpl/a.txt", false)),
        Ok(Some(TreeEntry {
            relative_path: names(&["a.txt"]),
            kind: EntryKind::File,
            absolute_source_path: FsPath::parse("/home/u/.git/tpl/a.txt"),
        }))
    );
}

#[test]
fn entry_outside_the_root_is_an_error() {
    let root = FsPath::parse("/srv/tpl");
    assert_eq!(
        TreeEntry::from_walked(&root, found("/srv/other/a.txt", false)),
        Err(TemployError::FailedToStripPrefix)
    );
    assert_eq!(
        TreeEntry::from_walked(&root, found("srv/tpl/a.txt", false)),
        Err(TemployError::FailedToStripPrefix)
    );
    assert_eq!(
        TreeEntry::from_walked(&root, found("/srv", true)),
        Err(TemployError::FailedToStripPrefix)
    );
}

#[test]
fn entry_that_climbs_is_an_error() {
    let root = FsPath::parse("/srv/tpl");
    assert_eq!(
        TreeEntry::from_walked(&root, found("/srv/tpl/../secret", false)),
        Err(TemployError::FailedToStripPrefix)
    );
    assert_eq!(
        TreeEntry::from_walked(&root, found("/srv/tpl/.git/../secret", false)),
        Err(TemployError::FailedToStripPrefix)
    );
}

#[test]
fn directory_is_created_below_the_destination() {
    let entry = TreeEntry {
        relative_path: names(&["sub"]),
        kind: EntryKind::Directory,
        absolute_source_path: FsPath::parse("tests/test-data/sub"),
    };
    assert_eq!(
        materialize(entry, &FsPath::parse("/tmp/out/demo")),
        FileOperation::CreateDirectory { target: FsPath::parse("/tmp/out/demo/sub") }
    );
}

#[test]
fn file_is_copied_below_the_destination() {
    let entry = TreeEntry {
        relative_path: names(&["sub", "b.txt"]),
        kind: EntryKind::File,
        absolute_source_path: FsPath::parse("tests/test-data/sub/b.txt"),
    };
    assert_eq!(
        materialize(entry, &FsPath::parse("/tmp/out/demo")),
        FileOperation::CopyFile {
            source: FsPath::parse("tests/test-data/sub/b.txt"),
            target: FsPath::parse("/tmp/out/demo/sub/b.txt"),
        }
    );
}
