use temploy::path::{all_normal_names, contains_char, is_normal, same_text, FsPath};
use temploy::scan::{find_first_segment_end, find_last_segment_start};

fn names(list: &[&str]) -> Vec<String> {
    list.iter().map(|s| s.to_string()).collect()
}

fn absolute(list: &[&str]) -> FsPath {
    FsPath { absolute: true, segments: names(list) }
}

fn relative(list: &[&str]) -> FsPath {
    FsPath { absolute: false, segments: names(list) }
}

#[test]
fn parse_reads_absolute_path() {
    assert_eq!(FsPath::parse("/tmp/out"), absolute(&["tmp", "out"]));
}

#[test]
fn parse_reads_relative_path() {
    assert_eq!(FsPath::parse("tests/test-data"), relative(&["tests", "test-data"]));
}

#[test]
fn parse_drops_pieces_that_add_nothing() {
    assert_eq!(FsPath::parse("/a//b/./c/"), absolute(&["a", "b", "c"]));
    assert_eq!(FsPath::parse("a/./b/."), relative(&["a", "b"]));
    assert_eq!(FsPath::parse("/./x"), absolute(&["x"]));
    assert_eq!(FsPath::parse("//"), absolute(&[]));
}

#[test]
fn parse_keeps_a_dot_at_the_start() {
    assert_eq!(FsPath::parse("."), relative(&["."]));
    assert_eq!(FsPath::parse("./x"), relative(&[".", "x"]));
    assert_eq!(FsPath::parse("././x"), relative(&[".", "x"]));
    assert_eq!(FsPath::parse("./"), relative(&["."]));
}

#[test]
fn empty_text_and_dot_are_two_paths() {
    assert_ne!(FsPath::parse(""), FsPath::parse("."));
    assert_eq!(FsPath::parse("").to_text(), "");
    assert_eq!(FsPath::parse(".").to_text(), ".");
}

#[test]
fn parse_of_empty_text_is_the_empty_relative_path() {
    assert_eq!(FsPath::parse(""), relative(&[]));
}

#[test]
fn parse_of_a_lone_slash_is_the_root() {
    assert_eq!(FsPath::parse("/"), FsPath::root());
    assert_eq!(FsPath::root(), absolute(&[]));
}

#[test]
fn parse_keeps_parent_segments() {
    assert_eq!(FsPath::parse("a/../b"), relative(&["a", "..", "b"]));
}

#[test]
fn parse_keeps_text_outside_ascii() {
    assert_eq!(FsPath::parse("/données/été"), absolute(&["données", "été"]));
}

#[test]
fn text_of_a_path() {
    assert_eq!(absolute(&["tmp", "out"]).to_text(), "/tmp/out");
    assert_eq!(relative(&["tests", "test-data"]).to_text(), "tests/test-data");
    assert_eq!(relative(&["one"]).to_text(), "one");
    assert_eq!(absolute(&["one"]).to_text(), "/one");
    assert_eq!(FsPath::root().to_text(), "/");
    assert_eq!(relative(&[]).to_text(), "");
    assert_eq!(relative(&["."]).to_text(), ".");
    assert_eq!(relative(&[".", "x"]).to_text(), "./x");
    assert_eq!(relative(&["..", "up"]).to_text(), "../up");
}

#[test]
fn text_of_a_path_reads_back() {
    for text in ["/tmp/out", "tests/test-data", "/", ".", "", "./x", "../up", "/données/été"] {
        assert_eq!(FsPath::parse(text).to_text(), text);
        let path = FsPath::parse(text);
        assert_eq!(FsPath::parse(&path.to_text()), path);
    }
}

#[test]
fn extend_appends_segments() {
    let base = absolute(&["tmp", "out"]);
    assert_eq!(base.extend(&names(&["sub", "b.txt"])), absolute(&["tmp", "out", "sub", "b.txt"]));
    assert_eq!(base.extend(&names(&[])), base);
}

#[test]
fn file_name_is_the_last_segment() {
    assert_eq!(relative(&["tests", "test-data"]).file_name(), "test-data");
    assert_eq!(FsPath::root().file_name(), "");
    assert_eq!(relative(&[]).file_name(), "");
}

#[test]
fn starts_with_compares_whole_segments() {
    let path = absolute(&["srv", "template", "sub"]);
    assert!(path.starts_with(&absolute(&["srv", "template"])));
    assert!(path.starts_with(&path));
    assert!(path.starts_with(&FsPath::root()));
    assert!(!path.starts_with(&absolute(&["srv", "temp"])));
    assert!(!path.starts_with(&relative(&["srv", "template"])));
    assert!(!path.starts_with(&absolute(&["srv", "template", "sub", "deeper"])));
}

#[test]
fn strip_prefix_gives_the_rest() {
    let path = relative(&["tpl", "sub", "b.txt"]);
    assert_eq!(path.strip_prefix(&relative(&["tpl"])), Some(names(&["sub", "b.txt"])));
    assert_eq!(path.strip_prefix(&path), Some(names(&[])));
    assert_eq!(path.strip_prefix(&relative(&["other"])), None);
    assert_eq!(path.strip_prefix(&absolute(&["tpl"])), None);
}

#[test]
fn strip_prefix_undoes_extend() {
    let base = absolute(&["tmp", "out", "demo"]);
    let rest = names(&["sub", "b.txt"]);
    assert_eq!(base.extend(&rest).strip_prefix(&base), Some(rest));
}

#[test]
fn duplicate_keeps_the_path() {
    let path = absolute(&["a", "b"]);
    assert_eq!(path.duplicate(), path);
    assert_eq!(path.clone(), path);
    assert_eq!(relative(&[]).duplicate(), relative(&[]));
}

#[test]
fn normal_segments() {
    assert!(is_normal("a.txt"));
    assert!(is_normal(".git"));
    assert!(is_normal("..."));
    assert!(!is_normal(""));
    assert!(!is_normal("."));
    assert!(!is_normal(".."));
    assert!(!is_normal("a/b"));
    assert!(all_normal_names(&names(&["sub", "b.txt"])));
    assert!(all_normal_names(&names(&[])));
    assert!(!all_normal_names(&names(&["sub", "..", "b.txt"])));
}

#[test]
fn text_helpers() {
    assert!(same_text("abc", "abc"));
    assert!(!same_text("abc", "abd"));
    assert!(!same_text("abc", "ab"));
    assert!(contains_char("a/b", '/'));
    assert!(!contains_char("ab", '/'));
    assert!(!contains_char("", '/'));
}

#[test]
fn last_segment_starts_behind_the_last_separator() {
    assert_eq!(find_last_segment_start("git@host:org/my-proj.git", '/'), 13);
    assert_eq!(find_last_segment_start("no-separator", '/'), 0);
    assert_eq!(find_last_segment_start("ends/with/", '/'), 10);
    assert_eq!(find_last_segment_start("", '/'), 0);
    assert_eq!(find_last_segment_start("é/é", '/'), 2);
}

#[test]
fn first_segment_ends_at_the_first_separator() {
    assert_eq!(find_first_segment_end("my-proj.git", '.'), 7);
    assert_eq!(find_first_segment_end("archive.tar.gz", '.'), 7);
    assert_eq!(find_first_segment_end("plain", '.'), 5);
    assert_eq!(find_first_segment_end(".hidden", '.'), 0);
    assert_eq!(find_first_segment_end("", '.'), 0);
}
