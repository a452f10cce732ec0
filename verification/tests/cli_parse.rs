use linuxfs::cli::{parse_args, Command};
use linuxfs::filesystem::FsPath;

#[test]
fn parses_inspect_command() {
    assert_eq!(
        parse_args(&["inspect".to_owned(), "disk.img".to_owned()]).expect("inspect command"),
        Command::Inspect {
            image: "disk.img".into(),
        }
    );
}

#[test]
fn parses_list_with_a_root_default() {
    assert_eq!(
        parse_args(&["ls".to_owned(), "disk.img".to_owned()]).expect("list command"),
        Command::List {
            image: "disk.img".into(),
            path: FsPath::root(),
        }
    );
}

#[test]
fn rejects_paths_that_escape_the_filesystem() {
    let error = parse_args(&[
        "cat".to_owned(),
        "disk.img".to_owned(),
        "/../secret".to_owned(),
    ])
    .expect_err("path traversal");
    assert!(error.contains("escapes root"));
}

#[test]
fn paths_are_absolute_and_root_bounded() {
    assert_eq!(
        FsPath::parse("/a/./b").expect("valid path").as_str(),
        "/a/b"
    );
    assert!(FsPath::parse("relative").is_err());
    assert!(FsPath::parse("/a/../b").is_err());
}

#[test]
fn paths_collapse_separators_and_keep_the_root() {
    assert_eq!(FsPath::parse("/").expect("root").as_str(), "/");
    assert_eq!(FsPath::parse("//a///b/.").expect("valid").as_str(), "/a/b");
    assert_eq!(
        FsPath::parse("/a/..").expect_err("escape").to_string(),
        "filesystem path escapes root"
    );
    assert_eq!(
        FsPath::parse("a").expect_err("relative").to_string(),
        "filesystem path must be absolute"
    );
}

#[test]
fn copied_paths_keep_their_normal_form() {
    let path = FsPath::parse("//a/./b//").expect("valid path");
    let copy = path.clone();
    assert_eq!(copy, path);
    assert_eq!(copy.as_str(), "/a/b");
    assert_eq!(FsPath::parse(copy.as_str()).expect("normal form parses"), copy);
}

#[test]
fn normalized_paths_have_only_proper_components() {
    for text in ["/", "//", "/a/./b//", "/x/y/z/.", "/.hidden/./file"] {
        let path = FsPath::parse(text).expect("valid path");
        let shown = path.as_str();
        assert!(shown.starts_with('/'));
        assert!(!shown.contains('\0'));
        assert!(shown == "/" || shown[1..].split('/').all(|c| !c.is_empty() && c != "." && c != ".."));
    }
    assert_eq!(FsPath::root().as_str(), "/");
}
