use std::path::Path;

use twelve::path::temp_path;

fn sibling_by_std(path: &str) -> String {
    let mut name = Path::new(path).file_name().unwrap_or_default().to_owned();
    name.push(".new");
    Path::new(path).with_file_name(name).to_str().unwrap().to_owned()
}

#[test]
fn temp_path_appends_suffix_to_file_name() {
    assert_eq!(temp_path("state.json"), "state.json.new");
    assert_eq!(temp_path("dir/state.json"), "dir/state.json.new");
    assert_eq!(temp_path("/var/lib/app/state.json"), "/var/lib/app/state.json.new");
}

#[test]
fn temp_path_stays_in_the_directory_of_the_target() {
    assert_eq!(temp_path("dir/state.json/"), "dir/state.json.new");
    assert_eq!(temp_path("dir//state.json"), "dir/state.json.new");
    assert_eq!(temp_path("dir/state.json/."), "dir/state.json.new");
    assert_eq!(temp_path("./state.json"), "./state.json.new");
    assert_eq!(temp_path("/state.json"), "/state.json.new");
}

#[test]
fn temp_path_without_file_name_is_the_bare_suffix() {
    assert_eq!(temp_path(""), ".new");
    assert_eq!(temp_path("/"), "/.new");
    assert_eq!(temp_path("."), "./.new");
    assert_eq!(temp_path(".."), "../.new");
    assert_eq!(temp_path("dir/.."), "dir/../.new");
}

#[test]
fn temp_path_differs_from_target() {
    for path in ["a", "a.new", "a/b/./.", ".new", "a/.new", "x/y.new/"] {
        assert_ne!(temp_path(path), path);
    }
}

#[test]
fn temp_path_agrees_with_std_paths() {
    let paths = [
        "",
        "/",
        "//",
        ".",
        "./",
        "./.",
        "..",
        "../",
        "../..",
        "a",
        "a/",
        "a//",
        "a/.",
        "a/./",
        "a/..",
        "a/../b",
        "/a",
        "/a/",
        "//a",
        "/a/b",
        "/a//b//",
        "a/b/c",
        "a/b/./c/.",
        "./a",
        "./a/b",
        ".a",
        ".a/b",
        "..a",
        "a..",
        "a/...",
        "...",
        "a b/c d",
        "dir/state.json",
        "dir/state.json.new",
        "d\u{e9}p\u{f4}t/\u{e9}tat.json",
        "/.",
        "/..",
        "/./a",
        ".//a",
        "a/./././b/././.",
    ];
    for path in paths {
        assert_eq!(temp_path(path), sibling_by_std(path), "for {:?}", path);
    }
}
