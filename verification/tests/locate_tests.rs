use baldr::locate::find_files;
use baldr::locate::FileEntry;

fn entry(path: &str, name: &str, is_file: bool) -> FileEntry {
    FileEntry {
        path: path.to_string(),
        name: name.to_string(),
        is_file,
    }
}

#[test]
fn executable_locator_single_match() {
    let entries = vec![
        entry("build", "build", false),
        entry("build/readme.txt", "readme.txt", true),
        entry("build/test", "test", true),
        entry("build/test.o", "test.o", true),
    ];
    assert_eq!(find_files(&entries, "test"), vec!["build/test"]);
}

#[test]
fn executable_locator_ambiguous() {
    let entries = vec![
        entry("build/a/test", "test", true),
        entry("build/other", "other", true),
        entry("build/b/test", "test", true),
    ];
    assert_eq!(find_files(&entries, "test"), vec!["build/a/test", "build/b/test"]);
}

#[test]
fn executable_locator_ignores_directories() {
    let entries = vec![entry("build/test", "test", false)];
    assert_eq!(find_files(&entries, "test"), Vec::<String>::new());
}

#[test]
fn executable_locator_empty_tree() {
    assert_eq!(find_files(&Vec::new(), "test"), Vec::<String>::new());
}
