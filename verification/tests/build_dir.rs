use baldr::build_path::BuildPath;

#[test]
fn build_dir_default() {
    assert_eq!(
        BuildPath {
            project: "project",
            build_type: "Debug",
            compiler_path: "",
            sanitizer: None,
        }
        .to_path(),
        "project/build/debug"
    );
}

#[test]
fn build_dir_sanitizer() {
    assert_eq!(
        BuildPath {
            project: "project",
            build_type: "Debug",
            compiler_path: "",
            sanitizer: Some("asan"),
        }
        .to_path(),
        "project/build/debug-asan"
    );
}

#[test]
fn build_dir_compiler() {
    assert_eq!(
        BuildPath {
            project: "project",
            build_type: "Debug",
            compiler_path: "gcc",
            sanitizer: None,
        }
        .to_path(),
        "project/build/debug-gcc"
    );
}

#[test]
fn build_dir_both() {
    assert_eq!(
        BuildPath {
            project: "project",
            build_type: "Debug",
            compiler_path: "gcc",
            sanitizer: Some("asan"),
        }
        .to_path(),
        "project/build/debug-gcc-asan"
    );
}

#[test]
fn build_dir_compiler_basename() {
    assert_eq!(
        BuildPath {
            project: "project",
            build_type: "Debug",
            compiler_path: "/usr/bin/g++",
            sanitizer: None,
        }
        .to_path(),
        "project/build/debug-g++"
    );
}

#[test]
fn build_dir_lowercases_build_type() {
    assert_eq!(
        BuildPath {
            project: "p",
            build_type: "RelWithDebInfo",
            compiler_path: "",
            sanitizer: None,
        }
        .to_path(),
        "p/build/relwithdebinfo"
    );
}

#[test]
fn build_dir_compiler_trailing_slash() {
    assert_eq!(
        BuildPath {
            project: "project",
            build_type: "Debug",
            compiler_path: "/usr/bin/",
            sanitizer: None,
        }
        .to_path(),
        "project/build/debug-bin"
    );
}

#[test]
fn build_dir_trailing_separator_kept_single() {
    assert_eq!(
        BuildPath {
            project: "project/",
            build_type: "Release",
            compiler_path: "",
            sanitizer: None,
        }
        .to_path(),
        "project/build/release"
    );
}
