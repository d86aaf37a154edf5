use baldr::cfg::config_base_paths;
use baldr::cfg::config_extensions;
use baldr::cfg::detect_format;
use baldr::cfg::ConfigView;
use baldr::cfg::FileKind;
use baldr::cmake::format_cmd;
use baldr::cmake::CmdSpec;
use baldr::docker::container_plan;
use baldr::strutil::basename;
use baldr::strutil::code_to_string;
use baldr::strutil::file_name;
use baldr::strutil::path_join;
use baldr::strutil::trim;
use baldr::strutil::u64_to_string;

#[test]
fn format_cmd_example() {
    let cmd = CmdSpec {
        program: "echo".to_string(),
        args: vec!["hello".to_string(), "there".to_string()],
        env: Vec::new(),
    };
    assert_eq!(format_cmd(&cmd), "echo hello there");
}

#[test]
fn format_cmd_without_args() {
    let cmd = CmdSpec {
        program: "echo".to_string(),
        args: Vec::new(),
        env: Vec::new(),
    };
    assert_eq!(format_cmd(&cmd), "echo ");
}

#[test]
fn decimal_formatting() {
    assert_eq!(u64_to_string(0), "0");
    assert_eq!(u64_to_string(9), "9");
    assert_eq!(u64_to_string(10), "10");
    assert_eq!(u64_to_string(255), "255");
    assert_eq!(u64_to_string(1000), "1000");
}

#[test]
fn exit_code_formatting() {
    assert_eq!(code_to_string(0), "0");
    assert_eq!(code_to_string(9), "9");
    assert_eq!(code_to_string(-3), "-3");
}

#[test]
fn basename_strips_directories() {
    assert_eq!(basename("/usr/bin/g++"), "g++");
    assert_eq!(basename("gcc"), "gcc");
    assert_eq!(basename(""), "");
    assert_eq!(basename("a/b/c"), "c");
}

#[test]
fn file_name_final_component() {
    assert_eq!(file_name("/usr/bin/g++"), Some("g++".to_string()));
    assert_eq!(file_name("gcc"), Some("gcc".to_string()));
    assert_eq!(file_name("/usr/bin/"), Some("bin".to_string()));
    assert_eq!(file_name("foo.txt/."), Some("foo.txt".to_string()));
    assert_eq!(file_name("foo.txt/.//"), Some("foo.txt".to_string()));
    assert_eq!(file_name("a/../b"), Some("b".to_string()));
    assert_eq!(file_name("a/.."), None);
    assert_eq!(file_name(".."), None);
    assert_eq!(file_name("."), None);
    assert_eq!(file_name("/"), None);
    assert_eq!(file_name(""), None);
}

#[test]
fn path_join_cases() {
    assert_eq!(path_join("", "build"), "build");
    assert_eq!(path_join("proj", "build"), "proj/build");
    assert_eq!(path_join("proj/", "build"), "proj/build");
}

#[test]
fn trim_ascii_whitespace() {
    assert_eq!(trim("  y\n"), "y");
    assert_eq!(trim("y"), "y");
    assert_eq!(trim("   "), "");
    assert_eq!(trim("\ta b\r\n"), "a b");
}

#[test]
fn format_detection() {
    assert_eq!(detect_format("x.toml"), Some(FileKind::Toml));
    assert_eq!(detect_format("x.json"), Some(FileKind::Json));
    assert_eq!(detect_format("x.json5"), Some(FileKind::Json5));
    assert_eq!(detect_format("x.yaml"), Some(FileKind::Yaml));
    assert_eq!(detect_format("x.yml"), Some(FileKind::Yaml));
    assert_eq!(detect_format("x.ini"), Some(FileKind::Ini));
    assert_eq!(detect_format("x.ron"), Some(FileKind::Ron));
    assert_eq!(detect_format("x.conf"), None);
    assert_eq!(detect_format("x"), None);
}

#[test]
fn config_lookup_paths() {
    let paths = config_base_paths(
        &Some("/xdg".to_string()),
        &Some("/home/user".to_string()),
    );
    assert_eq!(paths, vec!["/xdg/.baldr", "/home/user/.baldr", "./.baldr"]);
    let fallback = config_base_paths(&None, &None);
    assert_eq!(fallback, vec!["./.baldr"]);
}

#[test]
fn config_extension_order() {
    assert_eq!(
        config_extensions(),
        vec!["toml", "json", "yaml", "yml", "ini", "ron", "json5"]
    );
}

fn docker_view() -> ConfigView {
    ConfigView {
        compiler_cc: None,
        compiler_cxx: None,
        cmake_definitions: None,
        debugger: None,
        docker_present: true,
        docker_name: Some("builder".to_string()),
        docker_image: Some("debian:stable".to_string()),
        docker_env: Some(vec!["A=1".to_string()]),
        docker_remove: Some(true),
        docker_stdout: Some(true),
        docker_stderr: None,
    }
}

#[test]
fn container_plan_fields() {
    let plan = container_plan(vec!["make".to_string()], &docker_view()).unwrap();
    assert_eq!(plan.name, Some("builder".to_string()));
    assert_eq!(plan.image, "debian:stable");
    assert_eq!(plan.env, vec!["A=1"]);
    assert!(plan.attach_stdout);
    assert!(!plan.attach_stderr);
    assert!(plan.auto_remove);
    assert_eq!(plan.command, vec!["make"]);
}

#[test]
fn container_plan_requires_image() {
    let mut view = docker_view();
    view.docker_image = None;
    match container_plan(Vec::new(), &view) {
        Err(msg) => assert_eq!(msg, "`docker.image` field is mandatory when using Docker"),
        Ok(_) => panic!("a plan without an image must be refused"),
    }
}
