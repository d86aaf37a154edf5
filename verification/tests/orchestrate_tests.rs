use baldr::Args;
use baldr::cfg::ConfigView;
use baldr::orchestrate::Action;
use baldr::orchestrate::Event;
use baldr::orchestrate::Orchestrator;
use baldr::orchestrate::Phase;

fn args_for(target: &str) -> Args {
    Args {
        project: "proj".to_string(),
        build_type: "Debug".to_string(),
        build_dir: None,
        target: target.to_string(),
        delete: false,
        no_confirm: false,
        no_configure: false,
        jobs: 1,
        cmake_args: Vec::new(),
        config: None,
        run: false,
        debug: false,
        exe_args: Vec::new(),
    }
}

fn empty_config() -> ConfigView {
    ConfigView {
        compiler_cc: None,
        compiler_cxx: None,
        cmake_definitions: None,
        debugger: None,
        docker_present: false,
        docker_name: None,
        docker_image: None,
        docker_env: None,
        docker_remove: None,
        docker_stdout: None,
        docker_stderr: None,
    }
}

fn check_dir(m: &mut Orchestrator) -> String {
    match m.step(Event::Start) {
        Action::CheckBuildDir(d) => d,
        _ => panic!("the first action must be the build directory check"),
    }
}

/// Drive a fresh-directory invocation up to and including a successful
/// build, leaving the machine waiting on the symlink status.
fn drive_until_link(m: &mut Orchestrator) -> String {
    check_dir(m);
    match m.step(Event::Exists(Ok(false))) {
        Action::CreateDir(_) => {}
        _ => panic!("an absent build directory must be created"),
    }
    match m.step(Event::Created(Ok(()))) {
        Action::Spawn(c) => assert_eq!(c.program, "cmake"),
        _ => panic!("a fresh build directory must be configured"),
    }
    match m.step(Event::Exited(Ok(Some(0)))) {
        Action::Spawn(c) => assert_eq!(c.args[0], "--build"),
        _ => panic!("a successful configure must be followed by the build"),
    }
    match m.step(Event::Exited(Ok(Some(0)))) {
        Action::CheckLink(l) => l,
        _ => panic!("a successful build must be followed by the symlink check"),
    }
}

#[test]
fn orchestrator_full_build_flow() {
    let mut m = Orchestrator::new(args_for("all"), empty_config());
    let dir = check_dir(&mut m);
    assert_eq!(dir, "proj/build/debug");
    match m.step(Event::Exists(Ok(false))) {
        Action::CreateDir(d) => assert_eq!(d, "proj/build/debug"),
        _ => panic!("an absent build directory must be created"),
    }
    match m.step(Event::Created(Ok(()))) {
        Action::Spawn(c) => {
            assert_eq!(c.program, "cmake");
            assert_eq!(
                c.args,
                vec![
                    "-S",
                    "proj",
                    "-B",
                    "proj/build/debug",
                    "-DCMAKE_BUILD_TYPE=Debug",
                    "-DCMAKE_EXPORT_COMPILE_COMMANDS=ON",
                ]
            );
            assert!(c.env.is_empty());
        }
        _ => panic!("a fresh build directory must be configured"),
    }
    match m.step(Event::Exited(Ok(Some(0)))) {
        Action::Spawn(c) => {
            assert_eq!(c.program, "cmake");
            assert_eq!(
                c.args,
                vec!["--build", "proj/build/debug", "--target", "all", "--", "-j", "1"]
            );
        }
        _ => panic!("a successful configure must be followed by the build"),
    }
    match m.step(Event::Exited(Ok(Some(0)))) {
        Action::CheckLink(l) => assert_eq!(l, "proj/compile_commands.json"),
        _ => panic!("a successful build must be followed by the symlink check"),
    }
    match m.step(Event::LinkStatus(Ok(true))) {
        Action::Finish(r) => assert!(r.is_ok()),
        _ => panic!("without a run request the invocation must finish"),
    }
    assert!(matches!(m.phase, Phase::Done));
}

#[test]
fn configure_includes_defines_and_compilers() {
    let mut args = args_for("all");
    args.cmake_args = vec!["CLI1=a".to_string(), "CLI2=b".to_string()];
    let mut cfg = empty_config();
    cfg.compiler_cc = Some("gcc".to_string());
    cfg.compiler_cxx = Some("g++".to_string());
    cfg.cmake_definitions = Some(vec!["CFG1=c".to_string()]);
    let mut m = Orchestrator::new(args, cfg);
    check_dir(&mut m);
    m.step(Event::Exists(Ok(false)));
    match m.step(Event::Created(Ok(()))) {
        Action::Spawn(c) => {
            assert_eq!(
                c.args,
                vec![
                    "-S",
                    "proj",
                    "-B",
                    "proj/build/debug-g++",
                    "-DCMAKE_BUILD_TYPE=Debug",
                    "-DCMAKE_EXPORT_COMPILE_COMMANDS=ON",
                    "-DCFG1=c",
                    "-DCLI1=a",
                    "-DCLI2=b",
                ]
            );
            assert_eq!(
                c.env,
                vec![
                    ("CC".to_string(), "gcc".to_string()),
                    ("CXX".to_string(), "g++".to_string()),
                ]
            );
        }
        _ => panic!("a fresh build directory must be configured"),
    }
}

#[test]
fn configure_failure() {
    let mut m = Orchestrator::new(args_for("all"), empty_config());
    check_dir(&mut m);
    m.step(Event::Exists(Ok(false)));
    m.step(Event::Created(Ok(())));
    match m.step(Event::Exited(Ok(Some(2)))) {
        Action::Finish(Err(msg)) => assert_eq!(msg, "Configuring failed"),
        _ => panic!("a failing configure must end the invocation"),
    }
}

#[test]
fn build_failure() {
    let mut m = Orchestrator::new(args_for("all"), empty_config());
    check_dir(&mut m);
    m.step(Event::Exists(Ok(false)));
    m.step(Event::Created(Ok(())));
    m.step(Event::Exited(Ok(Some(0))));
    match m.step(Event::Exited(Ok(Some(1)))) {
        Action::Finish(Err(msg)) => assert_eq!(msg, "Build failed"),
        _ => panic!("a failing build must end the invocation"),
    }
}

#[test]
fn spawn_failure_names_the_command() {
    let mut m = Orchestrator::new(args_for("all"), empty_config());
    check_dir(&mut m);
    m.step(Event::Exists(Ok(false)));
    m.step(Event::Created(Ok(())));
    match m.step(Event::Exited(Err("no such file".to_string()))) {
        Action::Finish(Err(msg)) => {
            assert_eq!(
                msg,
                "Spawning command `cmake -S proj -B proj/build/debug -DCMAKE_BUILD_TYPE=Debug \
                 -DCMAKE_EXPORT_COMPILE_COMMANDS=ON` failed with `no such file`"
            );
        }
        _ => panic!("a spawn failure must end the invocation"),
    }
}

#[test]
fn exists_check_failure_is_fatal() {
    let mut m = Orchestrator::new(args_for("all"), empty_config());
    check_dir(&mut m);
    match m.step(Event::Exists(Err("boom".to_string()))) {
        Action::Finish(Err(msg)) => assert_eq!(msg, "boom"),
        _ => panic!("an unanswerable existence check must end the invocation"),
    }
}

#[test]
fn existing_dir_reconfigures_by_default() {
    let mut m = Orchestrator::new(args_for("all"), empty_config());
    check_dir(&mut m);
    match m.step(Event::Exists(Ok(true))) {
        Action::Spawn(c) => assert_eq!(c.args[0], "-S"),
        _ => panic!("an existing build directory must be reconfigured"),
    }
}

#[test]
fn no_configure_skips_to_build() {
    let mut args = args_for("all");
    args.no_configure = true;
    let mut m = Orchestrator::new(args, empty_config());
    check_dir(&mut m);
    match m.step(Event::Exists(Ok(true))) {
        Action::Spawn(c) => assert_eq!(c.args[0], "--build"),
        _ => panic!("with the configure step skipped the build must start"),
    }
}

#[test]
fn delete_asks_for_confirmation() {
    let mut args = args_for("all");
    args.delete = true;
    let mut m = Orchestrator::new(args, empty_config());
    check_dir(&mut m);
    match m.step(Event::Exists(Ok(true))) {
        Action::Prompt(p) => {
            assert_eq!(p, "Are you sure to remove `proj/build/debug` (press 'y' to proceed): ");
        }
        _ => panic!("deletion of an existing directory must be confirmed"),
    }
    match m.step(Event::Answer("y".to_string())) {
        Action::DeleteDir(d) => assert_eq!(d, "proj/build/debug"),
        _ => panic!("an accepted confirmation must delete the directory"),
    }
    match m.step(Event::Deleted(Ok(()))) {
        Action::CreateDir(_) => {}
        _ => panic!("a deleted build directory must be recreated"),
    }
}

#[test]
fn delete_confirmation_trims_answer() {
    let mut args = args_for("all");
    args.delete = true;
    let mut m = Orchestrator::new(args, empty_config());
    check_dir(&mut m);
    m.step(Event::Exists(Ok(true)));
    match m.step(Event::Answer("  y\n".to_string())) {
        Action::DeleteDir(_) => {}
        _ => panic!("the answer must be trimmed before the comparison"),
    }
}

#[test]
fn delete_declined_keeps_directory() {
    let mut args = args_for("all");
    args.delete = true;
    let mut m = Orchestrator::new(args, empty_config());
    check_dir(&mut m);
    m.step(Event::Exists(Ok(true)));
    match m.step(Event::Answer("no".to_string())) {
        Action::Spawn(c) => assert_eq!(c.args[0], "-S"),
        _ => panic!("a declined deletion must keep the directory and reconfigure"),
    }
}

#[test]
fn delete_without_confirmation_flag() {
    let mut args = args_for("all");
    args.delete = true;
    args.no_confirm = true;
    let mut m = Orchestrator::new(args, empty_config());
    check_dir(&mut m);
    match m.step(Event::Exists(Ok(true))) {
        Action::DeleteDir(_) => {}
        _ => panic!("non-interactive mode must delete without a prompt"),
    }
}

#[test]
fn delete_failure_is_fatal() {
    let mut args = args_for("all");
    args.delete = true;
    args.no_confirm = true;
    let mut m = Orchestrator::new(args, empty_config());
    check_dir(&mut m);
    m.step(Event::Exists(Ok(true)));
    match m.step(Event::Deleted(Err("busy".to_string()))) {
        Action::Finish(Err(msg)) => {
            assert_eq!(msg, "Failed to delete build directory: busy");
        }
        _ => panic!("a failing deletion must end the invocation"),
    }
}

#[test]
fn symlink_valid_is_left_untouched() {
    let mut m = Orchestrator::new(args_for("all"), empty_config());
    drive_until_link(&mut m);
    match m.step(Event::LinkStatus(Ok(true))) {
        Action::RemoveLink(_) | Action::CreateLink { .. } => {
            panic!("a valid symlink must not be rewritten");
        }
        Action::Finish(r) => assert!(r.is_ok()),
        _ => panic!("without a run request the invocation must finish"),
    }
}

#[test]
fn symlink_broken_is_removed_and_recreated() {
    let mut m = Orchestrator::new(args_for("all"), empty_config());
    drive_until_link(&mut m);
    match m.step(Event::LinkStatus(Ok(false))) {
        Action::RemoveLink(l) => assert_eq!(l, "proj/compile_commands.json"),
        _ => panic!("a dangling symlink must be removed"),
    }
    match m.step(Event::LinkRemoved(true)) {
        Action::CreateLink { original, link } => {
            assert_eq!(original, "proj/build/debug/compile_commands.json");
            assert_eq!(link, "proj/compile_commands.json");
        }
        _ => panic!("the symlink must be recreated after the removal"),
    }
    match m.step(Event::LinkCreated(Ok(()))) {
        Action::Finish(r) => assert!(r.is_ok()),
        _ => panic!("without a run request the invocation must finish"),
    }
}

#[test]
fn symlink_creation_failure_is_reported() {
    let mut m = Orchestrator::new(args_for("all"), empty_config());
    drive_until_link(&mut m);
    m.step(Event::LinkStatus(Ok(false)));
    m.step(Event::LinkRemoved(false));
    match m.step(Event::LinkCreated(Err("denied".to_string()))) {
        Action::Finish(Err(msg)) => {
            assert_eq!(msg, "Failed to create a symlink for `compile_commands.json`: denied");
        }
        _ => panic!("a failing symlink creation must end the invocation"),
    }
}

#[test]
fn target_all_rejected_before_locating() {
    let mut args = args_for("all");
    args.run = true;
    let mut m = Orchestrator::new(args, empty_config());
    drive_until_link(&mut m);
    match m.step(Event::LinkStatus(Ok(true))) {
        Action::Walk { .. } => panic!("the locator must not run for the meta-target"),
        Action::Finish(Err(msg)) => assert_eq!(msg, "Target must be specified"),
        _ => panic!("the meta-target must be rejected"),
    }
}

fn drive_until_located(m: &mut Orchestrator) {
    drive_until_link(m);
    match m.step(Event::LinkStatus(Ok(true))) {
        Action::Walk { dir, target } => {
            assert_eq!(dir, "proj/build/debug");
            assert_eq!(target, "test");
        }
        _ => panic!("a run request must search the build directory"),
    }
}

#[test]
fn run_forwards_arguments_in_order() {
    let mut args = args_for("test");
    args.run = true;
    args.exe_args = vec!["arg1".to_string(), "arg2".to_string(), "arg3".to_string()];
    let mut m = Orchestrator::new(args, empty_config());
    drive_until_located(&mut m);
    match m.step(Event::Located(vec!["proj/build/debug/test".to_string()])) {
        Action::Spawn(c) => {
            assert_eq!(c.program, "proj/build/debug/test");
            assert_eq!(c.args, vec!["arg1", "arg2", "arg3"]);
        }
        _ => panic!("exactly one match must be launched"),
    }
    match m.step(Event::Exited(Ok(Some(0)))) {
        Action::Finish(r) => assert!(r.is_ok()),
        _ => panic!("a clean target exit must finish the invocation"),
    }
}

#[test]
fn exit_codes() {
    let mut args = args_for("test");
    args.run = true;
    args.exe_args = vec!["9".to_string()];
    let mut m = Orchestrator::new(args, empty_config());
    drive_until_located(&mut m);
    m.step(Event::Located(vec!["proj/build/debug/test".to_string()]));
    match m.step(Event::Exited(Ok(Some(9)))) {
        Action::Finish(Err(msg)) => {
            assert_eq!(msg, "Process has returned with exit code: 9");
        }
        _ => panic!("a non-zero target exit must be reported with its code"),
    }
}

#[test]
fn run_spawn_failure_is_reported() {
    let mut args = args_for("test");
    args.run = true;
    let mut m = Orchestrator::new(args, empty_config());
    drive_until_located(&mut m);
    m.step(Event::Located(vec!["proj/build/debug/test".to_string()]));
    match m.step(Event::Exited(Err("not executable".to_string()))) {
        Action::Finish(Err(msg)) => {
            assert_eq!(msg, "Failed to run the built executable: not executable");
        }
        _ => panic!("a failing launch must end the invocation"),
    }
}

#[test]
fn locate_none_is_fatal() {
    let mut args = args_for("test");
    args.run = true;
    let mut m = Orchestrator::new(args, empty_config());
    drive_until_located(&mut m);
    match m.step(Event::Located(Vec::new())) {
        Action::Finish(Err(msg)) => {
            assert_eq!(msg, "No executable found in `proj/build/debug`");
        }
        _ => panic!("zero matches must be a run-phase error"),
    }
}

#[test]
fn locate_multiple_is_fatal() {
    let mut args = args_for("test");
    args.run = true;
    let mut m = Orchestrator::new(args, empty_config());
    drive_until_located(&mut m);
    match m.step(Event::Located(vec!["a/test".to_string(), "b/test".to_string()])) {
        Action::Finish(Err(msg)) => {
            assert_eq!(msg, "Multiple executables found in `proj/build/debug`");
        }
        _ => panic!("several matches must be a run-phase error"),
    }
}

#[test]
fn unsupported_debugger() {
    let mut args = args_for("test");
    args.run = true;
    args.debug = true;
    let mut cfg = empty_config();
    cfg.debugger = Some("unknown".to_string());
    let mut m = Orchestrator::new(args, cfg);
    drive_until_located(&mut m);
    match m.step(Event::Located(vec!["proj/build/debug/test".to_string()])) {
        Action::Spawn(_) => panic!("nothing may be spawned for an unsupported debugger"),
        Action::Finish(Err(msg)) => assert_eq!(msg, "Unsupported debugger: unknown"),
        _ => panic!("an unsupported debugger must be a hard error"),
    }
    assert!(matches!(m.phase, Phase::Done));
}

#[test]
fn missing_debugger_is_fatal() {
    let mut args = args_for("test");
    args.run = true;
    args.debug = true;
    let mut m = Orchestrator::new(args, empty_config());
    drive_until_located(&mut m);
    match m.step(Event::Located(vec!["proj/build/debug/test".to_string()])) {
        Action::Finish(Err(msg)) => assert_eq!(msg, "No debugger is configured"),
        _ => panic!("a missing debugger configuration must be a hard error"),
    }
}

#[test]
fn gdb_wraps_target_after_marker() {
    let mut args = args_for("test");
    args.run = true;
    args.debug = true;
    args.exe_args = vec!["--fast".to_string()];
    let mut cfg = empty_config();
    cfg.debugger = Some("gdb".to_string());
    let mut m = Orchestrator::new(args, cfg);
    drive_until_located(&mut m);
    match m.step(Event::Located(vec!["proj/build/debug/test".to_string()])) {
        Action::Spawn(c) => {
            assert_eq!(c.program, "gdb");
            assert_eq!(c.args, vec!["--args", "proj/build/debug/test", "--fast"]);
        }
        _ => panic!("gdb must wrap the target after its marker"),
    }
}

#[test]
fn lldb_takes_target_positionally() {
    let mut args = args_for("test");
    args.run = true;
    args.debug = true;
    let mut cfg = empty_config();
    cfg.debugger = Some("lldb".to_string());
    let mut m = Orchestrator::new(args, cfg);
    drive_until_located(&mut m);
    match m.step(Event::Located(vec!["proj/build/debug/test".to_string()])) {
        Action::Spawn(c) => {
            assert_eq!(c.program, "lldb");
            assert_eq!(c.args, vec!["proj/build/debug/test"]);
        }
        _ => panic!("lldb must take the target as a positional argument"),
    }
}

#[test]
fn signal_termination_is_reported() {
    let mut args = args_for("test");
    args.run = true;
    let mut m = Orchestrator::new(args, empty_config());
    drive_until_located(&mut m);
    m.step(Event::Located(vec!["proj/build/debug/test".to_string()]));
    match m.step(Event::Exited(Ok(None))) {
        Action::Finish(Err(msg)) => assert_eq!(msg, "Process was terminated by a signal"),
        _ => panic!("a signal-terminated target must be reported"),
    }
}
