//! The build orchestration state machine. One invocation progresses from
//! the build-directory check through optional deletion and creation,
//! configure, build, the `compile_commands.json` symlink synchronization,
//! and the optional run (directly or under a debugger). The machine only
//! decides: every file, process and terminal operation is an [`Action`]
//! handed to the caller, whose outcome comes back as an [`Event`]. Any
//! phase failure aborts the remaining phases; nothing is retried.

use vstd::prelude::*;

use crate::Args;
use crate::build_path::BuildPath;
use crate::build_path::spec_build_path;
use crate::cfg::ConfigView;
use crate::cmake::CmdSpec;
use crate::cmake::configure;
use crate::cmake::build;
use crate::cmake::format_cmd;
use crate::cmake::is_build_cmd;
use crate::cmake::is_configure_cmd;
use crate::cmake::spec_build_args;
use crate::cmake::spec_configure_args;
use crate::cmake::spec_cfg_defs;
use crate::cmake::spec_join_args;
use crate::strutil::clone_strings;
use crate::strutil::code_to_string;
use crate::strutil::concat3;
use crate::strutil::concat_str;
use crate::strutil::eq_str;
use crate::strutil::path_join;
use crate::strutil::spec_path_join;
use crate::strutil::spec_signed_dec;
use crate::strutil::spec_trim;
use crate::strutil::trim;
use crate::strutil::views;

verus! {

/// Where one invocation stands.
#[derive(Clone, Copy)]
pub enum Phase {
    /// Nothing has happened yet.
    Start,
    /// The existence of the build directory is being checked.
    CheckingDir,
    /// The user is being asked to confirm deletion.
    AwaitConfirm,
    /// The build directory is being deleted.
    AwaitDelete,
    /// The build directory is being created.
    AwaitCreate,
    /// The configure step is running.
    Configuring,
    /// The build step is running.
    Building,
    /// The metadata symlink is being checked.
    CheckingLink,
    /// A dangling metadata symlink is being removed.
    RemovingLink,
    /// The metadata symlink is being created.
    CreatingLink,
    /// The build tree is being searched for the target executable.
    Locating,
    /// The target is running.
    Running,
    /// The invocation is over.
    Done,
}

/// What the caller must do next. Results come back as [`Event`]s.
pub enum Action {
    /// Check whether this directory exists.
    CheckBuildDir(String),
    /// Print this prompt on the error stream and read one answer line.
    Prompt(String),
    /// Remove this directory tree.
    DeleteDir(String),
    /// Create this directory and its parents.
    CreateDir(String),
    /// Run this command to completion and report its exit.
    Spawn(CmdSpec),
    /// Check whether this path exists, following symlinks.
    CheckLink(String),
    /// Remove this file; failure is tolerated.
    RemoveLink(String),
    /// Create a symlink at `link` pointing at `original`.
    CreateLink { original: String, link: String },
    /// Search this directory tree for files named `target`.
    Walk { dir: String, target: String },
    /// The invocation is over, with this outcome.
    Finish(Result<(), String>),
}

/// The outcome of the last [`Action`], handed back to the machine.
pub enum Event {
    /// Begin the invocation.
    Start,
    /// Whether the build directory exists, or why that could not be told.
    Exists(Result<bool, String>),
    /// The line the user answered to a prompt.
    Answer(String),
    /// Whether the directory tree was removed.
    Deleted(Result<(), String>),
    /// Whether the directory was created.
    Created(Result<(), String>),
    /// The spawned command's exit code (`None` when it was terminated by
    /// a signal), or why it could not be spawned.
    Exited(Result<Option<i32>, String>),
    /// Whether the symlink resolves to an existing target.
    LinkStatus(Result<bool, String>),
    /// Whether the dangling symlink could be removed.
    LinkRemoved(bool),
    /// Whether the symlink was created.
    LinkCreated(Result<(), String>),
    /// The matching executables that the walk found.
    Located(Vec<String>),
}

/// The supported debugger front ends: a closed enumeration, each with its
/// own argument convention.
#[derive(Clone, Copy, Debug, PartialEq, Eq, Structural)]
pub enum Debugger {
    Gdb,
    Lldb,
}

pub open spec fn spec_parse_debugger(name: Seq<char>) -> Option<Debugger> {
    if name == "gdb"@ {
        Some(Debugger::Gdb)
    } else if name == "lldb"@ {
        Some(Debugger::Lldb)
    } else {
        None
    }
}

/// The configured debugger name parsed into the closed enumeration; an
/// unrecognized name is `None`, never a default.
pub fn parse_debugger(name: &str) -> (r: Option<Debugger>)
    ensures
        r == spec_parse_debugger(name@),
{
    if eq_str(name, "gdb") {
        Some(Debugger::Gdb)
    } else if eq_str(name, "lldb") {
        Some(Debugger::Lldb)
    } else {
        None
    }
}

/// How a debugger wraps the target binary: one style takes the target
/// after a literal "pass remaining args" marker, the other takes it as a
/// direct positional argument.
pub open spec fn debugger_args(d: Debugger, exe: Seq<char>) -> Seq<Seq<char>> {
    match d {
        Debugger::Gdb => seq!["--args"@, exe],
        Debugger::Lldb => seq![exe],
    }
}

/// `c` launches `exe` directly with the forwarded arguments, verbatim and
/// in order.
pub open spec fn is_direct_run_cmd(c: CmdSpec, exe: Seq<char>, fwd: Seq<Seq<char>>) -> bool {
    &&& c.program@ == exe
    &&& views(c.args@) == fwd
    &&& c.env@.len() == 0
}

/// `c` launches `exe` under the named debugger with the forwarded
/// arguments after the debugger's own, verbatim and in order.
pub open spec fn is_debug_run_cmd(
    c: CmdSpec,
    name: Seq<char>,
    d: Debugger,
    exe: Seq<char>,
    fwd: Seq<Seq<char>>,
) -> bool {
    &&& c.program@ == name
    &&& views(c.args@) == debugger_args(d, exe) + fwd
    &&& c.env@.len() == 0
}

/// The launch command for one located executable: direct without the
/// debug flag; under the configured debugger with it. A missing debugger
/// configuration and an unrecognized debugger name are hard errors, and
/// no command comes out of them.
pub fn run_command(debug: bool, debugger: &Option<String>, exe: &String, exe_args: &Vec<String>) -> (r:
    Result<CmdSpec, String>)
    ensures
        !debug ==> (r matches Ok(c) && is_direct_run_cmd(c, exe@, views(exe_args@))),
        debug ==> match debugger {
            None => r matches Err(m) && m@ == "No debugger is configured"@,
            Some(name) => match spec_parse_debugger(name@) {
                Some(d) => r matches Ok(c) && is_debug_run_cmd(c, name@, d, exe@, views(exe_args@)),
                None => r matches Err(m) && m@ == "Unsupported debugger: "@ + name@,
            },
        },
{
    broadcast use crate::strutil::views_push;

    let fwd = clone_strings(exe_args);
    proof {
        assert(views(fwd@) =~= views(exe_args@));
    }
    if !debug {
        return Ok(CmdSpec { program: exe.clone(), args: fwd, env: Vec::new() });
    }
    let name = match debugger {
        Some(n) => n,
        None => {
            return Err("No debugger is configured".to_owned());
        },
    };
    match parse_debugger(name.as_str()) {
        Some(Debugger::Gdb) => {
            let mut a: Vec<String> = Vec::new();
            a.push("--args".to_owned());
            a.push(exe.clone());
            let ghost prefix = a@;
            let mut f = fwd;
            a.append(&mut f);
            proof {
                assert(views(prefix + fwd@) =~= views(prefix) + views(fwd@));
                assert(views(prefix) =~= debugger_args(Debugger::Gdb, exe@));
            }
            Ok(CmdSpec { program: name.clone(), args: a, env: Vec::new() })
        },
        Some(Debugger::Lldb) => {
            let mut a: Vec<String> = Vec::new();
            a.push(exe.clone());
            let ghost prefix = a@;
            let mut f = fwd;
            a.append(&mut f);
            proof {
                assert(views(prefix + fwd@) =~= views(prefix) + views(fwd@));
                assert(views(prefix) =~= debugger_args(Debugger::Lldb, exe@));
            }
            Ok(CmdSpec { program: name.clone(), args: a, env: Vec::new() })
        },
        None => Err(concat_str("Unsupported debugger: ", name.as_str())),
    }
}

/// The orchestration state of one invocation.
pub struct Orchestrator {
    pub args: Args,
    pub config: ConfigView,
    pub build_dir: String,
    pub phase: Phase,
}

/// The diagnostic message for a command that could not be spawned.
pub open spec fn spawn_fail_msg(cmd_str: Seq<char>, e: Seq<char>) -> Seq<char> {
    "Spawning command `"@ + cmd_str + "` failed with `"@ + e + "`"@
}

/// The formatted configure command line of this invocation.
pub open spec fn spec_configure_str(m: Orchestrator) -> Seq<char> {
    "cmake"@ + seq![' '] + spec_join_args(
        spec_configure_args(
            m.build_dir@,
            m.args.project@,
            m.args.build_type@,
            views(m.args.cmake_args@),
            spec_cfg_defs(m.config),
        ),
    )
}

/// The formatted build command line of this invocation.
pub open spec fn spec_build_str(m: Orchestrator) -> Seq<char> {
    "cmake"@ + seq![' '] + spec_join_args(
        spec_build_args(m.build_dir@, m.args.target@, m.args.jobs),
    )
}

/// The invocation ends with this error message.
pub open spec fn fails_with(a: Action, mn: Orchestrator, msg: Seq<char>) -> bool {
    &&& a matches Action::Finish(r) && r matches Err(m) && m@ == msg
    &&& mn.phase is Done
}

/// The invocation ends successfully.
pub open spec fn finishes_ok(a: Action, mn: Orchestrator) -> bool {
    &&& a matches Action::Finish(r) && r is Ok
    &&& mn.phase is Done
}

/// The configure step is spawned.
pub open spec fn goes_configure(mo: Orchestrator, a: Action, mn: Orchestrator) -> bool {
    &&& a matches Action::Spawn(c) && is_configure_cmd(c, mo.build_dir@, mo.args, mo.config)
    &&& mn.phase is Configuring
}

/// The build step is spawned.
pub open spec fn goes_build(mo: Orchestrator, a: Action, mn: Orchestrator) -> bool {
    &&& a matches Action::Spawn(c) && is_build_cmd(c, mo.build_dir@, mo.args.target@, mo.args.jobs)
    &&& mn.phase is Building
}

/// With an existing, kept build directory: reconfigure unless the
/// invocation asked to skip configuring, in which case build right away.
pub open spec fn proceeds_existing(mo: Orchestrator, a: Action, mn: Orchestrator) -> bool {
    if mo.args.no_configure {
        goes_build(mo, a, mn)
    } else {
        goes_configure(mo, a, mn)
    }
}

/// Deletion of the build directory is requested.
pub open spec fn asks_delete(mo: Orchestrator, a: Action, mn: Orchestrator) -> bool {
    &&& a matches Action::DeleteDir(d) && d@ == mo.build_dir@
    &&& mn.phase is AwaitDelete
}

/// Creation of the build directory is requested.
pub open spec fn asks_create(mo: Orchestrator, a: Action, mn: Orchestrator) -> bool {
    &&& a matches Action::CreateDir(d) && d@ == mo.build_dir@
    &&& mn.phase is AwaitCreate
}

/// Where the metadata symlink lives: at the project root.
pub open spec fn link_path(mo: Orchestrator) -> Seq<char> {
    spec_path_join(mo.args.project@, "compile_commands.json"@)
}

/// What the metadata symlink points at: the file in the build directory.
pub open spec fn link_target(mo: Orchestrator) -> Seq<char> {
    spec_path_join(mo.build_dir@, "compile_commands.json"@)
}

/// The symlink check is requested.
pub open spec fn goes_linkcheck(mo: Orchestrator, a: Action, mn: Orchestrator) -> bool {
    &&& a matches Action::CheckLink(l) && l@ == link_path(mo)
    &&& mn.phase is CheckingLink
}

/// After a successful build and symlink synchronization: finish when no
/// run was requested; reject the meta-target `all` up front, before the
/// locator is ever invoked; otherwise search the build tree.
pub open spec fn proceeds_run(mo: Orchestrator, a: Action, mn: Orchestrator) -> bool {
    if !mo.args.run {
        finishes_ok(a, mn)
    } else if mo.args.target@ == "all"@ {
        fails_with(a, mn, "Target must be specified"@)
    } else {
        &&& a matches Action::Walk { dir, target } && dir@ == mo.build_dir@ && target@
            == mo.args.target@
        &&& mn.phase is Locating
    }
}

/// Exactly one executable was located: launch it, directly or under the
/// configured debugger; a missing or unrecognized debugger configuration
/// ends the invocation before anything is spawned.
pub open spec fn launches(mo: Orchestrator, a: Action, mn: Orchestrator, exe: String) -> bool {
    if !mo.args.debug {
        &&& a matches Action::Spawn(c) && is_direct_run_cmd(c, exe@, views(mo.args.exe_args@))
        &&& mn.phase is Running
    } else {
        match mo.config.debugger {
            None => fails_with(a, mn, "No debugger is configured"@),
            Some(name) => match spec_parse_debugger(name@) {
                Some(d) => {
                    &&& a matches Action::Spawn(c) && is_debug_run_cmd(
                        c,
                        name@,
                        d,
                        exe@,
                        views(mo.args.exe_args@),
                    )
                    &&& mn.phase is Running
                },
                None => fails_with(a, mn, "Unsupported debugger: "@ + name@),
            },
        }
    }
}

/// Which event each phase waits for.
pub open spec fn spec_expected(p: Phase, ev: Event) -> bool {
    match p {
        Phase::Start => ev is Start,
        Phase::CheckingDir => ev is Exists,
        Phase::AwaitConfirm => ev is Answer,
        Phase::AwaitDelete => ev is Deleted,
        Phase::AwaitCreate => ev is Created,
        Phase::Configuring => ev is Exited,
        Phase::Building => ev is Exited,
        Phase::CheckingLink => ev is LinkStatus,
        Phase::RemovingLink => ev is LinkRemoved,
        Phase::CreatingLink => ev is LinkCreated,
        Phase::Locating => ev is Located,
        Phase::Running => ev is Exited,
        Phase::Done => false,
    }
}

impl Orchestrator {
    /// A fresh machine for one invocation. The build directory is derived
    /// from the project, the build type and the configured C++ compiler;
    /// it is the sole identity of the build. A configured compiler path
    /// without a final component is refused up front, as the derivation
    /// demands.
    pub fn new(args: Args, config: ConfigView) -> (m: Orchestrator)
        requires
            match config.compiler_cxx {
                Some(cxx) => crate::build_path::compiler_path_ok(cxx@),
                None => true,
            },
        ensures
            m.args == args,
            m.config == config,
            m.phase is Start,
            m.build_dir@ == spec_build_path(
                args.project@,
                args.build_type@,
                match config.compiler_cxx {
                    Some(s) => s@,
                    None => Seq::empty(),
                },
                None,
            ),
    {
        let cxx: String = match &config.compiler_cxx {
            Some(s) => s.clone(),
            None => String::new(),
        };
        let build_dir = BuildPath {
            project: args.project.as_str(),
            build_type: args.build_type.as_str(),
            compiler_path: cxx.as_str(),
            sanitizer: None,
        }.to_path();
        Orchestrator { args, config, build_dir, phase: Phase::Start }
    }

    fn protocol_stop(&mut self) -> (a: Action)
        ensures
            final(self).args == old(self).args,
            final(self).config == old(self).config,
            final(self).build_dir == old(self).build_dir,
            a matches Action::Finish(r) && r is Err,
            final(self).phase is Done,
    {
        self.phase = Phase::Done;
        Action::Finish(Err("unexpected event in this phase".to_owned()))
    }

    fn do_configure(&mut self) -> (a: Action)
        ensures
            final(self).args == old(self).args,
            final(self).config == old(self).config,
            final(self).build_dir == old(self).build_dir,
            goes_configure(*old(self), a, *final(self)),
    {
        let c = configure(self.build_dir.as_str(), &self.args, &self.config);
        self.phase = Phase::Configuring;
        Action::Spawn(c)
    }

    fn do_build(&mut self) -> (a: Action)
        ensures
            final(self).args == old(self).args,
            final(self).config == old(self).config,
            final(self).build_dir == old(self).build_dir,
            goes_build(*old(self), a, *final(self)),
    {
        let c = build(self.build_dir.as_str(), &self.args);
        self.phase = Phase::Building;
        Action::Spawn(c)
    }

    fn continue_existing(&mut self) -> (a: Action)
        ensures
            final(self).args == old(self).args,
            final(self).config == old(self).config,
            final(self).build_dir == old(self).build_dir,
            proceeds_existing(*old(self), a, *final(self)),
    {
        if self.args.no_configure {
            self.do_build()
        } else {
            self.do_configure()
        }
    }

    fn continue_after_link(&mut self) -> (a: Action)
        ensures
            final(self).args == old(self).args,
            final(self).config == old(self).config,
            final(self).build_dir == old(self).build_dir,
            proceeds_run(*old(self), a, *final(self)),
            a matches Action::Walk { dir, target } ==> old(self).args.target@ != "all"@,
    {
        if !self.args.run {
            self.phase = Phase::Done;
            Action::Finish(Ok(()))
        } else if eq_str(self.args.target.as_str(), "all") {
            self.phase = Phase::Done;
            Action::Finish(Err("Target must be specified".to_owned()))
        } else {
            self.phase = Phase::Locating;
            Action::Walk { dir: self.build_dir.clone(), target: self.args.target.clone() }
        }
    }

    fn fail(&mut self, msg: String) -> (a: Action)
        ensures
            final(self).args == old(self).args,
            final(self).config == old(self).config,
            final(self).build_dir == old(self).build_dir,
            fails_with(a, *final(self), msg@),
    {
        self.phase = Phase::Done;
        Action::Finish(Err(msg))
    }

    /// One decision of the orchestration: the outcome of the last action
    /// is folded in, and the next action comes out. The caller performs
    /// file, process and terminal work only as instructed, so every
    /// ordering rule below — delete before the existence decision,
    /// configure before build, the symlink policy, the meta-target
    /// rejection before the locator runs, debugger resolution before any
    /// spawn — is enforced here.
    pub fn step(&mut self, ev: Event) -> (a: Action)
        ensures
            final(self).args == old(self).args,
            final(self).config == old(self).config,
            final(self).build_dir == old(self).build_dir,
            !spec_expected(old(self).phase, ev) ==> {
                &&& a matches Action::Finish(r) && r is Err
                &&& final(self).phase is Done
            },
            old(self).phase is Start && ev is Start ==> {
                &&& a matches Action::CheckBuildDir(d) && d@ == old(self).build_dir@
                &&& final(self).phase is CheckingDir
            },
            old(self).phase is CheckingDir ==> (ev matches Event::Exists(res) ==> match res {
                Ok(ex) => if !ex {
                    asks_create(*old(self), a, *final(self))
                } else if old(self).args.delete && !old(self).args.no_confirm {
                    &&& a matches Action::Prompt(p) && p@ == "Are you sure to remove `"@ + old(
                        self,
                    ).build_dir@ + "` (press 'y' to proceed): "@
                    &&& final(self).phase is AwaitConfirm
                } else if old(self).args.delete {
                    asks_delete(*old(self), a, *final(self))
                } else {
                    proceeds_existing(*old(self), a, *final(self))
                },
                Err(e) => fails_with(a, *final(self), e@),
            }),
            old(self).phase is AwaitConfirm ==> (ev matches Event::Answer(s) ==> if spec_trim(s@)
                == "y"@ {
                asks_delete(*old(self), a, *final(self))
            } else {
                proceeds_existing(*old(self), a, *final(self))
            }),
            old(self).phase is AwaitDelete ==> (ev matches Event::Deleted(res) ==> match res {
                Ok(_) => asks_create(*old(self), a, *final(self)),
                Err(e) => fails_with(
                    a,
                    *final(self),
                    "Failed to delete build directory: "@ + e@,
                ),
            }),
            old(self).phase is AwaitCreate ==> (ev matches Event::Created(res) ==> match res {
                Ok(_) => goes_configure(*old(self), a, *final(self)),
                Err(e) => fails_with(
                    a,
                    *final(self),
                    "Failed to create build directory: "@ + e@,
                ),
            }),
            old(self).phase is Configuring ==> (ev matches Event::Exited(res) ==> match res {
                Ok(code) => match code {
                    Some(c) => if c == 0 {
                        goes_build(*old(self), a, *final(self))
                    } else {
                        fails_with(a, *final(self), "Configuring failed"@)
                    },
                    None => fails_with(a, *final(self), "Configuring failed"@),
                },
                Err(e) => fails_with(
                    a,
                    *final(self),
                    spawn_fail_msg(spec_configure_str(*old(self)), e@),
                ),
            }),
            old(self).phase is Building ==> (ev matches Event::Exited(res) ==> match res {
                Ok(code) => match code {
                    Some(c) => if c == 0 {
                        goes_linkcheck(*old(self), a, *final(self))
                    } else {
                        fails_with(a, *final(self), "Build failed"@)
                    },
                    None => fails_with(a, *final(self), "Build failed"@),
                },
                Err(e) => fails_with(
                    a,
                    *final(self),
                    spawn_fail_msg(spec_build_str(*old(self)), e@),
                ),
            }),
            old(self).phase is CheckingLink ==> (ev matches Event::LinkStatus(res) ==> match res {
                Ok(valid) => if valid {
                    &&& proceeds_run(*old(self), a, *final(self))
                    &&& !(a is RemoveLink)
                    &&& !(a is CreateLink)
                } else {
                    &&& a matches Action::RemoveLink(l) && l@ == link_path(*old(self))
                    &&& final(self).phase is RemovingLink
                },
                Err(e) => fails_with(
                    a,
                    *final(self),
                    "Failed to create a symlink for `compile_commands.json`: "@ + e@,
                ),
            }),
            old(self).phase is RemovingLink ==> (ev is LinkRemoved ==> {
                &&& a matches Action::CreateLink { original, link } && original@ == link_target(
                    *old(self),
                ) && link@ == link_path(*old(self))
                &&& final(self).phase is CreatingLink
            }),
            old(self).phase is CreatingLink ==> (ev matches Event::LinkCreated(res) ==> match res {
                Ok(_) => proceeds_run(*old(self), a, *final(self)),
                Err(e) => fails_with(
                    a,
                    *final(self),
                    "Failed to create a symlink for `compile_commands.json`: "@ + e@,
                ),
            }),
            old(self).phase is Locating ==> (ev matches Event::Located(exes) ==> if exes@.len()
                == 0 {
                fails_with(
                    a,
                    *final(self),
                    "No executable found in `"@ + old(self).build_dir@ + "`"@,
                )
            } else if exes@.len() > 1 {
                fails_with(
                    a,
                    *final(self),
                    "Multiple executables found in `"@ + old(self).build_dir@ + "`"@,
                )
            } else {
                launches(*old(self), a, *final(self), exes@[0])
            }),
            old(self).phase is Running ==> (ev matches Event::Exited(res) ==> match res {
                Ok(code) => match code {
                    Some(c) => if c == 0 {
                        finishes_ok(a, *final(self))
                    } else {
                        fails_with(
                            a,
                            *final(self),
                            "Process has returned with exit code: "@ + spec_signed_dec(c as int),
                        )
                    },
                    None => fails_with(a, *final(self), "Process was terminated by a signal"@),
                },
                Err(e) => fails_with(
                    a,
                    *final(self),
                    "Failed to run the built executable: "@ + e@,
                ),
            }),
            a matches Action::Walk { dir, target } ==> old(self).args.target@ != "all"@,
    {
        match self.phase {
            Phase::Start => match ev {
                Event::Start => {
                    self.phase = Phase::CheckingDir;
                    Action::CheckBuildDir(self.build_dir.clone())
                },
                _ => self.protocol_stop(),
            },
            Phase::CheckingDir => match ev {
                Event::Exists(res) => match res {
                    Ok(ex) => {
                        if !ex {
                            self.phase = Phase::AwaitCreate;
                            Action::CreateDir(self.build_dir.clone())
                        } else if self.args.delete && !self.args.no_confirm {
                            let p = concat3(
                                "Are you sure to remove `",
                                self.build_dir.as_str(),
                                "` (press 'y' to proceed): ",
                            );
                            self.phase = Phase::AwaitConfirm;
                            Action::Prompt(p)
                        } else if self.args.delete {
                            self.phase = Phase::AwaitDelete;
                            Action::DeleteDir(self.build_dir.clone())
                        } else {
                            self.continue_existing()
                        }
                    },
                    Err(e) => self.fail(e),
                },
                _ => self.protocol_stop(),
            },
            Phase::AwaitConfirm => match ev {
                Event::Answer(s) => {
                    let t = trim(s.as_str());
                    if eq_str(t.as_str(), "y") {
                        self.phase = Phase::AwaitDelete;
                        Action::DeleteDir(self.build_dir.clone())
                    } else {
                        self.continue_existing()
                    }
                },
                _ => self.protocol_stop(),
            },
            Phase::AwaitDelete => match ev {
                Event::Deleted(res) => match res {
                    Ok(_) => {
                        self.phase = Phase::AwaitCreate;
                        Action::CreateDir(self.build_dir.clone())
                    },
                    Err(e) => self.fail(
                        concat_str("Failed to delete build directory: ", e.as_str()),
                    ),
                },
                _ => self.protocol_stop(),
            },
            Phase::AwaitCreate => match ev {
                Event::Created(res) => match res {
                    Ok(_) => self.do_configure(),
                    Err(e) => self.fail(
                        concat_str("Failed to create build directory: ", e.as_str()),
                    ),
                },
                _ => self.protocol_stop(),
            },
            Phase::Configuring => match ev {
                Event::Exited(res) => match res {
                    Ok(code) => match code {
                        Some(c) => {
                            if c == 0 {
                                self.do_build()
                            } else {
                                self.fail("Configuring failed".to_owned())
                            }
                        },
                        None => self.fail("Configuring failed".to_owned()),
                    },
                    Err(e) => {
                        let cmd = configure(self.build_dir.as_str(), &self.args, &self.config);
                        let cmd_str = format_cmd(&cmd);
                        let head = concat3(
                            "Spawning command `",
                            cmd_str.as_str(),
                            "` failed with `",
                        );
                        let msg = concat3(head.as_str(), e.as_str(), "`");
                        self.fail(msg)
                    },
                },
                _ => self.protocol_stop(),
            },
            Phase::Building => match ev {
                Event::Exited(res) => match res {
                    Ok(code) => match code {
                        Some(c) => {
                            if c == 0 {
                                self.phase = Phase::CheckingLink;
                                Action::CheckLink(
                                    path_join(self.args.project.as_str(), "compile_commands.json"),
                                )
                            } else {
                                self.fail("Build failed".to_owned())
                            }
                        },
                        None => self.fail("Build failed".to_owned()),
                    },
                    Err(e) => {
                        let cmd = build(self.build_dir.as_str(), &self.args);
                        let cmd_str = format_cmd(&cmd);
                        let head = concat3(
                            "Spawning command `",
                            cmd_str.as_str(),
                            "` failed with `",
                        );
                        let msg = concat3(head.as_str(), e.as_str(), "`");
                        self.fail(msg)
                    },
                },
                _ => self.protocol_stop(),
            },
            Phase::CheckingLink => match ev {
                Event::LinkStatus(res) => match res {
                    Ok(valid) => {
                        if valid {
                            self.continue_after_link()
                        } else {
                            self.phase = Phase::RemovingLink;
                            Action::RemoveLink(
                                path_join(self.args.project.as_str(), "compile_commands.json"),
                            )
                        }
                    },
                    Err(e) => self.fail(
                        concat_str(
                            "Failed to create a symlink for `compile_commands.json`: ",
                            e.as_str(),
                        ),
                    ),
                },
                _ => self.protocol_stop(),
            },
            Phase::RemovingLink => match ev {
                Event::LinkRemoved(_) => {
                    self.phase = Phase::CreatingLink;
                    Action::CreateLink {
                        original: path_join(self.build_dir.as_str(), "compile_commands.json"),
                        link: path_join(self.args.project.as_str(), "compile_commands.json"),
                    }
                },
                _ => self.protocol_stop(),
            },
            Phase::CreatingLink => match ev {
                Event::LinkCreated(res) => match res {
                    Ok(_) => self.continue_after_link(),
                    Err(e) => self.fail(
                        concat_str(
                            "Failed to create a symlink for `compile_commands.json`: ",
                            e.as_str(),
                        ),
                    ),
                },
                _ => self.protocol_stop(),
            },
            Phase::Locating => match ev {
                Event::Located(exes) => {
                    if exes.len() == 0 {
                        let head = concat3(
                            "No executable found in `",
                            self.build_dir.as_str(),
                            "`",
                        );
                        self.fail(head)
                    } else if exes.len() > 1 {
                        let head = concat3(
                            "Multiple executables found in `",
                            self.build_dir.as_str(),
                            "`",
                        );
                        self.fail(head)
                    } else {
                        match run_command(
                            self.args.debug,
                            &self.config.debugger,
                            &exes[0],
                            &self.args.exe_args,
                        ) {
                            Ok(c) => {
                                self.phase = Phase::Running;
                                Action::Spawn(c)
                            },
                            Err(m) => self.fail(m),
                        }
                    }
                },
                _ => self.protocol_stop(),
            },
            Phase::Running => match ev {
                Event::Exited(res) => match res {
                    Ok(code) => match code {
                        Some(c) => {
                            if c == 0 {
                                self.phase = Phase::Done;
                                Action::Finish(Ok(()))
                            } else {
                                let num = code_to_string(c);
                                self.fail(
                                    concat_str(
                                        "Process has returned with exit code: ",
                                        num.as_str(),
                                    ),
                                )
                            }
                        },
                        None => self.fail("Process was terminated by a signal".to_owned()),
                    },
                    Err(e) => self.fail(
                        concat_str("Failed to run the built executable: ", e.as_str()),
                    ),
                },
                _ => self.protocol_stop(),
            },
            Phase::Done => self.protocol_stop(),
        }
    }
}

} // verus!
