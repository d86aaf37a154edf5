//! Construction of the external build tool's command lines: the configure
//! invocation with its defines and compiler environment, and the build
//! invocation with its target and parallelism. The commands are value
//! objects; spawning them is the binary's work.

use vstd::prelude::*;

use crate::Args;
use crate::cfg::ConfigView;
use crate::cfg::get_cmake_definitions;
use crate::strutil::concat_str;
use crate::strutil::spec_dec;
use crate::strutil::u64_to_string;
use crate::strutil::views;
use crate::strutil::views_push;

verus! {

/// One child-process invocation: a program, its arguments in order, and
/// the environment overrides it is started with.
pub struct CmdSpec {
    pub program: String,
    pub args: Vec<String>,
    pub env: Vec<(String, String)>,
}

/// Each element prefixed with `-D`.
pub open spec fn dprefixed(xs: Seq<Seq<char>>) -> Seq<Seq<char>> {
    xs.map_values(|x: Seq<char>| "-D"@ + x)
}

/// The configured `cmake.definitions` views; empty when unset.
pub open spec fn spec_cfg_defs(cfg: ConfigView) -> Seq<Seq<char>> {
    match cfg.cmake_definitions {
        Some(d) => views(d@),
        None => Seq::empty(),
    }
}

/// Compiler selection is exported to the child only when both a C and a
/// C++ compiler are configured and non-empty.
pub open spec fn wants_compiler_env(cfg: ConfigView) -> bool {
    match (cfg.compiler_cc, cfg.compiler_cxx) {
        (Some(cc), Some(cxx)) => cc@.len() > 0 && cxx@.len() > 0,
        _ => false,
    }
}

/// The configure argument list: source, build directory, the build-type
/// define, the request to export compile-invocation metadata, then every
/// `-D` define — the configuration-sourced ones first, the forwarded
/// command-line ones after them.
pub open spec fn spec_configure_args(
    path: Seq<char>,
    project: Seq<char>,
    build_type: Seq<char>,
    cli_defs: Seq<Seq<char>>,
    cfg_defs: Seq<Seq<char>>,
) -> Seq<Seq<char>> {
    seq![
        "-S"@,
        project,
        "-B"@,
        path,
        "-DCMAKE_BUILD_TYPE="@ + build_type,
        "-DCMAKE_EXPORT_COMPILE_COMMANDS=ON"@,
    ] + dprefixed(cfg_defs) + dprefixed(cli_defs)
}

/// `c` is the configure command for this invocation.
pub open spec fn is_configure_cmd(c: CmdSpec, path: Seq<char>, args: Args, cfg: ConfigView) -> bool {
    &&& c.program@ == "cmake"@
    &&& views(c.args@) == spec_configure_args(
        path,
        args.project@,
        args.build_type@,
        views(args.cmake_args@),
        spec_cfg_defs(cfg),
    )
    &&& if wants_compiler_env(cfg) {
        &&& c.env@.len() == 2
        &&& c.env@[0].0@ == "CC"@
        &&& Some(c.env@[0].1) == cfg.compiler_cc
        &&& c.env@[1].0@ == "CXX"@
        &&& Some(c.env@[1].1) == cfg.compiler_cxx
    } else {
        c.env@.len() == 0
    }
}

/// The build argument list: the build directory, the target, and the
/// requested degree of parallelism handed past `--` to the underlying
/// tool.
pub open spec fn spec_build_args(path: Seq<char>, target: Seq<char>, jobs: u8) -> Seq<Seq<char>> {
    seq!["--build"@, path, "--target"@, target, "--"@, "-j"@, spec_dec(jobs as nat)]
}

/// `c` is the build command for this invocation.
pub open spec fn is_build_cmd(c: CmdSpec, path: Seq<char>, target: Seq<char>, jobs: u8) -> bool {
    &&& c.program@ == "cmake"@
    &&& views(c.args@) == spec_build_args(path, target, jobs)
    &&& c.env@.len() == 0
}

/// The configure command of the external build tool for the given build
/// directory, invocation and configuration.
pub fn configure(path: &str, args: &Args, config: &ConfigView) -> (c: CmdSpec)
    ensures
        is_configure_cmd(c, path@, *args, *config),
{
    broadcast use views_push;

    let mut a: Vec<String> = Vec::new();
    a.push("-S".to_owned());
    a.push(args.project.clone());
    a.push("-B".to_owned());
    a.push(path.to_owned());
    a.push(concat_str("-DCMAKE_BUILD_TYPE=", args.build_type.as_str()));
    a.push("-DCMAKE_EXPORT_COMPILE_COMMANDS=ON".to_owned());
    let ghost base = seq![
        "-S"@,
        args.project@,
        "-B"@,
        path@,
        "-DCMAKE_BUILD_TYPE="@ + args.build_type@,
        "-DCMAKE_EXPORT_COMPILE_COMMANDS=ON"@,
    ];
    proof {
        assert(views(a@) =~= base);
        assert(spec_cfg_defs(*config).take(0) =~= Seq::<Seq<char>>::empty());
        assert(dprefixed(Seq::<Seq<char>>::empty()) =~= Seq::<Seq<char>>::empty());
        assert(base + Seq::<Seq<char>>::empty() =~= base);
    }
    let defs = get_cmake_definitions(config);
    let ghost cfg_defs = spec_cfg_defs(*config);
    proof {
        assert(views(defs@) =~= cfg_defs);
    }
    let mut j: usize = 0;
    while j < defs.len()
        invariant
            j <= defs@.len(),
            cfg_defs == views(defs@),
            views(a@) == base + dprefixed(cfg_defs.take(j as int)),
        decreases defs@.len() - j,
    {
        broadcast use views_push;

        a.push(concat_str("-D", defs[j].as_str()));
        proof {
            assert(cfg_defs.take(j + 1int) =~= cfg_defs.take(j as int).push(defs@[j as int]@));
            assert(dprefixed(cfg_defs.take(j + 1int)) =~= dprefixed(cfg_defs.take(j as int)).push(
                "-D"@ + defs@[j as int]@,
            ));
            assert(views(a@) =~= base + dprefixed(cfg_defs.take(j + 1int)));
        }
        j += 1;
    }
    proof {
        assert(cfg_defs.take(cfg_defs.len() as int) =~= cfg_defs);
    }
    let ghost with_cfg = base + dprefixed(cfg_defs);
    let mut k: usize = 0;
    while k < args.cmake_args.len()
        invariant
            k <= args.cmake_args@.len(),
            views(a@) == with_cfg + dprefixed(views(args.cmake_args@).take(k as int)),
        decreases args.cmake_args@.len() - k,
    {
        broadcast use views_push;

        a.push(concat_str("-D", args.cmake_args[k].as_str()));
        proof {
            let cli = views(args.cmake_args@);
            assert(cli.take(k + 1int) =~= cli.take(k as int).push(args.cmake_args@[k as int]@));
            assert(dprefixed(cli.take(k + 1int)) =~= dprefixed(cli.take(k as int)).push(
                "-D"@ + args.cmake_args@[k as int]@,
            ));
            assert(views(a@) =~= with_cfg + dprefixed(cli.take(k + 1int)));
        }
        k += 1;
    }
    proof {
        let cli = views(args.cmake_args@);
        assert(cli.take(cli.len() as int) =~= cli);
        assert(with_cfg + dprefixed(cli) =~= spec_configure_args(
            path@,
            args.project@,
            args.build_type@,
            cli,
            cfg_defs,
        ));
    }
    let mut env: Vec<(String, String)> = Vec::new();
    match (&config.compiler_cc, &config.compiler_cxx) {
        (Some(cc), Some(cxx)) => {
            if cc.as_str().unicode_len() > 0 && cxx.as_str().unicode_len() > 0 {
                env.push(("CC".to_owned(), cc.clone()));
                env.push(("CXX".to_owned(), cxx.clone()));
            }
        },
        _ => {},
    }
    CmdSpec { program: "cmake".to_owned(), args: a, env }
}

/// The build command of the external build tool for the given build
/// directory, target and job count.
pub fn build(path: &str, args: &Args) -> (c: CmdSpec)
    ensures
        is_build_cmd(c, path@, args.target@, args.jobs),
{
    broadcast use views_push;

    let mut a: Vec<String> = Vec::new();
    a.push("--build".to_owned());
    a.push(path.to_owned());
    a.push("--target".to_owned());
    a.push(args.target.clone());
    a.push("--".to_owned());
    a.push("-j".to_owned());
    a.push(u64_to_string(args.jobs as u64));
    proof {
        assert(views(a@) =~= spec_build_args(path@, args.target@, args.jobs));
    }
    CmdSpec { program: "cmake".to_owned(), args: a, env: Vec::new() }
}

/// The arguments joined with single spaces.
pub open spec fn spec_join_args(s: Seq<Seq<char>>) -> Seq<char>
    decreases s.len(),
{
    if s.len() == 0 {
        Seq::empty()
    } else if s.len() == 1 {
        s[0]
    } else {
        spec_join_args(s.drop_last()) + seq![' '] + s.last()
    }
}

/// Format a command for diagnostics: the program, one space, then the
/// arguments joined with spaces.
pub fn format_cmd(cmd: &CmdSpec) -> (r: String)
    ensures
        r@ == cmd.program@ + seq![' '] + spec_join_args(views(cmd.args@)),
{
    let mut r = concat_str(cmd.program.as_str(), " ");
    proof {
        reveal_strlit(" ");
        assert(" "@ =~= seq![' ']);
        assert(views(cmd.args@).take(0) =~= Seq::<Seq<char>>::empty());
        assert(r@ =~= cmd.program@ + seq![' '] + spec_join_args(views(cmd.args@).take(0)));
    }
    let mut i: usize = 0;
    while i < cmd.args.len()
        invariant
            i <= cmd.args@.len(),
            r@ == cmd.program@ + seq![' '] + spec_join_args(views(cmd.args@).take(i as int)),
        decreases cmd.args@.len() - i,
    {
        if i > 0 {
            r.append(" ");
        }
        r.append(cmd.args[i].as_str());
        proof {
            reveal_strlit(" ");
            let vs = views(cmd.args@);
            assert(vs.take(i + 1int).drop_last() =~= vs.take(i as int));
            assert(vs.take(i + 1int).last() == vs[i as int]);
            if i == 0 {
                assert(spec_join_args(vs.take(1)) == vs[0]);
                assert(r@ =~= cmd.program@ + seq![' '] + spec_join_args(vs.take(1)));
            } else {
                assert(r@ =~= cmd.program@ + seq![' '] + spec_join_args(vs.take(i + 1int)));
            }
        }
        i += 1;
    }
    proof {
        assert(views(cmd.args@).take(cmd.args@.len() as int) =~= views(cmd.args@));
    }
    r
}

} // verus!
