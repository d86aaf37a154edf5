//! Build identity: the canonical build directory derived from the project
//! root, the build type, the resolved compiler and an optional sanitizer
//! tag. The directory name is `<build-type lowercased>[-<compiler
//! basename>][-<sanitizer>]` under `<project>/build`; each segment is
//! prefixed with `-` only when it is present.

use vstd::prelude::*;

use crate::strutil::concat_str;
use crate::strutil::file_name;
use crate::strutil::lower_of;
use crate::strutil::lowercase;
use crate::strutil::path_join;
use crate::strutil::spec_file_name;
use crate::strutil::spec_path_join;

verus! {

pub struct BuildPath<'a> {
    pub project: &'a str,
    pub build_type: &'a str,
    pub compiler_path: &'a str,
    pub sanitizer: Option<&'a str>,
}

/// A compiler path a build identity can be derived from: empty, or one
/// with a final path component. Paths without one (a bare root, or one
/// ending in a parent-directory component) are refused up front.
pub open spec fn compiler_path_ok(cp: Seq<char>) -> bool {
    cp.len() == 0 || spec_file_name(cp) is Some
}

/// The compiler segment: empty for an empty compiler path, otherwise `-`
/// followed by the final path component of the compiler.
pub open spec fn spec_compiler_segment(cp: Seq<char>) -> Seq<char> {
    if cp.len() == 0 {
        Seq::empty()
    } else {
        match spec_file_name(cp) {
            Some(b) => seq!['-'] + b,
            None => seq!['-'],
        }
    }
}

/// The sanitizer segment: empty when no sanitizer is set, otherwise `-`
/// followed by the tag.
pub open spec fn spec_sanitizer_segment(san: Option<Seq<char>>) -> Seq<char> {
    match san {
        Some(s) => seq!['-'] + s,
        None => Seq::empty(),
    }
}

/// The name of the build directory for one build flavor.
pub open spec fn spec_build_dir_name(bt: Seq<char>, cp: Seq<char>, san: Option<Seq<char>>) -> Seq<
    char,
> {
    lower_of(bt) + spec_compiler_segment(cp) + spec_sanitizer_segment(san)
}

/// The full derived build path.
pub open spec fn spec_build_path(
    project: Seq<char>,
    bt: Seq<char>,
    cp: Seq<char>,
    san: Option<Seq<char>>,
) -> Seq<char> {
    spec_path_join(spec_path_join(project, "build"@), spec_build_dir_name(bt, cp, san))
}

impl<'a> BuildPath<'a> {
    pub open spec fn sanitizer_view(self) -> Option<Seq<char>> {
        match self.sanitizer {
            Some(s) => Some(s@),
            None => None,
        }
    }

    pub open spec fn spec_path(self) -> Seq<char> {
        spec_build_path(self.project@, self.build_type@, self.compiler_path@, self.sanitizer_view())
    }

    /// Derive the canonical build directory path. Two invocations with the
    /// same inputs resolve to the same directory: the path is the sole
    /// identity of a build.
    pub fn to_path(&self) -> (r: String)
        requires
            compiler_path_ok(self.compiler_path@),
        ensures
            r@ == self.spec_path(),
    {
        let compiler: String = if self.compiler_path.unicode_len() == 0 {
            String::new()
        } else {
            let b = file_name(self.compiler_path).unwrap();
            let r = concat_str("-", b.as_str());
            proof {
                reveal_strlit("-");
                assert("-"@ + b@ =~= spec_compiler_segment(self.compiler_path@));
            }
            r
        };
        let mut dir = lowercase(self.build_type);
        dir.append(compiler.as_str());
        match self.sanitizer {
            Some(san) => {
                dir.append("-");
                dir.append(san);
                proof {
                    reveal_strlit("-");
                    assert(lower_of(self.build_type@) + compiler@ + "-"@ + san@ =~= spec_build_dir_name(
                        self.build_type@,
                        self.compiler_path@,
                        self.sanitizer_view(),
                    ));
                }
            },
            None => {
                proof {
                    assert(lower_of(self.build_type@) + compiler@ =~= spec_build_dir_name(
                        self.build_type@,
                        self.compiler_path@,
                        self.sanitizer_view(),
                    ));
                }
            },
        }
        let base = path_join(self.project, "build");
        path_join(base.as_str(), dir.as_str())
    }
}

/// The joined `<project>/build` prefix never ends in a separator, so the
/// directory name is always attached with exactly one `/`.
proof fn lemma_build_prefix(project: Seq<char>, dir: Seq<char>)
    ensures
        spec_path_join(spec_path_join(project, "build"@), dir) == spec_path_join(
            project,
            "build"@,
        ) + seq!['/'] + dir,
{
    reveal_strlit("build");
    let j = spec_path_join(project, "build"@);
    assert(j[j.len() - 1] == 'd');
}

/// With an empty compiler path and no sanitizer, the derived path is
/// exactly `<project>/build/<lowercased build type>`: no trailing segment
/// is attached.
pub proof fn lemma_build_dir_plain(project: Seq<char>, bt: Seq<char>)
    ensures
        spec_build_path(project, bt, Seq::empty(), None) == spec_path_join(project, "build"@)
            + seq!['/'] + lower_of(bt),
{
    lemma_build_prefix(project, spec_build_dir_name(bt, Seq::empty(), None));
    assert(spec_build_dir_name(bt, Seq::empty(), None) =~= lower_of(bt));
}

/// With a compiler path and no sanitizer, the derived path ends in
/// `build/<lowercased build type>-<compiler basename>`: only the final
/// path component `b` of the compiler is used, its directories stripped.
pub proof fn lemma_build_dir_compiler(project: Seq<char>, bt: Seq<char>, cp: Seq<char>, b: Seq<char>)
    requires
        cp.len() > 0,
        spec_file_name(cp) == Some(b),
    ensures
        spec_build_path(project, bt, cp, None) == spec_path_join(project, "build"@) + seq!['/']
            + lower_of(bt) + seq!['-'] + b,
{
    lemma_build_prefix(project, spec_build_dir_name(bt, cp, None));
    assert(spec_path_join(project, "build"@) + seq!['/'] + spec_build_dir_name(bt, cp, None)
        =~= spec_path_join(project, "build"@) + seq!['/'] + lower_of(bt) + seq!['-'] + b);
}

/// With a sanitizer and an empty compiler path, the derived path ends in
/// `build/<lowercased build type>-<sanitizer>`.
pub proof fn lemma_build_dir_sanitizer(project: Seq<char>, bt: Seq<char>, san: Seq<char>)
    ensures
        spec_build_path(project, bt, Seq::empty(), Some(san)) == spec_path_join(project, "build"@)
            + seq!['/'] + lower_of(bt) + seq!['-'] + san,
{
    lemma_build_prefix(project, spec_build_dir_name(bt, Seq::empty(), Some(san)));
    assert(spec_path_join(project, "build"@) + seq!['/'] + spec_build_dir_name(
        bt,
        Seq::empty(),
        Some(san),
    ) =~= spec_path_join(project, "build"@) + seq!['/'] + lower_of(bt) + seq!['-'] + san);
}

/// With both a compiler path and a sanitizer, both segments are present,
/// the compiler (its final component `b`) first and the sanitizer second,
/// each prefixed with `-`.
pub proof fn lemma_build_dir_both(
    project: Seq<char>,
    bt: Seq<char>,
    cp: Seq<char>,
    b: Seq<char>,
    san: Seq<char>,
)
    requires
        cp.len() > 0,
        spec_file_name(cp) == Some(b),
    ensures
        spec_build_path(project, bt, cp, Some(san)) == spec_path_join(project, "build"@)
            + seq!['/'] + lower_of(bt) + seq!['-'] + b + seq!['-'] + san,
{
    lemma_build_prefix(project, spec_build_dir_name(bt, cp, Some(san)));
    assert(spec_path_join(project, "build"@) + seq!['/'] + spec_build_dir_name(bt, cp, Some(san))
        =~= spec_path_join(project, "build"@) + seq!['/'] + lower_of(bt) + seq!['-'] + b
        + seq!['-'] + san);
}

} // verus!
