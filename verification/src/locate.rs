//! Executable location: the directory tree under the build directory is
//! walked best-effort, regular files whose base name equals the target are
//! kept, and the caller classifies the matches by count.

use vstd::prelude::*;

use crate::strutil::eq_str;

verus! {

/// One entry seen while walking a directory tree.
pub struct FileEntry {
    pub path: String,
    pub name: String,
    pub is_file: bool,
}

/// Relies on `walkdir::WalkDir`: every entry under `dir` in walk order,
/// with its path, base name and whether it is a regular file; entries
/// that cannot be read are skipped. What comes back depends on the state
/// of the file system.
#[verifier::external_body]
fn walk_dir(dir: &str) -> (r: Vec<FileEntry>) {
    let mut v = Vec::new();
    for entry in walkdir::WalkDir::new(dir).into_iter().filter_map(|e| e.ok()) {
        v.push(FileEntry {
            path: entry.path().display().to_string(),
            name: entry.file_name().to_string_lossy().into_owned(),
            is_file: entry.file_type().is_file(),
        });
    }
    v
}

/// The paths of the regular files among `entries` whose base name is
/// `target`, in order.
pub open spec fn spec_matching(entries: Seq<FileEntry>, target: Seq<char>) -> Seq<String>
    decreases entries.len(),
{
    if entries.len() == 0 {
        Seq::empty()
    } else {
        spec_matching(entries.drop_last(), target) + (if entries.last().is_file
            && entries.last().name@ == target {
            seq![entries.last().path]
        } else {
            Seq::empty()
        })
    }
}

/// Keep the regular files whose base name satisfies the match, in walk
/// order.
pub fn find_files(entries: &Vec<FileEntry>, target: &str) -> (r: Vec<String>)
    ensures
        r@ == spec_matching(entries@, target@),
{
    let mut r: Vec<String> = Vec::new();
    proof {
        assert(entries@.take(0) =~= Seq::<FileEntry>::empty());
    }
    let mut i: usize = 0;
    while i < entries.len()
        invariant
            i <= entries@.len(),
            r@ == spec_matching(entries@.take(i as int), target@),
        decreases entries@.len() - i,
    {
        let e = &entries[i];
        if e.is_file && eq_str(e.name.as_str(), target) {
            r.push(e.path.clone());
        }
        proof {
            assert(entries@.take(i + 1int).drop_last() =~= entries@.take(i as int));
            assert(entries@.take(i + 1int).last() == entries@[i as int]);
            if entries@[i as int].is_file && entries@[i as int].name@ == target@ {
                assert(r@ =~= spec_matching(entries@.take(i as int), target@) + seq![
                    entries@[i as int].path,
                ]);
            } else {
                assert(spec_matching(entries@.take(i as int), target@) + Seq::<String>::empty()
                    =~= spec_matching(entries@.take(i as int), target@));
            }
        }
        i += 1;
    }
    proof {
        assert(entries@.take(entries@.len() as int) =~= entries@);
    }
    r
}

/// Walk the tree under `dir` and keep the regular files named `target`.
/// The walk depends on the file system; whatever it saw, the result is
/// exactly the matching files of it.
pub fn locate_executables(dir: &str, target: &str) -> (r: Vec<String>)
    ensures
        exists|entries: Seq<FileEntry>| r@ == #[trigger] spec_matching(entries, target@),
{
    let entries = walk_dir(dir);
    let r = find_files(&entries, target);
    proof {
        assert(r@ == spec_matching(entries@, target@));
    }
    r
}

} // verus!
