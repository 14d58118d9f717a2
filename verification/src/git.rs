//! The changed files of the repository: what is asked of git, and how its
//! answer is read.

use crate::paths::extension;
use crate::paths::extension_of;
use crate::text::str_eq;
use crate::text::utf8_text;
use crate::text::InvalidUtf8;
use vstd::prelude::*;
use vstd::slice::slice_subrange;
use vstd::string::StringExecFns;
use vstd::utf8::decode_utf8;
use vstd::utf8::valid_utf8;

verus! {

/// The line feed.
pub const LF: u8 = 10;

/// The carriage return.
pub const CR: u8 = 13;

/// The extension of Haskell sources.
pub const HASKELL_EXTENSION: &'static str = "hs";

/// The extension of Nix sources.
pub const NIX_EXTENSION: &'static str = "nix";

/// The name of git's binary.
pub const GIT: &'static str = "git";

/// The arguments that ask git for the root of the repository.
pub fn git_root_args() -> (args: Vec<String>)
    ensures
        args.deep_view() == seq!["rev-parse"@, "--show-toplevel"@],
{
    let mut args: Vec<String> = Vec::new();
    args.push(String::from_str("rev-parse"));
    args.push(String::from_str("--show-toplevel"));
    assert(args.deep_view() =~= seq!["rev-parse"@, "--show-toplevel"@]);
    args
}

/// The arguments that list the versioned files that differ from the merge
/// base with the main branch, deleted files and type changes left out,
/// below `roots`.
pub open spec fn tracked_args_of(git_root: Seq<char>, roots: Seq<Seq<char>>) -> Seq<Seq<char>> {
    seq![
        "-C"@,
        git_root,
        "diff"@,
        "--diff-filter=dt"@,
        "--name-only"@,
        "--merge-base"@,
        "origin/master"@,
        "--"@,
    ] + roots
}

/// The arguments that list the unversioned files that are not ignored, below
/// `roots`.
pub open spec fn untracked_args_of(git_root: Seq<char>, roots: Seq<Seq<char>>) -> Seq<Seq<char>> {
    seq!["-C"@, git_root, "ls-files"@, "--others"@, "--exclude-standard"@, "--"@] + roots
}

/// The directories in which Haskell sources lie.
pub open spec fn haskell_roots_of() -> Seq<Seq<char>> {
    seq!["src/"@, "test/"@, "local-packages/"@, "nix/packages/mercury/"@]
}

/// The directories in which Nix sources lie: all of the repository.
pub open spec fn nix_roots_of() -> Seq<Seq<char>> {
    seq!["."@]
}

/// The directories in which Haskell sources lie.
pub fn haskell_roots() -> (roots: Vec<String>)
    ensures
        roots.deep_view() == haskell_roots_of(),
{
    let mut roots: Vec<String> = Vec::new();
    roots.push(String::from_str("src/"));
    roots.push(String::from_str("test/"));
    roots.push(String::from_str("local-packages/"));
    roots.push(String::from_str("nix/packages/mercury/"));
    assert(roots.deep_view() =~= haskell_roots_of());
    roots
}

/// The directories in which Nix sources lie.
pub fn nix_roots() -> (roots: Vec<String>)
    ensures
        roots.deep_view() == nix_roots_of(),
{
    let mut roots: Vec<String> = Vec::new();
    roots.push(String::from_str("."));
    assert(roots.deep_view() =~= nix_roots_of());
    roots
}

fn extend(args: &mut Vec<String>, more: &Vec<String>)
    ensures
        final(args).deep_view() == old(args).deep_view() + more.deep_view(),
{
    let ghost head = args.deep_view();
    let mut i: usize = 0;
    assert(args.deep_view() =~= head + more.deep_view().take(0));
    while i < more.len()
        invariant
            i <= more@.len(),
            args.deep_view() == head + more.deep_view().take(i as int),
        decreases more@.len() - i,
    {
        let ghost before = args.deep_view();
        args.push(String::from_str(more[i].as_str()));
        assert(args.deep_view() =~= before.push(more@[i as int]@));
        assert(args.deep_view() =~= head + more.deep_view().take(i + 1));
        i += 1;
    }
    assert(more.deep_view().take(i as int) =~= more.deep_view());
}

/// The arguments that list the changed versioned files below `roots`.
pub fn tracked_args(git_root: &str, roots: &Vec<String>) -> (args: Vec<String>)
    ensures
        args.deep_view() == tracked_args_of(git_root@, roots.deep_view()),
{
    let mut args: Vec<String> = Vec::new();
    args.push(String::from_str("-C"));
    args.push(String::from_str(git_root));
    args.push(String::from_str("diff"));
    args.push(String::from_str("--diff-filter=dt"));
    args.push(String::from_str("--name-only"));
    args.push(String::from_str("--merge-base"));
    args.push(String::from_str("origin/master"));
    args.push(String::from_str("--"));
    assert(args.deep_view() =~= seq![
        "-C"@,
        git_root@,
        "diff"@,
        "--diff-filter=dt"@,
        "--name-only"@,
        "--merge-base"@,
        "origin/master"@,
        "--"@,
    ]);
    extend(&mut args, roots);
    args
}

/// The arguments that list the unversioned files below `roots`.
pub fn untracked_args(git_root: &str, roots: &Vec<String>) -> (args: Vec<String>)
    ensures
        args.deep_view() == untracked_args_of(git_root@, roots.deep_view()),
{
    let mut args: Vec<String> = Vec::new();
    args.push(String::from_str("-C"));
    args.push(String::from_str(git_root));
    args.push(String::from_str("ls-files"));
    args.push(String::from_str("--others"));
    args.push(String::from_str("--exclude-standard"));
    args.push(String::from_str("--"));
    assert(args.deep_view() =~= seq![
        "-C"@,
        git_root@,
        "ls-files"@,
        "--others"@,
        "--exclude-standard"@,
        "--"@,
    ]);
    extend(&mut args, roots);
    args
}

/// Where the first line of a text ends: the index of its first line feed,
/// or its length where it has none.
pub open spec fn first_line_end(bytes: Seq<u8>) -> int
    decreases bytes.len(),
{
    if bytes.len() == 0 || bytes[0] == LF {
        0
    } else {
        1 + first_line_end(bytes.drop_first())
    }
}

/// A line without the carriage return that stood before its line feed.
pub open spec fn without_cr(line: Seq<u8>) -> Seq<u8> {
    if line.len() > 0 && line.last() == CR {
        line.drop_last()
    } else {
        line
    }
}

/// The first line ends within the text, holds no line feed, and is
/// followed by one unless the text ends with it.
pub proof fn lemma_first_line_end(bytes: Seq<u8>)
    ensures
        0 <= first_line_end(bytes) <= bytes.len(),
        forall|k: int| 0 <= k < first_line_end(bytes) ==> bytes[k] != LF,
        first_line_end(bytes) < bytes.len() ==> bytes[first_line_end(bytes)] == LF,
    decreases bytes.len(),
{
    if !(bytes.len() == 0 || bytes[0] == LF) {
        let rest = bytes.drop_first();
        lemma_first_line_end(rest);
        assert forall|k: int| 0 <= k < first_line_end(bytes) implies bytes[k] != LF by {
            if k > 0 {
                assert(rest[k - 1] == bytes[k]);
            }
        }
        if first_line_end(bytes) < bytes.len() {
            assert(rest[first_line_end(rest)] == bytes[first_line_end(bytes)]);
        }
    }
}

/// The first line ends at the first line feed, wherever it is found.
pub proof fn lemma_first_line_end_is(bytes: Seq<u8>, end: int)
    requires
        0 <= end <= bytes.len(),
        forall|k: int| 0 <= k < end ==> bytes[k] != LF,
        end < bytes.len() ==> bytes[end] == LF,
    ensures
        first_line_end(bytes) == end,
{
    lemma_first_line_end(bytes);
    let found = first_line_end(bytes);
    if found < end {
        assert(bytes[found] == LF);
    } else if end < found {
        assert(bytes[end] != LF);
    }
}

/// The lines of a text: it is split at each line feed, a carriage return
/// before a line feed goes with it, and a line feed at the end starts no
/// further line.
pub open spec fn lines_of(bytes: Seq<u8>) -> Seq<Seq<u8>>
    decreases bytes.len(),
{
    if bytes.len() == 0 {
        Seq::empty()
    } else {
        let end = first_line_end(bytes);
        if 0 <= end < bytes.len() {
            seq![without_cr(bytes.take(end))] + lines_of(bytes.skip(end + 1))
        } else {
            seq![bytes]
        }
    }
}

/// Whether every line is UTF-8.
pub open spec fn all_utf8(lines: Seq<Seq<u8>>) -> bool {
    forall|i: int| 0 <= i < lines.len() ==> valid_utf8(#[trigger] lines[i])
}

/// The texts of lines that are UTF-8.
pub open spec fn decoded(lines: Seq<Seq<u8>>) -> Seq<Seq<char>> {
    Seq::new(lines.len(), |i: int| decode_utf8(lines[i]))
}

/// Adds the lines of `bytes` to `paths`, as texts; stops at a line that is
/// not UTF-8.
fn push_lines(paths: &mut Vec<String>, bytes: &[u8]) -> (result: Result<(), InvalidUtf8>)
    ensures
        result is Ok <==> all_utf8(lines_of(bytes@)),
        result is Ok ==> final(paths).deep_view() == old(paths).deep_view() + decoded(
            lines_of(bytes@),
        ),
{
    let ghost head = paths.deep_view();
    let ghost mut done: Seq<Seq<u8>> = Seq::empty();
    let mut start: usize = 0;
    assert(bytes@.skip(0) =~= bytes@);
    assert(paths.deep_view() =~= head + decoded(done));
    while start < bytes.len()
        invariant
            start <= bytes@.len(),
            lines_of(bytes@) == done + lines_of(bytes@.skip(start as int)),
            all_utf8(done),
            paths.deep_view() == head + decoded(done),
        decreases bytes@.len() - start,
    {
        let ghost rest = bytes@.skip(start as int);
        let mut end: usize = start;
        while end < bytes.len() && bytes[end] != LF
            invariant
                start <= end <= bytes@.len(),
                forall|k: int| start <= k < end ==> bytes@[k] != LF,
            decreases bytes@.len() - end,
        {
            end += 1;
        }
        proof {
            assert forall|k: int| 0 <= k < end - start implies rest[k] != LF by {
                assert(rest[k] == bytes@[start + k]);
            }
            lemma_first_line_end_is(rest, end - start);
        }
        let terminated = end < bytes.len();
        let mut stop: usize = end;
        if terminated && stop > start && bytes[stop - 1] == CR {
            stop -= 1;
        }
        let line = slice_subrange(bytes, start, stop);
        let ghost this: Seq<u8> = if terminated {
            without_cr(rest.take(end - start))
        } else {
            rest
        };
        proof {
            assert(rest.take(end - start) =~= bytes@.subrange(start as int, end as int));
            if terminated {
                assert(line@ =~= this);
                assert(rest.skip(end - start + 1) =~= bytes@.skip(end + 1));
                assert(lines_of(rest) == seq![this] + lines_of(bytes@.skip(end + 1)));
            } else {
                assert(line@ =~= rest);
                assert(lines_of(rest) == seq![this]);
                assert(bytes@.skip(bytes@.len() as int).len() == 0);
                assert(lines_of(bytes@.skip(bytes@.len() as int)) =~= Seq::<Seq<u8>>::empty());
            }
        }
        let next: usize = if terminated {
            end + 1
        } else {
            end
        };
        assert(lines_of(bytes@) =~= done.push(this) + lines_of(bytes@.skip(next as int)));
        match utf8_text(line) {
            Some(text) => {
                let ghost before = paths.deep_view();
                paths.push(String::from_str(text));
                proof {
                    assert(paths.deep_view() =~= before.push(decode_utf8(this)));
                    assert(decoded(done.push(this)) =~= decoded(done).push(decode_utf8(this)));
                    assert(paths.deep_view() =~= head + decoded(done.push(this)));
                    assert(all_utf8(done.push(this))) by {
                        assert forall|i: int| 0 <= i < done.push(this).len() implies valid_utf8(
                            #[trigger] done.push(this)[i],
                        ) by {
                            if i < done.len() {
                                assert(done.push(this)[i] == done[i]);
                            }
                        }
                    }
                    done = done.push(this);
                }
            },
            None => {
                proof {
                    let all = lines_of(bytes@);
                    assert(all[done.len() as int] == this);
                    assert(!valid_utf8(all[done.len() as int]));
                }
                return Err(InvalidUtf8);
            },
        }
        start = next;
    }
    proof {
        assert(bytes@.skip(start as int).len() == 0);
        assert(lines_of(bytes@) =~= done);
    }
    Ok(())
}

/// The changed files, from what git answered to the two queries: the lines
/// of the first answer, then those of the second, each a path.
pub open spec fn changed_files_of(diff: Seq<u8>, others: Seq<u8>) -> Option<Seq<Seq<char>>> {
    if all_utf8(lines_of(diff)) && all_utf8(lines_of(others)) {
        Some(decoded(lines_of(diff)) + decoded(lines_of(others)))
    } else {
        None
    }
}

/// The changed files, from what git answered to the query for versioned
/// files (`diff`) and to the query for unversioned files (`others`).
pub fn changed_files(diff: &[u8], others: &[u8]) -> (result: Result<Vec<String>, InvalidUtf8>)
    ensures
        result is Ok <==> changed_files_of(diff@, others@) is Some,
        result matches Ok(paths) ==> Some(paths.deep_view()) == changed_files_of(
            diff@,
            others@,
        ),
{
    let mut paths: Vec<String> = Vec::new();
    assert(paths.deep_view() =~= Seq::<Seq<char>>::empty());
    match push_lines(&mut paths, diff) {
        Ok(()) => {},
        Err(err) => {
            return Err(err);
        },
    }
    assert(paths.deep_view() =~= decoded(lines_of(diff@)));
    match push_lines(&mut paths, others) {
        Ok(()) => {},
        Err(err) => {
            return Err(err);
        },
    }
    Ok(paths)
}

/// The paths with a given extension, in order.
pub open spec fn with_extension(paths: Seq<Seq<char>>, ext: Seq<char>) -> Seq<Seq<char>>
    decreases paths.len(),
{
    if paths.len() == 0 {
        Seq::empty()
    } else if extension_of(paths.last()) == Some(ext) {
        with_extension(paths.drop_last(), ext).push(paths.last())
    } else {
        with_extension(paths.drop_last(), ext)
    }
}

/// Keeps the paths with a given extension.
pub fn retain_extension(paths: &Vec<String>, ext: &str) -> (kept: Vec<String>)
    ensures
        kept.deep_view() == with_extension(paths.deep_view(), ext@),
{
    let mut kept: Vec<String> = Vec::new();
    let mut i: usize = 0;
    assert(kept.deep_view() =~= with_extension(paths.deep_view().take(0), ext@));
    while i < paths.len()
        invariant
            i <= paths@.len(),
            kept.deep_view() == with_extension(paths.deep_view().take(i as int), ext@),
        decreases paths@.len() - i,
    {
        let ghost before = kept.deep_view();
        let ghost all = paths.deep_view();
        assert(all.take(i + 1).drop_last() =~= all.take(i as int));
        assert(all.take(i + 1).last() == paths@[i as int]@);
        let matches = match extension(paths[i].as_str()) {
            Some(found) => str_eq(found, ext),
            None => false,
        };
        assert(matches == (extension_of(paths@[i as int]@) == Some(ext@)));
        if matches {
            kept.push(String::from_str(paths[i].as_str()));
            assert(kept.deep_view() =~= before.push(paths@[i as int]@));
        }
        i += 1;
    }
    assert(paths.deep_view().take(i as int) =~= paths.deep_view());
    kept
}

/// The changed files with a given extension, from what git answered.
pub open spec fn changed_with_extension(diff: Seq<u8>, others: Seq<u8>, ext: Seq<char>)
    -> Option<Seq<Seq<char>>> {
    match changed_files_of(diff, others) {
        Some(paths) => Some(with_extension(paths, ext)),
        None => None,
    }
}

/// The changed Haskell sources, from what git answered for the Haskell
/// roots.
pub fn changed_haskell_files(diff: &[u8], others: &[u8]) -> (result: Result<
    Vec<String>,
    InvalidUtf8,
>)
    ensures
        result is Ok <==> changed_files_of(diff@, others@) is Some,
        result matches Ok(paths) ==> Some(paths.deep_view()) == changed_with_extension(
            diff@,
            others@,
            HASKELL_EXTENSION@,
        ),
{
    match changed_files(diff, others) {
        Ok(paths) => Ok(retain_extension(&paths, HASKELL_EXTENSION)),
        Err(err) => Err(err),
    }
}

/// The changed Nix sources, from what git answered for the Nix roots.
pub fn changed_nix_files(diff: &[u8], others: &[u8]) -> (result: Result<
    Vec<String>,
    InvalidUtf8,
>)
    ensures
        result is Ok <==> changed_files_of(diff@, others@) is Some,
        result matches Ok(paths) ==> Some(paths.deep_view()) == changed_with_extension(
            diff@,
            others@,
            NIX_EXTENSION@,
        ),
{
    match changed_files(diff, others) {
        Ok(paths) => Ok(retain_extension(&paths, NIX_EXTENSION)),
        Err(err) => Err(err),
    }
}

} // verus!
