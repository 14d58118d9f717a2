//! How a file is replaced.
//!
//! A file is replaced in one step: the new bytes are written to a file of
//! their own in a private directory, and that file is then renamed over the
//! old one. A reader sees the old file or the new one, never a part of
//! either.

use crate::paths::file_name;
use crate::paths::file_name_of;
use crate::paths::join;
use crate::paths::joined;
use vstd::prelude::*;
use vstd::string::StringExecFns;

verus! {

/// The name of a staged file whose destination has no file name.
pub const STAGED_NAME: &'static str = "temp";

/// Where the new bytes of `path` are staged in `dir`: under the file name of
/// `path`, or under a fixed name where it has none.
pub open spec fn staging_path_of(dir: Seq<char>, path: Seq<char>) -> Seq<char> {
    match file_name_of(path) {
        Some(name) => joined(dir, name),
        None => joined(dir, STAGED_NAME@),
    }
}

/// Where the new bytes of `path` are staged in the private directory `dir`.
pub fn staging_path(dir: &str, path: &str) -> (staged: String)
    ensures
        staged@ == staging_path_of(dir@, path@),
{
    match file_name(path) {
        Some(name) => join(dir, name),
        None => join(dir, STAGED_NAME),
    }
}

/// One step of the replacement of a file.
pub enum WriteStep {
    /// Make the file, empty.
    Create(String),
    /// Write the bytes to the end of the file.
    Write(String, Vec<u8>),
    /// Flush the file and close it.
    Flush(String),
    /// Rename the first file to the second, in place of what is there.
    Rename(String, String),
}

/// One step of the replacement of a file, as text and bytes.
pub enum StepView {
    Create(Seq<char>),
    Write(Seq<char>, Seq<u8>),
    Flush(Seq<char>),
    Rename(Seq<char>, Seq<char>),
}

impl View for WriteStep {
    type V = StepView;

    open spec fn view(&self) -> StepView {
        match self {
            WriteStep::Create(path) => StepView::Create(path@),
            WriteStep::Write(path, bytes) => StepView::Write(path@, bytes@),
            WriteStep::Flush(path) => StepView::Flush(path@),
            WriteStep::Rename(from, to) => StepView::Rename(from@, to@),
        }
    }
}

/// The views of a list of steps.
pub open spec fn step_views(steps: Seq<WriteStep>) -> Seq<StepView> {
    Seq::new(steps.len(), |i: int| steps[i]@)
}

/// The files of a directory tree: what each path holds.
pub type Files = Map<Seq<char>, Seq<u8>>;

/// The files after a step, as far as a reader can tell: a write to a path
/// that holds no file changes nothing.
pub open spec fn after_step(files: Files, step: StepView) -> Files {
    match step {
        StepView::Create(path) => files.insert(path, Seq::empty()),
        StepView::Write(path, bytes) => if files.contains_key(path) {
            files.insert(path, files[path] + bytes)
        } else {
            files
        },
        StepView::Flush(_) => files,
        StepView::Rename(from, to) => if files.contains_key(from) {
            files.remove(from).insert(to, files[from])
        } else {
            files
        },
    }
}

/// The files after the first `n` of the steps.
pub open spec fn after_steps(files: Files, steps: Seq<StepView>, n: nat) -> Files
    decreases n,
{
    if n == 0 || n > steps.len() {
        files
    } else {
        after_step(after_steps(files, steps, (n - 1) as nat), steps[n - 1])
    }
}

/// The steps that replace what `path` holds by `bytes`, staged at `staged`.
pub open spec fn write_plan(staged: Seq<char>, path: Seq<char>, bytes: Seq<u8>) -> Seq<StepView> {
    seq![
        StepView::Create(staged),
        StepView::Write(staged, bytes),
        StepView::Flush(staged),
        StepView::Rename(staged, path),
    ]
}

/// The steps that replace what `path` holds by `bytes`: the bytes are
/// written to a file of their own in the private directory `dir`, which is
/// then renamed to `path`.
pub fn write_file(dir: &str, path: &str, bytes: Vec<u8>) -> (steps: Vec<WriteStep>)
    ensures
        step_views(steps@) == write_plan(staging_path_of(dir@, path@), path@, bytes@),
{
    let staged = staging_path(dir, path);
    let mut steps: Vec<WriteStep> = Vec::new();
    steps.push(WriteStep::Create(String::from_str(staged.as_str())));
    steps.push(WriteStep::Write(String::from_str(staged.as_str()), bytes));
    steps.push(WriteStep::Flush(String::from_str(staged.as_str())));
    steps.push(WriteStep::Rename(staged, String::from_str(path)));
    assert(step_views(steps@) =~= write_plan(staging_path_of(dir@, path@), path@, bytes@));
    steps
}

/// A file is replaced whole: where the staged file is another file than the
/// one replaced, the path holds what it held before until the last step,
/// and after the last step it holds exactly the new bytes.
pub proof fn lemma_write_is_whole(
    files: Files,
    staged: Seq<char>,
    path: Seq<char>,
    bytes: Seq<u8>,
    n: nat,
)
    requires
        staged != path,
        n <= 4,
    ensures
        n < 4 ==> after_steps(files, write_plan(staged, path, bytes), n).contains_key(path)
            == files.contains_key(path),
        n < 4 && files.contains_key(path) ==> after_steps(
            files,
            write_plan(staged, path, bytes),
            n,
        )[path] == files[path],
        n == 4 ==> after_steps(files, write_plan(staged, path, bytes), n).contains_key(path)
            && after_steps(files, write_plan(staged, path, bytes), n)[path] == bytes,
{
    let plan = write_plan(staged, path, bytes);
    reveal_with_fuel(after_steps, 5);
    let f1 = after_steps(files, plan, 1);
    let f2 = after_steps(files, plan, 2);
    let f3 = after_steps(files, plan, 3);
    let f4 = after_steps(files, plan, 4);
    assert(f1 == files.insert(staged, Seq::empty()));
    assert(f2 == f1.insert(staged, f1[staged] + bytes));
    assert(f2[staged] =~= bytes);
    assert(f3 == f2);
    assert(f4 == f3.remove(staged).insert(path, f3[staged]));
}

} // verus!
