//! The configuration inputs of the tools: where they lie in the repository,
//! where their snapshots go, and how they are fingerprinted.
//!
//! A sandboxed tool may be denied the repository tree, so each configuration
//! file is copied to a directory outside it, and the tool is pointed at the
//! copy. The fingerprint is taken of the bytes of the file itself.

use crate::hashing::combine_fingerprints;
use crate::hashing::fingerprint;
use crate::hashing::le_bytes_of;
use crate::hashing::xxh3_64;
use crate::paths::extension;
use crate::paths::extension_of;
use crate::paths::file_name;
use crate::paths::file_name_of;
use crate::paths::join;
use crate::paths::joined;
use crate::text::str_eq;
use vstd::prelude::*;
use vstd::string::StringExecFns;

verus! {

/// The first formatter's style file, below the repository root.
pub const FOURMOLU_CONFIG: &'static str = "fourmolu.yaml";

/// The file that lists the enabled extensions, below the repository root.
pub const FOURMOLU_EXTENSIONS: &'static str = "hpack-common/default-extensions.yaml";

/// The linter's root rule file, below the repository root.
pub const HLINT_ROOT: &'static str = ".hlint.yaml";

/// The directory of the linter's rule files, below the repository root.
pub const HLINT_RULES_DIR: &'static str = "hlint-rules";

/// The extension of a rule file.
pub const RULE_EXTENSION: &'static str = "yaml";

/// The first formatter's style file in a repository.
pub fn fourmolu_config_path(git_root: &str) -> (path: String)
    ensures
        path@ == joined(git_root@, FOURMOLU_CONFIG@),
{
    join(git_root, FOURMOLU_CONFIG)
}

/// The file that lists the enabled extensions in a repository.
pub fn fourmolu_extensions_path(git_root: &str) -> (path: String)
    ensures
        path@ == joined(git_root@, FOURMOLU_EXTENSIONS@),
{
    join(git_root, FOURMOLU_EXTENSIONS)
}

/// The linter's root rule file in a repository.
pub fn hlint_root_path(git_root: &str) -> (path: String)
    ensures
        path@ == joined(git_root@, HLINT_ROOT@),
{
    join(git_root, HLINT_ROOT)
}

/// The directory of the linter's rule files in a repository.
pub fn hlint_rules_dir(git_root: &str) -> (path: String)
    ensures
        path@ == joined(git_root@, HLINT_RULES_DIR@),
{
    join(git_root, HLINT_RULES_DIR)
}

/// An entry of a directory, as it was enumerated: its path, and whether it
/// is known to be a regular file.
pub struct DirEntry {
    pub path: String,
    pub is_file: bool,
}

/// A configuration file that was read: its path and its bytes.
pub struct ConfigFile {
    pub path: String,
    pub bytes: Vec<u8>,
}

/// Whether an entry of the rules directory is a rule file: a regular file
/// with the extension of rule files.
pub open spec fn is_rule_file(entry: DirEntry) -> bool {
    entry.is_file && extension_of(entry.path@) == Some(RULE_EXTENSION@)
}

/// The paths of the rule files among the entries, in the order of the
/// enumeration.
pub open spec fn rule_files_of(entries: Seq<DirEntry>) -> Seq<Seq<char>>
    decreases entries.len(),
{
    if entries.len() == 0 {
        Seq::empty()
    } else if is_rule_file(entries.last()) {
        rule_files_of(entries.drop_last()).push(entries.last().path@)
    } else {
        rule_files_of(entries.drop_last())
    }
}

/// The files that configure the linter: the root rule file first, if there
/// is one, then the rule files of the rules directory in the order of its
/// enumeration.
pub open spec fn hlint_config_files_of(
    git_root: Seq<char>,
    has_root_file: bool,
    entries: Seq<DirEntry>,
) -> Seq<Seq<char>> {
    if has_root_file {
        seq![joined(git_root, HLINT_ROOT@)] + rule_files_of(entries)
    } else {
        rule_files_of(entries)
    }
}

/// The files that configure the linter, given whether the root rule file
/// exists and what the rules directory holds.
pub fn hlint_config_files(git_root: &str, has_root_file: bool, entries: &Vec<DirEntry>) -> (files:
    Vec<String>)
    ensures
        files.deep_view() == hlint_config_files_of(git_root@, has_root_file, entries@),
{
    let mut files: Vec<String> = Vec::new();
    if has_root_file {
        files.push(join(git_root, HLINT_ROOT));
    }
    let ghost head = files.deep_view();
    assert(head =~= if has_root_file {
        seq![joined(git_root@, HLINT_ROOT@)]
    } else {
        Seq::empty()
    });
    let mut i: usize = 0;
    assert(files.deep_view() =~= head + rule_files_of(entries@.take(0)));
    while i < entries.len()
        invariant
            i <= entries@.len(),
            files.deep_view() == head + rule_files_of(entries@.take(i as int)),
        decreases entries@.len() - i,
    {
        let entry = &entries[i];
        let ghost before = files.deep_view();
        assert(entries@.take(i + 1).drop_last() =~= entries@.take(i as int));
        assert(entries@.take(i + 1).last() == entries@[i as int]);
        let mut selected = false;
        if entry.is_file {
            match extension(entry.path.as_str()) {
                Some(ext) => {
                    selected = str_eq(ext, RULE_EXTENSION);
                },
                None => {},
            }
        }
        assert(selected == is_rule_file(entries@[i as int]));
        if selected {
            files.push(String::from_str(entry.path.as_str()));
            assert(files.deep_view() =~= before.push(entry.path@));
        }
        assert(files.deep_view() =~= head + rule_files_of(entries@.take(i + 1)));
        i += 1;
    }
    assert(entries@.take(i as int) =~= entries@);
    files
}

/// Where the snapshot of a configuration file goes: under its own name in
/// the snapshot directory. A path without a file name has no snapshot.
pub open spec fn snapshot_path_of(snapshot_dir: Seq<char>, path: Seq<char>) -> Option<Seq<char>> {
    match file_name_of(path) {
        Some(name) => Some(joined(snapshot_dir, name)),
        None => None,
    }
}

/// Where the snapshot of a configuration file goes.
pub fn snapshot_path(snapshot_dir: &str, path: &str) -> (snapshot: Option<String>)
    ensures
        snapshot is Some <==> snapshot_path_of(snapshot_dir@, path@) is Some,
        snapshot matches Some(s) ==> snapshot_path_of(snapshot_dir@, path@) == Some(s@),
{
    match file_name(path) {
        Some(name) => Some(join(snapshot_dir, name)),
        None => None,
    }
}

/// The fingerprints of the files, each of its own bytes.
pub open spec fn fingerprints_of(files: Seq<ConfigFile>) -> Seq<u64> {
    Seq::new(files.len(), |i: int| xxh3_64(files[i].bytes@))
}

/// Whether every file has a file name, and so a snapshot.
pub open spec fn all_named(files: Seq<ConfigFile>) -> bool {
    forall|i: int| 0 <= i < files.len() ==> file_name_of((#[trigger] files[i]).path@) is Some
}

/// The snapshot paths of the files, in order.
pub open spec fn snapshot_paths_of(snapshot_dir: Seq<char>, files: Seq<ConfigFile>) -> Seq<
    Seq<char>,
> {
    Seq::new(
        files.len(),
        |i: int| joined(snapshot_dir, file_name_of(files[i].path@).unwrap()),
    )
}

/// The fingerprint of a configuration that several files make up: the
/// fingerprint of each file's bytes is taken, and the fingerprints are
/// combined in the order of the files.
pub open spec fn combined_fingerprint_of(files: Seq<ConfigFile>) -> u64 {
    xxh3_64(le_bytes_of(fingerprints_of(files)))
}

/// The snapshot paths and the combined fingerprint of the files that make up
/// a configuration; nothing where a path has no file name.
pub fn snapshot_configs(snapshot_dir: &str, files: &Vec<ConfigFile>) -> (result: Option<
    (Vec<String>, u64),
>)
    ensures
        result is Some <==> all_named(files@),
        result matches Some((paths, digest)) ==> paths.deep_view() == snapshot_paths_of(
            snapshot_dir@,
            files@,
        ) && digest == combined_fingerprint_of(files@),
{
    let mut paths: Vec<String> = Vec::new();
    let mut hashes: Vec<u64> = Vec::new();
    let mut i: usize = 0;
    assert(paths.deep_view() =~= snapshot_paths_of(snapshot_dir@, files@.take(0)));
    assert(hashes@ =~= fingerprints_of(files@.take(0)));
    while i < files.len()
        invariant
            i <= files@.len(),
            all_named(files@.take(i as int)),
            paths.deep_view() == snapshot_paths_of(snapshot_dir@, files@.take(i as int)),
            hashes@ == fingerprints_of(files@.take(i as int)),
        decreases files@.len() - i,
    {
        let file = &files[i];
        let ghost paths_before = paths.deep_view();
        let ghost hashes_before = hashes@;
        match snapshot_path(snapshot_dir, file.path.as_str()) {
            Some(snapshot) => {
                paths.push(snapshot);
                assert(paths.deep_view() =~= paths_before.push(
                    joined(snapshot_dir@, file_name_of(file.path@).unwrap()),
                ));
            },
            None => {
                assert(file_name_of(files@[i as int].path@) is None);
                return None;
            },
        }
        hashes.push(fingerprint(file.bytes.as_slice()));
        proof {
            let prev = files@.take(i as int);
            let next = files@.take(i + 1);
            assert forall|k: int| 0 <= k < next.len() implies file_name_of(
                (#[trigger] next[k]).path@,
            ) is Some by {
                if k < i {
                    assert(prev[k] == next[k]);
                }
            }
            assert(paths.deep_view() =~= snapshot_paths_of(snapshot_dir@, next)) by {
                assert forall|k: int| 0 <= k < next.len() implies paths.deep_view()[k]
                    == snapshot_paths_of(snapshot_dir@, next)[k] by {
                    if k < i {
                        assert(prev[k] == next[k]);
                        assert(paths_before[k] == snapshot_paths_of(snapshot_dir@, prev)[k]);
                    }
                }
            }
            assert(hashes@ =~= fingerprints_of(next)) by {
                assert forall|k: int| 0 <= k < next.len() implies hashes@[k] == fingerprints_of(
                    next,
                )[k] by {
                    if k < i {
                        assert(prev[k] == next[k]);
                        assert(hashes_before[k] == fingerprints_of(prev)[k]);
                    }
                }
            }
        }
        i += 1;
    }
    assert(files@.take(i as int) =~= files@);
    let digest = combine_fingerprints(&hashes);
    Some((paths, digest))
}

} // verus!
