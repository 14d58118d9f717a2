//! Where a tool's binary is looked for, and the paths already resolved.

use crate::paths::join;
use crate::paths::joined;
use dashmap::DashMap;
use vstd::prelude::*;

verus! {

/// The repo-local directory of overrides, below the repository root.
pub const OVERRIDE_DIR: &'static str = ".bin";

/// The places a binary is looked for, in the order in which they are tried.
#[derive(Clone, Copy, PartialEq, Eq, Structural, Debug)]
pub enum Place {
    /// The standard executable search path.
    SearchPath,
    /// The repo-local directory of overrides.
    OverrideDir,
}

/// What to do next in the search for a binary.
pub enum LocateStep {
    /// Look in this place.
    Search(Place),
    /// The binary is here; its path is yet to be made canonical.
    Found(String),
    /// The binary is in neither place.
    NotFound,
}

/// The directory of overrides of a repository.
pub fn override_dir(git_root: &str) -> (dir: String)
    ensures
        dir@ == joined(git_root@, OVERRIDE_DIR@),
{
    join(git_root, OVERRIDE_DIR)
}

/// The binary that a search ends with, given what each place holds: the one
/// on the standard search path, and the override only where the standard
/// search path has none.
pub open spec fn located(on_search_path: Option<Seq<char>>, in_override_dir: Option<Seq<char>>)
    -> Option<Seq<char>> {
    match on_search_path {
        Some(path) => Some(path),
        None => in_override_dir,
    }
}

/// A step of a search, as text.
pub enum StepView {
    Search(Place),
    Found(Seq<char>),
    NotFound,
}

impl View for LocateStep {
    type V = StepView;

    open spec fn view(&self) -> StepView {
        match self {
            LocateStep::Search(place) => StepView::Search(*place),
            LocateStep::Found(path) => StepView::Found(path@),
            LocateStep::NotFound => StepView::NotFound,
        }
    }
}

/// The step after `place` was searched and held `found`: done where the
/// binary was found, the directory of overrides after the standard search
/// path, and failure after both.
pub open spec fn next_of(place: Place, found: Option<Seq<char>>) -> StepView {
    match found {
        Some(path) => StepView::Found(path),
        None => match place {
            Place::SearchPath => StepView::Search(Place::OverrideDir),
            Place::OverrideDir => StepView::NotFound,
        },
    }
}

/// The step a search ends with, given what each place holds.
pub open spec fn search_end(on_search_path: Option<Seq<char>>, in_override_dir: Option<Seq<char>>)
    -> StepView {
    match next_of(Place::SearchPath, on_search_path) {
        StepView::Search(place) => next_of(place, in_override_dir),
        end => end,
    }
}

/// A search prefers the standard search path: it ends with the binary found
/// there, with the override only where the standard search path has none,
/// and fails only where neither place has the binary.
pub proof fn lemma_search_prefers_search_path(
    on_search_path: Option<Seq<char>>,
    in_override_dir: Option<Seq<char>>,
)
    ensures
        search_end(on_search_path, in_override_dir) == match located(
            on_search_path,
            in_override_dir,
        ) {
            Some(path) => StepView::Found(path),
            None => StepView::NotFound,
        },
        on_search_path is Some ==> located(on_search_path, in_override_dir) == on_search_path,
{
}

/// The first step of a search: the standard search path.
pub fn locate_start() -> (step: LocateStep)
    ensures
        step@ == StepView::Search(Place::SearchPath),
{
    LocateStep::Search(Place::SearchPath)
}

/// The step after a place was searched.
pub fn locate_next(place: Place, found: Option<String>) -> (step: LocateStep)
    ensures
        step@ == next_of(
            place,
            match found {
                Some(path) => Some(path@),
                None => None,
            },
        ),
{
    match found {
        Some(path) => LocateStep::Found(path),
        None => match place {
            Place::SearchPath => LocateStep::Search(Place::OverrideDir),
            Place::OverrideDir => LocateStep::NotFound,
        },
    }
}

#[verifier::external_type_specification]
#[verifier::external_body]
#[verifier::reject_recursive_types(K)]
#[verifier::reject_recursive_types(V)]
#[verifier::reject_recursive_types(S)]
pub struct ExDashMap<K, V, S>(DashMap<K, V, S>);

/// The map of resolved tools: the path of each binary, by tool name.
pub type ToolPaths = DashMap<String, String>;

/// The paths that a map of resolved tools holds, by tool name.
pub uninterp spec fn resolved(paths: ToolPaths) -> Map<Seq<char>, Seq<char>>;

/// No path under any name.
pub open spec fn no_paths() -> Map<Seq<char>, Seq<char>> {
    Map::empty()
}

/// `DashMap::new`: a map that holds nothing.
#[verifier::external_body]
pub(crate) fn paths_new() -> (paths: ToolPaths)
    ensures
        resolved(paths) == no_paths(),
{
    DashMap::new()
}

/// `DashMap::get`: a copy of the path held under the name, if any.
#[verifier::external_body]
pub(crate) fn paths_get(paths: &ToolPaths, name: &str) -> (path: Option<String>)
    ensures
        path is Some <==> resolved(*paths).contains_key(name@),
        path matches Some(p) ==> p@ == resolved(*paths)[name@],
{
    match paths.get(name) {
        Some(entry) => Some(entry.value().clone()),
        None => None,
    }
}

/// `DashMap::entry` and `Entry::or_insert`: the path is put under the name
/// unless the name holds one already; a copy of the path then held is
/// returned.
#[verifier::external_body]
pub(crate) fn paths_or_insert(paths: &mut ToolPaths, name: String, path: String) -> (held:
    String)
    ensures
        resolved(*final(paths)) == if resolved(*old(paths)).contains_key(name@) {
            resolved(*old(paths))
        } else {
            resolved(*old(paths)).insert(name@, path@)
        },
        held@ == resolved(*final(paths))[name@],
{
    paths.entry(name).or_insert(path).value().clone()
}

} // verus!
