//! Paths as text, with the rules of Unix paths.

use camino::Utf8Path;
use vstd::prelude::*;

verus! {

/// A path with another joined to it: an absolute `rel` replaces `base`, any
/// other is appended, behind a `/` where `base` does not end in one.
pub open spec fn joined(base: Seq<char>, rel: Seq<char>) -> Seq<char> {
    if rel.len() > 0 && rel[0] == '/' {
        rel
    } else if base.len() == 0 || base.last() == '/' {
        base + rel
    } else {
        base + seq!['/'] + rel
    }
}

/// The last component of a path, where it is the name of a file or a
/// directory.
pub uninterp spec fn file_name_of(path: Seq<char>) -> Option<Seq<char>>;

/// What follows the last dot of a path's file name, where the name has a dot
/// that is not its first character.
pub uninterp spec fn extension_of(path: Seq<char>) -> Option<Seq<char>>;

/// `Utf8Path::join`, on a Unix target.
#[verifier::external_body]
pub(crate) fn join(base: &str, rel: &str) -> (path: String)
    ensures
        path@ == joined(base@, rel@),
{
    Utf8Path::new(base).join(rel).into_string()
}

/// `Utf8Path::file_name`.
#[verifier::external_body]
pub(crate) fn file_name(path: &str) -> (name: Option<&str>)
    ensures
        name is Some <==> file_name_of(path@) is Some,
        name matches Some(n) ==> file_name_of(path@) == Some(n@),
{
    Utf8Path::new(path).file_name()
}

/// `Utf8Path::extension`.
#[verifier::external_body]
pub(crate) fn extension(path: &str) -> (ext: Option<&str>)
    ensures
        ext is Some <==> extension_of(path@) is Some,
        ext matches Some(e) ==> extension_of(path@) == Some(e@),
{
    Utf8Path::new(path).extension()
}

} // verus!
