//! What the library takes from `std::path`.

use vstd::prelude::*;

verus! {

/// The path `name` under the directory `base`: what `std::path::Path::join`
/// gives for the two.
pub uninterp spec fn path_join(base: Seq<char>, name: Seq<char>) -> Seq<char>;

/// The last component of `path`, if it has one: what
/// `std::path::Path::file_name` gives for it.
pub uninterp spec fn path_file_name(path: Seq<char>) -> Option<Seq<char>>;

/// `std::path::Path::join`: the path of `name` below `base`. The same two
/// texts always give the same path.
#[verifier::external_body]
pub(crate) fn join(base: &str, name: &str) -> (path: String)
    ensures
        path@ == path_join(base@, name@),
{
    std::path::Path::new(base).join(name).to_string_lossy().into_owned()
}

/// `std::path::Path::file_name`: the last component of `path`, or nothing
/// where the path ends in `..` or is a root. The same text always gives the
/// same answer.
#[verifier::external_body]
pub(crate) fn file_name(path: &str) -> (name: Option<String>)
    ensures
        name is Some <==> path_file_name(path@) is Some,
        name is Some ==> name->0@ == path_file_name(path@)->0,
{
    match std::path::Path::new(path).file_name() {
        Some(name) => Some(name.to_string_lossy().into_owned()),
        None => None,
    }
}

} // verus!
