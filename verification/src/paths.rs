//! File-system paths as text, handled by `std::path`.
use vstd::prelude::*;

verus! {

/// What `Path::parent` gives for the path `p`: the path without its final
/// component, or nothing for a root, a prefix or the empty path.
pub uninterp spec fn path_parent(p: Seq<char>) -> Option<Seq<char>>;

/// What `Path::join` gives for `base` and `leaf`.
pub uninterp spec fn path_join(base: Seq<char>, leaf: Seq<char>) -> Seq<char>;

/// `Path::parent`, as text.
#[verifier::external_body]
pub(crate) fn parent_of(p: &str) -> (r: Option<String>)
    ensures
        match r {
            Some(s) => path_parent(p@) == Some(s@),
            None => path_parent(p@) is None,
        },
{
    std::path::Path::new(p).parent().map(|q| q.to_string_lossy().into_owned())
}

/// `Path::join`, as text.
#[verifier::external_body]
pub(crate) fn join_path(base: &str, leaf: &str) -> (r: String)
    ensures
        r@ == path_join(base@, leaf@),
{
    std::path::Path::new(base).join(leaf).to_string_lossy().into_owned()
}

} // verus!
