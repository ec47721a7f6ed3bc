use vstd::prelude::*;

verus! {

/// The parent of a path as std's `Path::parent` gives it: `None` for a path that
/// ends in a root or is empty.
pub uninterp spec fn parent_path_of(p: Seq<char>) -> Option<Seq<char>>;

/// Relies on `std::path::Path::parent`: the path without its final component,
/// `None` for the empty path. A path built from a `&str` converts back losslessly.
#[verifier::external_body]
pub(crate) fn parent_path(p: &str) -> (r: Option<String>)
    ensures
        match r {
            Some(d) => parent_path_of(p@) == Some(d@),
            None => parent_path_of(p@).is_none(),
        },
        p@.len() == 0 ==> r.is_none(),
{
    std::path::Path::new(p).parent().map(|d| d.to_string_lossy().to_string())
}

} // verus!

verus! {

/// The final component of a path as std's `Path::file_name` gives it: `None` for a
/// path that ends in `..`, a root, or nothing.
pub uninterp spec fn file_name_of(p: Seq<char>) -> Option<Seq<char>>;

/// Relies on `std::path::Path::file_name`: the final component of the path, if it is
/// a normal one. A component of a path built from a `&str` converts back losslessly.
#[verifier::external_body]
pub(crate) fn file_name(p: &str) -> (r: Option<String>)
    ensures
        match r {
            Some(n) => file_name_of(p@) == Some(n@),
            None => file_name_of(p@).is_none(),
        },
{
    std::path::Path::new(p).file_name().and_then(|n| n.to_str()).map(|n| n.to_string())
}

} // verus!
