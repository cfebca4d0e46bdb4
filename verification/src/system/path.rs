//! File system paths, compared and inspected through `std::path::Path`.

use std::path::Path;
use vstd::prelude::*;

verus! {

/// What `==` on two `std::path::Path`s returns; paths compare by components.
pub uninterp spec fn path_eq(a: Seq<char>, b: Seq<char>) -> bool;

/// What `std::path::Path::extension` returns for a path: the part of the file
/// name after its last `.`, if any.
pub uninterp spec fn path_extension(p: Seq<char>) -> Option<Seq<char>>;

/// Calls `==` on `std::path::Path::new(a)` and `std::path::Path::new(b)`. The
/// result is named `path_eq`; as `Path` implements `Eq`, two equal texts name
/// equal paths. Which different texts name equal paths is left to the name.
#[verifier::external_body]
pub(crate) fn same_path(a: &str, b: &str) -> (r: bool)
    ensures
        r == path_eq(a@, b@),
        a@ == b@ ==> r,
{
    Path::new(a) == Path::new(b)
}

/// Calls `std::path::Path::extension` on `p` and returns the extension as text.
/// The result is named `path_extension`; how the extension is found is left to
/// the name.
#[verifier::external_body]
pub(crate) fn extension_of(p: &str) -> (r: Option<String>)
    ensures
        match r {
            Some(e) => path_extension(p@) == Some(e@),
            None => path_extension(p@) is None,
        },
{
    Path::new(p).extension().map(|e| e.to_string_lossy().into_owned())
}

} // verus!
