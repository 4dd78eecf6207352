//! Path text operations that the build context delegates to `std::path`.
//!
//! Paths are held as UTF-8 text; each operation hands the text to
//! `std::path::Path` and reads the resulting path back as text.
use vstd::prelude::*;

verus! {

/// The stem (file name without its final extension) that
/// `std::path::Path::file_stem` finds in the path `path`, if any.
pub uninterp spec fn path_file_stem(path: Seq<char>) -> Option<Seq<char>>;

/// The path that `std::path::Path::parent` gives for the path `path`:
/// the path without its final component, if there is one.
pub uninterp spec fn path_parent(path: Seq<char>) -> Option<Seq<char>>;

/// The path that `std::path::Path::join` builds from `base` and `rest`.
pub uninterp spec fn path_join(base: Seq<char>, rest: Seq<char>) -> Seq<char>;

/// Calls `std::path::Path::file_stem` on `path`. The contract claims that
/// the result is the stem named by `path_file_stem`, read back as text (the
/// text of a stem taken from UTF-8 text is itself UTF-8, so reading it back
/// loses nothing), and the documented facts that a path without a final
/// component (the empty path) or one that terminates in `..` has no stem.
/// What the stem is on other paths is left to the name.
#[verifier::external_body]
pub(crate) fn file_stem(path: &str) -> (r: Option<String>)
    ensures
        r matches Some(s) ==> path_file_stem(path@) == Some(s@),
        r is None <==> path_file_stem(path@) is None,
        path@ == Seq::<char>::empty() ==> r is None,
        path@ == seq!['.', '.'] ==> r is None,
        (path@.len() >= 3 && path@.subrange(path@.len() - 3, path@.len() as int)
            == seq!['/', '.', '.']) ==> r is None,
{
    std::path::Path::new(path).file_stem().map(|s| s.to_string_lossy().into_owned())
}

/// Calls `std::path::Path::parent` on `path`. The contract claims that the
/// result is the parent named by `path_parent`, read back as text, and the
/// documented facts that the empty path and the root `/` have no parent.
/// What the parent is on other paths is left to the name.
#[verifier::external_body]
pub(crate) fn parent(path: &str) -> (r: Option<String>)
    ensures
        r matches Some(s) ==> path_parent(path@) == Some(s@),
        r is None <==> path_parent(path@) is None,
        path@ == Seq::<char>::empty() ==> r is None,
        path@ == seq!['/'] ==> r is None,
{
    std::path::Path::new(path).parent().map(|p| p.to_string_lossy().into_owned())
}

/// Calls `std::path::Path::join` on `base` and `rest`. The contract claims
/// only that the result is the path named by `path_join`, read back as text.
#[verifier::external_body]
pub(crate) fn join(base: &str, rest: &str) -> (r: String)
    ensures
        r@ == path_join(base@, rest@),
{
    std::path::Path::new(base).join(rest).to_string_lossy().into_owned()
}

} // verus!
