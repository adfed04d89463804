//! What the library relies on from mime_guess.
use vstd::prelude::*;

verus! {

/// The media type that a path's extension suggests, if any.
pub uninterp spec fn guessed_type(path: Seq<char>) -> Option<Seq<char>>;

/// Relies on `mime_guess::from_path(..).first_raw()`: the first media type
/// known for the path's extension, which depends on the path alone.
#[verifier::external_body]
pub(crate) fn guess_type(path: &str) -> (r: Option<String>)
    ensures
        match r {
            Some(t) => guessed_type(path@) == Some(t@),
            None => guessed_type(path@) is None,
        },
{
    mime_guess::from_path(path).first_raw().map(|t| t.to_string())
}

} // verus!
