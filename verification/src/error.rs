use vstd::prelude::*;

verus! {

/// Why a runtime reload could not be completed.
#[derive(Debug, PartialEq, Eq)]
pub enum ReloadError {
    /// A reload step failed; the message says which and why.
    General(String),
    /// The vehicle routes could not be swapped for the rebuilt ones.
    ReplacementFailure(String),
}

/// `error` is a `General` error whose message reads `message`.
pub open spec fn is_general(error: ReloadError, message: Seq<char>) -> bool {
    error matches ReloadError::General(m) && m@ == message
}

/// `error` is a `ReplacementFailure` whose message reads `message`.
pub open spec fn is_replacement_failure(error: ReloadError, message: Seq<char>) -> bool {
    error matches ReloadError::ReplacementFailure(m) && m@ == message
}

/// A `General` error carrying a copy of the literal `message`.
pub fn general_from(message: &str) -> (error: ReloadError)
    ensures
        is_general(error, message@),
{
    ReloadError::General(String::from_str(message))
}

} // verus!
