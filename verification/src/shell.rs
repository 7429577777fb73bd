//! Shell quoting: whether a command line splits into words.

use vstd::prelude::*;

verus! {

/// The words into which `shellwords::split` parts a command line, by the rules of the
/// Bourne shell for quotes and backslashes; `None` where a quote is left open.
pub uninterp spec fn shell_words(input: Seq<char>) -> Option<Seq<Seq<char>>>;

/// The error of `shellwords::split`.
#[verifier::external_type_specification]
#[verifier::external_body]
pub struct ExMismatchedQuotes(shellwords::MismatchedQuotes);

/// `shellwords::split` depends on its argument alone: it gives the words of the line,
/// or its error where the line has a quote without its partner.
pub assume_specification[ shellwords::split ](input: &str) -> (r: Result<
    Vec<String>,
    shellwords::MismatchedQuotes,
>)
    ensures
        match r {
            Ok(words) => shell_words(input@) == Some(words.deep_view()),
            Err(_) => shell_words(input@) is None,
        },
;

/// Why a command was not launched.
#[derive(Clone, Copy, Debug, PartialEq, Eq, Structural)]
pub enum DispatchError {
    /// The command has a quote without its partner.
    MalformedCommand,
    /// The interpreter or its flag is not configured.
    IncompleteConfiguration,
}

/// Whether a command line is well quoted.
pub open spec fn well_quoted(input: Seq<char>) -> bool {
    shell_words(input) is Some
}

/// The words of a command line, or the reason why it has none.
pub fn split_command(input: &str) -> (r: Result<Vec<String>, DispatchError>)
    ensures
        match r {
            Ok(words) => shell_words(input@) == Some(words.deep_view()),
            Err(e) => e == DispatchError::MalformedCommand && !well_quoted(input@),
        },
{
    match shellwords::split(input) {
        Ok(words) => Ok(words),
        Err(_) => Err(DispatchError::MalformedCommand),
    }
}

} // verus!
