//! Terminal scrollback, cleaned of control sequences and handed to an
//! editor.
//!
//! What is stripped is whatever matches one regular expression.  It has four
//! alternatives: control sequences (`ESC [`, parameter bytes, intermediate
//! bytes, a final byte), independent control functions (`ESC` and one byte
//! from `` ` `` to `~`), command strings (`ESC` and one of `_ P ] ^`, then
//! printable text up to `ESC \` or BEL), and the carriage return.

use crate::command::{capturing, texts, Invocation, InvocationView};
use crate::text::{trim, trimmed};
use vstd::prelude::*;
use vstd::utf8::encode_utf8;

verus! {

/// Matches a control sequence.
pub const CONTROL_SEQUENCES: &'static str = r"\x1b\[[\x30-\x3F]*[\x20-\x2F]*[\x40-\x7E]";

/// Matches an independent control function.
pub const INDEPENDENT_CONTROL_FUNCTIONS: &'static str = r"\x1b[\x60-\x7E]";

/// Matches a command string with its terminator.
pub const COMMAND_STRINGS: &'static str =
    r"\x1b[\x5F\x50\x5D\x5E][\x08-\x0D\x20-\x7E]*(\x1b\\|\x07)";

/// Matches a carriage return.
pub const CARRIAGE_RETURN: &'static str = r"\r";

/// One group that holds the four patterns as alternatives, in this order.
pub open spec fn control_pattern() -> Seq<char> {
    "("@ + CONTROL_SEQUENCES@ + "|"@ + INDEPENDENT_CONTROL_FUNCTIONS@ + "|"@ + COMMAND_STRINGS@
        + "|"@ + CARRIAGE_RETURN@ + ")"@
}

/// The regular expression that matches everything to be stripped.
pub fn pattern() -> (p: String)
    ensures
        p@ == control_pattern(),
{
    let mut p = String::from_str("(");
    p.append(CONTROL_SEQUENCES);
    p.append("|");
    p.append(INDEPENDENT_CONTROL_FUNCTIONS);
    p.append("|");
    p.append(COMMAND_STRINGS);
    p.append("|");
    p.append(CARRIAGE_RETURN);
    p.append(")");
    assert(p@ =~= control_pattern());
    p
}

/// The error of `Regex::new`, carried along unopened.
#[verifier::external_type_specification]
#[verifier::external_body]
pub struct ExRegexError(regex::Error);

/// Why scrollback could not be cleaned.
#[derive(Debug, PartialEq)]
pub enum ScrollbackError {
    /// The regular expression was turned down when it was compiled.
    Pattern(regex::Error),
}

/// `haystack` with every match of the regular expression `pattern`, taken
/// from left to right without overlap, replaced by what `replacement`
/// expands to.  This is what `Regex::replace_all` returns for a regex
/// compiled from `pattern`.
pub uninterp spec fn replaced(
    pattern: Seq<char>,
    haystack: Seq<char>,
    replacement: Seq<char>,
) -> Seq<char>;

/// Whether `Regex::new` takes `pattern`: whether it is a regular expression
/// in the crate's syntax whose compiled form stays within the size limit
/// that the crate sets by default.
pub uninterp spec fn compiles(pattern: Seq<char>) -> bool;

/// Compiles `pattern` with `Regex::new` and, where that succeeds, runs
/// `Regex::replace_all` on `haystack`.  A pattern that does not compile gives
/// the compiler's error, of which nothing is claimed; which patterns compile
/// is left to [`compiles`].
#[verifier::external_body]
fn replace_all(pattern: &str, haystack: &str, replacement: &str) -> (outcome: Result<
    String,
    regex::Error,
>)
    ensures
        outcome is Ok <==> compiles(pattern@),
        outcome matches Ok(text) ==> text@ == replaced(pattern@, haystack@, replacement@),
{
    match regex::Regex::new(pattern) {
        Ok(regex) => Ok(regex.replace_all(haystack, replacement).into_owned()),
        Err(error) => Err(error),
    }
}

/// `input` as it is shown in an editor: trimmed, and with every control
/// sequence and carriage return removed.
pub open spec fn cleaned(input: Seq<char>) -> Seq<char> {
    replaced(control_pattern(), trimmed(input), Seq::empty())
}

/// Passes on the text that the replacement produced, or reports why there is
/// none.
pub fn stripped(outcome: Result<String, regex::Error>) -> (text: Result<String, ScrollbackError>)
    ensures
        match outcome {
            Ok(clean) => text == Ok::<String, ScrollbackError>(clean),
            Err(error) => text == Err::<String, ScrollbackError>(ScrollbackError::Pattern(error)),
        },
{
    match outcome {
        Ok(clean) => Ok(clean),
        Err(error) => Err(ScrollbackError::Pattern(error)),
    }
}

/// Trims `input` and removes every control sequence and carriage return from
/// it.  Whether there is text does not depend on `input`: there is none
/// exactly where the regular expression is turned down.
pub fn strip_control_sequences(input: &str) -> (text: Result<String, ScrollbackError>)
    ensures
        text is Ok <==> compiles(control_pattern()),
        text matches Ok(clean) ==> clean@ == cleaned(input@),
{
    let expression = pattern();
    proof {
        reveal_strlit("");
        assert(""@ =~= Seq::<char>::empty());
    }
    stripped(replace_all(expression.as_str(), trim(input), ""))
}

/// The editor `editor_name`, fed the bytes of `text` on its standard input.
pub open spec fn editing(editor_name: Seq<char>, text: Seq<char>) -> InvocationView {
    capturing(editor_name, Seq::empty(), Some(encode_utf8(text)))
}

/// The command that opens `text` in the editor `editor_name`.
pub fn edit(editor_name: &str, text: &str) -> (invocation: Invocation)
    ensures
        invocation@ == editing(editor_name@, text@),
{
    let args: Vec<String> = Vec::new();
    assert(texts(args@) =~= Seq::empty());
    Invocation::capturing(editor_name, args, Some(text.as_bytes_vec()))
}

/// The command that opens the cleaned `input` in the editor `editor_name`.
/// There is none exactly where the regular expression is turned down, whatever
/// the editor and the input.
pub fn scrollback(editor_name: &str, input: &str) -> (invocation: Result<
    Invocation,
    ScrollbackError,
>)
    ensures
        invocation is Ok <==> compiles(control_pattern()),
        invocation matches Ok(command) ==> command@ == editing(editor_name@, cleaned(input@)),
{
    match strip_control_sequences(input) {
        Ok(clean) => Ok(edit(editor_name, clean.as_str())),
        Err(error) => Err(error),
    }
}

} // verus!
