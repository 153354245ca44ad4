//! The decision step of the read-eval-print loop.
//!
//! The surrounding program reads one event at a time — a line of input,
//! or the end of the stream — and performs the action this step picks:
//! apply a well-formed command to its number type, report an error, or
//! say farewell and stop.  Every decision that does not depend on the
//! number type is made, and verified, here.

use vstd::prelude::*;
use crate::chars::chars_of;
use crate::tokens::{spec_tokens, tokenize};
use crate::eval::{
    parse_command, spec_parse, Command, EvalError, command_corresponds, error_corresponds,
};

verus! {

/// One thing that can happen on the input side.
pub enum ReplEvent {
    /// A line was read.
    Line(String),
    /// No more input is available.
    EndOfStream,
}

/// What the loop must do next.
pub enum ReplAction {
    /// Apply the command's operation to its two operand tokens, print
    /// the result or its numeric error, and keep going.
    Compute(Command),
    /// Report this error and keep going.
    Reject(EvalError),
    /// Say farewell and stop; the process then exits successfully.
    Farewell,
}

/// The word `exit` in any mixture of upper and lower case.
pub open spec fn is_exit_word(t: Seq<char>) -> bool {
    &&& t.len() == 4
    &&& (t[0] == 'e' || t[0] == 'E')
    &&& (t[1] == 'x' || t[1] == 'X')
    &&& (t[2] == 'i' || t[2] == 'I')
    &&& (t[3] == 't' || t[3] == 'T')
}

/// The word `quit` in any mixture of upper and lower case.
pub open spec fn is_quit_word(t: Seq<char>) -> bool {
    &&& t.len() == 4
    &&& (t[0] == 'q' || t[0] == 'Q')
    &&& (t[1] == 'u' || t[1] == 'U')
    &&& (t[2] == 'i' || t[2] == 'I')
    &&& (t[3] == 't' || t[3] == 'T')
}

/// A line that asks the loop to stop: nothing around the single word
/// `exit` or `quit`, in any case.
pub open spec fn spec_is_exit(s: Seq<char>) -> bool {
    &&& spec_tokens(s).len() == 1
    &&& (is_exit_word(spec_tokens(s)[0]) || is_quit_word(spec_tokens(s)[0]))
}

/// Does this token spell `exit` in any case?
fn exit_word(t: &Vec<char>) -> (r: bool)
    ensures
        r == is_exit_word(t@),
{
    t.len() == 4 && (t[0] == 'e' || t[0] == 'E') && (t[1] == 'x' || t[1] == 'X') && (t[2] == 'i'
        || t[2] == 'I') && (t[3] == 't' || t[3] == 'T')
}

/// Does this token spell `quit` in any case?
fn quit_word(t: &Vec<char>) -> (r: bool)
    ensures
        r == is_quit_word(t@),
{
    t.len() == 4 && (t[0] == 'q' || t[0] == 'Q') && (t[1] == 'u' || t[1] == 'U') && (t[2] == 'i'
        || t[2] == 'I') && (t[3] == 't' || t[3] == 'T')
}

/// Does this line ask the loop to stop?
pub fn line_is_exit(l: &str) -> (r: bool)
    ensures
        r == spec_is_exit(l@),
{
    let cs: Vec<char> = chars_of(l);
    let toks: Vec<Vec<char>> = tokenize(&cs);
    if toks.len() != 1 {
        return false;
    }
    proof {
        assert(toks@[0]@ == spec_tokens(l@)[0]);
    }
    exit_word(&toks[0]) || quit_word(&toks[0])
}

/// Decides what the loop does with one event.  The end of the stream and
/// an exit word are the only things that end the loop; an exit line is
/// never treated as a command.  Every other line is parsed: a well-formed
/// command is handed on to be computed, and a malformed one is rejected
/// with its exact error, so the loop itself never stops on an error.
pub fn repl_step(ev: ReplEvent) -> (a: ReplAction)
    ensures
        match ev {
            ReplEvent::EndOfStream => a matches ReplAction::Farewell,
            ReplEvent::Line(l) => {
                if spec_is_exit(l@) {
                    a matches ReplAction::Farewell
                } else {
                    match spec_parse(l@) {
                        Ok(g) => a matches ReplAction::Compute(c) && command_corresponds(c, g),
                        Err(f) => a matches ReplAction::Reject(e) && error_corresponds(e, f),
                    }
                }
            },
        },
{
    match ev {
        ReplEvent::EndOfStream => ReplAction::Farewell,
        ReplEvent::Line(l) => {
            if line_is_exit(l.as_str()) {
                ReplAction::Farewell
            } else {
                match parse_command(l.as_str()) {
                    Ok(c) => ReplAction::Compute(c),
                    Err(e) => ReplAction::Reject(e),
                }
            }
        },
    }
}

} // verus!
