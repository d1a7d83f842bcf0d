//! The interactive coefficient dialogue.
//!
//! Coefficients `a`, `b`, `c` are requested in that order, one per line of
//! input.  Reading and float parsing happen outside the library; what is
//! verified here is the decision taken on each line: accept the value and
//! move on, reject it and ask again (a value that does not parse, or a zero
//! for the leading coefficient `a`), or give up because the input stream
//! ended.  A rejection is never fatal: the same coefficient is requested
//! again, without any bound on the number of attempts.

use vstd::prelude::*;

use crate::render::{nonzero_a_message, parse_error_message};

verus! {

/// Which coefficient is being requested.
#[derive(Clone, Copy, Debug, PartialEq, Eq, Structural)]
pub enum Coef {
    A,
    B,
    C,
}

/// What one line of input produced: a parsed number (of which only zeroness
/// matters to the decision), an unparsable line, or the end of the stream.
#[derive(Clone, Copy, Debug, PartialEq, Eq, Structural)]
pub enum LineEvent {
    Numeric { is_zero: bool },
    NotNumeric,
    EndOfInput,
}

/// What the dialogue does with one line of input.
#[derive(Clone, Copy, Debug, PartialEq, Eq, Structural)]
pub enum Action {
    /// The value is accepted; move to the next coefficient.
    Accept,
    /// The value is rejected; report and request the same coefficient again.
    Retry,
    /// The input stream ended; the dialogue cannot finish.
    GiveUp,
}

/// The decision for one line: a number is accepted unless it is a zero
/// offered for `a`; an unparsable line or a zero for `a` is retried; the end
/// of the stream ends the dialogue.
pub open spec fn spec_step(c: Coef, ev: LineEvent) -> Action {
    match ev {
        LineEvent::Numeric { is_zero } => if c is A && is_zero {
            Action::Retry
        } else {
            Action::Accept
        },
        LineEvent::NotNumeric => Action::Retry,
        LineEvent::EndOfInput => Action::GiveUp,
    }
}

/// Decides what to do with one line of input, exactly as `spec_step`
/// describes.
pub fn interactive_step(c: Coef, ev: LineEvent) -> (r: Action)
    ensures
        r == spec_step(c, ev),
{
    match ev {
        LineEvent::Numeric { is_zero } => {
            if matches!(c, Coef::A) && is_zero {
                Action::Retry
            } else {
                Action::Accept
            }
        },
        LineEvent::NotNumeric => Action::Retry,
        LineEvent::EndOfInput => Action::GiveUp,
    }
}

/// The name under which a coefficient is prompted for and reported.
pub open spec fn spec_label(c: Coef) -> Seq<char> {
    match c {
        Coef::A => "a"@,
        Coef::B => "b"@,
        Coef::C => "c"@,
    }
}

/// The coefficient's name, exactly as `spec_label` describes.
pub fn coef_label(c: Coef) -> (r: &'static str)
    ensures
        r@ == spec_label(c),
{
    match c {
        Coef::A => "a",
        Coef::B => "b",
        Coef::C => "c",
    }
}

/// The prompt line printed before each read: `Enter coefficient {name}: `
/// (with a trailing space, as prompts conventionally end).
pub fn prompt_line(c: Coef) -> (s: String)
    ensures
        s@ == "Enter coefficient "@ + spec_label(c) + ": "@,
{
    let mut s = String::from_str("Enter coefficient ");
    s.append(coef_label(c));
    s.append(": ");
    s
}

/// The message reported when a line is rejected: the float parser's own
/// wording for an unparsable line, and the non-zero demand for a zero `a`.
pub fn retry_message(c: Coef, ev: LineEvent) -> (s: String)
    requires
        spec_step(c, ev) is Retry,
    ensures
        ev is NotNumeric ==> s@ == "invalid float literal"@,
        ev is Numeric ==> s@ == "coefficient a should be non-zero"@,
{
    match ev {
        LineEvent::NotNumeric => parse_error_message(),
        _ => nonzero_a_message(),
    }
}

} // verus!
