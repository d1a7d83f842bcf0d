//! Validation of coefficients read from a file.
//!
//! The file is split into whitespace-separated tokens and each token is
//! parsed as a 64-bit float outside the library; what is verified here is the
//! verdict over the parse outcomes.  In order: if any token failed to parse
//! the file is rejected as unparsable, then the token count must be exactly
//! three, then the leading coefficient `a` must be non-zero.  On success the
//! three parsed values are the coefficients `(a, b, c)` in file order.

use vstd::prelude::*;

use crate::numtext::decimal_digits;
use crate::render::{nonzero_a_message, parse_error_message, wrong_count_message};

verus! {

/// What parsing one token as a 64-bit float produced: a number (of which
/// only zeroness matters to validation), or a parse failure.
#[derive(Clone, Copy, Debug, PartialEq, Eq, Structural)]
pub enum TokenOutcome {
    Numeric { is_zero: bool },
    NotNumeric,
}

/// Why a coefficient file was rejected.
#[derive(Clone, Copy, Debug, PartialEq, Eq, Structural)]
pub enum FileError {
    /// Some token is not a valid floating-point literal.
    Parse,
    /// The token count is not exactly three.
    Format { found: usize },
    /// The leading coefficient `a` is zero.
    Validation,
}

/// Whether some outcome is a parse failure.
pub open spec fn has_parse_failure(outs: Seq<TokenOutcome>) -> bool {
    exists|i: int| 0 <= i < outs.len() && outs[i] is NotNumeric
}

/// The verdict over a file's parse outcomes: parse failures are reported
/// first, then a wrong token count, then a zero leading coefficient.
pub open spec fn spec_verdict(outs: Seq<TokenOutcome>) -> Result<(), FileError> {
    if has_parse_failure(outs) {
        Err(FileError::Parse)
    } else if outs.len() != 3 {
        Err(FileError::Format { found: outs.len() as usize })
    } else if outs[0] == (TokenOutcome::Numeric { is_zero: true }) {
        Err(FileError::Validation)
    } else {
        Ok(())
    }
}

/// Checks a file's parse outcomes, exactly as `spec_verdict` describes.
/// `Ok` means the three parsed values are acceptable coefficients.
pub fn check_outcomes(outs: &Vec<TokenOutcome>) -> (r: Result<(), FileError>)
    ensures
        r == spec_verdict(outs@),
{
    let n = outs.len();
    let mut i: usize = 0;
    while i < n
        invariant
            i <= n,
            n == outs@.len(),
            forall|j: int| 0 <= j < i ==> !(outs@[j] is NotNumeric),
        decreases n - i,
    {
        if matches!(outs[i], TokenOutcome::NotNumeric) {
            return Err(FileError::Parse);
        }
        i = i + 1;
    }
    if n != 3 {
        return Err(FileError::Format { found: n });
    }
    match outs[0] {
        TokenOutcome::Numeric { is_zero: true } => Err(FileError::Validation),
        _ => Ok(()),
    }
}

impl FileError {
    /// The message reported for this rejection, one line, without the
    /// `Error: ` prefix.
    pub fn message(&self) -> (s: String)
        ensures
            self is Parse ==> s@ == "invalid float literal"@,
            self matches FileError::Format { found } ==> s@
                == "expected 3 coefficients, found "@ + decimal_digits(found as int),
            self is Validation ==> s@ == "coefficient a should be non-zero"@,
    {
        match self {
            FileError::Parse => parse_error_message(),
            FileError::Format { found } => wrong_count_message(*found),
            FileError::Validation => nonzero_a_message(),
        }
    }
}

} // verus!
