//! The exact text of every line and message the program prints: prompts,
//! error messages, the echoed equation and the root report.
//!
//! Numeric values appear in these lines only as already-rendered text, handed
//! in by the caller, so every function here is a plain string builder with an
//! exact contract.

use vstd::prelude::*;

use crate::numtext::{decimal_digits, decimal_string};
use crate::solver::RootClass;

verus! {

/// The message rejecting a zero leading coefficient.
pub fn nonzero_a_message() -> (s: String)
    ensures
        s@ == "coefficient a should be non-zero"@,
{
    String::from_str("coefficient a should be non-zero")
}

/// The message for a token that is not a floating-point literal; the same
/// wording the standard library's float parser reports.
pub fn parse_error_message() -> (s: String)
    ensures
        s@ == "invalid float literal"@,
{
    String::from_str("invalid float literal")
}

/// The message for a coefficient file that does not hold exactly three
/// tokens: `expected 3 coefficients, found {found}`.
pub fn wrong_count_message(found: usize) -> (s: String)
    ensures
        s@ == "expected 3 coefficients, found "@ + decimal_digits(found as int),
{
    let mut s = String::from_str("expected 3 coefficients, found ");
    let digits = decimal_string(found);
    s.append(digits.as_str());
    s
}

/// An error report as printed to the error stream: `Error: {msg}`.
pub fn error_line(msg: &str) -> (s: String)
    ensures
        s@ == "Error: "@ + msg@,
{
    let mut s = String::from_str("Error: ");
    s.append(msg);
    s
}

/// The usage report for a call with too many arguments:
/// `Usage: {prog} [filename]`.
pub fn usage_line(prog: &str) -> (s: String)
    ensures
        s@ == "Usage: "@ + prog@ + " [filename]"@,
{
    let mut s = String::from_str("Usage: ");
    s.append(prog);
    s.append(" [filename]");
    s
}

/// The echoed equation, over the coefficients' rendered text:
/// `Equation: ({a}) * x ^ 2 + ({b}) * x + ({c})`.
pub fn equation_line(a: &str, b: &str, c: &str) -> (s: String)
    ensures
        s@ == "Equation: ("@ + a@ + ") * x ^ 2 + ("@ + b@ + ") * x + ("@ + c@ + ")"@,
{
    let mut s = String::from_str("Equation: (");
    s.append(a);
    s.append(") * x ^ 2 + (");
    s.append(b);
    s.append(") * x + (");
    s.append(c);
    s.append(")");
    s
}

/// The reported result line for each root classification, over the roots'
/// rendered text; `x1` and `x2` are ignored where the classification carries
/// fewer roots.
pub open spec fn result_text(r: RootClass, x1: Seq<char>, x2: Seq<char>) -> Seq<char> {
    match r {
        RootClass::NoRealRoots => "There are no real roots"@,
        RootClass::OneRealRoot => "There is one real root: "@ + x1,
        RootClass::TwoRealRoots => "There are two real roots: "@ + x1 + " and "@ + x2,
    }
}

/// Builds the result line, exactly as `result_text` describes.
pub fn result_line(r: RootClass, x1: &str, x2: &str) -> (s: String)
    ensures
        s@ == result_text(r, x1@, x2@),
{
    match r {
        RootClass::NoRealRoots => String::from_str("There are no real roots"),
        RootClass::OneRealRoot => {
            let mut s = String::from_str("There is one real root: ");
            s.append(x1);
            s
        },
        RootClass::TwoRealRoots => {
            let mut s = String::from_str("There are two real roots: ");
            s.append(x1);
            s.append(" and ");
            s.append(x2);
            s
        },
    }
}

} // verus!
