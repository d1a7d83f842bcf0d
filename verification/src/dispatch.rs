//! Selection of the coefficient source from the command line's argument
//! count (the program name included): no argument means the interactive
//! dialogue, one argument names a coefficient file, anything else is a usage
//! error.

use vstd::prelude::*;

verus! {

/// Where the coefficients come from.
#[derive(Clone, Copy, Debug, PartialEq, Eq, Structural)]
pub enum RunMode {
    Interactive,
    FromFile,
    Usage,
}

/// The mode chosen for an argument count.
pub open spec fn spec_mode(arg_count: int) -> RunMode {
    if arg_count == 1 {
        RunMode::Interactive
    } else if arg_count == 2 {
        RunMode::FromFile
    } else {
        RunMode::Usage
    }
}

/// Chooses the coefficient source, exactly as `spec_mode` describes.
pub fn select_mode(arg_count: usize) -> (m: RunMode)
    ensures
        m == spec_mode(arg_count as int),
{
    if arg_count == 1 {
        RunMode::Interactive
    } else if arg_count == 2 {
        RunMode::FromFile
    } else {
        RunMode::Usage
    }
}

} // verus!
