//! Classification of a quadratic equation's discriminant.
//!
//! The discriminant `D = b^2 - 4*a*c` itself is a floating-point quantity and
//! is computed outside the library; what is verified here is the decision it
//! drives: its sign determines how many real roots the equation has.  For
//! `a != 0`: a negative discriminant means no real roots, zero means one real
//! root `-b / (2a)`, and a positive one means two real roots
//! `(-b + sqrt(D)) / (2a)` and `(-b - sqrt(D)) / (2a)`.

use vstd::prelude::*;

verus! {

/// The sign of the discriminant, as a total order against zero (so a caller
/// must place NaN explicitly rather than let a comparison swallow it).
#[derive(Clone, Copy, Debug, PartialEq, Eq, Structural)]
pub enum DiscriminantSign {
    Negative,
    Zero,
    Positive,
}

/// How many real roots the equation has.
#[derive(Clone, Copy, Debug, PartialEq, Eq, Structural)]
pub enum RootClass {
    NoRealRoots,
    OneRealRoot,
    TwoRealRoots,
}

/// The root classification each discriminant sign leads to.
pub open spec fn class_of_sign(d: DiscriminantSign) -> RootClass {
    match d {
        DiscriminantSign::Negative => RootClass::NoRealRoots,
        DiscriminantSign::Zero => RootClass::OneRealRoot,
        DiscriminantSign::Positive => RootClass::TwoRealRoots,
    }
}

/// Classifies the equation by the sign of its discriminant, exactly as
/// `class_of_sign` describes.
pub fn classify_roots(d: DiscriminantSign) -> (r: RootClass)
    ensures
        r == class_of_sign(d),
{
    match d {
        DiscriminantSign::Negative => RootClass::NoRealRoots,
        DiscriminantSign::Zero => RootClass::OneRealRoot,
        DiscriminantSign::Positive => RootClass::TwoRealRoots,
    }
}

} // verus!
