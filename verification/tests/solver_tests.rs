use quadratic::dispatch::{select_mode, RunMode};
use quadratic::numtext::decimal_string;
use quadratic::render::{equation_line, error_line, result_line, usage_line, wrong_count_message};
use quadratic::solver::{classify_roots, DiscriminantSign, RootClass};

fn discriminant(a: f64, b: f64, c: f64) -> f64 {
    b.powi(2) - 4.0 * a * c
}

fn sign_of(d: f64) -> DiscriminantSign {
    match d.total_cmp(&0.0) {
        std::cmp::Ordering::Less => DiscriminantSign::Negative,
        std::cmp::Ordering::Equal => DiscriminantSign::Zero,
        std::cmp::Ordering::Greater => DiscriminantSign::Positive,
    }
}

#[test]
fn negative_discriminant_means_no_roots() {
    let d = discriminant(1.0, 0.0, 1.0);
    assert_eq!(d, -4.0);
    let class = classify_roots(sign_of(d));
    assert_eq!(class, RootClass::NoRealRoots);
    assert_eq!(result_line(class, "", ""), "There are no real roots");
}

#[test]
fn zero_discriminant_means_one_root() {
    let (a, b, c) = (1.0f64, 2.0f64, 1.0f64);
    let d = discriminant(a, b, c);
    assert_eq!(d, 0.0);
    let class = classify_roots(sign_of(d));
    assert_eq!(class, RootClass::OneRealRoot);
    let x = -b / (2.0 * a);
    assert_eq!(x, -1.0);
    assert_eq!(
        result_line(class, &format!("{x}"), ""),
        "There is one real root: -1"
    );
}

#[test]
fn positive_discriminant_means_two_ordered_roots() {
    let (a, b, c) = (1.0f64, -3.0f64, 2.0f64);
    let d = discriminant(a, b, c);
    assert_eq!(d, 1.0);
    let class = classify_roots(sign_of(d));
    assert_eq!(class, RootClass::TwoRealRoots);
    let x1 = (-b + d.sqrt()) / (2.0 * a);
    let x2 = (-b - d.sqrt()) / (2.0 * a);
    assert_eq!((x1, x2), (2.0, 1.0));
    assert!(x1 >= x2);
    // Each root satisfies the equation within floating-point tolerance.
    for x in [x1, x2] {
        assert!((a * x * x + b * x + c).abs() < 1e-9);
    }
    assert_eq!(
        result_line(class, &format!("{x1}"), &format!("{x2}")),
        "There are two real roots: 2 and 1"
    );
}

#[test]
fn equation_is_echoed_with_parenthesized_coefficients() {
    assert_eq!(
        equation_line("1", "-3", "2"),
        "Equation: (1) * x ^ 2 + (-3) * x + (2)"
    );
}

#[test]
fn argument_count_selects_the_source() {
    assert_eq!(select_mode(1), RunMode::Interactive);
    assert_eq!(select_mode(2), RunMode::FromFile);
    // Two positional arguments (three with the program name) are a usage error.
    assert_eq!(select_mode(3), RunMode::Usage);
    assert_eq!(select_mode(0), RunMode::Usage);
    assert_eq!(select_mode(7), RunMode::Usage);
}

#[test]
fn usage_and_error_lines() {
    assert_eq!(usage_line("quadratic"), "Usage: quadratic [filename]");
    assert_eq!(
        error_line("coefficient a should be non-zero"),
        "Error: coefficient a should be non-zero"
    );
}

#[test]
fn decimal_rendering_is_exact() {
    assert_eq!(decimal_string(0), "0");
    assert_eq!(decimal_string(7), "7");
    assert_eq!(decimal_string(10), "10");
    assert_eq!(decimal_string(42), "42");
    assert_eq!(decimal_string(305), "305");
    assert_eq!(decimal_string(usize::MAX), format!("{}", usize::MAX));
}

#[test]
fn wrong_count_message_quotes_the_count() {
    assert_eq!(wrong_count_message(0), "expected 3 coefficients, found 0");
    assert_eq!(wrong_count_message(12), "expected 3 coefficients, found 12");
}
