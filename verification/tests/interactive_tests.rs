use quadratic::interactive::{
    coef_label, interactive_step, prompt_line, retry_message, Action, Coef, LineEvent,
};
use quadratic::text::trim_bytes;

fn event_for(line: &str) -> LineEvent {
    let trimmed = String::from_utf8(trim_bytes(&line.as_bytes().to_vec())).unwrap();
    match trimmed.parse::<f64>() {
        Ok(v) => LineEvent::Numeric { is_zero: v == 0.0 },
        Err(_) => LineEvent::NotNumeric,
    }
}

#[test]
fn zero_for_a_is_rejected_then_five_is_accepted() {
    // The stream offers "0\n" and then "5\n" for coefficient a.
    let first = event_for("0\n");
    assert_eq!(interactive_step(Coef::A, first), Action::Retry);
    assert_eq!(
        retry_message(Coef::A, first),
        "coefficient a should be non-zero"
    );
    let second = event_for("5\n");
    assert_eq!(interactive_step(Coef::A, second), Action::Accept);
}

#[test]
fn zero_is_accepted_for_b_and_c() {
    let zero = event_for("0\n");
    assert_eq!(interactive_step(Coef::B, zero), Action::Accept);
    assert_eq!(interactive_step(Coef::C, zero), Action::Accept);
}

#[test]
fn unparsable_line_is_retried() {
    let ev = event_for("pi\n");
    assert_eq!(ev, LineEvent::NotNumeric);
    for c in [Coef::A, Coef::B, Coef::C] {
        assert_eq!(interactive_step(c, ev), Action::Retry);
        assert_eq!(retry_message(c, ev), "invalid float literal");
    }
}

#[test]
fn empty_line_is_retried() {
    assert_eq!(interactive_step(Coef::B, event_for("\n")), Action::Retry);
}

#[test]
fn end_of_input_gives_up() {
    assert_eq!(
        interactive_step(Coef::A, LineEvent::EndOfInput),
        Action::GiveUp
    );
}

#[test]
fn prompts_name_each_coefficient() {
    assert_eq!(coef_label(Coef::A), "a");
    assert_eq!(coef_label(Coef::B), "b");
    assert_eq!(coef_label(Coef::C), "c");
    assert_eq!(prompt_line(Coef::A), "Enter coefficient a: ");
    assert_eq!(prompt_line(Coef::B), "Enter coefficient b: ");
    assert_eq!(prompt_line(Coef::C), "Enter coefficient c: ");
}
