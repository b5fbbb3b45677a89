use map_data::confirm::{answer_decision, interpret_answer};

#[test]
fn yes_and_no_answers_are_read() {
    assert_eq!(interpret_answer("y\n"), Some(true));
    assert_eq!(interpret_answer("  Yes  \n"), Some(true));
    assert_eq!(interpret_answer("N\n"), Some(false));
    assert_eq!(interpret_answer("no"), Some(false));
}

#[test]
fn other_answers_ask_again() {
    assert_eq!(interpret_answer("\n"), None);
    assert_eq!(interpret_answer(""), None);
    assert_eq!(interpret_answer("maybe"), None);
}

#[test]
fn decision_reads_first_character() {
    assert_eq!(answer_decision("yes"), Some(true));
    assert_eq!(answer_decision("nope"), Some(false));
    assert_eq!(answer_decision("Yes"), None);
    assert_eq!(answer_decision(""), None);
}
