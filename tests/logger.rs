use rusttuts::logger::{bool_str, log_line, render_line, Connective};

#[test]
fn and_form_of_the_demo() {
    let left = 1i32 + 1 == 2i32;
    let right = 2i32 * 2 == 4i32;
    let line = log_line(Connective::And, "1i32 + 1 == 2i32", "2i32 * 2 == 4i32", left, right);
    assert_eq!(line, "\"1i32 + 1 == 2i32\" and \"2i32 * 2 == 4i32\" is true");
}

#[test]
fn or_form_prints_the_disjunction() {
    let line = log_line(Connective::Or, "1 == 2", "3 == 3", 1 == 2, 3 == 3);
    assert_eq!(line, "\"1 == 2\" or \"3 == 3\" is true");
}

#[test]
fn value_follows_the_connective_for_all_pairs() {
    for a in [false, true] {
        for b in [false, true] {
            assert_eq!(Connective::And.apply(a, b), a && b);
            assert_eq!(Connective::Or.apply(a, b), a || b);
            let and_line = render_line(Connective::And, "l", "r", a, b);
            assert_eq!(and_line, format!("l and r is {}", a && b));
            let or_line = render_line(Connective::Or, "l", "r", a, b);
            assert_eq!(or_line, format!("l or r is {}", a || b));
        }
    }
}

#[test]
fn quoting_escapes_the_source_text() {
    let line = log_line(Connective::And, "s == \"x\"", "t", false, true);
    assert_eq!(line, "\"s == \\\"x\\\"\" and \"t\" is false");
}

#[test]
fn words_and_bool_texts() {
    assert_eq!(Connective::And.word(), "and");
    assert_eq!(Connective::Or.word(), "or");
    assert_eq!(bool_str(true), "true");
    assert_eq!(bool_str(false), "false");
}
