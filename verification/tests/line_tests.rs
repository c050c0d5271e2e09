use cli_prompt::line::trim_line;
use cli_prompt::yesno;

#[test]
fn trim_line_strips_cr_and_lf() {
    assert_eq!(trim_line("hello\r\n"), "hello");
}

#[test]
fn trim_line_strips_a_bare_lf() {
    assert_eq!(trim_line("hello\n"), "hello");
}

#[test]
fn trim_line_keeps_a_line_without_a_terminator() {
    assert_eq!(trim_line("hello"), "hello");
}

#[test]
fn trim_line_keeps_a_cr_not_followed_by_the_first_lf() {
    assert_eq!(trim_line("a\rb\n"), "a\rb");
}

#[test]
fn trim_line_cuts_at_the_first_lf_only() {
    assert_eq!(trim_line("one\ntwo\n"), "one");
    assert_eq!(trim_line("\nrest"), "");
}

#[test]
fn trim_line_of_an_empty_line_is_empty() {
    assert_eq!(trim_line(""), "");
    assert_eq!(trim_line("\r\n"), "");
}

#[test]
fn empty_answer_returns_the_default() {
    assert_eq!(yesno(false, ""), Some(false));
    assert_eq!(yesno(true, ""), Some(true));
}

#[test]
fn y_means_yes() {
    assert_eq!(yesno(false, "y"), Some(true));
}

#[test]
fn capital_n_means_no() {
    assert_eq!(yesno(false, "N"), Some(false));
}

#[test]
fn maybe_is_indeterminate() {
    assert_eq!(yesno(false, "maybe"), None);
}

#[test]
fn longer_prefixes_of_yes_and_no_are_recognised() {
    assert_eq!(yesno(false, "ye"), Some(true));
    assert_eq!(yesno(false, "yes"), Some(true));
    assert_eq!(yesno(false, "YES"), Some(true));
    assert_eq!(yesno(true, "no"), Some(false));
    assert_eq!(yesno(true, "No"), Some(false));
}

#[test]
fn near_misses_are_indeterminate() {
    assert_eq!(yesno(false, "yess"), None);
    assert_eq!(yesno(false, "nope"), None);
    assert_eq!(yesno(false, "x"), None);
    assert_eq!(yesno(false, "yo"), None);
    assert_eq!(yesno(false, "ns"), None);
}
