use cli_prompt::or2ro;
use cli_prompt::style::{ask_text, error_text, success_text};

#[test]
fn some_ok_turns_into_ok_some() {
    let x: Option<Result<u8, i32>> = Some(Ok(7));
    assert_eq!(or2ro(x), Ok(Some(7)));
}

#[test]
fn some_err_keeps_the_error() {
    let x: Option<Result<u8, i32>> = Some(Err(-3));
    assert_eq!(or2ro(x), Err(-3));
}

#[test]
fn none_turns_into_ok_none() {
    let x: Option<Result<u8, i32>> = None;
    assert_eq!(or2ro(x), Ok(None));
}

#[test]
fn ask_text_wraps_the_question_in_bold() {
    assert_eq!(ask_text("Name?"), "\u{1B}[1mName?\u{1B}[0m");
}

#[test]
fn success_text_wraps_the_message_in_bold_bright_green() {
    assert_eq!(success_text("done"), "\u{1B}[1;92mdone\u{1B}[0m");
}

#[test]
fn error_text_wraps_the_message_in_bold_bright_red() {
    assert_eq!(error_text("failed"), "\u{1B}[1;91mfailed\u{1B}[0m");
}
