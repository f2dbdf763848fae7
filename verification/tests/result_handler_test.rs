use colored::Colorize;
use tmgr::cli::result_handler::handle_result;
use tmgr::model::{TmgrError, TmgrErrorKind};

#[test]
fn given_ok_result_when_handling_result_then_passed_in_string_should_be_returned() {
    let result = Ok("ok".to_string());
    let handler = handle_result(result);
    assert_eq!(handler.result_string(), "ok".to_string());
}

#[test]
fn given_ok_result_when_handling_result_then_exit_code_0_should_be_returned() {
    let result = Ok("ok".to_string());
    let handler = handle_result(result);
    assert_eq!(handler.exit_code(), 0);
}

#[test]
fn given_error_result_when_handling_result_then_error_string_should_be_returned() {
    let result: Result<String, TmgrError> = Err(TmgrError::new(
        TmgrErrorKind::AddCommand,
        "An error occurred:".to_string(),
    ));
    let handler = handle_result(result);
    let expected = format!(
        "{}: An error occurred: (tmgr error: Add command error)",
        "error".red()
    );
    assert_eq!(handler.result_string(), expected);
}

#[test]
fn given_error_result_when_handling_result_then_exit_code_1_should_be_returned() {
    let result: Result<String, TmgrError> = Err(TmgrError::new(
        TmgrErrorKind::AddCommand,
        "An error occurred:".to_string(),
    ));
    let handler = handle_result(result);
    assert_eq!(handler.exit_code(), 1);
}

#[test]
fn error_text_ends_with_the_error_and_starts_with_the_label() {
    let result: Result<String, TmgrError> =
        Err(TmgrError::new(TmgrErrorKind::ViewCommand, "boom".to_string()));
    let handler = handle_result(result);
    assert!(handler.result_string().ends_with(": boom (tmgr error: View command error)"));
    assert!(handler.result_string().contains("error"));
}
