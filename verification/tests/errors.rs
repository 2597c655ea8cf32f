use rusty_exercise::helpers::{error_chain_fmt, Report};
use rusty_exercise::types::response::IdentityError;

#[test]
fn error_chain_lists_every_cause() {
    let causes = vec!["middle".to_string(), "root".to_string()];
    assert_eq!(
        error_chain_fmt("top", &causes),
        "top\n\nCaused by: \n\tmiddle\nCaused by: \n\troot\n"
    );
    assert_eq!(error_chain_fmt("alone", &vec![]), "alone\n\n");
}

#[test]
fn report_context_wraps_the_error() {
    let rep = Report::msg("inner").context("outer");
    assert_eq!(rep.chain(), &vec!["outer".to_string(), "inner".to_string()]);
    assert_eq!(rep.message(), "outer");
    assert!(Report::from_chain(vec![]).is_none());
    assert_eq!(Report::from_chain(vec!["a".to_string()]).unwrap().message(), "a");
}

#[test]
fn status_codes_of_identity_errors() {
    assert_eq!(IdentityError::ValidationError("bad".to_string()).status_code(), 400);
    assert_eq!(IdentityError::InvalidCredentials(Report::msg("x")).status_code(), 401);
    assert_eq!(IdentityError::UnexpectedError(Report::msg("x")).status_code(), 500);
}

#[test]
fn response_messages_of_identity_errors() {
    assert_eq!(IdentityError::ValidationError("bad name".to_string()).response_message(), "bad name");
    assert_eq!(
        IdentityError::InvalidCredentials(Report::msg("x")).response_message(),
        "Invalid credentials"
    );
    assert_eq!(
        IdentityError::UnexpectedError(Report::msg("x")).response_message(),
        "An unexpected error occurred"
    );
}

#[test]
fn display_and_debug_of_identity_errors() {
    let v = IdentityError::ValidationError("bad name".to_string());
    assert_eq!(v.to_message(), "bad name");
    assert_eq!(v.debug_text(), "bad name\n\n");

    let i = IdentityError::InvalidCredentials(Report::msg("User not found"));
    assert_eq!(i.to_message(), "Invalid credentials");
    assert_eq!(i.debug_text(), "Invalid credentials\n\nCaused by: \n\tUser not found\n");

    let u = IdentityError::UnexpectedError(Report::msg("root").context("outer"));
    assert_eq!(u.to_message(), "outer");
    assert_eq!(u.debug_text(), "outer\n\nCaused by: \n\troot\n");
}
