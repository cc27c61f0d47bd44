use newsletter::utils::{
    error_chain_fmt, get_redirect_if_session_without_user_id, SessionFailure,
};
use uuid::Uuid;

#[test]
fn an_error_without_cause_is_reported_by_its_message_and_an_empty_line() {
    assert_eq!(error_chain_fmt("Something failed", &vec![]), "Something failed\n\n");
}

#[test]
fn each_cause_is_reported_under_its_own_heading() {
    let causes = vec!["the first cause".to_string(), "the root cause".to_string()];
    assert_eq!(
        error_chain_fmt("Something failed", &causes),
        "Something failed\n\nCaused by:\n\tthe first cause\nCaused by:\n\tthe root cause\n"
    );
}

#[test]
fn an_empty_message_and_an_empty_cause_keep_their_lines() {
    assert_eq!(
        error_chain_fmt("", &vec![String::new()]),
        "\n\nCaused by:\n\t\n"
    );
}

#[test]
fn a_session_without_user_is_sent_to_the_login_page() {
    let redirect = get_redirect_if_session_without_user_id(Ok(None)).unwrap().unwrap();
    assert_eq!(redirect.status_code, 303);
    assert_eq!(redirect.location, "/login");
}

#[test]
fn a_session_with_a_user_passes() {
    let outcome = get_redirect_if_session_without_user_id(Ok(Some(Uuid::from_u128(7))));
    assert!(matches!(outcome, Ok(None)));
}

#[test]
fn a_failing_session_is_reported() {
    let outcome = get_redirect_if_session_without_user_id(Err(SessionFailure));
    assert!(matches!(outcome, Err(SessionFailure)));
}
