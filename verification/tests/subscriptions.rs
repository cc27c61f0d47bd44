use newsletter::application::ApplicationBaseUrl;
use newsletter::domain::{NewSubscriber, SubscriberEmail, SubscriberName, SubscriptionStatus};
use newsletter::routes::subscriptions::{
    generate_subscription_token, insert_subscriber, send_confirmation_email,
    subscribe_controller, StoreTokenError, SubscribeError, SubscribeRequestBody, Subscription,
    SubscriptionEvent, SUBSCRIPTION_TOKEN_LENGTH,
};
use newsletter::routes::{DeliveryFailure, StorageFailure};

fn form(name: &str, email: &str) -> SubscribeRequestBody {
    SubscribeRequestBody {
        name: name.to_string(),
        email: email.to_string(),
    }
}

fn subscriber(name: &str, email: &str) -> NewSubscriber {
    NewSubscriber {
        email: SubscriberEmail::parse(email.to_string()).unwrap(),
        name: SubscriberName::parse(name.to_string()).unwrap(),
    }
}

fn requested(name: &str, email: &str) -> Subscription {
    subscribe_controller(
        Subscription::Idle,
        SubscriptionEvent::Requested {
            form: form(name, email),
            base_url: ApplicationBaseUrl("http://127.0.0.1".to_string()),
        },
    )
}

fn stored(state: Subscription) -> Subscription {
    subscribe_controller(state, SubscriptionEvent::Stored(Ok(())))
}

fn failed(state: Subscription) -> Subscription {
    subscribe_controller(state, SubscriptionEvent::Stored(Err(StorageFailure)))
}

/// The first address that follows `http` in `text`, up to what cannot be
/// part of it.
fn first_link(text: &str) -> String {
    let start = text.find("http").expect("no link");
    text[start..]
        .chars()
        .take_while(|c| !c.is_whitespace() && *c != '"' && *c != '<')
        .collect()
}

#[test]
fn given_a_valid_request_body_then_it_return_200() {
    let state = requested("le guin", "ursula_le_guin@gmail.com");
    let state = stored(stored(stored(stored(state))));
    let state = subscribe_controller(state, SubscriptionEvent::EmailSent(Ok(())));
    assert!(matches!(state, Subscription::Done(Ok(()))));
}

#[test]
fn then_it_should_save_the_new_subscriber() {
    let state = requested("le guin", "ursula_le_guin@gmail.com");
    assert!(matches!(state, Subscription::OpeningTransaction { .. }));
    let state = stored(state);
    let inserted = match &state {
        Subscription::InsertingSubscriber { row, .. } => {
            assert_eq!(row.email, "ursula_le_guin@gmail.com");
            assert_eq!(row.name, "le guin");
            assert_eq!(row.status, SubscriptionStatus::PendingConfirmation);
            assert_eq!(row.status.as_str(), "pending_confirmation");
            row.id
        }
        _ => panic!("no subscriber is due to be inserted"),
    };
    let state = stored(state);
    match &state {
        Subscription::StoringToken {
            subscriber_id,
            subscription_token,
            ..
        } => {
            assert_eq!(*subscriber_id, inserted);
            assert_eq!(subscription_token.len(), 25);
        }
        _ => panic!("no token is due to be stored"),
    }
    let state = stored(state);
    assert!(matches!(state, Subscription::Committing { .. }));
}

#[test]
fn given_a_new_subscription_then_it_should_send_a_confirmation_email() {
    let state = stored(stored(stored(requested("le guin", "ursula_le_guin@gmail.com"))));
    // Until the commit no email is due.
    assert!(matches!(state, Subscription::Committing { .. }));
    let state = stored(state);
    match &state {
        Subscription::SendingConfirmation { email } => {
            assert_eq!(email.recipient.as_ref(), "ursula_le_guin@gmail.com");
            assert_eq!(email.subject, "Welcome!");
        }
        _ => panic!("no email is due after the commit"),
    }
    // One email and no more: once it is sent the registration is done.
    let state = subscribe_controller(state, SubscriptionEvent::EmailSent(Ok(())));
    assert!(matches!(state, Subscription::Done(Ok(()))));
    let state = subscribe_controller(state, SubscriptionEvent::EmailSent(Ok(())));
    assert!(matches!(state, Subscription::Done(Ok(()))));
}

#[test]
fn given_a_new_subscription_then_it_should_send_a_confirmation_email_with_a_link() {
    let state = stored(stored(requested("le guin", "ursula_le_guin@gmail.com")));
    let token = match &state {
        Subscription::StoringToken {
            subscription_token, ..
        } => subscription_token.clone(),
        _ => panic!("no token is due to be stored"),
    };
    let state = stored(stored(state));
    match &state {
        Subscription::SendingConfirmation { email } => {
            let html = first_link(&email.html_content);
            let plain_text = first_link(&email.text_content);
            assert_eq!(plain_text, html);
            assert_eq!(
                html,
                format!(
                    "http://127.0.0.1/subscriptions/confirm?subscription_token={}",
                    token
                )
            );
        }
        _ => panic!("no email is due after the commit"),
    }
}

#[test]
fn given_fields_invalid_then_subscribe_returns_400() {
    let test_cases = vec![
        ("", "ursula_le_guin@gmail.com", "empty name"),
        ("Ursula", "", "empty email"),
        ("Ursula", "definitely-not-an-email", "invalid email"),
    ];

    for (name, email, error_description) in test_cases {
        let state = requested(name, email);
        match state {
            Subscription::Done(Err(error)) => {
                assert!(matches!(error, SubscribeError::ValidationError(_)));
                assert_eq!(
                    error.status_code(),
                    400,
                    "The API did not return 400 Bad Request when the payload was {}",
                    error_description
                )
            }
            _ => panic!("the registration went on with {}", error_description),
        }
    }
}

#[test]
fn an_invalid_name_is_reported_before_an_invalid_address() {
    match requested("(le guin)", "not an address") {
        Subscription::Done(Err(SubscribeError::ValidationError(message))) => assert_eq!(
            message,
            "The value is not a valid subscriber name. value = (le guin)"
        ),
        _ => panic!("the registration went on"),
    }
    match requested("le guin", "not an address") {
        Subscription::Done(Err(SubscribeError::ValidationError(message))) => assert_eq!(
            message,
            "The value provided is not a valid email address. value = not an address"
        ),
        _ => panic!("the registration went on"),
    }
}

#[test]
fn a_submission_is_validated_name_first() {
    let validated = NewSubscriber::try_from(form("le guin", "ursula_le_guin@gmail.com")).unwrap();
    assert_eq!(validated.name.as_ref(), "le guin");
    assert_eq!(validated.email.as_ref(), "ursula_le_guin@gmail.com");
    assert_eq!(
        NewSubscriber::try_from(form("", "")).err().unwrap(),
        "The value is not a valid subscriber name. value = "
    );
    assert_eq!(
        NewSubscriber::try_from(form("le guin", "")).err().unwrap(),
        "The value provided is not a valid email address. value = "
    );
}

#[test]
fn each_failure_of_the_store_ends_the_registration_with_its_own_error() {
    let opened = failed(requested("le guin", "ursula_le_guin@gmail.com"));
    assert!(matches!(
        opened,
        Subscription::Done(Err(SubscribeError::PoolError))
    ));

    let inserted = failed(stored(requested("le guin", "ursula_le_guin@gmail.com")));
    assert!(matches!(
        inserted,
        Subscription::Done(Err(SubscribeError::InsertSubscriberError))
    ));

    let token = failed(stored(stored(requested("le guin", "ursula_le_guin@gmail.com"))));
    assert!(matches!(
        token,
        Subscription::Done(Err(SubscribeError::StoreTokenError(StoreTokenError)))
    ));

    let committed = failed(stored(stored(stored(requested(
        "le guin",
        "ursula_le_guin@gmail.com",
    )))));
    assert!(matches!(
        committed,
        Subscription::Done(Err(SubscribeError::TransactionCommitError))
    ));
}

#[test]
fn an_email_that_cannot_be_sent_fails_the_registration_after_the_commit() {
    let state = stored(stored(stored(stored(requested(
        "le guin",
        "ursula_le_guin@gmail.com",
    )))));
    assert!(matches!(state, Subscription::SendingConfirmation { .. }));
    let state = subscribe_controller(state, SubscriptionEvent::EmailSent(Err(DeliveryFailure)));
    match state {
        Subscription::Done(Err(error)) => {
            assert!(matches!(error, SubscribeError::SendEmailError));
            assert_eq!(error.status_code(), 500);
        }
        _ => panic!("the failure was not reported"),
    }
}

#[test]
fn an_event_that_a_registration_does_not_wait_for_changes_nothing() {
    let state = subscribe_controller(Subscription::Idle, SubscriptionEvent::Stored(Ok(())));
    assert!(matches!(state, Subscription::Idle));
    let state = subscribe_controller(
        requested("le guin", "ursula_le_guin@gmail.com"),
        SubscriptionEvent::EmailSent(Ok(())),
    );
    assert!(matches!(state, Subscription::OpeningTransaction { .. }));
    let state = stored(stored(stored(stored(requested(
        "le guin",
        "ursula_le_guin@gmail.com",
    )))));
    let state = stored(state);
    assert!(matches!(state, Subscription::SendingConfirmation { .. }));
    let state = subscribe_controller(
        Subscription::Done(Err(SubscribeError::PoolError)),
        SubscriptionEvent::Stored(Ok(())),
    );
    assert!(matches!(
        state,
        Subscription::Done(Err(SubscribeError::PoolError))
    ));
}

#[test]
fn a_token_has_25_letters_and_digits() {
    assert_eq!(SUBSCRIPTION_TOKEN_LENGTH, 25);
    for _ in 0..50 {
        let token = generate_subscription_token();
        assert_eq!(token.chars().count(), 25);
        assert!(token.chars().all(|c| c.is_ascii_alphanumeric()));
    }
}

#[test]
fn two_tokens_differ() {
    assert_ne!(generate_subscription_token(), generate_subscription_token());
}

#[test]
fn a_new_row_is_pending_under_a_fresh_id() {
    let new_subscriber = subscriber("le guin", "ursula_le_guin@gmail.com");
    let first = insert_subscriber(&new_subscriber);
    let second = insert_subscriber(&new_subscriber);
    assert_eq!(first.email, "ursula_le_guin@gmail.com");
    assert_eq!(first.name, "le guin");
    assert_eq!(first.status, SubscriptionStatus::PendingConfirmation);
    assert_ne!(first.id, second.id);
    assert_eq!(first.id.get_version_num(), 4);
    // Later than the first day of 2020, and within the second.
    assert!(first.subscribed_at.seconds > 1_577_836_800);
    assert!(first.subscribed_at.nanoseconds < 2_000_000_000);
    assert!(second.subscribed_at.seconds >= first.subscribed_at.seconds);
}

#[test]
fn the_confirmation_email_holds_the_link_in_both_renderings() {
    let email = send_confirmation_email(
        subscriber("le guin", "ursula_le_guin@gmail.com"),
        &ApplicationBaseUrl("https://newsletter.example.com".to_string()),
        "abcdefghijklmnopqrstuvwxy",
    );
    assert_eq!(email.recipient.as_ref(), "ursula_le_guin@gmail.com");
    assert_eq!(email.subject, "Welcome!");
    assert_eq!(
        email.html_content,
        "Welcome to our newsletter!<br />Click <a href=\"https://newsletter.example.com/subscriptions/confirm?subscription_token=abcdefghijklmnopqrstuvwxy\">here</a> to confirm your subscription."
    );
    assert_eq!(
        email.text_content,
        "Welcome to our newsletter!\nVisit https://newsletter.example.com/subscriptions/confirm?subscription_token=abcdefghijklmnopqrstuvwxy to confirm your subscription."
    );
}

#[test]
fn each_error_says_what_failed() {
    assert_eq!(
        SubscribeError::ValidationError("the message".to_string()).message(),
        "the message"
    );
    assert_eq!(
        SubscribeError::StoreTokenError(StoreTokenError).message(),
        "Failed to store the confirmation token for the new subscriber"
    );
    assert_eq!(
        SubscribeError::SendEmailError.message(),
        "Failed to send the confirmation email"
    );
    assert_eq!(
        SubscribeError::PoolError.message(),
        "Failed to get a database connection from the pool"
    );
    assert_eq!(
        SubscribeError::InsertSubscriberError.message(),
        "Failed to insert subscriber in the database"
    );
    assert_eq!(
        SubscribeError::TransactionCommitError.message(),
        "Failed to commit the transaction to store a new subscriber"
    );
    assert_eq!(
        StoreTokenError.message(),
        "A database error was encountered while trying to store a subscription token."
    );
}

#[test]
fn only_a_validation_error_is_the_clients_fault() {
    assert_eq!(
        SubscribeError::ValidationError(String::new()).status_code(),
        400
    );
    for error in [
        SubscribeError::StoreTokenError(StoreTokenError),
        SubscribeError::SendEmailError,
        SubscribeError::PoolError,
        SubscribeError::InsertSubscriberError,
        SubscribeError::TransactionCommitError,
    ] {
        assert_eq!(error.status_code(), 500);
    }
}

#[test]
fn the_report_on_a_token_that_was_not_stored_names_the_store() {
    assert_eq!(
        SubscribeError::StoreTokenError(StoreTokenError).report(),
        "Failed to store the confirmation token for the new subscriber\n\nCaused by:\n\tA database error was encountered while trying to store a subscription token.\n"
    );
    assert_eq!(
        SubscribeError::PoolError.report(),
        "Failed to get a database connection from the pool\n\n"
    );
}

#[test]
fn a_message_or_a_token_error_converts_into_a_subscribe_error() {
    let error: SubscribeError = "the message".to_string().into();
    assert!(matches!(error, SubscribeError::ValidationError(message) if message == "the message"));
    let error: SubscribeError = StoreTokenError.into();
    assert!(matches!(error, SubscribeError::StoreTokenError(_)));
}
