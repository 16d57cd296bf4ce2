use zero2prod::intake::{
    response_status, subscriber_from_body, subscriber_from_fields, IntakeError, IntakeOutcome,
};
use zero2prod::validation::SubscriberError;

fn pairs(items: &[(&str, &str)]) -> Vec<(String, String)> {
    items.iter().map(|(k, v)| (k.to_string(), v.to_string())).collect()
}

#[test]
fn test_200_for_valid_subscription_post_data() {
    let body = "name=param&email=param%40gmail.com";
    let saved = subscriber_from_body(body.as_bytes()).unwrap();
    assert_eq!(200, response_status(IntakeOutcome::Stored));
    assert_eq!(saved.name(), "param");
    assert_eq!(saved.email(), "param@gmail.com");
}

#[test]
fn test_400_when_subscription_request_lacks_required_data() {
    let test_cases = vec![
        ("email=param%40gmail.com", "name missing"),
        ("name=param", "email missing"),
        ("", "both name, email missing"),
    ];
    for (bad_body, error_message) in test_cases {
        let error = subscriber_from_body(bad_body.as_bytes()).err();
        assert_eq!(error, Some(IntakeError::MalformedBody), "{}", error_message);
        assert_eq!(
            400,
            response_status(IntakeOutcome::Rejected(error.unwrap())),
            "The subscription API did not return a 400 Bad Request response for the payload: {}",
            error_message,
        );
    }
}

#[test]
fn body_is_percent_and_plus_decoded() {
    let s = subscriber_from_body(b"name=le+guin&email=ursula%2Bnews%40example.com").unwrap();
    assert_eq!(s.name(), "le guin");
    assert_eq!(s.email(), "ursula+news@example.com");
}

#[test]
fn field_order_and_extra_fields_do_not_matter() {
    let s = subscriber_from_body(b"email=a%40b.c&city=x&name=ann").unwrap();
    assert_eq!(s.name(), "ann");
    assert_eq!(s.email(), "a@b.c");
}

#[test]
fn repeated_field_is_malformed() {
    assert_eq!(
        subscriber_from_body(b"name=a&name=b&email=a%40b.c").err(),
        Some(IntakeError::MalformedBody)
    );
}

#[test]
fn invalid_fields_in_body_are_rejected() {
    assert_eq!(
        subscriber_from_body(b"name=%7Bx%7D&email=a%40b.c").err(),
        Some(IntakeError::Rejected(SubscriberError::InvalidName))
    );
    assert_eq!(
        subscriber_from_body(b"name=ann&email=ann").err(),
        Some(IntakeError::Rejected(SubscriberError::InvalidEmail))
    );
    assert_eq!(
        subscriber_from_body(b"name=&email=a%40b.c").err(),
        Some(IntakeError::Rejected(SubscriberError::InvalidName))
    );
}

#[test]
fn fields_are_read_by_key() {
    let s = subscriber_from_fields(&pairs(&[("name", "param"), ("email", "param@gmail.com")])).unwrap();
    assert_eq!(s.name(), "param");
    assert_eq!(s.email(), "param@gmail.com");
    assert_eq!(
        subscriber_from_fields(&pairs(&[("Name", "param"), ("email", "param@gmail.com")])).err(),
        Some(IntakeError::MalformedBody)
    );
    assert_eq!(
        subscriber_from_fields(&pairs(&[("email", "x@y.z"), ("name", "a"), ("email", "x@y.z")])).err(),
        Some(IntakeError::MalformedBody)
    );
    assert_eq!(subscriber_from_fields(&pairs(&[])).err(), Some(IntakeError::MalformedBody));
}

#[test]
fn statuses_for_each_outcome() {
    assert_eq!(response_status(IntakeOutcome::Stored), 200);
    assert_eq!(response_status(IntakeOutcome::StoreFailed), 500);
    assert_eq!(response_status(IntakeOutcome::Rejected(IntakeError::MalformedBody)), 400);
    assert_eq!(
        response_status(IntakeOutcome::Rejected(IntakeError::Rejected(SubscriberError::InvalidEmail))),
        400
    );
}
