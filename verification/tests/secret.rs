use bionic_reading_api::secret::Secret;

const SECRET_STRING: &str = "Some secret";

#[test]
fn test_redacted() {
    let secret = Secret::from_str(SECRET_STRING);

    let log_string = "The secret is";

    let log_attempt = format!("{log_string} {}", secret.redacted());

    assert!(
        !log_attempt.contains(SECRET_STRING),
        "Log attempt contains the secret string: `{log_attempt}`"
    );
    assert_eq!(
        log_attempt,
        format!("{log_string} REDACTED"),
        "Secret was not redacted in log attempt: `{log_attempt}`"
    );
}

#[test]
fn test_inner() {
    let secret = Secret::from_str(SECRET_STRING);

    assert_eq!(
        secret.secret(),
        SECRET_STRING,
        "Returned secret was not the provided secret: `{}`",
        secret.secret()
    );
}

#[test]
fn redaction_of_empty_secret() {
    let secret = Secret::from_str("");
    assert_eq!(secret.redacted(), "REDACTED");
    assert_eq!(secret.secret(), "");
}

#[test]
fn redaction_of_marker_lookalike_secret() {
    let secret = Secret::from_str("REDACTED");
    assert_eq!(secret.redacted(), "REDACTED");
    assert_eq!(secret.secret(), "REDACTED");
}
