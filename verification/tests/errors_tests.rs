use servitor::errors::{is_invalid_unit, RemoteError, ServiceError};

#[test]
fn no_such_unit_translates_to_400() {
    let e = ServiceError::from(RemoteError::Method {
        name: "org.freedesktop.systemd1.NoSuchUnit".to_string(),
        message: Some("Unit nginx.service not loaded.".to_string()),
    });
    assert_eq!(e, ServiceError::InvalidUnit);
    assert_eq!(e.status_code(), 400);
}

#[test]
fn invalid_unit_name_message_translates_to_400() {
    let e = ServiceError::from(RemoteError::Method {
        name: "org.freedesktop.DBus.Error.InvalidArgs".to_string(),
        message: Some("Unit name so!bad.service is not valid.".to_string()),
    });
    assert_eq!(e, ServiceError::InvalidUnit);
}

#[test]
fn invalid_args_with_other_message_translates_to_500() {
    let e = ServiceError::from(RemoteError::Method {
        name: "org.freedesktop.DBus.Error.InvalidArgs".to_string(),
        message: Some("Mode oops is not a valid job mode.".to_string()),
    });
    assert_eq!(e, ServiceError::Unexpected);
}

#[test]
fn other_named_error_translates_to_500() {
    let e = ServiceError::from(RemoteError::Method {
        name: "org.freedesktop.DBus.Error.AccessDenied".to_string(),
        message: Some("Unit name x.service is not valid.".to_string()),
    });
    assert_eq!(e, ServiceError::Unexpected);
}

#[test]
fn no_such_unit_without_message_still_translates_to_400() {
    // The name alone is the signature; the message is not needed for it.
    let e = ServiceError::from(RemoteError::Method {
        name: "org.freedesktop.systemd1.NoSuchUnit".to_string(),
        message: None,
    });
    assert_eq!(e, ServiceError::InvalidUnit);
}

#[test]
fn other_named_error_without_message_translates_to_500() {
    let e = ServiceError::from(RemoteError::Method {
        name: "org.freedesktop.DBus.Error.InvalidArgs".to_string(),
        message: None,
    });
    assert_eq!(e, ServiceError::Unexpected);
}

#[test]
fn transport_failure_translates_to_500() {
    let e = ServiceError::from(RemoteError::Other);
    assert_eq!(e, ServiceError::Unexpected);
}

#[test]
fn invalid_unit_signature_match_is_exact() {
    assert!(is_invalid_unit("org.freedesktop.systemd1.NoSuchUnit", "anything"));
    assert!(is_invalid_unit(
        "org.freedesktop.DBus.Error.InvalidArgs",
        "Unit name bad..service is not valid."
    ));
    // Prefix or suffix alone is not the signature.
    assert!(!is_invalid_unit("org.freedesktop.DBus.Error.InvalidArgs", "Unit name truncated"));
    assert!(!is_invalid_unit("org.freedesktop.DBus.Error.InvalidArgs", "name x is not valid."));
    // Case matters in the error name.
    assert!(!is_invalid_unit("org.freedesktop.systemd1.nosuchunit", "m"));
}

#[test]
fn status_codes_and_messages_are_fixed() {
    assert_eq!(ServiceError::InvalidUnit.status_code(), 400);
    assert_eq!(ServiceError::Unauthorized.status_code(), 401);
    assert_eq!(ServiceError::Unexpected.status_code(), 500);
    assert_eq!(ServiceError::InvalidUnit.message(), "Invalid unit name");
    assert_eq!(ServiceError::Unauthorized.message(), "Invalid authorization token");
    assert_eq!(ServiceError::Unexpected.message(), "The server encountered an unexpected error");
}

#[test]
fn response_parts_carry_code_and_body() {
    let (code, body) = ServiceError::InvalidUnit.response_parts();
    assert_eq!(code, 400);
    assert_eq!(body.error, "Invalid unit name");
    let (code, body) = ServiceError::Unauthorized.response_parts();
    assert_eq!(code, 401);
    assert_eq!(body.error, "Invalid authorization token");
}
