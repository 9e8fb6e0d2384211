use synthonyx_kit::error::Error;
use synthonyx_kit::traits::password::PasswordError;

#[test]
fn password_error_text_names_the_failed_operation() {
    assert_eq!(
        PasswordError::Hashing("out of memory".to_string()).to_string(),
        "Failed to hash password: out of memory"
    );
    assert_eq!(
        PasswordError::Verification("bad field".to_string()).to_string(),
        "Failed to verify password: bad field"
    );
    assert_eq!(PasswordError::Other("plain".to_string()).to_string(), "plain");
}

#[test]
fn password_error_text_with_empty_cause() {
    assert_eq!(
        PasswordError::Hashing(String::new()).to_string(),
        "Failed to hash password: "
    );
    assert_eq!(
        PasswordError::Verification(String::new()).to_string(),
        "Failed to verify password: "
    );
    assert_eq!(PasswordError::Other(String::new()).to_string(), "");
}

#[test]
fn password_error_clone_keeps_variant_and_text() {
    let err = PasswordError::Verification("x".to_string());
    match err.clone() {
        PasswordError::Verification(text) => assert_eq!(text, "x"),
        other => panic!("unexpected clone: {:?}", other),
    }
    let err = PasswordError::Hashing("y".to_string());
    assert!(matches!(err.clone(), PasswordError::Hashing(text) if text == "y"));
    let err = PasswordError::Other("z".to_string());
    assert!(matches!(err.clone(), PasswordError::Other(text) if text == "z"));
}

#[test]
fn dispatch_error_text_names_the_module() {
    let err = Error::DispatchError {
        module: "billing",
        error: "connection refused".to_string(),
    };
    assert_eq!(
        err.to_string(),
        "Module 'billing' failed to dispatch with error: connection refused"
    );
}

#[test]
fn dispatch_error_text_with_empty_parts() {
    let err = Error::DispatchError {
        module: "",
        error: String::new(),
    };
    assert_eq!(err.to_string(), "Module '' failed to dispatch with error: ");
}

#[test]
fn other_error_text_is_the_message() {
    assert_eq!(Error::Other("boom".to_string()).to_string(), "boom");
    assert_eq!(Error::Other(String::new()).to_string(), "");
}
