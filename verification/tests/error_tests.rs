use anytype_rs::error::{convert_anytype_error, ShellError};
use anytype_rs::AnytypeError;

#[test]
fn test_convert_auth_error() {
    let err = AnytypeError::Auth {
        message: "Invalid token".to_string(),
    };
    let shell_err = convert_anytype_error(err);
    match shell_err {
        ShellError::IOError { msg } => {
            assert!(msg.contains("Authentication failed"));
            assert!(msg.contains("anytype auth create"));
        }
        _ => panic!("Expected IOError"),
    }
}

#[test]
fn test_convert_api_error() {
    let err = AnytypeError::Api {
        message: "Not found".to_string(),
    };
    let shell_err = convert_anytype_error(err);
    match shell_err {
        ShellError::GenericError { msg, .. } => {
            assert!(msg.contains("Not found"));
        }
        _ => panic!("Expected GenericError"),
    }
}

#[test]
fn test_convert_invalid_response_error() {
    let err = AnytypeError::InvalidResponse {
        message: "Bad format".to_string(),
    };
    let shell_err = convert_anytype_error(err);
    match shell_err {
        ShellError::GenericError { msg, .. } => {
            assert_eq!(msg, "Bad format");
        }
        _ => panic!("Expected GenericError"),
    }
}

#[test]
fn auth_error_message_is_exact() {
    let shell_err = convert_anytype_error(AnytypeError::Auth { message: "expired".to_string() });
    assert_eq!(
        shell_err,
        ShellError::IOError {
            msg: "Authentication failed: expired. Run `anytype auth create` to authenticate".to_string()
        }
    );
}

#[test]
fn serialization_error_is_reported_with_its_text() {
    let source = serde_json::from_str::<serde_json::Value>("{").unwrap_err();
    let text = source.to_string();
    let shell_err = convert_anytype_error(AnytypeError::Serialization { source });
    match shell_err {
        ShellError::GenericError { error, msg, help } => {
            assert_eq!(error, "Serialization error");
            assert_eq!(msg, format!("Failed to serialize/deserialize: {}", text));
            assert_eq!(help, Some("Check that the data format is correct".to_string()));
        }
        _ => panic!("Expected GenericError"),
    }
}

#[test]
fn api_error_comes_with_help() {
    let shell_err = convert_anytype_error(AnytypeError::Api { message: "boom".to_string() });
    assert_eq!(
        shell_err,
        ShellError::GenericError {
            error: "API error".to_string(),
            msg: "boom".to_string(),
            help: Some("Check the Anytype API server status and logs".to_string()),
        }
    );
}
