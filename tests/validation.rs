use wtfm::error::WtfmError;
use wtfm::utils::helpers::{ValidationHelper, blank};

#[test]
fn email_shape_is_checked() {
    assert!(ValidationHelper::validate_email("a@x.com").is_ok());
    assert!(ValidationHelper::validate_email("first.last+tag@mail.example.org").is_ok());
    match ValidationHelper::validate_email("not-an-email") {
        Err(WtfmError::InvalidEmail(s)) => assert_eq!(s, "not-an-email"),
        _ => panic!("expected an invalid email"),
    }
    assert!(ValidationHelper::validate_email("a@x.c").is_err());
}

#[test]
fn version_needs_three_numbers() {
    assert!(ValidationHelper::validate_version("0.1.0").is_ok());
    assert!(ValidationHelper::validate_version("10.20.30").is_ok());
    assert!(ValidationHelper::validate_version("1.0").is_err());
    assert!(ValidationHelper::validate_version("v1.0.0").is_err());
}

#[test]
fn project_name_must_not_be_blank() {
    assert!(ValidationHelper::validate_project_name("Demo").is_ok());
    assert_eq!(
        ValidationHelper::validate_project_name("   "),
        Err("Project name cannot be empty".to_string())
    );
    assert!(blank(" \t "));
    assert!(blank(""));
    assert!(!blank(" x "));
}

#[test]
fn error_messages_name_the_text() {
    assert_eq!(
        WtfmError::InvalidEmail("q".to_string()).message(),
        "Invalid email address: q"
    );
    assert_eq!(
        WtfmError::InvalidVersion("1".to_string()).message(),
        "Invalid version format '1'. Use semantic versioning (e.g., 1.0.0)"
    );
    assert_eq!(WtfmError::EmptyProjectName.message(), "Project name cannot be empty");
}
