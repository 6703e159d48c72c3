use newx::error::{IoOperation, ScaffoldError};
use newx::request::Template;

#[test]
fn target_exists_message() {
    let error = ScaffoldError::TargetExists { name: String::from("demo") };
    assert_eq!(error.message(), "Directory 'demo' already exists");
    assert_eq!(error.cause(), None);
}

#[test]
fn generator_not_started_message() {
    let error = ScaffoldError::GeneratorNotStarted { cause: String::from("No such file") };
    assert_eq!(error.message(), "Failed to execute cargo new command");
    assert_eq!(error.cause(), Some(String::from("No such file")));
}

#[test]
fn generator_failed_message_carries_stderr() {
    let stderr = String::from("error: destination `demo` already exists\n");
    let error = ScaffoldError::GeneratorFailed { stderr: stderr.clone() };
    assert_eq!(error.message(), "cargo new failed: error: destination `demo` already exists\n");
    assert!(error.message().ends_with(&stderr));
    assert_eq!(error.cause(), None);
}

#[test]
fn generator_failed_message_with_empty_stderr() {
    let error = ScaffoldError::GeneratorFailed { stderr: String::new() };
    assert_eq!(error.message(), "cargo new failed: ");
}

#[test]
fn executable_unknown_message() {
    let error = ScaffoldError::ExecutableUnknown { cause: String::from("denied") };
    assert_eq!(error.message(), "Failed to get current executable path");
    assert_eq!(error.cause(), Some(String::from("denied")));
}

#[test]
fn executable_without_parent_message() {
    let error = ScaffoldError::ExecutableWithoutParent;
    assert_eq!(error.message(), "Failed to get executable parent directory");
    assert_eq!(error.cause(), None);
}

#[test]
fn template_not_found_message_names_the_template() {
    let formatting = ScaffoldError::TemplateNotFound { template: Template::Formatting };
    assert_eq!(formatting.message(), "Template file 'rustfmt.toml' not found");
    let lint = ScaffoldError::TemplateNotFound { template: Template::Lint };
    assert_eq!(lint.message(), "Template file 'clippy.toml' not found");
    assert_eq!(lint.cause(), None);
}

#[test]
fn read_failure_message_names_the_path() {
    let error = ScaffoldError::Io {
        operation: IoOperation::Read,
        path: String::from("templates/rustfmt.toml"),
        cause: String::from("stream did not contain valid UTF-8"),
    };
    assert_eq!(error.message(), "Failed to read template file: templates/rustfmt.toml");
    assert_eq!(error.cause(), Some(String::from("stream did not contain valid UTF-8")));
}

#[test]
fn write_failure_message_names_the_path() {
    let error = ScaffoldError::Io {
        operation: IoOperation::Write,
        path: String::from("demo/clippy.toml"),
        cause: String::from("Permission denied"),
    };
    assert_eq!(error.message(), "Failed to write file: demo/clippy.toml");
    assert_eq!(error.cause(), Some(String::from("Permission denied")));
}

#[test]
fn out_of_turn_message() {
    let error = ScaffoldError::OutOfTurn;
    assert_eq!(error.message(), "Event does not answer the pending action");
    assert_eq!(error.cause(), None);
}
