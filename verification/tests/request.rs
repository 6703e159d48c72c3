use newx::request::{CreationRequest, Template, GENERATOR};

#[test]
fn template_file_names() {
    assert_eq!(Template::Formatting.file_name(), "rustfmt.toml");
    assert_eq!(Template::Lint.file_name(), "clippy.toml");
}

#[test]
fn generator_is_cargo() {
    assert_eq!(GENERATOR, "cargo");
}

#[test]
fn no_flags_make_a_plain_request() {
    let request = CreationRequest::new(String::from("demo"), false, false, false);
    assert_eq!(request.project_name, "demo");
    assert!(!request.is_library);
    assert!(!request.include_clippy_config);
}

#[test]
fn either_lint_flag_asks_for_the_lint_config() {
    assert!(CreationRequest::new(String::from("demo"), false, true, false).include_clippy_config);
    assert!(CreationRequest::new(String::from("demo"), false, false, true).include_clippy_config);
    assert!(CreationRequest::new(String::from("demo"), false, true, true).include_clippy_config);
    assert!(!CreationRequest::new(String::from("demo"), true, false, false).include_clippy_config);
}

#[test]
fn clippy_and_all_make_the_same_request() {
    for lib in [false, true] {
        let by_clippy = CreationRequest::new(String::from("demo"), lib, true, false);
        let by_all = CreationRequest::new(String::from("demo"), lib, false, true);
        let by_both = CreationRequest::new(String::from("demo"), lib, true, true);
        assert_eq!(by_clippy, by_all);
        assert_eq!(by_clippy, by_both);
        assert_eq!(by_clippy.templates(), by_all.templates());
    }
}

#[test]
fn lib_flag_only_selects_the_kind() {
    let request = CreationRequest::new(String::from("demo"), true, false, false);
    assert!(request.is_library);
    assert!(!request.include_clippy_config);
}

#[test]
fn generator_args_for_an_executable() {
    let request = CreationRequest::new(String::from("demo"), false, true, false);
    assert_eq!(request.generator_args(), vec![String::from("new"), String::from("demo")]);
}

#[test]
fn generator_args_for_a_library() {
    let request = CreationRequest::new(String::from("demo"), true, false, false);
    assert_eq!(
        request.generator_args(),
        vec![String::from("new"), String::from("demo"), String::from("--lib")]
    );
}

#[test]
fn templates_without_lint_flag() {
    let request = CreationRequest::new(String::from("demo"), true, false, false);
    assert_eq!(request.templates(), vec![Template::Formatting]);
    assert!(request.places(Template::Formatting));
    assert!(!request.places(Template::Lint));
}

#[test]
fn templates_with_lint_flag() {
    let request = CreationRequest::new(String::from("demo"), false, false, true);
    assert_eq!(request.templates(), vec![Template::Formatting, Template::Lint]);
    assert!(request.places(Template::Formatting));
    assert!(request.places(Template::Lint));
}

#[test]
fn empty_project_name_is_taken_as_it_is() {
    let request = CreationRequest::new(String::new(), false, false, false);
    assert_eq!(request.project_name, "");
    assert_eq!(request.generator_args(), vec![String::from("new"), String::new()]);
}
