use rfs_tester::{Category, FsTesterError};
use std::io::ErrorKind;
use walkdir::WalkDir;

fn missing_file_error() -> std::io::Error {
    std::io::Error::from_raw_os_error(2)
}

fn missing_directory_walk_error() -> walkdir::Error {
    WalkDir::new("./blahblah")
        .into_iter()
        .next()
        .expect("should return first entry?")
        .expect_err("should be error on non-existent directory")
}

#[test]
fn test_empty_config_error() {
    let error = FsTesterError::empty_config();
    assert!(error.is_config_format());
    assert_eq!(error.line(), 0);
    assert_eq!(error.column(), 0);
}

#[test]
fn test_not_allowed_settings_error() {
    let error = FsTesterError::not_allowed_settings();
    assert!(error.is_not_allowed_settings());
    assert_eq!(error.line(), 0);
    assert_eq!(error.column(), 0);
}

#[test]
fn test_io_error() {
    let io_error = std::io::Error::new(std::io::ErrorKind::NotFound, "File not found");
    let error = FsTesterError::io_error(io_error);
    assert!(error.is_io());
    assert_eq!(error.io_error_kind(), Some(std::io::ErrorKind::NotFound));
}

#[test]
fn test_io_error_kind_return_none() {
    let error = FsTesterError::empty_config();
    assert!(error.io_error_kind().is_none());
}

#[test]
fn test_is_empty_config() {
    let error = FsTesterError::empty_config();
    assert!(error.is_empty_config());
}

#[test]
fn test_should_start_from_directory_error() {
    let error = FsTesterError::should_start_from_directory();
    assert!(error.is_config_format());
    assert_eq!(error.line(), 0);
    assert_eq!(error.column(), 0);
}

#[test]
fn test_json_syntax_error() {
    let invalid_json = "{ invalid: json }";
    let json_error = serde_json::from_str::<serde_json::Value>(invalid_json).unwrap_err();

    let error = FsTesterError::from(json_error);

    assert!(error.is_syntax());
}

#[test]
fn test_json_io_error() {
    let io_error = std::io::Error::new(std::io::ErrorKind::NotFound, "File not found");
    let json_error = serde_json::Error::io(io_error);

    let error = FsTesterError::from(json_error);

    assert!(error.is_io());
}

#[test]
fn test_json_data_error() {
    let json_data = r#"{ "number": "not_a_number" }"#;
    let json_error = serde_json::from_str::<i32>(json_data).unwrap_err();

    let error = FsTesterError::from(json_error);

    assert!(error.is_syntax());
}

#[test]
fn test_yaml_syntax_error() {
    let invalid_yaml = "invalid: yaml: [";
    let yaml_error = serde_yaml::from_str::<serde_yaml::Value>(invalid_yaml).unwrap_err();

    let error = FsTesterError::from(yaml_error);

    assert!(error.is_syntax());
}

#[test]
fn test_display_fmt_for_empty_config() {
    let error = FsTesterError::empty_config();

    assert_eq!(error.message(), "The configuration should not be empty.");
}

#[test]
fn test_display_fmt_for_should_start_from_directory() {
    let error = FsTesterError::should_start_from_directory();

    assert_eq!(
        error.message(),
        "The configuration should start from the containing directory."
    );
}

#[test]
fn test_display_fmt_for_links_not_allowed() {
    let error = FsTesterError::not_allowed_settings();

    assert_eq!(
        error.message(),
        r#"
                    The use of links has been disabled!
                    !!! Be warned that the contents of linked files may be corrupted !!!
                    If you want to enable the use of links, you can do so at your own risk
                    by setting the LINKS_ALLOWED environment variable to "Y".
                    "#
    );
}

#[test]
fn test_display_fmt_for_walkdir_error() {
    let walkdir_error = missing_directory_walk_error();

    let error = FsTesterError::walkdir_error(walkdir_error);

    assert_eq!(
        error.message(),
        "Walkdir error: IO error for operation on ./blahblah: No such file or directory (os error 2)"
    );
}

#[test]
fn test_display_fmt_for_io_error() {
    let io_error = missing_file_error();
    let error = FsTesterError::io_error(io_error);

    assert_eq!(error.message(), "IO error: No such file or directory (os error 2)");
}

#[test]
fn test_display_fmt_for_json_syntax_error() {
    let json_data = r#"{ "number": "not_a_number" }"#;
    let json_error = serde_json::from_str::<i32>(json_data).unwrap_err();

    let error = FsTesterError::from(json_error);

    assert_eq!(
        error.message(),
        "JSON syntax error: invalid type: map, expected i32 at line 1 column 0 at line 1 column 0"
    )
}

#[test]
fn test_display_fmt_for_yaml_syntax_error() {
    let invalid_yaml = "invalid: yaml: [";
    let yaml_error = serde_yaml::from_str::<serde_yaml::Value>(invalid_yaml).unwrap_err();

    let error = FsTesterError::from(yaml_error);

    assert_eq!(
        error.message(),
        "YAML syntax error: mapping values are not allowed in this context at line 1 column 14 at line 1 column 14"
    );
}

#[test]
fn test_display_fmt_with_sandbox_dir() {
    let mut error = FsTesterError::empty_config();
    error.set_sandbox_dir(Some("sandbox_dir".to_string()));

    assert!(error
        .message()
        .contains("Created dir \"sandbox_dir\" will be removed."));
}

#[test]
fn test_error_from_for_walkdir_error() {
    let walkdir_error = missing_directory_walk_error();

    let error = FsTesterError::from(walkdir_error);

    assert!(error.is_io());
}

#[test]
fn test_from_fs_tester_error_for_io_error() {
    let io_error = missing_file_error();
    let error = FsTesterError::io_error(io_error);
    let converted_io_error = std::io::Error::from(error);

    assert!(converted_io_error.kind() == ErrorKind::NotFound);
}

#[test]
fn test_from_fs_tester_error_for_io_error_invalid_data() {
    let error = FsTesterError::empty_config();
    let converted_io_error = std::io::Error::from(error);

    assert!(converted_io_error.kind() == ErrorKind::InvalidData);
}

#[test]
fn test_from_io_error_into_fs_tester_error() {
    let io_error = missing_file_error();
    let error = FsTesterError::from(io_error);

    assert!(error.is_io());
}

#[test]
fn test_display_fmt_for_acquire_error() {
    let error = FsTesterError::from(closed_semaphore_error());

    assert_eq!(error.message(), "Semaphore err: semaphore closed");
}

#[test]
fn test_display_fmt_for_join_error() {
    let error = FsTesterError::from(panicked_task_error());

    assert!(error.message().contains("Join handle err: task"));
    assert!(error
        .message()
        .contains("panicked with message \"test JoinError\""));
}

#[test]
fn test_acquire_error() {
    let error = FsTesterError::from(closed_semaphore_error());

    assert!(error.is_multitasking());
}

#[test]
fn test_join_error() {
    let error = FsTesterError::from(panicked_task_error());

    assert!(error.is_multitasking());
}

fn closed_semaphore_error() -> tokio::sync::AcquireError {
    let runtime = tokio::runtime::Builder::new_current_thread()
        .build()
        .expect("a runtime for one thread");
    let semaphore = tokio::sync::Semaphore::new(2);
    semaphore.close();
    let outcome = runtime.block_on(semaphore.acquire());
    outcome
        .map(|_| ())
        .expect_err("closed semaphore should return error")
}

fn panicked_task_error() -> tokio::task::JoinError {
    let runtime = tokio::runtime::Builder::new_current_thread()
        .build()
        .expect("a runtime for one thread");
    let handle = runtime.spawn_blocking(|| {
        if true {
            panic!("test JoinError");
        }
    });
    runtime
        .block_on(handle)
        .expect_err("panic in handle should produce JoinError")
}

#[test]
fn json_error_keeps_line_and_column_of_the_reader() {
    let json_error = serde_json::from_str::<serde_json::Value>("\n{\"a\": x}").unwrap_err();
    let line = json_error.line();
    let column = json_error.column();
    assert_eq!((line, column), (2, 7));

    let error = FsTesterError::from(json_error);

    assert_eq!(error.line(), 2);
    assert_eq!(error.column(), 7);
    assert_eq!(error.classify(), Category::Syntax);
    assert!(error.sandbox_dir().is_none());
}

#[test]
fn json_io_error_keeps_the_kind_of_the_io_error() {
    let io_error = std::io::Error::new(ErrorKind::TimedOut, "too slow");
    let error = FsTesterError::from(serde_json::Error::io(io_error));

    assert_eq!(error.classify(), Category::Io);
    assert_eq!(error.io_error_kind(), Some(ErrorKind::TimedOut));
    assert_eq!(error.line(), 0);
    assert_eq!(error.message(), "IO error: too slow");
}

#[test]
fn yaml_error_keeps_line_and_column_of_the_reader() {
    let yaml_error = serde_yaml::from_str::<serde_yaml::Value>("invalid: yaml: [").unwrap_err();

    let error = FsTesterError::from(yaml_error);

    assert_eq!(error.line(), 1);
    assert_eq!(error.column(), 14);
}

#[test]
fn yaml_error_without_a_place_has_line_zero() {
    let yaml_error = serde_yaml::from_str::<i32>("").unwrap_err();
    assert!(yaml_error.location().is_none());
    let text = yaml_error.to_string();

    let error = FsTesterError::from(yaml_error);

    assert_eq!(error.line(), 0);
    assert_eq!(error.column(), 0);
    assert_eq!(error.message(), format!("YAML syntax error: {}", text));
}

#[test]
fn walkdir_error_has_no_io_error_kind() {
    let error = FsTesterError::from(missing_directory_walk_error());

    assert_eq!(error.classify(), Category::Io);
    assert!(error.io_error_kind().is_none());
}

#[test]
fn classify_gives_each_category() {
    assert_eq!(FsTesterError::empty_config().classify(), Category::ConfigFormat);
    assert_eq!(
        FsTesterError::should_start_from_directory().classify(),
        Category::ConfigFormat
    );
    assert_eq!(
        FsTesterError::not_allowed_settings().classify(),
        Category::NotAllowedSettings
    );
    assert_eq!(
        FsTesterError::io_error(missing_file_error()).classify(),
        Category::Io
    );
    assert_eq!(
        FsTesterError::from(closed_semaphore_error()).classify(),
        Category::Multitasking
    );
}

#[test]
fn category_tests_exclude_each_other() {
    let error = FsTesterError::not_allowed_settings();
    assert!(error.is_not_allowed_settings());
    assert!(!error.is_io());
    assert!(!error.is_syntax());
    assert!(!error.is_config_format());
    assert!(!error.is_multitasking());
    assert!(!error.is_empty_config());
    assert!(!error.is_should_start_from_directory());
    assert!(FsTesterError::should_start_from_directory().is_should_start_from_directory());
}

#[test]
fn set_sandbox_dir_records_and_forgets_the_path() {
    let mut error = FsTesterError::io_error(missing_file_error());
    assert_eq!(error.sandbox_dir(), None);

    error.set_sandbox_dir(Some("./test_1".to_string()));
    assert_eq!(error.sandbox_dir(), Some("./test_1".to_string()));
    assert!(error.is_io());

    error.set_sandbox_dir(None);
    assert_eq!(error.sandbox_dir(), None);
    assert_eq!(error.message(), "IO error: No such file or directory (os error 2)");
}

#[test]
fn message_says_when_the_directory_was_left_in_place() {
    let mut error = FsTesterError::io_error(missing_file_error());
    error.set_sandbox_dir(Some(".".to_string()));
    assert!(!error.cleanup_skipped());

    error.mark_cleanup_skipped();

    assert!(error.cleanup_skipped());
    assert_eq!(
        error.message(),
        "IO error: No such file or directory (os error 2) Created dir \".\" was left in place: removing the root or the current directory is refused."
    );
}

#[test]
fn message_with_takes_the_detail_as_given() {
    let error = FsTesterError::io_error(missing_file_error());
    assert_eq!(error.message_with("disk full"), "IO error: disk full");
    let own = FsTesterError::empty_config();
    assert_eq!(
        own.message_with("ignored"),
        "The configuration should not be empty."
    );
    assert!(own.is_own_cause());
    assert!(!error.is_own_cause());
}

#[test]
fn conversion_into_io_error_carries_the_message() {
    let error = FsTesterError::should_start_from_directory();
    let converted = std::io::Error::from(error);

    assert_eq!(converted.kind(), ErrorKind::InvalidData);
    assert_eq!(
        converted.to_string(),
        "The configuration should start from the containing directory."
    );
}
