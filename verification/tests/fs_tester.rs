use rfs_tester::config::{
    CloneDirectoryConf, ConfigEntry, Configuration, DirectoryConf, FileConf, LinkConf,
};
use rfs_tester::rfs::action::Action;
use rfs_tester::rfs::fs_tester::{
    config_format, plan_sandbox, resolve_start_point, rollback, Cleanup, ConfigFormat, PathFacts,
    Plan,
};
use rfs_tester::rfs::permissions::Permissions;
use rfs_tester::{FileContent, FsTester, FsTesterError};
use std::cell::RefCell;

const LINKS_OFF: Permissions = Permissions {
    links_allowed: false,
};
const LINKS_ON: Permissions = Permissions {
    links_allowed: true,
};

fn dir_with_empty_file() -> Configuration {
    Configuration(vec![ConfigEntry::Directory(DirectoryConf {
        name: "test_yaml_dir_with_empty_file".to_string(),
        content: vec![ConfigEntry::File(FileConf {
            name: "test.txt".to_string(),
            content: FileContent::Empty,
        })],
    })])
}

fn dir_with_link() -> Configuration {
    Configuration(vec![ConfigEntry::Directory(DirectoryConf {
        name: "test_yaml_dir_with_link".to_string(),
        content: vec![ConfigEntry::Link(LinkConf {
            name: "cargo_link".to_string(),
            target: "Cargo.toml".to_string(),
        })],
    })])
}

fn double_root_dirs() -> Configuration {
    Configuration(vec![
        ConfigEntry::Directory(DirectoryConf {
            name: "test_yaml_double_root_dirs".to_string(),
            content: vec![ConfigEntry::File(FileConf {
                name: "test_from_cargo.toml".to_string(),
                content: FileContent::OriginalFile("Cargo.toml".to_string()),
            })],
        }),
        ConfigEntry::Directory(DirectoryConf {
            name: "second_root_dir".to_string(),
            content: vec![ConfigEntry::File(FileConf {
                name: "test.txt".to_string(),
                content: FileContent::InlineText("test".to_string()),
            })],
        }),
    ])
}

fn facts(
    is_dir: bool,
    canonical: Option<&str>,
    canonical_root: Option<&str>,
    canonical_current: Option<&str>,
) -> PathFacts {
    PathFacts {
        is_dir,
        canonical: canonical.map(str::to_string),
        canonical_root: canonical_root.map(str::to_string),
        canonical_current: canonical_current.map(str::to_string),
    }
}

fn usual_facts(canonical: &str) -> PathFacts {
    facts(true, Some(canonical), Some("/"), Some("/home/user/project"))
}

fn failed_at_root(path: &str) -> FsTesterError {
    let mut error = FsTesterError::io_error(std::io::Error::from_raw_os_error(2));
    error.set_sandbox_dir(Some(path.to_string()));
    error
}

#[test]
fn cmp_canonical_paths_test_for_equal_paths() {
    assert!(FsTester::cmp_canonical_paths("test1", "test1", None, None));
}

#[test]
fn cmp_canonical_paths_test_for_non_equal_paths() {
    assert!(!FsTester::cmp_canonical_paths("/", "~", Some("/"), None));
}

#[test]
fn cmp_canonical_paths_test_for_non_equal_paths_with_first_incorrect() {
    assert!(!FsTester::cmp_canonical_paths("/987654321", "~", None, None));
}

#[test]
fn cmp_canonical_paths_goes_by_the_canonical_forms() {
    assert!(FsTester::cmp_canonical_paths(
        ".",
        "../project",
        Some("/home/user/project"),
        Some("/home/user/project")
    ));
    assert!(!FsTester::cmp_canonical_paths(
        ".",
        "../other",
        Some("/home/user/project"),
        Some("/home/user/other")
    ));
    assert!(!FsTester::cmp_canonical_paths(
        "a",
        "b",
        None,
        Some("/home/user/project")
    ));
}

#[test]
fn constructor_should_throw_error_when_empty_config() {
    let res = config_format("");
    assert!(res.is_err());
    assert!(res.unwrap_err().is_empty_config());
}

#[test]
fn constructor_should_return_error_when_base_dir_not_found() {
    let res = plan_sandbox(
        &dir_with_empty_file(),
        "unexisting_directory",
        false,
        1,
        &LINKS_OFF,
    );
    assert!(res.is_err());
    assert!(res.unwrap_err().is_should_start_from_directory());
}

#[test]
fn constructor_should_return_error_when_double_root_dir_in_config() {
    let res = plan_sandbox(&double_root_dirs(), ".", true, 1, &LINKS_OFF);
    assert!(res.is_err());
    let error = res.unwrap_err();
    assert!(error.is_should_start_from_directory());
    assert!(error.is_config_format());
    assert_eq!(error.sandbox_dir(), None);
}

#[test]
fn constructor_should_return_error_when_conf_starts_from_file() {
    let config = Configuration(vec![ConfigEntry::File(FileConf {
        name: "test.txt".to_string(),
        content: FileContent::Empty,
    })]);
    let res = plan_sandbox(&config, ".", true, 1, &LINKS_OFF);
    assert!(res.is_err());
    let error = res.unwrap_err();
    assert!(error.is_should_start_from_directory());
    assert!(error.is_config_format());
}

#[test]
fn constructor_should_return_error_when_conf_starts_from_link() {
    let config = Configuration(vec![ConfigEntry::Link(LinkConf {
        name: "test_link.txt".to_string(),
        target: "test.txt".to_string(),
    })]);
    let res = plan_sandbox(&config, ".", true, 1, &LINKS_ON);
    assert!(res.is_err());
    let error = res.unwrap_err();
    assert!(error.is_should_start_from_directory());
    assert!(error.is_config_format());
}

#[test]
fn configuration_without_entries_is_refused() {
    let res = plan_sandbox(&Configuration(Vec::new()), ".", true, 1, &LINKS_OFF);
    assert!(res.unwrap_err().is_should_start_from_directory());
}

#[test]
fn root_of_a_configuration_is_its_single_directory() {
    let config = dir_with_empty_file();
    assert_eq!(config.root().unwrap(), &config.0[0]);
    assert!(double_root_dirs()
        .root()
        .unwrap_err()
        .is_should_start_from_directory());
}

#[test]
fn create_test_dir_with_link_dependent_from_links_allowed_env_var() {
    let allowed = plan_sandbox(
        &dir_with_link(),
        ".",
        true,
        5,
        &Permissions::from_toggle(Some("Y")),
    );
    assert!(allowed.is_ok());
    assert_eq!(
        allowed.unwrap(),
        Plan {
            root: "./test_yaml_dir_with_link_5".to_string(),
            actions: vec![
                Action::CreateDir {
                    path: "./test_yaml_dir_with_link_5".to_string()
                },
                Action::HardLink {
                    target: "Cargo.toml".to_string(),
                    path: "./test_yaml_dir_with_link_5/cargo_link".to_string()
                },
            ],
        }
    );

    let refused = plan_sandbox(
        &dir_with_link(),
        ".",
        true,
        5,
        &Permissions::from_toggle(None),
    );
    if let Err(error) = refused {
        assert!(error.is_not_allowed_settings());
        assert_eq!(error.sandbox_dir(), None);
    } else {
        panic!("should return error");
    }
}

#[test]
fn start_point_is_checked_before_the_links() {
    let res = plan_sandbox(&dir_with_link(), "nowhere", false, 5, &LINKS_OFF);
    assert!(res.unwrap_err().is_should_start_from_directory());
}

#[test]
fn config_format_goes_by_the_first_character_that_is_not_blank() {
    assert_eq!(
        config_format("[{\"directory\":{\"name\": \"simple_test_dir\",\"content\": []}}]").unwrap(),
        ConfigFormat::Json
    );
    assert_eq!(config_format("{}").unwrap(), ConfigFormat::Json);
    assert_eq!(config_format(" \t\r\n [").unwrap(), ConfigFormat::Json);
    assert_eq!(
        config_format("---\n- !directory\n    name: \"yaml_serialization_test_dir\"\n    content: []\n")
            .unwrap(),
        ConfigFormat::Yaml
    );
    assert_eq!(
        config_format("\n    - !file\n        name: test.txt\n").unwrap(),
        ConfigFormat::Yaml
    );
    assert_eq!(config_format("x{").unwrap(), ConfigFormat::Yaml);
    assert_eq!(config_format("   ").unwrap(), ConfigFormat::Yaml);
    assert_eq!(config_format("\u{e9}[").unwrap(), ConfigFormat::Yaml);
}

#[test]
fn resolve_start_point_accepts_nothing_and_directories() {
    assert_eq!(resolve_start_point("", false).unwrap(), ".");
    assert_eq!(resolve_start_point("", true).unwrap(), ".");
    assert_eq!(resolve_start_point("some/dir", true).unwrap(), "some/dir");
    assert!(resolve_start_point("some/file", false)
        .unwrap_err()
        .is_should_start_from_directory());
}

#[test]
fn plan_without_start_point_builds_in_the_current_directory() {
    let plan = plan_sandbox(&dir_with_empty_file(), "", false, 42, &LINKS_OFF).unwrap();
    assert_eq!(plan.root, "./test_yaml_dir_with_empty_file_42");
    assert_eq!(
        plan.actions,
        vec![
            Action::CreateDir {
                path: "./test_yaml_dir_with_empty_file_42".to_string()
            },
            Action::CreateFile {
                path: "./test_yaml_dir_with_empty_file_42/test.txt".to_string()
            },
        ]
    );
}

#[test]
fn plan_of_a_cloned_root() {
    let config = Configuration(vec![ConfigEntry::CloneDirectory(CloneDirectoryConf {
        name: "test_yaml_config_with_clone_directory".to_string(),
        source: "src".to_string(),
    })]);
    let plan = plan_sandbox(&config, "tmp/", true, 0, &LINKS_OFF).unwrap();
    assert_eq!(plan.root, "tmp/test_yaml_config_with_clone_directory_0");
    assert_eq!(
        plan.actions,
        vec![Action::CloneDir {
            source: "src".to_string(),
            path: "tmp/test_yaml_config_with_clone_directory_0".to_string()
        }]
    );
}

#[test]
fn different_numbers_give_different_roots() {
    let first = plan_sandbox(&dir_with_empty_file(), ".", true, 1, &LINKS_OFF).unwrap();
    let second = plan_sandbox(&dir_with_empty_file(), ".", true, 11, &LINKS_OFF).unwrap();
    assert_ne!(first.root, second.root);
    assert_eq!(first.root, "./test_yaml_dir_with_empty_file_1");
    assert_eq!(second.root, "./test_yaml_dir_with_empty_file_11");
}

#[test]
fn plan_with_a_drawn_number_has_a_numbered_root() {
    let plan = FsTester::plan(&dir_with_empty_file(), ".", true, &LINKS_OFF).unwrap();
    let suffix = plan
        .root
        .strip_prefix("./test_yaml_dir_with_empty_file_")
        .expect("the root carries the configured name and an underscore");
    let code: u64 = suffix.parse().expect("the suffix is a number");
    assert_eq!(suffix, code.to_string());
    assert_eq!(plan.actions[0].path(), plan.root);
    assert_eq!(
        plan.actions[1].path(),
        format!("{}/test.txt", plan.root)
    );
}

#[test]
fn gen_dir_path_suffixes_only_level_zero() {
    assert_eq!(FsTester::gen_dir_path("./a_1", "b", 1), "./a_1/b");
    assert_eq!(FsTester::gen_dir_path("./a_1/b", "c", 2), "./a_1/b/c");
    let root = FsTester::gen_dir_path(".", "a", 0);
    let suffix = root.strip_prefix("./a_").expect("name and underscore");
    let code: u64 = suffix.parse().expect("the suffix is a number");
    assert_eq!(suffix, code.to_string());
}

#[test]
fn rollback_removes_the_created_root() {
    let mut error = failed_at_root("./test_7");
    let cleanup = rollback(&mut error, &usual_facts("/home/user/project/test_7"));
    assert_eq!(cleanup, Cleanup::Remove("./test_7".to_string()));
    assert!(!error.cleanup_skipped());
    assert!(error
        .message()
        .ends_with(" Created dir \"./test_7\" will be removed."));
}

#[test]
fn rollback_asks_for_nothing_without_a_recorded_root() {
    let mut error = FsTesterError::not_allowed_settings();
    let cleanup = rollback(&mut error, &usual_facts("/home/user/project/test_7"));
    assert_eq!(cleanup, Cleanup::Nothing);
    assert!(!error.cleanup_skipped());
}

#[test]
fn rollback_leaves_what_is_no_directory() {
    let mut error = failed_at_root("./test_7");
    let cleanup = rollback(
        &mut error,
        &facts(false, Some("/home/user/project/test_7"), Some("/"), Some("/home/user/project")),
    );
    assert_eq!(cleanup, Cleanup::Nothing);
}

#[test]
fn rollback_never_removes_the_current_directory() {
    let mut error = failed_at_root("../project");
    let cleanup = rollback(&mut error, &usual_facts("/home/user/project"));
    assert_eq!(cleanup, Cleanup::Refused);
    assert!(error.cleanup_skipped());
    assert!(error.is_io());
    assert_eq!(error.sandbox_dir(), Some("../project".to_string()));
    assert!(error.message().contains("was left in place"));
}

#[test]
fn rollback_never_removes_the_filesystem_root() {
    let mut error = failed_at_root("/");
    assert_eq!(rollback(&mut error, &facts(true, None, None, None)), Cleanup::Refused);
    let mut error = failed_at_root("/tmp/..");
    assert_eq!(rollback(&mut error, &usual_facts("/")), Cleanup::Refused);
    let mut error = failed_at_root(".");
    assert_eq!(rollback(&mut error, &facts(true, None, None, None)), Cleanup::Refused);
}

#[test]
fn teardown_removes_the_sandbox() {
    let tester = FsTester {
        config: dir_with_empty_file(),
        base_dir: "./test_yaml_dir_with_empty_file_42".to_string(),
    };
    assert_eq!(
        tester.teardown(&usual_facts(
            "/home/user/project/test_yaml_dir_with_empty_file_42"
        )),
        Cleanup::Remove("./test_yaml_dir_with_empty_file_42".to_string())
    );
}

#[test]
fn teardown_removes_even_when_no_canonical_form_is_known() {
    let tester = FsTester {
        config: dir_with_empty_file(),
        base_dir: "./gone_1".to_string(),
    };
    assert_eq!(
        tester.teardown(&facts(false, None, Some("/"), Some("/home/user/project"))),
        Cleanup::Remove("./gone_1".to_string())
    );
}

#[test]
fn teardown_never_removes_root_or_current_directory() {
    let current = FsTester {
        config: dir_with_empty_file(),
        base_dir: ".".to_string(),
    };
    assert_eq!(current.teardown(&facts(true, None, None, None)), Cleanup::Refused);
    let root = FsTester {
        config: dir_with_empty_file(),
        base_dir: "/./".to_string(),
    };
    assert_eq!(root.teardown(&usual_facts("/")), Cleanup::Refused);
    assert!(FsTester::protected("x/..", &usual_facts("/home/user/project")));
    assert!(!FsTester::protected("x", &usual_facts("/home/user/project/x")));
}

#[test]
fn perform_fs_test_runs_the_procedure_on_the_base_dir() {
    let tester = FsTester {
        config: dir_with_empty_file(),
        base_dir: "./test_yaml_dir_with_empty_file_42".to_string(),
    };
    let seen: RefCell<Vec<String>> = RefCell::new(Vec::new());
    tester.perform_fs_test(|dirname| {
        seen.borrow_mut().push(dirname.to_string());
        Ok(())
    });
    assert_eq!(
        seen.into_inner(),
        vec!["./test_yaml_dir_with_empty_file_42".to_string()]
    );
}

#[test]
fn basic_test_file_creation() {
    let config = Configuration(vec![ConfigEntry::Directory(DirectoryConf {
        name: "test".to_string(),
        content: vec![ConfigEntry::File(FileConf {
            name: "test.txt".to_string(),
            content: FileContent::InlineText("Hello, world!".to_string()),
        })],
    })]);
    let plan = plan_sandbox(&config, ".", true, 31, &LINKS_OFF).unwrap();
    assert_eq!(plan.root, "./test_31");
    assert_eq!(
        plan.actions,
        vec![
            Action::CreateDir {
                path: "./test_31".to_string()
            },
            Action::WriteFile {
                path: "./test_31/test.txt".to_string(),
                data: "Hello, world!".as_bytes().to_vec()
            },
        ]
    );
    let tester = FsTester::complete(
        config,
        plan.root,
        vec![Ok("./test_31/test.txt".to_string())],
    )
    .unwrap();
    assert_eq!(tester.base_dir, "./test_31");
    assert_eq!(tester.config.0.len(), 1);
}

#[test]
fn complete_reports_the_first_failure_with_the_root() {
    let failed = FsTester::complete(
        dir_with_empty_file(),
        "./t_2".to_string(),
        vec![
            Ok("./t_2/a".to_string()),
            Err(FsTesterError::io_error(std::io::Error::from_raw_os_error(2))),
            Err(FsTesterError::not_allowed_settings()),
        ],
    )
    .unwrap_err();
    assert!(failed.is_io());
    assert_eq!(failed.sandbox_dir(), Some("./t_2".to_string()));
    let mut failed = failed;
    assert_eq!(
        rollback(&mut failed, &usual_facts("/home/user/project/t_2")),
        Cleanup::Remove("./t_2".to_string())
    );
}
