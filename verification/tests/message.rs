use rfs_tester::rfs::fs_tester_error::compose_message;

#[test]
fn compose_message_without_place_and_root_is_the_text() {
    assert_eq!(compose_message("boom", 0, 0, None, false), "boom");
}

#[test]
fn compose_message_adds_line_and_column() {
    assert_eq!(
        compose_message("boom", 3, 14, None, false),
        "boom at line 3 column 14"
    );
}

#[test]
fn compose_message_with_line_zero_drops_the_column() {
    assert_eq!(compose_message("boom", 0, 9, None, false), "boom");
}

#[test]
fn compose_message_names_the_sandbox_root() {
    assert_eq!(
        compose_message("boom", 1, 0, Some("./t_5"), false),
        "boom at line 1 column 0 Created dir \"./t_5\" will be removed."
    );
}

#[test]
fn compose_message_says_that_the_root_was_left() {
    assert_eq!(
        compose_message("boom", 0, 0, Some("/"), true),
        "boom Created dir \"/\" was left in place: removing the root or the current directory is refused."
    );
}

#[test]
fn compose_message_ignores_the_mark_without_a_root() {
    assert_eq!(compose_message("boom", 0, 0, None, true), "boom");
}
