use codex_session_control::cli::{codex_passthrough_arguments, parse_absolute_launcher_path};
use codex_session_control::error::{ControllerError, ToolErrorCategory, ToolErrorData};
use codex_session_control::paths::{components, is_desktop_entry_path, is_normalized_absolute_path, path_join, PathPart};
use codex_session_control::text::{chars_of, split_first, string_of, trimmed};
use codex_session_control::version::Version;
use codex_session_control::cli_output::shell_quote;
use codex_session_control::desktop::entry::{process_field_codes, tokenize_desktop_exec, unescape_desktop_string_value, ExecCharacter, ExecToken};

#[test]
fn controller_errors_exit_with_one_and_display_their_text() {
    let error = ControllerError::Operational("socket failed".to_owned());
    assert_eq!(error.exit_code(), 1);
    assert_eq!(error.message(), "socket failed");
    let error = ControllerError::InvalidData { field: "PATH", reason: "is unavailable" };
    assert_eq!(error.message(), "invalid PATH: is unavailable");
}

#[test]
fn fixed_errors_carry_only_category_tool_and_stage() {
    let error = ToolErrorData::fixed(ToolErrorCategory::TargetUnavailable, "thread_read", "connect");
    assert_eq!(error.message, "target is unavailable");
    assert_eq!(error.tool, "thread_read");
    assert_eq!(error.stage, "connect");
    assert!(error.thread_id.is_none() && error.turn_id.is_none() && error.native.is_none());
    assert!(error.dispatch.is_none() && error.observation.is_none() && error.reconciliation_error.is_none());
    for (category, message) in [
        (ToolErrorCategory::InvalidRequest, "request validation failed"),
        (ToolErrorCategory::PolicyRejected, "request rejected by session-control policy"),
        (ToolErrorCategory::AuthorityTransportFailure, "app-server transport failed"),
        (ToolErrorCategory::StageTimeout, "native stage timed out"),
        (ToolErrorCategory::NativeConflict, "native state conflicts with the request"),
        (ToolErrorCategory::NativeError, "native app-server request failed"),
        (ToolErrorCategory::OutcomeUnknown, "Mutation outcome is unknown. The request may already have been applied."),
    ] {
        assert_eq!(category.default_message(), message);
    }
}

#[test]
fn path_components_follow_unix_lexical_rules() {
    let parts = components(b"/a//b/./c/../");
    let names: Vec<String> = parts
        .iter()
        .map(|part| match part {
            PathPart::Root => "/".to_owned(),
            PathPart::Current => ".".to_owned(),
            PathPart::Parent => "..".to_owned(),
            PathPart::Normal(name) => String::from_utf8(name.clone()).unwrap(),
        })
        .collect();
    assert_eq!(names, vec!["/", "a", "b", "c", ".."]);
    assert!(matches!(components(b"./x").first(), Some(PathPart::Current)));
    assert!(is_normalized_absolute_path(b"/a/b"));
    assert!(!is_normalized_absolute_path(b"/a/b/"));
    assert_eq!(path_join(b"/a", b"b"), b"/a/b".to_vec());
    assert_eq!(path_join(b"/a/", b"b"), b"/a/b".to_vec());
    assert_eq!(path_join(b"/a", b"/b"), b"/b".to_vec());
    assert!(is_desktop_entry_path(b"/usr/share/applications/codex-desktop.desktop"));
    assert!(!is_desktop_entry_path(b"/usr/share/applications/.desktop"));
    assert!(!is_desktop_entry_path(b"/opt/codex"));
}

#[test]
fn text_helpers_split_and_trim_like_str() {
    let characters = chars_of("  key = value \t");
    let trimmed_text = trimmed(&characters, 0, characters.len());
    assert_eq!(string_of(&trimmed_text), "key = value");
    let (key, value) = split_first(&chars_of("a=b=c"), '=').unwrap();
    assert_eq!(string_of(&key), "a");
    assert_eq!(string_of(&value), "b=c");
    assert!(split_first(&chars_of("abc"), '=').is_none());
}

#[test]
fn versions_print_canonically() {
    assert_eq!(Version::new(1, 2, 3).to_text(), "1.2.3");
    assert_eq!(Version::new(0, 150, 10).to_text(), "0.150.10");
    let version = Version { major: 0, minor: 150, patch: 0, pre: "alpha.12.2".to_owned(), build: "build.5".to_owned() };
    assert_eq!(version.to_text(), "0.150.0-alpha.12.2+build.5");
    assert_eq!(Version::new(18446744073709551615, 0, 0).to_text(), "18446744073709551615.0.0");
}

#[test]
fn shell_quoting_wraps_in_single_quotes() {
    assert_eq!(shell_quote("/opt/Codex CLI/codex"), "'/opt/Codex CLI/codex'");
    assert_eq!(shell_quote("it's"), "'it'\\''s'");
    assert_eq!(shell_quote(""), "''");
}

#[test]
fn exec_values_lose_their_escaping_layers_in_order() {
    let unescaped = unescape_desktop_string_value(&chars_of("a\\sb\\\\c\\q"));
    let values: String = unescaped.iter().map(|c| c.value).collect();
    assert_eq!(values, "a b\\c\\q");
    assert!(unescaped[3].escaped_backslash);
    assert!(!unescaped[5].escaped_backslash);
    let tokens = tokenize_desktop_exec(&chars_of("  a  \"b c\"  ")).unwrap();
    assert_eq!(tokens.len(), 2);
    assert_eq!(tokens[1].value().iter().collect::<String>(), "b c");
    assert!(tokenize_desktop_exec(&chars_of("   ")).is_err());
    let token = ExecToken {
        characters: vec![ExecCharacter { value: '%', quoted: false }, ExecCharacter { value: 'U', quoted: false }],
        has_unquoted_reserved_character: false,
        has_unquoted_non_equals_reserved_character: false,
    };
    assert!(process_field_codes(&token).unwrap().is_none());
}

#[test]
fn codex_verbose_is_passed_through_to_codex_cli() {
    let args = |words: &[&str]| words.iter().map(|w| w.as_bytes().to_vec()).collect::<Vec<_>>();
    assert_eq!(codex_passthrough_arguments(args(&["csc", "--verbose", "codex", "--verbose"])), args(&["csc", "--verbose", "codex", "--", "--verbose"]));
    assert_eq!(codex_passthrough_arguments(args(&["csc", "setup", "--verbose"])), args(&["csc", "setup", "--verbose"]));
    assert_eq!(codex_passthrough_arguments(args(&["csc", "codex", "--model"])), args(&["csc", "codex", "--model"]));
    assert_eq!(parse_absolute_launcher_path("/opt/codex-desktop"), Ok("/opt/codex-desktop".to_owned()));
    assert_eq!(parse_absolute_launcher_path("codex-desktop"), Err("must be an absolute path".to_owned()));
    assert_eq!(
        parse_absolute_launcher_path("/opt/codex-desktop.desktop"),
        Err("must be an absolute executable path, not a desktop entry".to_owned())
    );
}
