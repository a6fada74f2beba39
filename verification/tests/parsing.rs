use vrc_yutils::log::{is_log_file_name, latest_log_path, parse_line, player_event, LogCursor};
use vrc_yutils::notify::JoinType;
use vrc_yutils::sanitize::unsanitize;
use vrc_yutils::text::{after_first_exec, before_first_exec, decimal_string, equal_str, trim};

#[test]
fn log_line_player_joined() {
    let line = "2024.05.01 21:10:11 Log        -  [Behaviour] OnPlayerJoined Alice Smith\n";
    assert_eq!(
        parse_line(line),
        Some((JoinType::PlayerJoined, Some("Alice Smith".to_string())))
    );
    assert_eq!(player_event(line), Some((JoinType::PlayerJoined, "Alice Smith".to_string())));
}

#[test]
fn log_line_player_left_keeps_carriage_return() {
    let line = "x [Behaviour] OnPlayerLeft Bob\r\n";
    assert_eq!(parse_line(line), Some((JoinType::PlayerLeft, Some("Bob\r".to_string()))));
}

#[test]
fn log_line_marker_without_name_is_skipped() {
    let line = "[Behaviour] OnPlayerJoined \n";
    assert_eq!(parse_line(line), None);
    let line = "[Behaviour] OnPlayerJoined \n[Behaviour] OnPlayerJoined Carol";
    assert_eq!(parse_line(line), Some((JoinType::PlayerJoined, Some("Carol".to_string()))));
}

#[test]
fn log_line_room_events() {
    assert_eq!(
        parse_line("2024.05.01 [Behaviour] OnJoinedRoom\n"),
        Some((JoinType::JoinedRoom, None))
    );
    assert_eq!(parse_line("[Behaviour] OnLeftRoom"), Some((JoinType::LeftRoom, None)));
    assert_eq!(player_event("[Behaviour] OnLeftRoom"), None);
    assert_eq!(parse_line("nothing to see"), None);
}

#[test]
fn log_file_names() {
    assert!(is_log_file_name("output_log_2024-05-01_21-10-11.txt"));
    assert!(is_log_file_name("output_log_.txt"));
    assert!(!is_log_file_name("output_log.txt"));
    assert!(!is_log_file_name("output_log_a.txt.bak"));
    assert!(!is_log_file_name("xoutput_log_a.txt"));
    assert!(!is_log_file_name("output_log_a\nb.txt"));
}

#[test]
fn latest_log_prefers_latest_and_last() {
    assert_eq!(latest_log_path(&vec![]), None);
    let entries = vec![
        (10u128, "a".to_string()),
        (30u128, "b".to_string()),
        (20u128, "c".to_string()),
        (30u128, "d".to_string()),
    ];
    assert_eq!(latest_log_path(&entries), Some("d".to_string()));
}

#[test]
fn log_cursor_resumes_and_resets() {
    let mut cursor = LogCursor::new();
    assert!(cursor.observe("log1".to_string()));
    cursor.advance(120);
    assert!(!cursor.observe("log1".to_string()));
    assert_eq!(cursor.last_pos, 120);
    assert!(!cursor.observe("log2".to_string()));
    assert_eq!(cursor.last_pos, 0);
    assert_eq!(cursor.path.as_deref(), Some("log2"));
}

#[test]
fn unsanitize_restores_ascii() {
    assert_eq!(
        unsanitize("\u{ff03}tag \u{2044} a\u{2024}b \u{ff1f}\u{01c3} \u{2217}"),
        "#tag / a.b ?! *"
    );
    assert_eq!(unsanitize("plain text"), "plain text");
    let once = unsanitize("\u{ff5b}x\u{ff5d}");
    assert_eq!(unsanitize(&once), once);
}

#[test]
fn text_helpers() {
    assert_eq!(trim("\u{3000} user \n"), "user");
    assert_eq!(trim("   "), "");
    assert_eq!(before_first_exec("auth=abc; Path=/", ';'), "auth=abc");
    assert_eq!(before_first_exec("auth=abc", ';'), "auth=abc");
    assert_eq!(after_first_exec("auth=abc=d", '='), Some("abc=d".to_string()));
    assert_eq!(after_first_exec("auth", '='), None);
    assert_eq!(decimal_string(0), "0");
    assert_eq!(decimal_string(65535), "65535");
    assert!(equal_str("abc", "abc"));
    assert!(!equal_str("abc", "abd"));
}
