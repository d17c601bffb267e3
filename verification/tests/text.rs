use rust_remote_shell::command::is_exit_command;
use rust_remote_shell::text::{decimal_text, hexadecimal_text, same_text, trimmed};

#[test]
fn trimming_removes_unicode_white_space() {
    for s in [
        "", "exit", " exit\n", "\u{85}exit\u{3000}", "a b", " \t a b \u{2029}", "\u{200b}x ", "\n\n",
        "\u{1c}x",
    ] {
        assert_eq!(trimmed(s), s.trim());
    }
}

#[test]
fn exit_is_recognised_with_white_space_around() {
    assert!(is_exit_command("exit"));
    assert!(is_exit_command("  exit\r\n"));
    assert!(!is_exit_command("exit 1\n"));
    assert!(!is_exit_command("Exit\n"));
    assert!(!is_exit_command("\n"));
}

#[test]
fn decimals_are_written_without_leading_zeros() {
    for n in [0u32, 7, 10, 99, 100, 8080, 65535, u32::MAX] {
        assert_eq!(decimal_text(n), n.to_string());
    }
}

#[test]
fn hexadecimals_are_written_without_leading_zeros() {
    for n in [0u32, 9, 10, 15, 16, 0xabc, 0xffff, u32::MAX] {
        assert_eq!(hexadecimal_text(n), format!("{:x}", n));
    }
}

#[test]
fn texts_are_the_same_by_their_characters() {
    assert!(same_text("wss", "wss"));
    assert!(!same_text("ws", "wss"));
    assert!(!same_text("wsa", "wsb"));
    assert!(same_text("", ""));
}
