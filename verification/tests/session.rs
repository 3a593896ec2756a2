use rconcli::session::{
    color_enabled, exit_code, is_quit, is_quit_word, join_command, next_step,
    session_mode, Input, Mode, SessionError, Step,
};
use rconcli::text::same_text;

fn words(list: &[&str]) -> Vec<String> {
    list.iter().map(|w| w.to_string()).collect()
}

#[test]
fn colors_only_on_a_terminal_and_unless_suppressed() {
    assert!(color_enabled(true, false));
    assert!(!color_enabled(true, true));
    assert!(!color_enabled(false, false));
    assert!(!color_enabled(false, true));
}

#[test]
fn exit_codes() {
    assert_eq!(exit_code(false), 0);
    assert_eq!(exit_code(true), 1);
}

#[test]
fn command_words_are_joined_with_single_spaces() {
    assert_eq!(join_command(&words(&[])), "");
    assert_eq!(join_command(&words(&["list"])), "list");
    assert_eq!(join_command(&words(&["say", "hello", "world"])), "say hello world");
    assert_eq!(join_command(&words(&["", ""])), " ");
    assert_eq!(join_command(&words(&["a", "", "b"])), "a  b");
}

#[test]
fn mode_of_a_session() {
    assert!(matches!(session_mode(&words(&[])), Ok(Mode::Interactive)));
    assert!(matches!(session_mode(&words(&[""])), Err(SessionError::EmptyCommand)));
    match session_mode(&words(&["time", "set", "day"])) {
        Ok(Mode::OneShot { command }) => assert_eq!(command, "time set day"),
        other => panic!("unexpected mode: {:?}", other),
    }
    match session_mode(&words(&["", ""])) {
        Ok(Mode::OneShot { command }) => assert_eq!(command, " "),
        other => panic!("unexpected mode: {:?}", other),
    }
    assert_eq!(SessionError::EmptyCommand.message(), "empty command");
}

#[test]
fn quit_words() {
    for word in ["exit", "e", "quit", "q"] {
        assert!(is_quit_word(word));
        assert!(is_quit(word));
    }
    for word in ["EXIT", "E", "Quit", "Q", "eXiT"] {
        assert!(!is_quit_word(word));
        assert!(is_quit(word));
    }
    for line in ["", "quit now", " exit", "exit ", "stop", "ex", "list"] {
        assert!(!is_quit_word(line));
        assert!(!is_quit(line));
    }
}

#[test]
fn texts_are_compared_by_their_characters() {
    assert!(same_text("", ""));
    assert!(same_text("abc", "abc"));
    assert!(!same_text("abc", "abd"));
    assert!(!same_text("abc", "ab"));
}

#[test]
fn steps_of_a_session() {
    match next_step(&Input::Line { text: "Say Hello".to_string() }) {
        Step::Send { command } => assert_eq!(command, "Say Hello"),
        other => panic!("unexpected step: {:?}", other),
    }
    assert!(matches!(next_step(&Input::Line { text: "QUIT".to_string() }), Step::Leave));
    assert!(matches!(next_step(&Input::Line { text: "e".to_string() }), Step::Leave));
    assert!(matches!(next_step(&Input::Interrupted), Step::Leave));
    assert!(matches!(next_step(&Input::Eof), Step::Leave));
    assert!(matches!(next_step(&Input::Failed), Step::Abort));
    match next_step(&Input::Line { text: String::new() }) {
        Step::Send { command } => assert_eq!(command, ""),
        other => panic!("unexpected step: {:?}", other),
    }
}
