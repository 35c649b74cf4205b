use jamesevim::command::{parse_command, Command};
use jamesevim::editor::{Editor, FilePath};
use jamesevim::input::Effect;
use jamesevim::keys::{KeyCode, KeyPress, Mode};
use jamesevim::state::{Origin, SaveError};

fn key(code: KeyCode) -> KeyPress {
    KeyPress {
        code,
        control: false,
    }
}

fn notes(contents: &str) -> Editor {
    let path = FilePath {
        text: "notes.txt".to_string(),
        origin: Origin::Launch,
    };
    Editor::open(Some(path), Some(contents.to_string()))
}

fn run(editor: &mut Editor, command: &str) -> Result<Effect, SaveError> {
    assert!(matches!(
        editor.handle_key(key(KeyCode::Char(':'))),
        Ok(Effect::Done)
    ));
    assert_eq!(editor.mode, Mode::Command);
    for c in command.chars() {
        assert!(matches!(
            editor.handle_key(key(KeyCode::Char(c))),
            Ok(Effect::Done)
        ));
    }
    assert_eq!(editor.command, command);
    editor.handle_key(key(KeyCode::Enter))
}

fn run_done(editor: &mut Editor, command: &str) {
    assert!(matches!(run(editor, command), Ok(Effect::Done)));
    assert_eq!(editor.mode, Mode::Normal);
    assert_eq!(editor.command, "");
}

#[test]
fn quit_is_refused_with_unsaved_changes() {
    for (command, warning) in [
        ("q", "No write since last change (use :wq or :q!)"),
        ("qa", "No write since last change (use :wqa or :qa!)"),
        ("qall", "No write since last change (use :wqa or :qa!)"),
    ] {
        let mut editor = notes("one");
        editor.dirty = true;
        run_done(&mut editor, command);
        assert_eq!(editor.status, warning);
        assert!(!editor.should_quit);
        editor.dirty = false;
        run_done(&mut editor, command);
        assert!(editor.should_quit);
    }
}

#[test]
fn forced_quit_needs_no_save() {
    for command in ["q!", "qa!", "qall!"] {
        let mut editor = notes("one");
        editor.dirty = true;
        run_done(&mut editor, command);
        assert!(editor.should_quit);
    }
}

#[test]
fn write_hands_out_the_text() {
    let mut editor = notes("one\ntwo");
    editor.dirty = true;
    match run(&mut editor, "w") {
        Ok(Effect::Write {
            path,
            contents,
            quit,
        }) => {
            assert_eq!(path.text, "notes.txt");
            assert_eq!(path.origin, Origin::Launch);
            assert_eq!(contents, "one\ntwo\n");
            assert!(!quit);
            assert_eq!(editor.mode, Mode::Command);
            assert!(editor.dirty);
            editor.write_done(&path, quit);
        }
        _ => panic!("a write was asked for"),
    }
    assert_eq!(editor.mode, Mode::Normal);
    assert_eq!(editor.status, "\"notes.txt\" written");
    assert!(!editor.dirty && !editor.should_quit);
}

#[test]
fn write_and_quit_leaves_after_the_write() {
    for command in ["wq", "x", "wqa", "wq!", "x!", "wqa!", "wq notes.txt", "x notes.txt"] {
        let mut editor = notes("one");
        match run(&mut editor, command) {
            Ok(Effect::Write { path, quit, .. }) => {
                assert!(quit && !editor.should_quit);
                assert_eq!(path.text, "notes.txt");
                editor.write_done(&path, quit);
            }
            _ => panic!("a write was asked for"),
        }
        assert!(editor.should_quit);
    }
}

#[test]
fn write_under_another_path_keeps_it() {
    let mut editor = Editor::open(None, None);
    match run(&mut editor, "w  new file.txt \u{a0}") {
        Ok(Effect::Write { path, contents, .. }) => {
            assert_eq!(path.text, "new file.txt");
            assert_eq!(path.origin, Origin::Typed);
            assert_eq!(contents, "");
        }
        _ => panic!("a write was asked for"),
    }
    assert_eq!(editor.path.as_ref().unwrap().text, "new file.txt");
}

#[test]
fn write_without_a_path_fails() {
    for command in ["w", "wq", "x", "wqa", "wq!", "x!", "wqa!"] {
        let mut editor = Editor::open(None, None);
        assert!(matches!(
            run(&mut editor, command),
            Err(SaveError::NoFileName)
        ));
        assert!(!editor.should_quit);
        assert_eq!(editor.mode, Mode::Command);
        assert_eq!(editor.lines, vec![""]);
    }
}

#[test]
fn save_takes_the_requested_path() {
    let mut editor = notes("a");
    let path = FilePath {
        text: "b.txt".to_string(),
        origin: Origin::Typed,
    };
    let (path, contents) = editor.save(Some(path)).unwrap();
    assert_eq!((path.text.as_str(), contents.as_str()), ("b.txt", "a\n"));
    let (path, _) = editor.save(None).unwrap();
    assert_eq!(path.text, "b.txt");
    editor.dirty = true;
    editor.save_done(&path);
    assert!(!editor.dirty);
    assert_eq!(editor.status, "\"b.txt\" written");
}

#[test]
fn edit_asks_for_a_file() {
    for command in ["e other.txt", "edit  other.txt "] {
        let mut editor = notes("one\ntwo");
        editor.cursor_line = 1;
        match run(&mut editor, command) {
            Ok(Effect::Read { path }) => {
                assert_eq!(path.text, "other.txt");
                assert_eq!(path.origin, Origin::Typed);
                assert_eq!(editor.lines, vec!["one", "two"]);
                editor.read_done(path, &"x\r\ny".to_string());
            }
            _ => panic!("a read was asked for"),
        }
        assert_eq!(editor.lines, vec!["x", "y"]);
        assert_eq!((editor.cursor_line, editor.cursor_col), (0, 0));
        assert_eq!(editor.path.as_ref().unwrap().text, "other.txt");
        assert_eq!(editor.status, "\"other.txt\" loaded");
        assert_eq!(editor.mode, Mode::Normal);
    }
}

#[test]
fn edit_is_refused_with_unsaved_changes_or_without_a_path() {
    let mut editor = notes("one");
    run_done(&mut editor, "e  ");
    assert_eq!(editor.status, "Usage: :edit <path>");
    editor.dirty = true;
    run_done(&mut editor, "edit other.txt");
    assert_eq!(
        editor.status,
        "No write since last change (use :w or :edit!)"
    );
    assert_eq!(editor.lines, vec!["one"]);
}

#[test]
fn enew_starts_over() {
    let mut editor = notes("one\ntwo");
    editor.dirty = true;
    run_done(&mut editor, "enew");
    assert_eq!(
        editor.status,
        "No write since last change (use :w or :enew!)"
    );
    assert_eq!(editor.lines, vec!["one", "two"]);
    editor.dirty = false;
    run_done(&mut editor, "enew");
    assert_eq!(editor.status, "[No Name]");
    assert_eq!(editor.lines, vec![""]);
    assert!(editor.path.is_none() && !editor.dirty);
}

#[test]
fn pwd_asks_for_the_working_directory() {
    let mut editor = notes("one");
    assert!(matches!(
        run(&mut editor, "pwd"),
        Ok(Effect::ShowDirectory)
    ));
    assert_eq!(editor.mode, Mode::Command);
    editor.directory_done("/home".to_string());
    assert_eq!(editor.status, "/home");
    assert_eq!(editor.mode, Mode::Normal);
}

#[test]
fn file_tells_path_length_and_changes() {
    let mut editor = notes("1\n2\n3\n4\n5\n6\n7\n8\n9\n10\n11\n12");
    run_done(&mut editor, "file");
    assert_eq!(editor.status, "\"notes.txt\" 12 lines");
    editor.dirty = true;
    editor.path = None;
    run_done(&mut editor, "file");
    assert_eq!(editor.status, "\"[No Name]\" 12 lines [+]");
}

#[test]
fn telling_commands_set_the_status() {
    for (command, status) in [
        ("version", "JamesevIM Rust 0.1.0 (Vim-compatible migration)"),
        ("set number", "line numbers are enabled"),
        ("set nu", "line numbers are enabled"),
        ("set nonumber", "line numbers cannot be hidden in this build"),
        ("set nonu", "line numbers cannot be hidden in this build"),
        ("help", "Core: :e :w :wq :q :qa | Edit: :d :y :p :P :j"),
        ("", "Not an editor command: "),
        ("e", "Not an editor command: e"),
        ("w!", "Not an editor command: w!"),
        ("enew!", "Not an editor command: enew!"),
        (" q", "Not an editor command:  q"),
        ("größe", "Not an editor command: größe"),
    ] {
        let mut editor = notes("one\ntwo");
        run_done(&mut editor, command);
        assert_eq!(editor.status, status);
        assert_eq!(editor.lines, vec!["one", "two"]);
        assert!(!editor.dirty && !editor.should_quit);
    }
}

#[test]
fn editing_commands_edit() {
    for (delete, yank, put, put_before, join) in [
        ("d", "y", "p", "P", "j"),
        ("delete", "yank", "put", "Put", "join"),
    ] {
        let mut editor = notes("one\ntwo");
        run_done(&mut editor, delete);
        assert_eq!(editor.lines, vec!["two"]);
        assert_eq!(editor.clipboard, vec!["one"]);
        assert!(editor.dirty);
        run_done(&mut editor, put_before);
        assert_eq!(editor.lines, vec!["one", "two"]);
        run_done(&mut editor, yank);
        run_done(&mut editor, put);
        assert_eq!(editor.lines, vec!["one", "one", "two"]);
        run_done(&mut editor, join);
        assert_eq!(editor.lines, vec!["one", "one two"]);
        run_done(&mut editor, join);
        assert_eq!(editor.status, "E294: cannot join last line");
    }
}

#[test]
fn command_line_can_be_edited() {
    let mut editor = notes("one");
    for code in [
        KeyCode::Char(':'),
        KeyCode::Char('q'),
        KeyCode::Char('ü'),
        KeyCode::Backspace,
        KeyCode::Left,
        KeyCode::Other,
    ] {
        assert!(matches!(editor.handle_key(key(code)), Ok(Effect::Done)));
    }
    assert_eq!(editor.command, "q");
    assert_eq!(editor.mode, Mode::Command);
    assert!(matches!(
        editor.handle_key(key(KeyCode::Backspace)),
        Ok(Effect::Done)
    ));
    assert_eq!(editor.command, "");
    assert_eq!(editor.mode, Mode::Normal);
    assert!(matches!(
        editor.handle_command_key(key(KeyCode::Backspace)),
        Ok(Effect::Done)
    ));
    assert_eq!(editor.mode, Mode::Normal);
}

#[test]
fn escape_empties_the_command_line() {
    let mut editor = notes("one");
    for code in [KeyCode::Char(':'), KeyCode::Char('q'), KeyCode::Esc] {
        assert!(matches!(editor.handle_key(key(code)), Ok(Effect::Done)));
    }
    assert_eq!(editor.command, "");
    assert_eq!(editor.mode, Mode::Normal);
    assert!(!editor.should_quit);
}

#[test]
fn arguments_are_trimmed() {
    assert!(matches!(
        parse_command(&"e a b".to_string()),
        Command::Edit(path) if path == "a b"
    ));
    assert!(matches!(
        parse_command(&"wq \u{2003}ä ".to_string()),
        Command::WriteQuit(Some(path)) if path == "ä"
    ));
    assert!(matches!(
        parse_command(&"w ".to_string()),
        Command::Write(Some(path)) if path.is_empty()
    ));
    assert!(matches!(
        parse_command(&"exit".to_string()),
        Command::Unknown(text) if text == "exit"
    ));
}
