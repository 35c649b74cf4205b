use jamesevim::editor::Editor;
use jamesevim::input::Effect;
use jamesevim::keys::{KeyCode, KeyPress, Mode};

fn open_text(contents: &str) -> Editor {
    let path = jamesevim::editor::FilePath {
        text: "notes.txt".to_string(),
        origin: jamesevim::state::Origin::Launch,
    };
    Editor::open(Some(path), Some(contents.to_string()))
}

fn press(editor: &mut Editor, code: KeyCode) {
    let key = KeyPress {
        code,
        control: false,
    };
    assert!(editor.accepts(key));
    assert!(matches!(editor.handle_key(key), Ok(Effect::Done)));
}

fn type_text(editor: &mut Editor, text: &str) {
    for c in text.chars() {
        press(editor, KeyCode::Char(c));
    }
}

#[test]
fn open_without_path_gives_one_empty_line() {
    let editor = Editor::open(None, None);
    assert_eq!(editor.lines, vec![String::new()]);
    assert_eq!((editor.cursor_line, editor.cursor_col), (0, 0));
    assert_eq!(editor.status, "JamesevIM Rust - NORMAL mode");
    assert_eq!(editor.mode, Mode::Normal);
    assert!(editor.path.is_none());
    assert!(editor.clipboard.is_empty());
    assert!(!editor.dirty && !editor.should_quit);
}

#[test]
fn open_ignores_contents_without_a_path() {
    assert_eq!(
        Editor::open(None, Some("text".to_string())).lines,
        vec![String::new()]
    );
}

#[test]
fn open_keeps_an_empty_line_after_the_last_line_feed() {
    assert_eq!(open_text("one\ntwo\n").lines, vec!["one", "two", ""]);
    assert_eq!(open_text("one\ntwo").lines, vec!["one", "two"]);
    assert_eq!(open_text("").lines, vec![""]);
    assert_eq!(open_text("\n").lines, vec!["", ""]);
}

#[test]
fn current_line_is_the_line_under_the_cursor() {
    let mut editor = open_text("one\ntwo");
    assert_eq!(editor.current_line(), "one");
    editor.cursor_line = 1;
    assert_eq!(editor.current_line(), "two");
}

#[test]
fn insert_char_moves_by_the_width_of_the_character() {
    let mut editor = open_text("ac");
    editor.cursor_col = 1;
    editor.insert_char('b');
    assert_eq!(editor.lines, vec!["abc"]);
    assert_eq!(editor.cursor_col, 2);
    editor.insert_char('é');
    assert_eq!(editor.lines, vec!["abéc"]);
    assert_eq!(editor.cursor_col, 4);
    editor.insert_char('漢');
    editor.insert_char('🎵');
    assert_eq!(editor.lines, vec!["abé漢🎵c"]);
    assert_eq!(editor.cursor_col, 11);
    assert!(editor.dirty);
}

#[test]
fn insert_newline_breaks_the_line_at_the_cursor() {
    let mut editor = open_text("héllo\nend");
    editor.cursor_col = 3;
    editor.insert_newline();
    assert_eq!(editor.lines, vec!["hé", "llo", "end"]);
    assert_eq!((editor.cursor_line, editor.cursor_col), (1, 0));
    assert!(editor.dirty);
}

#[test]
fn backspace_removes_a_whole_character() {
    let mut editor = open_text("aé漢b");
    editor.cursor_col = 6;
    editor.backspace();
    assert_eq!(editor.lines, vec!["aéb"]);
    assert_eq!(editor.cursor_col, 3);
    editor.backspace();
    assert_eq!(editor.lines, vec!["ab"]);
    assert_eq!(editor.cursor_col, 1);
    assert!(editor.dirty);
}

#[test]
fn backspace_at_the_start_of_a_line_joins_it_to_the_one_above() {
    let mut editor = open_text("é\nb\nc");
    editor.cursor_line = 1;
    editor.backspace();
    assert_eq!(editor.lines, vec!["éb", "c"]);
    assert_eq!((editor.cursor_line, editor.cursor_col), (0, 2));
    assert!(editor.dirty);
}

#[test]
fn backspace_at_the_start_of_the_text_does_nothing() {
    let mut editor = open_text("a");
    editor.backspace();
    assert_eq!(editor.lines, vec!["a"]);
    assert!(!editor.dirty);
}

#[test]
fn backspace_takes_back_a_character_and_a_line_break() {
    for c in ['x', 'é', '漢', '🎵'] {
        let mut editor = open_text("añb");
        editor.cursor_col = 3;
        editor.insert_char(c);
        editor.backspace();
        assert_eq!(editor.lines, vec!["añb"]);
        assert_eq!(editor.cursor_col, 3);
        editor.insert_newline();
        editor.backspace();
        assert_eq!(editor.lines, vec!["añb"]);
        assert_eq!((editor.cursor_line, editor.cursor_col), (0, 3));
    }
}

#[test]
fn delete_char_removes_the_character_under_the_cursor() {
    let mut editor = open_text("aéb");
    editor.cursor_col = 1;
    editor.delete_char();
    assert_eq!(editor.lines, vec!["ab"]);
    assert_eq!(editor.cursor_col, 1);
    assert!(editor.dirty);
    editor.insert_char('é');
    assert_eq!(editor.lines, vec!["aéb"]);
}

#[test]
fn delete_char_leaves_an_empty_line_alone() {
    let mut editor = open_text("");
    editor.delete_char();
    assert_eq!(editor.lines, vec![""]);
    assert!(!editor.dirty);
}

#[test]
fn delete_line_leaves_at_least_one_line() {
    let mut editor = open_text("one\ntwo");
    editor.cursor_line = 1;
    editor.delete_line();
    assert_eq!(editor.lines, vec!["one"]);
    assert_eq!(editor.cursor_line, 0);
    editor.delete_line();
    assert_eq!(editor.lines, vec![""]);
    assert_eq!((editor.cursor_line, editor.cursor_col), (0, 0));
}

#[test]
fn put_lines_says_when_there_is_nothing_to_put() {
    let mut editor = open_text("one");
    editor.put_lines(false);
    assert_eq!(editor.status, "Nothing to put");
    assert_eq!(editor.lines, vec!["one"]);
    assert!(!editor.dirty);
}

#[test]
fn put_lines_inserts_before_or_after_the_cursor() {
    let mut editor = open_text("one\ntwo");
    editor.yank_line();
    assert_eq!(editor.status, "1 line yanked");
    editor.put_lines(false);
    assert_eq!(editor.lines, vec!["one", "one", "two"]);
    assert_eq!(editor.cursor_line, 1);
    assert_eq!(editor.status, "1 line put");
    editor.clipboard = vec!["a".to_string(), "b".to_string()];
    editor.put_lines(true);
    assert_eq!(editor.lines, vec!["one", "a", "b", "one", "two"]);
    assert_eq!(editor.cursor_line, 1);
    assert_eq!(editor.status, "2 lines put");
}

#[test]
fn join_line_puts_one_space_between_lines() {
    let mut editor = open_text("one\n \t\u{3000} two\nthree");
    editor.cursor_col = 2;
    editor.join_line();
    assert_eq!(editor.lines, vec!["one two", "three"]);
    assert_eq!(editor.cursor_col, 2);
    editor.cursor_line = 1;
    editor.join_line();
    assert_eq!(editor.status, "E294: cannot join last line");
    assert_eq!(editor.lines, vec!["one two", "three"]);
}

#[test]
fn join_line_adds_no_space_to_an_empty_line() {
    let mut editor = open_text("\n  x\n\n   ");
    editor.join_line();
    assert_eq!(editor.lines, vec!["x", "", "   "]);
    editor.cursor_line = 1;
    editor.cursor_col = 0;
    editor.join_line();
    assert_eq!(editor.lines, vec!["x", ""]);
    assert_eq!(editor.cursor_col, 0);
}

#[test]
fn clamp_cursor_depends_on_the_mode() {
    let mut editor = open_text("one\ntw\n");
    editor.cursor_line = 9;
    editor.cursor_col = 9;
    editor.clamp_cursor();
    assert_eq!((editor.cursor_line, editor.cursor_col), (2, 0));
    editor.cursor_line = 1;
    editor.cursor_col = 9;
    editor.clamp_cursor();
    assert_eq!(editor.cursor_col, 1);
    editor.mode = Mode::Insert;
    editor.cursor_col = 9;
    editor.clamp_cursor();
    assert_eq!(editor.cursor_col, 2);
}

#[test]
fn ensure_visible_scrolls_no_more_than_needed() {
    let mut editor = open_text("1\n2\n3\n4\n5\n6\n7\n8\n9");
    editor.cursor_line = 5;
    editor.ensure_visible(0);
    assert_eq!(editor.scroll_top, 0);
    editor.ensure_visible(3);
    assert_eq!(editor.scroll_top, 3);
    editor.cursor_line = 4;
    editor.ensure_visible(3);
    assert_eq!(editor.scroll_top, 3);
    editor.cursor_line = 1;
    editor.ensure_visible(3);
    assert_eq!(editor.scroll_top, 1);
}

#[test]
fn visual_bounds_are_in_order() {
    let mut editor = open_text("1\n2\n3\n4");
    assert_eq!(editor.visual_bounds(), None);
    editor.cursor_line = 1;
    editor.visual_anchor = Some((3, 0));
    assert_eq!(editor.visual_bounds(), Some((1, 3)));
    editor.visual_anchor = Some((0, 0));
    assert_eq!(editor.visual_bounds(), Some((0, 1)));
}

#[test]
fn deleted_selection_can_be_put_back() {
    let mut editor = open_text("1\n2\n3\n4");
    type_text(&mut editor, "jvjd");
    assert_eq!(editor.lines, vec!["1", "4"]);
    assert_eq!(editor.clipboard, vec!["2", "3"]);
    assert_eq!(editor.cursor_line, 1);
    assert_eq!(editor.mode, Mode::Normal);
    type_text(&mut editor, "P");
    assert_eq!(editor.lines, vec!["1", "2", "3", "4"]);
    type_text(&mut editor, "vjjd");
    assert_eq!(editor.lines, vec!["1"]);
    type_text(&mut editor, "p");
    assert_eq!(editor.lines, vec!["1", "2", "3", "4"]);
}

#[test]
fn deleting_all_selected_lines_leaves_an_empty_one() {
    let mut editor = open_text("1\n2");
    type_text(&mut editor, "vjd");
    assert_eq!(editor.lines, vec![""]);
    assert_eq!(editor.clipboard, vec!["1", "2"]);
}

#[test]
fn yanked_selection_is_counted() {
    let mut editor = open_text("1\n2\n3");
    type_text(&mut editor, "vjy");
    assert_eq!(editor.status, "2 lines yanked");
    assert_eq!(editor.clipboard, vec!["1", "2"]);
    assert_eq!(editor.lines, vec!["1", "2", "3"]);
    assert!(!editor.dirty);
    type_text(&mut editor, "vy");
    assert_eq!(editor.status, "1 lines yanked");
}

#[test]
fn visual_operations_without_a_selection_do_nothing() {
    let mut editor = open_text("1\n2");
    editor.delete_visual_lines();
    editor.yank_visual_lines();
    assert_eq!(editor.lines, vec!["1", "2"]);
    assert!(editor.clipboard.is_empty());
    assert!(!editor.dirty);
}

#[test]
fn visual_mode_moves_and_ends() {
    let mut editor = open_text("abc\ndef");
    type_text(&mut editor, "lv");
    assert_eq!(editor.mode, Mode::Visual);
    assert_eq!(editor.status, "VISUAL mode");
    assert_eq!(editor.visual_anchor, Some((0, 1)));
    type_text(&mut editor, "lllj");
    assert_eq!((editor.cursor_line, editor.cursor_col), (1, 2));
    press(&mut editor, KeyCode::Up);
    press(&mut editor, KeyCode::Left);
    assert_eq!((editor.cursor_line, editor.cursor_col), (0, 1));
    type_text(&mut editor, "v");
    assert_eq!(editor.mode, Mode::Normal);
    assert_eq!(editor.visual_anchor, None);
    assert_eq!(editor.status, "NORMAL mode");
}

#[test]
fn operators_take_a_second_key() {
    let mut editor = open_text("one\ntwo\nthree");
    type_text(&mut editor, "jd");
    assert_eq!(editor.pending, Some('d'));
    type_text(&mut editor, "d");
    assert_eq!(editor.pending, None);
    assert_eq!(editor.lines, vec!["one", "three"]);
    assert_eq!(editor.clipboard, vec!["two"]);
    type_text(&mut editor, "P");
    assert_eq!(editor.lines, vec!["one", "two", "three"]);
    type_text(&mut editor, "yy");
    assert_eq!(editor.clipboard, vec!["two"]);
    type_text(&mut editor, "dy");
    assert_eq!(editor.status, "operator d canceled");
    type_text(&mut editor, "y");
    press(&mut editor, KeyCode::Esc);
    assert_eq!(editor.status, "operator y canceled");
    assert_eq!(editor.lines, vec!["one", "two", "three"]);
}

#[test]
fn deleted_last_line_is_put_back_after_the_cursor() {
    let mut editor = open_text("one\ntwo");
    type_text(&mut editor, "jddp");
    assert_eq!(editor.lines, vec!["one", "two"]);
    assert_eq!(editor.cursor_line, 1);
}

#[test]
fn typing_in_insert_mode() {
    let mut editor = open_text("");
    type_text(&mut editor, "ihello");
    press(&mut editor, KeyCode::Enter);
    type_text(&mut editor, "world");
    press(&mut editor, KeyCode::Left);
    press(&mut editor, KeyCode::Backspace);
    assert_eq!(editor.lines, vec!["hello", "word"]);
    assert_eq!((editor.cursor_line, editor.cursor_col), (1, 3));
    press(&mut editor, KeyCode::Right);
    press(&mut editor, KeyCode::Right);
    assert_eq!(editor.cursor_col, 4);
    press(&mut editor, KeyCode::Esc);
    assert_eq!(editor.mode, Mode::Normal);
    assert_eq!(editor.cursor_col, 3);
    assert_eq!(editor.status, "NORMAL mode");
    assert!(editor.dirty);
}

#[test]
fn control_keys_type_nothing() {
    let mut editor = open_text("");
    type_text(&mut editor, "i");
    let key = KeyPress {
        code: KeyCode::Char('c'),
        control: true,
    };
    assert!(editor.accepts(key));
    assert!(matches!(editor.handle_key(key), Ok(Effect::Done)));
    press(&mut editor, KeyCode::Other);
    assert_eq!(editor.lines, vec![""]);
    assert!(!editor.dirty);
}

#[test]
fn append_and_open_start_insert_mode() {
    let mut editor = open_text("ab\ncd");
    type_text(&mut editor, "aX");
    assert_eq!(editor.lines, vec!["aXb", "cd"]);
    press(&mut editor, KeyCode::Esc);
    type_text(&mut editor, "onew");
    assert_eq!(editor.lines, vec!["aXb", "new", "cd"]);
    assert_eq!(editor.mode, Mode::Insert);
}

#[test]
fn motions_stay_in_the_text() {
    let mut editor = open_text("abc\n\nde");
    type_text(&mut editor, "hlllll");
    assert_eq!((editor.cursor_line, editor.cursor_col), (0, 2));
    type_text(&mut editor, "j");
    assert_eq!((editor.cursor_line, editor.cursor_col), (1, 0));
    press(&mut editor, KeyCode::Down);
    press(&mut editor, KeyCode::Down);
    press(&mut editor, KeyCode::Right);
    assert_eq!((editor.cursor_line, editor.cursor_col), (2, 1));
    type_text(&mut editor, "kkk");
    assert_eq!((editor.cursor_line, editor.cursor_col), (0, 0));
    assert!(!editor.dirty);
}

#[test]
fn delete_char_key_moves_the_cursor_back_at_the_end() {
    let mut editor = open_text("ab");
    type_text(&mut editor, "lx");
    assert_eq!(editor.lines, vec!["a"]);
    assert_eq!(editor.cursor_col, 0);
    type_text(&mut editor, "xx");
    assert_eq!(editor.lines, vec![""]);
}

#[test]
fn keys_inside_a_character_are_not_accepted() {
    let mut editor = open_text("é");
    type_text(&mut editor, "a");
    assert_eq!(editor.cursor_col, 1);
    for code in [KeyCode::Char('x'), KeyCode::Enter, KeyCode::Backspace] {
        assert!(!editor.accepts(KeyPress {
            code,
            control: false
        }));
    }
    assert!(editor.accepts(KeyPress {
        code: KeyCode::Char('x'),
        control: true
    }));
    press(&mut editor, KeyCode::Right);
    assert_eq!(editor.cursor_col, 2);
    type_text(&mut editor, "x");
    assert_eq!(editor.lines, vec!["éx"]);
    editor.mode = Mode::Normal;
    editor.cursor_col = 1;
    assert!(!editor.accepts(KeyPress {
        code: KeyCode::Char('x'),
        control: false
    }));
}

#[test]
fn escape_leads_to_normal_mode() {
    for start in ["", "i", ":w", "vj", "d"] {
        let mut editor = open_text("one\ntwo");
        type_text(&mut editor, start);
        press(&mut editor, KeyCode::Esc);
        assert_eq!(editor.mode, Mode::Normal);
        assert_eq!(editor.lines, vec!["one", "two"]);
        assert_eq!(editor.pending, None);
        assert_eq!(editor.visual_anchor, None);
    }
}

#[test]
fn states_out_of_the_text_are_not_accepted() {
    let key = KeyPress {
        code: KeyCode::Other,
        control: false,
    };
    let mut editor = open_text("one");
    editor.cursor_line = 1;
    assert!(!editor.accepts(key));
    editor.cursor_line = 0;
    assert!(editor.accepts(key));
    editor.mode = Mode::Visual;
    editor.visual_anchor = Some((4, 0));
    assert!(editor.accepts(key));
    for code in [KeyCode::Char('d'), KeyCode::Char('y')] {
        assert!(!editor.accepts(KeyPress {
            code,
            control: false
        }));
    }
}

#[test]
fn typed_text_stands_where_the_cursor_was() {
    let mut editor = open_text("start end");
    type_text(&mut editor, "llllla");
    type_text(&mut editor, "mïd, 漢字 🎵 ");
    assert_eq!(editor.lines, vec!["start mïd, 漢字 🎵 end"]);
    assert_eq!(editor.cursor_col, "start mïd, 漢字 🎵 ".len());
    for _ in "mïd, 漢字 🎵 ".chars() {
        press(&mut editor, KeyCode::Backspace);
    }
    assert_eq!(editor.lines, vec!["start end"]);
    assert_eq!(editor.cursor_col, 6);
}
