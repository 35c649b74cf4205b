use jamesevim::editor::{Editor, FilePath};
use jamesevim::keys::Mode;
use jamesevim::state::Origin;

fn open(contents: &str) -> Editor {
    let path = FilePath {
        text: "notes.txt".to_string(),
        origin: Origin::Launch,
    };
    Editor::open(Some(path), Some(contents.to_string()))
}

#[test]
fn rows_show_numbered_lines() {
    let mut editor = open("one\nzwölf Boxkämpfer\n3\n4");
    editor.cursor_line = 1;
    let frame = editor.render(12, 5);
    let rows: Vec<&str> = frame.rows.iter().map(|row| row.text.as_str()).collect();
    assert_eq!(rows, vec!["    1 one", ">   2 zwölf", "    3 3"]);
    assert!(frame.rows.iter().all(|row| !row.reversed));
    assert_eq!(frame.status, "NORMAL | JamesevIM Rust - NORMAL mode");
    assert_eq!(frame.status_row, 3);
    assert_eq!(frame.ruler, "2:1  notes.txt");
    assert_eq!(frame.ruler_row, 4);
    assert_eq!((frame.cursor_x, frame.cursor_y), (6, 1));
}

#[test]
fn selected_rows_are_reversed() {
    let mut editor = open("1\n2\n3\n4");
    editor.mode = Mode::Visual;
    editor.status = "VISUAL mode".to_string();
    editor.cursor_line = 2;
    editor.visual_anchor = Some((1, 0));
    let frame = editor.render(80, 24);
    let reversed: Vec<bool> = frame.rows.iter().map(|row| row.reversed).collect();
    assert_eq!(reversed, vec![false, true, true, false]);
    assert_eq!(frame.status, format!("{:<80}", "VISUAL | VISUAL mode"));
}

#[test]
fn unsaved_changes_are_marked() {
    let mut editor = open("1");
    editor.mode = Mode::Insert;
    editor.dirty = true;
    editor.status = "s".to_string();
    editor.path = None;
    let frame = editor.render(20, 10);
    assert_eq!(frame.status, "INSERT [+] | s      ");
    assert_eq!(frame.ruler, "1:1  [No Name]");
}

#[test]
fn command_line_is_shown_with_the_cursor_behind_it() {
    let mut editor = open("1");
    editor.mode = Mode::Command;
    editor.command = "wé".to_string();
    let frame = editor.render(8, 6);
    assert_eq!(frame.status, ":wé     ");
    assert_eq!((frame.cursor_x, frame.cursor_y), (4, 4));
    let frame = editor.render(3, 6);
    assert_eq!(frame.cursor_x, 2);
}

#[test]
fn rendering_scrolls_to_the_cursor() {
    let text: Vec<String> = (1..=20000).map(|n| n.to_string()).collect();
    let mut editor = open(&text.join("\n"));
    editor.cursor_line = 12344;
    let frame = editor.render(40, 12);
    assert_eq!(editor.scroll_top, 12335);
    assert_eq!(frame.rows.len(), 10);
    assert_eq!(frame.rows[0].text, " 12336 12336");
    assert_eq!(frame.rows[9].text, ">12345 12345");
    assert_eq!(frame.cursor_y, 9);
}

#[test]
fn tiny_screens_show_no_text() {
    let mut editor = open("one\ntwo");
    editor.cursor_line = 1;
    for (width, height) in [(0, 0), (1, 1), (5, 2)] {
        let frame = editor.render(width, height);
        assert!(frame.rows.is_empty());
        assert_eq!(editor.scroll_top, 0);
        assert_eq!(frame.status_row, 0);
        assert_eq!(frame.cursor_y, 1);
        assert_eq!(frame.cursor_x, width.saturating_sub(1));
    }
    let frame = editor.render(5, 4);
    assert_eq!(frame.rows[0].text, "    1 ");
}

#[test]
fn rows_below_the_text_are_left_out() {
    let mut editor = open("one");
    assert_eq!(editor.render(80, 24).rows.len(), 1);
}

#[test]
fn lines_far_below_a_screen_without_text_wrap_around() {
    let mut editor = open("");
    editor.lines = vec![String::new(); 65540];
    editor.cursor_line = 65537;
    assert_eq!(editor.render(10, 2).cursor_y, 1);
}
