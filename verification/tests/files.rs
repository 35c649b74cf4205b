use jamesevim::document::{file_contents, split_lines};
use jamesevim::editor::{Editor, FilePath};
use jamesevim::format::{align_left, align_right, decimal_text, trim, trim_start, white_space};
use jamesevim::state::Origin;
use jamesevim::text::{is_boundary, split_at_column, text_len};

fn strings(lines: &[&str]) -> Vec<String> {
    lines.iter().map(|line| line.to_string()).collect()
}

/// The lines of a file by way of the standard library.
fn expected_lines(contents: &str) -> Vec<String> {
    let mut lines: Vec<String> = contents.lines().map(String::from).collect();
    if contents.ends_with('\n') {
        lines.push(String::new());
    }
    if lines.is_empty() {
        lines.push(String::new());
    }
    lines
}

const SAMPLES: [&str; 16] = [
    "",
    "\n",
    "\r",
    "\r\n",
    "\n\n",
    "a",
    "a\n",
    "a\r",
    "a\r\n",
    "a\r\r\n",
    "a\nb",
    "a\r\nb\r",
    "\na\n",
    "é\n漢\n",
    "a\rb\n",
    "a\n\r",
];

#[test]
fn lines_are_split_at_line_feeds() {
    for contents in SAMPLES {
        assert_eq!(
            split_lines(&contents.to_string()),
            expected_lines(contents),
            "{contents:?}"
        );
    }
    assert_eq!(
        split_lines(&"a\r\nb\r".to_string()),
        strings(&["a", "b\r"])
    );
}

#[test]
fn contents_end_with_a_line_feed_unless_empty() {
    assert_eq!(file_contents(&strings(&[""])), "");
    assert_eq!(file_contents(&strings(&["a"])), "a\n");
    assert_eq!(file_contents(&strings(&["", ""])), "\n\n");
    assert_eq!(file_contents(&strings(&["a", "", "b"])), "a\n\nb\n");
}

#[test]
fn saved_lines_come_back_with_an_empty_line() {
    for lines in [
        strings(&["a"]),
        strings(&["a", "b"]),
        strings(&["", ""]),
        strings(&["é", "", "x"]),
    ] {
        let mut expected = lines.clone();
        expected.push(String::new());
        assert_eq!(split_lines(&file_contents(&lines)), expected);
    }
    assert_eq!(split_lines(&file_contents(&strings(&[""]))), strings(&[""]));
    assert_eq!(
        split_lines(&file_contents(&strings(&["a\r", "b"]))),
        strings(&["a", "b", ""])
    );
}

#[test]
fn read_contents_are_saved_with_one_more_line_feed() {
    for contents in ["a", "a\n", "\n", "a\nb\n\n", "x\ry"] {
        assert_eq!(
            file_contents(&split_lines(&contents.to_string())),
            format!("{contents}\n")
        );
    }
    assert_eq!(file_contents(&split_lines(&String::new())), "");
    assert_eq!(file_contents(&split_lines(&"a\r\nb".to_string())), "a\nb\n");
}

#[test]
fn load_path_replaces_the_text() {
    let mut editor = Editor::open(None, None);
    editor.clipboard = strings(&["kept"]);
    editor.dirty = true;
    editor.scroll_top = 3;
    editor.visual_anchor = Some((0, 0));
    let path = FilePath {
        text: "a.txt".to_string(),
        origin: Origin::Typed,
    };
    editor.load_path(path, &"x\ny\n".to_string());
    assert_eq!(editor.lines, strings(&["x", "y", ""]));
    assert_eq!(editor.path.as_ref().unwrap().text, "a.txt");
    assert_eq!(editor.clipboard, strings(&["kept"]));
    assert_eq!(editor.scroll_top, 0);
    assert_eq!(editor.visual_anchor, None);
    assert!(!editor.dirty);
}

#[test]
fn white_space_is_that_of_the_standard_library() {
    for code in 0..=0x10ffffu32 {
        if let Some(c) = char::from_u32(code) {
            assert_eq!(white_space(c), c.is_whitespace());
        }
    }
}

#[test]
fn trimming_is_that_of_the_standard_library() {
    for text in [
        "",
        " ",
        "a",
        " a ",
        "\t\u{3000}a b\u{a0}\n",
        "\u{200b}a",
        "é ",
        "\u{85}\u{2028}x\u{1680}",
    ] {
        let text = text.to_string();
        assert_eq!(trim(&text), text.trim());
        assert_eq!(trim_start(&text), text.trim_start());
    }
}

#[test]
fn numbers_are_written_in_decimal() {
    for n in [0u128, 7, 10, 99, 100, 65535, u64::MAX as u128 + 1] {
        assert_eq!(decimal_text(n), n.to_string());
    }
}

#[test]
fn fields_are_padded_by_characters() {
    for text in ["", "a", "éé", "1234", "12345"] {
        let text = text.to_string();
        assert_eq!(align_right(&text, 4), format!("{:>4}", text));
        assert_eq!(align_left(&text, 4), format!("{:<4}", text));
    }
}

#[test]
fn columns_count_bytes() {
    let text = "aé漢🎵".to_string();
    assert_eq!(text_len(&text), 10);
    for col in 0..12 {
        assert_eq!(is_boundary(&text, col), text.is_char_boundary(col));
    }
    for col in [0, 1, 3, 6, 10] {
        let (head, tail) = split_at_column(&text, col);
        assert_eq!((head.as_str(), tail.as_str()), text.split_at(col));
    }
}
