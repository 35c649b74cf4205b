//! What the editor shows on the screen.
use vstd::math::{max, min};
use vstd::prelude::*;

use crate::editor::Editor;
use crate::format::{align_left, align_right, decimal, decimal_text, left_aligned, right_aligned};
use crate::keys::Mode;
use crate::state::{dirty_mark, shown_path, EditorState};
use crate::text::{byte_len, from_chars, text_len, to_chars};

verus! {

/// A line of text on the screen.
pub struct Row {
    /// Whether the row is shown in reverse video.
    pub reversed: bool,
    pub text: String,
}

/// A line of text on the screen as the model sees it.
pub struct RowView {
    pub reversed: bool,
    pub text: Seq<char>,
}

impl View for Row {
    type V = RowView;

    open spec fn view(&self) -> RowView {
        RowView { reversed: self.reversed, text: self.text@ }
    }
}

/// The contents of the screen.
pub struct Frame {
    /// The visible lines, from the top of the screen.
    pub rows: Vec<Row>,
    /// The status line, shown in reverse video.
    pub status: String,
    pub status_row: u16,
    /// The line that tells the place of the cursor and the path of the file.
    pub ruler: String,
    pub ruler_row: u16,
    pub cursor_x: u16,
    pub cursor_y: u16,
}

/// The contents of the screen as the model sees them.
#[verifier::ext_equal]
pub struct FrameView {
    pub rows: Seq<RowView>,
    pub status: Seq<char>,
    pub status_row: int,
    pub ruler: Seq<char>,
    pub ruler_row: int,
    pub cursor_x: int,
    pub cursor_y: int,
}

impl View for Frame {
    type V = FrameView;

    open spec fn view(&self) -> FrameView {
        FrameView {
            rows: Seq::new(self.rows@.len(), |i: int| self.rows@[i]@),
            status: self.status@,
            status_row: self.status_row as int,
            ruler: self.ruler@,
            ruler_row: self.ruler_row as int,
            cursor_x: self.cursor_x as int,
            cursor_y: self.cursor_y as int,
        }
    }
}

/// The difference, or zero where it would be negative.
pub open spec fn above(a: int, b: int) -> int {
    max(a - b, 0)
}

/// The name of a mode.
pub open spec fn mode_name(mode: Mode) -> Seq<char> {
    match mode {
        Mode::Normal => "NORMAL"@,
        Mode::Insert => "INSERT"@,
        Mode::Command => "COMMAND"@,
        Mode::Visual => "VISUAL"@,
    }
}

impl EditorState {
    /// Whether a line belongs to the selection.
    pub open spec fn selects(self, index: int) -> bool {
        self.selection() matches Some(bounds) && bounds.0 <= index <= bounds.1
    }

    /// The row that shows the line with the given index: a mark for the cursor's line, the
    /// line's number, and as much of the line as fits.
    pub open spec fn row(self, index: int, width: int) -> RowView {
        let line = self.lines[index];
        RowView {
            reversed: self.selects(index),
            text: (if index == self.cursor_line {
                ">"@
            } else {
                " "@
            }) + right_aligned(decimal((index + 1) as nat), 4) + " "@ + line.take(
                min(line.len() as int, above(width, 7)),
            ),
        }
    }

    /// The rows that show the text.
    pub open spec fn rows(self, width: int, height: int) -> Seq<RowView> {
        let count = min(above(height, 2), above(self.lines.len() as int, self.scroll_top));
        Seq::new(count as nat, |i: int| self.row(self.scroll_top + i, width))
    }

    /// What the status line says.
    pub open spec fn status_text(self) -> Seq<char> {
        if self.mode is Command {
            ":"@ + self.command
        } else {
            mode_name(self.mode) + dirty_mark(self.dirty) + " | "@ + self.status
        }
    }

    /// The place of the cursor, counted from one, and the path.
    pub open spec fn ruler_text(self) -> Seq<char> {
        decimal((self.cursor_line + 1) as nat) + ":"@ + decimal((self.cursor_col + 1) as nat)
            + "  "@ + shown_path(self.path)
    }

    /// What the screen shows.
    pub open spec fn frame(self, width: int, height: int) -> FrameView {
        FrameView {
            rows: self.rows(width, height),
            status: left_aligned(self.status_text(), width as nat),
            status_row: above(height, 2),
            ruler: self.ruler_text(),
            ruler_row: above(height, 1),
            cursor_x: min(
                if self.mode is Command {
                    byte_len(self.command) as int + 1
                } else {
                    self.cursor_col + 6
                },
                above(width, 1),
            ),
            cursor_y: if self.mode is Command {
                above(height, 2)
            } else {
                above(self.cursor_line, self.scroll_top) % 0x10000
            },
        }
    }
}

/// The smaller of a sum and a limit.
fn sum_up_to(a: usize, b: usize, limit: u16) -> (res: u16)
    ensures
        res == min(a + b, limit as int),
{
    let limit_wide: usize = limit as usize;
    if a >= limit_wide || b >= limit_wide - a {
        limit
    } else {
        (a + b) as u16
    }
}

impl Editor {
    /// The row that shows the line with the given index.
    fn draw_row(&self, index: usize, width: u16) -> (row: Row)
        requires
            index < self.lines.len(),
        ensures
            row@ == self@.row(index as int, width as int),
    {
        let reversed = match self.visual_bounds() {
            Some((first, last)) => first <= index && index <= last,
            None => false,
        };
        let mut text = if index == self.cursor_line {
            ">".to_owned()
        } else {
            " ".to_owned()
        };
        text.append(align_right(&decimal_text(index as u128 + 1), 4).as_str());
        text.append(" ");
        let chars = to_chars(&self.lines[index]);
        let available: usize = width.saturating_sub(7) as usize;
        let shown: usize = if chars.len() < available {
            chars.len()
        } else {
            available
        };
        let visible = from_chars(&chars, 0, shown);
        assert(visible@ == self@.lines[index as int].take(shown as int));
        text.append(visible.as_str());
        Row { reversed, text }
    }

    /// The rows that show the text.
    fn draw_rows(&self, width: u16, height: u16) -> (rows: Vec<Row>)
        ensures
            Seq::new(rows@.len(), |i: int| rows@[i]@) == self@.rows(width as int, height as int),
    {
        let content_height: usize = height.saturating_sub(2) as usize;
        let below: usize = if self.lines.len() > self.scroll_top {
            self.lines.len() - self.scroll_top
        } else {
            0
        };
        let count: usize = if below < content_height {
            below
        } else {
            content_height
        };
        let mut rows: Vec<Row> = Vec::new();
        let mut i: usize = 0;
        while i < count
            invariant
                i <= count,
                count <= below,
                below > 0 ==> self.scroll_top + below == self.lines.len(),
                rows.len() == i,
                forall|j: int|
                    0 <= j < i ==> (#[trigger] rows@[j])@ == self@.row(
                        self.scroll_top + j,
                        width as int,
                    ),
            decreases count - i,
        {
            assert(self.scroll_top + i < self.lines.len());
            rows.push(self.draw_row(self.scroll_top + i, width));
            i += 1;
        }
        rows
    }

    /// What the status line says.
    fn draw_status(&self) -> (res: String)
        ensures
            res@ == self@.status_text(),
    {
        match self.mode {
            Mode::Command => {
                let mut res = ":".to_owned();
                res.append(self.command.as_str());
                res
            },
            _ => {
                let mut res = match self.mode {
                    Mode::Normal => "NORMAL".to_owned(),
                    Mode::Insert => "INSERT".to_owned(),
                    Mode::Command => "COMMAND".to_owned(),
                    Mode::Visual => "VISUAL".to_owned(),
                };
                res.append(self.mark());
                res.append(" | ");
                res.append(self.status.as_str());
                res
            },
        }
    }

    /// The place of the cursor and the path.
    fn draw_ruler(&self) -> (res: String)
        ensures
            res@ == self@.ruler_text(),
    {
        let mut res = decimal_text(self.cursor_line as u128 + 1);
        res.append(":");
        res.append(decimal_text(self.cursor_col as u128 + 1).as_str());
        res.append("  ");
        res.append(self.path_text().as_str());
        res
    }

    /// Scrolls to the cursor and says what a screen of the given size shows.
    pub fn render(&mut self, width: u16, height: u16) -> (frame: Frame)
        ensures
            final(self)@ == old(self)@.scrolled(above(height as int, 2)),
            frame@ == final(self)@.frame(width as int, height as int),
    {
        self.ensure_visible(height.saturating_sub(2) as usize);
        let rows = self.draw_rows(width, height);
        let status = align_left(&self.draw_status(), width as usize);
        let ruler = self.draw_ruler();
        let (cursor_x, cursor_y) = match self.mode {
            Mode::Command => (
                sum_up_to(text_len(&self.command), 1, width.saturating_sub(1)),
                height.saturating_sub(2),
            ),
            _ => {
                let offset: usize = self.cursor_line.saturating_sub(self.scroll_top);
                (
                    sum_up_to(self.cursor_col, 6, width.saturating_sub(1)),
                    (offset % 0x10000) as u16,
                )
            },
        };
        Frame {
            rows,
            status,
            status_row: height.saturating_sub(2),
            ruler,
            ruler_row: height.saturating_sub(1),
            cursor_x,
            cursor_y,
        }
    }
}

} // verus!
