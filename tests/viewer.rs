use milli::document::Document;
use milli::editor::{Editor, StatusMessage};
use milli::navigation::{move_cursor, Key};
use milli::position::{Position, Size};
use milli::row::Row;
use milli::screen::{draw_row, draw_status_bar, render_welcome, Command};
use milli::scroll::rescroll;

fn pos(x: usize, y: usize) -> Position {
    Position { x, y }
}

fn lines_of(frame: &[Command]) -> Vec<String> {
    frame
        .iter()
        .filter_map(|c| match c {
            Command::Line(s) => Some(s.clone()),
            _ => None,
        })
        .collect()
}

#[test]
fn three_line_file_loads_verbatim() {
    let doc = Document::from_text("first\nsecond line\r\nthird\n", Some("f.txt".to_string()));
    assert_eq!(doc.len(), 3);
    assert!(!doc.is_empty());
    assert_eq!(doc.row(0).unwrap().text(), "first");
    assert_eq!(doc.row(1).unwrap().text(), "second line");
    assert_eq!(doc.row(2).unwrap().text(), "third");
    assert!(doc.row(3).is_none());
    assert!(doc.row(usize::MAX).is_none());
    assert_eq!(doc.file_name(), Some("f.txt".to_string()));
}

#[test]
fn text_without_final_newline_and_blank_lines() {
    let doc = Document::from_text("a\n\nb", None);
    assert_eq!(doc.len(), 3);
    assert_eq!(doc.row(1).unwrap().text(), "");
    assert_eq!(doc.row(2).unwrap().text(), "b");
    let empty = Document::from_text("", None);
    assert!(empty.is_empty());
    assert_eq!(empty.len(), 0);
    let only_newline = Document::from_text("\n", None);
    assert_eq!(only_newline.len(), 1);
    assert_eq!(only_newline.row(0).unwrap().text(), "");
}

#[test]
fn built_in_document() {
    let doc = Document::open();
    assert_eq!(doc.len(), 1);
    assert_eq!(doc.row(0).unwrap().text(), "Hello world!");
    assert_eq!(doc.file_name(), None);
}

#[test]
fn render_windows_and_clamps() {
    let row = Row::new("hello");
    assert_eq!(row.render(1, 3), "el");
    assert_eq!(row.render(0, 100), "hello");
    assert_eq!(row.render(3, 1), "");
    assert_eq!(row.render(5, 9), "");
    assert_eq!(row.render(50, 60), "");
    assert_eq!(row.render(usize::MAX, usize::MAX), "");
    assert_eq!(row.render(1, 3), row.render(1, 3));
    for start in 0..8usize {
        for end in 0..8usize {
            let n = row.render(start, end).chars().count();
            assert!(n <= end.saturating_sub(start));
        }
    }
}

#[test]
fn render_expands_tabs_to_tab_stops() {
    let row = Row::new("a\tb");
    assert_eq!(row.len(), 3);
    assert_eq!(row.width(), 9);
    assert_eq!(row.render(0, 9), "a       b");
    assert_eq!(row.render(7, 9), " b");
    let wide = Row::new("abcdefgh\tx");
    assert_eq!(wide.width(), 17);
    assert_eq!(wide.text(), "abcdefgh\tx");
    assert!(Row::new("").is_empty());
}

#[test]
fn rescroll_down_right_up_left() {
    let size = Size { width: 10, height: 5 };
    assert_eq!(rescroll(&pos(3, 7), &size, &pos(0, 0)), pos(0, 3));
    assert_eq!(rescroll(&pos(12, 2), &size, &pos(0, 0)), pos(3, 0));
    assert_eq!(rescroll(&pos(1, 1), &size, &pos(4, 6)), pos(1, 1));
}

#[test]
fn rescroll_keeps_visible_cursor_offset() {
    let size = Size { width: 10, height: 5 };
    assert_eq!(rescroll(&pos(5, 4), &size, &pos(0, 0)), pos(0, 0));
    assert_eq!(rescroll(&pos(12, 8), &size, &pos(3, 4)), pos(3, 4));
}

#[test]
fn rescroll_always_shows_cursor() {
    let size = Size { width: 3, height: 2 };
    for cx in 0..10usize {
        for cy in 0..10usize {
            for ox in 0..10usize {
                for oy in 0..10usize {
                    let o = rescroll(&pos(cx, cy), &size, &pos(ox, oy));
                    assert!(o.x <= cx && cx < o.x + 3);
                    assert!(o.y <= cy && cy < o.y + 2);
                }
            }
        }
    }
}

#[test]
fn rescroll_near_largest_coordinates() {
    let size = Size { width: 10, height: 5 };
    assert_eq!(rescroll(&pos(usize::MAX, usize::MAX), &size, &pos(0, 0)), pos(usize::MAX - 9, usize::MAX - 4));
    let zero = Size { width: 0, height: 0 };
    assert_eq!(rescroll(&pos(4, 6), &zero, &pos(1, 1)), pos(4, 6));
}

#[test]
fn navigation_saturates_at_origin() {
    let doc = Document::from_text("abc\nde\n", None);
    let origin = pos(0, 0);
    assert_eq!(move_cursor(&doc, &origin, Key::Left, 5), origin);
    assert_eq!(move_cursor(&doc, &origin, Key::Up, 5), origin);
    assert_eq!(move_cursor(&doc, &origin, Key::PageUp, 5), origin);
}

#[test]
fn navigation_keys() {
    let doc = Document::from_text("abcdef\nde\nxyz\n", None);
    assert_eq!(move_cursor(&doc, &pos(5, 0), Key::Down, 5), pos(2, 1));
    assert_eq!(move_cursor(&doc, &pos(1, 0), Key::Right, 5), pos(2, 0));
    assert_eq!(move_cursor(&doc, &pos(4, 0), Key::Home, 5), pos(0, 0));
    assert_eq!(move_cursor(&doc, &pos(0, 2), Key::End, 5), pos(3, 2));
    assert_eq!(move_cursor(&doc, &pos(0, 0), Key::PageDown, 2), pos(0, 2));
    assert_eq!(move_cursor(&doc, &pos(0, 0), Key::PageDown, 10), pos(0, 3));
    assert_eq!(move_cursor(&doc, &pos(0, 3), Key::Down, 5), pos(0, 3));
    assert_eq!(move_cursor(&doc, &pos(1, 2), Key::PageUp, 1), pos(1, 1));
    assert_eq!(move_cursor(&doc, &pos(1, 2), Key::Char('x'), 1), pos(1, 2));
}

#[test]
fn down_end_right_in_small_viewport() {
    let doc = Document::from_text("abc\nde", None);
    let mut editor = Editor::new(doc, StatusMessage::new(String::new(), 0));
    let size = Size { width: 10, height: 5 };
    assert_eq!(editor.cursor_position(), pos(0, 0));
    editor.process_keypress(Key::Down, &size);
    editor.process_keypress(Key::End, &size);
    assert_eq!(editor.cursor_position(), pos(2, 1));
    editor.process_keypress(Key::Right, &size);
    assert_eq!(editor.cursor_position(), pos(2, 1));
    assert_eq!(editor.offset(), pos(0, 0));
    assert!(!editor.should_quit());
}

#[test]
fn scrolling_follows_cursor() {
    let text: String = (0..20).map(|i| format!("line {}\n", i)).collect();
    let doc = Document::from_text(&text, None);
    let mut editor = Editor::new(doc, StatusMessage::new(String::new(), 0));
    let size = Size { width: 4, height: 3 };
    for _ in 0..5 {
        editor.process_keypress(Key::Down, &size);
    }
    assert_eq!(editor.cursor_position(), pos(0, 5));
    assert_eq!(editor.offset(), pos(0, 3));
    editor.process_keypress(Key::End, &size);
    assert_eq!(editor.cursor_position(), pos(6, 5));
    assert_eq!(editor.offset(), pos(3, 3));
    let frame = editor.refresh_screen(&size, 0);
    let lines = lines_of(&frame);
    assert_eq!(lines[0], "e 3");
    assert_eq!(lines[1], "e 4");
    assert_eq!(lines[2], "e 5");
    assert!(matches!(frame[frame.len() - 3], Command::MoveTo(Position { x: 3, y: 2 })));
}

#[test]
fn empty_document_shows_welcome_banner() {
    let doc = Document::from_text("", None);
    let editor = Editor::new(doc, StatusMessage::new(String::new(), 0));
    let size = Size::viewport(80, 24);
    assert_eq!(size, Size { width: 80, height: 22 });
    let frame = editor.refresh_screen(&size, 0);
    let lines = lines_of(&frame);
    let banner = "Milli Editor -- version 0.1.0";
    let lead = (80 - banner.len()) / 2 - 1;
    for (i, line) in lines.iter().take(22).enumerate() {
        if i == 7 {
            assert_eq!(*line, format!("~{}{}", " ".repeat(lead), banner));
        } else {
            assert_eq!(line, "~");
        }
    }
    assert_eq!(frame.len(), 2 * 22 + 13);
}

#[test]
fn quit_frame_clears_once_and_says_goodbye() {
    let mut editor = Editor::default();
    let size = Size { width: 80, height: 22 };
    let first = editor.refresh_screen(&size, 0);
    assert!(!first.iter().any(|c| matches!(c, Command::ClearScreen)));
    editor.process_keypress(Key::Ctrl('q'), &size);
    assert!(editor.should_quit());
    let last = editor.refresh_screen(&size, 0);
    assert_eq!(last.iter().filter(|c| matches!(c, Command::ClearScreen)).count(), 1);
    assert_eq!(lines_of(&last), vec!["Goodbye.".to_string()]);
    assert!(matches!(last[last.len() - 1], Command::Flush));
}

#[test]
fn other_keys_change_nothing() {
    let mut editor = Editor::default();
    let size = Size { width: 80, height: 22 };
    editor.process_keypress(Key::Char('q'), &size);
    editor.process_keypress(Key::Ctrl('x'), &size);
    editor.process_keypress(Key::Other, &size);
    assert!(!editor.should_quit());
    assert_eq!(editor.cursor_position(), pos(0, 0));
}

#[test]
fn welcome_banner_centering_and_truncation() {
    assert_eq!(render_welcome(10), "~Milli Edit");
    assert_eq!(render_welcome(0), "~");
    let w = render_welcome(39);
    assert_eq!(w, format!("~{}Milli Editor -- version 0.1.0", " ".repeat(4)));
}

#[test]
fn status_bar_layout() {
    let doc = Document::from_text("a\nb\nc\n", Some("notes.txt".to_string()));
    assert_eq!(draw_status_bar(&doc, 1, 30), format!("notes.txt - 3 lines{}2/3", " ".repeat(8)));
    assert_eq!(draw_status_bar(&doc, 1, 10), "notes.txt ");
    let unnamed = Document::from_text("x", None);
    assert_eq!(draw_status_bar(&unnamed, 0, 24), "[No Name] - 1 lines  1/1");
    let long = Document::from_text("x", Some("a_very_long_file_name_indeed.txt".to_string()));
    assert_eq!(
        draw_status_bar(&long, 9, 40),
        format!("a_very_long_file_nam - 1 lines{}10/1", " ".repeat(6))
    );
}

#[test]
fn message_bar_expires() {
    let msg = StatusMessage::new("HELP: Ctrl-Q = quit".to_string(), 100);
    assert_eq!(msg.render(100, 80), "HELP: Ctrl-Q = quit");
    assert_eq!(msg.render(104, 4), "HELP");
    assert_eq!(msg.render(105, 80), "");
    assert_eq!(msg.render(50, 80), "HELP: Ctrl-Q = quit");
}

#[test]
fn running_frame_layout() {
    let doc = Document::from_text("abc\nde", Some("x.txt".to_string()));
    let editor = Editor::new(doc, StatusMessage::new("hi".to_string(), 0));
    let size = Size { width: 20, height: 3 };
    let frame = editor.refresh_screen(&size, 1);
    assert_eq!(frame.len(), 2 * 3 + 13);
    assert!(matches!(frame[0], Command::HideCursor));
    assert!(matches!(frame[1], Command::MoveTo(Position { x: 0, y: 0 })));
    assert_eq!(lines_of(&frame), vec!["abc", "de", "~", "x.txt - 2 lines  1/2"]);
    assert!(matches!(frame[9], Command::SetBg(239, 239, 239)));
    assert!(matches!(frame[10], Command::SetFg(63, 63, 63)));
    assert!(matches!(&frame[15], Command::Text(t) if t == "hi"));
    assert!(matches!(frame[18], Command::Flush));
}

#[test]
fn draw_row_past_document() {
    let doc = Document::from_text("abc", None);
    let size = Size { width: 2, height: 4 };
    assert_eq!(draw_row(&doc, &pos(1, 0), &size, 0), "bc");
    assert_eq!(draw_row(&doc, &pos(0, 0), &size, 1), "~");
    assert_eq!(draw_row(&doc, &pos(0, usize::MAX), &size, 3), "~");
}
