//! Behavior of the renderer: position tracking, cursor motion, clearing,
//! and the bell, observed through an in-memory sink.

use stream_term::{
    BellStyle, GraphemeClusterMode, Layout, Position, StreamWriter, VecSink,
};

fn writer(bell: BellStyle) -> StreamWriter<VecSink> {
    StreamWriter::new(VecSink::new(), GraphemeClusterMode::Unicode, bell)
}

#[test]
fn advance_on_empty_text_returns_start() {
    let w = writer(BellStyle::Silent);
    let p = Position { row: 3, col: 5 };
    let q = w.calculate_position("", p);
    assert_eq!(q, p);
}

#[test]
fn advance_on_newlines_only_adds_rows() {
    let w = writer(BellStyle::Silent);
    let p = Position { row: 2, col: 7 };
    let q = w.calculate_position("\n\n\n", p);
    assert_eq!(q, Position { row: 5, col: 0 });
}

#[test]
fn advance_counts_a_row_per_cluster() {
    let w = writer(BellStyle::Silent);
    let q = w.calculate_position("a\nb", Position { row: 0, col: 0 });
    assert_eq!(q, Position { row: 3, col: 1 });
}

#[test]
fn advance_uses_cluster_width_for_wide_scripts() {
    let w = writer(BellStyle::Silent);
    let q = w.calculate_position("\u{3042}", Position { row: 0, col: 0 });
    assert_eq!(q, Position { row: 1, col: 2 });
}

#[test]
fn advance_treats_combining_marks_as_one_cluster() {
    let w = writer(BellStyle::Silent);
    let q = w.calculate_position("e\u{301}", Position { row: 0, col: 0 });
    assert_eq!(q, Position { row: 1, col: 1 });
}

#[test]
fn fixed_mode_gives_every_cluster_one_column() {
    let w = StreamWriter::new(VecSink::new(), GraphemeClusterMode::Fixed, BellStyle::Silent);
    let q = w.calculate_position("\u{3042}", Position { row: 0, col: 0 });
    assert_eq!(q, Position { row: 1, col: 1 });
}

#[test]
fn width_policy_exact_values() {
    assert_eq!(GraphemeClusterMode::Unicode.width("\u{3042}"), 2);
    assert_eq!(GraphemeClusterMode::Unicode.width("e\u{301}"), 1);
    assert_eq!(GraphemeClusterMode::Fixed.width("\u{3042}"), 1);
}

#[test]
fn move_cursor_up_and_backward() {
    let mut w = writer(BellStyle::Silent);
    w.move_cursor(Position { row: 2, col: 5 }, Position { row: 0, col: 0 }).unwrap();
    assert_eq!(w.sink.data, b"\x1b[2A\x1b[5D".to_vec());
}

#[test]
fn move_cursor_down_and_forward_multi_digit() {
    let mut w = writer(BellStyle::Silent);
    w.move_cursor(Position { row: 0, col: 0 }, Position { row: 123, col: 10 }).unwrap();
    assert_eq!(w.sink.data, b"\x1b[123B\x1b[10C".to_vec());
}

#[test]
fn move_cursor_same_position_emits_nothing() {
    let mut w = writer(BellStyle::Silent);
    w.move_cursor(Position { row: 4, col: 9 }, Position { row: 4, col: 9 }).unwrap();
    assert_eq!(w.sink.data, Vec::<u8>::new());
}

#[test]
fn clear_rows_writes_one_sequence_per_row() {
    let mut w = writer(BellStyle::Silent);
    let layout = Layout {
        start: Position { row: 1, col: 0 },
        end: Position { row: 3, col: 4 },
    };
    w.clear_rows(&layout).unwrap();
    assert_eq!(w.sink.data, b"\x1b[K\n\x1b[K\n\x1b[K\n".to_vec());
    let count = w.sink.data.windows(4).filter(|s| *s == b"\x1b[K\n").count();
    assert_eq!(count, 3);
}

#[test]
fn clear_writes_exactly_that_many_spaces() {
    let mut w = writer(BellStyle::Silent);
    w.clear(5, Position { row: 0, col: 0 }).unwrap();
    assert_eq!(w.sink.data, b"     ".to_vec());
}

#[test]
fn clear_screen_homes_then_clears() {
    let mut w = writer(BellStyle::Silent);
    w.clear_screen().unwrap();
    assert_eq!(w.sink.data, b"\x1b[H\x1b[J".to_vec());
}

#[test]
fn move_cursor_at_leftmost_homes() {
    let mut w = writer(BellStyle::Silent);
    let mut rdr = stream_term::StreamReader::with_source(stream_term::VecSource::new(Vec::new()));
    w.move_cursor_at_leftmost(&mut rdr).unwrap();
    assert_eq!(w.sink.data, b"\x1b[H".to_vec());
}

#[test]
fn beep_rings_only_when_audible() {
    let mut w = writer(BellStyle::Audible);
    w.beep().unwrap();
    assert_eq!(w.sink.data, vec![7u8]);

    let mut silent = writer(BellStyle::Silent);
    silent.beep().unwrap();
    assert_eq!(silent.sink.data, Vec::<u8>::new());

    let mut visible = writer(BellStyle::Visible);
    visible.beep().unwrap();
    assert_eq!(visible.sink.data, Vec::<u8>::new());
}

#[test]
fn beep_with_bell_disabled_writes_nothing_and_succeeds() {
    let mut w = writer(BellStyle::Silent);
    let r = w.beep();
    assert!(r.is_ok());
    assert_eq!(w.sink.data.len(), 0);
}

#[test]
fn write_and_flush_sends_utf8_bytes() {
    let mut w = writer(BellStyle::Silent);
    w.write_and_flush("h\u{e9}llo").unwrap();
    assert_eq!(w.sink.data, "h\u{e9}llo".as_bytes().to_vec());
}

#[test]
fn refresh_line_writes_prompt_then_hint_verbatim() {
    let mut w = writer(BellStyle::Silent);
    let layout = Layout {
        start: Position { row: 0, col: 0 },
        end: Position { row: 0, col: 0 },
    };
    w.refresh_line("> ", "typed", Some("hint"), &layout, &layout).unwrap();
    assert_eq!(w.sink.data, b"> hint".to_vec());
    assert_eq!(w.buffer, b"> hint".to_vec());
}

#[test]
fn refresh_line_without_hint_writes_prompt_alone() {
    let mut w = writer(BellStyle::Silent);
    let layout = Layout {
        start: Position { row: 0, col: 0 },
        end: Position { row: 0, col: 0 },
    };
    w.refresh_line("> ", "", None, &layout, &layout).unwrap();
    assert_eq!(w.sink.data, b"> ".to_vec());
}

#[test]
fn dimensions_are_fixed_at_construction() {
    let mut w = writer(BellStyle::Silent);
    assert_eq!(w.get_columns(), 80);
    assert_eq!(w.get_rows(), 24);
    w.update_size();
    assert_eq!(w.get_columns(), 80);
    assert_eq!(w.get_rows(), 24);
    assert!(w.colors_enabled());
    assert_eq!(w.grapheme_cluster_mode(), GraphemeClusterMode::Unicode);
}
