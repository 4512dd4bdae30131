//! Behavior of the input reader, the terminal factories, and the external
//! printer, observed through in-memory streams.

use stream_term::{
    Behavior, BellStyle, ColorMode, Event, GraphemeClusterMode, StreamExternalPrinter,
    StreamReader, StreamTerminal, TermError, VecSink, VecSource,
};

fn reader(bytes: &[u8]) -> StreamReader<VecSource> {
    StreamReader::with_source(VecSource::new(bytes.to_vec()))
}

#[test]
fn wait_for_input_returns_text_then_end_of_input() {
    let mut r = reader(b"hi");
    match r.wait_for_input(false) {
        Ok(Event::ExternalPrint(s)) => assert_eq!(s, "hi"),
        other => panic!("expected an external print event, got {:?}", other.is_err()),
    }
    match r.wait_for_input(false) {
        Err(TermError::Eof) => {},
        _ => panic!("expected the end-of-input condition"),
    }
}

#[test]
fn wait_for_input_reads_in_chunks_of_at_most_128_bytes() {
    let mut r = reader(&[b'a'; 200]);
    match r.wait_for_input(false) {
        Ok(Event::ExternalPrint(s)) => assert_eq!(s.len(), 128),
        _ => panic!("expected an external print event"),
    }
    match r.wait_for_input(false) {
        Ok(Event::ExternalPrint(s)) => assert_eq!(s.len(), 72),
        _ => panic!("expected an external print event"),
    }
    assert!(matches!(r.wait_for_input(false), Err(TermError::Eof)));
}

#[test]
fn wait_for_input_decodes_invalid_bytes_lossily() {
    let mut r = reader(&[0xff, 0xfe]);
    match r.wait_for_input(false) {
        Ok(Event::ExternalPrint(s)) => assert_eq!(s, "\u{fffd}\u{fffd}"),
        _ => panic!("expected an external print event"),
    }
}

#[test]
fn next_char_reads_one_byte_as_a_character() {
    let mut r = reader(b"A\xe9");
    assert_eq!(r.next_char().unwrap(), 'A');
    assert_eq!(r.next_char().unwrap(), '\u{e9}');
    assert!(matches!(r.next_char(), Err(TermError::Eof)));
}

#[test]
fn read_pasted_text_drains_the_whole_stream() {
    let mut r = reader(b"line1\nline2");
    assert_eq!(r.read_pasted_text().unwrap(), "line1\nline2");
    assert!(matches!(r.wait_for_input(false), Err(TermError::Eof)));
}

#[test]
fn read_pasted_text_rejects_bytes_that_are_not_text() {
    let mut r = reader(&[b'a', 0xff]);
    assert!(matches!(r.read_pasted_text(), Err(TermError::Io)));
}

#[test]
fn next_key_reports_the_capability_missing() {
    let mut r = reader(b"anything");
    assert!(matches!(r.next_key(false), Err(TermError::Unsupported)));
}

#[test]
fn find_binding_finds_nothing_and_unbuffer_holds_nothing() {
    let r = reader(b"");
    assert!(r.find_binding(&stream_term::KeyEvent).is_none());
    assert!(r.unbuffer().is_none());
}

#[test]
fn external_printer_writes_the_whole_message() {
    let mut p = StreamExternalPrinter::with_sink(VecSink::new());
    p.print(String::from("injected\n")).unwrap();
    assert_eq!(p.writer.data, b"injected\n".to_vec());
    p.print(String::from("more")).unwrap();
    assert_eq!(p.writer.data, b"injected\nmore".to_vec());
}

#[test]
fn terminal_records_its_configuration() {
    let t = StreamTerminal::new(
        ColorMode::Enabled,
        GraphemeClusterMode::Unicode,
        Behavior::Stdio,
        8,
        BellStyle::Audible,
        true,
        false,
    )
    .unwrap();
    assert_eq!(t.color_mode, ColorMode::Enabled);
    assert_eq!(t.grapheme_cluster_mode, GraphemeClusterMode::Unicode);
    assert_eq!(t.behavior, Behavior::Stdio);
    assert_eq!(t.tab_stop, 8);
    assert_eq!(t.bell_style, BellStyle::Audible);
    assert!(t.enable_bracketed_paste);
    assert!(!t.enable_signals);
}

#[test]
fn terminal_capabilities_are_fixed() {
    let mut t = StreamTerminal::new(
        ColorMode::Disabled,
        GraphemeClusterMode::Fixed,
        Behavior::PreferTerm,
        4,
        BellStyle::Silent,
        false,
        true,
    )
    .unwrap();
    assert!(!t.is_unsupported());
    assert!(t.is_input_tty());
    assert!(!t.is_output_tty());
    assert!(t.writeln().is_ok());
    assert_eq!(t.set_cursor_visibility(true).unwrap(), None);
    let mode = t.enable_raw_mode().unwrap();
    assert!(mode.disable_raw_mode().is_ok());
}
