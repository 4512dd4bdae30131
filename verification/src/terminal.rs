//! The stream-backed terminal: construction-time configuration and the
//! factories for its reader, writer and external printer.

use vstd::prelude::*;
use crate::config::{Behavior, BellStyle, ColorMode};
use crate::error::TermError;
use crate::printer::StreamExternalPrinter;
use crate::reader::StreamReader;
use crate::sink::ByteSink;
use crate::stdio::{StdinSource, StdoutSink};
use crate::width::GraphemeClusterMode;
use crate::writer::StreamWriter;

verus! {

/// A terminal over plain, non-interactive streams: no raw mode, no window
/// size queries, no key decoding. The recognized options are kept; only the
/// grapheme-cluster mode and the bell style change this backend's behavior.
pub struct StreamTerminal {
    /// Whether color escape sequences may be emitted.
    pub color_mode: ColorMode,
    /// How grapheme clusters map to column widths.
    pub grapheme_cluster_mode: GraphemeClusterMode,
    /// How the backend acquires its streams.
    pub behavior: Behavior,
    /// The tab stop width, kept for interface compatibility.
    pub tab_stop: u8,
    /// Whether `beep` rings.
    pub bell_style: BellStyle,
    /// Whether bracketed paste would be enabled on a real terminal.
    pub enable_bracketed_paste: bool,
    /// Whether signal handling would be enabled on a real terminal.
    pub enable_signals: bool,
}

/// The raw-mode guard for a stream that was never in raw mode: disabling is
/// a no-op that always succeeds.
pub struct StreamMode;

impl StreamMode {
    /// Nothing was enabled, so nothing needs restoring.
    pub fn disable_raw_mode(&self) -> (r: Result<(), TermError>)
        ensures
            r is Ok,
    {
        Ok(())
    }
}

impl StreamTerminal {
    /// Records the configuration; construction cannot fail on a stream.
    pub fn new(
        color_mode: ColorMode,
        grapheme_cluster_mode: GraphemeClusterMode,
        behavior: Behavior,
        tab_stop: u8,
        bell_style: BellStyle,
        enable_bracketed_paste: bool,
        enable_signals: bool,
    ) -> (r: Result<StreamTerminal, TermError>)
        ensures
            r matches Ok(t) && t == (StreamTerminal {
                color_mode,
                grapheme_cluster_mode,
                behavior,
                tab_stop,
                bell_style,
                enable_bracketed_paste,
                enable_signals,
            }),
    {
        Ok(
            StreamTerminal {
                color_mode,
                grapheme_cluster_mode,
                behavior,
                tab_stop,
                bell_style,
                enable_bracketed_paste,
                enable_signals,
            },
        )
    }

    /// A stream is always supported; there is nothing to probe.
    pub fn is_unsupported(&self) -> (r: bool)
        ensures
            !r,
    {
        false
    }

    /// The input side is treated as interactive enough to read from.
    pub fn is_input_tty(&self) -> (r: bool)
        ensures
            r,
    {
        true
    }

    /// The output side is a plain stream, never a terminal.
    pub fn is_output_tty(&self) -> (r: bool)
        ensures
            !r,
    {
        false
    }

    /// There is no raw mode to enter on a stream; the guard is a no-op.
    pub fn enable_raw_mode(&mut self) -> (r: Result<StreamMode, TermError>)
        ensures
            r is Ok,
            *final(self) == *old(self),
    {
        Ok(StreamMode)
    }

    /// A reader over standard input.
    pub fn create_reader(&self) -> (r: StreamReader<StdinSource>) {
        StreamReader::with_source(StdinSource::new())
    }

    /// A renderer over standard output, carrying this terminal's width
    /// policy and bell style.
    pub fn create_writer(&self) -> (w: StreamWriter<StdoutSink>)
        ensures
            w.cols == 80,
            w.rows == 24,
            w.buffer@.len() == 0,
            w.grapheme_cluster_mode == self.grapheme_cluster_mode,
            w.bell_style == self.bell_style,
            w.sink.contents() == Seq::<u8>::empty(),
    {
        StreamWriter::new(StdoutSink::new(), self.grapheme_cluster_mode, self.bell_style)
    }

    /// This backend ends no line of its own.
    pub fn writeln(&self) -> (r: Result<(), TermError>)
        ensures
            r is Ok,
    {
        Ok(())
    }

    /// A printer holding an independent capability to standard output.
    pub fn create_external_printer(&mut self) -> (r: Result<
        StreamExternalPrinter<StdoutSink>,
        TermError,
    >)
        ensures
            r matches Ok(p) && p.writer.contents() == Seq::<u8>::empty(),
            *final(self) == *old(self),
    {
        Ok(StreamExternalPrinter::with_sink(StdoutSink::new()))
    }

    /// A stream has no cursor to show or hide.
    pub fn set_cursor_visibility(&mut self, _visible: bool) -> (r: Result<
        Option<()>,
        TermError,
    >)
        ensures
            r == Ok::<Option<()>, TermError>(None),
            *final(self) == *old(self),
    {
        Ok(None)
    }
}

impl StreamReader<StdinSource> {
    /// A reader over the process's standard input.
    pub fn new() -> (r: StreamReader<StdinSource>) {
        StreamReader::with_source(StdinSource::new())
    }
}

impl StreamWriter<StdoutSink> {
    /// A renderer over the process's standard output.
    pub fn to_stdout(grapheme_cluster_mode: GraphemeClusterMode, bell_style: BellStyle) -> (w:
        StreamWriter<StdoutSink>)
        ensures
            w.cols == 80,
            w.rows == 24,
            w.buffer@.len() == 0,
            w.grapheme_cluster_mode == grapheme_cluster_mode,
            w.bell_style == bell_style,
            w.sink.contents() == Seq::<u8>::empty(),
    {
        StreamWriter::new(StdoutSink::new(), grapheme_cluster_mode, bell_style)
    }
}

} // verus!
