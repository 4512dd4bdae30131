//! Terminal backend for a line editor driving a non-interactive stream.
//!
//! The renderer computes cursor positions for rendered text, encodes minimal
//! cursor-motion escape sequences, and emits clearing and bell sequences to a
//! byte sink; the input reader classifies raw byte reads into editing events.

mod config;
mod error;
mod layout;
mod motion;
mod position;
mod printer;
mod reader;
mod sink;
mod source;
mod stdio;
mod terminal;
mod width;
mod writer;

pub use config::{Behavior, BellStyle, ColorMode};
pub use error::TermError;
pub use layout::{Layout, Position, Unit};
pub use motion::{
    csi_bytes, cursor_motion, dec_digits, horizontal_motion, lemma_motion_same_cell,
    motion_bytes, vertical_motion,
};
pub use position::{
    advance_clusters, lemma_advance_newlines, lemma_cluster_count_le_chars,
    lemma_position_after_empty, position_after,
};
pub use printer::StreamExternalPrinter;
pub use reader::{lossy_decode, Cmd, Event, KeyEvent, StreamReader};
pub use sink::{write_all_to, ByteSink, VecSink};
pub use source::{ByteSource, VecSource};
pub use stdio::{StdinSource, StdoutSink};
pub use terminal::{StreamMode, StreamTerminal};
pub use width::{
    clamp_unit, cluster_width, grapheme_clusters, str_display_width, GraphemeClusterMode,
};
pub use writer::{
    clear_screen_bytes, hint_bytes, home_bytes, lemma_line_clears_len, line_clears, StreamWriter,
};
