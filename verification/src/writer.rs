//! The renderer: owns the output sink and the fixed terminal dimensions, and
//! emits content, cursor motion, clearing and bell bytes.

use vstd::prelude::*;
use vstd::string::StrSliceExecFns;
use vstd::string::StringSliceAdditionalSpecFns;
use vstd::utf8::encode_utf8;
use crate::config::BellStyle;
use crate::error::TermError;
use crate::layout::{Layout, Position, Unit};
use crate::motion::{cursor_motion, motion_bytes};
use crate::position::{
    advance_clusters, lemma_advance_newlines, lemma_cluster_count_le_chars, position_after,
};
use crate::reader::StreamReader;
use crate::sink::{write_all_to, ByteSink};
use crate::source::ByteSource;
use crate::width::{cluster_width, grapheme_clusters, graphemes_of, GraphemeClusterMode};

verus! {

/// The bytes of one full-screen clear: home the cursor, then clear to the end
/// of the screen.
pub open spec fn clear_screen_bytes() -> Seq<u8> {
    seq![27u8, 91u8, 72u8, 27u8, 91u8, 74u8]
}

/// The bytes that home the cursor.
pub open spec fn home_bytes() -> Seq<u8> {
    seq![27u8, 91u8, 72u8]
}

/// Exactly `k` repetitions of the clear-to-end-of-line-and-newline sequence.
pub open spec fn line_clears(k: nat) -> Seq<u8>
    decreases k,
{
    if k == 0 {
        Seq::<u8>::empty()
    } else {
        line_clears((k - 1) as nat) + seq![27u8, 91u8, 75u8, 10u8]
    }
}

/// `line_clears(k)` holds exactly `k` line-clear sequences, four bytes each.
pub proof fn lemma_line_clears_len(k: nat)
    ensures
        line_clears(k).len() == 4 * k,
    decreases k,
{
    if k > 0 {
        lemma_line_clears_len((k - 1) as nat);
    }
}

/// The bytes a hint adds to a refresh: nothing when there is none.
pub open spec fn hint_bytes(hint: Option<&str>) -> Seq<u8> {
    match hint {
        Some(h) => encode_utf8(h@),
        None => Seq::<u8>::empty(),
    }
}

/// The renderer for a non-interactive output stream. It owns the sink, knows
/// the fixed terminal dimensions, and rewrites content whole on every refresh
/// rather than diffing.
pub struct StreamWriter<S: ByteSink> {
    /// The destination every write goes to.
    pub sink: S,
    /// The terminal width, in columns.
    pub cols: Unit,
    /// The terminal height, in rows.
    pub rows: Unit,
    /// The scratch buffer the last refresh composed its content in.
    pub buffer: Vec<u8>,
    /// How grapheme clusters map to column widths.
    pub grapheme_cluster_mode: GraphemeClusterMode,
    /// Whether `beep` rings.
    pub bell_style: BellStyle,
}

impl<S: ByteSink> StreamWriter<S> {
    /// The construction-time configuration: everything but the sink and the
    /// scratch buffer.
    pub open spec fn same_config(&self, other: &Self) -> bool {
        self.cols == other.cols && self.rows == other.rows && self.grapheme_cluster_mode
            == other.grapheme_cluster_mode && self.bell_style == other.bell_style
    }

    /// A renderer over `sink`, with this backend's fixed 80 by 24 dimensions.
    pub fn new(sink: S, grapheme_cluster_mode: GraphemeClusterMode, bell_style: BellStyle) -> (w:
        StreamWriter<S>)
        ensures
            w.sink == sink,
            w.cols == 80,
            w.rows == 24,
            w.buffer@.len() == 0,
            w.grapheme_cluster_mode == grapheme_cluster_mode,
            w.bell_style == bell_style,
    {
        StreamWriter { sink, cols: 80, rows: 24, buffer: Vec::new(), grapheme_cluster_mode, bell_style }
    }

    /// Writes `bytes` whole, then flushes.
    fn write_and_flush_bytes(&mut self, bytes: &[u8]) -> (r: Result<(), TermError>)
        ensures
            final(self).same_config(old(self)),
            final(self).buffer@ == old(self).buffer@,
            final(self).sink.never_fails() == old(self).sink.never_fails(),
            r is Ok ==> final(self).sink.contents() == old(self).sink.contents() + bytes@,
            old(self).sink.never_fails() ==> r is Ok,
            r matches Err(e) ==> e == TermError::Io,
    {
        match write_all_to(&mut self.sink, bytes) {
            Ok(_) => self.sink.flush(),
            Err(e) => Err(e),
        }
    }

    /// Writes all of `buf` and flushes; the atomic primitive every other
    /// renderer operation builds on. A write the stream refuses outright, or
    /// that accepts zero bytes, is an error.
    pub fn write_and_flush(&mut self, buf: &str) -> (r: Result<(), TermError>)
        ensures
            final(self).same_config(old(self)),
            final(self).buffer@ == old(self).buffer@,
            final(self).sink.never_fails() == old(self).sink.never_fails(),
            r is Ok ==> final(self).sink.contents() == old(self).sink.contents() + encode_utf8(
                buf@,
            ),
            old(self).sink.never_fails() ==> r is Ok,
            r matches Err(e) ==> e == TermError::Io,
    {
        self.write_and_flush_bytes(buf.as_bytes())
    }

    /// Writes the motion sequence from `from` to `to` and flushes: the
    /// vertical component first, then the horizontal one, as one write.
    pub fn move_cursor(&mut self, from: Position, to: Position) -> (r: Result<(), TermError>)
        ensures
            final(self).same_config(old(self)),
            final(self).buffer@ == old(self).buffer@,
            final(self).sink.never_fails() == old(self).sink.never_fails(),
            r is Ok ==> final(self).sink.contents() == old(self).sink.contents() + motion_bytes(
                from,
                to,
            ),
            old(self).sink.never_fails() ==> r is Ok,
            r matches Err(e) ==> e == TermError::Io,
    {
        let m = cursor_motion(from, to);
        self.write_and_flush_bytes(m.as_slice())
    }

    /// Composes the prompt followed by the optional hint in the scratch
    /// buffer and writes it verbatim: a content-only refresh, with no erase,
    /// no repositioning, and no flush. The line and the layouts play no part
    /// in this backend; the caller computes the new layout itself.
    pub fn refresh_line(
        &mut self,
        prompt: &str,
        _line: &str,
        hint: Option<&str>,
        _old_layout: &Layout,
        _new_layout: &Layout,
    ) -> (r: Result<(), TermError>)
        ensures
            final(self).same_config(old(self)),
            final(self).sink.never_fails() == old(self).sink.never_fails(),
            final(self).buffer@ == encode_utf8(prompt@) + hint_bytes(hint),
            r is Ok ==> final(self).sink.contents() == old(self).sink.contents() + encode_utf8(
                prompt@,
            ) + hint_bytes(hint),
            old(self).sink.never_fails() ==> r is Ok,
            r matches Err(e) ==> e == TermError::Io,
    {
        self.buffer.clear();
        let mut pb = prompt.as_bytes_vec();
        self.buffer.append(&mut pb);
        match hint {
            Some(h) => {
                let mut hb = h.as_bytes_vec();
                self.buffer.append(&mut hb);
            },
            None => {},
        }
        proof {
            assert(self.buffer@ =~= encode_utf8(prompt@) + hint_bytes(hint));
        }
        write_all_to(&mut self.sink, self.buffer.as_slice())
    }

    /// Writes `length` spaces to blank a fixed-width region, and flushes.
    pub fn clear(&mut self, length: Unit, _pos: Position) -> (r: Result<(), TermError>)
        ensures
            final(self).same_config(old(self)),
            final(self).buffer@ == old(self).buffer@,
            final(self).sink.never_fails() == old(self).sink.never_fails(),
            r is Ok ==> final(self).sink.contents() == old(self).sink.contents() + Seq::new(
                length as nat,
                |i: int| 32u8,
            ),
            old(self).sink.never_fails() ==> r is Ok,
            r matches Err(e) ==> e == TermError::Io,
    {
        let mut blanks: Vec<u8> = Vec::new();
        let mut i: u32 = 0;
        while i < length
            invariant
                i <= length,
                blanks@ == Seq::new(i as nat, |j: int| 32u8),
            decreases length - i,
        {
            blanks.push(32);
            i = i + 1;
            proof {
                assert(blanks@ =~= Seq::new(i as nat, |j: int| 32u8));
            }
        }
        self.write_and_flush_bytes(blanks.as_slice())
    }

    /// Writes the full-screen clear and homes the cursor.
    pub fn clear_screen(&mut self) -> (r: Result<(), TermError>)
        ensures
            final(self).same_config(old(self)),
            final(self).buffer@ == old(self).buffer@,
            final(self).sink.never_fails() == old(self).sink.never_fails(),
            r is Ok ==> final(self).sink.contents() == old(self).sink.contents()
                + clear_screen_bytes(),
            old(self).sink.never_fails() ==> r is Ok,
            r matches Err(e) ==> e == TermError::Io,
    {
        let mut v: Vec<u8> = Vec::new();
        v.push(27);
        v.push(91);
        v.push(72);
        v.push(27);
        v.push(91);
        v.push(74);
        proof {
            assert(v@ =~= clear_screen_bytes());
        }
        self.write_and_flush_bytes(v.as_slice())
    }

    /// Writes one clear-to-end-of-line-and-newline sequence for every row the
    /// layout spans, from its start row to its end row inclusive.
    pub fn clear_rows(&mut self, layout: &Layout) -> (r: Result<(), TermError>)
        requires
            layout.wf(),
        ensures
            final(self).same_config(old(self)),
            final(self).buffer@ == old(self).buffer@,
            final(self).sink.never_fails() == old(self).sink.never_fails(),
            r is Ok ==> final(self).sink.contents() == old(self).sink.contents() + line_clears(
                (layout.end.row - layout.start.row + 1) as nat,
            ),
            old(self).sink.never_fails() ==> r is Ok,
            r matches Err(e) ==> e == TermError::Io,
    {
        let count: u64 = (layout.end.row - layout.start.row) as u64 + 1;
        let mut v: Vec<u8> = Vec::new();
        let mut k: u64 = 0;
        while k < count
            invariant
                k <= count,
                v@ == line_clears(k as nat),
            decreases count - k,
        {
            v.push(27);
            v.push(91);
            v.push(75);
            v.push(10);
            k = k + 1;
            proof {
                assert(v@ =~= line_clears(k as nat));
            }
        }
        self.write_and_flush_bytes(v.as_slice())
    }

    /// Rings the bell: the bell byte goes out when the style is audible, and
    /// nothing at all goes out otherwise, which still succeeds.
    pub fn beep(&mut self) -> (r: Result<(), TermError>)
        ensures
            final(self).same_config(old(self)),
            final(self).buffer@ == old(self).buffer@,
            final(self).sink.never_fails() == old(self).sink.never_fails(),
            old(self).bell_style != BellStyle::Audible ==> r is Ok && *final(self) == *old(self),
            old(self).bell_style == BellStyle::Audible ==> {
                &&& (r is Ok ==> final(self).sink.contents() == old(self).sink.contents()
                    + seq![7u8])
                &&& (old(self).sink.never_fails() ==> r is Ok)
            },
            r matches Err(e) ==> e == TermError::Io,
    {
        match self.bell_style {
            BellStyle::Audible => {
                let mut v: Vec<u8> = Vec::new();
                v.push(7);
                proof {
                    assert(v@ =~= seq![7u8]);
                }
                self.write_and_flush_bytes(v.as_slice())
            },
            _ => Ok(()),
        }
    }

    /// Homes the cursor unconditionally; this backend needs no answer from
    /// the terminal to know where the left edge is, so the reader is unused.
    pub fn move_cursor_at_leftmost<R: ByteSource>(&mut self, _rdr: &mut StreamReader<R>) -> (r:
        Result<(), TermError>)
        ensures
            final(self).same_config(old(self)),
            final(self).buffer@ == old(self).buffer@,
            final(self).sink.never_fails() == old(self).sink.never_fails(),
            *final(_rdr) == *old(_rdr),
            r is Ok ==> final(self).sink.contents() == old(self).sink.contents() + home_bytes(),
            old(self).sink.never_fails() ==> r is Ok,
            r matches Err(e) ==> e == TermError::Io,
    {
        let mut v: Vec<u8> = Vec::new();
        v.push(27);
        v.push(91);
        v.push(72);
        proof {
            assert(v@ =~= home_bytes());
        }
        self.write_and_flush_bytes(v.as_slice())
    }

    /// This backend has no live resize detection: the dimensions stay the
    /// fixed 80 by 24.
    pub fn update_size(&mut self)
        ensures
            final(self).cols == 80,
            final(self).rows == 24,
            final(self).sink == old(self).sink,
            final(self).buffer == old(self).buffer,
            final(self).grapheme_cluster_mode == old(self).grapheme_cluster_mode,
            final(self).bell_style == old(self).bell_style,
    {
        self.cols = 80;
        self.rows = 24;
    }

    /// The terminal width recorded at construction.
    pub fn get_columns(&self) -> (c: Unit)
        ensures
            c == self.cols,
    {
        self.cols
    }

    /// The terminal height recorded at construction.
    pub fn get_rows(&self) -> (r: Unit)
        ensures
            r == self.rows,
    {
        self.rows
    }

    /// This backend does not probe the terminal: colors are always reported
    /// as available.
    pub fn colors_enabled(&self) -> (b: bool)
        ensures
            b,
    {
        true
    }

    /// The width policy selected at construction.
    pub fn grapheme_cluster_mode(&self) -> (m: GraphemeClusterMode)
        ensures
            m == self.grapheme_cluster_mode,
    {
        self.grapheme_cluster_mode
    }

    /// Where the cursor lands after `s` is written starting at `orig`: the
    /// text is walked as grapheme clusters, a line feed returns the column to
    /// zero, any other cluster leaves the column at its own width, every
    /// cluster moves one row down, and a column landing exactly on the
    /// terminal width wraps once at the end. The row-per-cluster accounting
    /// is this backend's own bookkeeping, not wrap-at-width semantics.
    pub fn calculate_position(&self, s: &str, orig: Position) -> (pos: Position)
        requires
            orig.row as int + s@.len() + 1 <= u32::MAX as int,
        ensures
            ({
                let rc = position_after(
                    orig,
                    grapheme_clusters(s@),
                    self.grapheme_cluster_mode,
                    self.cols as int,
                );
                pos.row as int == rc.0 && pos.col as int == rc.1
            }),
            s@.len() == 0 && orig.col < self.cols ==> pos == orig,
            s@.len() > 0 && self.cols > 0 && (forall|i: int|
                0 <= i < s@.len() ==> s@[i] == '\n') ==> pos.row as int == orig.row as int
                + s@.len() && pos.col == 0,
    {
        let clusters = graphemes_of(s);
        let ghost gs = grapheme_clusters(s@);
        let ghost mode = self.grapheme_cluster_mode;
        proof {
            assert(gs.len() == clusters@.len());
            assert(forall|i: int| 0 <= i < gs.len() ==> (#[trigger] gs[i]).len() > 0) by {
                assert(forall|i: int|
                    0 <= i < clusters@.len() ==> gs[i] == (#[trigger] clusters@[i])@);
            }
            lemma_cluster_count_le_chars(gs);
            assert(gs.flatten() == s@);
        }
        let n = clusters.len();
        let mut row: u32 = orig.row;
        let mut col: u32 = orig.col;
        let mut i: usize = 0;
        proof {
            assert(gs.skip(0) =~= gs);
        }
        while i < n
            invariant
                i <= n,
                n == clusters@.len(),
                mode == self.grapheme_cluster_mode,
                gs == grapheme_clusters(s@),
                clusters@.map_values(|g: String| g@) == gs,
                gs.len() <= s@.len(),
                orig.row as int + s@.len() + 1 <= u32::MAX as int,
                row as int <= orig.row as int + i as int,
                advance_clusters(row as int, col as int, gs.skip(i as int), mode)
                    == advance_clusters(orig.row as int, orig.col as int, gs, mode),
            decreases n - i,
        {
            let g: &String = &clusters[i];
            proof {
                assert(clusters@.map_values(|g2: String| g2@)[i as int] == (
                clusters@[i as int])@);
                assert(gs[i as int] == (clusters@[i as int])@);
                assert(gs.skip(i as int).len() > 0);
                assert(gs.skip(i as int)[0] == gs[i as int]);
                assert(gs.skip(i as int).drop_first() =~= gs.skip(i as int + 1));
            }
            let ghost prow = row as int;
            let ghost pcol = col as int;
            let ghost rest = gs.skip(i as int);
            let gstr = g.as_str();
            let is_newline = gstr.unicode_len() == 1 && gstr.get_char(0) == '\n';
            if is_newline {
                proof {
                    assert(gs[i as int] =~= seq!['\n']);
                    assert(advance_clusters(prow, pcol, rest, mode) == advance_clusters(
                        prow + 1,
                        0,
                        gs.skip(i as int + 1),
                        mode,
                    ));
                }
                row = row + 1;
                col = 0;
            } else {
                proof {
                    assert(gs[i as int] != seq!['\n']) by {
                        if gs[i as int] == seq!['\n'] {
                            assert(gstr@.len() == 1 && gstr@[0] == '\n');
                        }
                    }
                }
                let w = self.grapheme_cluster_mode.width(gstr);
                proof {
                    assert(gstr@ == gs[i as int]);
                    assert(w as nat == cluster_width(self.grapheme_cluster_mode, gstr@));
                    assert(w as nat == cluster_width(mode, gs[i as int]));
                    assert(advance_clusters(prow, pcol, rest, mode) == advance_clusters(
                        prow + 1,
                        cluster_width(mode, gs[i as int]) as int,
                        gs.skip(i as int + 1),
                        mode,
                    ));
                }
                row = row + 1;
                col = w;
            }
            i = i + 1;
        }
        proof {
            assert(gs.skip(n as int) =~= Seq::<Seq<char>>::empty());
            assert(advance_clusters(orig.row as int, orig.col as int, gs, mode) == (
                row as int,
                col as int,
            ));
        }
        let mut pos = Position { row, col };
        if pos.col == self.cols {
            pos.col = 0;
            pos.row = pos.row + 1;
        }
        proof {
            if s@.len() == 0 {
                assert(gs.len() == 0);
            }
            if s@.len() > 0 && self.cols > 0 && (forall|i: int|
                0 <= i < s@.len() ==> s@[i] == '\n') {
                assert(gs == Seq::new(s@.len(), |i: int| seq!['\n']));
                assert(forall|i: int| 0 <= i < gs.len() ==> #[trigger] gs[i] == seq!['\n']);
                lemma_advance_newlines(orig.row as int, orig.col as int, gs, mode);
            }
        }
        pos
    }
}

} // verus!
