//! The external printer: a detachable write capability that injects text
//! into the output destination from outside the render cycle.

use vstd::prelude::*;
use vstd::utf8::encode_utf8;
use crate::error::TermError;
use crate::sink::{write_all_to, ByteSink};

verus! {

/// A write handle independent of the renderer's own sink, aimed at the same
/// logical destination. Each `print` is one whole write followed by a flush,
/// so concurrent renders and prints never interleave within a message.
pub struct StreamExternalPrinter<S: ByteSink> {
    /// The printer's own capability to the destination.
    pub writer: S,
}

impl<S: ByteSink> StreamExternalPrinter<S> {
    /// A printer over its own sink.
    pub fn with_sink(writer: S) -> (p: StreamExternalPrinter<S>)
        ensures
            p.writer == writer,
    {
        StreamExternalPrinter { writer }
    }

    /// Writes the full message, then flushes, before returning.
    pub fn print(&mut self, msg: String) -> (r: Result<(), TermError>)
        ensures
            final(self).writer.never_fails() == old(self).writer.never_fails(),
            r is Ok ==> final(self).writer.contents() == old(self).writer.contents()
                + encode_utf8(msg@),
            old(self).writer.never_fails() ==> r is Ok,
            r matches Err(e) ==> e == TermError::Io,
    {
        match write_all_to(&mut self.writer, msg.as_str().as_bytes()) {
            Ok(_) => self.writer.flush(),
            Err(e) => Err(e),
        }
    }
}

} // verus!
