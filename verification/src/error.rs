//! The error conditions a stream-backed terminal can report.

use vstd::prelude::*;

verus! {

/// Why a terminal operation failed.
#[derive(Clone, Copy, Debug, PartialEq, Eq, Structural)]
pub enum TermError {
    /// The input stream ended: a read delivered no bytes. Callers use this to
    /// close the editing session cleanly rather than treat it as a crash.
    Eof,
    /// An operating-system error during a read, write or flush, a write that
    /// accepted zero bytes, or input bytes that do not decode as text.
    Io,
    /// The operation needs an interactive terminal, which this backend does
    /// not have.
    Unsupported,
}

} // verus!
