//! Construction-time options recognized by the stream backend.

use vstd::prelude::*;

verus! {

/// Whether escape sequences for colors may be emitted.
#[derive(Clone, Copy, Debug, PartialEq, Eq, Structural)]
pub enum ColorMode {
    /// Colors when the output looks like a terminal.
    Enabled,
    /// Colors unconditionally.
    Forced,
    /// Never any colors.
    Disabled,
}

/// How the backend acquires its input and output streams.
#[derive(Clone, Copy, Debug, PartialEq, Eq, Structural)]
pub enum Behavior {
    /// Use the process's standard streams.
    Stdio,
    /// Prefer the controlling terminal when there is one.
    PreferTerm,
}

/// Whether `beep` makes itself heard, seen, or kept quiet.
#[derive(Clone, Copy, Debug, PartialEq, Eq, Structural)]
pub enum BellStyle {
    /// Emit the bell byte.
    Audible,
    /// No bell at all.
    Silent,
    /// Flash instead of ringing; the stream backend emits nothing for it.
    Visible,
}

} // verus!
