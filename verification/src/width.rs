//! The grapheme width policy: how a displayed character cluster maps to a
//! column width, and how a string splits into clusters.

use vstd::prelude::*;
use unicode_segmentation::UnicodeSegmentation;
use crate::layout::Unit;

verus! {

/// Policy selecting how wide a displayed grapheme cluster is.
#[derive(Clone, Copy, Debug, PartialEq, Eq, Structural)]
pub enum GraphemeClusterMode {
    /// Widths follow the Unicode display-width tables: combining marks add
    /// nothing, wide scripts take two columns.
    Unicode,
    /// Every cluster takes exactly one column.
    Fixed,
}

/// The displayed width that the Unicode width tables assign to a string; a
/// function of its characters alone.
pub uninterp spec fn str_display_width(s: Seq<char>) -> nat;

/// The extended grapheme clusters a string splits into; a function of its
/// characters alone.
pub uninterp spec fn grapheme_clusters(s: Seq<char>) -> Seq<Seq<char>>;

/// Clamps a mathematical width to what a `Unit` can hold.
pub open spec fn clamp_unit(w: nat) -> nat {
    if w > u32::MAX as nat {
        u32::MAX as nat
    } else {
        w
    }
}

/// The width policy itself: how many columns one cluster advances the cursor.
pub open spec fn cluster_width(mode: GraphemeClusterMode, g: Seq<char>) -> nat {
    match mode {
        GraphemeClusterMode::Unicode => clamp_unit(str_display_width(g)),
        GraphemeClusterMode::Fixed => 1,
    }
}

/// Relies on unicode_width::UnicodeWidthStr::width: the displayed width of a
/// string by the UAX #11 tables, treating ambiguous characters as narrow; it
/// depends on the characters alone.
#[verifier::external_body]
fn str_width_of(s: &str) -> (r: usize)
    ensures
        r as nat == str_display_width(s@),
{
    unicode_width::UnicodeWidthStr::width(s)
}

/// Relies on unicode_segmentation::UnicodeSegmentation::graphemes with
/// extended cluster boundaries: the clusters partition the string into
/// nonempty pieces, a text made only of line feeds breaks into single line
/// feeds (UAX #29 breaks on both sides of a control character), and the
/// split depends on the characters alone.
#[verifier::external_body]
pub(crate) fn graphemes_of(s: &str) -> (r: Vec<String>)
    ensures
        r@.map_values(|g: String| g@) == grapheme_clusters(s@),
        r@.map_values(|g: String| g@).flatten() == s@,
        forall|i: int| 0 <= i < r@.len() ==> (#[trigger] r@[i])@.len() > 0,
        (forall|i: int| 0 <= i < s@.len() ==> s@[i] == '\n') ==> r@.map_values(|g: String| g@)
            == Seq::new(s@.len(), |i: int| seq!['\n']),
{
    s.graphemes(true).map(|g| g.to_string()).collect()
}

impl GraphemeClusterMode {
    /// The columns one cluster advances the cursor by, under this policy.
    pub fn width(&self, g: &str) -> (w: Unit)
        ensures
            w as nat == cluster_width(*self, g@),
    {
        match self {
            GraphemeClusterMode::Unicode => {
                let r = str_width_of(g);
                if r > u32::MAX as usize {
                    u32::MAX
                } else {
                    r as u32
                }
            },
            GraphemeClusterMode::Fixed => 1,
        }
    }
}

} // verus!
