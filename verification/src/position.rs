//! The position model: where the cursor lands after text is written.

use vstd::prelude::*;
use crate::layout::Position;
use crate::width::{GraphemeClusterMode, cluster_width};

verus! {

/// The row and column reached once the cursor, starting at `row` and `col`,
/// has written the cluster sequence `gs`. A line feed returns the column to
/// zero; any other cluster leaves the column at that cluster's own width; and
/// every cluster moves the cursor one row down. This row-per-cluster
/// accounting is the stream backend's own bookkeeping, not ordinary
/// wrap-at-width terminal semantics.
pub open spec fn advance_clusters(
    row: int,
    col: int,
    gs: Seq<Seq<char>>,
    mode: GraphemeClusterMode,
) -> (int, int)
    decreases gs.len(),
{
    if gs.len() == 0 {
        (row, col)
    } else if gs[0] == seq!['\n'] {
        advance_clusters(row + 1, 0, gs.drop_first(), mode)
    } else {
        advance_clusters(row + 1, cluster_width(mode, gs[0]) as int, gs.drop_first(), mode)
    }
}

/// The final position after writing `gs` from `p` on a terminal `cols` wide:
/// `advance_clusters`, then one wrap when the column lands exactly on `cols`.
pub open spec fn position_after(
    p: Position,
    gs: Seq<Seq<char>>,
    mode: GraphemeClusterMode,
    cols: int,
) -> (int, int) {
    let rc = advance_clusters(p.row as int, p.col as int, gs, mode);
    if rc.1 == cols {
        (rc.0 + 1, 0)
    } else {
        rc
    }
}

/// Writing no clusters leaves a valid cursor exactly where it started.
pub proof fn lemma_position_after_empty(p: Position, mode: GraphemeClusterMode, cols: int)
    requires
        p.col < cols,
    ensures
        position_after(p, Seq::<Seq<char>>::empty(), mode, cols) == (p.row as int, p.col as int),
{
}

/// Writing only line feeds moves the cursor down one row per line feed and
/// returns the column to zero.
pub proof fn lemma_advance_newlines(row: int, col: int, gs: Seq<Seq<char>>, mode: GraphemeClusterMode)
    requires
        gs.len() > 0,
        forall|i: int| 0 <= i < gs.len() ==> #[trigger] gs[i] == seq!['\n'],
    ensures
        advance_clusters(row, col, gs, mode) == (row + gs.len(), 0int),
    decreases gs.len(),
{
    assert(gs[0] == seq!['\n']);
    assert(advance_clusters(row, col, gs, mode) == advance_clusters(
        row + 1,
        0,
        gs.drop_first(),
        mode,
    ));
    if gs.len() == 1 {
        assert(gs.drop_first().len() == 0);
        assert(advance_clusters(row + 1, 0, gs.drop_first(), mode) == (row + 1, 0int));
    } else {
        assert(forall|i: int|
            0 <= i < gs.drop_first().len() ==> #[trigger] gs.drop_first()[i] == seq!['\n']) by {
            assert(forall|i: int|
                0 <= i < gs.drop_first().len() ==> gs.drop_first()[i] == gs[i + 1]);
        }
        lemma_advance_newlines(row + 1, 0, gs.drop_first(), mode);
    }
}

/// A sequence of nonempty cluster sequences never holds more clusters than
/// its flattening holds characters.
pub proof fn lemma_cluster_count_le_chars(gs: Seq<Seq<char>>)
    requires
        forall|i: int| 0 <= i < gs.len() ==> (#[trigger] gs[i]).len() > 0,
    ensures
        gs.len() <= gs.flatten().len(),
    decreases gs.len(),
{
    if gs.len() == 0 {
    } else {
        assert(gs.flatten() == gs.first() + gs.drop_first().flatten());
        assert(forall|i: int|
            0 <= i < gs.drop_first().len() ==> (#[trigger] gs.drop_first()[i]).len() > 0) by {
            assert(forall|i: int|
                0 <= i < gs.drop_first().len() ==> gs.drop_first()[i] == gs[i + 1]);
        }
        lemma_cluster_count_le_chars(gs.drop_first());
    }
}

} // verus!
