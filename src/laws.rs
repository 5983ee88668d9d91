//! What holds of a whole pass over a grid, stated over the contracts of its
//! operations.

use vstd::prelude::*;
use crate::grid::{cell_size_of, empty_cells_of, CellSize, GridDirection};

verus! {

/// The lengths left unused after `k` cell requests on a grid whose unused
/// lengths were `lens`: each request takes the front length.
pub open spec fn after_requests<L>(lens: Seq<L>, k: nat) -> Seq<L>
    decreases k,
{
    if k == 0 {
        lens
    } else {
        after_requests(lens, (k - 1) as nat).drop_first()
    }
}

/// The `k` requests take the first `k` lengths, no more and no fewer.
pub proof fn lemma_after_requests_skips<L>(lens: Seq<L>, k: nat)
    requires
        k <= lens.len(),
    ensures
        after_requests(lens, k) == lens.skip(k as int),
    decreases k,
{
    if k > 0 {
        lemma_after_requests_skips(lens, (k - 1) as nat);
        assert(lens.skip((k - 1) as int).drop_first() =~= lens.skip(k as int));
    } else {
        assert(lens.skip(0) =~= lens);
    }
}

/// A grid built from `n` hints grants exactly `n` cell requests: after
/// `k <= n` requests `n - k` cells remain, and one more request is allowed
/// exactly when `k < n`. After the `n`-th no cell is left, so any further
/// request is asking for more cells than were declared.
pub proof fn lemma_requests_run_out<L>(lens: Seq<L>, k: nat)
    requires
        k <= lens.len(),
    ensures
        after_requests(lens, k).len() == lens.len() - k,
        after_requests(lens, k).len() > 0 <==> k < lens.len(),
        k == lens.len() ==> after_requests(lens, k).len() == 0,
{
    lemma_after_requests_skips(lens, k);
}

/// When a pass ends after `k` of the `n` declared cells were requested, the
/// teardown fills exactly `n - k` empty cells, one for each unused length in
/// declaration order: none is skipped and none repeated.
pub proof fn lemma_teardown_fills_rest<L>(direction: GridDirection, lens: Seq<L>, k: nat)
    requires
        k <= lens.len(),
    ensures
        empty_cells_of(direction, after_requests(lens, k)).len() == lens.len() - k,
        forall|i: int|
            0 <= i < lens.len() - k ==> #[trigger] empty_cells_of(direction, after_requests(lens, k))[i]
                == cell_size_of(direction, lens[k + i]),
{
    lemma_after_requests_skips(lens, k);
}

/// A horizontal grid fixes each cell's width to its declared length and lets
/// its height fill the line; a vertical grid fixes the height and lets the
/// width fill the line.
pub proof fn lemma_orientation<L>(direction: GridDirection, len: L)
    ensures
        direction == GridDirection::Horizontal ==> cell_size_of(direction, len) == (
            CellSize::Absolute(len),
            CellSize::<L>::Remainder,
        ),
        direction == GridDirection::Vertical ==> cell_size_of(direction, len) == (
            CellSize::<L>::Remainder,
            CellSize::Absolute(len),
        ),
{
}

} // verus!
