//! One full pass: a window-manager report in, a laid-out sequence of entries out.
use vstd::prelude::*;

use crate::layout::{laid_out, layout, layout_fits, Item, LayoutConstants};
use crate::reconcile::{reconcile, reconciled, WorkspaceRecord};
use crate::screens::{ScreenConfig, ScreenSlot};

verus! {

/// The snapshot of a report: its reconciled entries laid out, or `None` when so
/// many entries would not fit in the range of `u64` pixels.
pub open spec fn snapshot_of(
    records: Seq<WorkspaceRecord>,
    slots: Seq<ScreenSlot>,
    c: LayoutConstants,
) -> Option<Seq<Item>> {
    let entries = reconciled(records, slots);
    if layout_fits(entries.len(), c) {
        Some(laid_out(entries, c))
    } else {
        None
    }
}

/// Reconciles a report against the screen table and lays out the result.
pub fn build_snapshot(
    records: &Vec<WorkspaceRecord>,
    config: &ScreenConfig,
    c: LayoutConstants,
) -> (r: Option<Vec<Item>>)
    ensures
        match snapshot_of(records@, config@, c) {
            Some(items) => r is Some && r.unwrap()@ == items,
            None => r is None,
        },
{
    let entries = reconcile(records, config);
    if c.fits(entries.len()) {
        Some(layout(&entries, c))
    } else {
        None
    }
}

} // verus!
