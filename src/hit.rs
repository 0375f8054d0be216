//! Mapping a pointer position back to the entry under it, and the command that
//! switches to that entry's workspace.
use vstd::prelude::*;
use vstd::string::StringExecFns;

use crate::ident::WorkspaceId;
use crate::decimal::{decimal_text, push_decimal};
use crate::layout::Item;

verus! {

/// The interval of `item` holds `x`.
pub open spec fn contains(item: Item, x: u64) -> bool {
    item.start <= x && x < item.end
}

/// The workspace of the first item whose interval holds `x`, if any.
pub open spec fn first_hit(items: Seq<Item>, x: u64) -> Option<WorkspaceId>
    decreases items.len(),
{
    if items.len() == 0 {
        None
    } else {
        match first_hit(items.drop_last(), x) {
            Some(id) => Some(id),
            None => if contains(items.last(), x) {
                Some(items.last().workspace)
            } else {
                None
            },
        }
    }
}

/// The command that asks the window manager to switch to `id`, such as `workspace 1-2`.
pub open spec fn command_text(id: WorkspaceId) -> Seq<char> {
    "workspace "@ + decimal_text(id.screen as nat) + "-"@ + decimal_text(id.index as nat)
}

/// Finds the entry under `x`: the first whose interval holds it. Every entry
/// counts, placeholders too: clicking one asks for that workspace to be made.
pub fn hit_test(items: &Vec<Item>, x: u64) -> (r: Option<WorkspaceId>)
    ensures
        r == first_hit(items@, x),
{
    let mut k: usize = 0;
    while k < items.len()
        invariant
            k <= items@.len(),
            first_hit(items@.take(k as int), x) is None,
        decreases items@.len() - k,
    {
        assert(items@.take(k + 1).drop_last() =~= items@.take(k as int));
        let it = items[k];
        if it.start <= x && x < it.end {
            proof {
                lemma_first_hit_prefix(items@, k + 1, x);
            }
            return Some(it.workspace);
        }
        k = k + 1;
    }
    assert(items@.take(items@.len() as int) =~= items@);
    None
}

proof fn lemma_first_hit_prefix(items: Seq<Item>, k: int, x: u64)
    requires
        0 <= k <= items.len(),
        first_hit(items.take(k), x) is Some,
    ensures
        first_hit(items, x) == first_hit(items.take(k), x),
    decreases items.len(),
{
    if k < items.len() {
        assert(items.drop_last().take(k) =~= items.take(k));
        lemma_first_hit_prefix(items.drop_last(), k, x);
    } else {
        assert(items.take(k) =~= items);
    }
}

/// The command that switches the window manager to workspace `id`.
pub fn switch_command(id: WorkspaceId) -> (r: String)
    ensures
        r@ == command_text(id),
{
    let mut s = String::from_str("workspace ");
    push_decimal(&mut s, id.screen as u64);
    s.append("-");
    push_decimal(&mut s, id.index as u64);
    s
}

/// Handles a click at `x`: the command for the entry under it, or `None` when `x`
/// falls outside every interval.
pub fn click(items: &Vec<Item>, x: u64) -> (r: Option<String>)
    ensures
        match first_hit(items@, x) {
            Some(id) => r is Some && r.unwrap()@ == command_text(id),
            None => r is None,
        },
{
    match hit_test(items, x) {
        Some(id) => Some(switch_command(id)),
        None => None,
    }
}

} // verus!
