//! Properties that hold of every snapshot, proved over the specifications of the
//! parser, the reconciler, the layout and the hit test.
use vstd::prelude::*;

use crate::hit::{contains, first_hit};
use crate::ident::WorkspaceId;
use crate::layout::{
    gap, laid_out, layout_fits, lemma_start_bound, padding, start_of, starts_group, stride, width,
    Item, LayoutConstants,
};
use crate::reconcile::{
    block_len, entries_for, max_index, observations, reconciled, screen_entries, Entry, Observation,
    WorkspaceRecord,
};
use crate::screens::{slots_wf, ScreenSlot};
use crate::snapshot::snapshot_of;

verus! {

/// The display rank of `screen`: the position of its slot in the table (0 when it
/// has none).
pub open spec fn rank_of(slots: Seq<ScreenSlot>, screen: usize) -> int
    decreases slots.len(),
{
    if slots.len() == 0 {
        0
    } else if slots.last().screen == screen {
        slots.len() - 1
    } else {
        rank_of(slots.drop_last(), screen)
    }
}

/// Where the block of slot `t` begins in the reconciled sequence.
pub open spec fn block_start(obs: Seq<Observation>, slots: Seq<ScreenSlot>, t: int) -> int {
    entries_for(obs, slots.take(t)).len() as int
}

/// The slot whose block holds position `k` of the reconciled sequence.
pub open spec fn block_of(obs: Seq<Observation>, slots: Seq<ScreenSlot>, k: int) -> int
    decreases slots.len(),
{
    if slots.len() == 0 {
        0
    } else if k >= entries_for(obs, slots.drop_last()).len() {
        slots.len() - 1
    } else {
        block_of(obs, slots.drop_last(), k)
    }
}

proof fn lemma_max_index_bound(obs: Seq<Observation>, screen: usize)
    ensures
        max_index(obs, screen) <= usize::MAX,
    decreases obs.len(),
{
    if obs.len() > 0 {
        lemma_max_index_bound(obs.drop_last(), screen);
    }
}

proof fn lemma_rank_of(slots: Seq<ScreenSlot>, r: int)
    requires
        slots_wf(slots),
        0 <= r < slots.len(),
    ensures
        rank_of(slots, slots[r].screen) == r,
    decreases slots.len(),
{
    if r < slots.len() - 1 {
        let s = slots.drop_last();
        assert(slots.last().screen != slots[r].screen);
        assert(slots_wf(s)) by {
            assert forall|a: int, b: int|
                0 <= a < s.len() && 0 <= b < s.len() && a != b implies #[trigger] s[a].screen
                != #[trigger] s[b].screen by {
                assert(s[a] == slots[a] && s[b] == slots[b]);
            }
        }
        lemma_rank_of(s, r);
    }
}

/// In a table built from a rank list, as `ScreenConfig::from_tables` builds it, the
/// display rank of screen `s` is the rank that the list gives it, `order[s - 1]`.
pub proof fn lemma_rank_is_table_order(order: Seq<usize>, slots: Seq<ScreenSlot>, k: int)
    requires
        slots_wf(slots),
        slots.len() == order.len(),
        forall|t: int|
            0 <= t < slots.len() ==> 1 <= #[trigger] slots[t].screen <= order.len() && order[slots[t].screen
                - 1] == t,
        0 <= k < slots.len(),
    ensures
        rank_of(slots, slots[k].screen) == order[slots[k].screen - 1],
{
    lemma_rank_of(slots, k);
}

proof fn lemma_block_step(obs: Seq<Observation>, slots: Seq<ScreenSlot>, t: int)
    requires
        0 <= t < slots.len(),
    ensures
        block_start(obs, slots, t + 1) == block_start(obs, slots, t) + block_len(obs, slots[t]),
{
    assert(slots.take(t + 1).drop_last() =~= slots.take(t));
}

proof fn lemma_block_order(obs: Seq<Observation>, slots: Seq<ScreenSlot>, a: int, b: int)
    requires
        0 <= a < b <= slots.len(),
    ensures
        block_start(obs, slots, a) + block_len(obs, slots[a]) <= block_start(obs, slots, b),
    decreases b - a,
{
    lemma_block_step(obs, slots, a);
    if a + 1 < b {
        lemma_block_order(obs, slots, a + 1, b);
        lemma_block_step(obs, slots, a + 1);
    }
}

proof fn lemma_block_of(obs: Seq<Observation>, slots: Seq<ScreenSlot>, k: int)
    requires
        0 <= k < entries_for(obs, slots).len(),
    ensures
        0 <= block_of(obs, slots, k) < slots.len(),
        block_start(obs, slots, block_of(obs, slots, k)) <= k < block_start(obs, slots, block_of(obs, slots, k))
            + block_len(obs, slots[block_of(obs, slots, k)]),
        entries_for(obs, slots)[k] == screen_entries(obs, slots[block_of(obs, slots, k)])[k
            - block_start(obs, slots, block_of(obs, slots, k))],
    decreases slots.len(),
{
    let s = slots.drop_last();
    let t = block_of(obs, slots, k);
    if k >= entries_for(obs, s).len() {
        assert(slots.take(slots.len() - 1) =~= s);
    } else {
        lemma_block_of(obs, s, k);
        assert(s.take(t) =~= slots.take(t));
    }
}

proof fn lemma_whole(obs: Seq<Observation>, slots: Seq<ScreenSlot>)
    ensures
        block_start(obs, slots, slots.len() as int) == entries_for(obs, slots).len(),
{
    assert(slots.take(slots.len() as int) =~= slots);
}

/// Each configured screen's entries form one contiguous run of the reconciled
/// sequence, with indices 1, 2, ... up to a count no smaller than the screen's
/// minimum; no entry outside that run belongs to the screen.
pub proof fn lemma_screen_dense(records: Seq<WorkspaceRecord>, slots: Seq<ScreenSlot>, r: int)
    requires
        slots_wf(slots),
        0 <= r < slots.len(),
    ensures
        ({
            let e = reconciled(records, slots);
            let start = reconciled(records, slots.take(r)).len();
            let n = block_len(observations(records), slots[r]);
            &&& n >= slots[r].minimum
            &&& start + n <= e.len()
            &&& forall|j: int|
                0 <= j < n ==> (#[trigger] e[start + j]).id == WorkspaceId {
                    screen: slots[r].screen,
                    index: (j + 1) as usize,
                }
            &&& forall|k: int|
                0 <= k < e.len() && (#[trigger] e[k]).id.screen == slots[r].screen ==> start <= k
                    < start + n
        }),
{
    let obs = observations(records);
    let e = reconciled(records, slots);
    let start = block_start(obs, slots, r);
    let n = block_len(obs, slots[r]);
    lemma_whole(obs, slots);
    if r + 1 < slots.len() {
        lemma_block_order(obs, slots, r, slots.len() as int);
    } else {
        lemma_block_step(obs, slots, r);
    }
    assert forall|j: int| 0 <= j < n implies (#[trigger] e[start + j]).id == WorkspaceId {
        screen: slots[r].screen,
        index: (j + 1) as usize,
    } by {
        let k = start + j;
        lemma_block_of(obs, slots, k);
        let t = block_of(obs, slots, k);
        if t < r {
            lemma_block_order(obs, slots, t, r);
        } else if t > r {
            lemma_block_order(obs, slots, r, t);
        }
    }
    assert forall|k: int| 0 <= k < e.len() && (#[trigger] e[k]).id.screen == slots[r].screen implies start
        <= k < start + n by {
        lemma_block_of(obs, slots, k);
        let t = block_of(obs, slots, k);
        assert(slots[t].screen == slots[r].screen);
    }
}

/// Entries are ordered by the rank of their screen and then by index; so no two
/// entries stand for the same workspace.
pub proof fn lemma_entries_ordered(
    records: Seq<WorkspaceRecord>,
    slots: Seq<ScreenSlot>,
    i: int,
    j: int,
)
    requires
        slots_wf(slots),
        0 <= i < j < reconciled(records, slots).len(),
    ensures
        ({
            let e = reconciled(records, slots);
            let ri = rank_of(slots, e[i].id.screen);
            let rj = rank_of(slots, e[j].id.screen);
            &&& ri < rj || (ri == rj && e[i].id.index < e[j].id.index)
            &&& e[i].id != e[j].id
        }),
{
    let obs = observations(records);
    lemma_block_of(obs, slots, i);
    lemma_block_of(obs, slots, j);
    let ti = block_of(obs, slots, i);
    let tj = block_of(obs, slots, j);
    lemma_max_index_bound(obs, slots[ti].screen);
    lemma_max_index_bound(obs, slots[tj].screen);
    if tj < ti {
        lemma_block_order(obs, slots, tj, ti);
    }
    lemma_rank_of(slots, ti);
    lemma_rank_of(slots, tj);
}

proof fn lemma_start_monotone(entries: Seq<Entry>, c: LayoutConstants, i: int, j: int)
    requires
        0 <= i < j,
    ensures
        start_of(entries, i, c) + width(c) + padding(c) <= start_of(entries, j, c),
    decreases j - i,
{
    assert(0 <= gap(c)) by (nonlinear_arith)
        requires
            0 <= c.screen_padding && 0 <= c.scale,
    ;
    assert(0 <= width(c) + padding(c)) by (nonlinear_arith)
        requires
            0 <= c.item_width && 0 <= c.item_padding && 0 <= c.scale,
    ;
    if i + 1 < j {
        lemma_start_monotone(entries, c, i + 1, j);
    }
}

proof fn lemma_start_in_range(entries: Seq<Entry>, c: LayoutConstants, k: int)
    requires
        0 <= k < entries.len(),
        layout_fits(entries.len(), c),
    ensures
        0 <= start_of(entries, k, c),
        start_of(entries, k, c) + width(c) <= u64::MAX,
    decreases k,
{
    let w = c.item_width as int;
    let p = c.item_padding as int;
    let s = c.screen_padding as int;
    let m = c.scale as int;
    assert((w + p + s) * m == w * m + p * m + s * m) by (nonlinear_arith);
    assert(0 <= w * m && 0 <= p * m && 0 <= s * m) by (nonlinear_arith)
        requires
            0 <= w && 0 <= p && 0 <= s && 0 <= m,
    ;
    lemma_start_bound(entries, k, c);
    assert(k * stride(c) + stride(c) <= entries.len() * stride(c)) by (nonlinear_arith)
        requires
            k < entries.len(),
            0 <= stride(c),
    ;
}

/// Every interval is `item_width · scale` wide; between consecutive entries of one
/// screen lies `item_padding · scale`, and between the last of one screen and the
/// first of the next `(item_padding + screen_padding) · scale`; and an earlier
/// interval ends no later than any later one starts.
pub proof fn lemma_layout_geometry(entries: Seq<Entry>, c: LayoutConstants, i: int, j: int)
    requires
        layout_fits(entries.len(), c),
        0 <= i < j < entries.len(),
    ensures
        ({
            let items = laid_out(entries, c);
            &&& items[i].end - items[i].start == c.item_width * c.scale
            &&& items[i].start <= items[i].end && items[j].start <= items[j].end
            &&& items[i].end <= items[j].start
            &&& items[i].start < items[j].start || c.item_width + c.item_padding == 0 || c.scale == 0
            &&& j == i + 1 && entries[i].id.screen == entries[j].id.screen ==> items[j].start
                - items[i].end == c.item_padding * c.scale
            &&& j == i + 1 && entries[i].id.screen != entries[j].id.screen ==> items[j].start
                - items[i].end == (c.item_padding + c.screen_padding) * c.scale
        }),
{
    lemma_start_in_range(entries, c, i);
    lemma_start_in_range(entries, c, j);
    lemma_start_monotone(entries, c, i, j);
    let p = c.item_padding as int;
    let s = c.screen_padding as int;
    let w = c.item_width as int;
    let m = c.scale as int;
    assert((p + s) * m == p * m + s * m) by (nonlinear_arith);
    assert(0 <= w * m) by (nonlinear_arith)
        requires
            0 <= w && 0 <= m,
    ;
    assert(w + p > 0 && m > 0 ==> w * m + p * m > 0) by (nonlinear_arith)
        requires
            0 <= w && 0 <= p && 0 <= m,
    ;
    if j == i + 1 {
        assert(starts_group(entries, j) == (entries[i].id.screen != entries[j].id.screen));
    }
}

proof fn lemma_first_hit_at(items: Seq<Item>, x: u64, i: int)
    requires
        0 <= i < items.len(),
        contains(items[i], x),
        forall|k: int| 0 <= k < i ==> !contains(#[trigger] items[k], x),
    ensures
        first_hit(items, x) == Some(items[i].workspace),
    decreases items.len(),
{
    if i < items.len() - 1 {
        lemma_first_hit_at(items.drop_last(), x, i);
    } else {
        lemma_first_hit_none(items.drop_last(), x);
    }
}

proof fn lemma_first_hit_none(items: Seq<Item>, x: u64)
    requires
        forall|k: int| 0 <= k < items.len() ==> !contains(#[trigger] items[k], x),
    ensures
        first_hit(items, x) is None,
    decreases items.len(),
{
    if items.len() > 0 {
        lemma_first_hit_none(items.drop_last(), x);
    }
}

/// On a laid-out sequence, a point inside interval `i` hits entry `i`, and a point
/// in the space between interval `i` and the next hits nothing.
pub proof fn lemma_hit_laid_out(entries: Seq<Entry>, c: LayoutConstants, i: int, x: u64)
    requires
        layout_fits(entries.len(), c),
        0 <= i < entries.len(),
    ensures
        ({
            let items = laid_out(entries, c);
            &&& items[i].start <= x < items[i].end ==> first_hit(items, x) == Some(
                entries[i].id,
            )
            &&& i + 1 < entries.len() && items[i].end <= x < items[i + 1].start ==> first_hit(
                items,
                x,
            ) is None
        }),
{
    let items = laid_out(entries, c);
    assert forall|k: int|
        0 <= k < items.len() && k != i && items[i].start <= x < items[i].end implies !contains(
        #[trigger] items[k],
        x,
    ) by {
        if k < i {
            lemma_layout_geometry(entries, c, k, i);
        } else {
            lemma_layout_geometry(entries, c, i, k);
        }
    }
    if items[i].start <= x < items[i].end {
        lemma_first_hit_at(items, x, i);
    }
    if i + 1 < entries.len() && items[i].end <= x < items[i + 1].start {
        assert forall|k: int| 0 <= k < items.len() implies !contains(#[trigger] items[k], x) by {
            if k < i {
                lemma_layout_geometry(entries, c, k, i);
            } else if k > i + 1 {
                lemma_layout_geometry(entries, c, i + 1, k);
            } else if k == i + 1 {
            } else {
            }
        }
        lemma_first_hit_none(items, x);
    }
}

/// Two reports hold the same records when their names read the same and their
/// flags agree, position by position.
pub open spec fn same_records(a: Seq<WorkspaceRecord>, b: Seq<WorkspaceRecord>) -> bool {
    &&& a.len() == b.len()
    &&& forall|k: int|
        0 <= k < a.len() ==> (#[trigger] a[k]).name@ == b[k].name@ && a[k].focused == b[k].focused
            && a[k].visible == b[k].visible && a[k].urgent == b[k].urgent
}

proof fn lemma_same_observations(a: Seq<WorkspaceRecord>, b: Seq<WorkspaceRecord>)
    requires
        same_records(a, b),
    ensures
        observations(a) == observations(b),
    decreases a.len(),
{
    if a.len() > 0 {
        let a2 = a.drop_last();
        let b2 = b.drop_last();
        assert(same_records(a2, b2)) by {
            assert forall|k: int| 0 <= k < a2.len() implies (#[trigger] a2[k]).name@ == b2[k].name@
                && a2[k].focused == b2[k].focused && a2[k].visible == b2[k].visible
                && a2[k].urgent == b2[k].urgent by {
                assert(a2[k] == a[k] && b2[k] == b[k]);
            }
        }
        lemma_same_observations(a2, b2);
        assert(a.last() == a[a.len() - 1]);
    }
}

/// Building the snapshot of the same report twice gives the same snapshot: it
/// depends on the records' names and flags and on the configuration alone.
pub proof fn lemma_snapshot_repeatable(
    a: Seq<WorkspaceRecord>,
    b: Seq<WorkspaceRecord>,
    slots: Seq<ScreenSlot>,
    c: LayoutConstants,
)
    requires
        same_records(a, b),
    ensures
        snapshot_of(a, slots, c) == snapshot_of(b, slots, c),
{
    lemma_same_observations(a, b);
}

} // verus!
