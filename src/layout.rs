//! Pixel intervals for a reconciled sequence of entries.
use vstd::prelude::*;

use crate::ident::WorkspaceId;
use crate::reconcile::{Entry, EntryState};

verus! {

/// The sizes the layout works with, in unscaled pixels, and the scale factor that
/// multiplies all of them.
#[derive(Clone, Copy, Debug, PartialEq, Eq, Structural)]
pub struct LayoutConstants {
    pub item_width: u64,
    pub item_padding: u64,
    pub screen_padding: u64,
    pub scale: u64,
}

/// An entry with its place on the bar: the half-open interval `[start, end)`.
#[derive(Clone, Copy, Debug, PartialEq, Eq, Structural)]
pub struct Item {
    pub workspace: WorkspaceId,
    pub state: EntryState,
    pub start: u64,
    pub end: u64,
}

/// The scaled width of one entry.
pub open spec fn width(c: LayoutConstants) -> int {
    c.item_width * c.scale
}

/// The scaled space between two entries of the same screen.
pub open spec fn padding(c: LayoutConstants) -> int {
    c.item_padding * c.scale
}

/// The scaled extra space before the first entry of every screen but the first.
pub open spec fn gap(c: LayoutConstants) -> int {
    c.screen_padding * c.scale
}

/// The most that one entry can add to the total width.
pub open spec fn stride(c: LayoutConstants) -> int {
    (c.item_width + c.item_padding + c.screen_padding) * c.scale
}

/// Whether `n` entries can be laid out without leaving the range of `u64`.
pub open spec fn layout_fits(n: nat, c: LayoutConstants) -> bool {
    n * stride(c) <= u64::MAX
}

/// Entry `k` begins a new screen group: it is not the first entry, and its screen
/// differs from that of the entry before it.
pub open spec fn starts_group(entries: Seq<Entry>, k: int) -> bool {
    k > 0 && entries[k].id.screen != entries[k - 1].id.screen
}

/// Where entry `k` starts: the cursor begins at 0 and moves by one width and one
/// padding per entry, plus one screen gap before each new screen group.
pub open spec fn start_of(entries: Seq<Entry>, k: int, c: LayoutConstants) -> int
    decreases k,
{
    if k <= 0 {
        0
    } else {
        start_of(entries, k - 1, c) + width(c) + padding(c) + if starts_group(entries, k) {
            gap(c)
        } else {
            0
        }
    }
}

/// The laid-out sequence: each entry at `[start_of(k), start_of(k) + width)`.
pub open spec fn laid_out(entries: Seq<Entry>, c: LayoutConstants) -> Seq<Item> {
    Seq::new(
        entries.len(),
        |k: int|
            Item {
                workspace: entries[k].id,
                state: entries[k].state,
                start: start_of(entries, k, c) as u64,
                end: (start_of(entries, k, c) + width(c)) as u64,
            },
    )
}

/// The width the whole sequence needs: the end of the last interval, so without
/// the padding that would follow it; 0 when there is no entry.
pub open spec fn total_width(items: Seq<Item>) -> nat {
    if items.len() == 0 {
        0
    } else {
        items.last().end as nat
    }
}

pub(crate) proof fn lemma_start_bound(entries: Seq<Entry>, k: int, c: LayoutConstants)
    requires
        0 <= k,
    ensures
        0 <= start_of(entries, k, c) <= k * stride(c),
    decreases k,
{
    let w = c.item_width as int;
    let p = c.item_padding as int;
    let s = c.screen_padding as int;
    let m = c.scale as int;
    assert((w + p + s) * m == w * m + p * m + s * m) by (nonlinear_arith);
    assert(0 <= w * m && 0 <= p * m && 0 <= s * m) by (nonlinear_arith)
        requires
            0 <= w && 0 <= p && 0 <= s && 0 <= m,
    ;
    if k > 0 {
        lemma_start_bound(entries, k - 1, c);
        assert((k - 1) * stride(c) + stride(c) == k * stride(c)) by (nonlinear_arith);
    }
}

proof fn lemma_stride_parts(n: int, c: LayoutConstants)
    requires
        1 <= n,
        n * stride(c) <= u64::MAX,
    ensures
        c.item_width + c.item_padding + c.screen_padding <= u64::MAX || c.scale == 0,
        stride(c) <= u64::MAX,
        0 <= width(c) && 0 <= padding(c) && 0 <= gap(c),
        width(c) + padding(c) + gap(c) == stride(c),
{
    let w = c.item_width as int;
    let p = c.item_padding as int;
    let s = c.screen_padding as int;
    let m = c.scale as int;
    assert((w + p + s) * m == w * m + p * m + s * m) by (nonlinear_arith);
    assert(0 <= w * m && 0 <= p * m && 0 <= s * m) by (nonlinear_arith)
        requires
            0 <= w && 0 <= p && 0 <= s && 0 <= m,
    ;
    assert(stride(c) <= n * stride(c)) by (nonlinear_arith)
        requires
            1 <= n,
            0 <= stride(c),
    ;
    assert(m >= 1 ==> w + p + s <= (w + p + s) * m) by (nonlinear_arith)
        requires
            0 <= w + p + s,
    ;
}

impl LayoutConstants {
    /// Whether `n` entries can be laid out with these constants without leaving the
    /// range of `u64`.
    pub fn fits(&self, n: usize) -> (r: bool)
        ensures
            r == layout_fits(n as nat, *self),
    {
        if n == 0 || self.scale == 0 {
            assert(n * stride(*self) == 0) by (nonlinear_arith)
                requires
                    n == 0 || self.scale == 0,
            ;
            return true;
        }
        let ghost w = self.item_width as int;
        let ghost p = self.item_padding as int;
        let ghost s = self.screen_padding as int;
        let ghost m = self.scale as int;
        let ghost nn = n as int;
        match self.item_width.checked_add(self.item_padding) {
            None => {
                assert(nn * stride(*self) > u64::MAX) by (nonlinear_arith)
                    requires
                        w + p > u64::MAX,
                        0 <= s,
                        1 <= m,
                        1 <= nn,
                        stride(*self) == (w + p + s) * m,
                ;
                false
            },
            Some(wp) => match wp.checked_add(self.screen_padding) {
                None => {
                    assert(nn * stride(*self) > u64::MAX) by (nonlinear_arith)
                        requires
                            w + p + s > u64::MAX,
                            1 <= m,
                            1 <= nn,
                            stride(*self) == (w + p + s) * m,
                    ;
                    false
                },
                Some(wps) => match wps.checked_mul(self.scale) {
                    None => {
                        assert(nn * stride(*self) > u64::MAX) by (nonlinear_arith)
                            requires
                                stride(*self) > u64::MAX,
                                1 <= nn,
                        ;
                        false
                    },
                    Some(st) => match (n as u64).checked_mul(st) {
                        None => false,
                        Some(_) => true,
                    },
                },
            },
        }
    }
}

/// Assigns each entry its interval. The cursor starts at 0; the first entry of
/// every screen group but the first is preceded by the screen padding; every entry
/// takes the item width and is followed by the item padding; all three are
/// multiplied by the scale.
pub fn layout(entries: &Vec<Entry>, c: LayoutConstants) -> (r: Vec<Item>)
    requires
        layout_fits(entries@.len(), c),
    ensures
        r@ == laid_out(entries@, c),
{
    let n = entries.len();
    let mut out: Vec<Item> = Vec::new();
    if n == 0 {
        assert(out@ =~= laid_out(entries@, c));
        return out;
    }
    proof {
        lemma_stride_parts(n as int, c);
    }
    let w = c.item_width * c.scale;
    let p = c.item_padding * c.scale;
    let g = c.screen_padding * c.scale;
    let mut cursor: u64 = 0;
    let mut k: usize = 0;
    while k < n
        invariant
            n == entries@.len(),
            1 <= n,
            layout_fits(n as nat, c),
            w == width(c),
            p == padding(c),
            g == gap(c),
            width(c) + padding(c) + gap(c) == stride(c),
            0 <= width(c) && 0 <= padding(c) && 0 <= gap(c),
            k <= n,
            k < n ==> cursor == start_of(entries@, k as int, c),
            out@ =~= laid_out(entries@, c).take(k as int),
        decreases n - k,
    {
        proof {
            lemma_start_bound(entries@, k as int, c);
            assert((k as int) * stride(c) + stride(c) <= n * stride(c)) by (nonlinear_arith)
                requires
                    k < n,
                    0 <= stride(c),
            ;
        }
        let e = entries[k];
        out.push(Item { workspace: e.id, state: e.state, start: cursor, end: cursor + w });
        if k + 1 < n {
            let next = entries[k + 1];
            if next.id.screen != e.id.screen {
                cursor = cursor + w + p + g;
            } else {
                cursor = cursor + w + p;
            }
        }
        k = k + 1;
    }
    out
}

/// The width that a laid-out sequence needs; a renderer with less room asks for
/// this much and lays out again.
pub fn required_width(items: &Vec<Item>) -> (r: u64)
    ensures
        r == total_width(items@),
{
    if items.len() == 0 {
        0
    } else {
        items[items.len() - 1].end
    }
}

} // verus!
