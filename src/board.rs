//! Which monitors the bar shows: those whose latest reading asks for the bar,
//! most recently promoted first; the others wait in the popup.
use vstd::prelude::*;

use crate::monitor::DisplayLocation;

verus! {

/// The monitors' locations and the order in which the bar shows them.
pub struct MonitorBoard {
    /// The location of each monitor's latest reading, by monitor number; `None`
    /// until the first reading.
    pub locations: Vec<Option<DisplayLocation>>,
    /// The monitors on the bar, left to right.
    pub displayed: Vec<usize>,
}

/// `s` without any occurrence of `x`, the rest in order.
pub open spec fn without(s: Seq<usize>, x: usize) -> Seq<usize>
    decreases s.len(),
{
    if s.len() == 0 {
        s
    } else if s.last() == x {
        without(s.drop_last(), x)
    } else {
        without(s.drop_last(), x).push(s.last())
    }
}

/// The bar's list after monitor `idx` moves from `old` to `new`: it is put in front
/// when it moves onto the bar, taken out when it leaves the bar, and left alone
/// otherwise.
pub open spec fn displayed_after(
    displayed: Seq<usize>,
    idx: usize,
    old: Option<DisplayLocation>,
    new: DisplayLocation,
) -> Seq<usize> {
    if old == Some(new) {
        displayed
    } else if new == DisplayLocation::Bar {
        seq![idx] + displayed
    } else if old == Some(DisplayLocation::Bar) {
        without(displayed, idx)
    } else {
        displayed
    }
}

/// The location list grown with `None` up to length `n`.
pub open spec fn padded(locs: Seq<Option<DisplayLocation>>, n: nat) -> Seq<Option<DisplayLocation>> {
    Seq::new(
        if locs.len() >= n {
            locs.len()
        } else {
            n
        },
        |i: int|
            if i < locs.len() {
                locs[i]
            } else {
                None
            },
    )
}

impl MonitorBoard {
    /// A board with no monitor yet.
    pub fn new() -> (r: MonitorBoard)
        ensures
            r.locations@.len() == 0,
            r.displayed@.len() == 0,
    {
        MonitorBoard { locations: Vec::new(), displayed: Vec::new() }
    }

    /// Records that monitor `idx`'s latest reading belongs at `location`.
    pub fn recv_update(&mut self, idx: usize, location: DisplayLocation)
        requires
            idx < usize::MAX,
        ensures
            final(self).locations@ == padded(old(self).locations@, (idx + 1) as nat).update(
                idx as int,
                Some(location),
            ),
            final(self).displayed@ == displayed_after(
                old(self).displayed@,
                idx,
                if idx < old(self).locations@.len() {
                    old(self).locations@[idx as int]
                } else {
                    None
                },
                location,
            ),
    {
        let ghost locs0 = self.locations@;
        let previous = if idx < self.locations.len() {
            self.locations[idx]
        } else {
            None
        };
        while self.locations.len() <= idx
            invariant
                idx < usize::MAX,
                locs0 == old(self).locations@,
                self.displayed@ == old(self).displayed@,
                previous == (if idx < locs0.len() {
                    locs0[idx as int]
                } else {
                    None
                }),
                self.locations@.len() >= locs0.len(),
                self.locations@.len() <= idx + 1 || self.locations@.len() == locs0.len(),
                forall|i: int| 0 <= i < self.locations@.len() ==> #[trigger] self.locations@[i] == (
                if i < locs0.len() {
                    locs0[i]
                } else {
                    None
                }),
            decreases idx + 1 - self.locations@.len(),
        {
            self.locations.push(None);
        }
        self.locations.set(idx, Some(location));
        assert(self.locations@ =~= padded(locs0, (idx + 1) as nat).update(idx as int, Some(location)));
        let moved = match previous {
            Some(p) => p != location,
            None => true,
        };
        if moved {
            if location == DisplayLocation::Bar {
                self.displayed.insert(0, idx);
                assert(self.displayed@ =~= seq![idx] + old(self).displayed@);
            } else if previous == Some(DisplayLocation::Bar) {
                self.displayed = remove_all(&self.displayed, idx);
            }
        }
    }
}

/// The list without any occurrence of `x`.
fn remove_all(s: &Vec<usize>, x: usize) -> (r: Vec<usize>)
    ensures
        r@ == without(s@, x),
{
    let mut out: Vec<usize> = Vec::new();
    let mut k: usize = 0;
    while k < s.len()
        invariant
            k <= s@.len(),
            out@ == without(s@.take(k as int), x),
        decreases s@.len() - k,
    {
        assert(s@.take(k + 1).drop_last() =~= s@.take(k as int));
        if s[k] != x {
            out.push(s[k]);
        }
        k = k + 1;
    }
    assert(s@.take(s@.len() as int) =~= s@);
    out
}

} // verus!
