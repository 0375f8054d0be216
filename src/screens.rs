//! The screen table: which screens exist, in which order they are shown, and how
//! many workspace entries each must show at least.
use vstd::prelude::*;

verus! {

/// One screen of the table, as it stands in display order.
#[derive(Clone, Copy, Debug, PartialEq, Eq, Structural)]
pub struct ScreenSlot {
    /// The screen's number as the window manager reports it.
    pub screen: usize,
    /// How many entries the screen shows at least.
    pub minimum: usize,
}

/// Why a screen table was refused.
#[derive(Clone, Copy, Debug, PartialEq, Eq, Structural)]
pub enum ConfigError {
    /// The rank table and the minimum table differ in length.
    LengthMismatch,
    /// Some screen asks for a minimum of zero entries.
    ZeroMinimum,
    /// The rank table is not a permutation of `0..n`.
    NotPermutation,
}

/// The screens in the order in which they are displayed, left to right. A screen's
/// rank is its position in this sequence.
pub struct ScreenConfig {
    pub slots: Vec<ScreenSlot>,
}

impl View for ScreenConfig {
    type V = Seq<ScreenSlot>;

    open spec fn view(&self) -> Seq<ScreenSlot> {
        self.slots@
    }
}

/// No screen appears twice, screen numbers start at 1 and every minimum is at least 1.
pub open spec fn slots_wf(slots: Seq<ScreenSlot>) -> bool {
    &&& forall|r: int| 0 <= r < slots.len() ==> #[trigger] slots[r].screen >= 1
    &&& forall|r: int| 0 <= r < slots.len() ==> #[trigger] slots[r].minimum >= 1
    &&& forall|a: int, b: int|
        0 <= a < slots.len() && 0 <= b < slots.len() && a != b ==> #[trigger] slots[a].screen
            != #[trigger] slots[b].screen
}

/// Some screen of the table has rank `r`.
pub open spec fn has_rank(order: Seq<usize>, r: int) -> bool {
    exists|i: int| 0 <= i < order.len() && #[trigger] order[i] == r
}

/// Every rank from 0 to n - 1 is given to some screen of an n-screen table.
pub open spec fn is_rank_table(order: Seq<usize>) -> bool {
    forall|r: int| 0 <= r < order.len() ==> #[trigger] has_rank(order, r)
}

impl ScreenConfig {
    pub open spec fn wf(&self) -> bool {
        slots_wf(self@)
    }

    /// Builds the table from two lists indexed by screen number minus one:
    /// `order[s - 1]` is the display rank of screen `s`, and `minimum[s - 1]` the
    /// number of entries it shows at least.
    pub fn from_tables(order: &Vec<usize>, minimum: &Vec<usize>) -> (r: Result<
        ScreenConfig,
        ConfigError,
    >)
        ensures
            order@.len() != minimum@.len() ==> r == Err::<ScreenConfig, ConfigError>(
                ConfigError::LengthMismatch,
            ),
            order@.len() == minimum@.len() && (exists|i: int|
                0 <= i < minimum@.len() && #[trigger] minimum@[i] == 0) ==> r == Err::<
                ScreenConfig,
                ConfigError,
            >(ConfigError::ZeroMinimum),
            order@.len() == minimum@.len() && (forall|i: int|
                0 <= i < minimum@.len() ==> #[trigger] minimum@[i] >= 1) ==> (r is Err <==> r
                == Err::<ScreenConfig, ConfigError>(ConfigError::NotPermutation)) && (r is Ok
                <==> is_rank_table(order@)),
            r matches Ok(c) ==> {
                &&& c.wf()
                &&& c@.len() == order@.len()
                &&& forall|k: int|
                    0 <= k < c@.len() ==> 1 <= #[trigger] c@[k].screen <= order@.len() && order@[c@[k].screen
                        - 1] == k && c@[k].minimum == minimum@[c@[k].screen - 1]
            },
    {
        let n = order.len();
        if n != minimum.len() {
            return Err(ConfigError::LengthMismatch);
        }
        let mut i: usize = 0;
        while i < n
            invariant
                n == order@.len(),
                n == minimum@.len(),
                i <= n,
                forall|j: int| 0 <= j < i ==> #[trigger] minimum@[j] >= 1,
            decreases n - i,
        {
            if minimum[i] == 0 {
                return Err(ConfigError::ZeroMinimum);
            }
            i = i + 1;
        }
        let mut slots: Vec<ScreenSlot> = Vec::new();
        let mut rank: usize = 0;
        while rank < n
            invariant
                n == order@.len(),
                n == minimum@.len(),
                rank <= n,
                slots@.len() == rank,
                forall|j: int| 0 <= j < n ==> #[trigger] minimum@[j] >= 1,
                forall|k: int| 0 <= k < rank ==> #[trigger] has_rank(order@, k),
                forall|k: int|
                    0 <= k < rank ==> 1 <= #[trigger] slots@[k].screen <= n && order@[slots@[k].screen
                        - 1] == k && slots@[k].minimum == minimum@[slots@[k].screen - 1],
            decreases n - rank,
        {
            let mut i: usize = 0;
            while i < n && order[i] != rank
                invariant
                    n == order@.len(),
                    i <= n,
                    forall|j: int| 0 <= j < i ==> #[trigger] order@[j] != rank,
                decreases n - i,
            {
                i = i + 1;
            }
            if i == n {
                assert(!is_rank_table(order@)) by {
                    if is_rank_table(order@) {
                        assert(has_rank(order@, rank as int));
                        let j = choose|j: int| 0 <= j < order@.len() && #[trigger] order@[j] == rank as int;
                        assert(order@[j] != rank);
                    }
                }
                return Err(ConfigError::NotPermutation);
            }
            assert(has_rank(order@, rank as int));
            slots.push(ScreenSlot { screen: i + 1, minimum: minimum[i] });
            rank = rank + 1;
        }
        let c = ScreenConfig { slots };
        assert forall|a: int, b: int|
            0 <= a < c@.len() && 0 <= b < c@.len() && a != b implies #[trigger] c@[a].screen
            != #[trigger] c@[b].screen by {
            if c@[a].screen == c@[b].screen {
                assert(order@[c@[a].screen - 1] == a);
            }
        }
        assert forall|k: int| 0 <= k < c@.len() implies #[trigger] c@[k].minimum >= 1 by {
            assert(minimum@[c@[k].screen - 1] >= 1);
        }
        assert(c.wf());
        Ok(c)
    }
}

} // verus!
