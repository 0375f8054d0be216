//! Turning the window manager's sparse workspace report into a dense, ordered
//! sequence of entries, one per workspace that the bar shows.
use vstd::prelude::*;

use crate::ident::{parse_name_spec, parse_workspace_name, ParseError, WorkspaceId};
use crate::screens::{ScreenConfig, ScreenSlot};

verus! {

/// One workspace as the window manager reports it.
pub struct WorkspaceRecord {
    pub name: String,
    pub focused: bool,
    pub visible: bool,
    pub urgent: bool,
}

/// How an entry is shown, from least to most prominent.
#[derive(Clone, Copy, Debug, PartialEq, Eq, Structural)]
pub enum EntryState {
    /// Not reported by the window manager: a placeholder that can still be switched to.
    Phantom,
    /// Reported, but neither visible nor focused.
    Inhibited,
    /// Visible on its screen, but not focused.
    Visible,
    /// The focused workspace.
    Active,
    /// Holds a window that asks for attention, whatever else holds of it.
    Urgent,
}

/// One entry of the reconciled sequence.
#[derive(Clone, Copy, Debug, PartialEq, Eq, Structural)]
pub struct Entry {
    pub id: WorkspaceId,
    pub state: EntryState,
}

/// A record whose name could be read, with the state its flags give.
#[derive(Clone, Copy, Debug, PartialEq, Eq, Structural)]
pub struct Observation {
    pub id: WorkspaceId,
    pub state: EntryState,
}

/// The precedence of a state: a higher number wins.
pub open spec fn precedence(s: EntryState) -> nat {
    match s {
        EntryState::Phantom => 0,
        EntryState::Inhibited => 1,
        EntryState::Visible => 2,
        EntryState::Active => 3,
        EntryState::Urgent => 4,
    }
}

/// The state of higher precedence of the two.
pub open spec fn stronger_spec(a: EntryState, b: EntryState) -> EntryState {
    if precedence(b) > precedence(a) {
        b
    } else {
        a
    }
}

/// The state that a reported workspace's flags give: urgent over focused over visible.
pub open spec fn record_state(focused: bool, visible: bool, urgent: bool) -> EntryState {
    if urgent {
        EntryState::Urgent
    } else if focused {
        EntryState::Active
    } else if visible {
        EntryState::Visible
    } else {
        EntryState::Inhibited
    }
}

/// The records whose names parse, in report order; the others are dropped.
pub open spec fn observations(records: Seq<WorkspaceRecord>) -> Seq<Observation>
    decreases records.len(),
{
    if records.len() == 0 {
        Seq::empty()
    } else {
        let prev = observations(records.drop_last());
        let last = records.last();
        match parse_name_spec(last.name@) {
            Ok(id) => prev.push(
                Observation { id, state: record_state(last.focused, last.visible, last.urgent) },
            ),
            Err(_) => prev,
        }
    }
}

/// The records whose names do not parse: their positions in the report, with why.
pub open spec fn rejections(records: Seq<WorkspaceRecord>) -> Seq<(usize, ParseError)>
    decreases records.len(),
{
    if records.len() == 0 {
        Seq::empty()
    } else {
        let prev = rejections(records.drop_last());
        match parse_name_spec(records.last().name@) {
            Ok(_) => prev,
            Err(e) => prev.push(((records.len() - 1) as usize, e)),
        }
    }
}

/// The largest index observed on `screen`, or 0 when none is.
pub open spec fn max_index(obs: Seq<Observation>, screen: usize) -> nat
    decreases obs.len(),
{
    if obs.len() == 0 {
        0
    } else {
        let prev = max_index(obs.drop_last(), screen);
        let last = obs.last();
        if last.id.screen == screen && last.id.index > prev {
            last.id.index as nat
        } else {
            prev
        }
    }
}

/// The state of `id`: the strongest among the observations of it, or `Phantom`
/// when there is none.
pub open spec fn merged_state(obs: Seq<Observation>, id: WorkspaceId) -> EntryState
    decreases obs.len(),
{
    if obs.len() == 0 {
        EntryState::Phantom
    } else {
        let prev = merged_state(obs.drop_last(), id);
        if obs.last().id == id {
            stronger_spec(prev, obs.last().state)
        } else {
            prev
        }
    }
}

/// How many entries a screen shows: up to its largest observed index, and at
/// least its minimum.
pub open spec fn block_len(obs: Seq<Observation>, slot: ScreenSlot) -> nat {
    if max_index(obs, slot.screen) > slot.minimum {
        max_index(obs, slot.screen)
    } else {
        slot.minimum as nat
    }
}

/// The entries of one screen: indices 1 to `block_len`, each with its merged state.
pub open spec fn screen_entries(obs: Seq<Observation>, slot: ScreenSlot) -> Seq<Entry> {
    Seq::new(
        block_len(obs, slot),
        |j: int|
            Entry {
                id: WorkspaceId { screen: slot.screen, index: (j + 1) as usize },
                state: merged_state(obs, WorkspaceId { screen: slot.screen, index: (j + 1) as usize }),
            },
    )
}

/// The entries of all screens, screen after screen in display order.
pub open spec fn entries_for(obs: Seq<Observation>, slots: Seq<ScreenSlot>) -> Seq<Entry>
    decreases slots.len(),
{
    if slots.len() == 0 {
        Seq::empty()
    } else {
        entries_for(obs, slots.drop_last()) + screen_entries(obs, slots.last())
    }
}

/// The reconciled sequence for a report and a screen table.
pub open spec fn reconciled(records: Seq<WorkspaceRecord>, slots: Seq<ScreenSlot>) -> Seq<Entry> {
    entries_for(observations(records), slots)
}

/// The state of higher precedence of the two.
pub fn stronger(a: EntryState, b: EntryState) -> (r: EntryState)
    ensures
        r == stronger_spec(a, b),
{
    let pa: u8 = match a {
        EntryState::Phantom => 0,
        EntryState::Inhibited => 1,
        EntryState::Visible => 2,
        EntryState::Active => 3,
        EntryState::Urgent => 4,
    };
    let pb: u8 = match b {
        EntryState::Phantom => 0,
        EntryState::Inhibited => 1,
        EntryState::Visible => 2,
        EntryState::Active => 3,
        EntryState::Urgent => 4,
    };
    if pb > pa {
        b
    } else {
        a
    }
}

/// The state that a reported workspace's flags give.
pub fn state_from_flags(focused: bool, visible: bool, urgent: bool) -> (r: EntryState)
    ensures
        r == record_state(focused, visible, urgent),
{
    if urgent {
        EntryState::Urgent
    } else if focused {
        EntryState::Active
    } else if visible {
        EntryState::Visible
    } else {
        EntryState::Inhibited
    }
}

/// Parses every record's name and keeps those that parse, in report order.
pub fn observe(records: &Vec<WorkspaceRecord>) -> (r: Vec<Observation>)
    ensures
        r@ == observations(records@),
{
    let mut out: Vec<Observation> = Vec::new();
    let mut k: usize = 0;
    while k < records.len()
        invariant
            k <= records@.len(),
            out@ == observations(records@.take(k as int)),
        decreases records@.len() - k,
    {
        let rec = &records[k];
        assert(records@.take(k + 1).drop_last() =~= records@.take(k as int));
        match parse_workspace_name(rec.name.as_str()) {
            Ok(id) => {
                out.push(
                    Observation { id, state: state_from_flags(rec.focused, rec.visible, rec.urgent) },
                );
            },
            Err(_) => {},
        }
        k = k + 1;
    }
    assert(records@.take(records@.len() as int) =~= records@);
    out
}

/// Lists the records that reconciliation leaves out because their names do not
/// parse, for the caller to report.
pub fn rejected_records(records: &Vec<WorkspaceRecord>) -> (r: Vec<(usize, ParseError)>)
    ensures
        r@ == rejections(records@),
{
    let mut out: Vec<(usize, ParseError)> = Vec::new();
    let mut k: usize = 0;
    while k < records.len()
        invariant
            k <= records@.len(),
            out@ == rejections(records@.take(k as int)),
        decreases records@.len() - k,
    {
        assert(records@.take(k + 1).drop_last() =~= records@.take(k as int));
        match parse_workspace_name(records[k].name.as_str()) {
            Ok(_) => {},
            Err(e) => {
                out.push((k, e));
            },
        }
        k = k + 1;
    }
    assert(records@.take(records@.len() as int) =~= records@);
    out
}

proof fn lemma_index_below_max(obs: Seq<Observation>, screen: usize, k: int)
    requires
        0 <= k < obs.len(),
        obs[k].id.screen == screen,
    ensures
        obs[k].id.index <= max_index(obs, screen),
    decreases obs.len(),
{
    if k < obs.len() - 1 {
        lemma_index_below_max(obs.drop_last(), screen, k);
    }
}

/// The largest index observed on `screen`, or 0.
fn largest_index(obs: &Vec<Observation>, screen: usize) -> (r: usize)
    ensures
        r == max_index(obs@, screen),
{
    let mut best: usize = 0;
    let mut k: usize = 0;
    while k < obs.len()
        invariant
            k <= obs@.len(),
            best == max_index(obs@.take(k as int), screen),
        decreases obs@.len() - k,
    {
        assert(obs@.take(k + 1).drop_last() =~= obs@.take(k as int));
        let o = obs[k];
        if o.id.screen == screen && o.id.index > best {
            best = o.id.index;
        }
        k = k + 1;
    }
    assert(obs@.take(obs@.len() as int) =~= obs@);
    best
}

/// The entries of one screen, indices 1 to the larger of its largest observed
/// index and its minimum.
pub fn screen_block(obs: &Vec<Observation>, slot: ScreenSlot) -> (r: Vec<Entry>)
    requires
        forall|k: int| 0 <= k < obs@.len() ==> #[trigger] obs@[k].id.index >= 1,
    ensures
        r@ == screen_entries(obs@, slot),
{
    let top = largest_index(obs, slot.screen);
    let len = if top > slot.minimum {
        top
    } else {
        slot.minimum
    };
    let mut states: Vec<EntryState> = Vec::new();
    while states.len() < len
        invariant
            states@.len() <= len,
            forall|j: int| 0 <= j < states@.len() ==> #[trigger] states@[j] == EntryState::Phantom,
        decreases len - states@.len(),
    {
        states.push(EntryState::Phantom);
    }
    let mut k: usize = 0;
    while k < obs.len()
        invariant
            k <= obs@.len(),
            len == block_len(obs@, slot),
            states@.len() == len,
            forall|i: int| 0 <= i < obs@.len() ==> #[trigger] obs@[i].id.index >= 1,
            forall|j: int|
                0 <= j < len ==> #[trigger] states@[j] == merged_state(
                    obs@.take(k as int),
                    WorkspaceId { screen: slot.screen, index: (j + 1) as usize },
                ),
        decreases obs@.len() - k,
    {
        assert(obs@.take(k + 1).drop_last() =~= obs@.take(k as int));
        let o = obs[k];
        if o.id.screen == slot.screen {
            proof {
                lemma_index_below_max(obs@, slot.screen, k as int);
            }
            let j = o.id.index - 1;
            let s = stronger(states[j], o.state);
            states.set(j, s);
        }
        k = k + 1;
    }
    assert(obs@.take(obs@.len() as int) =~= obs@);
    let mut out: Vec<Entry> = Vec::new();
    let mut j: usize = 0;
    while j < len
        invariant
            j <= len,
            len == block_len(obs@, slot),
            states@.len() == len,
            forall|i: int|
                0 <= i < len ==> #[trigger] states@[i] == merged_state(
                    obs@,
                    WorkspaceId { screen: slot.screen, index: (i + 1) as usize },
                ),
            out@ =~= screen_entries(obs@, slot).take(j as int),
        decreases len - j,
    {
        out.push(Entry { id: WorkspaceId { screen: slot.screen, index: j + 1 }, state: states[j] });
        j = j + 1;
    }
    out
}

proof fn lemma_observations_positive(records: Seq<WorkspaceRecord>)
    ensures
        forall|k: int|
            0 <= k < observations(records).len() ==> #[trigger] observations(records)[k].id.index
                >= 1,
    decreases records.len(),
{
    if records.len() > 0 {
        lemma_observations_positive(records.drop_last());
    }
}

/// Reconciles one report against the screen table: every configured screen, in
/// display order, shows indices 1 to the larger of its largest reported index and
/// its minimum; a reported workspace keeps the state of its flags, the others are
/// `Phantom`. Records whose names do not parse, or whose screen is not in the
/// table, are left out; they never stop the pass.
pub fn reconcile(records: &Vec<WorkspaceRecord>, config: &ScreenConfig) -> (r: Vec<Entry>)
    ensures
        r@ == reconciled(records@, config@),
{
    let obs = observe(records);
    proof {
        lemma_observations_positive(records@);
    }
    let mut out: Vec<Entry> = Vec::new();
    let mut s: usize = 0;
    while s < config.slots.len()
        invariant
            s <= config@.len(),
            obs@ == observations(records@),
            forall|k: int| 0 <= k < obs@.len() ==> #[trigger] obs@[k].id.index >= 1,
            out@ == entries_for(obs@, config@.take(s as int)),
        decreases config@.len() - s,
    {
        assert(config@.take(s + 1).drop_last() =~= config@.take(s as int));
        let mut block = screen_block(&obs, config.slots[s]);
        out.append(&mut block);
        s = s + 1;
    }
    assert(config@.take(config@.len() as int) =~= config@);
    out
}

} // verus!
