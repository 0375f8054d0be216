//! The decisions of the event pump that feeds snapshots to the bar: when to
//! connect, query, hand a snapshot over and listen, and how long to wait before
//! connecting again after a failure.
use vstd::prelude::*;

verus! {

/// The longest wait between two connection attempts, in milliseconds.
pub const MAX_BACKOFF_MS: u64 = 30_000;

/// The wait before the first retry, in milliseconds; each further failure doubles it.
pub const BASE_BACKOFF_MS: u64 = 100;

/// Where the pump stands.
#[derive(Clone, Copy, Debug, PartialEq, Eq, Structural)]
pub enum PumpState {
    /// Not connected; `failures` attempts have failed in a row.
    Connecting { failures: u32 },
    /// Blocked on the window manager's next event.
    Listening,
    /// Querying the workspaces and building a snapshot.
    Reconciling,
}

/// What happened since the last step.
#[derive(Clone, Copy, Debug, PartialEq, Eq, Structural)]
pub enum PumpEvent {
    Connected,
    ConnectFailed,
    /// The window manager reported a change.
    WmEvent,
    /// Waiting for the next event failed: the connection is gone.
    ListenFailed,
    /// Querying the workspaces failed.
    QueryFailed,
    /// The snapshot was handed to the consumer.
    SnapshotHanded,
}

/// What the pump asks its runner to do next.
#[derive(Clone, Copy, Debug, PartialEq, Eq, Structural)]
pub enum PumpAction {
    /// Wait `delay_ms` milliseconds, then connect.
    Connect { delay_ms: u64 },
    /// Query the workspaces, build a snapshot and hand it over.
    Query,
    /// Wait for the next event.
    Listen,
}

/// 2 to the power `n`.
pub open spec fn pow2(n: nat) -> nat
    decreases n,
{
    if n == 0 {
        1
    } else {
        2 * pow2((n - 1) as nat)
    }
}

/// The wait before reconnecting after `failures` failed attempts: doubling from the
/// base, up to the maximum.
pub open spec fn backoff_spec(failures: nat) -> nat {
    if BASE_BACKOFF_MS * pow2(failures) >= MAX_BACKOFF_MS {
        MAX_BACKOFF_MS as nat
    } else {
        (BASE_BACKOFF_MS * pow2(failures)) as nat
    }
}

/// The action that goes with a state when nothing moves it.
pub open spec fn resume_spec(s: PumpState) -> PumpAction {
    match s {
        PumpState::Connecting { failures } => PumpAction::Connect {
            delay_ms: backoff_spec(failures as nat) as u64,
        },
        PumpState::Listening => PumpAction::Listen,
        PumpState::Reconciling => PumpAction::Query,
    }
}

/// The pump's transitions. A connection starts with a query, so that the bar
/// shows the current workspaces at once; each event leads to a fresh snapshot; a
/// lost connection or a failed query leads back to connecting, and each failed
/// connection attempt doubles the wait. An event that does not fit the state
/// changes nothing.
pub open spec fn step_spec(s: PumpState, e: PumpEvent) -> (PumpState, PumpAction) {
    match (s, e) {
        (PumpState::Connecting { .. }, PumpEvent::Connected) => (
            PumpState::Reconciling,
            PumpAction::Query,
        ),
        (PumpState::Connecting { failures }, PumpEvent::ConnectFailed) => {
            let next = if failures == u32::MAX {
                failures
            } else {
                (failures + 1) as u32
            };
            (PumpState::Connecting { failures: next }, resume_spec(PumpState::Connecting { failures: next }))
        },
        (PumpState::Reconciling, PumpEvent::SnapshotHanded) => (
            PumpState::Listening,
            PumpAction::Listen,
        ),
        (PumpState::Reconciling, PumpEvent::QueryFailed) => (
            PumpState::Connecting { failures: 0 },
            resume_spec(PumpState::Connecting { failures: 0 }),
        ),
        (PumpState::Listening, PumpEvent::WmEvent) => (PumpState::Reconciling, PumpAction::Query),
        (PumpState::Listening, PumpEvent::ListenFailed) => (
            PumpState::Connecting { failures: 0 },
            resume_spec(PumpState::Connecting { failures: 0 }),
        ),
        _ => (s, resume_spec(s)),
    }
}

/// The wait before reconnecting after `failures` failed attempts.
pub fn backoff_ms(failures: u32) -> (r: u64)
    ensures
        r == backoff_spec(failures as nat),
{
    let mut delay: u64 = BASE_BACKOFF_MS;
    let mut k: u32 = 0;
    while k < failures
        invariant
            k <= failures,
            delay < MAX_BACKOFF_MS ==> delay == BASE_BACKOFF_MS * pow2(k as nat),
            delay >= MAX_BACKOFF_MS ==> BASE_BACKOFF_MS * pow2(k as nat) >= MAX_BACKOFF_MS,
            delay <= 2 * MAX_BACKOFF_MS,
        decreases failures - k,
    {
        if delay >= MAX_BACKOFF_MS {
            proof {
                lemma_backoff_past_max(failures as nat, k as nat);
            }
            return MAX_BACKOFF_MS;
        }
        delay = delay * 2;
        k = k + 1;
    }
    if delay >= MAX_BACKOFF_MS {
        MAX_BACKOFF_MS
    } else {
        delay
    }
}

proof fn lemma_backoff_past_max(failures: nat, k: nat)
    requires
        k <= failures,
        BASE_BACKOFF_MS * pow2(k) >= MAX_BACKOFF_MS,
    ensures
        BASE_BACKOFF_MS * pow2(failures) >= MAX_BACKOFF_MS,
    decreases failures - k,
{
    if k < failures {
        assert(pow2(k + 1) == 2 * pow2(k));
        lemma_backoff_past_max(failures, k + 1);
    }
}

/// The action that goes with a state when nothing moves it.
pub fn resume(s: PumpState) -> (a: PumpAction)
    ensures
        a == resume_spec(s),
{
    match s {
        PumpState::Connecting { failures } => PumpAction::Connect { delay_ms: backoff_ms(failures) },
        PumpState::Listening => PumpAction::Listen,
        PumpState::Reconciling => PumpAction::Query,
    }
}

/// One step of the pump: the next state and the action to perform.
pub fn step(s: PumpState, e: PumpEvent) -> (r: (PumpState, PumpAction))
    ensures
        r == step_spec(s, e),
{
    match (s, e) {
        (PumpState::Connecting { .. }, PumpEvent::Connected) => (
            PumpState::Reconciling,
            PumpAction::Query,
        ),
        (PumpState::Connecting { failures }, PumpEvent::ConnectFailed) => {
            let next = if failures == u32::MAX {
                failures
            } else {
                failures + 1
            };
            let n = PumpState::Connecting { failures: next };
            (n, resume(n))
        },
        (PumpState::Reconciling, PumpEvent::SnapshotHanded) => (
            PumpState::Listening,
            PumpAction::Listen,
        ),
        (PumpState::Reconciling, PumpEvent::QueryFailed) => {
            let n = PumpState::Connecting { failures: 0 };
            (n, resume(n))
        },
        (PumpState::Listening, PumpEvent::WmEvent) => (PumpState::Reconciling, PumpAction::Query),
        (PumpState::Listening, PumpEvent::ListenFailed) => {
            let n = PumpState::Connecting { failures: 0 };
            (n, resume(n))
        },
        _ => (s, resume(s)),
    }
}

} // verus!
