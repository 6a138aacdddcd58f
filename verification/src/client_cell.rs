//! The initialize-once cell that holds the shared transcription client.
//!
//! The host keeps one such cell for the whole process. Its life is modeled
//! as a state machine: callers arrive wanting the client, and at most one
//! of them is told to construct it; everyone else waits for, then shares,
//! the one instance. The proofs below pin that down for every possible
//! run of the machine.

use vstd::prelude::*;

verus! {

/// Configuration of the shared transcription client.
#[derive(Debug)]
pub struct ClientConfig {
    /// The service credential, as the host found it in the environment.
    pub api_key: String,
}

/// Failure to assemble the configuration.
#[derive(Clone, Copy, Debug, PartialEq, Eq, Structural)]
pub enum ConfigError {
    /// No credential was present in the environment.
    MissingCredential,
}

/// Validates the credential the host read from the environment: the
/// configuration exists exactly when a credential was present, and holds
/// it unchanged.
pub fn config_from_credential(credential: Option<String>) -> (r: Result<ClientConfig, ConfigError>)
    ensures
        credential matches Some(key) ==> (r matches Ok(c) && c.api_key == key),
        credential is None ==> (r matches Err(e) && e is MissingCredential),
{
    match credential {
        Some(key) => Ok(ClientConfig { api_key: key }),
        None => Err(ConfigError::MissingCredential),
    }
}

/// State of the initialize-once cell.
pub enum CellState {
    /// No caller has needed the client yet.
    Empty,
    /// A construction is in flight; its result has not been installed.
    Initializing,
    /// The client exists and is shared read-only by all callers.
    Ready(ClientConfig),
}

/// One thing that can happen to the cell: a caller arrives wanting the
/// client, or a finished construction delivers its configuration.
pub enum CellEvent {
    /// A transcription call needs the client.
    FirstUse,
    /// The in-flight construction completed with this configuration.
    Constructed(ClientConfig),
}

/// What the host must do after a step.
#[derive(Clone, Copy, Debug, PartialEq, Eq, Structural)]
pub enum CellAction {
    /// Begin constructing the client; no concurrent caller also gets this.
    StartConstruction,
    /// A construction is in flight: suspend until the cell is ready.
    WaitForReady,
    /// The cell is ready: use the shared client.
    UseClient,
    /// The delivered configuration was installed in the cell.
    Installed,
    /// The cell was already ready; the delivered configuration is dropped.
    Discarded,
}

/// The successor state of the cell.
pub open spec fn next_state(s: CellState, e: CellEvent) -> CellState {
    match (s, e) {
        (CellState::Empty, CellEvent::FirstUse) => CellState::Initializing,
        (CellState::Initializing, CellEvent::FirstUse) => CellState::Initializing,
        (CellState::Ready(c), CellEvent::FirstUse) => CellState::Ready(c),
        (CellState::Empty, CellEvent::Constructed(c)) => CellState::Ready(c),
        (CellState::Initializing, CellEvent::Constructed(c)) => CellState::Ready(c),
        (CellState::Ready(c), CellEvent::Constructed(_)) => CellState::Ready(c),
    }
}

/// The action a step demands of the host.
pub open spec fn step_action(s: CellState, e: CellEvent) -> CellAction {
    match (s, e) {
        (CellState::Empty, CellEvent::FirstUse) => CellAction::StartConstruction,
        (CellState::Initializing, CellEvent::FirstUse) => CellAction::WaitForReady,
        (CellState::Ready(_), CellEvent::FirstUse) => CellAction::UseClient,
        (CellState::Empty, CellEvent::Constructed(_)) => CellAction::Installed,
        (CellState::Initializing, CellEvent::Constructed(_)) => CellAction::Installed,
        (CellState::Ready(_), CellEvent::Constructed(_)) => CellAction::Discarded,
    }
}

/// Performs one step of the cell's life: consumes the state and the event
/// and returns the successor state with the action the host must take.
pub fn cell_step(state: CellState, event: CellEvent) -> (r: (CellState, CellAction))
    ensures
        r.0 == next_state(state, event),
        r.1 == step_action(state, event),
{
    match (state, event) {
        (CellState::Empty, CellEvent::FirstUse) => (
            CellState::Initializing,
            CellAction::StartConstruction,
        ),
        (CellState::Initializing, CellEvent::FirstUse) => (
            CellState::Initializing,
            CellAction::WaitForReady,
        ),
        (CellState::Ready(c), CellEvent::FirstUse) => (CellState::Ready(c), CellAction::UseClient),
        (CellState::Empty, CellEvent::Constructed(c)) => (
            CellState::Ready(c),
            CellAction::Installed,
        ),
        (CellState::Initializing, CellEvent::Constructed(c)) => (
            CellState::Ready(c),
            CellAction::Installed,
        ),
        (CellState::Ready(c), CellEvent::Constructed(_)) => (
            CellState::Ready(c),
            CellAction::Discarded,
        ),
    }
}

/// The state after the first `k` of `events`, starting from `s0`.
pub open spec fn state_after(s0: CellState, events: Seq<CellEvent>, k: int) -> CellState
    recommends
        0 <= k <= events.len(),
    decreases k,
{
    if k <= 0 {
        s0
    } else {
        next_state(state_after(s0, events, k - 1), events[k - 1])
    }
}

/// No event leaves the cell empty: once anything has happened, the cell is
/// initializing or ready forever.
pub proof fn lemma_never_empty_again(s0: CellState, events: Seq<CellEvent>, k: int)
    requires
        1 <= k <= events.len(),
    ensures
        !(state_after(s0, events, k) is Empty),
{
}

/// Single initialization: in any run of the cell, at most one step demands
/// that a construction be started, however many callers take part.
pub proof fn lemma_single_initialization(s0: CellState, events: Seq<CellEvent>, i: int, j: int)
    requires
        0 <= i < j < events.len(),
        step_action(state_after(s0, events, i), events[i]) is StartConstruction,
    ensures
        !(step_action(state_after(s0, events, j), events[j]) is StartConstruction),
{
    lemma_never_empty_again(s0, events, j);
}

/// Convergence: once the cell is ready, it stays ready with the same
/// configuration forever, and every later caller is told to use that one
/// shared client.
pub proof fn lemma_ready_is_stable(
    s0: CellState,
    events: Seq<CellEvent>,
    c: ClientConfig,
    i: int,
    j: int,
)
    requires
        0 <= i <= j <= events.len(),
        state_after(s0, events, i) == CellState::Ready(c),
    ensures
        state_after(s0, events, j) == CellState::Ready(c),
        j < events.len() && events[j] is FirstUse ==> step_action(
            state_after(s0, events, j),
            events[j],
        ) is UseClient,
    decreases j - i,
{
    if i < j {
        lemma_ready_is_stable(s0, events, c, i, j - 1);
    }
}

} // verus!
