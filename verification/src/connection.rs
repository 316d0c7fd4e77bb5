//! Session connection states and the bounded-retry policy.
//!
//! The transport itself lives outside this crate; what is modelled here
//! is the state a session can be in and the decision rule that drives
//! connection attempts: at most one attempt in flight, a small fixed
//! retry budget, and a terminal failure once the budget is spent.

use vstd::prelude::*;

verus! {

/// Where a probe's session currently stands.
#[derive(Debug, Clone, Copy, PartialEq, Eq, Hash, Structural)]
pub enum ConnectionState {
    /// No session.
    Disconnected,
    /// A connection attempt is in flight.
    Connecting,
    /// A session is established.
    Connected,
    /// The session is being torn down.
    Disconnecting,
}

impl ConnectionState {
    /// Whether a session is established.
    pub fn is_connected(&self) -> (r: bool)
        ensures
            r == (*self == ConnectionState::Connected),
    {
        matches!(self, ConnectionState::Connected)
    }

    /// Whether the state is transitional: connecting or disconnecting.
    pub fn is_transitioning(&self) -> (r: bool)
        ensures
            r == (*self == ConnectionState::Connecting || *self
                == ConnectionState::Disconnecting),
    {
        matches!(self, ConnectionState::Connecting | ConnectionState::Disconnecting)
    }

    /// The state's display name.
    pub fn name(&self) -> (r: &'static str)
        ensures
            *self == ConnectionState::Disconnected ==> r@ == "Disconnected"@,
            *self == ConnectionState::Connecting ==> r@ == "Connecting"@,
            *self == ConnectionState::Connected ==> r@ == "Connected"@,
            *self == ConnectionState::Disconnecting ==> r@ == "Disconnecting"@,
    {
        match self {
            ConnectionState::Disconnected => "Disconnected",
            ConnectionState::Connecting => "Connecting",
            ConnectionState::Connected => "Connected",
            ConnectionState::Disconnecting => "Disconnecting",
        }
    }
}

impl Default for ConnectionState {
    /// A probe starts with no session.
    fn default() -> (r: Self)
        ensures
            r == ConnectionState::Disconnected,
    {
        ConnectionState::Disconnected
    }
}

/// A connection state change, as reported to subscribers.
#[derive(Debug, Clone, PartialEq, Eq)]
pub struct ConnectionEvent {
    /// The peripheral the change concerns.
    pub identifier: String,
    /// The state it moved to.
    pub state: ConnectionState,
}

/// What the connect loop should do next.
#[derive(Debug, Clone, Copy, PartialEq, Eq, Structural)]
pub enum ConnectDecision {
    /// A session is already established; nothing to do.
    AlreadyConnected,
    /// Another attempt is already in flight; report "already connecting"
    /// instead of racing it.
    Busy,
    /// Make one more transport attempt.
    TryAttempt,
    /// The retry budget is spent; surface a terminal connection failure.
    GiveUp,
}

/// The connect loop's decision rule: connected and transitional states
/// short-circuit, otherwise attempts are granted one at a time until the
/// budget is spent.
pub open spec fn spec_connect_decision(
    state: ConnectionState,
    attempts_made: u32,
    max_attempts: u32,
) -> ConnectDecision {
    if state == ConnectionState::Connected {
        ConnectDecision::AlreadyConnected
    } else if state == ConnectionState::Connecting || state == ConnectionState::Disconnecting {
        ConnectDecision::Busy
    } else if attempts_made < max_attempts {
        ConnectDecision::TryAttempt
    } else {
        ConnectDecision::GiveUp
    }
}

/// Decide the next step of a connection attempt from the session state
/// and how many attempts were already made.
pub fn connect_decision(state: ConnectionState, attempts_made: u32, max_attempts: u32) -> (r:
    ConnectDecision)
    ensures
        r == spec_connect_decision(state, attempts_made, max_attempts),
{
    if state.is_connected() {
        ConnectDecision::AlreadyConnected
    } else if state.is_transitioning() {
        ConnectDecision::Busy
    } else if attempts_made < max_attempts {
        ConnectDecision::TryAttempt
    } else {
        ConnectDecision::GiveUp
    }
}

/// Retrying is bounded: from a disconnected state the rule grants exactly
/// `max_attempts` attempts, and the attempt after the last one gives up
/// instead of retrying forever.
pub proof fn lemma_retries_bounded(attempts_made: u32, max_attempts: u32)
    ensures
        attempts_made >= max_attempts ==> spec_connect_decision(
            ConnectionState::Disconnected,
            attempts_made,
            max_attempts,
        ) == ConnectDecision::GiveUp,
        attempts_made < max_attempts ==> spec_connect_decision(
            ConnectionState::Disconnected,
            attempts_made,
            max_attempts,
        ) == ConnectDecision::TryAttempt,
{
}

} // verus!
