//! The flag by which a reply in progress is called off.

use vstd::prelude::*;

verus! {

/// What the abort signal reports.
#[derive(Debug, Clone, Copy, PartialEq, Eq, Structural)]
pub enum AbortState {
    /// Nothing has called the reply off.
    Running,
    /// Called off by the interrupt key (ctrl-c).
    CtrlC,
    /// Called off by the end-of-input key (ctrl-d).
    CtrlD,
}

/// A request to call the reply off.
#[derive(Debug, Clone, Copy, PartialEq, Eq, Structural)]
pub enum AbortRequest {
    CtrlC,
    CtrlD,
}

/// The state after a request: a running signal takes the state that the
/// request names, an aborted one stays as it is.
pub open spec fn state_after(state: AbortState, request: AbortRequest) -> AbortState {
    match state {
        AbortState::Running => match request {
            AbortRequest::CtrlC => AbortState::CtrlC,
            AbortRequest::CtrlD => AbortState::CtrlD,
        },
        _ => state,
    }
}

/// The state after a sequence of requests, applied in order.
pub open spec fn state_after_all(state: AbortState, requests: Seq<AbortRequest>) -> AbortState
    decreases requests.len(),
{
    if requests.len() == 0 {
        state
    } else {
        state_after(state_after_all(state, requests.drop_last()), requests.last())
    }
}

/// The abort signal: running until the first request, then aborted for good
/// in the way that request named.
#[derive(Debug, PartialEq, Eq)]
pub struct AbortSignal {
    state: AbortState,
}

impl View for AbortSignal {
    type V = AbortState;

    closed spec fn view(&self) -> AbortState {
        self.state
    }
}

impl AbortSignal {
    /// A signal that is running.
    pub fn new() -> (signal: Self)
        ensures
            signal@ == AbortState::Running,
    {
        AbortSignal { state: AbortState::Running }
    }

    /// The state that the signal reports.
    pub fn state(&self) -> (state: AbortState)
        ensures
            state == self@,
    {
        self.state
    }

    /// Whether the reply was called off, in either way.
    pub fn aborted(&self) -> (aborted: bool)
        ensures
            aborted == (self@ != AbortState::Running),
    {
        match self.state {
            AbortState::Running => false,
            _ => true,
        }
    }

    /// Whether the reply was called off by the interrupt key.
    pub fn aborted_ctrlc(&self) -> (aborted: bool)
        ensures
            aborted == (self@ == AbortState::CtrlC),
    {
        match self.state {
            AbortState::CtrlC => true,
            _ => false,
        }
    }

    /// Whether the reply was called off by the end-of-input key.
    pub fn aborted_ctrld(&self) -> (aborted: bool)
        ensures
            aborted == (self@ == AbortState::CtrlD),
    {
        match self.state {
            AbortState::CtrlD => true,
            _ => false,
        }
    }

    /// Applies a request.
    pub fn set(&mut self, request: AbortRequest)
        ensures
            final(self)@ == state_after(old(self)@, request),
    {
        match self.state {
            AbortState::Running => {
                self.state = match request {
                    AbortRequest::CtrlC => AbortState::CtrlC,
                    AbortRequest::CtrlD => AbortState::CtrlD,
                };
            },
            _ => {},
        }
    }

    /// Calls the reply off by the interrupt key.
    pub fn set_ctrlc(&mut self)
        ensures
            final(self)@ == state_after(old(self)@, AbortRequest::CtrlC),
    {
        self.set(AbortRequest::CtrlC);
    }

    /// Calls the reply off by the end-of-input key.
    pub fn set_ctrld(&mut self)
        ensures
            final(self)@ == state_after(old(self)@, AbortRequest::CtrlD),
    {
        self.set(AbortRequest::CtrlD);
    }
}

/// A request changes nothing the second time.
pub proof fn lemma_request_idempotent(state: AbortState, request: AbortRequest)
    ensures
        state_after(state_after(state, request), request) == state_after(state, request),
{
}

/// After any request the signal is aborted.
pub proof fn lemma_request_aborts(state: AbortState, request: AbortRequest)
    ensures
        state_after(state, request) != AbortState::Running,
{
}

/// An aborted signal is final: whatever requests follow, in whatever order,
/// it reports the same aborted state and never runs again.
pub proof fn lemma_aborted_is_final(state: AbortState, requests: Seq<AbortRequest>)
    requires
        state != AbortState::Running,
    ensures
        state_after_all(state, requests) == state,
    decreases requests.len(),
{
    if requests.len() > 0 {
        lemma_aborted_is_final(state, requests.drop_last());
    }
}

/// Once a request was made, no sequence of later requests brings the signal
/// back to running.
pub proof fn lemma_never_running_again(
    state: AbortState,
    first: AbortRequest,
    later: Seq<AbortRequest>,
)
    ensures
        state_after_all(state_after(state, first), later) != AbortState::Running,
        state_after_all(state_after(state, first), later) == state_after(state, first),
{
    lemma_aborted_is_final(state_after(state, first), later);
}

} // verus!
