//! What holds along every history of the toolbar.
//!
//! A history is a sequence of events, each the call of one entry point of the
//! orchestrator with its arguments. The laws here speak of every state that
//! any history reaches from a fresh orchestrator.

use crate::async_result::FetchError;
use crate::orchestrator::{begins, SignatureOutcome, ToolbarOrchestrator};
use crate::snapshot::{Proof, TokenSupply, Treasury};
use crate::wallet::{SignError, Signature, WalletConnection};
use vstd::prelude::*;

verus! {

/// One call of an entry point of the orchestrator.
#[derive(Debug, PartialEq, Eq)]
pub enum ToolbarEvent {
    /// `open_toolbar`
    ToolbarOpened(WalletConnection),
    /// `close_toolbar`
    ToolbarClosed,
    /// `request_account_provisioning`
    ProvisioningRequested(WalletConnection),
    /// `signature_completed`
    SignatureAnswered(Result<Signature, SignError>),
    /// `start_mining`
    StartRequested(WalletConnection),
    /// `start_completed`
    StartResolved(Result<Proof, FetchError>),
    /// `stop_mining`
    StopRequested,
    /// `tick`
    Ticked,
    /// `record_treasury`
    TreasuryFetched(Result<Treasury, FetchError>),
    /// `record_proof`
    ProofFetched(Result<Proof, FetchError>),
    /// `record_supply`
    SupplyFetched(Result<TokenSupply, FetchError>),
}

/// The state that the entry point of `event` leaves.
pub open spec fn after(state: ToolbarOrchestrator, event: ToolbarEvent) -> ToolbarOrchestrator {
    match event {
        ToolbarEvent::ToolbarOpened(wallet) => state.opened(wallet).0,
        ToolbarEvent::ToolbarClosed => state.closed().0,
        ToolbarEvent::ProvisioningRequested(wallet) => state.provisioning_requested(wallet).0,
        ToolbarEvent::SignatureAnswered(answer) => state.signature_recorded(answer).0,
        ToolbarEvent::StartRequested(wallet) => state.start_requested(wallet).0,
        ToolbarEvent::StartResolved(resolved) => state.start_recorded(resolved).0,
        ToolbarEvent::StopRequested => state.stopped().0,
        ToolbarEvent::Ticked => state.ticked(),
        ToolbarEvent::TreasuryFetched(fetched) => state.with_treasury(fetched),
        ToolbarEvent::ProofFetched(fetched) => state.with_proof(fetched),
        ToolbarEvent::SupplyFetched(fetched) => state.with_supply(fetched),
    }
}

/// The state after the first `n` of `events`, from a fresh orchestrator for
/// the account lookup `account`.
pub open spec fn reached(account: Option<Proof>, events: Seq<ToolbarEvent>, n: nat) -> ToolbarOrchestrator
    decreases n,
{
    if n == 0 {
        ToolbarOrchestrator::initial(account)
    } else {
        after(reached(account, events, (n - 1) as nat), events[n - 1])
    }
}

/// Whether the entry point of `event` tells the caller to begin an attempt to
/// start mining.
pub open spec fn begins_attempt(state: ToolbarOrchestrator, event: ToolbarEvent) -> bool {
    match event {
        ToolbarEvent::StartRequested(wallet) => begins(state.start_requested(wallet).1),
        ToolbarEvent::SignatureAnswered(answer) => state.signature_recorded(answer).1
            is StartMining,
        _ => false,
    }
}

/// Whether `event` reports the end of the attempt that is in flight.
pub open spec fn ends_attempt(state: ToolbarOrchestrator, event: ToolbarEvent) -> bool {
    event is StartResolved && state.starting
}

/// Attempts to start mining that the first `n` events have begun.
pub open spec fn attempts_begun(account: Option<Proof>, events: Seq<ToolbarEvent>, n: nat) -> nat
    decreases n,
{
    if n == 0 {
        0
    } else {
        let before = reached(account, events, (n - 1) as nat);
        attempts_begun(account, events, (n - 1) as nat) + if begins_attempt(
            before,
            events[n - 1],
        ) {
            1nat
        } else {
            0nat
        }
    }
}

/// Attempts to start mining whose end the first `n` events have reported.
pub open spec fn attempts_ended(account: Option<Proof>, events: Seq<ToolbarEvent>, n: nat) -> nat
    decreases n,
{
    if n == 0 {
        0
    } else {
        let before = reached(account, events, (n - 1) as nat);
        attempts_ended(account, events, (n - 1) as nat) + if ends_attempt(
            before,
            events[n - 1],
        ) {
            1nat
        } else {
            0nat
        }
    }
}

/// Whether the entry point of `event` hands the caller a transaction to have
/// signed.
pub open spec fn issues_request(state: ToolbarOrchestrator, event: ToolbarEvent) -> bool {
    event matches ToolbarEvent::ProvisioningRequested(wallet)
        && state.provisioning_requested(wallet).1 is Ok
}

/// Whether `event` ends the observation of the pending signature request: its
/// answer is recorded, or the request is dropped with the offer.
pub open spec fn settles_request(state: ToolbarOrchestrator, event: ToolbarEvent) -> bool {
    state.provisioner.invocation is Pending && match event {
        ToolbarEvent::SignatureAnswered(_) => true,
        ToolbarEvent::ToolbarClosed => state.closed().1,
        _ => false,
    }
}

/// Signature requests that the first `n` events have issued.
pub open spec fn requests_issued(account: Option<Proof>, events: Seq<ToolbarEvent>, n: nat) -> nat
    decreases n,
{
    if n == 0 {
        0
    } else {
        let before = reached(account, events, (n - 1) as nat);
        requests_issued(account, events, (n - 1) as nat) + if issues_request(
            before,
            events[n - 1],
        ) {
            1nat
        } else {
            0nat
        }
    }
}

/// Signature requests that the first `n` events have settled.
pub open spec fn requests_settled(account: Option<Proof>, events: Seq<ToolbarEvent>, n: nat) -> nat
    decreases n,
{
    if n == 0 {
        0
    } else {
        let before = reached(account, events, (n - 1) as nat);
        requests_settled(account, events, (n - 1) as nat) + if settles_request(
            before,
            events[n - 1],
        ) {
            1nat
        } else {
            0nat
        }
    }
}

/// Every state that a history reaches is well formed.
pub proof fn law_reached_states_are_well_formed(
    account: Option<Proof>,
    events: Seq<ToolbarEvent>,
    n: nat,
)
    ensures
        reached(account, events, n).wf(),
    decreases n,
{
    if n > 0 {
        law_reached_states_are_well_formed(account, events, (n - 1) as nat);
    }
}

/// Never two attempts to start mining at once: along every history the
/// attempts begun and not yet ended are one while the state says that one is
/// in flight, and none otherwise.
pub proof fn law_one_start_attempt_at_a_time(
    account: Option<Proof>,
    events: Seq<ToolbarEvent>,
    n: nat,
)
    ensures
        attempts_ended(account, events, n) <= attempts_begun(account, events, n),
        attempts_begun(account, events, n) - attempts_ended(account, events, n) == if reached(
            account,
            events,
            n,
        ).starting {
            1int
        } else {
            0int
        },
    decreases n,
{
    if n > 0 {
        law_one_start_attempt_at_a_time(account, events, (n - 1) as nat);
        law_reached_states_are_well_formed(account, events, (n - 1) as nat);
    }
}

/// Never two signature requests at once: along every history the requests
/// issued and not yet settled are one while the invocation is pending, and
/// none otherwise.
pub proof fn law_one_signature_request_at_a_time(
    account: Option<Proof>,
    events: Seq<ToolbarEvent>,
    n: nat,
)
    ensures
        requests_settled(account, events, n) <= requests_issued(account, events, n),
        requests_issued(account, events, n) - requests_settled(account, events, n) == if reached(
            account,
            events,
            n,
        ).provisioner.invocation is Pending {
            1int
        } else {
            0int
        },
    decreases n,
{
    if n > 0 {
        law_one_signature_request_at_a_time(account, events, (n - 1) as nat);
        law_reached_states_are_well_formed(account, events, (n - 1) as nat);
    }
}

/// Mining becomes active only by an attempt that resolved the account: a
/// history that is not active before an event and active after it has just
/// recorded a successful attempt, and the session timer is at zero.
pub proof fn law_active_only_by_resolved_attempt(
    account: Option<Proof>,
    events: Seq<ToolbarEvent>,
    n: nat,
)
    requires
        0 < n,
        !(reached(account, events, (n - 1) as nat).stage is Active),
        reached(account, events, n).stage is Active,
    ensures
        events[n - 1] matches ToolbarEvent::StartResolved(Ok(_)),
        reached(account, events, (n - 1) as nat).starting,
        reached(account, events, n).poller.timer.seconds == 0,
{
}

/// Whether `event` is the passing of time or the arrival of chain data.
pub open spec fn is_poll(event: ToolbarEvent) -> bool {
    event is Ticked || event is TreasuryFetched || event is ProofFetched || event is SupplyFetched
}

/// Time and chain data move no phase: a tick or a fetch result, failed or
/// not, leaves the stage, the toolbar, the signature request and the attempt
/// to start as they were.
pub proof fn law_polling_moves_no_phase(state: ToolbarOrchestrator, event: ToolbarEvent)
    requires
        is_poll(event),
    ensures
        after(state, event).stage == state.stage,
        after(state, event).toolbar_open == state.toolbar_open,
        after(state, event).provisioner == state.provisioner,
        after(state, event).starting == state.starting,
        after(state, event).shown() == state.shown(),
{
}

/// Active mining ends by a request to stop and by nothing else.
pub proof fn law_active_until_stopped(state: ToolbarOrchestrator, event: ToolbarEvent)
    requires
        state.wf(),
        state.stage is Active,
    ensures
        event is StopRequested <==> !(after(state, event).stage is Active),
{
}

} // verus!
