//! The toolbar's state machine.
//!
//! The orchestrator decides; the caller acts. Each entry point takes what has
//! happened (the user opened the toolbar, the wallet answered, the attempt to
//! start mining ended, a second went by), moves the state, and says in its
//! result what the caller has to do next: request a signature, start the
//! attempt, stop the polling task.

use crate::async_result::{AsyncResult, FetchError};
use crate::metrics::{metrics_match, supply_displayable, ToolbarMetrics};
use crate::poller::MiningPoller;
use crate::provisioner::{
    AccountProvisioner, OpenAccountTransaction, ProvisionError, ProvisionOutcome,
};
use crate::signature::{SignatureFailure, SignatureInvocation};
use crate::snapshot::{Proof, TokenSupply, Treasury};
use crate::wallet::{ConnectionError, SignError, Signature, WalletConnection};
use vstd::prelude::*;

verus! {

/// Where the user stands on the way to mining.
#[derive(Clone, Copy, Debug, PartialEq, Eq)]
pub enum Stage {
    /// No mining account is known, and none is being opened.
    InsufficientFunds,
    /// The toolbar offers to open an account.
    Provisioning,
    /// Mining runs, and the poller with it.
    Active,
}

/// What the toolbar presents.
#[derive(Clone, Copy, Debug, PartialEq, Eq)]
pub enum ToolbarPhase {
    InsufficientFundsCollapsed,
    /// No account and the toolbar open: the offer to open one, with the
    /// signature request to draw it from (a prompt, a spinner, an error).
    Provisioning(SignatureInvocation),
    ActiveCollapsed,
    ActiveOpen,
}

/// What a request to start mining came to.
#[derive(Clone, Copy, Debug, PartialEq, Eq)]
pub enum StartDecision {
    /// An attempt begins: the caller makes it and reports how it ended.
    Begin,
    /// An attempt is in flight already: nothing to do.
    AlreadyStarting,
    /// A signature request is pending, and its signature will set off the
    /// attempt: nothing to do.
    AwaitingSignature,
    /// Mining runs already: nothing to do.
    AlreadyActive,
}

/// What the wallet's answer came to.
#[derive(Clone, Copy, Debug, PartialEq, Eq)]
pub enum SignatureOutcome {
    /// No request was pending: nothing changed.
    Ignored,
    /// The request ended without a signature; the user may try again.
    Failed(SignatureFailure),
    /// The transaction was signed and an attempt to start mining begins: the
    /// caller makes it and reports how it ended.
    StartMining(Signature),
    /// The transaction was signed while an attempt to start mining was in
    /// flight already: that attempt stands for this signature too. No
    /// well-formed state gives this answer; it keeps a state that is not well
    /// formed from beginning a second attempt.
    AwaitingStart(Signature),
}

/// The phase for a user with or without an account, a toolbar open or not,
/// and the signature request for opening an account. The request shows only
/// in the offer to open one; it moves no phase by itself.
pub open spec fn phase_of(
    has_account: bool,
    toolbar_open: bool,
    signature: SignatureInvocation,
) -> ToolbarPhase {
    if has_account {
        if toolbar_open {
            ToolbarPhase::ActiveOpen
        } else {
            ToolbarPhase::ActiveCollapsed
        }
    } else {
        if toolbar_open {
            ToolbarPhase::Provisioning(signature)
        } else {
            ToolbarPhase::InsufficientFundsCollapsed
        }
    }
}

/// Derives the phase to present.
pub fn toolbar_phase(has_account: bool, toolbar_open: bool, signature: SignatureInvocation) -> (phase:
    ToolbarPhase)
    ensures
        phase == phase_of(has_account, toolbar_open, signature),
{
    if has_account {
        if toolbar_open {
            ToolbarPhase::ActiveOpen
        } else {
            ToolbarPhase::ActiveCollapsed
        }
    } else {
        if toolbar_open {
            ToolbarPhase::Provisioning(signature)
        } else {
            ToolbarPhase::InsufficientFundsCollapsed
        }
    }
}

/// The state of the toolbar: the stage, whether the toolbar is open, the
/// signature request for opening an account, whether an attempt to start
/// mining is in flight, and the poller.
#[derive(Clone, Debug, PartialEq, Eq)]
pub struct ToolbarOrchestrator {
    pub stage: Stage,
    pub toolbar_open: bool,
    pub provisioner: AccountProvisioner,
    pub starting: bool,
    pub poller: MiningPoller,
}

impl ToolbarOrchestrator {
    /// What holds of every state that the entry points reach.
    ///
    /// Without an account the collapsed toolbar offers nothing and the open
    /// one offers to open an account. No attempt to start is in flight while
    /// mining runs, nor while a signature request is pending. A signed
    /// request is kept only while the attempt that it set off is in flight.
    /// The poller holds something only while mining runs.
    pub open spec fn wf(self) -> bool {
        &&& self.stage is InsufficientFunds ==> !self.toolbar_open
            && self.provisioner.invocation is Start
        &&& self.stage is Provisioning ==> self.toolbar_open
        &&& self.stage is Active ==> !self.starting && self.provisioner.invocation is Start
        &&& self.provisioner.invocation is Done ==> self.starting
        &&& self.provisioner.invocation is Pending ==> !self.starting
        &&& !(self.stage is Active) ==> self.poller == MiningPoller::idle()
    }

    /// The state for a user whose account lookup gave `account`.
    pub open spec fn initial(account: Option<Proof>) -> ToolbarOrchestrator {
        match account {
            Some(snapshot) => ToolbarOrchestrator {
                stage: Stage::Active,
                toolbar_open: false,
                provisioner: AccountProvisioner { invocation: SignatureInvocation::Start },
                starting: false,
                poller: MiningPoller::starting_from(snapshot),
            },
            None => ToolbarOrchestrator {
                stage: Stage::InsufficientFunds,
                toolbar_open: false,
                provisioner: AccountProvisioner { invocation: SignatureInvocation::Start },
                starting: false,
                poller: MiningPoller::idle(),
            },
        }
    }

    /// The phase that the state presents.
    pub open spec fn shown(self) -> ToolbarPhase {
        phase_of(self.stage is Active, self.toolbar_open, self.provisioner.invocation)
    }

    /// `open_toolbar`, as a function of the state.
    pub open spec fn opened(self, wallet: WalletConnection) -> (
        ToolbarOrchestrator,
        Result<ToolbarPhase, ConnectionError>,
    ) {
        match self.stage {
            Stage::Active => (
                ToolbarOrchestrator { toolbar_open: true, ..self },
                Ok(ToolbarPhase::ActiveOpen),
            ),
            Stage::Provisioning => (
                ToolbarOrchestrator { toolbar_open: true, ..self },
                Ok(ToolbarPhase::Provisioning(self.provisioner.invocation)),
            ),
            Stage::InsufficientFunds => if wallet.connected {
                (
                    ToolbarOrchestrator {
                        stage: Stage::Provisioning,
                        toolbar_open: true,
                        ..self
                    },
                    Ok(ToolbarPhase::Provisioning(self.provisioner.invocation)),
                )
            } else {
                (self, Err(ConnectionError))
            },
        }
    }

    /// `close_toolbar`, as a function of the state.
    pub open spec fn closed(self) -> (ToolbarOrchestrator, bool) {
        match self.stage {
            Stage::Active => (ToolbarOrchestrator { toolbar_open: false, ..self }, false),
            Stage::Provisioning => (
                ToolbarOrchestrator {
                    stage: Stage::InsufficientFunds,
                    toolbar_open: false,
                    provisioner: AccountProvisioner { invocation: SignatureInvocation::Start },
                    ..self
                },
                self.provisioner.invocation is Pending,
            ),
            Stage::InsufficientFunds => (
                ToolbarOrchestrator { toolbar_open: false, ..self },
                false,
            ),
        }
    }

    /// `request_account_provisioning`, as a function of the state.
    pub open spec fn provisioning_requested(self, wallet: WalletConnection) -> (
        ToolbarOrchestrator,
        Result<OpenAccountTransaction, ProvisionError>,
    ) {
        if !(self.stage is Provisioning) {
            (self, Err(ProvisionError::NotOffered))
        } else if self.starting {
            (self, Err(ProvisionError::InFlight))
        } else {
            let (provisioner, issued) = self.provisioner.begun(wallet);
            (ToolbarOrchestrator { provisioner, ..self }, issued)
        }
    }

    /// `signature_completed`, as a function of the state.
    pub open spec fn signature_recorded(self, answer: Result<Signature, SignError>) -> (
        ToolbarOrchestrator,
        SignatureOutcome,
    ) {
        let (provisioner, outcome) = self.provisioner.completed(answer);
        match outcome {
            ProvisionOutcome::Ignored => (self, SignatureOutcome::Ignored),
            ProvisionOutcome::Failed(cause) => (
                ToolbarOrchestrator { provisioner, ..self },
                SignatureOutcome::Failed(cause),
            ),
            ProvisionOutcome::AccountLikelyCreated(signature) => (
                ToolbarOrchestrator { provisioner, starting: true, ..self },
                if self.starting {
                    SignatureOutcome::AwaitingStart(signature)
                } else {
                    SignatureOutcome::StartMining(signature)
                },
            ),
        }
    }

    /// `start_mining`, as a function of the state.
    pub open spec fn start_requested(self, wallet: WalletConnection) -> (
        ToolbarOrchestrator,
        Result<StartDecision, ConnectionError>,
    ) {
        if self.stage is Active {
            (self, Ok(StartDecision::AlreadyActive))
        } else if self.starting {
            (self, Ok(StartDecision::AlreadyStarting))
        } else if self.provisioner.invocation is Pending {
            (self, Ok(StartDecision::AwaitingSignature))
        } else if !wallet.connected {
            (self, Err(ConnectionError))
        } else {
            (ToolbarOrchestrator { starting: true, ..self }, Ok(StartDecision::Begin))
        }
    }

    /// `start_completed`, as a function of the state.
    pub open spec fn start_recorded(self, resolved: Result<Proof, FetchError>) -> (
        ToolbarOrchestrator,
        bool,
    ) {
        if !self.starting {
            (self, false)
        } else {
            match resolved {
                Ok(snapshot) => (
                    ToolbarOrchestrator {
                        stage: Stage::Active,
                        toolbar_open: self.toolbar_open,
                        provisioner: AccountProvisioner { invocation: SignatureInvocation::Start },
                        starting: false,
                        poller: MiningPoller::starting_from(snapshot),
                    },
                    true,
                ),
                Err(_) => (
                    ToolbarOrchestrator {
                        provisioner: if self.provisioner.invocation is Done {
                            AccountProvisioner { invocation: SignatureInvocation::Start }
                        } else {
                            self.provisioner
                        },
                        starting: false,
                        ..self
                    },
                    false,
                ),
            }
        }
    }

    /// `stop_mining`, as a function of the state.
    pub open spec fn stopped(self) -> (ToolbarOrchestrator, bool) {
        if self.stage is Active {
            (
                ToolbarOrchestrator {
                    stage: Stage::InsufficientFunds,
                    toolbar_open: false,
                    poller: MiningPoller::idle(),
                    ..self
                },
                true,
            )
        } else {
            (self, false)
        }
    }

    /// Whether a tick can be counted in this state.
    pub open spec fn can_tick(self) -> bool {
        self.stage is Active ==> self.poller.can_tick()
    }

    /// `tick`, as a function of the state.
    pub open spec fn ticked(self) -> ToolbarOrchestrator {
        if self.stage is Active {
            ToolbarOrchestrator { poller: self.poller.ticked(), ..self }
        } else {
            self
        }
    }

    /// The state after a treasury fetch completed.
    pub open spec fn with_treasury(self, fetched: Result<Treasury, FetchError>) -> ToolbarOrchestrator {
        if self.stage is Active {
            ToolbarOrchestrator {
                poller: MiningPoller { treasury: AsyncResult::of_fetch(fetched), ..self.poller },
                ..self
            }
        } else {
            self
        }
    }

    /// The state after a proof fetch completed.
    pub open spec fn with_proof(self, fetched: Result<Proof, FetchError>) -> ToolbarOrchestrator {
        if self.stage is Active {
            ToolbarOrchestrator {
                poller: MiningPoller { proof_slot: AsyncResult::of_fetch(fetched), ..self.poller },
                ..self
            }
        } else {
            self
        }
    }

    /// The state after a supply fetch completed.
    pub open spec fn with_supply(self, fetched: Result<TokenSupply, FetchError>) -> ToolbarOrchestrator {
        if self.stage is Active {
            ToolbarOrchestrator {
                poller: MiningPoller { supply: AsyncResult::of_fetch(fetched), ..self.poller },
                ..self
            }
        } else {
            self
        }
    }

    /// The orchestrator for a user whose account lookup gave `account`: with
    /// a snapshot mining is active from the start, without one there are
    /// insufficient funds.
    pub fn new(account: Option<Proof>) -> (state: Self)
        ensures
            state == Self::initial(account),
            state.wf(),
    {
        match account {
            Some(snapshot) => ToolbarOrchestrator {
                stage: Stage::Active,
                toolbar_open: false,
                provisioner: AccountProvisioner::new(),
                starting: false,
                poller: MiningPoller::start(snapshot),
            },
            None => ToolbarOrchestrator {
                stage: Stage::InsufficientFunds,
                toolbar_open: false,
                provisioner: AccountProvisioner::new(),
                starting: false,
                poller: MiningPoller::new(),
            },
        }
    }

    /// The phase to present.
    pub fn phase(&self) -> (phase: ToolbarPhase)
        ensures
            phase == self.shown(),
    {
        toolbar_phase(self.is_active(), self.toolbar_open, self.provisioner.invocation)
    }

    pub fn is_active(&self) -> (active: bool)
        ensures
            active == (self.stage is Active),
    {
        match self.stage {
            Stage::Active => true,
            _ => false,
        }
    }

    /// Whether an attempt to start mining is in flight.
    pub fn is_starting(&self) -> (starting: bool)
        ensures
            starting == self.starting,
    {
        self.starting
    }

    /// The signature request for opening an account, for display.
    pub fn signature(&self) -> (invocation: SignatureInvocation)
        ensures
            invocation == self.provisioner.invocation,
    {
        self.provisioner.invocation
    }

    /// Seconds of the current mining epoch.
    pub fn session_seconds(&self) -> (seconds: u64)
        ensures
            seconds == self.poller.timer.seconds,
    {
        self.poller.elapsed_seconds()
    }

    /// What the toolbar shows of the poller's snapshots.
    pub fn metrics(&self) -> (metrics: ToolbarMetrics)
        requires
            supply_displayable(self.poller.supply),
        ensures
            metrics_match(
                metrics,
                self.poller.treasury,
                self.poller.proof_slot,
                self.poller.supply,
            ),
    {
        self.poller.metrics()
    }

    /// The user opens the toolbar. With no account this is what starts
    /// provisioning, and it takes a connected wallet: without one nothing
    /// changes and the error is returned.
    pub fn open_toolbar(&mut self, wallet: &WalletConnection) -> (phase: Result<
        ToolbarPhase,
        ConnectionError,
    >)
        ensures
            (*final(self), phase) == old(self).opened(*wallet),
            old(self).wf() ==> final(self).wf(),
    {
        match self.stage {
            Stage::Active => {
                self.toolbar_open = true;
                Ok(ToolbarPhase::ActiveOpen)
            },
            Stage::Provisioning => {
                self.toolbar_open = true;
                Ok(ToolbarPhase::Provisioning(self.provisioner.invocation))
            },
            Stage::InsufficientFunds => {
                if wallet.is_connected() {
                    self.stage = Stage::Provisioning;
                    self.toolbar_open = true;
                    Ok(ToolbarPhase::Provisioning(self.provisioner.invocation))
                } else {
                    Err(ConnectionError)
                }
            },
        }
    }

    /// The user closes the toolbar. Closing the offer to open an account
    /// drops its signature request; the result says whether a pending request
    /// was dropped, which the caller then stops observing.
    pub fn close_toolbar(&mut self) -> (dropped_pending: bool)
        ensures
            (*final(self), dropped_pending) == old(self).closed(),
            old(self).wf() ==> final(self).wf(),
    {
        match self.stage {
            Stage::Active => {
                self.toolbar_open = false;
                false
            },
            Stage::Provisioning => {
                let pending = self.provisioner.invocation.is_pending();
                self.stage = Stage::InsufficientFunds;
                self.toolbar_open = false;
                self.provisioner.reset();
                pending
            },
            Stage::InsufficientFunds => {
                self.toolbar_open = false;
                false
            },
        }
    }

    /// The user asks to open an account. On `Ok` the caller requests the
    /// wallet's signature under the transaction and reports the answer to
    /// `signature_completed`.
    pub fn request_account_provisioning(&mut self, wallet: &WalletConnection) -> (issued: Result<
        OpenAccountTransaction,
        ProvisionError,
    >)
        ensures
            (*final(self), issued) == old(self).provisioning_requested(*wallet),
            old(self).wf() ==> final(self).wf(),
    {
        match self.stage {
            Stage::Provisioning => {},
            _ => {
                return Err(ProvisionError::NotOffered);
            },
        }
        if self.starting {
            return Err(ProvisionError::InFlight);
        }
        self.provisioner.begin(wallet)
    }

    /// The wallet answered the pending signature request. A signature sets
    /// off the attempt to start mining, unless one is in flight already.
    pub fn signature_completed(&mut self, answer: Result<Signature, SignError>) -> (outcome:
        SignatureOutcome)
        ensures
            (*final(self), outcome) == old(self).signature_recorded(answer),
            old(self).wf() ==> final(self).wf(),
    {
        match self.provisioner.complete(answer) {
            ProvisionOutcome::Ignored => SignatureOutcome::Ignored,
            ProvisionOutcome::Failed(cause) => SignatureOutcome::Failed(cause),
            ProvisionOutcome::AccountLikelyCreated(signature) => {
                if self.starting {
                    SignatureOutcome::AwaitingStart(signature)
                } else {
                    self.starting = true;
                    SignatureOutcome::StartMining(signature)
                }
            },
        }
    }

    /// The user asks to start mining. While an attempt is in flight, or
    /// mining runs, or a signature request is pending whose signature will
    /// set off the attempt, the request is a no-op.
    pub fn start_mining(&mut self, wallet: &WalletConnection) -> (decision: Result<
        StartDecision,
        ConnectionError,
    >)
        ensures
            (*final(self), decision) == old(self).start_requested(*wallet),
            old(self).wf() ==> final(self).wf(),
    {
        if self.is_active() {
            return Ok(StartDecision::AlreadyActive);
        }
        if self.starting {
            return Ok(StartDecision::AlreadyStarting);
        }
        if self.provisioner.invocation.is_pending() {
            return Ok(StartDecision::AwaitingSignature);
        }
        if !wallet.is_connected() {
            return Err(ConnectionError);
        }
        self.starting = true;
        Ok(StartDecision::Begin)
    }

    /// The attempt to start mining ended. With the account's snapshot mining
    /// is active and the session timer at zero. Without it the stage stays as
    /// it was and a signed request is dropped for a fresh one, so that the
    /// user is offered to open the account again. The result says whether
    /// mining is now active by this call. A report that comes when no attempt
    /// is in flight changes nothing.
    pub fn start_completed(&mut self, resolved: Result<Proof, FetchError>) -> (started: bool)
        ensures
            (*final(self), started) == old(self).start_recorded(resolved),
            old(self).wf() ==> final(self).wf(),
    {
        if !self.starting {
            return false;
        }
        self.starting = false;
        match resolved {
            Ok(snapshot) => {
                self.stage = Stage::Active;
                self.provisioner.reset();
                self.poller = MiningPoller::start(snapshot);
                true
            },
            Err(_) => {
                if self.provisioner.invocation.signature().is_some() {
                    self.provisioner.reset();
                }
                false
            },
        }
    }

    /// The user stops mining: the toolbar is idle and collapsed again and the
    /// poller forgets what it held. The result says whether mining ran, and
    /// so whether the caller has a polling task to stop.
    pub fn stop_mining(&mut self) -> (was_active: bool)
        ensures
            (*final(self), was_active) == old(self).stopped(),
            old(self).wf() ==> final(self).wf(),
    {
        if self.is_active() {
            self.stage = Stage::InsufficientFunds;
            self.toolbar_open = false;
            self.poller = MiningPoller::new();
            true
        } else {
            false
        }
    }

    /// A second went by. Outside of active mining no timer runs and nothing
    /// changes.
    pub fn tick(&mut self)
        requires
            old(self).can_tick(),
        ensures
            *final(self) == old(self).ticked(),
            old(self).wf() ==> final(self).wf(),
    {
        if self.is_active() {
            self.poller.tick();
        }
    }

    /// A treasury fetch completed. Outside of active mining no slot is kept
    /// and the result is dropped.
    pub fn record_treasury(&mut self, fetched: Result<Treasury, FetchError>)
        ensures
            *final(self) == old(self).with_treasury(fetched),
            old(self).wf() ==> final(self).wf(),
    {
        if self.is_active() {
            self.poller.record_treasury(fetched);
        }
    }

    /// A proof fetch completed.
    pub fn record_proof(&mut self, fetched: Result<Proof, FetchError>)
        ensures
            *final(self) == old(self).with_proof(fetched),
            old(self).wf() ==> final(self).wf(),
    {
        if self.is_active() {
            self.poller.record_proof(fetched);
        }
    }

    /// A supply fetch completed.
    pub fn record_supply(&mut self, fetched: Result<TokenSupply, FetchError>)
        ensures
            *final(self) == old(self).with_supply(fetched),
            old(self).wf() ==> final(self).wf(),
    {
        if self.is_active() {
            self.poller.record_supply(fetched);
        }
    }
}

/// Every entry point keeps a well-formed state well formed.
pub proof fn law_states_stay_well_formed(
    state: ToolbarOrchestrator,
    wallet: WalletConnection,
    answer: Result<Signature, SignError>,
    resolved: Result<Proof, FetchError>,
    treasury: Result<Treasury, FetchError>,
    supply: Result<TokenSupply, FetchError>,
)
    requires
        state.wf(),
    ensures
        state.opened(wallet).0.wf(),
        state.closed().0.wf(),
        state.provisioning_requested(wallet).0.wf(),
        state.signature_recorded(answer).0.wf(),
        state.start_requested(wallet).0.wf(),
        state.start_recorded(resolved).0.wf(),
        state.stopped().0.wf(),
        state.ticked().wf(),
        state.with_treasury(treasury).wf(),
        state.with_proof(resolved).wf(),
        state.with_supply(supply).wf(),
{
}

/// The phase goes by the stage and the toolbar alone: a well-formed state
/// without an account shows the offer to open one exactly when it is in
/// `Provisioning`, and the collapsed toolbar otherwise.
pub proof fn law_phase_follows_stage(state: ToolbarOrchestrator)
    requires
        state.wf(),
    ensures
        state.stage is InsufficientFunds <==> state.shown() is InsufficientFundsCollapsed,
        state.stage is Provisioning <==> state.shown() is Provisioning,
        state.stage is Active <==> state.shown() is ActiveCollapsed || state.shown() is ActiveOpen,
{
}

/// Opening the toolbar with no account starts provisioning, and only a
/// connected wallet gets there.
pub proof fn law_opening_starts_provisioning(state: ToolbarOrchestrator, wallet: WalletConnection)
    requires
        state.wf(),
        state.stage is InsufficientFunds,
    ensures
        wallet.connected ==> state.opened(wallet).0.stage is Provisioning && state.opened(
            wallet,
        ).1 == Ok::<ToolbarPhase, ConnectionError>(
            ToolbarPhase::Provisioning(SignatureInvocation::Start),
        ) && state.opened(wallet).0.shown() == ToolbarPhase::Provisioning(
            SignatureInvocation::Start,
        ),
        !wallet.connected ==> state.opened(wallet) == (
            state,
            Err::<ToolbarPhase, ConnectionError>(ConnectionError),
        ),
{
}

/// While an attempt to start mining is in flight, a further request to start
/// changes nothing and begins nothing, whatever the wallet.
pub proof fn law_start_in_flight_is_no_op(state: ToolbarOrchestrator, wallet: WalletConnection)
    requires
        state.starting,
        !(state.stage is Active),
    ensures
        state.start_requested(wallet) == (
            state,
            Ok::<StartDecision, ConnectionError>(StartDecision::AlreadyStarting),
        ),
{
}

/// The decision that begins an attempt to start mining.
pub open spec fn begins(decision: Result<StartDecision, ConnectionError>) -> bool {
    decision == Ok::<StartDecision, ConnectionError>(StartDecision::Begin)
}

/// Two requests to start in immediate succession begin at most one attempt:
/// where the first begins one, the second changes nothing and is answered
/// with `AlreadyStarting`.
pub proof fn law_start_twice_begins_once(
    state: ToolbarOrchestrator,
    first: WalletConnection,
    second: WalletConnection,
)
    ensures
        ({
            let (after_first, first_decision) = state.start_requested(first);
            let (after_second, second_decision) = after_first.start_requested(second);
            &&& !(begins(first_decision) && begins(second_decision))
            &&& begins(first_decision) ==> after_second == after_first && second_decision
                == Ok::<StartDecision, ConnectionError>(StartDecision::AlreadyStarting)
        }),
{
}

/// A signature that arrives while an attempt to start is in flight begins no
/// second attempt.
pub proof fn law_signature_begins_no_second_attempt(
    state: ToolbarOrchestrator,
    answer: Result<Signature, SignError>,
)
    requires
        state.starting,
    ensures
        !(state.signature_recorded(answer).1 is StartMining),
        state.signature_recorded(answer).0.starting,
{
}

/// The wallet's answer is taken once: whatever it was, a second answer finds
/// no pending request and changes nothing.
pub proof fn law_answer_is_taken_once(
    state: ToolbarOrchestrator,
    first: Result<Signature, SignError>,
    second: Result<Signature, SignError>,
)
    ensures
        ({
            let (after_first, _) = state.signature_recorded(first);
            after_first.signature_recorded(second) == (after_first, SignatureOutcome::Ignored)
        }),
{
}

/// The way from provisioning to active mining: the signature of the pending
/// request sets off the attempt to start; when the attempt resolves the
/// account, mining is active with the session timer at zero and the request
/// discarded; and one tick later, with the hash unchanged, the timer shows
/// one second.
pub proof fn law_signature_leads_to_active(
    state: ToolbarOrchestrator,
    signature: Signature,
    snapshot: Proof,
)
    requires
        state.wf(),
        state.stage is Provisioning,
        state.provisioner.invocation is Pending,
        !state.starting,
    ensures
        ({
            let (signed, outcome) = state.signature_recorded(Ok(signature));
            let (active, started) = signed.start_recorded(Ok(snapshot));
            &&& outcome == SignatureOutcome::StartMining(signature)
            &&& signed.provisioner.invocation == SignatureInvocation::Done(signature)
            &&& signed.shown() == ToolbarPhase::Provisioning(SignatureInvocation::Done(signature))
            &&& started
            &&& active.shown() == ToolbarPhase::ActiveOpen
            &&& active.poller.timer.seconds == 0
            &&& active.provisioner.invocation is Start
            &&& active.can_tick()
            &&& active.ticked().poller.timer.seconds == 1
            &&& active.with_proof(Ok(snapshot)).ticked().poller.timer.seconds == 1
        }),
{
}

/// A signature is no guarantee: when the attempt to start fails, the
/// orchestrator stays in provisioning with a fresh request, and a connected
/// wallet may ask to open the account again.
pub proof fn law_failed_start_offers_provisioning_again(
    state: ToolbarOrchestrator,
    cause: FetchError,
    wallet: WalletConnection,
)
    requires
        state.wf(),
        state.stage is Provisioning,
        state.provisioner.invocation is Done,
    ensures
        ({
            let (after, started) = state.start_recorded(Err(cause));
            &&& !started
            &&& after.stage is Provisioning
            &&& after.shown() == ToolbarPhase::Provisioning(SignatureInvocation::Start)
            &&& after.provisioner.invocation is Start
            &&& !after.starting
            &&& wallet.connected && wallet.key is Some ==> after.provisioning_requested(
                wallet,
            ).1 is Ok
        }),
{
}

/// A failed signature leaves the stage as it is and shows in the request,
/// from where the user may ask again.
pub proof fn law_failed_signature_can_be_retried(
    state: ToolbarOrchestrator,
    error: SignError,
    wallet: WalletConnection,
)
    requires
        state.wf(),
        state.provisioner.invocation is Pending,
        !state.starting,
    ensures
        ({
            let (after, outcome) = state.signature_recorded(Err(error));
            &&& outcome is Failed
            &&& after.stage == state.stage
            &&& after.provisioner.invocation is Error
            &&& !after.starting
            &&& wallet.connected && wallet.key is Some ==> after.provisioning_requested(
                wallet,
            ).1 is Ok && after.provisioning_requested(wallet).0.provisioner.invocation
                is Pending
        }),
{
}

/// Without a connected wallet nothing enters provisioning or begins to start
/// mining, and no transaction is built.
pub proof fn law_disconnected_wallet_is_stopped_first(
    state: ToolbarOrchestrator,
    wallet: WalletConnection,
)
    requires
        state.wf(),
        !wallet.connected,
    ensures
        state.opened(wallet).0.stage == state.stage,
        state.start_requested(wallet).0 == state,
        !(state.start_requested(wallet).1 == Ok::<StartDecision, ConnectionError>(
            StartDecision::Begin,
        )),
        state.provisioning_requested(wallet).0 == state,
        state.provisioning_requested(wallet).1 is Err,
{
}

/// Leaving active mining stops the poller: its slots and timer are as before
/// anything was fetched, and ticks and fetch results change nothing until
/// mining is active again.
pub proof fn law_poller_stops_with_mining(
    state: ToolbarOrchestrator,
    fetched: Result<Treasury, FetchError>,
)
    requires
        state.wf(),
        state.stage is Active,
    ensures
        state.stopped().1,
        state.stopped().0.stage is InsufficientFunds,
        state.stopped().0.poller == MiningPoller::idle(),
        state.stopped().0.ticked() == state.stopped().0,
        state.stopped().0.with_treasury(fetched) == state.stopped().0,
{
}

/// A fetch result touches its own slot only: the other slots and the timer
/// stay, whether the fetch failed or not, and the next result for the slot
/// replaces the one before.
pub proof fn law_slots_are_independent(
    state: ToolbarOrchestrator,
    first: Result<Treasury, FetchError>,
    second: Result<Treasury, FetchError>,
)
    requires
        state.stage is Active,
    ensures
        state.with_treasury(first).poller.proof_slot == state.poller.proof_slot,
        state.with_treasury(first).poller.supply == state.poller.supply,
        state.with_treasury(first).poller.timer == state.poller.timer,
        state.with_treasury(first).stage == state.stage,
        state.with_treasury(first).with_treasury(second) == state.with_treasury(second),
{
}

} // verus!
