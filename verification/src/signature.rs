//! The protocol of one signature request.
//!
//! An invocation starts in `Start`, is `Pending` while the wallet works, and
//! ends in `Done` or in `Error`. Nothing leads out of the two final states: a
//! retry takes a fresh invocation.

use crate::wallet::{SignError, Signature};
use vstd::prelude::*;

verus! {

/// Why an invocation ended without a signature.
#[derive(Clone, Copy, Debug, PartialEq, Eq)]
pub enum SignatureFailure {
    UserRejected,
    BuildFailed,
    NetworkFailed,
}

/// The state of one signature request.
#[derive(Clone, Copy, Debug, PartialEq, Eq)]
pub enum SignatureInvocation {
    /// No request issued yet.
    Start,
    /// The request is with the wallet.
    Pending,
    /// The wallet signed: the transaction counts as submitted, not as confirmed.
    Done(Signature),
    /// Signing failed or was rejected.
    Error(SignatureFailure),
}

/// What can happen to an invocation.
#[derive(Clone, Copy, Debug, PartialEq, Eq)]
pub enum SignatureEvent {
    /// The request was issued.
    Invoked,
    /// The wallet returned a signature.
    Signed(Signature),
    /// The request ended without a signature.
    Failed(SignatureFailure),
}

/// The failure that an invocation records for a wallet's error.
pub open spec fn failure_of(error: SignError) -> SignatureFailure {
    match error {
        SignError::UserRejected => SignatureFailure::UserRejected,
        SignError::NetworkFailed => SignatureFailure::NetworkFailed,
    }
}

/// The event that the wallet's answer stands for.
pub open spec fn completion_event(answer: Result<Signature, SignError>) -> SignatureEvent {
    match answer {
        Ok(signature) => SignatureEvent::Signed(signature),
        Err(error) => SignatureEvent::Failed(failure_of(error)),
    }
}

impl SignatureInvocation {
    /// The state that `event` leads to, where the protocol permits it.
    pub open spec fn next(self, event: SignatureEvent) -> Option<SignatureInvocation> {
        match (self, event) {
            (SignatureInvocation::Start, SignatureEvent::Invoked) => Some(
                SignatureInvocation::Pending,
            ),
            (SignatureInvocation::Pending, SignatureEvent::Signed(signature)) => Some(
                SignatureInvocation::Done(signature),
            ),
            (SignatureInvocation::Pending, SignatureEvent::Failed(cause)) => Some(
                SignatureInvocation::Error(cause),
            ),
            _ => None,
        }
    }

    /// The state after `event`: an event that the protocol does not permit
    /// changes nothing.
    pub open spec fn step(self, event: SignatureEvent) -> SignatureInvocation {
        match self.next(event) {
            Some(state) => state,
            None => self,
        }
    }

    /// The state after the first `n` of `events`.
    pub open spec fn run(self, events: Seq<SignatureEvent>, n: nat) -> SignatureInvocation
        decreases n,
    {
        if n == 0 {
            self
        } else {
            self.run(events, (n - 1) as nat).step(events[n - 1])
        }
    }

    pub open spec fn is_final(self) -> bool {
        self is Done || self is Error
    }

    /// A fresh invocation.
    pub fn new() -> (state: Self)
        ensures
            state == SignatureInvocation::Start,
    {
        SignatureInvocation::Start
    }

    /// Applies one event and says whether the protocol permitted it.
    pub fn apply(&mut self, event: SignatureEvent) -> (permitted: bool)
        ensures
            permitted == (old(self).next(event) is Some),
            *final(self) == old(self).step(event),
    {
        match (*self, event) {
            (SignatureInvocation::Start, SignatureEvent::Invoked) => {
                *self = SignatureInvocation::Pending;
                true
            },
            (SignatureInvocation::Pending, SignatureEvent::Signed(signature)) => {
                *self = SignatureInvocation::Done(signature);
                true
            },
            (SignatureInvocation::Pending, SignatureEvent::Failed(cause)) => {
                *self = SignatureInvocation::Error(cause);
                true
            },
            _ => false,
        }
    }

    /// Issues the request: `Start` becomes `Pending`. In any other state
    /// nothing changes and the result is `false`.
    pub fn invoke(&mut self) -> (issued: bool)
        ensures
            issued == (*old(self) is Start),
            *final(self) == old(self).step(SignatureEvent::Invoked),
    {
        self.apply(SignatureEvent::Invoked)
    }

    /// Records the wallet's answer: `Pending` becomes `Done` or `Error`. In
    /// any other state nothing changes and the result is `false`.
    pub fn complete(&mut self, answer: Result<Signature, SignError>) -> (recorded: bool)
        ensures
            recorded == (*old(self) is Pending),
            *final(self) == old(self).step(completion_event(answer)),
    {
        let event = match answer {
            Ok(signature) => SignatureEvent::Signed(signature),
            Err(SignError::UserRejected) => SignatureEvent::Failed(SignatureFailure::UserRejected),
            Err(SignError::NetworkFailed) => SignatureEvent::Failed(
                SignatureFailure::NetworkFailed,
            ),
        };
        self.apply(event)
    }

    pub fn is_start(&self) -> (b: bool)
        ensures
            b == (*self is Start),
    {
        match self {
            SignatureInvocation::Start => true,
            _ => false,
        }
    }

    pub fn is_pending(&self) -> (b: bool)
        ensures
            b == (*self is Pending),
    {
        match self {
            SignatureInvocation::Pending => true,
            _ => false,
        }
    }

    /// The signature, once the wallet has signed.
    pub fn signature(&self) -> (signature: Option<Signature>)
        ensures
            signature == match *self {
                SignatureInvocation::Done(s) => Some(s),
                _ => None,
            },
    {
        match self {
            SignatureInvocation::Done(s) => Some(*s),
            _ => None,
        }
    }

    /// The cause, once the invocation has failed.
    pub fn failure(&self) -> (cause: Option<SignatureFailure>)
        ensures
            cause == match *self {
                SignatureInvocation::Error(c) => Some(c),
                _ => None,
            },
    {
        match self {
            SignatureInvocation::Error(c) => Some(*c),
            _ => None,
        }
    }
}

/// No single event takes a fresh invocation to `Done`.
pub proof fn law_no_signature_without_request(event: SignatureEvent)
    ensures
        !(SignatureInvocation::Start.step(event) is Done),
        SignatureInvocation::Start.step(event) is Start || SignatureInvocation::Start.step(
            event,
        ) is Pending,
{
}

/// Nothing leads out of a final state: in particular `Done` never becomes
/// `Pending` again.
pub proof fn law_final_states_stay(state: SignatureInvocation, event: SignatureEvent)
    requires
        state.is_final(),
    ensures
        state.next(event) is None,
        state.step(event) == state,
{
}

/// Once final, an invocation stays as it is, whatever events follow.
pub proof fn law_final_states_stay_for_good(
    state: SignatureInvocation,
    events: Seq<SignatureEvent>,
    n: nat,
)
    requires
        state.is_final(),
    ensures
        state.run(events, n) == state,
    decreases n,
{
    if n > 0 {
        law_final_states_stay_for_good(state, events, (n - 1) as nat);
    }
}

/// `Done` is reached from `Start` only by way of `Pending`: if the first `n`
/// events leave a fresh invocation in `Done(signature)`, then some event
/// `invoked` issued the request, a later event `signed` delivered that very
/// signature, and the invocation was `Pending` from the one to the other.
pub proof fn law_success_goes_through_pending(
    events: Seq<SignatureEvent>,
    n: nat,
    signature: Signature,
) -> (at: (nat, nat))
    requires
        n <= events.len(),
        SignatureInvocation::Start.run(events, n) == SignatureInvocation::Done(signature),
    ensures
        ({
            let (invoked, signed) = at;
            &&& invoked < signed < n
            &&& events[invoked as int] == SignatureEvent::Invoked
            &&& events[signed as int] == SignatureEvent::Signed(signature)
            &&& SignatureInvocation::Start.run(events, invoked) is Start
            &&& forall|k: nat|
                invoked < k <= signed ==> SignatureInvocation::Start.run(events, k) is Pending
            &&& forall|k: nat|
                signed < k <= n ==> SignatureInvocation::Start.run(events, k)
                    == SignatureInvocation::Done(signature)
        }),
    decreases n,
{
    let start = SignatureInvocation::Start;
    assert(n > 0);
    let before = start.run(events, (n - 1) as nat);
    let event = events[n - 1];
    assert(start.run(events, n) == before.step(event));
    match before {
        SignatureInvocation::Done(s) => {
            assert(s == signature);
            let at = law_success_goes_through_pending(events, (n - 1) as nat, signature);
            at
        },
        SignatureInvocation::Pending => {
            assert(event == SignatureEvent::Signed(signature));
            let invoked = lemma_pending_since(events, (n - 1) as nat);
            (invoked, (n - 1) as nat)
        },
        _ => {
            assert(false);
            (0, 0)
        },
    }
}

/// If the first `n` events leave a fresh invocation `Pending`, one of them
/// issued the request, and the invocation has been `Pending` since.
proof fn lemma_pending_since(events: Seq<SignatureEvent>, n: nat) -> (invoked: nat)
    requires
        n <= events.len(),
        SignatureInvocation::Start.run(events, n) is Pending,
    ensures
        invoked < n,
        events[invoked as int] == SignatureEvent::Invoked,
        SignatureInvocation::Start.run(events, invoked) is Start,
        forall|k: nat| invoked < k <= n ==> SignatureInvocation::Start.run(events, k) is Pending,
    decreases n,
{
    let start = SignatureInvocation::Start;
    assert(n > 0);
    let before = start.run(events, (n - 1) as nat);
    assert(start.run(events, n) == before.step(events[n - 1]));
    match before {
        SignatureInvocation::Start => (n - 1) as nat,
        SignatureInvocation::Pending => lemma_pending_since(events, (n - 1) as nat),
        _ => {
            assert(false);
            0
        },
    }
}

} // verus!
