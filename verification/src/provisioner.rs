//! Opening a mining account: constructing the transaction and following its
//! signature request.
//!
//! The provisioner changes nothing on chain and polls nothing. It decides
//! whether a request may be issued and records how the request ended; issuing
//! the request is the caller's work.

use crate::signature::{completion_event, SignatureEvent, SignatureFailure, SignatureInvocation};
use crate::wallet::{Address, BuildError, ConnectionError, SignError, Signature, WalletConnection};
use vstd::prelude::*;

verus! {

/// The transaction that opens a mining account, as the values it is made from.
#[derive(Clone, Copy, Debug, PartialEq, Eq)]
pub struct OpenAccountTransaction {
    /// The wallet that pays for the account and will own it.
    pub authority: Address,
}

/// Why no signature request was issued.
#[derive(Clone, Copy, Debug, PartialEq, Eq)]
pub enum ProvisionError {
    /// The wallet is not connected.
    Connection(ConnectionError),
    /// The transaction could not be constructed.
    Build(BuildError),
    /// An earlier request is still pending, or was signed and awaits its use.
    InFlight,
    /// The toolbar is not offering to open an account.
    NotOffered,
}

/// What the answer to a signature request meant to the provisioner.
#[derive(Clone, Copy, Debug, PartialEq, Eq)]
pub enum ProvisionOutcome {
    /// The transaction was signed: the account is likely created.
    AccountLikelyCreated(Signature),
    /// The request ended without a signature.
    Failed(SignatureFailure),
    /// No request was pending: the answer was not awaited and changed nothing.
    Ignored,
}

/// The transaction for the wallet, or why there is none.
pub open spec fn open_transaction_of(wallet: WalletConnection) -> Result<
    OpenAccountTransaction,
    BuildError,
> {
    if !wallet.connected {
        Err(BuildError::WalletNotConnected)
    } else {
        match wallet.key {
            Some(key) => Ok(OpenAccountTransaction { authority: key }),
            None => Err(BuildError::MissingPublicKey),
        }
    }
}

/// Constructs the transaction that opens an account for the connected wallet.
pub fn build_open_transaction(wallet: &WalletConnection) -> (built: Result<
    OpenAccountTransaction,
    BuildError,
>)
    ensures
        built == open_transaction_of(*wallet),
{
    if !wallet.is_connected() {
        return Err(BuildError::WalletNotConnected);
    }
    match wallet.public_key() {
        Some(key) => Ok(OpenAccountTransaction { authority: key }),
        None => Err(BuildError::MissingPublicKey),
    }
}

/// Follows the one signature request that may be live for opening an account.
#[derive(Clone, Copy, Debug, PartialEq, Eq)]
pub struct AccountProvisioner {
    pub invocation: SignatureInvocation,
}

impl AccountProvisioner {
    /// Whether a new request may be issued: none is pending, and none was
    /// signed and still awaits its use.
    pub open spec fn may_begin(self) -> bool {
        self.invocation is Start || self.invocation is Error
    }

    /// The result of `begin`, and the provisioner that it leaves.
    pub open spec fn begun(self, wallet: WalletConnection) -> (
        AccountProvisioner,
        Result<OpenAccountTransaction, ProvisionError>,
    ) {
        if !self.may_begin() {
            (self, Err(ProvisionError::InFlight))
        } else if !wallet.connected {
            (self, Err(ProvisionError::Connection(ConnectionError)))
        } else {
            match open_transaction_of(wallet) {
                Ok(transaction) => (
                    AccountProvisioner { invocation: SignatureInvocation::Pending },
                    Ok(transaction),
                ),
                Err(error) => (
                    AccountProvisioner {
                        invocation: SignatureInvocation::Error(SignatureFailure::BuildFailed),
                    },
                    Err(ProvisionError::Build(error)),
                ),
            }
        }
    }

    /// The result of `complete`, and the provisioner that it leaves.
    pub open spec fn completed(self, answer: Result<Signature, SignError>) -> (
        AccountProvisioner,
        ProvisionOutcome,
    ) {
        if self.invocation is Pending {
            let after = AccountProvisioner {
                invocation: self.invocation.step(completion_event(answer)),
            };
            match after.invocation {
                SignatureInvocation::Done(signature) => (
                    after,
                    ProvisionOutcome::AccountLikelyCreated(signature),
                ),
                SignatureInvocation::Error(cause) => (after, ProvisionOutcome::Failed(cause)),
                _ => (after, ProvisionOutcome::Ignored),
            }
        } else {
            (self, ProvisionOutcome::Ignored)
        }
    }

    /// A provisioner with a fresh invocation.
    pub fn new() -> (provisioner: Self)
        ensures
            provisioner.invocation == SignatureInvocation::Start,
    {
        AccountProvisioner { invocation: SignatureInvocation::Start }
    }

    /// Decides on a request for the wallet's signature under the transaction
    /// that opens an account.
    ///
    /// While a request is pending, or signed and not yet used, none is issued.
    /// A wallet that is not connected is reported before anything is built.
    /// Otherwise a fresh invocation takes the place of the old one: it is
    /// pending when the transaction was built, and failed when it was not.
    /// On `Ok` the caller requests the signature and reports the answer to
    /// `complete`.
    pub fn begin(&mut self, wallet: &WalletConnection) -> (issued: Result<
        OpenAccountTransaction,
        ProvisionError,
    >)
        ensures
            (*final(self), issued) == old(self).begun(*wallet),
    {
        match self.invocation {
            SignatureInvocation::Pending => {
                return Err(ProvisionError::InFlight);
            },
            SignatureInvocation::Done(_) => {
                return Err(ProvisionError::InFlight);
            },
            _ => {},
        }
        if !wallet.is_connected() {
            return Err(ProvisionError::Connection(ConnectionError));
        }
        let mut fresh = SignatureInvocation::new();
        fresh.invoke();
        match build_open_transaction(wallet) {
            Ok(transaction) => {
                self.invocation = fresh;
                Ok(transaction)
            },
            Err(error) => {
                fresh.apply(SignatureEvent::Failed(SignatureFailure::BuildFailed));
                self.invocation = fresh;
                Err(ProvisionError::Build(error))
            },
        }
    }

    /// Records the wallet's answer to the pending request. An answer that
    /// comes when nothing is pending is ignored.
    pub fn complete(&mut self, answer: Result<Signature, SignError>) -> (outcome: ProvisionOutcome)
        ensures
            (*final(self), outcome) == old(self).completed(answer),
    {
        if !self.invocation.complete(answer) {
            return ProvisionOutcome::Ignored;
        }
        match self.invocation {
            SignatureInvocation::Done(signature) => ProvisionOutcome::AccountLikelyCreated(
                signature,
            ),
            SignatureInvocation::Error(cause) => ProvisionOutcome::Failed(cause),
            _ => ProvisionOutcome::Ignored,
        }
    }

    /// Drops the invocation, whatever its state, for a fresh one. The caller
    /// stops observing a request that was pending: its answer is not reported.
    pub fn reset(&mut self)
        ensures
            final(self).invocation == SignatureInvocation::Start,
    {
        self.invocation = SignatureInvocation::new();
    }
}

/// While a request is pending no second one is issued, and the pending one
/// stays as it is.
pub proof fn law_one_request_at_a_time(provisioner: AccountProvisioner, wallet: WalletConnection)
    requires
        provisioner.invocation is Pending,
    ensures
        provisioner.begun(wallet) == (provisioner, Err::<OpenAccountTransaction, ProvisionError>(ProvisionError::InFlight)),
{
}

/// A request is issued only to a connected wallet with a public key, and then
/// the invocation is pending; a failure to build shows in the invocation.
pub proof fn law_begin_outcomes(provisioner: AccountProvisioner, wallet: WalletConnection)
    ensures
        ({
            let (after, issued) = provisioner.begun(wallet);
            &&& issued is Ok <==> provisioner.may_begin() && wallet.connected && wallet.key is Some
            &&& issued is Ok ==> after.invocation is Pending && issued->Ok_0.authority
                == wallet.key->0
            &&& issued matches Err(ProvisionError::Build(_)) ==> after.invocation
                == SignatureInvocation::Error(SignatureFailure::BuildFailed)
            &&& issued matches Err(ProvisionError::Connection(_)) ==> after == provisioner
                && !wallet.connected
            &&& issued matches Err(ProvisionError::InFlight) ==> after == provisioner
        }),
{
}

} // verus!
