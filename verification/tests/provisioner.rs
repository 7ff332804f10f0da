use miner_toolbar::provisioner::{
    build_open_transaction, AccountProvisioner, OpenAccountTransaction, ProvisionError,
    ProvisionOutcome,
};
use miner_toolbar::signature::{SignatureFailure, SignatureInvocation};
use miner_toolbar::wallet::{
    Address, BuildError, ConnectionError, SignError, Signature, WalletConnection,
};

fn key(byte: u8) -> Address {
    Address { bytes: [byte; 32] }
}

fn sig(byte: u8) -> Signature {
    Signature { bytes: [byte; 64] }
}

#[test]
fn wallet_readings() {
    let off = WalletConnection::disconnected();
    assert!(!off.is_connected());
    assert_eq!(off.public_key(), None);
    let on = WalletConnection::connected_as(key(5));
    assert!(on.is_connected());
    assert_eq!(on.public_key(), Some(key(5)));
}

#[test]
fn transaction_is_built_from_the_wallet_key() {
    let wallet = WalletConnection::connected_as(key(7));
    assert_eq!(
        build_open_transaction(&wallet),
        Ok(OpenAccountTransaction { authority: key(7) })
    );
}

#[test]
fn building_fails_without_a_connection() {
    assert_eq!(
        build_open_transaction(&WalletConnection::disconnected()),
        Err(BuildError::WalletNotConnected)
    );
    let stale = WalletConnection { connected: false, key: Some(key(1)) };
    assert_eq!(build_open_transaction(&stale), Err(BuildError::WalletNotConnected));
}

#[test]
fn building_fails_without_a_public_key() {
    let keyless = WalletConnection { connected: true, key: None };
    assert_eq!(build_open_transaction(&keyless), Err(BuildError::MissingPublicKey));
}

#[test]
fn begin_issues_one_request() {
    let wallet = WalletConnection::connected_as(key(2));
    let mut provisioner = AccountProvisioner::new();
    assert_eq!(provisioner.invocation, SignatureInvocation::Start);
    assert_eq!(provisioner.begin(&wallet), Ok(OpenAccountTransaction { authority: key(2) }));
    assert_eq!(provisioner.invocation, SignatureInvocation::Pending);
    assert_eq!(provisioner.begin(&wallet), Err(ProvisionError::InFlight));
    assert_eq!(provisioner.invocation, SignatureInvocation::Pending);
}

#[test]
fn begin_reports_a_missing_connection_before_building() {
    let mut provisioner = AccountProvisioner::new();
    assert_eq!(
        provisioner.begin(&WalletConnection::disconnected()),
        Err(ProvisionError::Connection(ConnectionError))
    );
    assert_eq!(provisioner.invocation, SignatureInvocation::Start);
}

#[test]
fn a_build_failure_shows_in_the_invocation() {
    let keyless = WalletConnection { connected: true, key: None };
    let mut provisioner = AccountProvisioner::new();
    assert_eq!(
        provisioner.begin(&keyless),
        Err(ProvisionError::Build(BuildError::MissingPublicKey))
    );
    assert_eq!(
        provisioner.invocation,
        SignatureInvocation::Error(SignatureFailure::BuildFailed)
    );
}

#[test]
fn a_signature_signals_the_account() {
    let wallet = WalletConnection::connected_as(key(2));
    let mut provisioner = AccountProvisioner::new();
    assert!(provisioner.begin(&wallet).is_ok());
    assert_eq!(
        provisioner.complete(Ok(sig(8))),
        ProvisionOutcome::AccountLikelyCreated(sig(8))
    );
    assert_eq!(provisioner.invocation, SignatureInvocation::Done(sig(8)));
    assert_eq!(provisioner.begin(&wallet), Err(ProvisionError::InFlight));
    assert_eq!(provisioner.complete(Ok(sig(9))), ProvisionOutcome::Ignored);
    assert_eq!(provisioner.invocation, SignatureInvocation::Done(sig(8)));
}

#[test]
fn a_rejected_request_can_be_begun_again() {
    let wallet = WalletConnection::connected_as(key(2));
    let mut provisioner = AccountProvisioner::new();
    assert!(provisioner.begin(&wallet).is_ok());
    assert_eq!(
        provisioner.complete(Err(SignError::UserRejected)),
        ProvisionOutcome::Failed(SignatureFailure::UserRejected)
    );
    assert_eq!(
        provisioner.invocation,
        SignatureInvocation::Error(SignatureFailure::UserRejected)
    );
    assert!(provisioner.begin(&wallet).is_ok());
    assert_eq!(provisioner.invocation, SignatureInvocation::Pending);
    assert_eq!(
        provisioner.complete(Err(SignError::NetworkFailed)),
        ProvisionOutcome::Failed(SignatureFailure::NetworkFailed)
    );
}

#[test]
fn an_answer_nobody_awaits_is_ignored() {
    let mut provisioner = AccountProvisioner::new();
    assert_eq!(provisioner.complete(Ok(sig(1))), ProvisionOutcome::Ignored);
    assert_eq!(provisioner.invocation, SignatureInvocation::Start);
}

#[test]
fn reset_gives_a_fresh_invocation() {
    let wallet = WalletConnection::connected_as(key(2));
    let mut provisioner = AccountProvisioner::new();
    assert!(provisioner.begin(&wallet).is_ok());
    provisioner.reset();
    assert_eq!(provisioner.invocation, SignatureInvocation::Start);
    assert_eq!(provisioner.complete(Ok(sig(1))), ProvisionOutcome::Ignored);
}
