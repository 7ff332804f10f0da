use miner_toolbar::signature::{SignatureEvent, SignatureFailure, SignatureInvocation};
use miner_toolbar::wallet::{SignError, Signature};

fn sig(byte: u8) -> Signature {
    Signature { bytes: [byte; 64] }
}

#[test]
fn start_pending_done_is_the_success_path() {
    let mut invocation = SignatureInvocation::new();
    assert_eq!(invocation, SignatureInvocation::Start);
    assert!(invocation.is_start());
    assert!(invocation.invoke());
    assert_eq!(invocation, SignatureInvocation::Pending);
    assert!(invocation.is_pending());
    assert!(invocation.complete(Ok(sig(3))));
    assert_eq!(invocation, SignatureInvocation::Done(sig(3)));
    assert_eq!(invocation.signature(), Some(sig(3)));
    assert_eq!(invocation.failure(), None);
}

#[test]
fn no_step_from_start_to_done() {
    let mut invocation = SignatureInvocation::new();
    assert!(!invocation.complete(Ok(sig(1))));
    assert_eq!(invocation, SignatureInvocation::Start);
    assert!(!invocation.apply(SignatureEvent::Signed(sig(1))));
    assert_eq!(invocation, SignatureInvocation::Start);
    assert!(!invocation.apply(SignatureEvent::Failed(SignatureFailure::NetworkFailed)));
    assert_eq!(invocation, SignatureInvocation::Start);
    assert_eq!(invocation.signature(), None);
}

#[test]
fn done_never_goes_back_to_pending() {
    let mut invocation = SignatureInvocation::Done(sig(9));
    assert!(!invocation.invoke());
    assert_eq!(invocation, SignatureInvocation::Done(sig(9)));
    assert!(!invocation.complete(Ok(sig(4))));
    assert_eq!(invocation, SignatureInvocation::Done(sig(9)));
    assert!(!invocation.complete(Err(SignError::UserRejected)));
    assert_eq!(invocation, SignatureInvocation::Done(sig(9)));
}

#[test]
fn a_failed_invocation_stays_failed() {
    let mut invocation = SignatureInvocation::new();
    assert!(invocation.invoke());
    assert!(invocation.complete(Err(SignError::UserRejected)));
    assert_eq!(invocation, SignatureInvocation::Error(SignatureFailure::UserRejected));
    assert_eq!(invocation.failure(), Some(SignatureFailure::UserRejected));
    assert!(!invocation.invoke());
    assert!(!invocation.complete(Ok(sig(2))));
    assert_eq!(invocation, SignatureInvocation::Error(SignatureFailure::UserRejected));
}

#[test]
fn each_wallet_error_has_its_cause() {
    let mut rejected = SignatureInvocation::Pending;
    assert!(rejected.complete(Err(SignError::UserRejected)));
    assert_eq!(rejected.failure(), Some(SignatureFailure::UserRejected));
    let mut network = SignatureInvocation::Pending;
    assert!(network.complete(Err(SignError::NetworkFailed)));
    assert_eq!(network.failure(), Some(SignatureFailure::NetworkFailed));
    let mut build = SignatureInvocation::Pending;
    assert!(build.apply(SignatureEvent::Failed(SignatureFailure::BuildFailed)));
    assert_eq!(build.failure(), Some(SignatureFailure::BuildFailed));
}

#[test]
fn a_second_invoke_changes_nothing() {
    let mut invocation = SignatureInvocation::new();
    assert!(invocation.invoke());
    assert!(!invocation.invoke());
    assert_eq!(invocation, SignatureInvocation::Pending);
}
