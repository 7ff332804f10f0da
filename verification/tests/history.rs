use miner_toolbar::async_result::FetchError;
use miner_toolbar::history::ToolbarEvent;
use miner_toolbar::orchestrator::{SignatureOutcome, Stage, StartDecision, ToolbarOrchestrator};
use miner_toolbar::poller::MiningPoller;
use miner_toolbar::signature::SignatureInvocation;
use miner_toolbar::snapshot::{Proof, TokenSupply, Treasury};
use miner_toolbar::wallet::{Address, SignError, Signature, WalletConnection};

/// What one event did, as the caller sees it.
struct Tally {
    began_attempt: bool,
    ended_attempt: bool,
    issued_request: bool,
    settled_request: bool,
}

fn deliver(toolbar: &mut ToolbarOrchestrator, event: ToolbarEvent) -> Tally {
    let was_starting = toolbar.is_starting();
    let was_pending = toolbar.signature() == SignatureInvocation::Pending;
    let mut tally = Tally {
        began_attempt: false,
        ended_attempt: false,
        issued_request: false,
        settled_request: false,
    };
    match event {
        ToolbarEvent::ToolbarOpened(wallet) => {
            let _ = toolbar.open_toolbar(&wallet);
        }
        ToolbarEvent::ToolbarClosed => {
            tally.settled_request = toolbar.close_toolbar();
        }
        ToolbarEvent::ProvisioningRequested(wallet) => {
            tally.issued_request = toolbar.request_account_provisioning(&wallet).is_ok();
        }
        ToolbarEvent::SignatureAnswered(answer) => {
            let outcome = toolbar.signature_completed(answer);
            tally.settled_request = was_pending;
            tally.began_attempt = matches!(outcome, SignatureOutcome::StartMining(_));
        }
        ToolbarEvent::StartRequested(wallet) => {
            tally.began_attempt = toolbar.start_mining(&wallet) == Ok(StartDecision::Begin);
        }
        ToolbarEvent::StartResolved(resolved) => {
            toolbar.start_completed(resolved);
            tally.ended_attempt = was_starting;
        }
        ToolbarEvent::StopRequested => {
            toolbar.stop_mining();
        }
        ToolbarEvent::Ticked => toolbar.tick(),
        ToolbarEvent::TreasuryFetched(fetched) => toolbar.record_treasury(fetched),
        ToolbarEvent::ProofFetched(fetched) => toolbar.record_proof(fetched),
        ToolbarEvent::SupplyFetched(fetched) => toolbar.record_supply(fetched),
    }
    tally
}

fn well_formed(toolbar: &ToolbarOrchestrator) -> bool {
    let invocation = toolbar.signature();
    let idle = invocation == SignatureInvocation::Start;
    let signed = matches!(invocation, SignatureInvocation::Done(_));
    let pending = invocation == SignatureInvocation::Pending;
    (toolbar.stage != Stage::InsufficientFunds || (!toolbar.toolbar_open && idle))
        && (toolbar.stage != Stage::Provisioning || toolbar.toolbar_open)
        && (toolbar.stage != Stage::Active || (!toolbar.starting && idle))
        && (!signed || toolbar.starting)
        && (!pending || !toolbar.starting)
        && (toolbar.stage == Stage::Active || toolbar.poller == MiningPoller::new())
}

fn on() -> WalletConnection {
    WalletConnection::connected_as(Address { bytes: [9; 32] })
}

fn off() -> WalletConnection {
    WalletConnection::disconnected()
}

fn sig(byte: u8) -> Signature {
    Signature { bytes: [byte; 64] }
}

fn snapshot(byte: u8) -> Proof {
    Proof { hash: [byte; 32], claimable_rewards: 1 }
}

fn script() -> Vec<ToolbarEvent> {
    vec![
        ToolbarEvent::Ticked,
        ToolbarEvent::ToolbarOpened(off()),
        ToolbarEvent::ProvisioningRequested(on()),
        ToolbarEvent::ToolbarOpened(on()),
        ToolbarEvent::SignatureAnswered(Ok(sig(1))),
        ToolbarEvent::ProvisioningRequested(on()),
        ToolbarEvent::ProvisioningRequested(on()),
        ToolbarEvent::StartRequested(on()),
        ToolbarEvent::SignatureAnswered(Err(SignError::UserRejected)),
        ToolbarEvent::SignatureAnswered(Ok(sig(2))),
        ToolbarEvent::ProvisioningRequested(on()),
        ToolbarEvent::ToolbarClosed,
        ToolbarEvent::SignatureAnswered(Ok(sig(3))),
        ToolbarEvent::StartRequested(off()),
        ToolbarEvent::StartRequested(on()),
        ToolbarEvent::StartRequested(on()),
        ToolbarEvent::ToolbarOpened(on()),
        ToolbarEvent::ProvisioningRequested(on()),
        ToolbarEvent::StartResolved(Err(FetchError::Network)),
        ToolbarEvent::StartResolved(Ok(snapshot(1))),
        ToolbarEvent::ProvisioningRequested(on()),
        ToolbarEvent::SignatureAnswered(Ok(sig(4))),
        ToolbarEvent::StartRequested(on()),
        ToolbarEvent::SignatureAnswered(Ok(sig(5))),
        ToolbarEvent::TreasuryFetched(Err(FetchError::Decode)),
        ToolbarEvent::StartResolved(Ok(snapshot(2))),
        ToolbarEvent::Ticked,
        ToolbarEvent::StartRequested(on()),
        ToolbarEvent::ProofFetched(Ok(snapshot(3))),
        ToolbarEvent::Ticked,
        ToolbarEvent::SupplyFetched(Ok(TokenSupply { ui_amount: Some(String::from("7")) })),
        ToolbarEvent::TreasuryFetched(Ok(Treasury { total_claimed_rewards: 1, reward_rate: 1 })),
        ToolbarEvent::ToolbarClosed,
        ToolbarEvent::Ticked,
        ToolbarEvent::ProvisioningRequested(on()),
        ToolbarEvent::StopRequested,
        ToolbarEvent::Ticked,
        ToolbarEvent::ProofFetched(Err(FetchError::Network)),
        ToolbarEvent::StartResolved(Ok(snapshot(4))),
        ToolbarEvent::StartRequested(on()),
        ToolbarEvent::StopRequested,
        ToolbarEvent::StartResolved(Ok(snapshot(5))),
    ]
}

#[test]
fn every_state_of_a_history_is_well_formed() {
    for account in [None, Some(snapshot(8))] {
        let mut toolbar = ToolbarOrchestrator::new(account);
        assert!(well_formed(&toolbar));
        for event in script() {
            deliver(&mut toolbar, event);
            assert!(well_formed(&toolbar));
        }
    }
}

#[test]
fn never_two_start_attempts_at_once() {
    for (account, attempts) in [(None, 3), (Some(snapshot(8)), 1)] {
        let mut toolbar = ToolbarOrchestrator::new(account);
        let mut begun = 0u32;
        let mut ended = 0u32;
        for event in script() {
            let tally = deliver(&mut toolbar, event);
            begun += tally.began_attempt as u32;
            ended += tally.ended_attempt as u32;
            assert!(ended <= begun);
            assert_eq!(begun - ended, toolbar.is_starting() as u32);
        }
        assert_eq!(begun, attempts);
        assert_eq!(ended, attempts);
    }
}

#[test]
fn never_two_signature_requests_at_once() {
    let mut toolbar = ToolbarOrchestrator::new(None);
    let mut issued = 0u32;
    let mut settled = 0u32;
    for event in script() {
        let tally = deliver(&mut toolbar, event);
        issued += tally.issued_request as u32;
        settled += tally.settled_request as u32;
        assert!(settled <= issued);
        let pending = toolbar.signature() == SignatureInvocation::Pending;
        assert_eq!(issued - settled, pending as u32);
    }
    assert_eq!(issued, 3);
    assert_eq!(settled, 3);
}

#[test]
fn the_script_ends_where_it_should() {
    let mut toolbar = ToolbarOrchestrator::new(None);
    let mut stages = Vec::new();
    for event in script() {
        deliver(&mut toolbar, event);
        if stages.last() != Some(&toolbar.stage) {
            stages.push(toolbar.stage);
        }
    }
    assert_eq!(
        stages,
        vec![
            Stage::InsufficientFunds,
            Stage::Provisioning,
            Stage::InsufficientFunds,
            Stage::Provisioning,
            Stage::Active,
            Stage::InsufficientFunds,
            Stage::Active,
        ]
    );
    assert_eq!(toolbar.poller, MiningPoller::start(snapshot(5)));
}

#[test]
fn polling_moves_no_phase() {
    let mut toolbar = ToolbarOrchestrator::new(None);
    assert!(toolbar.open_toolbar(&on()).is_ok());
    assert!(toolbar.request_account_provisioning(&on()).is_ok());
    let before = toolbar.clone();
    toolbar.tick();
    toolbar.record_treasury(Err(FetchError::Network));
    toolbar.record_proof(Ok(snapshot(1)));
    toolbar.record_supply(Ok(TokenSupply { ui_amount: None }));
    assert_eq!(toolbar, before);
    let mut active = ToolbarOrchestrator::new(Some(snapshot(1)));
    let phase = active.phase();
    active.tick();
    active.record_treasury(Err(FetchError::Network));
    active.record_proof(Err(FetchError::Decode));
    active.record_supply(Err(FetchError::Network));
    assert_eq!(active.phase(), phase);
    assert_eq!(active.stage, Stage::Active);
    assert!(!active.is_starting());
}
