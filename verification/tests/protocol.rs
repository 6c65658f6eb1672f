use std::str::FromStr;

use identitycreator::classify_lookup_error;
use identitycreator::ErrorKind;
use identitycreator::LookupOutcome;
use identitycreator::Orchestrator;
use identitycreator::ProtocolAction;
use identitycreator::RETRY_CAP;
use vrsc::Address;
use vrsc_rpc::bitcoin::Txid;
use vrsc_rpc::json::identity::NameCommitment;
use vrsc_rpc::json::identity::NameReservation;

const GOOD_ADDRESS: &str = "RP1sexQNvjGPohJkK9JnuPDH7V7NboycGj";
const COMMITMENT_TXID: &str = "1111111111111111111111111111111111111111111111111111111111111111";
const REGISTRATION_TXID: &str = "2222222222222222222222222222222222222222222222222222222222222222";

fn commitment(name: &str) -> NameCommitment {
    NameCommitment {
        txid: Txid::from_str(COMMITMENT_TXID).unwrap(),
        namereservation: NameReservation {
            name: name.to_string(),
            salt: "saltsalt".to_string(),
            version: 1,
            referral: None,
            parent: String::new(),
            nameid: Address::from_str(GOOD_ADDRESS).unwrap(),
        },
    }
}

fn registration_txid() -> Txid {
    Txid::from_str(REGISTRATION_TXID).unwrap()
}

#[test]
fn classifies_the_non_wallet_message_as_transient() {
    let outcome = classify_lookup_error(
        "RPC error: Invalid or non-wallet transaction id".to_string(),
    );
    assert_eq!(outcome, LookupOutcome::NotYetVisible);
}

#[test]
fn keeps_any_other_message_as_failure() {
    let outcome = classify_lookup_error("connection refused".to_string());
    assert_eq!(
        outcome,
        LookupOutcome::Failure("connection refused".to_string())
    );
}

#[test]
fn confirmed_on_first_poll_yields_the_identity() {
    let mut run = Orchestrator::new();
    assert_eq!(run.next_action(), ProtocolAction::SubmitCommitment);

    let action = run.on_commitment_result(Ok(commitment("aaaaah")));
    assert_eq!(action, ProtocolAction::QueryConfirmation);

    let action = run.on_lookup(LookupOutcome::Info { confirmations: 1 });
    assert_eq!(action, ProtocolAction::SubmitRegistration);

    let action = run.on_registration_result(Ok(registration_txid()));
    assert_eq!(action, ProtocolAction::Stop);

    let identity = run.finish().unwrap();
    assert_eq!(identity.name_commitment.namereservation.name, "aaaaah");
    assert_eq!(identity.registration_txid, registration_txid());
}

#[test]
fn zero_confirmations_keep_the_run_waiting_until_cancelled() {
    let mut run = Orchestrator::new();
    run.on_commitment_result(Ok(commitment("test")));

    for _ in 0..100u32 {
        let action = run.on_lookup(LookupOutcome::Info { confirmations: 0 });
        assert_eq!(action, ProtocolAction::SleepCoarseThenQuery);
    }

    // The caller gives up: cancellation surfaces as the timeout error, never
    // as a success.
    let err = run.finish().unwrap_err();
    assert_eq!(err.kind, ErrorKind::Timeout);
}

#[test]
fn transient_lookups_within_budget_end_in_success() {
    let transients: u32 = 5;
    let mut run = Orchestrator::new();
    run.on_commitment_result(Ok(commitment("test")));

    let mut lookups: u32 = 0;
    let mut registration_submissions: u32 = 0;
    loop {
        let outcome = if lookups < transients {
            LookupOutcome::NotYetVisible
        } else {
            LookupOutcome::Info { confirmations: 1 }
        };
        let action = run.on_lookup(outcome);
        lookups += 1;
        match action {
            ProtocolAction::SleepFineThenQuery => continue,
            ProtocolAction::SubmitRegistration => {
                registration_submissions += 1;
                break;
            }
            other => panic!("unexpected action {:?}", other),
        }
    }

    assert_eq!(lookups, transients + 1);
    assert_eq!(registration_submissions, 1);

    let action = run.on_registration_result(Ok(registration_txid()));
    assert_eq!(action, ProtocolAction::Stop);
    assert!(run.finish().is_ok());
}

#[test]
fn transient_lookups_beyond_budget_time_out() {
    let mut run = Orchestrator::new();
    run.on_commitment_result(Ok(commitment("test")));

    let mut lookups: u64 = 0;
    loop {
        let action = run.on_lookup(LookupOutcome::NotYetVisible);
        lookups += 1;
        match action {
            ProtocolAction::SleepFineThenQuery => continue,
            ProtocolAction::Stop => break,
            other => panic!("unexpected action {:?}", other),
        }
    }

    // The budget allows RETRY_CAP invisible lookups; the next one times out,
    // and the registration was never requested.
    assert_eq!(lookups, RETRY_CAP as u64 + 1);
    let err = run.finish().unwrap_err();
    assert_eq!(err.kind, ErrorKind::Timeout);
}

#[test]
fn rejected_commitment_fails_the_run_immediately() {
    let mut run = Orchestrator::new();
    let action = run.on_commitment_result(Err("insufficient funds".to_string()));
    assert_eq!(action, ProtocolAction::Stop);
    let err = run.finish().unwrap_err();
    assert_eq!(
        err.kind,
        ErrorKind::VrscRpcError("insufficient funds".to_string())
    );
}

#[test]
fn definitive_lookup_failure_fails_the_run() {
    let mut run = Orchestrator::new();
    run.on_commitment_result(Ok(commitment("test")));
    let action = run.on_lookup(LookupOutcome::Failure("node unreachable".to_string()));
    assert_eq!(action, ProtocolAction::Stop);
    let err = run.finish().unwrap_err();
    assert_eq!(
        err.kind,
        ErrorKind::VrscRpcError("node unreachable".to_string())
    );
}

#[test]
fn rejected_registration_fails_the_run() {
    let mut run = Orchestrator::new();
    run.on_commitment_result(Ok(commitment("test")));
    run.on_lookup(LookupOutcome::Info { confirmations: 3 });
    let action = run.on_registration_result(Err("name already taken".to_string()));
    assert_eq!(action, ProtocolAction::Stop);
    let err = run.finish().unwrap_err();
    assert_eq!(
        err.kind,
        ErrorKind::VrscRpcError("name already taken".to_string())
    );
}

#[test]
fn negative_confirmations_also_keep_waiting() {
    let mut run = Orchestrator::new();
    run.on_commitment_result(Ok(commitment("test")));
    let action = run.on_lookup(LookupOutcome::Info { confirmations: -1 });
    assert_eq!(action, ProtocolAction::SleepCoarseThenQuery);
}
