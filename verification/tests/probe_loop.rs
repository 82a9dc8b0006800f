use lnradar::error::Error;
use lnradar::primitives::{well_known_key, Amount, PublicKey, SecretKey};
use lnradar::probe_loop::{
    LoopAction, LoopEvent, ProbeLoop, LNRADAR_DEFAULT_TIMEOUT_SECS, LNRADAR_MAX_CONCURRENT_PROBES,
};
use lnradar::results::{ErrorCode, ProbeAttempt, ProbeResult, ProbeStatus, Route};
use lnradar::testpayment::TestPayment;

fn destination() -> PublicKey {
    let mut bytes = [0u8; 32];
    bytes[31] = 7;
    PublicKey::from_secret_key(&SecretKey::from_byte_array(bytes).unwrap())
}

/// The payment hash that is made of a draw of 0x22.
fn marked() -> [u8; 32] {
    let mut hash = [0x22; 32];
    hash[..16].copy_from_slice(&[0xaa; 16]);
    hash
}

fn payment() -> TestPayment {
    TestPayment::from_draws(
        5000,
        well_known_key(),
        destination(),
        Ok([0x11; 32]),
        Ok([0x22; 32]),
    )
    .unwrap()
}

fn attempt(failcode: ErrorCode, erring_index: usize) -> ProbeAttempt {
    ProbeAttempt {
        payment_hash: marked(),
        destination: destination(),
        amount: Amount::from_msat(5000),
        route: Route {
            path: vec![],
            failcode,
            erring_index,
        },
    }
}

fn indices(result: &ProbeResult) -> Vec<usize> {
    result.routes.iter().map(|r| r.erring_index).collect()
}

fn begun() -> ProbeLoop {
    let mut l = ProbeLoop::new(payment());
    assert!(matches!(
        l.step(LoopEvent::Turn(Ok(()))),
        LoopAction::Probe(1)
    ));
    l
}

fn outcome(action: LoopAction) -> ProbeResult {
    match action {
        LoopAction::Finish(result) => {
            assert_eq!(result.payment_hash, marked());
            assert_eq!(result.destination.to_hex(), destination().to_hex());
            assert_eq!(result.amount.msat, 5000);
            result
        }
        other => panic!("{other:?}"),
    }
}

#[test]
fn probing_has_limits() {
    assert_eq!(LNRADAR_MAX_CONCURRENT_PROBES, 5);
    assert_eq!(LNRADAR_DEFAULT_TIMEOUT_SECS, 60);
}

#[test]
fn probing_goes_on_until_the_destination_is_reached() {
    let mut l = begun();
    for (i, failcode) in [
        ErrorCode::TemporaryChannelFailure,
        ErrorCode::FeeInsufficient,
        ErrorCode::TemporaryChannelFailure,
    ]
    .into_iter()
    .enumerate()
    {
        assert!(matches!(
            l.step(LoopEvent::Attempted(Ok(attempt(failcode, i)))),
            LoopAction::Learn
        ));
        match l.step(LoopEvent::Learned) {
            LoopAction::Probe(groupid) => assert_eq!(groupid, i as u64 + 2),
            other => panic!("{other:?}"),
        }
    }
    l.step(LoopEvent::Attempted(Ok(attempt(
        ErrorCode::UnknownNextPeer,
        9,
    ))));
    let result = outcome(l.step(LoopEvent::Learned));
    assert_eq!(result.status, ProbeStatus::Success);
    assert_eq!(result.message, None);
    assert_eq!(indices(&result), vec![0, 1, 2, 9]);
}

#[test]
fn a_node_that_knows_test_payments_is_reached_too() {
    let mut l = begun();
    l.step(LoopEvent::Attempted(Ok(attempt(
        ErrorCode::IncorrectOrUnknownPaymentDetails,
        3,
    ))));
    let result = outcome(l.step(LoopEvent::Learned));
    assert_eq!(result.status, ProbeStatus::Success);
    assert_eq!(indices(&result), vec![3]);
}

#[test]
fn a_failing_probe_ends_the_probing() {
    let mut l = begun();
    l.step(LoopEvent::Attempted(Ok(attempt(
        ErrorCode::FeeInsufficient,
        1,
    ))));
    l.step(LoopEvent::Learned);
    let result = outcome(l.step(LoopEvent::Attempted(Err(Error::no_routes("none left")))));
    assert_eq!(result.status, ProbeStatus::Failed);
    assert_eq!(
        result.message,
        Some("Could not find any routes: none left".to_string())
    );
    assert_eq!(indices(&result), vec![1]);
}

#[test]
fn time_runs_out() {
    let mut l = begun();
    l.step(LoopEvent::Attempted(Ok(attempt(
        ErrorCode::FeeInsufficient,
        1,
    ))));
    l.step(LoopEvent::Learned);
    let result = outcome(l.step(LoopEvent::TimedOut));
    assert_eq!(result.status, ProbeStatus::Failed);
    assert_eq!(
        result.message,
        Some("time out while waiting for probe loop to finish".to_string())
    );
    assert_eq!(indices(&result), vec![1]);
}

#[test]
fn a_turn_that_never_comes_ends_the_probing() {
    let mut l = ProbeLoop::new(payment());
    let result = outcome(l.step(LoopEvent::Turn(Err("closed".to_string()))));
    assert_eq!(result.status, ProbeStatus::Failed);
    assert_eq!(
        result.message,
        Some("failed to acquire probe semaphore: closed".to_string())
    );
    assert_eq!(result.routes.len(), 0);
}
