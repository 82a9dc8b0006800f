use lnradar::error::Error;
use lnradar::primitives::{well_known_key, Amount, PublicKey};
use lnradar::results::{ErrorCode, ProbeAttempt, Route};
use lnradar::single_probe::{SingleAction, SingleEvent, SingleStage};

#[test]
fn an_attempt_is_learned_from_and_answered() {
    let attempt = ProbeAttempt {
        payment_hash: [3; 32],
        destination: PublicKey::from_secret_key(&well_known_key()),
        amount: Amount::from_msat(9),
        route: Route {
            path: vec![],
            failcode: ErrorCode::FeeInsufficient,
            erring_index: 5,
        },
    };
    let (stage, action) = SingleStage::Probing.step(SingleEvent::Probed(Ok(attempt)));
    assert!(matches!(action, SingleAction::Learn));
    match &stage {
        SingleStage::Learning(attempt) => assert_eq!(attempt.route.erring_index, 5),
        other => panic!("{other:?}"),
    }
    match stage.step(SingleEvent::Learned) {
        (SingleStage::Done, SingleAction::Finish(Ok(attempt))) => {
            assert_eq!(attempt.payment_hash, [3; 32]);
            assert_eq!(attempt.route.failcode, ErrorCode::FeeInsufficient);
        }
        other => panic!("{other:?}"),
    }
}

#[test]
fn a_failed_probe_is_answered_at_once() {
    match SingleStage::Probing.step(SingleEvent::Probed(Err(Error::no_routes("x")))) {
        (SingleStage::Done, SingleAction::Finish(Err(e))) => {
            assert_eq!(e.to_string(), "Could not find any routes: x");
        }
        other => panic!("{other:?}"),
    }
}
