use lnradar::disabled::{DisabledChannels, Moment};
use lnradar::knowledge::{
    calls_node, knowledge_bad_channel, knowledge_disable_channel, knowledge_good_channels,
    no_connection, update_knowledge, KnowledgeRequest, TeachAction, TeachEvent, Teaching,
};
use lnradar::primitives::{
    well_known_key, Amount, PublicKey, ShortChannelId, ShortChannelIdDir,
};
use lnradar::requests::AskreneinformchannelInform;
use lnradar::results::{ErrorCode, ProbeAttempt, Route, RouteHop};

const NOW: Moment = Moment { secs: 77, nanos: 5 };

fn node() -> PublicKey {
    PublicKey::from_secret_key(&well_known_key())
}

fn path() -> Vec<RouteHop> {
    let mut hops = Vec::new();
    for n in 1..4u64 {
        hops.push(RouteHop {
            short_channel_id_dir: channel(n),
            next_nodeid: node(),
            amount: Amount::from_msat(1000 * n),
        });
    }
    hops
}

fn channel(n: u64) -> ShortChannelIdDir {
    ShortChannelIdDir {
        short_channel_id: ShortChannelId(n),
        direction: (n % 2) as u32,
    }
}

fn attempt(failcode: ErrorCode, erring_index: usize) -> ProbeAttempt {
    ProbeAttempt {
        payment_hash: [1; 32],
        destination: node(),
        amount: Amount::from_msat(9),
        route: Route {
            path: path(),
            failcode,
            erring_index,
        },
    }
}

fn lesson(request: &KnowledgeRequest) -> (u64, &'static str) {
    match request {
        KnowledgeRequest::Inform(r) => {
            assert_eq!(r.layer, "layer");
            let c = r.short_channel_id_dir.unwrap();
            let n = c.short_channel_id.0;
            assert_eq!(c, channel(n));
            assert_eq!(r.amount_msat, Some(Amount::from_msat(1000 * n)));
            match r.inform.unwrap() {
                AskreneinformchannelInform::Constrained => (n, "bad"),
                AskreneinformchannelInform::Unconstrained => (n, "good"),
            }
        }
        KnowledgeRequest::Update(r) => {
            assert_eq!(r.layer, "layer");
            assert_eq!(r.enabled, Some(false));
            (r.short_channel_id_dir.short_channel_id.0, "off")
        }
    }
}

fn learn(failcode: ErrorCode, erring_index: usize) -> (Vec<(u64, &'static str)>, usize) {
    let mut disabled = DisabledChannels::new();
    let requests =
        update_knowledge(&mut disabled, &attempt(failcode, erring_index), NOW, "layer").unwrap();
    (requests.iter().map(lesson).collect(), disabled.len())
}

fn fail(failcode: ErrorCode, erring_index: usize) -> String {
    let mut disabled = DisabledChannels::new();
    let e = update_knowledge(&mut disabled, &attempt(failcode, erring_index), NOW, "layer")
        .unwrap_err();
    assert_eq!(disabled.len(), 0);
    e.to_string()
}

#[test]
fn a_narrow_channel_is_learned_first() {
    assert_eq!(
        learn(ErrorCode::TemporaryChannelFailure, 2),
        (vec![(3, "bad"), (1, "good"), (2, "good")], 0)
    );
    assert_eq!(
        learn(ErrorCode::TemporaryChannelFailure, 0),
        (vec![(1, "bad")], 0)
    );
}

#[test]
fn an_expensive_channel_is_switched_off() {
    assert_eq!(
        learn(ErrorCode::FeeInsufficient, 1),
        (vec![(2, "off"), (1, "good")], 1)
    );
    let mut disabled = DisabledChannels::new();
    update_knowledge(
        &mut disabled,
        &attempt(ErrorCode::FeeInsufficient, 1),
        NOW,
        "layer",
    )
    .unwrap();
    let entry = disabled.peek().unwrap();
    assert_eq!(entry.scidd, channel(2));
    assert_eq!(entry.time, NOW);
}

#[test]
fn reaching_teaches_only_good() {
    for failcode in [
        ErrorCode::UnknownNextPeer,
        ErrorCode::IncorrectOrUnknownPaymentDetails,
    ] {
        assert_eq!(
            learn(failcode, 3),
            (vec![(1, "good"), (2, "good"), (3, "good")], 0)
        );
        assert_eq!(learn(failcode, 1), (vec![(1, "good")], 0));
        assert_eq!(learn(failcode, 0), (vec![], 0));
    }
}

#[test]
fn nothing_is_learned_beyond_the_path() {
    assert_eq!(
        fail(ErrorCode::TemporaryChannelFailure, 3),
        "failed to update knowledge fro failed channel: erring_index is out of bounds"
    );
    assert_eq!(
        fail(ErrorCode::FeeInsufficient, 3),
        "failed to disable bad channel: erring_index is out of bounds"
    );
    assert_eq!(
        fail(ErrorCode::UnknownNextPeer, 4),
        "failed to update knowledge for good channels: erring_index is out of bounds"
    );
}

#[test]
fn single_lessons_check_the_index() {
    let p = path();
    assert_eq!(knowledge_good_channels(3, &p, "layer").unwrap().len(), 3);
    assert_eq!(knowledge_good_channels(0, &p, "layer").unwrap().len(), 0);
    assert_eq!(
        knowledge_good_channels(4, &p, "layer")
            .unwrap_err()
            .to_string(),
        "erring_index is out of bounds"
    );
    assert_eq!(
        lesson(&knowledge_bad_channel(2, &p, "layer").unwrap()),
        (3, "bad")
    );
    assert_eq!(
        knowledge_bad_channel(3, &p, "layer")
            .unwrap_err()
            .to_string(),
        "erring_index is out of bounds"
    );
    let mut disabled = DisabledChannels::new();
    assert_eq!(
        knowledge_disable_channel(&mut disabled, 3, &p, NOW, "layer")
            .unwrap_err()
            .to_string(),
        "erring_index is out of bounds"
    );
    assert_eq!(disabled.len(), 0);
    assert_eq!(
        lesson(&knowledge_disable_channel(&mut disabled, 0, &p, NOW, "layer").unwrap()),
        (1, "off")
    );
    assert_eq!(disabled.len(), 1);
}

fn teaching(failcode: ErrorCode, erring_index: usize) -> Teaching {
    let mut disabled = DisabledChannels::new();
    let requests =
        update_knowledge(&mut disabled, &attempt(failcode, erring_index), NOW, "layer").unwrap();
    Teaching::new(requests)
}

fn trouble(action: TeachAction) -> String {
    match action {
        TeachAction::Finish(Err(e)) => e.to_string(),
        other => panic!("{other:?}"),
    }
}

#[test]
fn lessons_are_taught_in_order() {
    let mut t = teaching(ErrorCode::TemporaryChannelFailure, 2);
    assert!(!t.requests[0].is_good());
    assert!(t.requests[1].is_good());
    assert!(matches!(t.step(TeachEvent::Begun), TeachAction::Teach(0)));
    assert!(matches!(t.step(TeachEvent::Taught), TeachAction::Connect));
    assert!(matches!(
        t.step(TeachEvent::Connected),
        TeachAction::Teach(1)
    ));
    assert!(matches!(t.step(TeachEvent::Taught), TeachAction::Teach(2)));
    assert!(matches!(
        t.step(TeachEvent::Taught),
        TeachAction::Finish(Ok(()))
    ));
}

#[test]
fn good_lessons_alone_need_no_new_connection() {
    let mut t = teaching(ErrorCode::UnknownNextPeer, 2);
    assert!(matches!(t.step(TeachEvent::Begun), TeachAction::Teach(0)));
    assert!(matches!(t.step(TeachEvent::Taught), TeachAction::Teach(1)));
    assert!(matches!(
        t.step(TeachEvent::Taught),
        TeachAction::Finish(Ok(()))
    ));
    let mut t = teaching(ErrorCode::UnknownNextPeer, 0);
    assert!(matches!(
        t.step(TeachEvent::Begun),
        TeachAction::Finish(Ok(()))
    ));
}

#[test]
fn a_failure_at_the_first_hop_still_needs_a_new_connection() {
    for failcode in [
        ErrorCode::TemporaryChannelFailure,
        ErrorCode::FeeInsufficient,
    ] {
        let mut t = teaching(failcode, 0);
        assert!(matches!(t.step(TeachEvent::Begun), TeachAction::Teach(0)));
        assert!(matches!(t.step(TeachEvent::Taught), TeachAction::Connect));
        assert!(matches!(
            t.step(TeachEvent::Connected),
            TeachAction::Finish(Ok(()))
        ));
        let mut t = teaching(failcode, 0);
        t.step(TeachEvent::Begun);
        t.step(TeachEvent::Taught);
        assert_eq!(
            trouble(t.step(TeachEvent::Unreachable("x".to_string()))),
            "failed to update knowledge for good channels: \
             failed to fetch an rpc channel from plugin: x"
        );
    }
}

#[test]
fn the_first_thing_that_fails_ends_the_lesson() {
    let mut t = teaching(ErrorCode::TemporaryChannelFailure, 2);
    t.step(TeachEvent::Begun);
    assert_eq!(
        trouble(t.step(TeachEvent::Refused("x".to_string()))),
        "failed to update knowledge fro failed channel: askrene-inform-channel failed: x"
    );
    let mut t = teaching(ErrorCode::FeeInsufficient, 1);
    t.step(TeachEvent::Begun);
    assert_eq!(
        trouble(t.step(TeachEvent::Refused("x".to_string()))),
        "failed to disable bad channel: askrene-update-channel failed: x"
    );
    let mut t = teaching(ErrorCode::FeeInsufficient, 1);
    t.step(TeachEvent::Begun);
    t.step(TeachEvent::Taught);
    t.step(TeachEvent::Connected);
    assert_eq!(
        trouble(t.step(TeachEvent::Refused("x".to_string()))),
        "failed to update knowledge for good channels: askrene-inform-channel failed: x"
    );
    let mut t = teaching(ErrorCode::FeeInsufficient, 1);
    t.step(TeachEvent::Begun);
    t.step(TeachEvent::Taught);
    assert_eq!(
        trouble(t.step(TeachEvent::Unreachable("x".to_string()))),
        "failed to update knowledge for good channels: \
         failed to fetch an rpc channel from plugin: x"
    );
}

#[test]
fn the_node_is_called_unless_no_hop_can_be_switched_off() {
    assert!(calls_node(&attempt(ErrorCode::FeeInsufficient, 2)));
    assert!(!calls_node(&attempt(ErrorCode::FeeInsufficient, 3)));
    assert!(calls_node(&attempt(ErrorCode::TemporaryChannelFailure, 9)));
    assert!(calls_node(&attempt(ErrorCode::UnknownNextPeer, 9)));
}

#[test]
fn a_node_that_cannot_be_called_learns_nothing() {
    let why = |failcode, index| no_connection(&attempt(failcode, index), "x").to_string();
    assert_eq!(
        why(ErrorCode::TemporaryChannelFailure, 9),
        "failed to update knowledge fro failed channel: \
         failed to fetch an rpc channel from plugin: x"
    );
    assert_eq!(
        why(ErrorCode::FeeInsufficient, 2),
        "failed to disable bad channel: failed to fetch an rpc channel from plugin: x"
    );
    assert_eq!(
        why(ErrorCode::FeeInsufficient, 3),
        "failed to disable bad channel: erring_index is out of bounds"
    );
    assert_eq!(
        why(ErrorCode::UnknownNextPeer, 0),
        "failed to update knowledge for good channels: \
         failed to fetch an rpc channel from plugin: x"
    );
}
