use lnradar::error::Error;
use lnradar::primitives::{
    well_known_key, Amount, PublicKey, SecretKey, ShortChannelId, ShortChannelIdDir,
};
use lnradar::probe::{
    attempt_of_codes, PaymentFailure, ProbeAction, ProbeEvent, ProbeStage, SendProbe,
};
use lnradar::results::{ErrorCode, ProbeAttempt};
use lnradar::routes::{GetroutesRoutes, GetroutesRoutesPath};
use lnradar::testpayment::TestPayment;

fn key(n: u8) -> PublicKey {
    let mut bytes = [0u8; 32];
    bytes[31] = n;
    PublicKey::from_secret_key(&SecretKey::from_byte_array(bytes).unwrap())
}

/// The payment hash that is made of a draw of 0x22.
fn marked() -> [u8; 32] {
    let mut hash = [0x22; 32];
    hash[..16].copy_from_slice(&[0xaa; 16]);
    hash
}

fn probe() -> SendProbe {
    let payment = TestPayment::from_draws(
        5000,
        well_known_key(),
        key(9),
        Ok([0x11; 32]),
        Ok([0x22; 32]),
    )
    .unwrap();
    SendProbe {
        payment,
        groupid: 4,
    }
}

fn route() -> GetroutesRoutes {
    let mut path = Vec::new();
    for (n, amount, delay) in [(1u8, 5020, 200), (9, 5010, 180)] {
        path.push(GetroutesRoutesPath {
            short_channel_id_dir: Some(ShortChannelIdDir {
                short_channel_id: ShortChannelId(n as u64),
                direction: 1,
            }),
            amount_msat: Amount::from_msat(amount),
            delay,
            next_node_id: key(n),
        });
    }
    GetroutesRoutes {
        final_cltv: Some(162),
        amount_msat: Amount::from_msat(5000),
        path,
        rendering: "R".to_string(),
    }
}

fn error_of(end: (ProbeStage, ProbeAction)) -> Error {
    match end {
        (ProbeStage::Done, ProbeAction::Finish(Err(e))) => e,
        other => panic!("{other:?}"),
    }
}

fn paying() -> ProbeStage {
    let (stage, _) = probe().step(
        ProbeStage::FindingRoutes,
        ProbeEvent::Routes(Ok(vec![route()])),
    );
    stage
}

fn waiting() -> ProbeStage {
    probe().step(paying(), ProbeEvent::Sent(Ok(()))).0
}

fn ended(data: Option<&str>) -> Result<ProbeAttempt, Error> {
    let failure = PaymentFailure {
        text: "F".to_string(),
        data: data.map(|text| serde_json::from_str(text).unwrap()),
    };
    match probe().step(waiting(), ProbeEvent::Ended(Some(failure))) {
        (ProbeStage::Done, ProbeAction::Finish(r)) => r,
        other => panic!("{other:?}"),
    }
}

#[test]
fn a_probe_runs_to_its_end() {
    let p = probe();
    let (stage, action) = p.step(ProbeStage::Connecting, ProbeEvent::Connected(Ok(())));
    assert!(matches!(action, ProbeAction::GetInfo));
    let (stage, action) = p.step(stage, ProbeEvent::NodeId(Ok(key(3))));
    let request = match action {
        ProbeAction::GetRoutes(request) => request,
        other => panic!("{other:?}"),
    };
    assert_eq!(request.source.to_hex(), key(3).to_hex());
    assert_eq!(request.destination.to_hex(), key(9).to_hex());
    assert_eq!(request.amount_msat.msat, 5000);
    assert_eq!(request.maxfee_msat.msat, 5000);
    assert_eq!(
        request.layers,
        vec![
            "auto.no_mpp_support",
            "auto.localchans",
            "auto.sourcefree",
            "xpay",
            "lnradar"
        ]
    );
    assert_eq!(request.maxdelay, None);
    assert_eq!(request.maxparts, Some(1));
    assert_eq!(request.final_cltv, Some(162));

    let (stage, action) = p.step(stage, ProbeEvent::Routes(Ok(vec![route()])));
    let request = match action {
        ProbeAction::SendPay(request) => request,
        other => panic!("{other:?}"),
    };
    assert_eq!(request.payment_hash, marked());
    assert_eq!(request.payment_secret, Some([0x11; 32]));
    assert_eq!(request.amount_msat, Some(Amount::from_msat(5000)));
    assert_eq!(request.partid, Some(0));
    assert_eq!(request.groupid, Some(4));
    let hops: Vec<(u64, u32, u64, String)> = request
        .route
        .iter()
        .map(|h| (h.amount_msat.msat, h.delay, h.channel.0, h.id.to_hex()))
        .collect();
    let behind = PublicKey::from_secret_key(&well_known_key()).to_hex();
    assert_eq!(
        hops,
        vec![
            (5010, 180, 1, key(1).to_hex()),
            (5000, 162, 9, key(9).to_hex()),
            (5000, 18, 0x100_0001_0001, behind),
        ]
    );

    let (stage, action) = p.step(stage, ProbeEvent::Sent(Ok(())));
    let request = match action {
        ProbeAction::WaitSendPay(request) => request,
        other => panic!("{other:?}"),
    };
    assert_eq!(request.payment_hash, marked());
    assert_eq!(request.partid, Some(0));
    assert_eq!(request.groupid, Some(4));
    assert_eq!(request.timeout, Some(60));

    let failure = PaymentFailure {
        text: "F".to_string(),
        data: Some(serde_json::from_str(r#"{"failcode": 16394, "erring_index": 2}"#).unwrap()),
    };
    let (stage, action) = p.step(stage, ProbeEvent::Ended(Some(failure)));
    assert!(matches!(stage, ProbeStage::Done));
    let attempt = match action {
        ProbeAction::Finish(Ok(attempt)) => attempt,
        other => panic!("{other:?}"),
    };
    assert_eq!(attempt.payment_hash, marked());
    assert_eq!(attempt.destination.to_hex(), key(9).to_hex());
    assert_eq!(attempt.amount.msat, 5000);
    assert_eq!(attempt.route.failcode, ErrorCode::UnknownNextPeer);
    assert_eq!(attempt.route.erring_index, 2);
    let path: Vec<(u64, u32, u64, String)> = attempt
        .route
        .path
        .iter()
        .map(|h| {
            (
                h.short_channel_id_dir.short_channel_id.0,
                h.short_channel_id_dir.direction,
                h.amount.msat,
                h.next_nodeid.to_hex(),
            )
        })
        .collect();
    assert_eq!(
        path,
        vec![
            (1, 1, 5010, key(1).to_hex()),
            (9, 1, 5000, key(9).to_hex())
        ]
    );
}

#[test]
fn a_single_probe_has_the_number_one() {
    assert_eq!(SendProbe::once(probe().payment).groupid, 1);
}

#[test]
fn an_unreachable_node_ends_a_probe() {
    let e = error_of(probe().step(
        ProbeStage::Connecting,
        ProbeEvent::Connected(Err("gone".to_string())),
    ));
    assert_eq!(
        e.to_string(),
        "failed to fetch an rpc channel from plugin gone"
    );
}

#[test]
fn a_node_without_a_key_ends_a_probe() {
    let e = error_of(probe().step(
        ProbeStage::AskingNodeId,
        ProbeEvent::NodeId(Err("x".to_string())),
    ));
    assert_eq!(
        e.to_string(),
        "Failed to call getinfo and the node id is needed: x"
    );
}

#[test]
fn a_probe_needs_exactly_one_route() {
    let find = |routes| {
        error_of(probe().step(ProbeStage::FindingRoutes, ProbeEvent::Routes(routes)))
    };
    let e = find(Err("no way".to_string()));
    assert!(matches!(e, Error::NoRoutes(_)));
    assert_eq!(e.to_string(), "Could not find any routes: no way");
    assert_eq!(
        find(Ok(vec![])).to_string(),
        "Expecting getroutes to return exactly one route, got 0 instead."
    );
    let twelve: Vec<GetroutesRoutes> = (0..12).map(|_| route()).collect();
    assert_eq!(
        find(Ok(twelve)).to_string(),
        "Expecting getroutes to return exactly one route, got 12 instead."
    );
    let mut bad = route();
    bad.final_cltv = None;
    assert_eq!(
        find(Ok(vec![bad])).to_string(),
        "couldn't convert routes types: routes R is missing the final_cltv"
    );
}

#[test]
fn a_payment_that_is_not_sent_ends_a_probe() {
    let e = error_of(probe().step(paying(), ProbeEvent::Sent(Err("full".to_string()))));
    assert_eq!(e.to_string(), "sendpay failed: full");
}

#[test]
fn a_payment_must_fail() {
    let e = error_of(probe().step(waiting(), ProbeEvent::Ended(None)));
    assert_eq!(e.to_string(), "unexpected waitsendpay success");
}

#[test]
fn a_failure_must_be_understood() {
    let why = |data| ended(data).unwrap_err().to_string();
    assert_eq!(why(None), "data is not present in waitsendpay error");
    assert_eq!(
        why(Some("{}")),
        "can't read failcode from waitsendpay response"
    );
    assert_eq!(
        why(Some(r#"[1]"#)),
        "can't read failcode from waitsendpay response"
    );
    assert_eq!(
        why(Some(r#"{"failcode": -1, "erring_index": 0}"#)),
        "can't read failcode from waitsendpay response"
    );
    assert_eq!(
        why(Some(r#"{"failcode": 4103}"#)),
        "can't read erring_index from waitsendpay response"
    );
    assert_eq!(
        why(Some(r#"{"failcode": 4103, "erring_index": "1"}"#)),
        "can't read erring_index from waitsendpay response"
    );
    assert_eq!(
        why(Some(r#"{"failcode": 7, "erring_index": 1}"#)),
        "Unrecognized error code from waitsendpay: F"
    );
}

#[test]
fn every_known_failure_is_understood() {
    for (code, failcode) in [
        (0x400a, ErrorCode::UnknownNextPeer),
        (0x400f, ErrorCode::IncorrectOrUnknownPaymentDetails),
        (0x1007, ErrorCode::TemporaryChannelFailure),
        (0x100c, ErrorCode::FeeInsufficient),
    ] {
        let r = attempt_of_codes(&probe().payment, vec![], Some(code), Some(17), "F").unwrap();
        assert_eq!(r.route.failcode, failcode);
        assert_eq!(r.route.erring_index, 17);
        assert_eq!(r.route.path.len(), 0);
        let text = format!(r#"{{"failcode": {code}, "erring_index": 1}}"#);
        let r = ended(Some(&text)).unwrap();
        assert_eq!(r.route.failcode, failcode);
        assert_eq!(r.route.erring_index, 1);
        assert_eq!(r.route.path.len(), 2);
    }
}
