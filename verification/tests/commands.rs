use lightning_invoice::Bolt11Invoice;
use lnradar::commands::{
    invoice_of, json_testinvoice, json_testpayment, network_args, network_payment, payment_args,
    payment_or_outcome, pick_destinations, read_network_args, read_payment_args,
};
use lnradar::error::Error;
use lnradar::primitives::{well_known_key, PublicKey, SecretKey};
use lnradar::results::ProbeStatus;
use lnradar::testpayment::{Currency, TestPayment};
use rand::rngs::StdRng;
use rand::SeedableRng;
use serde_json::Value;
use std::time::Duration;

const KEY: &str = "0279be667ef9dcbbac55a06295ce870b07029bfcdb2dce28d959f2815b16f81798";

fn json(text: &str) -> Value {
    serde_json::from_str(text).unwrap()
}

fn args(amount_msat: u64) -> Value {
    json(&format!(
        r#"{{"amount_msat": {amount_msat}, "destination": "{KEY}"}}"#
    ))
}

fn key(n: u8) -> PublicKey {
    let mut bytes = [0u8; 32];
    bytes[31] = n;
    PublicKey::from_secret_key(&SecretKey::from_byte_array(bytes).unwrap())
}

#[test]
fn a_payment_is_named_by_amount_and_destination() {
    let p = read_payment_args(&args(77)).unwrap();
    assert_eq!(p.amount_msat, 77);
    assert_eq!(p.destination.to_hex(), KEY);
    let p = payment_args(Some(78), Ok(key(1))).unwrap();
    assert_eq!(p.amount_msat, 78);
    assert_eq!(p.destination.to_hex(), KEY);
}

#[test]
fn the_amount_is_mandatory() {
    for text in [
        "{}",
        "null",
        r#"{"amount_msat": "5"}"#,
        r#"{"amount_msat": -5}"#,
        r#"{"amount_msat": 1.5}"#,
    ] {
        assert_eq!(
            read_payment_args(&json(text)).unwrap_err().to_string(),
            "Missing mandatory field amount_msat"
        );
        assert_eq!(
            read_network_args(&json(text)).unwrap_err().to_string(),
            "Missing mandatory field amount_msat"
        );
    }
    assert_eq!(
        payment_args(None, Err(Error::other("x")))
            .unwrap_err()
            .to_string(),
        "Missing mandatory field amount_msat"
    );
    assert!(network_args(None, Some(3)).is_err());
}

#[test]
fn the_destination_is_mandatory() {
    let why = |text: &str| read_payment_args(&json(text)).unwrap_err().to_string();
    assert_eq!(
        why(r#"{"amount_msat": 5}"#),
        "failed to get mandatory field destination: failed to read field as str"
    );
    assert_eq!(
        why(r#"{"amount_msat": 5, "destination": "02f"}"#),
        "failed to get mandatory field destination: failed converting string to hex: \
         Odd number of digits"
    );
    assert_eq!(
        payment_args(Some(5), Err(Error::other("x")))
            .unwrap_err()
            .to_string(),
        "failed to get mandatory field destination: x"
    );
}

#[test]
fn ten_destinations_are_probed_unless_told_otherwise() {
    let a = read_network_args(&json(r#"{"amount_msat": 5}"#)).unwrap();
    assert_eq!((a.amount_msat, a.num_destinations), (5, 10));
    let a = read_network_args(&json(r#"{"amount_msat": 5, "num_destinations": 3}"#)).unwrap();
    assert_eq!((a.amount_msat, a.num_destinations), (5, 3));
    let a = read_network_args(&json(r#"{"amount_msat": 5, "num_destinations": "3"}"#)).unwrap();
    assert_eq!(a.num_destinations, 10);
    let a = network_args(Some(6), Some(0)).unwrap();
    assert_eq!((a.amount_msat, a.num_destinations), (6, 0));
}

#[test]
fn testinvoice_answers_with_an_invoice() {
    let text = json_testinvoice(&args(5000), well_known_key(), Currency::Signet, 1_700_000_000)
        .unwrap();
    let invoice: Bolt11Invoice = text.parse().unwrap();
    assert!(text.starts_with("lntbs50n1"));
    assert_eq!(invoice.amount_milli_satoshis(), Some(5000));
    assert_eq!(
        invoice.duration_since_epoch(),
        Duration::from_secs(1_700_000_000)
    );
    let hash: &[u8] = AsRef::<[u8]>::as_ref(invoice.payment_hash());
    assert_eq!(hash[..16], [0xaa; 16]);
    let hints = invoice.route_hints();
    assert_eq!(
        hints[0].0[0].src_node_id.serialize(),
        key(1).to_byte_array()
    );
    let again = json_testinvoice(&args(5000), well_known_key(), Currency::Signet, 1_700_000_000);
    assert_ne!(again.unwrap(), text);
}

#[test]
fn testinvoice_says_why_it_fails() {
    let why = |args: &Value| {
        json_testinvoice(args, well_known_key(), Currency::Bitcoin, 1)
            .unwrap_err()
            .to_string()
    };
    assert_eq!(why(&json("{}")), "Missing mandatory field amount_msat");
    assert_eq!(
        why(&args(u64::MAX)),
        "failed to create invoice: The supplied millisatoshi amount was greater than the \
         total bitcoin supply"
    );
    assert_eq!(
        invoice_of(Err(Error::other("x")), Currency::Bitcoin, 1)
            .unwrap_err()
            .to_string(),
        "failed to create test_payment: x"
    );
}

#[test]
fn invoice_of_a_payment_is_its_invoice() {
    let t = TestPayment::new(5, well_known_key(), key(1)).unwrap();
    assert_eq!(
        invoice_of(Ok(t), Currency::Regtest, 99).unwrap(),
        t.get_invoice(Currency::Regtest, 99).unwrap()
    );
}

#[test]
fn testpayment_makes_a_payment() {
    let t = json_testpayment(&args(5000), well_known_key()).unwrap();
    assert_eq!(t.amount_msat, 5000);
    assert_eq!(t.prev_destination().to_hex(), KEY);
    assert_eq!(t.fake_destination_priv.to_byte_array(), [0xaa; 32]);
    assert_eq!(t.payment_hash[..16], [0xaa; 16]);
    assert_eq!(
        json_testpayment(&json("[]"), well_known_key())
            .unwrap_err()
            .to_string(),
        "Missing mandatory field amount_msat"
    );
}

#[test]
fn a_destination_without_a_payment_has_an_outcome() {
    let t = network_payment(5, well_known_key(), key(2)).unwrap();
    assert_eq!(t.amount_msat, 5);
    assert_eq!(t.payment_hash[..16], [0xaa; 16]);
    assert_eq!(t.prev_destination().to_hex(), key(2).to_hex());
    assert_eq!(
        payment_or_outcome(Ok(t), 6, key(3)).unwrap().payment_hash,
        t.payment_hash
    );
    let r = payment_or_outcome(Err(Error::other("x")), 6, key(3)).unwrap_err();
    assert_eq!(r.payment_hash, [0; 32]);
    assert_eq!(r.destination.to_hex(), key(3).to_hex());
    assert_eq!(r.amount.msat, 6);
    assert_eq!(r.routes.len(), 0);
    assert_eq!(r.status, ProbeStatus::Failed);
    assert_eq!(
        r.message,
        Some("failed to create a test payment: x".to_string())
    );
}

#[test]
fn destinations_are_picked_without_repetition() {
    let nodes: Vec<PublicKey> = (1..21).map(key).collect();
    let names: Vec<String> = nodes.iter().map(|k| k.to_hex()).collect();
    let mut rng = StdRng::seed_from_u64(1);
    for n in [0u64, 1, 7, 19, 20, 21, 1000] {
        let picked = pick_destinations(&mut rng, &nodes, n);
        assert_eq!(picked.len() as u64, n.min(20));
        let mut seen: Vec<String> = picked.iter().map(|k| k.to_hex()).collect();
        assert!(seen.iter().all(|k| names.contains(k)));
        seen.sort();
        seen.dedup();
        assert_eq!(seen.len(), picked.len());
    }
    let mut first = Vec::new();
    for seed in 0..20 {
        let mut rng = StdRng::seed_from_u64(seed);
        first.push(pick_destinations(&mut rng, &nodes, 1)[0].to_hex());
    }
    first.sort();
    first.dedup();
    assert!(first.len() > 1);
}
