use lightning_invoice::Bolt11Invoice;
use lnradar::primitives::{well_known_key, PublicKey, SecretKey, ShortChannelId};
use lnradar::testpayment::{Currency, TestPayment, MARKER_BYTE, MARKER_LEN};
use std::time::Duration;

fn destination() -> PublicKey {
    let mut seven = [0u8; 32];
    seven[31] = 7;
    PublicKey::from_secret_key(&SecretKey::from_byte_array(seven).unwrap())
}

/// The payment hash that is made of a draw of 0x22.
fn marked() -> [u8; 32] {
    let mut hash = [0x22; 32];
    hash[..16].copy_from_slice(&[0xaa; 16]);
    hash
}

fn payment(amount_msat: u64) -> TestPayment {
    TestPayment::from_draws(
        amount_msat,
        well_known_key(),
        destination(),
        Ok([0x11; 32]),
        Ok([0x22; 32]),
    )
    .unwrap()
}

#[test]
fn payment_goes_to_a_key_behind_the_destination() {
    let t = payment(5000);
    assert_eq!(t.amount_msat, 5000);
    assert_eq!(t.payment_secret, [0x11; 32]);
    assert_eq!(t.payment_hash, marked());
    assert_eq!(t.min_final_cltv_expiry, 18);
    assert_eq!(t.fake_destination_priv.to_byte_array(), [0xaa; 32]);
    assert_eq!(
        t.fake_destination_pubkey.to_hex(),
        "026a04ab98d9e4774ad806e302dddeb63bea16b5cb5f223ee77478e861bb583eb3"
    );
    assert_eq!(t.prev_destination().to_hex(), destination().to_hex());
    assert_eq!(t.route_hint.short_channel_id, (1 << 40) | (1 << 16) | 1);
    assert_eq!(t.route_hint.cltv_expiry_delta, 144);
    assert_eq!(t.route_hint.htlc_minimum_msat, None);
    assert_eq!(t.route_hint.htlc_maximum_msat, None);
}

#[test]
fn payment_needs_both_draws() {
    let key = well_known_key();
    let e = TestPayment::from_draws(1, key, destination(), Err("dry".to_string()), Ok([0; 32]));
    assert_eq!(
        e.unwrap_err().to_string(),
        "failed creating payment_secret: dry"
    );
    let e = TestPayment::from_draws(1, key, destination(), Ok([0; 32]), Err("dry".to_string()));
    assert_eq!(
        e.unwrap_err().to_string(),
        "failed creating payment_hash: dry"
    );
    let e = TestPayment::from_draws(
        1,
        key,
        destination(),
        Err("one".to_string()),
        Err("two".to_string()),
    );
    assert_eq!(
        e.unwrap_err().to_string(),
        "failed creating payment_secret: one"
    );
}

#[test]
fn new_payments_are_random() {
    let a = TestPayment::new(9, well_known_key(), destination()).unwrap();
    let b = TestPayment::new(9, well_known_key(), destination()).unwrap();
    assert_eq!(a.amount_msat, 9);
    assert_ne!(a.payment_secret, b.payment_secret);
    assert_ne!(a.payment_hash, b.payment_hash);
    assert_ne!(a.payment_hash, a.payment_secret);
    assert_ne!(a.payment_hash[16..], [0; 16]);
}

#[test]
fn made_payment_is_free_to_forward() {
    let t = payment(123456);
    assert_eq!(t.prev_amount_msat(), 123456);
    assert_eq!(t.prev_delay(), 162);
    assert_eq!(payment(u64::MAX).prev_amount_msat(), u64::MAX);
}

#[test]
fn fees_of_the_hint_are_added() {
    let mut t = payment(2_000_000);
    t.route_hint.fees.base_msat = 1000;
    t.route_hint.fees.proportional_millionths = 150;
    assert_eq!(t.prev_amount_msat(), 2_000_000 + 1000 + 300);
    t.amount_msat = 6666;
    assert_eq!(t.prev_amount_msat(), 6666 + 1000);
}

#[test]
fn last_hop_leads_to_the_key_behind() {
    let t = payment(777);
    let hop = t.final_hop();
    assert_eq!(hop.amount_msat.msat, 777);
    assert_eq!(hop.delay, 18);
    assert_eq!(hop.channel, ShortChannelId(0x100_0001_0001));
    assert_eq!(
        hop.id.to_byte_array(),
        t.fake_destination_pubkey.to_byte_array()
    );
}

#[test]
fn invoice_says_what_the_payment_is() {
    let t = payment(5000);
    let text = t.get_invoice(Currency::Regtest, 1_700_000_000).unwrap();
    assert!(text.starts_with("lnbcrt50n1"));
    let invoice: Bolt11Invoice = text.parse().unwrap();
    assert_eq!(invoice.amount_milli_satoshis(), Some(5000));
    assert_eq!(invoice.payment_secret().0, [0x11; 32]);
    assert_eq!(AsRef::<[u8]>::as_ref(invoice.payment_hash()), marked());
    assert_eq!(
        invoice.duration_since_epoch(),
        Duration::from_secs(1_700_000_000)
    );
    assert_eq!(invoice.min_final_cltv_expiry_delta(), 18);
    assert_eq!(format!("{}", invoice.description()), "Test invoice");
    assert_eq!(
        invoice.recover_payee_pub_key().serialize(),
        t.fake_destination_pubkey.to_byte_array()
    );
    let hints = invoice.route_hints();
    assert_eq!(hints.len(), 1);
    assert_eq!(hints[0].0.len(), 1);
    let hop = &hints[0].0[0];
    assert_eq!(hop.src_node_id.serialize(), destination().to_byte_array());
    assert_eq!(hop.short_channel_id, 0x100_0001_0001);
    assert_eq!(hop.fees.base_msat, 0);
    assert_eq!(hop.fees.proportional_millionths, 0);
    assert_eq!(hop.cltv_expiry_delta, 144);
}

#[test]
fn invoice_depends_on_its_contents_alone() {
    let t = payment(5000);
    let a = t.get_invoice(Currency::Bitcoin, 1_700_000_000).unwrap();
    let b = t.get_invoice(Currency::Bitcoin, 1_700_000_000).unwrap();
    let c = t.get_invoice(Currency::Bitcoin, 1_700_000_001).unwrap();
    assert_eq!(a, b);
    assert_ne!(a, c);
}

#[test]
fn invoice_has_the_sign_of_the_currency() {
    let t = payment(5000);
    for (currency, start) in [
        (Currency::Bitcoin, "lnbc50n1"),
        (Currency::BitcoinTestnet, "lntb50n1"),
        (Currency::Regtest, "lnbcrt50n1"),
        (Currency::Simnet, "lnsb50n1"),
        (Currency::Signet, "lntbs50n1"),
    ] {
        assert!(t.get_invoice(currency, 0).unwrap().starts_with(start));
    }
}

#[test]
fn invoice_is_refused_for_too_large_an_amount() {
    let largest = u64::MAX / 10;
    assert!(payment(largest).get_invoice(Currency::Bitcoin, 1).is_ok());
    let e = payment(largest + 1)
        .get_invoice(Currency::Bitcoin, 1)
        .unwrap_err();
    assert_eq!(
        e.to_string(),
        "The supplied millisatoshi amount was greater than the total bitcoin supply"
    );
    assert!(payment(0)
        .get_invoice(Currency::Bitcoin, 0x7_ffff_ffff)
        .is_ok());
}

#[test]
fn networks_have_currencies() {
    for (name, currency) in [
        ("bitcoin", Currency::Bitcoin),
        ("testnet", Currency::BitcoinTestnet),
        ("signet", Currency::Signet),
        ("regtest", Currency::Regtest),
    ] {
        assert_eq!(Currency::from_network(name).unwrap(), currency);
    }
    let e = Currency::from_network("simnet").unwrap_err();
    assert_eq!(e.to_string(), "failed to parse simnet as network");
    assert!(Currency::from_network("").is_err());
}

#[test]
fn test_payments_are_recognized_by_their_hash() {
    assert_eq!(MARKER_BYTE, 0xaa);
    assert_eq!(MARKER_LEN, 16);
    for _ in 0..3 {
        let t = TestPayment::new(9, well_known_key(), destination()).unwrap();
        assert_eq!(t.payment_hash[..16], [0xaa; 16]);
    }
    let mut drawn = [0u8; 32];
    for i in 0..32 {
        drawn[i] = i as u8;
    }
    let t = TestPayment::from_draws(1, well_known_key(), destination(), Ok(drawn), Ok(drawn));
    let t = t.unwrap();
    assert_eq!(t.payment_secret, drawn);
    assert_eq!(t.payment_hash[..16], [0xaa; 16]);
    assert_eq!(t.payment_hash[16..], drawn[16..]);
}
