use lnradar::primitives::{
    Amount, PublicKey, SecretKey, ShortChannelId, ShortChannelIdDir,
};
use lnradar::routes::{convert_routes, GetroutesRoutes, GetroutesRoutesPath};

fn key(n: u8) -> PublicKey {
    let mut bytes = [0u8; 32];
    bytes[31] = n;
    PublicKey::from_secret_key(&SecretKey::from_byte_array(bytes).unwrap())
}

fn hop(n: u8, amount: u64, delay: u32) -> GetroutesRoutesPath {
    GetroutesRoutesPath {
        short_channel_id_dir: Some(ShortChannelIdDir {
            short_channel_id: ShortChannelId(n as u64),
            direction: n as u32 % 2,
        }),
        amount_msat: Amount::from_msat(amount),
        delay,
        next_node_id: key(n),
    }
}

fn route() -> GetroutesRoutes {
    GetroutesRoutes {
        final_cltv: Some(162),
        amount_msat: Amount::from_msat(1000),
        path: vec![hop(1, 1020, 200), hop(2, 1010, 190), hop(3, 1005, 180)],
        rendering: "R".to_string(),
    }
}

#[test]
fn amounts_and_delays_are_shifted() {
    let (sendpay, path) = convert_routes(&route()).unwrap();
    let amounts: Vec<u64> = sendpay.iter().map(|h| h.amount_msat.msat).collect();
    let delays: Vec<u32> = sendpay.iter().map(|h| h.delay).collect();
    assert_eq!(amounts, vec![1010, 1005, 1000]);
    assert_eq!(delays, vec![190, 180, 162]);
    for i in 0..3 {
        assert_eq!(sendpay[i].channel, ShortChannelId(i as u64 + 1));
        assert_eq!(sendpay[i].id.to_hex(), key(i as u8 + 1).to_hex());
        assert_eq!(
            path[i].short_channel_id_dir.short_channel_id,
            sendpay[i].channel
        );
        assert_eq!(
            path[i].short_channel_id_dir.direction,
            (i as u32 + 1) % 2
        );
        assert_eq!(path[i].amount, sendpay[i].amount_msat);
        assert_eq!(path[i].next_nodeid.to_hex(), sendpay[i].id.to_hex());
    }
}

#[test]
fn a_single_hop_passes_what_arrives() {
    let mut r = route();
    r.path.truncate(1);
    let (sendpay, path) = convert_routes(&r).unwrap();
    assert_eq!(sendpay.len(), 1);
    assert_eq!(sendpay[0].amount_msat.msat, 1000);
    assert_eq!(sendpay[0].delay, 162);
    assert_eq!(path[0].amount.msat, 1000);
}

#[test]
fn a_hop_without_a_channel_is_refused() {
    let mut r = route();
    r.path[1].short_channel_id_dir = None;
    assert_eq!(
        convert_routes(&r).unwrap_err().to_string(),
        "hop in R is missing a short_channel_id_dir"
    );
    r.final_cltv = None;
    assert_eq!(
        convert_routes(&r).unwrap_err().to_string(),
        "hop in R is missing a short_channel_id_dir"
    );
}

#[test]
fn a_route_without_a_final_delay_is_refused() {
    let mut r = route();
    r.final_cltv = None;
    assert_eq!(
        convert_routes(&r).unwrap_err().to_string(),
        "routes R is missing the final_cltv"
    );
}
