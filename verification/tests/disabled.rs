use lnradar::disabled::{
    disable_channel, reenable_channel, AgeAction, AgeDisabled, AgeEvent, DisabledChannel,
    DisabledChannels, Moment,
};
use lnradar::primitives::{ShortChannelId, ShortChannelIdDir};

fn channel(n: u64) -> ShortChannelIdDir {
    ShortChannelIdDir {
        short_channel_id: ShortChannelId(n),
        direction: 0,
    }
}

fn at(secs: i64, nanos: u32) -> Moment {
    Moment { secs, nanos }
}

fn queue(entries: &[(u64, i64)]) -> DisabledChannels {
    let mut q = DisabledChannels::new();
    for (n, secs) in entries {
        let request = disable_channel(&mut q, channel(*n), at(*secs, 0), "layer");
        assert_eq!(request.layer, "layer");
        assert_eq!(request.short_channel_id_dir, channel(*n));
        assert_eq!(request.enabled, Some(false));
        assert_eq!(request.cltv_expiry_delta, None);
        assert_eq!(request.fee_base_msat, None);
        assert_eq!(request.fee_proportional_millionths, None);
        assert_eq!(request.htlc_minimum_msat, None);
        assert_eq!(request.htlc_maximum_msat, None);
    }
    q
}

#[test]
fn channels_come_out_oldest_first() {
    let mut q = queue(&[(1, 30), (2, 10), (3, 20), (4, 40), (5, 5)]);
    assert_eq!(q.len(), 5);
    let mut order = Vec::new();
    while let Some(c) = q.pop() {
        order.push(c.scidd.short_channel_id.0);
    }
    assert_eq!(order, vec![5, 2, 3, 1, 4]);
    assert_eq!(q.len(), 0);
    assert!(q.peek().is_none());
    assert!(q.pop().is_none());
}

#[test]
fn nanoseconds_count() {
    let mut q = DisabledChannels::new();
    q.push(DisabledChannel {
        scidd: channel(1),
        time: at(7, 2),
    });
    q.push(DisabledChannel {
        scidd: channel(2),
        time: at(7, 1),
    });
    assert_eq!(q.peek().unwrap().scidd, channel(2));
    assert!(at(7, 2).after(&at(7, 1)));
    assert!(!at(7, 1).after(&at(7, 1)));
    assert!(at(8, 0).after(&at(7, 9)));
    assert!(!at(-1, 9).after(&at(0, 0)));
}

#[test]
fn cutoff_lies_before_now() {
    let round = AgeDisabled::start(at(100_000, 5), 86400).unwrap();
    assert_eq!(round.cutoff, at(13_600, 5));
    assert_eq!(round.reenabled, 0);
    let e = AgeDisabled::start(at(i64::MIN + 3, 0), 4).unwrap_err();
    assert_eq!(e.to_string(), "cutoff goes out of bounds");
    assert!(AgeDisabled::start(at(i64::MIN + 4, 0), 4).is_ok());
    assert!(AgeDisabled::start(at(0, 0), u64::MAX).is_err());
}

#[test]
fn round_reenables_the_old() {
    let mut q = queue(&[(1, 30), (2, 10), (3, 20), (4, 21)]);
    let mut round = AgeDisabled {
        cutoff: at(20, 0),
        reenabled: 0,
    };
    let mut seen = Vec::new();
    let mut event = AgeEvent::Begun;
    let n = loop {
        match round.step(&mut q, "layer", event) {
            AgeAction::Reenable(request) => {
                assert_eq!(request.layer, "layer");
                assert_eq!(request.enabled, Some(true));
                seen.push(request.short_channel_id_dir.short_channel_id.0);
                event = AgeEvent::Reenabled;
            }
            AgeAction::Finish(n) => break n,
        }
    };
    assert_eq!(n, 2);
    assert_eq!(seen, vec![2, 3]);
    assert_eq!(q.len(), 2);
    assert_eq!(q.peek().unwrap().scidd, channel(4));
}

#[test]
fn round_ends_at_a_refusal() {
    let mut q = queue(&[(1, 1), (2, 2), (3, 3)]);
    let mut round = AgeDisabled {
        cutoff: at(20, 0),
        reenabled: 0,
    };
    assert!(matches!(
        round.step(&mut q, "l", AgeEvent::Begun),
        AgeAction::Reenable(_)
    ));
    assert!(matches!(
        round.step(&mut q, "l", AgeEvent::Reenabled),
        AgeAction::Reenable(_)
    ));
    assert!(matches!(
        round.step(&mut q, "l", AgeEvent::Refused),
        AgeAction::Finish(1)
    ));
    assert_eq!(q.len(), 2);
    assert_eq!(q.peek().unwrap().scidd, channel(2));
}

#[test]
fn an_empty_round_is_over_at_once() {
    let mut q = DisabledChannels::new();
    let mut round = AgeDisabled {
        cutoff: at(20, 0),
        reenabled: 0,
    };
    assert!(matches!(
        round.step(&mut q, "l", AgeEvent::Begun),
        AgeAction::Finish(0)
    ));
}

#[test]
fn a_channel_is_switched_on_again() {
    let request = reenable_channel(channel(9), "layer");
    assert_eq!(request.layer, "layer");
    assert_eq!(request.short_channel_id_dir, channel(9));
    assert_eq!(request.enabled, Some(true));
    assert_eq!(request.cltv_expiry_delta, None);
}
