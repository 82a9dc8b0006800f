//! Routes, from what the node answers to what it is told to pay along.

use crate::error::{Error, ErrorModel};
use crate::primitives::{Amount, PublicKey, ShortChannelIdDir};
use crate::results::RouteHop;
use crate::testpayment::SendpayRoute;
use crate::text::join;
use vstd::prelude::*;

verus! {

/// One hop of a route that the node found: the channel, the node at its end, and what
/// the channel takes in.
#[derive(Debug, Clone, Copy)]
pub struct GetroutesRoutesPath {
    pub short_channel_id_dir: Option<ShortChannelIdDir>,
    pub amount_msat: Amount,
    pub delay: u32,
    pub next_node_id: PublicKey,
}

/// A route that the node found: its hops, and what arrives at the end. `rendering` is
/// how the route is quoted in messages.
#[derive(Debug)]
pub struct GetroutesRoutes {
    pub final_cltv: Option<u32>,
    pub amount_msat: Amount,
    pub path: Vec<GetroutesRoutesPath>,
    pub rendering: String,
}

/// A [`GetroutesRoutes`] as mathematics sees it.
pub struct FoundRoute {
    pub final_cltv: Option<u32>,
    pub amount_msat: Amount,
    pub path: Seq<GetroutesRoutesPath>,
    pub rendering: Seq<char>,
}

impl View for GetroutesRoutes {
    type V = FoundRoute;

    open spec fn view(&self) -> FoundRoute {
        FoundRoute {
            final_cltv: self.final_cltv,
            amount_msat: self.amount_msat,
            path: self.path@,
            rendering: self.rendering@,
        }
    }
}

impl FoundRoute {
    /// Every hop tells its channel.
    pub open spec fn has_channels(self) -> bool {
        forall|i: int|
            0 <= i < self.path.len() ==> #[trigger] self.path[i].short_channel_id_dir is Some
    }

    /// What leaves hop `i`: what the next hop takes in, or what arrives at the end.
    pub open spec fn amount_out(self, i: int) -> Amount {
        if i + 1 < self.path.len() {
            self.path[i + 1].amount_msat
        } else {
            self.amount_msat
        }
    }

    /// The delay of what leaves hop `i`.
    pub open spec fn delay_out(self, i: int) -> u32 {
        if i + 1 < self.path.len() {
            self.path[i + 1].delay
        } else {
            self.final_cltv->0
        }
    }

    /// The hops that the node is told to pay along.
    pub open spec fn sendpay_hops(self) -> Seq<SendpayRoute> {
        Seq::new(
            self.path.len(),
            |i: int|
                SendpayRoute {
                    amount_msat: self.amount_out(i),
                    delay: self.delay_out(i),
                    channel: self.path[i].short_channel_id_dir->0.short_channel_id,
                    id: self.path[i].next_node_id,
                },
        )
    }

    /// The hops that a probe along the route is said to have taken.
    pub open spec fn route_hops(self) -> Seq<RouteHop> {
        Seq::new(
            self.path.len(),
            |i: int|
                RouteHop {
                    short_channel_id_dir: self.path[i].short_channel_id_dir->0,
                    next_nodeid: self.path[i].next_node_id,
                    amount: self.amount_out(i),
                },
        )
    }

    /// Why the route cannot be used, if it cannot.
    pub open spec fn defect(self) -> Option<Seq<char>> {
        if !self.has_channels() {
            Some("hop in "@ + self.rendering + " is missing a short_channel_id_dir"@)
        } else if self.final_cltv is None {
            Some("routes "@ + self.rendering + " is missing the final_cltv"@)
        } else {
            None
        }
    }
}

/// Puts `subject` between `head` and `tail`.
fn quote(head: &str, subject: &str, tail: &str) -> (r: Error)
    ensures
        r@ == ErrorModel::Other(head@ + subject@ + tail@),
{
    Error::Other(join(join(head, subject).as_str(), tail))
}

/// Turns a route that the node found into the hops that it is told to pay along, and
/// into the hops that the probe will have taken. A hop that the node found tells what
/// the channel takes in, while both of these tell what leaves it.
pub fn convert_routes(r: &GetroutesRoutes) -> (res: Result<
    (Vec<SendpayRoute>, Vec<RouteHop>),
    Error,
>)
    requires
        r@.path.len() > 0,
    ensures
        match res {
            Ok((sendpay_route, path)) => {
                &&& r@.defect() is None
                &&& sendpay_route@ == r@.sendpay_hops()
                &&& path@ == r@.route_hops()
            },
            Err(e) => r@.defect() matches Some(why) && e@ == ErrorModel::Other(why),
        },
{
    let n = r.path.len();
    let mut channels: Vec<ShortChannelIdDir> = Vec::new();
    for i in 0..n
        invariant
            n == r.path.len(),
            channels.len() == i,
            forall|j: int|
                0 <= j < i ==> r.path[j].short_channel_id_dir == Some(#[trigger] channels[j]),
    {
        match r.path[i].short_channel_id_dir {
            Some(channel) => channels.push(channel),
            None => {
                assert(!r@.has_channels()) by {
                    assert(r@.path[i as int].short_channel_id_dir is None);
                }
                return Err(
                    quote("hop in ", r.rendering.as_str(), " is missing a short_channel_id_dir"),
                );
            },
        }
    }
    proof {
        assert forall|j: int| 0 <= j < r@.path.len() implies #[trigger] r@.path[j].short_channel_id_dir is Some by {
            assert(r.path[j].short_channel_id_dir == Some(channels[j]));
        }
    }
    let final_cltv = match r.final_cltv {
        Some(final_cltv) => final_cltv,
        None => {
            return Err(quote("routes ", r.rendering.as_str(), " is missing the final_cltv"));
        },
    };
    let mut sendpay_route: Vec<SendpayRoute> = Vec::new();
    let mut path: Vec<RouteHop> = Vec::new();
    for i in 0..n
        invariant
            n == r.path.len(),
            n == channels.len(),
            r.final_cltv == Some(final_cltv),
            forall|j: int|
                0 <= j < n ==> r.path[j].short_channel_id_dir == Some(#[trigger] channels[j]),
            sendpay_route@ == r@.sendpay_hops().take(i as int),
            path@ == r@.route_hops().take(i as int),
    {
        // A hop that was found tells what goes in, so what goes out stands one further.
        let (amount, delay) = if i + 1 < n {
            (r.path[i + 1].amount_msat, r.path[i + 1].delay)
        } else {
            (r.amount_msat, final_cltv)
        };
        sendpay_route.push(
            SendpayRoute {
                amount_msat: amount,
                delay,
                channel: channels[i].short_channel_id,
                id: r.path[i].next_node_id,
            },
        );
        path.push(
            RouteHop {
                short_channel_id_dir: channels[i],
                next_nodeid: r.path[i].next_node_id,
                amount,
            },
        );
        proof {
            assert(sendpay_route@ =~= r@.sendpay_hops().take(i + 1));
            assert(path@ =~= r@.route_hops().take(i + 1));
        }
    }
    proof {
        assert(sendpay_route@ =~= r@.sendpay_hops());
        assert(path@ =~= r@.route_hops());
    }
    Ok((sendpay_route, path))
}

/// The hops that the node is told to pay along and those that the probe is said to have
/// taken are the same: hop for hop they have the same channel, the same node at its end
/// and the same amount.
pub proof fn hops_agree(r: FoundRoute, i: int)
    requires
        0 <= i < r.path.len(),
    ensures
        r.sendpay_hops().len() == r.route_hops().len() == r.path.len(),
        r.sendpay_hops()[i].channel
            == r.route_hops()[i].short_channel_id_dir.short_channel_id,
        r.sendpay_hops()[i].id == r.route_hops()[i].next_nodeid,
        r.sendpay_hops()[i].amount_msat == r.route_hops()[i].amount,
{
}

/// What leaves one hop is what the next takes in, and what leaves the last is what
/// arrives, with the delay that is asked for at the end.
pub proof fn amounts_are_passed_on(r: FoundRoute, i: int)
    requires
        0 <= i < r.path.len(),
        r.defect() is None,
    ensures
        i + 1 < r.path.len() ==> {
            &&& r.sendpay_hops()[i].amount_msat == r.path[i + 1].amount_msat
            &&& r.sendpay_hops()[i].delay == r.path[i + 1].delay
        },
        i + 1 == r.path.len() ==> {
            &&& r.sendpay_hops()[i].amount_msat == r.amount_msat
            &&& r.final_cltv == Some(r.sendpay_hops()[i].delay)
        },
{
}

/// Hop for hop, a route that is converted has the channel, the direction and the next node
/// of the route that was found, in what is paid and in what is reported. Its amounts and
/// delays are those that the next hop takes in, and at the last hop those that arrive.
pub proof fn converted_route_is_the_found_one(
    r: GetroutesRoutes,
    sendpay_route: Vec<SendpayRoute>,
    path: Vec<RouteHop>,
    i: int,
)
    requires
        call_ensures(convert_routes, (&r,), Ok((sendpay_route, path))),
        0 <= i < r.path.len(),
    ensures
        sendpay_route.len() == r.path.len(),
        path.len() == r.path.len(),
        r.path@[i].short_channel_id_dir == Some(path@[i].short_channel_id_dir),
        path@[i].next_nodeid == r.path@[i].next_node_id,
        r.path@[i].short_channel_id_dir matches Some(c) && sendpay_route@[i].channel
            == c.short_channel_id,
        sendpay_route@[i].id == r.path@[i].next_node_id,
        sendpay_route@[i].amount_msat == path@[i].amount,
        i + 1 < r.path.len() ==> {
            &&& sendpay_route@[i].amount_msat == r.path@[i + 1].amount_msat
            &&& sendpay_route@[i].delay == r.path@[i + 1].delay
        },
        i + 1 == r.path.len() ==> {
            &&& sendpay_route@[i].amount_msat == r.amount_msat
            &&& r.final_cltv == Some(sendpay_route@[i].delay)
        },
{
    assert(r@.path[i].short_channel_id_dir is Some);
}

/// A route is converted if and only if every hop tells its channel and the delay at the end
/// is told. If not, the message quotes the route and says what is missing, the channel of a
/// hop before the delay.
pub proof fn complete_routes_are_converted(
    r: GetroutesRoutes,
    res: Result<(Vec<SendpayRoute>, Vec<RouteHop>), Error>,
)
    requires
        call_ensures(convert_routes, (&r,), res),
    ensures
        ({
            let channels_told = forall|i: int|
                0 <= i < r.path.len() ==> (#[trigger] r.path@[i]).short_channel_id_dir is Some;
            &&& res is Ok <==> channels_told && r.final_cltv is Some
            &&& !channels_told ==> (res matches Err(Error::Other(e)) && e@ == "hop in "@
                + r.rendering@ + " is missing a short_channel_id_dir"@)
            &&& channels_told && r.final_cltv is None ==> (res matches Err(Error::Other(e)) && e@
                == "routes "@ + r.rendering@ + " is missing the final_cltv"@)
        }),
{
    if forall|i: int|
        0 <= i < r.path.len() ==> (#[trigger] r.path@[i]).short_channel_id_dir is Some {
        assert forall|i: int| 0 <= i < r@.path.len() implies #[trigger] r@.path[i].short_channel_id_dir is Some by {
            assert(r.path@[i].short_channel_id_dir is Some);
        }
        assert(r@.has_channels());
    } else {
        let i = choose|i: int|
            0 <= i < r.path.len() && !((#[trigger] r.path@[i]).short_channel_id_dir is Some);
        assert(!(r@.path[i].short_channel_id_dir is Some));
        assert(!r@.has_channels());
    }
}

} // verus!
