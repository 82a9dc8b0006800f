//! Sending one probe.

use crate::error::{Error, ErrorModel};
use crate::json;
use crate::layers::LNRADAR_LAYER;
use crate::primitives::{Amount, PublicKey, SecretKey};
use crate::requests::{GetroutesRequest, SendpayRequest, WaitsendpayRequest};
use crate::results::{AttemptModel, ErrorCode, ProbeAttempt, Route, RouteHop, RouteModel};
use crate::routes::{convert_routes, FoundRoute, GetroutesRoutes};
use crate::testpayment::{SendpayRoute, TestPayment};
use crate::text;
use crate::text::{decimal_text, join};
use serde_json::Value;
use vstd::prelude::*;

verus! {

/// What the node says of a payment that failed: in words, and in numbers.
#[derive(Debug)]
pub struct PaymentFailure {
    pub text: String,
    pub data: Option<Value>,
}

/// The time, in seconds, after which the node gives up waiting for a payment.
pub const WAITSENDPAY_TIMEOUT_SECS: u32 = 60;

/// The texts of a list.
pub open spec fn texts(list: Seq<String>) -> Seq<Seq<char>> {
    list.map_values(|s: String| s@)
}

/// The layers that a probe looks for routes with: those of the node, what other payments
/// learned, and what probes learned.
pub open spec fn route_layers() -> Seq<Seq<char>> {
    seq![
        "auto.no_mpp_support"@,
        "auto.localchans"@,
        "auto.sourcefree"@,
        "xpay"@,
        "lnradar"@,
    ]
}

impl GetroutesRequest {
    /// The request asks for one route that brings `payment` from `source` to its real
    /// destination, for a fee of at most the amount.
    pub open spec fn asks(self, payment: TestPayment, source: PublicKey) -> bool {
        &&& self.source == source
        &&& self.destination == payment.route_hint.src_node_id
        &&& self.amount_msat.msat == payment.spec_prev_amount()
        &&& texts(self.layers@) == route_layers()
        &&& self.maxfee_msat.msat == payment.spec_prev_amount()
        &&& self.maxdelay is None
        &&& self.maxparts == Some(1u32)
        &&& self.final_cltv == Some(payment.spec_prev_delay() as u32)
    }
}

impl SendpayRequest {
    /// The request sends `payment` along `hops` to its real destination, and one hop
    /// further.
    pub open spec fn pays(
        self,
        payment: TestPayment,
        groupid: u64,
        hops: Seq<SendpayRoute>,
    ) -> bool {
        &&& self.payment_hash == payment.payment_hash
        &&& self.payment_secret == Some(payment.payment_secret)
        &&& self.route@ == hops.push(payment.spec_final_hop())
        &&& self.amount_msat == Some(Amount { msat: payment.amount_msat })
        &&& self.partid == Some(0u64)
        &&& self.groupid == Some(groupid)
    }
}

impl WaitsendpayRequest {
    /// The request waits for `payment`, in the attempt `groupid`.
    pub open spec fn waits(self, payment: TestPayment, groupid: u64) -> bool {
        &&& self.payment_hash == payment.payment_hash
        &&& self.partid == Some(0u64)
        &&& self.groupid == Some(groupid)
        &&& self.timeout == Some(WAITSENDPAY_TIMEOUT_SECS)
    }
}

fn layer_names() -> (r: Vec<String>)
    ensures
        texts(r@) == route_layers(),
{
    let mut layers: Vec<String> = Vec::new();
    layers.push("auto.no_mpp_support".to_string());
    layers.push("auto.localchans".to_string());
    layers.push("auto.sourcefree".to_string());
    layers.push("xpay".to_string());
    layers.push(LNRADAR_LAYER.to_string());
    assert(texts(layers@) =~= route_layers());
    layers
}

/// Having asked for the node's own key: the request for a route, or why there is none.
pub fn on_node_id(payment: &TestPayment, node_id: Result<PublicKey, String>) -> (r: Result<
    GetroutesRequest,
    Error,
>)
    requires
        payment.fits(),
    ensures
        match (node_id, r) {
            (Ok(source), Ok(request)) => request.asks(*payment, source),
            (Err(cause), Err(e)) => e@ == ErrorModel::Other(
                "Failed to call getinfo and the node id is needed: "@ + cause@,
            ),
            _ => false,
        },
{
    match node_id {
        Ok(source) => Ok(
            GetroutesRequest {
                source,
                destination: payment.prev_destination(),
                amount_msat: Amount::from_msat(payment.prev_amount_msat()),
                layers: layer_names(),
                maxfee_msat: Amount::from_msat(payment.prev_amount_msat()),
                maxdelay: None,
                maxparts: Some(1),
                final_cltv: Some(payment.prev_delay() as u32),
            },
        ),
        Err(cause) => Err(
            Error::caused(
                "Failed to call getinfo and the node id is needed: ",
                cause.as_str(),
            ),
        ),
    }
}

/// Why no probe can be sent along what the node answered, if none can.
pub open spec fn no_route(routes: Result<Seq<FoundRoute>, Seq<char>>) -> Option<ErrorModel> {
    match routes {
        Err(cause) => Some(ErrorModel::NoRoutes(cause)),
        Ok(found) => if found.len() != 1 {
            Some(
                ErrorModel::Other(
                    "Expecting getroutes to return exactly one route, got "@ + text::decimal(
                        found.len(),
                    ) + " instead."@,
                ),
            )
        } else {
            match found[0].defect() {
                Some(why) => Some(ErrorModel::Other("couldn't convert routes types: "@ + why)),
                None => None,
            }
        },
    }
}

/// What the node answered when it was asked for routes.
pub open spec fn answer(routes: Result<Vec<GetroutesRoutes>, String>) -> Result<
    Seq<FoundRoute>,
    Seq<char>,
> {
    match routes {
        Ok(found) => Ok(found@.map_values(|r: GetroutesRoutes| r@)),
        Err(cause) => Err(cause@),
    }
}

/// A route without hops is not an answer.
pub open spec fn has_hops(routes: Result<Vec<GetroutesRoutes>, String>) -> bool {
    routes matches Ok(found) ==> found.len() == 1 ==> found[0].path.len() > 0
}

/// Having asked for routes: the payment to be sent along the route, and the hops that it
/// takes to the real destination, or why no payment can be sent.
pub fn on_routes(
    payment: &TestPayment,
    groupid: u64,
    routes: Result<Vec<GetroutesRoutes>, String>,
) -> (r: Result<(SendpayRequest, Vec<RouteHop>), Error>)
    requires
        has_hops(routes),
    ensures
        match r {
            Ok((request, path)) => {
                &&& no_route(answer(routes)) is None
                &&& request.pays(*payment, groupid, answer(routes)->Ok_0[0].sendpay_hops())
                &&& path@ == answer(routes)->Ok_0[0].route_hops()
            },
            Err(e) => no_route(answer(routes)) == Some(e@),
        },
{
    let found = match routes {
        Ok(found) => found,
        Err(cause) => {
            return Err(Error::no_routes(cause.as_str()));
        },
    };
    if found.len() != 1 {
        let head = join(
            "Expecting getroutes to return exactly one route, got ",
            decimal_text(found.len() as u64).as_str(),
        );
        return Err(Error::Other(join(head.as_str(), " instead.")));
    }
    match convert_routes(&found[0]) {
        Ok((mut sendpay_route, path)) => {
            sendpay_route.push(payment.final_hop());
            let request = SendpayRequest {
                payment_hash: payment.payment_hash,
                payment_secret: Some(payment.payment_secret),
                route: sendpay_route,
                amount_msat: Some(Amount::from_msat(payment.amount_msat)),
                partid: Some(0),
                groupid: Some(groupid),
            };
            Ok((request, path))
        },
        Err(e) => Err(
            Error::caused("couldn't convert routes types: ", e.to_string().as_str()),
        ),
    }
}

/// Having sent the payment: the request to wait for its end, or why it was not sent.
pub fn on_sent(payment: &TestPayment, groupid: u64, sent: Result<(), String>) -> (r: Result<
    WaitsendpayRequest,
    Error,
>)
    ensures
        match (sent, r) {
            (Ok(_), Ok(request)) => request.waits(*payment, groupid),
            (Err(cause), Err(e)) => e@ == ErrorModel::Other("sendpay failed: "@ + cause@),
            _ => false,
        },
{
    match sent {
        Ok(_) => Ok(
            WaitsendpayRequest {
                payment_hash: payment.payment_hash,
                partid: Some(0),
                groupid: Some(groupid),
                timeout: Some(WAITSENDPAY_TIMEOUT_SECS),
            },
        ),
        Err(cause) => Err(Error::caused("sendpay failed: ", cause.as_str())),
    }
}

/// What the numbers of a failure say: why it happened and at which hop, or why they say
/// nothing. `text` is the failure in words.
pub open spec fn failure_of_codes(
    failcode: Option<u64>,
    erring_index: Option<u64>,
    text: Seq<char>,
) -> Result<(ErrorCode, nat), Seq<char>> {
    match (failcode, erring_index) {
        (None, _) => Err("can't read failcode from waitsendpay response"@),
        (_, None) => Err("can't read erring_index from waitsendpay response"@),
        (Some(code), Some(index)) => if index > usize::MAX {
            Err("failed to convert erring_index into usize"@)
        } else {
            match ErrorCode::of_code(code) {
                Some(e) => Ok((e, index as nat)),
                None => Err("Unrecognized error code from waitsendpay: "@ + text),
            }
        },
    }
}

/// The attempt to send `payment` along `path` that failed with `failure`.
pub open spec fn attempt_model(
    payment: TestPayment,
    path: Seq<RouteHop>,
    failure: (ErrorCode, nat),
) -> AttemptModel {
    AttemptModel {
        payment_hash: payment.payment_hash@,
        destination: payment.route_hint.src_node_id,
        amount: Amount { msat: payment.amount_msat },
        route: RouteModel { path, failcode: failure.0, erring_index: failure.1 },
    }
}

/// The attempt that failed with these numbers, or why they say nothing.
pub fn attempt_of_codes(
    payment: &TestPayment,
    path: Vec<RouteHop>,
    failcode: Option<u64>,
    erring_index: Option<u64>,
    text: &str,
) -> (r: Result<ProbeAttempt, Error>)
    ensures
        match (failure_of_codes(failcode, erring_index, text@), r) {
            (Ok(failure), Ok(attempt)) => attempt@ == attempt_model(*payment, path@, failure),
            (Err(why), Err(e)) => e@ == ErrorModel::Other(why),
            _ => false,
        },
{
    let raw_failcode = match failcode {
        Some(code) => code,
        None => {
            return Err(Error::other("can't read failcode from waitsendpay response"));
        },
    };
    let raw_index = match erring_index {
        Some(index) => index,
        None => {
            return Err(Error::other("can't read erring_index from waitsendpay response"));
        },
    };
    if raw_index > usize::MAX as u64 {
        return Err(Error::other("failed to convert erring_index into usize"));
    }
    let erring_index: usize = raw_index as usize;
    let failcode = match ErrorCode::from_u64(raw_failcode) {
        Some(e) => e,
        None => {
            return Err(Error::caused("Unrecognized error code from waitsendpay: ", text));
        },
    };
    Ok(
        ProbeAttempt {
            payment_hash: payment.payment_hash,
            destination: payment.prev_destination(),
            amount: Amount::from_msat(payment.amount_msat),
            route: Route { path, failcode, erring_index },
        },
    )
}

/// What a payment came to: why it failed and at which hop, or why that cannot be told. A
/// payment that succeeds cannot be a probe.
pub open spec fn failure_of(ended: Option<PaymentFailure>) -> Result<(ErrorCode, nat), Seq<char>> {
    match ended {
        None => Err("unexpected waitsendpay success"@),
        Some(failure) => match failure.data {
            None => Err("data is not present in waitsendpay error"@),
            Some(data) => failure_of_codes(
                json::json_as_u64(json::json_member(data, "failcode"@)),
                json::json_as_u64(json::json_member(data, "erring_index"@)),
                failure.text@,
            ),
        },
    }
}

/// Having waited for the end of the payment, which `path` brought to the real destination:
/// the attempt that it was, or why it says nothing.
pub fn on_ended(payment: &TestPayment, path: Vec<RouteHop>, ended: Option<PaymentFailure>) -> (r:
    Result<ProbeAttempt, Error>)
    ensures
        match (failure_of(ended), r) {
            (Ok(failure), Ok(attempt)) => attempt@ == attempt_model(*payment, path@, failure),
            (Err(why), Err(e)) => e@ == ErrorModel::Other(why),
            _ => false,
        },
{
    let failure = match ended {
        Some(failure) => failure,
        None => {
            return Err(Error::other("unexpected waitsendpay success"));
        },
    };
    match &failure.data {
        Some(data) => attempt_of_codes(
            payment,
            path,
            json::as_u64(json::member(data, "failcode")),
            json::as_u64(json::member(data, "erring_index")),
            failure.text.as_str(),
        ),
        None => Err(Error::other("data is not present in waitsendpay error")),
    }
}

/// A probe: the payment that is sent, and the number of the attempt.
#[derive(Debug, Clone, Copy)]
pub struct SendProbe {
    pub payment: TestPayment,
    pub groupid: u64,
}

/// How far a probe has come.
#[derive(Debug)]
pub enum ProbeStage {
    /// The node is being called.
    Connecting,
    /// The node is asked for its own key.
    AskingNodeId,
    /// The node is asked for a route.
    FindingRoutes,
    /// The payment is sent; it takes these hops to the real destination.
    Paying(Vec<RouteHop>),
    /// The end of the payment is waited for; it takes these hops to the real destination.
    Waiting(Vec<RouteHop>),
    /// The probe is over.
    Done,
}

/// What came of the last thing that was done for a probe.
#[derive(Debug)]
pub enum ProbeEvent {
    Connected(Result<(), String>),
    NodeId(Result<PublicKey, String>),
    Routes(Result<Vec<GetroutesRoutes>, String>),
    Sent(Result<(), String>),
    Ended(Option<PaymentFailure>),
}

/// What is to be done next for a probe.
#[derive(Debug)]
pub enum ProbeAction {
    GetInfo,
    GetRoutes(GetroutesRequest),
    SendPay(SendpayRequest),
    WaitSendPay(WaitsendpayRequest),
    Finish(Result<ProbeAttempt, Error>),
}

impl ProbeStage {
    /// At this stage `event` comes next.
    pub open spec fn awaits(self, event: ProbeEvent) -> bool {
        match (self, event) {
            (ProbeStage::Connecting, ProbeEvent::Connected(_)) => true,
            (ProbeStage::AskingNodeId, ProbeEvent::NodeId(_)) => true,
            (ProbeStage::FindingRoutes, ProbeEvent::Routes(routes)) => has_hops(routes),
            (ProbeStage::Paying(_), ProbeEvent::Sent(_)) => true,
            (ProbeStage::Waiting(_), ProbeEvent::Ended(_)) => true,
            _ => false,
        }
    }

    /// The number of events that lie behind a probe at this stage.
    pub open spec fn rank(self) -> nat {
        match self {
            ProbeStage::Connecting => 0,
            ProbeStage::AskingNodeId => 1,
            ProbeStage::FindingRoutes => 2,
            ProbeStage::Paying(_) => 3,
            ProbeStage::Waiting(_) => 4,
            ProbeStage::Done => 5,
        }
    }
}

/// The probe is over, and failed as `e` says.
pub open spec fn fails(stage: ProbeStage, action: ProbeAction, e: ErrorModel) -> bool {
    &&& stage is Done
    &&& action matches ProbeAction::Finish(Err(error)) && error@ == e
}

impl SendProbe {
    /// The only probe with `payment`.
    pub fn once(payment: TestPayment) -> (r: SendProbe)
        ensures
            r == (SendProbe { payment, groupid: 1 }),
    {
        SendProbe { payment, groupid: 1 }
    }

    /// At `stage`, `event` brings the probe to `next` and calls for `action`.
    pub open spec fn moves(
        self,
        stage: ProbeStage,
        event: ProbeEvent,
        next: ProbeStage,
        action: ProbeAction,
    ) -> bool {
        match (stage, event) {
            (ProbeStage::Connecting, ProbeEvent::Connected(Ok(_))) => next is AskingNodeId
                && action is GetInfo,
            (ProbeStage::Connecting, ProbeEvent::Connected(Err(cause))) => fails(
                next,
                action,
                ErrorModel::Other("failed to fetch an rpc channel from plugin "@ + cause@),
            ),
            (ProbeStage::AskingNodeId, ProbeEvent::NodeId(Ok(source))) => next is FindingRoutes && (
            action matches ProbeAction::GetRoutes(request) && request.asks(self.payment, source)),
            (ProbeStage::AskingNodeId, ProbeEvent::NodeId(Err(cause))) => fails(
                next,
                action,
                ErrorModel::Other("Failed to call getinfo and the node id is needed: "@ + cause@),
            ),
            (ProbeStage::FindingRoutes, ProbeEvent::Routes(routes)) => match no_route(
                answer(routes),
            ) {
                None => {
                    &&& next matches ProbeStage::Paying(path) && path@
                        == answer(routes)->Ok_0[0].route_hops()
                    &&& action matches ProbeAction::SendPay(request) && request.pays(
                        self.payment,
                        self.groupid,
                        answer(routes)->Ok_0[0].sendpay_hops(),
                    )
                },
                Some(e) => fails(next, action, e),
            },
            (ProbeStage::Paying(path), ProbeEvent::Sent(Ok(_))) => {
                &&& next == ProbeStage::Waiting(path)
                &&& action matches ProbeAction::WaitSendPay(request) && request.waits(
                    self.payment,
                    self.groupid,
                )
            },
            (ProbeStage::Paying(path), ProbeEvent::Sent(Err(cause))) => fails(
                next,
                action,
                ErrorModel::Other("sendpay failed: "@ + cause@),
            ),
            (ProbeStage::Waiting(path), ProbeEvent::Ended(ended)) => match failure_of(ended) {
                Ok(failure) => {
                    &&& next is Done
                    &&& action matches ProbeAction::Finish(Ok(attempt)) && attempt@
                        == attempt_model(self.payment, path@, failure)
                },
                Err(why) => fails(next, action, ErrorModel::Other(why)),
            },
            _ => false,
        }
    }

    /// Takes note of what came of the last thing that was done, and tells how far the
    /// probe has come and what is to be done next.
    pub fn step(&self, stage: ProbeStage, event: ProbeEvent) -> (r: (ProbeStage, ProbeAction))
        requires
            self.payment.fits(),
            stage.awaits(event),
        ensures
            self.moves(stage, event, r.0, r.1),
    {
        match (stage, event) {
            (ProbeStage::Connecting, ProbeEvent::Connected(connected)) => match connected {
                Ok(_) => (ProbeStage::AskingNodeId, ProbeAction::GetInfo),
                Err(cause) => {
                    let e = Error::caused(
                        "failed to fetch an rpc channel from plugin ",
                        cause.as_str(),
                    );
                    (ProbeStage::Done, ProbeAction::Finish(Err(e)))
                },
            },
            (ProbeStage::AskingNodeId, ProbeEvent::NodeId(node_id)) => match on_node_id(
                &self.payment,
                node_id,
            ) {
                Ok(request) => (ProbeStage::FindingRoutes, ProbeAction::GetRoutes(request)),
                Err(e) => (ProbeStage::Done, ProbeAction::Finish(Err(e))),
            },
            (ProbeStage::FindingRoutes, ProbeEvent::Routes(routes)) => match on_routes(
                &self.payment,
                self.groupid,
                routes,
            ) {
                Ok((request, path)) => (ProbeStage::Paying(path), ProbeAction::SendPay(request)),
                Err(e) => (ProbeStage::Done, ProbeAction::Finish(Err(e))),
            },
            (ProbeStage::Paying(path), ProbeEvent::Sent(sent)) => match on_sent(
                &self.payment,
                self.groupid,
                sent,
            ) {
                Ok(request) => (ProbeStage::Waiting(path), ProbeAction::WaitSendPay(request)),
                Err(e) => (ProbeStage::Done, ProbeAction::Finish(Err(e))),
            },
            (ProbeStage::Waiting(path), ProbeEvent::Ended(ended)) => {
                let attempt = on_ended(&self.payment, path, ended);
                (ProbeStage::Done, ProbeAction::Finish(attempt))
            },
            (stage, _) => {
                assert(false);
                (stage, ProbeAction::GetInfo)
            },
        }
    }
}

/// Every event brings a probe one stage further or ends it, so that it ends after five
/// events at most, and it ends exactly when its outcome is told.
pub proof fn probe_comes_to_an_end(
    probe: SendProbe,
    stage: ProbeStage,
    event: ProbeEvent,
    next: ProbeStage,
    action: ProbeAction,
)
    requires
        stage.awaits(event),
        probe.moves(stage, event, next, action),
    ensures
        next is Done || next.rank() == stage.rank() + 1,
        next is Done <==> action is Finish,
{
}

/// The payment of a probe takes the hops that the attempt is said to have taken, and then
/// one hop more, to the node that does not exist: hop for hop they have the same channel,
/// the same node at its end and the same amount.
pub proof fn payment_takes_the_path(
    probe: SendProbe,
    routes: ProbeEvent,
    path: Vec<RouteHop>,
    request: SendpayRequest,
)
    requires
        ProbeStage::FindingRoutes.awaits(routes),
        probe.moves(
            ProbeStage::FindingRoutes,
            routes,
            ProbeStage::Paying(path),
            ProbeAction::SendPay(request),
        ),
    ensures
        request.route.len() == path.len() + 1,
        request.route@.last() == probe.payment.spec_final_hop(),
        forall|i: int|
            0 <= i < path.len() ==> {
                &&& (#[trigger] request.route@[i]).channel
                    == path@[i].short_channel_id_dir.short_channel_id
                &&& request.route@[i].id == path@[i].next_nodeid
                &&& request.route@[i].amount_msat == path@[i].amount
            },
{
    let found = answer(routes->Routes_0)->Ok_0[0];
    assert forall|i: int| 0 <= i < path.len() implies {
        &&& (#[trigger] request.route@[i]).channel
            == path@[i].short_channel_id_dir.short_channel_id
        &&& request.route@[i].id == path@[i].next_nodeid
        &&& request.route@[i].amount_msat == path@[i].amount
    } by {
        crate::routes::hops_agree(found, i);
    }
}

/// A route that is asked for brings the real destination just what the last hop passes on:
/// the whole amount, with the delay of the hint on top of that of the last hop. The fee may
/// be as high as the amount.
pub proof fn route_meets_the_last_hop(
    payment: TestPayment,
    amount_msat: u64,
    privk: SecretKey,
    destination: PublicKey,
    source: PublicKey,
    request: GetroutesRequest,
)
    requires
        payment.tests(amount_msat, privk, destination),
        request.asks(payment, source),
    ensures
        request.source == source,
        request.destination == destination,
        request.amount_msat == payment.spec_final_hop().amount_msat,
        request.maxfee_msat.msat == amount_msat,
        request.final_cltv == Some((payment.spec_final_hop().delay + 144) as u32),
{
    crate::testpayment::made_payment_is_free_to_forward(payment, amount_msat, privk, destination);
}

/// The path on which a probe is sent is the path that it reports, for the payment that was
/// sent.
pub proof fn attempt_reports_the_path(
    probe: SendProbe,
    path: Vec<RouteHop>,
    sent: ProbeEvent,
    waiting: ProbeStage,
    wait: ProbeAction,
    ended: ProbeEvent,
    attempt: ProbeAttempt,
)
    requires
        probe.moves(ProbeStage::Paying(path), sent, waiting, wait),
        waiting is Waiting,
        probe.moves(waiting, ended, ProbeStage::Done, ProbeAction::Finish(Ok(attempt))),
    ensures
        attempt@.route.path == path@,
        attempt@.payment_hash == probe.payment.payment_hash@,
        attempt@.destination == probe.payment.route_hint.src_node_id,
        attempt@.amount == (Amount { msat: probe.payment.amount_msat }),
{
}

impl AttemptModel {
    /// The attempt was one to send `payment`.
    pub open spec fn is_of(self, payment: TestPayment) -> bool {
        &&& self.payment_hash == payment.payment_hash@
        &&& self.destination == payment.route_hint.src_node_id
        &&& self.amount == (Amount { msat: payment.amount_msat })
    }
}

/// An attempt that a probe tells as its outcome is one to send the probe's payment.
pub proof fn told_attempt_is_of_the_payment(
    probe: SendProbe,
    stage: ProbeStage,
    event: ProbeEvent,
    next: ProbeStage,
    attempt: ProbeAttempt,
)
    requires
        probe.moves(stage, event, next, ProbeAction::Finish(Ok(attempt))),
    ensures
        attempt@.is_of(probe.payment),
{
}

/// A probe first asks the node for its own key, once the node was called. If it cannot be
/// called, the probe ends and says why.
pub proof fn probe_starts_with_the_key(
    probe: SendProbe,
    connected: Result<(), String>,
    r: (ProbeStage, ProbeAction),
)
    requires
        call_ensures(
            SendProbe::step,
            (&probe, ProbeStage::Connecting, ProbeEvent::Connected(connected)),
            r,
        ),
    ensures
        match connected {
            Ok(_) => r.0 is AskingNodeId && r.1 is GetInfo,
            Err(cause) => r.0 is Done && (r.1 matches ProbeAction::Finish(Err(Error::Other(words)))
                && words@ == "failed to fetch an rpc channel from plugin "@ + cause@),
        },
{
}

/// A probe asks for one route from the node itself to the real destination, which brings
/// what the real destination receives, with the delay of both hops, at a fee of at most that
/// amount, and with all the layers in their order.
pub proof fn probe_asks_for_its_route(
    probe: SendProbe,
    node_id: Result<PublicKey, String>,
    prev_amount: u64,
    r: (ProbeStage, ProbeAction),
)
    requires
        call_ensures(TestPayment::prev_amount_msat, (&probe.payment,), prev_amount),
        probe.payment.route_hint.cltv_expiry_delta + probe.payment.min_final_cltv_expiry
            <= u16::MAX,
        call_ensures(
            SendProbe::step,
            (&probe, ProbeStage::AskingNodeId, ProbeEvent::NodeId(node_id)),
            r,
        ),
    ensures
        match node_id {
            Ok(source) => {
                &&& r.0 is FindingRoutes
                &&& r.1 matches ProbeAction::GetRoutes(request)
                &&& request.source == source
                &&& request.destination == probe.payment.route_hint.src_node_id
                &&& request.amount_msat.msat == prev_amount
                &&& request.maxfee_msat.msat == prev_amount
                &&& request.maxdelay is None
                &&& request.maxparts == Some(1u32)
                &&& request.final_cltv matches Some(delay)
                &&& delay == probe.payment.route_hint.cltv_expiry_delta
                    + probe.payment.min_final_cltv_expiry
                &&& request.layers.len() == 5
                &&& request.layers@[0]@ == "auto.no_mpp_support"@
                &&& request.layers@[1]@ == "auto.localchans"@
                &&& request.layers@[2]@ == "auto.sourcefree"@
                &&& request.layers@[3]@ == "xpay"@
                &&& request.layers@[4]@ == "lnradar"@
            },
            Err(cause) => r.0 is Done && (r.1 matches ProbeAction::Finish(Err(Error::Other(words)))
                && words@ == "Failed to call getinfo and the node id is needed: "@ + cause@),
        },
{
    if let Ok(source) = node_id {
        let layers = r.1->GetRoutes_0.layers@;
        assert(texts(layers).len() == 5);
        assert(forall|i: int| 0 <= i < 5 ==> #[trigger] texts(layers)[i] == layers[i]@);
        assert(texts(layers)[0] == "auto.no_mpp_support"@);
        assert(texts(layers)[1] == "auto.localchans"@);
        assert(texts(layers)[2] == "auto.sourcefree"@);
        assert(texts(layers)[3] == "xpay"@);
        assert(texts(layers)[4] == "lnradar"@);
    }
}

/// The payment of a probe has the payment's hash, secret and amount and the number of the
/// probe. It takes the hops of the route that was found, each with the amount and the delay
/// that the next hop takes in, and then one hop more, to the key behind the destination.
/// Those hops but the last are the path, each with its channel, direction and next node.
pub proof fn probe_pays_along_the_found_route(
    probe: SendProbe,
    found: Vec<GetroutesRoutes>,
    next: ProbeStage,
    request: SendpayRequest,
)
    requires
        call_ensures(
            SendProbe::step,
            (&probe, ProbeStage::FindingRoutes, ProbeEvent::Routes(Ok(found))),
            (next, ProbeAction::SendPay(request)),
        ),
    ensures
        found.len() == 1,
        ({
            let route = found@[0];
            let n = route.path.len() as int;
            let payment = probe.payment;
            &&& request.payment_hash == payment.payment_hash
            &&& request.payment_secret == Some(payment.payment_secret)
            &&& request.amount_msat matches Some(amount)
            &&& amount.msat == payment.amount_msat
            &&& request.partid == Some(0u64)
            &&& request.groupid == Some(probe.groupid)
            &&& request.route.len() == n + 1
            &&& request.route@[n].amount_msat.msat == payment.amount_msat
            &&& request.route@[n].delay == payment.min_final_cltv_expiry
            &&& request.route@[n].channel.0 == payment.route_hint.short_channel_id
            &&& request.route@[n].id == payment.fake_destination_pubkey
            &&& next matches ProbeStage::Paying(path)
            &&& path.len() == n
            &&& forall|i: int|
                0 <= i < n ==> {
                    &&& route.path@[i].short_channel_id_dir == Some(
                        (#[trigger] path@[i]).short_channel_id_dir,
                    )
                    &&& path@[i].next_nodeid == route.path@[i].next_node_id
                    &&& path@[i].amount == request.route@[i].amount_msat
                }
            &&& forall|i: int|
                0 <= i < n ==> {
                    &&& route.path@[i].short_channel_id_dir matches Some(c)
                    &&& (#[trigger] request.route@[i]).channel == c.short_channel_id
                    &&& request.route@[i].id == route.path@[i].next_node_id
                    &&& i + 1 < n ==> request.route@[i].amount_msat == route.path@[i
                        + 1].amount_msat && request.route@[i].delay == route.path@[i + 1].delay
                    &&& i + 1 == n ==> request.route@[i].amount_msat == route.amount_msat
                        && route.final_cltv == Some(request.route@[i].delay)
                }
        }),
{
    let route = answer(Ok(found))->Ok_0[0];
    assert(route == found@[0]@);
    assert(route.has_channels());
    assert forall|i: int| 0 <= i < route.path.len() implies #[trigger] route.path[i].short_channel_id_dir is Some by {}
}

/// No payment is sent where no route was found, where there is not exactly one, or where it
/// cannot be converted, and the probe then ends and says so.
pub proof fn probe_needs_one_good_route(
    probe: SendProbe,
    routes: Result<Vec<GetroutesRoutes>, String>,
    count: String,
    converted: Result<(Vec<SendpayRoute>, Vec<RouteHop>), Error>,
    r: (ProbeStage, ProbeAction),
)
    requires
        call_ensures(
            SendProbe::step,
            (&probe, ProbeStage::FindingRoutes, ProbeEvent::Routes(routes)),
            r,
        ),
        routes matches Ok(found) ==> call_ensures(decimal_text, (found.len() as u64,), count),
        routes matches Ok(found) ==> found.len() == 1 ==> call_ensures(
            convert_routes,
            (&found@[0],),
            converted,
        ),
    ensures
        match routes {
            Err(cause) => r.0 is Done && (r.1 matches ProbeAction::Finish(
                Err(Error::NoRoutes(words)),
            ) && words@ == cause@),
            Ok(found) => if found.len() != 1 {
                r.0 is Done && (r.1 matches ProbeAction::Finish(Err(Error::Other(words))) && words@
                    == "Expecting getroutes to return exactly one route, got "@ + count@
                    + " instead."@)
            } else {
                match converted {
                    Ok(_) => r.0 is Paying && r.1 is SendPay,
                    Err(Error::Other(why)) => r.0 is Done && (r.1 matches ProbeAction::Finish(
                        Err(Error::Other(words)),
                    ) && words@ == "couldn't convert routes types: "@ + why@),
                    Err(Error::NoRoutes(_)) => false,
                }
            },
        },
{
    if let Ok(found) = routes {
        if found.len() == 1 {
            assert(answer(routes)->Ok_0[0] == found@[0]@);
        }
    }
}

/// A probe waits for the payment that it sent: for the same hash, part and number. It waits
/// for a minute, and keeps the path in mind that the payment takes.
pub proof fn probe_waits_for_what_it_sent(
    probe: SendProbe,
    routes: ProbeEvent,
    paying: ProbeStage,
    sent: SendpayRequest,
    next: ProbeStage,
    wait: WaitsendpayRequest,
)
    requires
        call_ensures(
            SendProbe::step,
            (&probe, ProbeStage::FindingRoutes, routes),
            (paying, ProbeAction::SendPay(sent)),
        ),
        call_ensures(
            SendProbe::step,
            (&probe, paying, ProbeEvent::Sent(Ok(()))),
            (next, ProbeAction::WaitSendPay(wait)),
        ),
    ensures
        wait.payment_hash == sent.payment_hash,
        wait.partid == sent.partid,
        wait.groupid == sent.groupid,
        sent.groupid == Some(probe.groupid),
        wait.payment_hash == probe.payment.payment_hash,
        wait.timeout == Some(60u32),
        paying matches ProbeStage::Paying(path) && next == ProbeStage::Waiting(path),
{
}

/// A payment that was sent is waited for, whatever path it takes, under the probe's own hash
/// and number. One that could not be sent ends the probe, which says why.
pub proof fn sent_payment_is_waited_for(
    probe: SendProbe,
    path: Vec<RouteHop>,
    sent: Result<(), String>,
    r: (ProbeStage, ProbeAction),
)
    requires
        call_ensures(SendProbe::step, (&probe, ProbeStage::Paying(path), ProbeEvent::Sent(sent)), r),
    ensures
        match sent {
            Ok(_) => {
                &&& r.0 == ProbeStage::Waiting(path)
                &&& r.1 matches ProbeAction::WaitSendPay(wait)
                &&& wait.payment_hash == probe.payment.payment_hash
                &&& wait.partid == Some(0u64)
                &&& wait.groupid == Some(probe.groupid)
                &&& wait.timeout == Some(60u32)
            },
            Err(cause) => r.0 is Done && (r.1 matches ProbeAction::Finish(Err(Error::Other(words)))
                && words@ == "sendpay failed: "@ + cause@),
        },
{
}

/// A probe tells an attempt exactly when the payment failed with two numbers, of which one
/// is a failure that is understood and the other fits. The attempt has the failure and the
/// place that these numbers are, the path that the payment took, and the payment's hash,
/// real destination and amount.
pub proof fn probe_tells_what_it_was_told(
    probe: SendProbe,
    path: Vec<RouteHop>,
    failure: PaymentFailure,
    data: Value,
    code: Option<ErrorCode>,
    r: (ProbeStage, ProbeAction),
)
    requires
        failure.data == Some(data),
        json::json_as_u64(json::json_member(data, "failcode"@)) matches Some(n) ==> call_ensures(
            ErrorCode::from_u64,
            (n,),
            code,
        ),
        call_ensures(
            SendProbe::step,
            (&probe, ProbeStage::Waiting(path), ProbeEvent::Ended(Some(failure))),
            r,
        ),
    ensures
        ({
            let failcode = json::json_as_u64(json::json_member(data, "failcode"@));
            let index = json::json_as_u64(json::json_member(data, "erring_index"@));
            let told = failcode is Some && index is Some && index->0 <= usize::MAX
                && code is Some;
            &&& r.0 is Done
            &&& r.1 matches ProbeAction::Finish(outcome)
            &&& outcome is Ok <==> told
            &&& outcome matches Ok(attempt) ==> {
                &&& attempt.payment_hash@ == probe.payment.payment_hash@
                &&& attempt.destination == probe.payment.route_hint.src_node_id
                &&& attempt.amount.msat == probe.payment.amount_msat
                &&& attempt.route.path@ == path@
                &&& Some(attempt.route.failcode) == code
                &&& attempt.route.erring_index == index->0
            }
            &&& outcome matches Err(e) ==> (e matches Error::Other(words) && words@ == (
            if failcode is None {
                "can't read failcode from waitsendpay response"@
            } else if index is None {
                "can't read erring_index from waitsendpay response"@
            } else if index->0 > usize::MAX {
                "failed to convert erring_index into usize"@
            } else {
                "Unrecognized error code from waitsendpay: "@ + failure.text@
            }))
        }),
{
}

/// A payment that succeeds, or that fails without saying how, tells nothing.
pub proof fn silent_end_tells_nothing(
    probe: SendProbe,
    path: Vec<RouteHop>,
    ended: Option<PaymentFailure>,
    r: (ProbeStage, ProbeAction),
)
    requires
        call_ensures(
            SendProbe::step,
            (&probe, ProbeStage::Waiting(path), ProbeEvent::Ended(ended)),
            r,
        ),
        ended matches Some(failure) ==> failure.data is None,
    ensures
        r.0 is Done,
        r.1 matches ProbeAction::Finish(Err(Error::Other(words))) && words@ == (if ended is None {
            "unexpected waitsendpay success"@
        } else {
            "data is not present in waitsendpay error"@
        }),
{
}

/// What is made of the numbers of a failure: an attempt with just these numbers, if they are
/// there, fit and are understood, of the payment along the path.
pub proof fn numbers_make_the_attempt(
    payment: TestPayment,
    path: Vec<RouteHop>,
    failcode: Option<u64>,
    index: Option<u64>,
    text: &str,
    code: Option<ErrorCode>,
    r: Result<ProbeAttempt, Error>,
)
    requires
        failcode matches Some(n) ==> call_ensures(ErrorCode::from_u64, (n,), code),
        call_ensures(attempt_of_codes, (&payment, path, failcode, index, text), r),
    ensures
        r is Ok <==> failcode is Some && index is Some && index->0 <= usize::MAX && code is Some,
        r matches Ok(attempt) ==> {
            &&& attempt.payment_hash@ == payment.payment_hash@
            &&& attempt.destination == payment.route_hint.src_node_id
            &&& attempt.amount.msat == payment.amount_msat
            &&& attempt.route.path@ == path@
            &&& Some(attempt.route.failcode) == code
            &&& attempt.route.erring_index == index->0
        },
        r matches Err(e) ==> (e matches Error::Other(words) && words@ == (if failcode is None {
            "can't read failcode from waitsendpay response"@
        } else if index is None {
            "can't read erring_index from waitsendpay response"@
        } else if index->0 > usize::MAX {
            "failed to convert erring_index into usize"@
        } else {
            "Unrecognized error code from waitsendpay: "@ + text@
        })),
{
}

/// What follows the answer with the node's key is what a probe does with it.
pub proof fn node_id_leads_to_the_route(
    probe: SendProbe,
    node_id: Result<PublicKey, String>,
    alone: Result<GetroutesRequest, Error>,
    r: (ProbeStage, ProbeAction),
)
    requires
        call_ensures(on_node_id, (&probe.payment, node_id), alone),
        call_ensures(
            SendProbe::step,
            (&probe, ProbeStage::AskingNodeId, ProbeEvent::NodeId(node_id)),
            r,
        ),
    ensures
        alone matches Ok(a) ==> {
            &&& r.1 matches ProbeAction::GetRoutes(b)
            &&& a.source == b.source && a.destination == b.destination
            &&& a.amount_msat == b.amount_msat && a.maxfee_msat == b.maxfee_msat
            &&& a.maxdelay == b.maxdelay && a.maxparts == b.maxparts
            &&& a.final_cltv == b.final_cltv
            &&& a.layers.len() == b.layers.len()
            &&& forall|i: int|
                0 <= i < a.layers.len() ==> (#[trigger] a.layers@[i])@ == b.layers@[i]@
        },
        alone matches Err(e) ==> (r.1 matches ProbeAction::Finish(Err(f)) && e@ == f@),
{
    if let Ok(a) = alone {
        let b = r.1->GetRoutes_0;
        assert(texts(a.layers@) == texts(b.layers@));
        assert(texts(a.layers@).len() == texts(b.layers@).len());
        assert forall|i: int| 0 <= i < a.layers.len() implies (#[trigger] a.layers@[i])@
            == b.layers@[i]@ by {
            assert(texts(a.layers@)[i] == texts(b.layers@)[i]);
        }
    }
}

/// What follows the answer with routes, the sending and the end of a payment is what a probe
/// does with it.
pub proof fn answers_lead_to_the_same(
    probe: SendProbe,
    routes: Result<Vec<GetroutesRoutes>, String>,
    found: Result<(SendpayRequest, Vec<RouteHop>), Error>,
    paying: (ProbeStage, ProbeAction),
    path: Vec<RouteHop>,
    sent: Result<(), String>,
    wait: Result<WaitsendpayRequest, Error>,
    waiting: (ProbeStage, ProbeAction),
    ended: Option<PaymentFailure>,
    outcome: Result<ProbeAttempt, Error>,
    done: (ProbeStage, ProbeAction),
)
    requires
        call_ensures(on_routes, (&probe.payment, probe.groupid, routes), found),
        call_ensures(
            SendProbe::step,
            (&probe, ProbeStage::FindingRoutes, ProbeEvent::Routes(routes)),
            paying,
        ),
        call_ensures(on_sent, (&probe.payment, probe.groupid, sent), wait),
        call_ensures(
            SendProbe::step,
            (&probe, ProbeStage::Paying(path), ProbeEvent::Sent(sent)),
            waiting,
        ),
        call_ensures(on_ended, (&probe.payment, path, ended), outcome),
        call_ensures(
            SendProbe::step,
            (&probe, ProbeStage::Waiting(path), ProbeEvent::Ended(ended)),
            done,
        ),
    ensures
        found matches Ok((a, hops)) ==> {
            &&& paying.1 matches ProbeAction::SendPay(b)
            &&& paying.0 matches ProbeStage::Paying(taken)
            &&& a.payment_hash == b.payment_hash && a.payment_secret == b.payment_secret
            &&& a.route@ == b.route@ && a.amount_msat == b.amount_msat
            &&& a.partid == b.partid && a.groupid == b.groupid
            &&& hops@ == taken@
        },
        found matches Err(e) ==> (paying.1 matches ProbeAction::Finish(Err(f)) && e@ == f@),
        wait matches Ok(a) ==> {
            &&& waiting.1 matches ProbeAction::WaitSendPay(b)
            &&& a.payment_hash == b.payment_hash && a.partid == b.partid
            &&& a.groupid == b.groupid && a.timeout == b.timeout
        },
        wait matches Err(e) ==> (waiting.1 matches ProbeAction::Finish(Err(f)) && e@ == f@),
        outcome matches Ok(a) ==> {
            &&& done.1 matches ProbeAction::Finish(Ok(b))
            &&& a@ == b@
        },
        outcome matches Err(e) ==> (done.1 matches ProbeAction::Finish(Err(f)) && e@ == f@),
{
}

/// A single probe is one with the payment that it was made of, under the number one.
pub proof fn single_probe_is_the_first(payment: TestPayment, r: SendProbe)
    requires
        call_ensures(SendProbe::once, (payment,), r),
    ensures
        r.payment == payment,
        r.groupid == 1,
{
}

} // verus!
