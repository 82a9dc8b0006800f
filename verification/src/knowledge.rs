//! What the node learns from a probe.

use crate::disabled::{disable_channel, DisabledChannel, DisabledChannels, Moment};
use crate::error::{Error, ErrorModel};
use crate::primitives::{Amount, ShortChannelIdDir};
use crate::requests::{
    AskreneinformchannelInform, AskreneinformchannelRequest, AskreneupdatechannelRequest,
};
use crate::results::{ErrorCode, ProbeAttempt, RouteHop, RouteModel};
use crate::text::join;
use vstd::prelude::*;

verus! {

/// A request that teaches the node something.
#[derive(Debug)]
pub enum KnowledgeRequest {
    Inform(AskreneinformchannelRequest),
    Update(AskreneupdatechannelRequest),
}

/// Something that is learned of a channel.
pub enum Lesson {
    /// The amount was, or was not, too much for the channel.
    Inform(ShortChannelIdDir, Amount, AskreneinformchannelInform),
    /// The channel is not to be used for some time.
    Disable(ShortChannelIdDir),
}

impl KnowledgeRequest {
    /// The request makes `layer` learn `lesson`.
    pub open spec fn teaches(self, layer: Seq<char>, lesson: Lesson) -> bool {
        match lesson {
            Lesson::Inform(channel, amount, inform) => self matches KnowledgeRequest::Inform(r)
                && r.teaches(layer, channel, amount, inform),
            Lesson::Disable(channel) => self matches KnowledgeRequest::Update(r) && r.switches(
                layer,
                channel,
                false,
            ),
        }
    }
}

/// The requests make `layer` learn `lessons`, one each and in this order.
pub open spec fn teach_all(
    requests: Seq<KnowledgeRequest>,
    layer: Seq<char>,
    lessons: Seq<Lesson>,
) -> bool {
    &&& requests.len() == lessons.len()
    &&& forall|i: int|
        0 <= i < requests.len() ==> (#[trigger] requests[i]).teaches(layer, lessons[i])
}

/// Why a hop of a path cannot be found.
pub open spec fn out_of_bounds() -> Seq<char> {
    "erring_index is out of bounds"@
}

/// What is learned of the hop at which a probe failed.
pub open spec fn bad_lesson(hop: RouteHop) -> Lesson {
    Lesson::Inform(
        hop.short_channel_id_dir,
        hop.amount,
        AskreneinformchannelInform::Constrained,
    )
}

/// What is learned of a hop that a probe passed.
pub open spec fn good_lesson(hop: RouteHop) -> Lesson {
    Lesson::Inform(
        hop.short_channel_id_dir,
        hop.amount,
        AskreneinformchannelInform::Unconstrained,
    )
}

/// What is learned of the hops that a probe passed.
pub open spec fn good_lessons(passed: Seq<RouteHop>) -> Seq<Lesson> {
    passed.map_values(|hop: RouteHop| good_lesson(hop))
}

impl RouteModel {
    /// What is learned of the hop at which the probe failed.
    pub open spec fn failure_lessons(self) -> Seq<Lesson> {
        match self.failcode {
            ErrorCode::TemporaryChannelFailure => seq![
                bad_lesson(self.path[self.erring_index as int]),
            ],
            ErrorCode::FeeInsufficient => seq![
                Lesson::Disable(self.path[self.erring_index as int].short_channel_id_dir),
            ],
            _ => seq![],
        }
    }

    /// All that is learned from the probe.
    pub open spec fn lessons(self) -> Seq<Lesson> {
        self.failure_lessons() + good_lessons(self.path.take(self.erring_index as int))
    }

    /// Why nothing can be learned from the probe, if nothing can.
    pub open spec fn no_lessons(self) -> Option<Seq<char>> {
        if self.failcode is TemporaryChannelFailure && self.erring_index >= self.path.len() {
            Some("failed to update knowledge fro failed channel: "@ + out_of_bounds())
        } else if self.failcode is FeeInsufficient && self.erring_index >= self.path.len() {
            Some("failed to disable bad channel: "@ + out_of_bounds())
        } else if self.erring_index > self.path.len() {
            Some("failed to update knowledge for good channels: "@ + out_of_bounds())
        } else {
            None
        }
    }
}

fn inform_of(hop: &RouteHop, layer: &str, inform: AskreneinformchannelInform) -> (r:
    AskreneinformchannelRequest)
    ensures
        r.teaches(layer@, hop.short_channel_id_dir, hop.amount, inform),
{
    AskreneinformchannelRequest {
        layer: layer.to_string(),
        amount_msat: Some(hop.amount),
        short_channel_id_dir: Some(hop.short_channel_id_dir),
        inform: Some(inform),
    }
}

/// The requests that make `layer` learn that the hops before the one that failed were
/// not too narrow.
pub fn knowledge_good_channels(erring_index: usize, path: &Vec<RouteHop>, layer: &str) -> (r:
    Result<Vec<KnowledgeRequest>, Error>)
    ensures
        match r {
            Ok(requests) => {
                &&& erring_index <= path.len()
                &&& teach_all(requests@, layer@, good_lessons(path@.take(erring_index as int)))
            },
            Err(e) => erring_index > path.len() && e@ == ErrorModel::Other(out_of_bounds()),
        },
{
    if path.len() < erring_index {
        return Err(Error::other("erring_index is out of bounds"));
    }
    let mut requests: Vec<KnowledgeRequest> = Vec::new();
    for i in 0..erring_index
        invariant
            erring_index <= path.len(),
            requests.len() == i,
            forall|j: int|
                0 <= j < i ==> (#[trigger] requests@[j]).teaches(layer@, good_lesson(path@[j])),
    {
        let request = inform_of(&path[i], layer, AskreneinformchannelInform::Unconstrained);
        requests.push(KnowledgeRequest::Inform(request));
    }
    Ok(requests)
}

/// The request that makes `layer` learn that the hop that failed was too narrow.
pub fn knowledge_bad_channel(erring_index: usize, path: &Vec<RouteHop>, layer: &str) -> (r: Result<
    KnowledgeRequest,
    Error,
>)
    ensures
        match r {
            Ok(request) => {
                &&& erring_index < path.len()
                &&& request.teaches(layer@, bad_lesson(path@[erring_index as int]))
            },
            Err(e) => erring_index >= path.len() && e@ == ErrorModel::Other(out_of_bounds()),
        },
{
    if erring_index < path.len() {
        let request = inform_of(
            &path[erring_index],
            layer,
            AskreneinformchannelInform::Constrained,
        );
        Ok(KnowledgeRequest::Inform(request))
    } else {
        Err(Error::other("erring_index is out of bounds"))
    }
}

/// Switches the hop that failed off at the moment `now`: notes it, and gives the request
/// that does it in `layer`.
pub fn knowledge_disable_channel(
    disabled: &mut DisabledChannels,
    erring_index: usize,
    path: &Vec<RouteHop>,
    now: Moment,
    layer: &str,
) -> (r: Result<KnowledgeRequest, Error>)
    ensures
        match r {
            Ok(request) => {
                let channel = path@[erring_index as int].short_channel_id_dir;
                &&& erring_index < path.len()
                &&& request.teaches(layer@, Lesson::Disable(channel))
                &&& final(disabled)@ == old(disabled)@.insert(
                    DisabledChannel { scidd: channel, time: now },
                )
            },
            Err(e) => {
                &&& erring_index >= path.len()
                &&& e@ == ErrorModel::Other(out_of_bounds())
                &&& *final(disabled) == *old(disabled)
            },
        },
{
    if erring_index < path.len() {
        let scidd = path[erring_index].short_channel_id_dir;
        Ok(KnowledgeRequest::Update(disable_channel(disabled, scidd, now, layer)))
    } else {
        Err(Error::other("erring_index is out of bounds"))
    }
}

/// The requests, in the order in which they are to be made, that make `layer` learn from
/// a probe that came back at the moment `now`. The first that fails ends the lesson. A
/// channel that asked for a higher fee is noted as switched off.
pub fn update_knowledge(
    disabled: &mut DisabledChannels,
    results: &ProbeAttempt,
    now: Moment,
    layer: &str,
) -> (r: Result<Vec<KnowledgeRequest>, Error>)
    ensures
        match r {
            Ok(requests) => {
                &&& results@.route.no_lessons() is None
                &&& teach_all(requests@, layer@, results@.route.lessons())
            },
            Err(e) => results@.route.no_lessons() matches Some(why) && e@ == ErrorModel::Other(why),
        },
        r is Ok && results.route.failcode is FeeInsufficient ==> final(disabled)@ == old(
            disabled,
        )@.insert(
            DisabledChannel {
                scidd: results@.route.path[results.route.erring_index as int].short_channel_id_dir,
                time: now,
            },
        ),
        !(r is Ok && results.route.failcode is FeeInsufficient) ==> *final(disabled) == *old(
            disabled,
        ),
{
    let route = &results.route;
    let mut requests: Vec<KnowledgeRequest> = Vec::new();
    match route.failcode {
        ErrorCode::TemporaryChannelFailure => {
            match knowledge_bad_channel(route.erring_index, &route.path, layer) {
                Ok(request) => requests.push(request),
                Err(e) => {
                    return Err(
                        Error::caused(
                            "failed to update knowledge fro failed channel: ",
                            e.to_string().as_str(),
                        ),
                    );
                },
            }
        },
        ErrorCode::FeeInsufficient => {
            // The fee that the channel asks for could be read from the failure, but it is
            // simpler to avoid the channel.
            match knowledge_disable_channel(
                disabled,
                route.erring_index,
                &route.path,
                now,
                layer,
            ) {
                Ok(request) => requests.push(request),
                Err(e) => {
                    return Err(
                        Error::caused("failed to disable bad channel: ", e.to_string().as_str()),
                    );
                },
            }
        },
        _ => {},
    }
    let ghost first = requests@;
    assert(teach_all(first, layer@, route@.failure_lessons()));
    match knowledge_good_channels(route.erring_index, &route.path, layer) {
        Ok(mut good) => {
            let ghost rest = good@;
            requests.append(&mut good);
            assert(requests@ =~= first + rest);
            Ok(requests)
        },
        Err(e) => Err(
            Error::caused(
                "failed to update knowledge for good channels: ",
                e.to_string().as_str(),
            ),
        ),
    }
}

impl RouteModel {
    /// Why nothing is learned from the probe when the node cannot be called, because of
    /// `cause`.
    pub open spec fn no_connection(self, cause: Seq<char>) -> Seq<char> {
        let unconnected = "failed to fetch an rpc channel from plugin: "@ + cause;
        match self.failcode {
            ErrorCode::TemporaryChannelFailure => "failed to update knowledge fro failed channel: "@
                + unconnected,
            ErrorCode::FeeInsufficient => "failed to disable bad channel: "@ + (
            if self.erring_index < self.path.len() {
                unconnected
            } else {
                out_of_bounds()
            }),
            _ => "failed to update knowledge for good channels: "@ + unconnected,
        }
    }
}

/// Why nothing is learned from a probe when the node cannot be called.
pub fn no_connection(results: &ProbeAttempt, cause: &str) -> (r: Error)
    ensures
        r@ == ErrorModel::Other(results@.route.no_connection(cause@)),
{
    let unconnected = join("failed to fetch an rpc channel from plugin: ", cause);
    match results.route.failcode {
        ErrorCode::TemporaryChannelFailure => Error::caused(
            "failed to update knowledge fro failed channel: ",
            unconnected.as_str(),
        ),
        ErrorCode::FeeInsufficient => {
            if results.route.erring_index < results.route.path.len() {
                Error::caused("failed to disable bad channel: ", unconnected.as_str())
            } else {
                Error::caused("failed to disable bad channel: ", "erring_index is out of bounds")
            }
        },
        _ => Error::caused(
            "failed to update knowledge for good channels: ",
            unconnected.as_str(),
        ),
    }
}

impl KnowledgeRequest {
    /// The request says that a hop was wide enough.
    pub open spec fn spec_is_good(self) -> bool {
        self matches KnowledgeRequest::Inform(r) && r.inform == Some(
            AskreneinformchannelInform::Unconstrained,
        )
    }

    /// Whether the request says that a hop was wide enough.
    pub fn is_good(&self) -> (r: bool)
        ensures
            r == self.spec_is_good(),
    {
        match self {
            KnowledgeRequest::Inform(request) => match request.inform {
                Some(AskreneinformchannelInform::Unconstrained) => true,
                _ => false,
            },
            KnowledgeRequest::Update(_) => false,
        }
    }

    /// What cannot be done when the request fails.
    pub open spec fn spec_purpose(self) -> Seq<char> {
        if self is Update {
            "failed to disable bad channel: "@
        } else if self.spec_is_good() {
            "failed to update knowledge for good channels: "@
        } else {
            "failed to update knowledge fro failed channel: "@
        }
    }

    /// How it reads that the node refused the request.
    pub open spec fn spec_refusal(self) -> Seq<char> {
        if self is Update {
            "askrene-update-channel failed: "@
        } else {
            "askrene-inform-channel failed: "@
        }
    }

    fn purpose(&self) -> (r: &'static str)
        ensures
            r@ == self.spec_purpose(),
    {
        match self {
            KnowledgeRequest::Update(_) => "failed to disable bad channel: ",
            KnowledgeRequest::Inform(_) => {
                if self.is_good() {
                    "failed to update knowledge for good channels: "
                } else {
                    "failed to update knowledge fro failed channel: "
                }
            },
        }
    }

    fn refusal(&self) -> (r: &'static str)
        ensures
            r@ == self.spec_refusal(),
    {
        match self {
            KnowledgeRequest::Update(_) => "askrene-update-channel failed: ",
            KnowledgeRequest::Inform(_) => "askrene-inform-channel failed: ",
        }
    }
}

/// How far the teaching of the node has come.
#[derive(Debug, Clone, Copy, PartialEq, Eq, Structural)]
pub enum TeachStage {
    /// Nothing was asked yet. The node was called.
    Starting,
    /// The next request is being made.
    Asking,
    /// The node is called once more, for the hops that the probe passed.
    Connecting,
    /// It is over.
    Done,
}

/// The requests that teach the node, of which the first `taught` were granted.
#[derive(Debug)]
pub struct Teaching {
    pub requests: Vec<KnowledgeRequest>,
    pub taught: usize,
    pub stage: TeachStage,
}

/// What came of the last thing that was done.
#[derive(Debug)]
pub enum TeachEvent {
    /// Nothing was done yet.
    Begun,
    /// The request was granted.
    Taught,
    /// The node refused the request.
    Refused(String),
    /// The node was called once more.
    Connected,
    /// The node could not be called once more.
    Unreachable(String),
}

/// What is to be done next.
#[derive(Debug)]
pub enum TeachAction {
    /// The request at this place is to be made.
    Teach(usize),
    /// The node is to be called once more, and the requests that follow are made there.
    Connect,
    /// It is over: all requests were granted, or something failed.
    Finish(Result<(), Error>),
}

/// Whether the node is called to learn from a probe. It is not when the hop that is to be
/// switched off cannot be found.
pub fn calls_node(results: &ProbeAttempt) -> (r: bool)
    ensures
        r == !(results.route.failcode is FeeInsufficient && results.route.erring_index
            >= results.route.path.len()),
{
    match results.route.failcode {
        ErrorCode::FeeInsufficient => results.route.erring_index < results.route.path.len(),
        _ => true,
    }
}

impl Teaching {
    /// `event` may come next.
    pub open spec fn awaits(self, event: TeachEvent) -> bool {
        match event {
            TeachEvent::Begun => self.stage is Starting && self.taught == 0,
            TeachEvent::Taught | TeachEvent::Refused(_) => self.stage is Asking && self.taught
                < self.requests.len(),
            TeachEvent::Connected | TeachEvent::Unreachable(_) => self.stage is Connecting,
        }
    }

    /// The next request is to be made, or it is over if there is none.
    pub open spec fn goes_on(self, action: TeachAction) -> bool {
        if self.taught < self.requests.len() {
            self.stage is Asking && action == TeachAction::Teach(self.taught)
        } else {
            self.stage is Done && (action matches TeachAction::Finish(Ok(_)))
        }
    }

    /// It is over, and failed as `why` says.
    pub open spec fn fails(self, action: TeachAction, why: Seq<char>) -> bool {
        &&& self.stage is Done
        &&& action matches TeachAction::Finish(Err(e)) && e@ == ErrorModel::Other(why)
    }

    /// `event` leads to `after` and calls for `action`. What the probe failed at is taught on
    /// one connection and the hops that it passed on another, even if it passed none. The
    /// first thing that fails ends it.
    pub open spec fn moves(self, event: TeachEvent, after: Teaching, action: TeachAction) -> bool {
        let request = self.requests@[self.taught as int];
        &&& after.requests == self.requests
        &&& after.taught == self.taught + if event is Taught {
            1int
        } else {
            0
        }
        &&& match event {
            TeachEvent::Begun | TeachEvent::Connected => after.goes_on(action),
            TeachEvent::Taught => if request.spec_is_good() {
                after.goes_on(action)
            } else {
                after.stage is Connecting && action is Connect
            },
            TeachEvent::Refused(cause) => after.fails(
                action,
                request.spec_purpose() + (request.spec_refusal() + cause@),
            ),
            TeachEvent::Unreachable(cause) => after.fails(
                action,
                "failed to update knowledge for good channels: "@ + (
                "failed to fetch an rpc channel from plugin: "@ + cause@),
            ),
        }
    }

    /// Begins to make `requests`, of a node that was called.
    pub fn new(requests: Vec<KnowledgeRequest>) -> (r: Teaching)
        ensures
            r.requests == requests,
            r.taught == 0,
            r.stage is Starting,
    {
        Teaching { requests, taught: 0, stage: TeachStage::Starting }
    }

    /// Takes note of what came of the last thing that was done, and tells what is to be done
    /// next.
    pub fn step(&mut self, event: TeachEvent) -> (r: TeachAction)
        requires
            old(self).awaits(event),
        ensures
            old(self).moves(event, *final(self), r),
    {
        match event {
            TeachEvent::Begun | TeachEvent::Connected => self.go_on(),
            TeachEvent::Taught => {
                let good = self.requests[self.taught].is_good();
                self.taught = self.taught + 1;
                if good {
                    self.go_on()
                } else {
                    self.stage = TeachStage::Connecting;
                    TeachAction::Connect
                }
            },
            TeachEvent::Refused(cause) => {
                let purpose = self.requests[self.taught].purpose();
                let refused = join(self.requests[self.taught].refusal(), cause.as_str());
                self.stage = TeachStage::Done;
                TeachAction::Finish(Err(Error::caused(purpose, refused.as_str())))
            },
            TeachEvent::Unreachable(cause) => {
                let unconnected = join(
                    "failed to fetch an rpc channel from plugin: ",
                    cause.as_str(),
                );
                self.stage = TeachStage::Done;
                TeachAction::Finish(
                    Err(
                        Error::caused(
                            "failed to update knowledge for good channels: ",
                            unconnected.as_str(),
                        ),
                    ),
                )
            },
        }
    }

    fn go_on(&mut self) -> (r: TeachAction)
        ensures
            final(self).requests == old(self).requests,
            final(self).taught == old(self).taught,
            final(self).goes_on(r),
    {
        if self.taught < self.requests.len() {
            self.stage = TeachStage::Asking;
            TeachAction::Teach(self.taught)
        } else {
            self.stage = TeachStage::Done;
            TeachAction::Finish(Ok(()))
        }
    }
}

/// The number of requests that were granted among `events`.
pub open spec fn granted(events: Seq<TeachEvent>) -> nat
    decreases events.len(),
{
    if events.len() == 0 {
        0
    } else {
        granted(events.drop_last()) + if events.last() is Taught {
            1nat
        } else {
            0
        }
    }
}

/// Whatever happens, the requests are made one after the other, each once and in their
/// order: the one that is to be made stands behind those that were granted. It is over
/// without an error only when all were granted. `states` are those between the steps, and
/// `actions` what the steps call for.
pub proof fn lessons_are_taught_in_order(
    states: Seq<Teaching>,
    events: Seq<TeachEvent>,
    actions: Seq<TeachAction>,
    k: int,
)
    requires
        states.len() == events.len() + 1 == actions.len() + 1,
        states[0].taught == 0,
        states[0].stage is Starting,
        forall|i: int|
            0 <= i < events.len() ==> (#[trigger] states[i]).awaits(events[i]) && states[i].moves(
                events[i],
                states[i + 1],
                actions[i],
            ),
        0 <= k < events.len(),
    ensures
        states[k + 1].requests == states[0].requests,
        states[k + 1].taught == granted(events.take(k + 1)) <= states[0].requests.len(),
        actions[k] matches TeachAction::Teach(i) ==> i == granted(events.take(k + 1)) && i
            < states[0].requests.len(),
        actions[k] matches TeachAction::Finish(Ok(_)) ==> granted(events.take(k + 1))
            == states[0].requests.len(),
        actions[k] matches TeachAction::Finish(Err(_)) ==> events[k] is Refused
            || events[k] is Unreachable,
    decreases k,
{
    assert(events.take(k + 1).drop_last() =~= events.take(k));
    if k > 0 {
        lessons_are_taught_in_order(states, events, actions, k - 1);
        assert(states[k].taught == granted(events.take(k)));
    } else {
        assert(granted(events.take(0)) == 0);
    }
    assert(events.take(k + 1).last() == events[k]);
    assert(states[k].awaits(events[k]));
    assert(granted(events.take(k + 1)) == granted(events.take(k)) + if events[k] is Taught {
        1nat
    } else {
        0
    });
}

/// Of the requests that teach the node what a probe found, exactly those about the hop that
/// failed come before a new connection: there is one if the probe failed at a hop that is
/// taught, and none otherwise.
pub proof fn new_connection_follows_the_failure(
    route: RouteModel,
    layer: Seq<char>,
    requests: Seq<KnowledgeRequest>,
    i: int,
)
    requires
        route.no_lessons() is None,
        teach_all(requests, layer, route.lessons()),
        0 <= i < requests.len(),
    ensures
        requests[i].spec_is_good() <==> i >= route.failure_lessons().len(),
        route.failure_lessons().len() == if route.failcode is TemporaryChannelFailure
            || route.failcode is FeeInsufficient {
            1nat
        } else {
            0
        },
{
    assert(requests[i].teaches(layer, route.lessons()[i]));
}

/// `lesson` is about hop `i`: that it was wide enough, where it stands before the hop at
/// which the probe failed, and that it is to be distrusted, where it is that hop.
pub open spec fn is_lesson_of(route: RouteModel, i: int, lesson: Lesson) -> bool {
    if 0 <= i < route.erring_index {
        lesson == good_lesson(route.path[i])
    } else if i == route.erring_index && i < route.path.len() {
        ||| lesson == bad_lesson(route.path[i])
        ||| lesson == Lesson::Disable(route.path[i].short_channel_id_dir)
    } else {
        false
    }
}

/// `lesson` is about some hop, up to the one at which the probe failed.
pub open spec fn is_lesson(route: RouteModel, lesson: Lesson) -> bool {
    exists|i: int| is_lesson_of(route, i, lesson)
}

/// All the hops before the one at which a probe failed are taught to be wide enough, each
/// for the amount that left it. Nothing is taught of the hops behind it.
pub proof fn lessons_end_at_the_failure(route: RouteModel)
    requires
        route.no_lessons() is None,
    ensures
        forall|i: int|
            0 <= i < route.erring_index ==> route.lessons().contains(
                good_lesson(#[trigger] route.path[i]),
            ),
        forall|k: int|
            0 <= k < route.lessons().len() ==> is_lesson(route, #[trigger] route.lessons()[k]),
{
    let n = route.failure_lessons().len() as int;
    assert forall|i: int| 0 <= i < route.erring_index implies route.lessons().contains(
        good_lesson(#[trigger] route.path[i]),
    ) by {
        assert(route.lessons()[n + i] == good_lesson(route.path[i]));
    }
    assert forall|k: int| 0 <= k < route.lessons().len() implies is_lesson(
        route,
        #[trigger] route.lessons()[k],
    ) by {
        if k < n {
            assert(is_lesson_of(route, route.erring_index as int, route.lessons()[k]));
        } else {
            assert(is_lesson_of(route, k - n, route.lessons()[k]));
        }
    }
}

/// A probe that reached its destination shows all its hops to be wide enough, and nothing
/// else.
pub proof fn reaching_teaches_only_good(route: RouteModel)
    requires
        route.failcode.spec_reached(),
        route.erring_index == route.path.len(),
    ensures
        route.no_lessons() is None,
        route.lessons() == good_lessons(route.path),
{
    assert(route.path.take(route.erring_index as int) =~= route.path);
    assert(route.lessons() =~= good_lessons(route.path));
}

/// What is taught of the hop that was too narrow: its channel and direction, and the amount
/// that it failed to pass, as too much.
pub proof fn narrow_hop_is_taught(
    erring_index: usize,
    path: Vec<RouteHop>,
    layer: &str,
    r: Result<KnowledgeRequest, Error>,
)
    requires
        call_ensures(knowledge_bad_channel, (erring_index, &path, layer), r),
    ensures
        r is Ok <==> erring_index < path.len(),
        r matches Ok(request) ==> {
            &&& request matches KnowledgeRequest::Inform(q)
            &&& q.layer@ == layer@
            &&& q.short_channel_id_dir == Some(path@[erring_index as int].short_channel_id_dir)
            &&& q.amount_msat == Some(path@[erring_index as int].amount)
            &&& q.inform == Some(AskreneinformchannelInform::Constrained)
        },
        r matches Err(e) ==> (e matches Error::Other(words) && words@
            == "erring_index is out of bounds"@),
{
}

/// What is taught of the hops before the one that failed: of each, in their order, its
/// channel and direction, and the amount that it passed, as not too much.
pub proof fn passed_hops_are_taught(
    erring_index: usize,
    path: Vec<RouteHop>,
    layer: &str,
    r: Result<Vec<KnowledgeRequest>, Error>,
)
    requires
        call_ensures(knowledge_good_channels, (erring_index, &path, layer), r),
    ensures
        r is Ok <==> erring_index <= path.len(),
        r matches Ok(requests) ==> {
            &&& requests.len() == erring_index
            &&& forall|j: int|
                0 <= j < erring_index ==> {
                    &&& #[trigger] requests@[j] matches KnowledgeRequest::Inform(q)
                    &&& q.layer@ == layer@
                    &&& q.short_channel_id_dir == Some(path@[j].short_channel_id_dir)
                    &&& q.amount_msat == Some(path@[j].amount)
                    &&& q.inform == Some(AskreneinformchannelInform::Unconstrained)
                }
        },
        r matches Err(e) ==> (e matches Error::Other(words) && words@
            == "erring_index is out of bounds"@),
{
    if let Ok(requests) = r {
        let lessons = good_lessons(path@.take(erring_index as int));
        assert forall|j: int| 0 <= j < erring_index implies {
            &&& #[trigger] requests@[j] matches KnowledgeRequest::Inform(q)
            &&& q.layer@ == layer@
            &&& q.short_channel_id_dir == Some(path@[j].short_channel_id_dir)
            &&& q.amount_msat == Some(path@[j].amount)
            &&& q.inform == Some(AskreneinformchannelInform::Unconstrained)
        } by {
            assert(requests@[j].teaches(layer@, lessons[j]));
        }
    }
}

/// The hop that asked for a higher fee is switched off, in its direction, and noted with the
/// moment. Where there is no such hop nothing is noted.
pub proof fn expensive_hop_is_switched_off(
    q: &mut DisabledChannels,
    erring_index: usize,
    path: Vec<RouteHop>,
    now: Moment,
    layer: &str,
    r: Result<KnowledgeRequest, Error>,
)
    requires
        call_ensures(knowledge_disable_channel, (q, erring_index, &path, now, layer), r),
    ensures
        r is Ok <==> erring_index < path.len(),
        r matches Ok(request) ==> {
            let scidd = path@[erring_index as int].short_channel_id_dir;
            &&& final(q)@ == old(q)@.insert(DisabledChannel { scidd, time: now })
            &&& request matches KnowledgeRequest::Update(u)
            &&& u.layer@ == layer@
            &&& u.short_channel_id_dir == scidd
            &&& u.enabled == Some(false)
            &&& u.cltv_expiry_delta is None && u.fee_base_msat is None
            &&& u.fee_proportional_millionths is None
            &&& u.htlc_minimum_msat is None && u.htlc_maximum_msat is None
        },
        r matches Err(e) ==> {
            &&& *final(q) == *old(q)
            &&& e matches Error::Other(words) && words@ == "erring_index is out of bounds"@
        },
{
}

/// All that is taught from a probe, request by request: first of the hop that failed, if it
/// was too narrow or asked for a higher fee, then of the hops before it, each with its own
/// channel, direction and amount.
pub proof fn probe_teaches_its_hops(
    q: &mut DisabledChannels,
    attempt: ProbeAttempt,
    now: Moment,
    layer: &str,
    requests: Vec<KnowledgeRequest>,
)
    requires
        call_ensures(update_knowledge, (q, &attempt, now, layer), Ok(requests)),
    ensures
        ({
            let route = attempt.route;
            let hop = route.path@[route.erring_index as int];
            let failed = if route.failcode is TemporaryChannelFailure
                || route.failcode is FeeInsufficient {
                1int
            } else {
                0
            };
            &&& requests.len() == failed + route.erring_index
            &&& route.erring_index + failed <= route.path.len()
            &&& route.failcode is TemporaryChannelFailure ==> {
                &&& requests@[0] matches KnowledgeRequest::Inform(r)
                &&& r.layer@ == layer@
                &&& r.short_channel_id_dir == Some(hop.short_channel_id_dir)
                &&& r.amount_msat == Some(hop.amount)
                &&& r.inform == Some(AskreneinformchannelInform::Constrained)
            }
            &&& route.failcode is FeeInsufficient ==> {
                &&& requests@[0] matches KnowledgeRequest::Update(u)
                &&& u.layer@ == layer@
                &&& u.short_channel_id_dir == hop.short_channel_id_dir
                &&& u.enabled == Some(false)
                &&& u.cltv_expiry_delta is None && u.fee_base_msat is None
                &&& u.fee_proportional_millionths is None
                &&& u.htlc_minimum_msat is None && u.htlc_maximum_msat is None
            }
            &&& forall|j: int|
                failed <= j < failed + route.erring_index ==> {
                    &&& #[trigger] requests@[j] matches KnowledgeRequest::Inform(r)
                    &&& r.layer@ == layer@
                    &&& r.short_channel_id_dir == Some(
                        route.path@[j - failed].short_channel_id_dir,
                    )
                    &&& r.amount_msat == Some(route.path@[j - failed].amount)
                    &&& r.inform == Some(AskreneinformchannelInform::Unconstrained)
                }
            &&& if route.failcode is FeeInsufficient {
                final(q)@ == old(q)@.insert(
                    DisabledChannel { scidd: hop.short_channel_id_dir, time: now },
                )
            } else {
                *final(q) == *old(q)
            }
        }),
{
    let route = attempt.route;
    let failed = if route.failcode is TemporaryChannelFailure || route.failcode is FeeInsufficient {
        1int
    } else {
        0
    };
    let lessons = attempt@.route.lessons();
    assert(teach_all(requests@, layer@, lessons));
    if failed == 1 {
        assert(requests@[0].teaches(layer@, lessons[0]));
    }
    assert forall|j: int| failed <= j < failed + route.erring_index implies {
        &&& #[trigger] requests@[j] matches KnowledgeRequest::Inform(r)
        &&& r.layer@ == layer@
        &&& r.short_channel_id_dir == Some(route.path@[j - failed].short_channel_id_dir)
        &&& r.amount_msat == Some(route.path@[j - failed].amount)
        &&& r.inform == Some(AskreneinformchannelInform::Unconstrained)
    } by {
        assert(requests@[j].teaches(layer@, lessons[j]));
    }
}

/// Nothing is learned from a probe exactly when it failed behind its path: at its end or
/// further for a failure that is about a hop, further than its end for any other. Then
/// nothing is noted, and the message says what could not be done.
pub proof fn failure_behind_the_path_teaches_nothing(
    q: &mut DisabledChannels,
    attempt: ProbeAttempt,
    now: Moment,
    layer: &str,
    r: Result<Vec<KnowledgeRequest>, Error>,
)
    requires
        call_ensures(update_knowledge, (q, &attempt, now, layer), r),
    ensures
        r is Ok <==> (if attempt.route.failcode is TemporaryChannelFailure
            || attempt.route.failcode is FeeInsufficient {
            attempt.route.erring_index < attempt.route.path.len()
        } else {
            attempt.route.erring_index <= attempt.route.path.len()
        }),
        r matches Err(e) ==> {
            &&& *final(q) == *old(q)
            &&& e matches Error::Other(words) && words@ == (match attempt.route.failcode {
                ErrorCode::TemporaryChannelFailure => "failed to update knowledge fro failed channel: "@,
                ErrorCode::FeeInsufficient => "failed to disable bad channel: "@,
                _ => "failed to update knowledge for good channels: "@,
            }) + "erring_index is out of bounds"@
        },
{
}

/// When the node cannot be called, the message says what could not be done and why. The node
/// is not called when there is no hop that could be switched off.
pub proof fn unreachable_node_is_told(attempt: ProbeAttempt, cause: &str, calls: bool, r: Error)
    requires
        call_ensures(calls_node, (&attempt,), calls),
        call_ensures(no_connection, (&attempt, cause), r),
    ensures
        calls <==> attempt.route.failcode is FeeInsufficient ==> attempt.route.erring_index
            < attempt.route.path.len(),
        r matches Error::Other(words) && words@ == (match attempt.route.failcode {
            ErrorCode::TemporaryChannelFailure => "failed to update knowledge fro failed channel: "@,
            ErrorCode::FeeInsufficient => "failed to disable bad channel: "@,
            _ => "failed to update knowledge for good channels: "@,
        }) + (if calls {
            "failed to fetch an rpc channel from plugin: "@ + cause@
        } else {
            "erring_index is out of bounds"@
        }),
{
}

/// The teaching step by step: the next request is made once the one before it was granted,
/// with a new connection in between where that one was about the hop that failed. It ends
/// when none is left, or at the first thing that fails, and then says what could not be done
/// and why.
pub proof fn teaching_goes_on_or_tells_why(
    t: &mut Teaching,
    event: TeachEvent,
    r: TeachAction,
)
    requires
        call_ensures(Teaching::step, (t, event), r),
        old(t).taught < old(t).requests.len() || event is Begun || event is Connected
            || event is Unreachable,
    ensures
        final(t).requests == old(t).requests,
        final(t).taught == old(t).taught + if event is Taught {
            1int
        } else {
            0
        },
        ({
            let request = old(t).requests@[old(t).taught as int];
            let good = request matches KnowledgeRequest::Inform(q) && q.inform == Some(
                AskreneinformchannelInform::Unconstrained,
            );
            let on = event is Begun || event is Connected || (event is Taught && good);
            let left = final(t).taught < final(t).requests.len();
            &&& r is Teach <==> final(t).stage is Asking
            &&& r is Connect <==> final(t).stage is Connecting
            &&& r is Finish <==> final(t).stage is Done
            &&& on && left ==> r == TeachAction::Teach(final(t).taught)
            &&& on && !left ==> (r matches TeachAction::Finish(Ok(_)))
            &&& event is Taught && !good ==> r is Connect
            &&& event matches TeachEvent::Refused(cause) ==> {
                &&& r matches TeachAction::Finish(Err(Error::Other(words)))
                &&& words@ == (if request is Update {
                    "failed to disable bad channel: "@ + ("askrene-update-channel failed: "@
                        + cause@)
                } else if good {
                    "failed to update knowledge for good channels: "@ + (
                    "askrene-inform-channel failed: "@ + cause@)
                } else {
                    "failed to update knowledge fro failed channel: "@ + (
                    "askrene-inform-channel failed: "@ + cause@)
                })
            }
            &&& event matches TeachEvent::Unreachable(cause) ==> {
                &&& r matches TeachAction::Finish(Err(Error::Other(words)))
                &&& words@ == "failed to update knowledge for good channels: "@ + (
                "failed to fetch an rpc channel from plugin: "@ + cause@)
            }
        }),
{
}

/// A teaching starts with all requests and none granted. A request is good if it says of a
/// hop that an amount was not too much.
pub proof fn teaching_starts_at_the_first(
    requests: Vec<KnowledgeRequest>,
    t: Teaching,
    request: KnowledgeRequest,
    good: bool,
)
    requires
        call_ensures(Teaching::new, (requests,), t),
        call_ensures(KnowledgeRequest::is_good, (&request,), good),
    ensures
        t.requests == requests,
        t.taught == 0,
        t.stage is Starting,
        good <==> (request matches KnowledgeRequest::Inform(q) && q.inform == Some(
            AskreneinformchannelInform::Unconstrained,
        )),
{
}

} // verus!
