//! Probing a destination until it is reached.

use crate::error::{Error, ErrorModel};
use crate::primitives::Amount;
use crate::probe::{ProbeAction, ProbeEvent, ProbeStage, SendProbe};
use crate::results;
use crate::results::{
    AttemptModel, ErrorCode, ProbeAttempt, ProbeResult, ProbeStatus, ResultModel, Route, RouteModel,
};
use crate::testpayment::TestPayment;
use crate::text::join;
use vstd::prelude::*;

verus! {

/// The number of destinations that are probed at the same time. The local channels have
/// room for few payments.
pub const LNRADAR_MAX_CONCURRENT_PROBES: usize = 5;

/// The time, in seconds, after which a destination is given up.
pub const LNRADAR_DEFAULT_TIMEOUT_SECS: u64 = 60;

/// How far the probing of a destination has come.
#[derive(Debug)]
pub enum LoopStage {
    /// It waits for its turn.
    Queued,
    /// A probe is under way.
    Probing,
    /// The node learns from this attempt.
    Learning(ProbeAttempt),
    /// It is over.
    Done,
}

/// The probing of a destination. `groupid` is the number of the last probe that was sent,
/// and `routes` are those that the probes took so far.
#[derive(Debug)]
pub struct ProbeLoop {
    pub payment: TestPayment,
    pub groupid: u64,
    pub routes: Vec<Route>,
    pub stage: LoopStage,
}

/// What came of the last thing that was done.
#[derive(Debug)]
pub enum LoopEvent {
    /// The turn has come, or never will.
    Turn(Result<(), String>),
    /// The probe came back.
    Attempted(Result<ProbeAttempt, Error>),
    /// The time is up.
    TimedOut,
    /// The node learned what it could.
    Learned,
}

/// What is to be done next.
#[derive(Debug)]
pub enum LoopAction {
    /// A probe is to be sent, under this number.
    Probe(u64),
    /// The node is to learn from the attempt at hand.
    Learn,
    /// It is over, and this is the outcome.
    Finish(ProbeResult),
}

/// A [`LoopStage`] as mathematics sees it.
pub enum LoopStageModel {
    Queued,
    Probing,
    Learning(AttemptModel),
    Done,
}

/// A [`ProbeLoop`] as mathematics sees it.
#[verifier::ext_equal]
pub struct LoopModel {
    pub payment: TestPayment,
    pub groupid: nat,
    pub routes: Seq<RouteModel>,
    pub stage: LoopStageModel,
}

/// A [`LoopEvent`] as mathematics sees it.
pub enum LoopEventModel {
    Turn(Result<(), Seq<char>>),
    Attempted(Result<AttemptModel, ErrorModel>),
    TimedOut,
    Learned,
}

/// A [`LoopAction`] as mathematics sees it.
pub enum LoopActionModel {
    Probe(nat),
    Learn,
    Finish(ResultModel),
}

impl View for LoopStage {
    type V = LoopStageModel;

    open spec fn view(&self) -> LoopStageModel {
        match *self {
            LoopStage::Queued => LoopStageModel::Queued,
            LoopStage::Probing => LoopStageModel::Probing,
            LoopStage::Learning(attempt) => LoopStageModel::Learning(attempt@),
            LoopStage::Done => LoopStageModel::Done,
        }
    }
}

impl View for ProbeLoop {
    type V = LoopModel;

    open spec fn view(&self) -> LoopModel {
        LoopModel {
            payment: self.payment,
            groupid: self.groupid as nat,
            routes: results::routes_model(self.routes@),
            stage: self.stage@,
        }
    }
}

impl View for LoopEvent {
    type V = LoopEventModel;

    open spec fn view(&self) -> LoopEventModel {
        match *self {
            LoopEvent::Turn(Ok(_)) => LoopEventModel::Turn(Ok(())),
            LoopEvent::Turn(Err(cause)) => LoopEventModel::Turn(Err(cause@)),
            LoopEvent::Attempted(Ok(attempt)) => LoopEventModel::Attempted(Ok(attempt@)),
            LoopEvent::Attempted(Err(e)) => LoopEventModel::Attempted(Err(e@)),
            LoopEvent::TimedOut => LoopEventModel::TimedOut,
            LoopEvent::Learned => LoopEventModel::Learned,
        }
    }
}

impl View for LoopAction {
    type V = LoopActionModel;

    open spec fn view(&self) -> LoopActionModel {
        match *self {
            LoopAction::Probe(groupid) => LoopActionModel::Probe(groupid as nat),
            LoopAction::Learn => LoopActionModel::Learn,
            LoopAction::Finish(result) => LoopActionModel::Finish(result@),
        }
    }
}

/// The outcome for a destination that was not reached.
pub open spec fn failed(
    payment: TestPayment,
    routes: Seq<RouteModel>,
    message: Seq<char>,
) -> ResultModel {
    ResultModel {
        payment_hash: payment.payment_hash@,
        destination: payment.route_hint.src_node_id,
        amount: Amount { msat: payment.amount_msat },
        routes,
        status: ProbeStatus::Failed,
        message: Some(message),
    }
}

/// The outcome for a destination that was reached with `attempt`.
pub open spec fn succeeded(attempt: AttemptModel, routes: Seq<RouteModel>) -> ResultModel {
    ResultModel {
        payment_hash: attempt.payment_hash,
        destination: attempt.destination,
        amount: attempt.amount,
        routes,
        status: ProbeStatus::Success,
        message: None,
    }
}

impl LoopModel {
    /// A destination that is to be probed.
    pub open spec fn queued(payment: TestPayment) -> LoopModel {
        LoopModel { payment, groupid: 0, routes: seq![], stage: LoopStageModel::Queued }
    }

    /// At this stage `event` comes next.
    pub open spec fn awaits(self, event: LoopEventModel) -> bool {
        match (self.stage, event) {
            (LoopStageModel::Queued, LoopEventModel::Turn(_)) => true,
            (LoopStageModel::Probing, LoopEventModel::Attempted(_)) => true,
            (LoopStageModel::Probing, LoopEventModel::TimedOut) => true,
            (LoopStageModel::Learning(_), LoopEventModel::Learned) => true,
            _ => false,
        }
    }

    /// The next probe is under way.
    pub open spec fn probing(self) -> LoopModel {
        LoopModel { groupid: self.groupid + 1, stage: LoopStageModel::Probing, ..self }
    }

    /// It is over.
    pub open spec fn done(self) -> LoopModel {
        LoopModel { routes: seq![], stage: LoopStageModel::Done, ..self }
    }

    /// How `event` changes the probing, and what it calls for.
    pub open spec fn after(self, event: LoopEventModel) -> (LoopModel, LoopActionModel) {
        match event {
            LoopEventModel::Turn(Ok(_)) => (
                self.probing(),
                LoopActionModel::Probe(self.groupid + 1),
            ),
            LoopEventModel::Turn(Err(cause)) => (
                self.done(),
                LoopActionModel::Finish(
                    failed(
                        self.payment,
                        seq![],
                        "failed to acquire probe semaphore: "@ + cause,
                    ),
                ),
            ),
            LoopEventModel::Attempted(Ok(attempt)) => (
                LoopModel {
                    routes: self.routes.push(attempt.route),
                    stage: LoopStageModel::Learning(attempt),
                    ..self
                },
                LoopActionModel::Learn,
            ),
            LoopEventModel::Attempted(Err(e)) => (
                self.done(),
                LoopActionModel::Finish(failed(self.payment, self.routes, e.text())),
            ),
            LoopEventModel::TimedOut => (
                self.done(),
                LoopActionModel::Finish(
                    failed(
                        self.payment,
                        self.routes,
                        "time out while waiting for probe loop to finish"@,
                    ),
                ),
            ),
            LoopEventModel::Learned => {
                let attempt = self.stage->Learning_0;
                if attempt.route.failcode.spec_reached() {
                    (self.done(), LoopActionModel::Finish(succeeded(attempt, self.routes)))
                } else {
                    (self.probing(), LoopActionModel::Probe(self.groupid + 1))
                }
            },
        }
    }
}

fn failed_result(payment: &TestPayment, routes: Vec<Route>, message: String) -> (r: ProbeResult)
    ensures
        r@ == failed(*payment, results::routes_model(routes@), message@),
{
    ProbeResult {
        payment_hash: payment.payment_hash,
        destination: payment.prev_destination(),
        amount: Amount::from_msat(payment.amount_msat),
        routes,
        status: ProbeStatus::Failed,
        message: Some(message),
    }
}

impl ProbeLoop {
    /// A destination that is to be probed with `payment`.
    pub fn new(payment: TestPayment) -> (r: ProbeLoop)
        ensures
            r@ == LoopModel::queued(payment),
    {
        let r = ProbeLoop { payment, groupid: 0, routes: Vec::new(), stage: LoopStage::Queued };
        assert(r@ =~= LoopModel::queued(payment));
        r
    }

    /// Takes note of what came of the last thing that was done, and tells what is to be
    /// done next.
    pub fn step(&mut self, event: LoopEvent) -> (r: LoopAction)
        requires
            old(self)@.awaits(event@),
            old(self)@.after(event@).1 matches LoopActionModel::Probe(groupid) ==> groupid
                <= u64::MAX,
        ensures
            (final(self)@, r@) == old(self)@.after(event@),
    {
        let ghost before = self@;
        let mut stage = LoopStage::Done;
        std::mem::swap(&mut stage, &mut self.stage);
        match event {
            LoopEvent::Turn(Ok(_)) => {
                self.groupid = self.groupid + 1;
                self.stage = LoopStage::Probing;
                LoopAction::Probe(self.groupid)
            },
            LoopEvent::Turn(Err(cause)) => {
                self.routes = Vec::new();
                let message = join("failed to acquire probe semaphore: ", cause.as_str());
                let result = failed_result(&self.payment, Vec::new(), message);
                assert(results::routes_model(self.routes@) =~= seq![]);
                LoopAction::Finish(result)
            },
            LoopEvent::Attempted(Ok(attempt)) => {
                self.routes.push(attempt.route.clone());
                self.stage = LoopStage::Learning(attempt);
                assert(self@.routes =~= before.routes.push(attempt@.route));
                LoopAction::Learn
            },
            LoopEvent::Attempted(Err(e)) => {
                let mut routes: Vec<Route> = Vec::new();
                std::mem::swap(&mut routes, &mut self.routes);
                assert(results::routes_model(self.routes@) =~= seq![]);
                LoopAction::Finish(failed_result(&self.payment, routes, e.to_string()))
            },
            LoopEvent::TimedOut => {
                let mut routes: Vec<Route> = Vec::new();
                std::mem::swap(&mut routes, &mut self.routes);
                assert(results::routes_model(self.routes@) =~= seq![]);
                let e = Error::other("time out while waiting for probe loop to finish");
                LoopAction::Finish(failed_result(&self.payment, routes, e.to_string()))
            },
            LoopEvent::Learned => {
                match stage {
                    LoopStage::Learning(attempt) => {
                        if attempt.route.failcode.reached() {
                            let mut routes: Vec<Route> = Vec::new();
                            std::mem::swap(&mut routes, &mut self.routes);
                            assert(results::routes_model(self.routes@) =~= seq![]);
                            LoopAction::Finish(
                                ProbeResult {
                                    payment_hash: attempt.payment_hash,
                                    destination: attempt.destination,
                                    amount: attempt.amount,
                                    routes,
                                    status: ProbeStatus::Success,
                                    message: None,
                                },
                            )
                        } else {
                            self.groupid = self.groupid + 1;
                            self.stage = LoopStage::Probing;
                            LoopAction::Probe(self.groupid)
                        }
                    },
                    _ => {
                        assert(false);
                        LoopAction::Learn
                    },
                }
            },
        }
    }
}

/// The probing of a destination after `events`.
pub open spec fn probed(payment: TestPayment, events: Seq<LoopEventModel>) -> LoopModel
    decreases events.len(),
{
    if events.len() == 0 {
        LoopModel::queued(payment)
    } else {
        probed(payment, events.drop_last()).after(events.last()).0
    }
}

/// The last of `events` calls for this.
pub open spec fn called_for(
    payment: TestPayment,
    events: Seq<LoopEventModel>,
) -> LoopActionModel {
    probed(payment, events.drop_last()).after(events.last()).1
}

/// Each of `events` comes when it may.
pub open spec fn is_probing(payment: TestPayment, events: Seq<LoopEventModel>) -> bool
    decreases events.len(),
{
    events.len() == 0 || {
        &&& is_probing(payment, events.drop_last())
        &&& probed(payment, events.drop_last()).awaits(events.last())
    }
}

/// The attempts that came back among `events`.
pub open spec fn attempts(events: Seq<LoopEventModel>) -> Seq<AttemptModel>
    decreases events.len(),
{
    if events.len() == 0 {
        seq![]
    } else {
        match events.last() {
            LoopEventModel::Attempted(Ok(attempt)) => attempts(events.drop_last()).push(attempt),
            _ => attempts(events.drop_last()),
        }
    }
}

/// The routes that attempts took.
pub open spec fn routes_of(tried: Seq<AttemptModel>) -> Seq<RouteModel> {
    tried.map_values(|attempt: AttemptModel| attempt.route)
}

/// None of the attempts reached the destination.
pub open spec fn none_reached(tried: Seq<AttemptModel>) -> bool {
    forall|i: int|
        0 <= i < tried.len() ==> !(#[trigger] tried[i]).route.failcode.spec_reached()
}

proof fn probing_keeps_track(payment: TestPayment, events: Seq<LoopEventModel>)
    requires
        is_probing(payment, events),
    ensures
        ({
            let m = probed(payment, events);
            let tried = attempts(events);
            &&& m.payment == payment
            &&& match m.stage {
                LoopStageModel::Queued => {
                    &&& m.groupid == 0
                    &&& tried.len() == 0
                    &&& m.routes == routes_of(tried)
                },
                LoopStageModel::Probing => {
                    &&& m.groupid == tried.len() + 1
                    &&& m.routes == routes_of(tried)
                    &&& none_reached(tried)
                },
                LoopStageModel::Learning(attempt) => {
                    &&& tried.len() > 0
                    &&& m.groupid == tried.len()
                    &&& m.routes == routes_of(tried)
                    &&& none_reached(tried.drop_last())
                    &&& attempt == tried.last()
                },
                LoopStageModel::Done => true,
            }
        }),
    decreases events.len(),
{
    let m = probed(payment, events);
    let tried = attempts(events);
    if events.len() == 0 {
        assert(m.routes =~= routes_of(tried));
    } else {
        let before = probed(payment, events.drop_last());
        let had = attempts(events.drop_last());
        probing_keeps_track(payment, events.drop_last());
        match events.last() {
            LoopEventModel::Attempted(Ok(attempt)) => {
                assert(tried.drop_last() =~= had);
                assert(routes_of(tried) =~= routes_of(had).push(attempt.route));
            },
            LoopEventModel::Learned => {
                if m.stage is Probing {
                    assert forall|i: int| 0 <= i < tried.len() implies !(
                    #[trigger] tried[i]).route.failcode.spec_reached() by {
                        if i < tried.len() - 1 {
                            assert(tried.drop_last()[i] == tried[i]);
                        }
                    }
                }
            },
            _ => {},
        }
    }
}

/// The outcome for a destination lists the routes of all the attempts that came back, in
/// the order in which they did. It is a success if and only if the last of them reached
/// the destination, and none before it did. A failure says why, and a success says
/// nothing.
pub proof fn outcome_lists_all_attempts(
    payment: TestPayment,
    events: Seq<LoopEventModel>,
    result: ResultModel,
)
    requires
        events.len() > 0,
        is_probing(payment, events),
        called_for(payment, events) == LoopActionModel::Finish(result),
    ensures
        result.routes == routes_of(attempts(events)),
        result.status is Success <==> attempts(events).len() > 0 && attempts(
            events,
        ).last().route.failcode.spec_reached(),
        result.status is Success ==> none_reached(attempts(events).drop_last()),
        result.status is Failed ==> none_reached(attempts(events)),
        result.status is Failed <==> result.message is Some,
{
    probing_keeps_track(payment, events.drop_last());
    let tried = attempts(events.drop_last());
    assert(attempts(events) == tried);
    if events.last() is Turn {
        assert(result.routes =~= routes_of(tried));
    }
}

/// Where every attempt that came back is one to send `payment`, the outcome is about
/// `payment`, whether the destination was reached or not.
pub proof fn outcome_is_of_the_payment(
    payment: TestPayment,
    events: Seq<LoopEventModel>,
    result: ResultModel,
)
    requires
        events.len() > 0,
        is_probing(payment, events),
        called_for(payment, events) == LoopActionModel::Finish(result),
        forall|i: int|
            0 <= i < attempts(events).len() ==> (#[trigger] attempts(events)[i]).is_of(payment),
    ensures
        result.payment_hash == payment.payment_hash@,
        result.destination == payment.route_hint.src_node_id,
        result.amount == (Amount { msat: payment.amount_msat }),
{
    probing_keeps_track(payment, events.drop_last());
    if result.status is Success {
        outcome_lists_all_attempts(payment, events, result);
        let tried = attempts(events);
        assert(tried[tried.len() - 1].is_of(payment));
    }
}

/// `attempt` is the outcome that some probe with `payment` told.
pub open spec fn was_told(payment: TestPayment, attempt: AttemptModel) -> bool {
    exists|
        probe: SendProbe,
        stage: ProbeStage,
        event: ProbeEvent,
        next: ProbeStage,
        told: ProbeAttempt,
    |
        probe.payment == payment && told@ == attempt && #[trigger] probe.moves(
            stage,
            event,
            next,
            ProbeAction::Finish(Ok(told)),
        )
}

/// When the attempts that came back are those that probes with `payment` told, the outcome
/// is about `payment`.
pub proof fn probes_make_the_outcome(
    payment: TestPayment,
    events: Seq<LoopEventModel>,
    result: ResultModel,
)
    requires
        events.len() > 0,
        is_probing(payment, events),
        called_for(payment, events) == LoopActionModel::Finish(result),
        forall|i: int|
            0 <= i < attempts(events).len() ==> was_told(payment, #[trigger] attempts(events)[i]),
    ensures
        result.payment_hash == payment.payment_hash@,
        result.destination == payment.route_hint.src_node_id,
        result.amount == (Amount { msat: payment.amount_msat }),
{
    let tried = attempts(events);
    assert forall|i: int| 0 <= i < tried.len() implies (#[trigger] tried[i]).is_of(payment) by {
        assert(was_told(payment, tried[i]));
        let (probe, stage, event, next, told) = choose|
            probe: SendProbe,
            stage: ProbeStage,
            event: ProbeEvent,
            next: ProbeStage,
            told: ProbeAttempt,
        |
            probe.payment == payment && told@ == tried[i] && #[trigger] probe.moves(
                stage,
                event,
                next,
                ProbeAction::Finish(Ok(told)),
            );
        crate::probe::told_attempt_is_of_the_payment(probe, stage, event, next, told);
    }
    outcome_is_of_the_payment(payment, events, result);
}

/// The probes of a destination are numbered from one on, without a gap. No two of them
/// have the same number.
pub proof fn probes_are_numbered(
    payment: TestPayment,
    events: Seq<LoopEventModel>,
    groupid: nat,
)
    requires
        events.len() > 0,
        is_probing(payment, events),
        called_for(payment, events) == LoopActionModel::Probe(groupid),
    ensures
        groupid == attempts(events).len() + 1,
{
    probing_keeps_track(payment, events.drop_last());
}

/// An attempt that did not reach the destination calls for another probe, once the node
/// has learned from it, and one that did calls for the outcome.
pub proof fn probing_goes_on(
    payment: TestPayment,
    events: Seq<LoopEventModel>,
    attempt: AttemptModel,
)
    requires
        is_probing(payment, events),
        probed(payment, events).stage is Probing,
    ensures
        ({
            let learned = events.push(LoopEventModel::Attempted(Ok(attempt))).push(
                LoopEventModel::Learned,
            );
            &&& is_probing(payment, learned)
            &&& called_for(payment, learned) is Probe
                <==> !attempt.route.failcode.spec_reached()
            &&& called_for(payment, learned) is Finish <==> attempt.route.failcode.spec_reached()
        }),
{
    let attempted = events.push(LoopEventModel::Attempted(Ok(attempt)));
    let learned = attempted.push(LoopEventModel::Learned);
    assert(attempted.drop_last() =~= events);
    assert(learned.drop_last() =~= attempted);
    assert(is_probing(payment, attempted));
    assert(probed(payment, attempted).stage == LoopStageModel::Learning(attempt));
}

/// The probing of a destination begins in the queue, before the first probe.
pub proof fn probing_begins_in_the_queue(payment: TestPayment, r: ProbeLoop)
    requires
        call_ensures(ProbeLoop::new, (payment,), r),
    ensures
        r.payment == payment,
        r.groupid == 0,
        r.routes.len() == 0,
        r.stage is Queued,
{
    assert(r@.routes.len() == r.routes.len());
}

/// When its turn has come, the first probe is sent. If it never comes, the destination was
/// not reached, no route was tried, and the message says why.
pub proof fn turn_starts_the_probing(
    l: &mut ProbeLoop,
    turn: Result<(), String>,
    r: LoopAction,
)
    requires
        call_ensures(ProbeLoop::step, (l, LoopEvent::Turn(turn)), r),
    ensures
        final(l).payment == old(l).payment,
        turn is Ok ==> {
            &&& r matches LoopAction::Probe(groupid)
            &&& groupid == old(l).groupid + 1
            &&& final(l).groupid == groupid
            &&& final(l).stage is Probing
            &&& final(l).routes.len() == old(l).routes.len()
        },
        turn matches Err(cause) ==> {
            &&& final(l).stage is Done
            &&& r matches LoopAction::Finish(result)
            &&& result.payment_hash@ == old(l).payment.payment_hash@
            &&& result.destination == old(l).payment.route_hint.src_node_id
            &&& result.amount.msat == old(l).payment.amount_msat
            &&& result.routes.len() == 0
            &&& result.status is Failed
            &&& result.message matches Some(m)
            &&& m@ == "failed to acquire probe semaphore: "@ + cause@
        },
{
    assert(final(l)@.routes.len() == final(l).routes.len());
    assert(old(l)@.routes.len() == old(l).routes.len());
    if turn is Err {
        let result = r->Finish_0;
        assert(result@.routes.len() == result.routes.len());
    }
}

/// An attempt that came back is kept as it is, its route behind those of the attempts before
/// it, and the node is to learn from it.
pub proof fn attempt_is_kept_and_learned_from(l: &mut ProbeLoop, attempt: ProbeAttempt, r: LoopAction)
    requires
        call_ensures(ProbeLoop::step, (l, LoopEvent::Attempted(Ok(attempt))), r),
    ensures
        r is Learn,
        final(l).payment == old(l).payment,
        final(l).groupid == old(l).groupid,
        final(l).routes.len() == old(l).routes.len() + 1,
        forall|i: int|
            0 <= i < old(l).routes.len() ==> (#[trigger] final(l).routes@[i])@ == old(l).routes@[i]@,
        final(l).routes@.last()@ == attempt.route@,
        final(l).stage matches LoopStage::Learning(kept) && kept@ == attempt@,
{
    let after = final(l)@.routes;
    let before = old(l)@.routes;
    assert(after.len() == final(l).routes.len());
    assert(before.len() == old(l).routes.len());
    assert forall|i: int| 0 <= i < old(l).routes.len() implies (#[trigger] final(l).routes@[i])@
        == old(l).routes@[i]@ by {
        assert(after[i] == before[i]);
    }
    assert(after.last() == attempt.route@);
    assert(after.last() == final(l).routes@.last()@);
}

/// A probe that failed, or that took too long, ends the probing: the destination was not
/// reached, the routes of all attempts are listed, and the message says what went wrong.
pub proof fn failure_ends_the_probing(
    l: &mut ProbeLoop,
    event: LoopEvent,
    r: LoopAction,
)
    requires
        event is TimedOut || (event matches LoopEvent::Attempted(Err(_))),
        call_ensures(ProbeLoop::step, (l, event), r),
    ensures
        final(l).stage is Done,
        r matches LoopAction::Finish(result) && {
            &&& result.payment_hash@ == old(l).payment.payment_hash@
            &&& result.destination == old(l).payment.route_hint.src_node_id
            &&& result.amount.msat == old(l).payment.amount_msat
            &&& result.routes.len() == old(l).routes.len()
            &&& forall|i: int|
                0 <= i < result.routes.len() ==> (#[trigger] result.routes@[i])@ == old(l).routes@[i]@
            &&& result.status is Failed
            &&& result.message matches Some(m)
            &&& event is TimedOut ==> m@ == "time out while waiting for probe loop to finish"@
            &&& event matches LoopEvent::Attempted(Err(Error::Other(words))) ==> m@ == words@
            &&& event matches LoopEvent::Attempted(Err(Error::NoRoutes(words))) ==> m@
                == "Could not find any routes: "@ + words@
        },
{
    let result = r->Finish_0;
    assert(result@.routes.len() == result.routes.len());
    assert(old(l)@.routes.len() == old(l).routes.len());
    assert forall|i: int| 0 <= i < result.routes.len() implies (#[trigger] result.routes@[i])@
        == old(l).routes@[i]@ by {
        assert(result@.routes[i] == old(l)@.routes[i]);
    }
}

/// After the node learned from an attempt, the probing is over if the attempt reached the
/// destination, and the outcome is a success with the hash, destination and amount of the
/// attempt and the routes of all attempts. If it did not, the next probe is sent, under the
/// next number, however many were sent before.
pub proof fn probing_ends_when_reached(
    l: &mut ProbeLoop,
    attempt: ProbeAttempt,
    reached: bool,
    r: LoopAction,
)
    requires
        old(l).stage == LoopStage::Learning(attempt),
        call_ensures(ErrorCode::reached, (&attempt.route.failcode,), reached),
        call_ensures(ProbeLoop::step, (l, LoopEvent::Learned), r),
    ensures
        final(l).payment == old(l).payment,
        reached ==> {
            &&& final(l).stage is Done
            &&& r matches LoopAction::Finish(result)
            &&& result.payment_hash@ == attempt.payment_hash@
            &&& result.destination == attempt.destination
            &&& result.amount == attempt.amount
            &&& result.routes.len() == old(l).routes.len()
            &&& forall|i: int|
                0 <= i < result.routes.len() ==> (#[trigger] result.routes@[i])@ == old(l).routes@[i]@
            &&& result.status is Success
            &&& result.message is None
        },
        !reached ==> {
            &&& final(l).stage is Probing
            &&& r matches LoopAction::Probe(groupid)
            &&& groupid == old(l).groupid + 1
            &&& final(l).groupid == groupid
            &&& final(l).routes.len() == old(l).routes.len()
            &&& forall|i: int|
                0 <= i < old(l).routes.len() ==> (#[trigger] final(l).routes@[i])@ == old(l).routes@[i]@
        },
{
    let before = old(l)@.routes;
    assert(before.len() == old(l).routes.len());
    if reached {
        let result = r->Finish_0;
        assert(result@.routes.len() == result.routes.len());
        assert forall|i: int| 0 <= i < result.routes.len() implies (#[trigger] result.routes@[i])@
            == old(l).routes@[i]@ by {
            assert(result@.routes[i] == before[i]);
        }
    } else {
        let after = final(l)@.routes;
        assert(after.len() == final(l).routes.len());
        assert forall|i: int| 0 <= i < old(l).routes.len() implies (#[trigger] final(l).routes@[i])@ == old(l).routes@[i]@ by {
            assert(after[i] == before[i]);
        }
    }
}

} // verus!
