//! Probing a destination once.

use crate::error::Error;
use crate::results::ProbeAttempt;
use vstd::prelude::*;

verus! {

/// How far a single probe has come.
#[derive(Debug)]
pub enum SingleStage {
    /// The probe is under way.
    Probing,
    /// The node learns from this attempt.
    Learning(ProbeAttempt),
    /// It is over.
    Done,
}

/// What came of the last thing that was done.
#[derive(Debug)]
pub enum SingleEvent {
    /// The probe came back.
    Probed(Result<ProbeAttempt, Error>),
    /// The node learned what it could.
    Learned,
}

/// What is to be done next.
#[derive(Debug)]
pub enum SingleAction {
    /// The node is to learn from the attempt at hand.
    Learn,
    /// It is over, and this is the answer.
    Finish(Result<ProbeAttempt, Error>),
}

impl SingleStage {
    /// At this stage `event` comes next.
    pub open spec fn awaits(self, event: SingleEvent) -> bool {
        match (self, event) {
            (SingleStage::Probing, SingleEvent::Probed(_)) => true,
            (SingleStage::Learning(_), SingleEvent::Learned) => true,
            _ => false,
        }
    }

    /// How `event` changes the stage, and what it calls for. A probe that failed is answered
    /// at once. An attempt is first learned from, and answered whatever came of that.
    pub open spec fn after(self, event: SingleEvent) -> (SingleStage, SingleAction) {
        match event {
            SingleEvent::Probed(Err(e)) => (SingleStage::Done, SingleAction::Finish(Err(e))),
            SingleEvent::Probed(Ok(attempt)) => (
                SingleStage::Learning(attempt),
                SingleAction::Learn,
            ),
            SingleEvent::Learned => (
                SingleStage::Done,
                SingleAction::Finish(Ok(self->Learning_0)),
            ),
        }
    }

    /// Takes note of what came of the last thing that was done, and tells how far the probe
    /// has come and what is to be done next.
    pub fn step(self, event: SingleEvent) -> (r: (SingleStage, SingleAction))
        requires
            self.awaits(event),
        ensures
            r == self.after(event),
    {
        match (self, event) {
            (SingleStage::Probing, SingleEvent::Probed(Err(e))) => (
                SingleStage::Done,
                SingleAction::Finish(Err(e)),
            ),
            (SingleStage::Probing, SingleEvent::Probed(Ok(attempt))) => (
                SingleStage::Learning(attempt),
                SingleAction::Learn,
            ),
            (SingleStage::Learning(attempt), SingleEvent::Learned) => (
                SingleStage::Done,
                SingleAction::Finish(Ok(attempt)),
            ),
            (stage, _) => {
                assert(false);
                (stage, SingleAction::Learn)
            },
        }
    }
}

/// A probe that failed is answered with its error, and the node learns nothing. An attempt
/// is learned from once and then answered as it is.
pub proof fn attempt_is_learned_from_once(outcome: Result<ProbeAttempt, Error>)
    ensures
        ({
            let (next, action) = SingleStage::Probing.after(SingleEvent::Probed(outcome));
            match outcome {
                Err(e) => {
                    &&& action == SingleAction::Finish(outcome)
                    &&& next is Done
                },
                Ok(attempt) => {
                    &&& action is Learn
                    &&& next == SingleStage::Learning(attempt)
                    &&& next.after(SingleEvent::Learned) == (
                        SingleStage::Done,
                        SingleAction::Finish(outcome),
                    )
                },
            }
        }),
{
}

/// Whoever probes once gets the error of the probe at once, or the attempt as it is after
/// the node was asked once to learn from it.
pub proof fn single_probe_answers_its_attempt(
    outcome: Result<ProbeAttempt, Error>,
    first: (SingleStage, SingleAction),
    second: (SingleStage, SingleAction),
)
    requires
        call_ensures(
            SingleStage::step,
            (SingleStage::Probing, SingleEvent::Probed(outcome)),
            first,
        ),
        outcome is Ok ==> call_ensures(
            SingleStage::step,
            (first.0, SingleEvent::Learned),
            second,
        ),
    ensures
        outcome is Err ==> first.0 is Done && first.1 == SingleAction::Finish(outcome),
        outcome matches Ok(attempt) ==> {
            &&& first.0 == SingleStage::Learning(attempt)
            &&& first.1 is Learn
            &&& second.0 is Done
            &&& second.1 == SingleAction::Finish(outcome)
        },
{
}

} // verus!
