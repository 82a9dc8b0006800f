//! The layer in which the node keeps what probes find out.

use crate::requests::{AskreneageRequest, AskrenecreatelayerRequest, AskrenelistlayersRequest};
use vstd::prelude::*;

verus! {

/// The name of the layer.
pub const LNRADAR_LAYER: &'static str = "lnradar";

/// The age, in seconds, from which on knowledge is obsolete: one day. The age that the
/// layer of other payments has, one hour, is too small.
pub const LNRADAR_AGE_TIME_SECS: u64 = 86400;

/// The time, in seconds, between two rounds of aging.
pub const LNRADAR_AGE_PERIOD_SECS: u64 = 60;

/// What the caretaker of the layer is doing.
#[derive(Debug, Clone, Copy, PartialEq, Eq, Structural)]
pub enum LayerTask {
    /// It asks whether the layer exists.
    List,
    /// It creates the layer.
    Create,
    /// It lets time go by.
    Sleep,
    /// It makes the layer forget obsolete knowledge.
    AgeLayer,
    /// It switches channels on again that were switched off long ago.
    AgeDisabled,
}

impl LayerTask {
    /// What comes after the task, which succeeded or failed.
    pub open spec fn spec_next(self, succeeded: bool) -> LayerTask {
        match self {
            LayerTask::List => if succeeded {
                LayerTask::Sleep
            } else {
                LayerTask::Create
            },
            LayerTask::Create => LayerTask::Sleep,
            LayerTask::Sleep => LayerTask::AgeLayer,
            LayerTask::AgeLayer => LayerTask::AgeDisabled,
            LayerTask::AgeDisabled => LayerTask::Sleep,
        }
    }

    /// What the caretaker does first.
    pub fn first() -> (r: LayerTask)
        ensures
            r == LayerTask::List,
    {
        LayerTask::List
    }

    /// What comes after the task, which succeeded or failed.
    pub fn next(self, succeeded: bool) -> (r: LayerTask)
        ensures
            r == self.spec_next(succeeded),
    {
        match self {
            LayerTask::List => {
                if succeeded {
                    LayerTask::Sleep
                } else {
                    LayerTask::Create
                }
            },
            LayerTask::Create => LayerTask::Sleep,
            LayerTask::Sleep => LayerTask::AgeLayer,
            LayerTask::AgeLayer => LayerTask::AgeDisabled,
            LayerTask::AgeDisabled => LayerTask::Sleep,
        }
    }
}

/// What a task consists of.
#[derive(Debug)]
pub enum LayerWork {
    /// A request to make.
    List(AskrenelistlayersRequest),
    /// A request to make.
    Create(AskrenecreatelayerRequest),
    /// So many seconds to wait.
    Wait(u64),
    /// A layer that is to forget what is older than so many seconds.
    AgeLayer(String, u64),
    /// A layer in which the channels are to be switched on again that were switched off so
    /// many seconds ago, or earlier.
    AgeDisabled(String, u64),
}

/// A [`LayerWork`] as mathematics sees it.
pub enum WorkModel {
    List(Option<Seq<char>>),
    Create(Seq<char>, Option<bool>),
    Wait(nat),
    AgeLayer(Seq<char>, nat),
    AgeDisabled(Seq<char>, nat),
}

impl View for LayerWork {
    type V = WorkModel;

    open spec fn view(&self) -> WorkModel {
        match *self {
            LayerWork::List(r) => WorkModel::List(
                match r.layer {
                    Some(name) => Some(name@),
                    None => None,
                },
            ),
            LayerWork::Create(r) => WorkModel::Create(r.layer@, r.persistent),
            LayerWork::Wait(secs) => WorkModel::Wait(secs as nat),
            LayerWork::AgeLayer(layer, secs) => WorkModel::AgeLayer(layer@, secs as nat),
            LayerWork::AgeDisabled(layer, secs) => WorkModel::AgeDisabled(layer@, secs as nat),
        }
    }
}

impl LayerTask {
    /// What the task consists of.
    pub open spec fn spec_work(self) -> WorkModel {
        match self {
            LayerTask::List => WorkModel::List(Some("lnradar"@)),
            LayerTask::Create => WorkModel::Create("lnradar"@, Some(true)),
            LayerTask::Sleep => WorkModel::Wait(60),
            LayerTask::AgeLayer => WorkModel::AgeLayer("lnradar"@, 86400),
            LayerTask::AgeDisabled => WorkModel::AgeDisabled("lnradar"@, 86400),
        }
    }

    /// What the task consists of.
    pub fn work(self) -> (r: LayerWork)
        ensures
            r@ == self.spec_work(),
    {
        match self {
            LayerTask::List => LayerWork::List(list_layer(LNRADAR_LAYER)),
            LayerTask::Create => LayerWork::Create(create_layer(LNRADAR_LAYER)),
            LayerTask::Sleep => LayerWork::Wait(LNRADAR_AGE_PERIOD_SECS),
            LayerTask::AgeLayer => LayerWork::AgeLayer(
                LNRADAR_LAYER.to_string(),
                LNRADAR_AGE_TIME_SECS,
            ),
            LayerTask::AgeDisabled => LayerWork::AgeDisabled(
                LNRADAR_LAYER.to_string(),
                LNRADAR_AGE_TIME_SECS,
            ),
        }
    }
}

/// The question whether `layer` exists.
pub fn list_layer(layer: &str) -> (r: AskrenelistlayersRequest)
    ensures
        r.layer matches Some(name) && name@ == layer@,
{
    AskrenelistlayersRequest { layer: Some(layer.to_string()) }
}

/// The request to create `layer` for good.
pub fn create_layer(layer: &str) -> (r: AskrenecreatelayerRequest)
    ensures
        r.layer@ == layer@,
        r.persistent == Some(true),
{
    AskrenecreatelayerRequest { layer: layer.to_string(), persistent: Some(true) }
}

/// The request that makes `layer` forget what is older than `time_secs`, when it is
/// `now_secs` seconds after the beginning of 1970.
pub fn age_layer(now_secs: u64, layer: &str, time_secs: u64) -> (r: AskreneageRequest)
    requires
        time_secs <= now_secs,
    ensures
        r.layer@ == layer@,
        r.cutoff == now_secs - time_secs,
{
    AskreneageRequest { layer: layer.to_string(), cutoff: now_secs - time_secs }
}

/// What the caretaker does after `outcomes.len()` tasks with these outcomes.
pub open spec fn task_after(outcomes: Seq<bool>) -> LayerTask
    decreases outcomes.len(),
{
    if outcomes.len() == 0 {
        LayerTask::List
    } else {
        task_after(outcomes.drop_last()).spec_next(outcomes.last())
    }
}

/// The layer is created if and only if it was not found, right after it was asked for.
pub proof fn layer_is_created_when_missing(outcomes: Seq<bool>)
    ensures
        task_after(outcomes) is Create <==> outcomes.len() == 1 && !outcomes[0],
    decreases outcomes.len(),
{
    if outcomes.len() > 0 {
        layer_is_created_when_missing(outcomes.drop_last());
        aging_starts(outcomes.drop_last());
    }
}

/// The layer is asked for only at the very beginning.
proof fn aging_starts(outcomes: Seq<bool>)
    ensures
        task_after(outcomes) is List <==> outcomes.len() == 0,
    decreases outcomes.len(),
{
    if outcomes.len() > 0 {
        aging_starts(outcomes.drop_last());
    }
}

/// Whatever fails, once the layer was seen to, the caretaker sleeps, ages the layer and
/// ages the disabled channels, in turns and without end.
pub proof fn aging_goes_on(outcomes: Seq<bool>, a: bool, b: bool, c: bool)
    requires
        task_after(outcomes) is Sleep,
    ensures
        task_after(outcomes.push(a)) is AgeLayer,
        task_after(outcomes.push(a).push(b)) is AgeDisabled,
        task_after(outcomes.push(a).push(b).push(c)) is Sleep,
{
    assert(outcomes.push(a).drop_last() =~= outcomes);
    assert(outcomes.push(a).push(b).drop_last() =~= outcomes.push(a));
    assert(outcomes.push(a).push(b).push(c).drop_last() =~= outcomes.push(a).push(b));
}

/// The caretaker sleeps for the first time after one task or two.
pub proof fn aging_begins(found: bool, created: bool)
    ensures
        found ==> task_after(seq![found]) is Sleep,
        !found ==> task_after(seq![found, created]) is Sleep,
{
    reveal_with_fuel(task_after, 3);
    assert(seq![found].drop_last() =~= Seq::<bool>::empty());
    assert(seq![found, created].drop_last() =~= seq![found]);
}

/// The number of tasks before the caretaker sleeps for the first time: the layer is asked
/// for, and created if it was not found.
pub open spec fn tasks_before_aging(found: bool) -> nat {
    if found {
        1
    } else {
        2
    }
}

/// Once the layer was seen to, the caretaker goes on without end, whatever succeeds and
/// whatever fails: it waits 60 seconds, makes the layer "lnradar" forget what is older than
/// 86400 seconds, and switches the channels on again in it that were switched off that long
/// ago, each once and in this order.
pub proof fn caretaker_ages_every_minute(outcomes: Seq<bool>)
    requires
        outcomes.len() > 0,
        outcomes.len() >= tasks_before_aging(outcomes[0]),
    ensures
        ({
            let turn = (outcomes.len() - tasks_before_aging(outcomes[0])) % 3;
            task_after(outcomes).spec_work() == if turn == 0 {
                WorkModel::Wait(60)
            } else if turn == 1 {
                WorkModel::AgeLayer("lnradar"@, 86400)
            } else {
                WorkModel::AgeDisabled("lnradar"@, 86400)
            }
        }),
{
    turn_of_task(outcomes);
}

proof fn turn_of_task(outcomes: Seq<bool>)
    requires
        outcomes.len() > 0,
        outcomes.len() >= tasks_before_aging(outcomes[0]),
    ensures
        ({
            let turn = (outcomes.len() - tasks_before_aging(outcomes[0])) % 3;
            task_after(outcomes) == if turn == 0 {
                LayerTask::Sleep
            } else if turn == 1 {
                LayerTask::AgeLayer
            } else {
                LayerTask::AgeDisabled
            }
        }),
    decreases outcomes.len(),
{
    let shorter = outcomes.drop_last();
    if outcomes.len() == tasks_before_aging(outcomes[0]) {
        reveal_with_fuel(task_after, 3);
        if outcomes.len() == 2 {
            assert(shorter.drop_last() =~= Seq::<bool>::empty());
            assert(shorter.last() == outcomes[0]);
        }
    } else {
        assert(shorter[0] == outcomes[0]);
        turn_of_task(shorter);
    }
}

/// What the caretaker does first, and what it does after each task. Only the question for
/// the layer makes a difference between success and failure.
pub proof fn tasks_follow_one_another(
    first: LayerTask,
    task: LayerTask,
    found: LayerTask,
    missing: LayerTask,
    succeeded: bool,
    next: LayerTask,
)
    requires
        call_ensures(LayerTask::first, (), first),
        call_ensures(LayerTask::next, (first, true), found),
        call_ensures(LayerTask::next, (first, false), missing),
        call_ensures(LayerTask::next, (task, succeeded), next),
    ensures
        first is List,
        found is Sleep,
        missing is Create,
        task is Create ==> next is Sleep,
        task is Sleep ==> next is AgeLayer,
        task is AgeLayer ==> next is AgeDisabled,
        task is AgeDisabled ==> next is Sleep,
        next == task.spec_next(succeeded),
{
}

/// The tasks are about the layer "lnradar": it is asked for and created for good, and what
/// is older than a day is forgotten and switched on again, every minute.
pub proof fn tasks_are_about_the_layer(task: LayerTask, w: LayerWork)
    requires
        call_ensures(LayerTask::work, (task,), w),
    ensures
        match task {
            LayerTask::List => w matches LayerWork::List(r) && (r.layer matches Some(name) && name@
                == "lnradar"@),
            LayerTask::Create => w matches LayerWork::Create(r) && r.layer@ == "lnradar"@
                && r.persistent == Some(true),
            LayerTask::Sleep => w == LayerWork::Wait(60),
            LayerTask::AgeLayer => w matches LayerWork::AgeLayer(layer, secs) && layer@
                == "lnradar"@ && secs == 24 * 60 * 60,
            LayerTask::AgeDisabled => w matches LayerWork::AgeDisabled(layer, secs) && layer@
                == "lnradar"@ && secs == 24 * 60 * 60,
        },
{
}

/// A request about a layer names this layer. A layer that ages forgets what lies further
/// back than the age, no more and no less.
pub proof fn requests_name_the_layer(
    layer: &str,
    now_secs: u64,
    time_secs: u64,
    list: AskrenelistlayersRequest,
    create: AskrenecreatelayerRequest,
    age: AskreneageRequest,
)
    requires
        call_ensures(list_layer, (layer,), list),
        call_ensures(create_layer, (layer,), create),
        call_ensures(age_layer, (now_secs, layer, time_secs), age),
        time_secs <= now_secs,
    ensures
        list.layer matches Some(name) && name@ == layer@,
        create.layer@ == layer@,
        create.persistent == Some(true),
        age.layer@ == layer@,
        age.cutoff + time_secs == now_secs,
{
}

} // verus!
