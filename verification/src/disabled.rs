//! Channels that are switched off for some time.

use crate::error::{Error, ErrorModel};
use crate::primitives::ShortChannelIdDir;
use crate::requests::AskreneupdatechannelRequest;
use vstd::multiset::Multiset;
use vstd::prelude::*;

verus! {

/// A moment: seconds since the beginning of 1970, and nanoseconds after that second.
#[derive(Debug, Clone, Copy, PartialEq, Eq, Structural)]
pub struct Moment {
    pub secs: i64,
    pub nanos: u32,
}

impl Moment {
    /// This moment comes after `other`.
    pub open spec fn spec_after(self, other: Moment) -> bool {
        self.secs > other.secs || (self.secs == other.secs && self.nanos > other.nanos)
    }

    /// Whether this moment comes after `other`.
    pub fn after(&self, other: &Moment) -> (r: bool)
        ensures
            r == self.spec_after(*other),
    {
        self.secs > other.secs || (self.secs == other.secs && self.nanos > other.nanos)
    }

    /// The moment `secs` seconds before this one, if it can be told.
    pub fn checked_sub(&self, secs: u64) -> (r: Option<Moment>)
        ensures
            match r {
                Some(m) => m.secs == self.secs - secs && m.nanos == self.nanos,
                None => self.secs - secs < i64::MIN,
            },
    {
        match self.secs.checked_sub_unsigned(secs) {
            Some(secs) => Some(Moment { secs, nanos: self.nanos }),
            None => None,
        }
    }
}

/// A channel that was switched off, and when.
#[derive(Debug, Clone, Copy, PartialEq, Eq, Structural)]
pub struct DisabledChannel {
    pub scidd: ShortChannelIdDir,
    pub time: Moment,
}

/// The channels that are switched off, of which the one that was switched off first is
/// at hand.
#[derive(Debug)]
pub struct DisabledChannels {
    entries: Vec<DisabledChannel>,
}

/// No entry comes after one that stands before it.
spec fn youngest_first(entries: Seq<DisabledChannel>) -> bool {
    forall|i: int, j: int|
        0 <= i < j < entries.len() ==> !(#[trigger] entries[j].time).spec_after(
            (#[trigger] entries[i]).time,
        )
}

/// `c` is one of `channels`, and none of them was switched off before it.
pub open spec fn is_oldest(channels: Multiset<DisabledChannel>, c: DisabledChannel) -> bool {
    &&& channels.count(c) > 0
    &&& forall|d: DisabledChannel| #[trigger]
        channels.count(d) > 0 ==> !c.time.spec_after(d.time)
}

proof fn last_is_oldest(entries: Seq<DisabledChannel>)
    requires
        youngest_first(entries),
        entries.len() > 0,
    ensures
        is_oldest(entries.to_multiset(), entries.last()),
{
    broadcast use vstd::seq_lib::group_to_multiset_ensures;

    assert(entries.contains(entries.last()));
    assert forall|d: DisabledChannel| #[trigger]
        entries.to_multiset().count(d) > 0 implies !entries.last().time.spec_after(d.time) by {
        assert(entries.contains(d));
        let i = choose|i: int| 0 <= i < entries.len() && entries[i] == d;
        if i < entries.len() - 1 {
            assert(!entries[entries.len() - 1].time.spec_after(entries[i].time));
        }
    }
}

impl View for DisabledChannels {
    type V = Multiset<DisabledChannel>;

    closed spec fn view(&self) -> Multiset<DisabledChannel> {
        self.entries@.to_multiset()
    }
}

impl DisabledChannels {
    #[verifier::type_invariant]
    spec fn inv(self) -> bool {
        youngest_first(self.entries@)
    }

    /// The channel that is at hand.
    pub closed spec fn at_hand(self) -> Option<DisabledChannel> {
        if self.entries@.len() == 0 {
            None
        } else {
            Some(self.entries@.last())
        }
    }

    /// No channel is switched off.
    pub fn new() -> (r: DisabledChannels)
        ensures
            r@ == Multiset::<DisabledChannel>::empty(),
    {
        broadcast use vstd::seq_lib::group_to_multiset_ensures;

        let r = DisabledChannels { entries: Vec::new() };
        assert(r@ =~= Multiset::<DisabledChannel>::empty());
        r
    }

    /// The number of channels that are switched off.
    pub fn len(&self) -> (r: usize)
        ensures
            r == self@.len(),
    {
        broadcast use vstd::seq_lib::group_to_multiset_ensures;

        self.entries.len()
    }

    /// Switches one more channel off.
    pub fn push(&mut self, c: DisabledChannel)
        ensures
            final(self)@ == old(self)@.insert(c),
    {
        broadcast use vstd::seq_lib::group_to_multiset_ensures;

        proof {
            use_type_invariant(&*self);
        }
        let mut entries: Vec<DisabledChannel> = Vec::new();
        std::mem::swap(&mut entries, &mut self.entries);
        let ghost before = entries@;
        let mut k: usize = 0;
        while k < entries.len() && entries[k].time.after(&c.time)
            invariant
                entries@ == before,
                k <= entries.len(),
                youngest_first(entries@),
                forall|i: int| 0 <= i < k ==> (#[trigger] entries@[i]).time.spec_after(c.time),
            decreases entries.len() - k,
        {
            k += 1;
        }
        entries.insert(k, c);
        proof {
            assert(entries@ =~= before.insert(k as int, c));
            vstd::seq_lib::to_multiset_insert(before, k as int, c);
            assert forall|i: int, j: int| 0 <= i < j < entries@.len() implies !(
            #[trigger] entries@[j].time).spec_after((#[trigger] entries@[i]).time) by {
                let bi = if i < k { i } else { i - 1 };
                let bj = if j < k { j } else { j - 1 };
                if i != k && j != k {
                    assert(entries@[i] == before[bi]);
                    assert(entries@[j] == before[bj]);
                    assert(!before[bj].time.spec_after(before[bi].time));
                } else if j == k {
                    assert(entries@[i] == before[i]);
                } else {
                    assert(entries@[j] == before[bj]);
                    assert(!before[k as int].time.spec_after(c.time));
                    if bj > k {
                        assert(!before[bj].time.spec_after(before[k as int].time));
                    }
                }
            }
        }
        self.entries = entries;
    }

    /// The channel that was switched off first, if any is switched off.
    pub fn peek(&self) -> (r: Option<DisabledChannel>)
        ensures
            r == self.at_hand(),
            match r {
                Some(c) => is_oldest(self@, c),
                None => self@.len() == 0,
            },
    {
        broadcast use vstd::seq_lib::group_to_multiset_ensures;

        proof {
            use_type_invariant(self);
        }
        let n = self.entries.len();
        if n == 0 {
            return None;
        }
        proof {
            last_is_oldest(self.entries@);
        }
        Some(self.entries[n - 1])
    }

    /// Takes the channel that was switched off first out, if any is switched off.
    pub fn pop(&mut self) -> (r: Option<DisabledChannel>)
        ensures
            r == old(self).at_hand(),
            match r {
                Some(c) => {
                    &&& is_oldest(old(self)@, c)
                    &&& final(self)@ == old(self)@.remove(c)
                },
                None => old(self)@.len() == 0 && final(self)@ == old(self)@,
            },
    {
        broadcast use vstd::seq_lib::group_to_multiset_ensures;

        proof {
            use_type_invariant(&*self);
        }
        let mut entries: Vec<DisabledChannel> = Vec::new();
        std::mem::swap(&mut entries, &mut self.entries);
        let ghost before = entries@;
        let r = entries.pop();
        proof {
            if before.len() > 0 {
                last_is_oldest(before);
                assert(entries@ =~= before.remove(before.len() - 1));
                vstd::seq_lib::to_multiset_remove(before, before.len() - 1);
            }
        }
        self.entries = entries;
        r
    }
}

/// Switches `scidd` off at the moment `now`: notes it, and gives the request that does
/// it in `layer`.
pub fn disable_channel(
    disabled: &mut DisabledChannels,
    scidd: ShortChannelIdDir,
    now: Moment,
    layer: &str,
) -> (r: AskreneupdatechannelRequest)
    ensures
        final(disabled)@ == old(disabled)@.insert(DisabledChannel { scidd, time: now }),
        r.switches(layer@, scidd, false),
{
    disabled.push(DisabledChannel { scidd, time: now });
    AskreneupdatechannelRequest::switch(layer, scidd, false)
}

/// The request that switches `scidd` on again in `layer`.
pub fn reenable_channel(scidd: ShortChannelIdDir, layer: &str) -> (r: AskreneupdatechannelRequest)
    ensures
        r.switches(layer@, scidd, true),
{
    AskreneupdatechannelRequest::switch(layer, scidd, true)
}

/// A round in which channels are switched on again that were switched off at `cutoff` or
/// before. `reenabled` counts those for which that succeeded.
#[derive(Debug, Clone, Copy)]
pub struct AgeDisabled {
    pub cutoff: Moment,
    pub reenabled: usize,
}

/// What was just done in a round.
#[derive(Debug, Clone, Copy, PartialEq, Eq, Structural)]
pub enum AgeEvent {
    /// The round begins.
    Begun,
    /// The channel at hand was switched on.
    Reenabled,
    /// The channel at hand could not be switched on.
    Refused,
}

/// What is to be done next in a round.
#[derive(Debug)]
pub enum AgeAction {
    /// The request is to be made, which switches the channel at hand on.
    Reenable(AskreneupdatechannelRequest),
    /// The round is over, with so many channels switched on.
    Finish(usize),
}

/// All of `channels` were switched off after `cutoff`.
pub open spec fn all_after(channels: Multiset<DisabledChannel>, cutoff: Moment) -> bool {
    forall|c: DisabledChannel| #[trigger] channels.count(c) > 0 ==> c.time.spec_after(cutoff)
}

/// `after` is `before` without a channel that was switched off first, at `cutoff` or
/// before.
pub open spec fn one_reenabled(
    cutoff: Moment,
    before: Multiset<DisabledChannel>,
    after: Multiset<DisabledChannel>,
) -> bool {
    exists|c: DisabledChannel| #[trigger]
        is_oldest(before, c) && !c.time.spec_after(cutoff) && after == before.remove(c)
}

impl AgeDisabled {
    /// The channel that is to be switched on next, if there is one.
    pub open spec fn due(self, disabled: DisabledChannels) -> Option<DisabledChannel> {
        match disabled.at_hand() {
            Some(c) => if c.time.spec_after(self.cutoff) {
                None
            } else {
                Some(c)
            },
            None => None,
        }
    }

    /// A round for what was switched off `age_time_secs` before `now`, or earlier.
    pub fn start(now: Moment, age_time_secs: u64) -> (r: Result<AgeDisabled, Error>)
        ensures
            match r {
                Ok(round) => {
                    &&& round.cutoff.secs == now.secs - age_time_secs
                    &&& round.cutoff.nanos == now.nanos
                    &&& round.reenabled == 0
                },
                Err(e) => now.secs - age_time_secs < i64::MIN && e@ == ErrorModel::Other(
                    "cutoff goes out of bounds"@,
                ),
            },
    {
        match now.checked_sub(age_time_secs) {
            Some(cutoff) => Ok(AgeDisabled { cutoff, reenabled: 0 }),
            None => Err(Error::other("cutoff goes out of bounds")),
        }
    }

    /// Takes note of what was just done, and tells what is to be done next. The channel at
    /// hand is forgotten once it was switched on. When it could not be switched on it is
    /// kept, and the round is over.
    pub fn step(&mut self, disabled: &mut DisabledChannels, layer: &str, event: AgeEvent) -> (r:
        AgeAction)
        requires
            event is Reenabled ==> old(self).due(*old(disabled)) is Some,
            old(self).reenabled + old(disabled)@.len() <= usize::MAX,
        ensures
            final(self).cutoff == old(self).cutoff,
            final(self).reenabled + final(disabled)@.len() == old(self).reenabled + old(
                disabled,
            )@.len(),
            event is Reenabled ==> {
                &&& final(self).reenabled == old(self).reenabled + 1
                &&& final(disabled)@ == old(disabled)@.remove(
                    old(self).due(*old(disabled))->0,
                )
                &&& one_reenabled(old(self).cutoff, old(disabled)@, final(disabled)@)
            },
            !(event is Reenabled) ==> {
                &&& final(self).reenabled == old(self).reenabled
                &&& *final(disabled) == *old(disabled)
            },
            match r {
                AgeAction::Reenable(request) => {
                    &&& !(event is Refused)
                    &&& final(self).due(*final(disabled)) matches Some(c) && is_oldest(
                        final(disabled)@,
                        c,
                    ) && request.switches(layer@, c.scidd, true)
                },
                AgeAction::Finish(n) => {
                    &&& n == final(self).reenabled
                    &&& event is Refused || {
                        &&& final(self).due(*final(disabled)) is None
                        &&& all_after(final(disabled)@, final(self).cutoff)
                    }
                },
            },
    {
        match event {
            AgeEvent::Begun => {},
            AgeEvent::Reenabled => {
                let _ = disabled.pop();
                self.reenabled = self.reenabled + 1;
            },
            AgeEvent::Refused => {
                return AgeAction::Finish(self.reenabled);
            },
        }
        match disabled.peek() {
            Some(c) => {
                if c.time.after(&self.cutoff) {
                    AgeAction::Finish(self.reenabled)
                } else {
                    AgeAction::Reenable(reenable_channel(c.scidd, layer))
                }
            },
            None => AgeAction::Finish(self.reenabled),
        }
    }
}

/// The channels as they stand between the steps of a round: in each step one of them is
/// switched on.
pub open spec fn is_round(cutoff: Moment, states: Seq<Multiset<DisabledChannel>>) -> bool {
    forall|i: int|
        0 <= i < states.len() - 1 ==> one_reenabled(cutoff, #[trigger] states[i], states[i + 1])
}

/// A round that comes to its end switches on exactly the channels that were switched off
/// at the cutoff or before: those that were switched off after it all stay, and nothing
/// else does. In every step one channel goes.
pub proof fn round_reenables_the_old(
    cutoff: Moment,
    states: Seq<Multiset<DisabledChannel>>,
)
    requires
        states.len() > 0,
        is_round(cutoff, states),
        all_after(states.last(), cutoff),
    ensures
        states.last() == states[0].filter(|c: DisabledChannel| c.time.spec_after(cutoff)),
        states[0].len() == states.last().len() + (states.len() - 1),
{
    let young = |c: DisabledChannel| c.time.spec_after(cutoff);
    round_keeps_the_young(cutoff, states);
    assert(states.last().filter(young) =~= states.last());
}

/// A round that comes to its end switches a channel on again if and only if the channel was
/// switched off at the cutoff or before, whatever other channels are switched off, and it
/// treats the others as if this one had never been switched off.
pub proof fn disabled_channel_comes_back(
    others: Multiset<DisabledChannel>,
    c: DisabledChannel,
    cutoff: Moment,
    states: Seq<Multiset<DisabledChannel>>,
)
    requires
        states.len() > 0,
        states[0] == others.insert(c),
        is_round(cutoff, states),
        all_after(states.last(), cutoff),
    ensures
        ({
            let kept = others.filter(|d: DisabledChannel| d.time.spec_after(cutoff));
            states.last() == if c.time.spec_after(cutoff) {
                kept.insert(c)
            } else {
                kept
            }
        }),
{
    let young = |d: DisabledChannel| d.time.spec_after(cutoff);
    round_reenables_the_old(cutoff, states);
    if young(c) {
        assert(others.insert(c).filter(young) =~= others.filter(young).insert(c));
    } else {
        assert(others.insert(c).filter(young) =~= others.filter(young));
    }
}

/// A round, whether or not it came to its end, keeps all the channels that were switched
/// off after the cutoff, and in every step one channel goes.
pub proof fn round_keeps_the_young(cutoff: Moment, states: Seq<Multiset<DisabledChannel>>)
    requires
        states.len() > 0,
        is_round(cutoff, states),
    ensures
        states.last().filter(|c: DisabledChannel| c.time.spec_after(cutoff))
            == states[0].filter(|c: DisabledChannel| c.time.spec_after(cutoff)),
        states[0].len() == states.last().len() + (states.len() - 1),
    decreases states.len(),
{
    let young = |c: DisabledChannel| c.time.spec_after(cutoff);
    if states.len() > 1 {
        let n = states.len();
        let front = states.drop_last();
        assert(is_round(cutoff, front)) by {
            assert forall|i: int| 0 <= i < front.len() - 1 implies one_reenabled(
                cutoff,
                #[trigger] front[i],
                front[i + 1],
            ) by {
                assert(one_reenabled(cutoff, states[i], states[i + 1]));
            }
        }
        round_keeps_the_young(cutoff, front);
        assert(one_reenabled(cutoff, states[n - 2], states[n - 1]));
        let c = choose|c: DisabledChannel| #[trigger]
            is_oldest(states[n - 2], c) && !c.time.spec_after(cutoff) && states[n - 1]
                == states[n - 2].remove(c);
        assert(states[n - 1].filter(young) =~= states[n - 2].filter(young));
    }
}

/// One moment comes after another exactly when more nanoseconds have gone by until then.
pub proof fn later_moments_come_after(m: Moment, n: Moment, r: bool)
    requires
        m.nanos < 1_000_000_000,
        n.nanos < 1_000_000_000,
        call_ensures(Moment::after, (&m, &n), r),
    ensures
        r <==> m.secs * 1_000_000_000 + m.nanos > n.secs * 1_000_000_000 + n.nanos,
        m.spec_after(n) <==> m.secs * 1_000_000_000 + m.nanos > n.secs * 1_000_000_000 + n.nanos,
        m.secs > n.secs ==> r,
        m.secs < n.secs ==> !r,
{
}

/// The moment so many seconds ago lies that many seconds back, to the nanosecond, and can be
/// told unless its seconds do not fit.
pub proof fn earlier_moment_lies_back(m: Moment, secs: u64, r: Option<Moment>)
    requires
        call_ensures(Moment::checked_sub, (&m, secs), r),
    ensures
        r is Some <==> m.secs - secs >= i64::MIN,
        r matches Some(e) ==> e.secs * 1_000_000_000 + e.nanos + secs * 1_000_000_000 == m.secs
            * 1_000_000_000 + m.nanos,
        r matches Some(e) ==> e.nanos == m.nanos,
{
}

/// The cutoff of a round lies the age before the moment at which the round starts. Nothing
/// was switched on yet.
pub proof fn cutoff_lies_the_age_back(now: Moment, age_time_secs: u64, r: Result<AgeDisabled, Error>)
    requires
        call_ensures(AgeDisabled::start, (now, age_time_secs), r),
    ensures
        r is Ok <==> now.secs - age_time_secs >= i64::MIN,
        r matches Ok(round) ==> {
            &&& round.cutoff.secs == now.secs - age_time_secs
            &&& round.cutoff.nanos == now.nanos
            &&& round.reenabled == 0
        },
        r matches Err(e) ==> (e matches Error::Other(words) && words@
            == "cutoff goes out of bounds"@),
{
}

/// Nothing is switched off at first.
pub proof fn first_no_channel_is_off(q: DisabledChannels, n: usize)
    requires
        call_ensures(DisabledChannels::new, (), q),
        call_ensures(DisabledChannels::len, (&q,), n),
    ensures
        n == 0,
        forall|d: DisabledChannel| #[trigger] q@.count(d) == 0,
{
}

/// A channel that is switched off is there once more than before, and the others are there
/// as often as before.
pub proof fn pushed_channel_is_kept(q: &mut DisabledChannels, c: DisabledChannel, n: usize)
    requires
        call_ensures(DisabledChannels::push, (q, c), ()),
        call_ensures(DisabledChannels::len, (&*final(q),), n),
    ensures
        final(q)@.count(c) == old(q)@.count(c) + 1,
        forall|d: DisabledChannel|
            d != c ==> #[trigger] final(q)@.count(d) == old(q)@.count(d),
        n == old(q)@.len() + 1,
{
}

/// The channel that is taken out was at hand, and no other was switched off earlier. It is
/// there once less than before, and the others are there as often as before. None is taken
/// out only if none is there.
pub proof fn popped_channel_is_the_oldest(
    q: &mut DisabledChannels,
    seen: Option<DisabledChannel>,
    r: Option<DisabledChannel>,
)
    requires
        call_ensures(DisabledChannels::peek, (&*old(q),), seen),
        call_ensures(DisabledChannels::pop, (q,), r),
        forall|d: DisabledChannel| #[trigger]
            old(q)@.count(d) > 0 ==> d.time.nanos < 1_000_000_000,
    ensures
        seen == r,
        r is None <==> old(q)@.len() == 0,
        r is None ==> final(q)@ == old(q)@,
        r matches Some(c) ==> {
            &&& old(q)@.count(c) > 0
            &&& final(q)@.count(c) == old(q)@.count(c) - 1
            &&& forall|d: DisabledChannel|
                d != c ==> #[trigger] final(q)@.count(d) == old(q)@.count(d)
            &&& forall|d: DisabledChannel| #[trigger]
                old(q)@.count(d) > 0 ==> c.time.secs * 1_000_000_000 + c.time.nanos
                    <= d.time.secs * 1_000_000_000 + d.time.nanos
        },
{
    if old(q)@.len() == 0 {
        if let Some(c) = r {
            assert(old(q)@.count(c) > 0);
            assert(old(q)@.remove(c).len() == old(q)@.len() - 1);
        }
    }
}

/// A channel that is switched off is noted with the moment, once, and the request switches
/// off this channel in this layer.
pub proof fn disabling_notes_the_channel(
    q: &mut DisabledChannels,
    scidd: ShortChannelIdDir,
    now: Moment,
    layer: &str,
    r: AskreneupdatechannelRequest,
)
    requires
        call_ensures(disable_channel, (q, scidd, now, layer), r),
    ensures
        final(q)@.count(DisabledChannel { scidd, time: now }) == old(q)@.count(
            DisabledChannel { scidd, time: now },
        ) + 1,
        forall|d: DisabledChannel|
            d.scidd != scidd || d.time != now ==> #[trigger] final(q)@.count(d) == old(q)@.count(d),
        r.layer@ == layer@,
        r.short_channel_id_dir == scidd,
        r.enabled == Some(false),
        r.cltv_expiry_delta is None && r.fee_base_msat is None,
        r.fee_proportional_millionths is None,
        r.htlc_minimum_msat is None && r.htlc_maximum_msat is None,
{
}

/// The request that switches a channel on again is the one that switched it off, but for
/// that.
pub proof fn reenabling_undoes_disabling(
    q: &mut DisabledChannels,
    scidd: ShortChannelIdDir,
    now: Moment,
    layer: &str,
    off: AskreneupdatechannelRequest,
    on: AskreneupdatechannelRequest,
)
    requires
        call_ensures(disable_channel, (q, scidd, now, layer), off),
        call_ensures(reenable_channel, (scidd, layer), on),
    ensures
        on.enabled == Some(true),
        off.enabled == Some(false),
        on.layer@ == off.layer@,
        on.short_channel_id_dir == scidd,
        off.short_channel_id_dir == scidd,
        on.cltv_expiry_delta == off.cltv_expiry_delta,
        on.fee_base_msat == off.fee_base_msat,
        on.fee_proportional_millionths == off.fee_proportional_millionths,
        on.htlc_minimum_msat == off.htlc_minimum_msat,
        on.htlc_maximum_msat == off.htlc_maximum_msat,
{
}

/// In a round only a channel is switched on that was switched off at the cutoff or before,
/// and of all channels first one that was switched off first. The round goes on as long as
/// there is such a channel, unless one could not be switched on, and it tells how many were.
pub proof fn round_step_takes_the_oldest(
    round: &mut AgeDisabled,
    q: &mut DisabledChannels,
    layer: &str,
    event: AgeEvent,
    r: AgeAction,
)
    requires
        call_ensures(AgeDisabled::step, (round, q, layer, event), r),
        old(round).cutoff.nanos < 1_000_000_000,
        forall|d: DisabledChannel| #[trigger]
            final(q)@.count(d) > 0 ==> d.time.nanos < 1_000_000_000,
    ensures
        final(round).cutoff == old(round).cutoff,
        final(round).reenabled == old(round).reenabled + if event is Reenabled {
            1int
        } else {
            0
        },
        match r {
            AgeAction::Reenable(request) => {
                &&& !(event is Refused)
                &&& request.layer@ == layer@
                &&& request.enabled == Some(true)
                &&& request.cltv_expiry_delta is None && request.fee_base_msat is None
                &&& request.fee_proportional_millionths is None
                &&& request.htlc_minimum_msat is None && request.htlc_maximum_msat is None
                &&& exists|c: DisabledChannel| #[trigger]
                    final(q)@.count(c) > 0 && request.short_channel_id_dir == c.scidd
                        && c.time.secs * 1_000_000_000 + c.time.nanos <= old(round).cutoff.secs
                        * 1_000_000_000 + old(round).cutoff.nanos && forall|d: DisabledChannel|
                        #[trigger]
                        final(q)@.count(d) > 0 ==> c.time.secs * 1_000_000_000 + c.time.nanos
                            <= d.time.secs * 1_000_000_000 + d.time.nanos
            },
            AgeAction::Finish(n) => {
                &&& n == final(round).reenabled
                &&& !(event is Refused) ==> forall|d: DisabledChannel| #[trigger]
                    final(q)@.count(d) > 0 ==> d.time.secs * 1_000_000_000 + d.time.nanos
                        > old(round).cutoff.secs * 1_000_000_000 + old(round).cutoff.nanos
            },
        },
{
    if let AgeAction::Reenable(request) = r {
        let c = final(round).due(*final(q))->0;
        assert(final(q)@.count(c) > 0);
        assert forall|d: DisabledChannel| #[trigger] final(q)@.count(d) > 0 implies c.time.secs
            * 1_000_000_000 + c.time.nanos <= d.time.secs * 1_000_000_000 + d.time.nanos by {
            assert(!c.time.spec_after(d.time));
        }
    }
}

/// In a round a channel is forgotten exactly when it was switched on: one that was switched
/// off at the cutoff or before. Nothing else changes.
pub proof fn round_step_forgets_what_is_on(
    round: &mut AgeDisabled,
    q: &mut DisabledChannels,
    layer: &str,
    event: AgeEvent,
    r: AgeAction,
)
    requires
        call_ensures(AgeDisabled::step, (round, q, layer, event), r),
        old(round).cutoff.nanos < 1_000_000_000,
        forall|d: DisabledChannel| #[trigger]
            old(q)@.count(d) > 0 ==> d.time.nanos < 1_000_000_000,
    ensures
        !(event is Reenabled) ==> *final(q) == *old(q),
        event is Reenabled ==> exists|c: DisabledChannel| #[trigger]
            old(q)@.count(c) > 0 && final(q)@ == old(q)@.remove(c) && c.time.secs * 1_000_000_000
                + c.time.nanos <= old(round).cutoff.secs * 1_000_000_000 + old(round).cutoff.nanos,
{
    if event is Reenabled {
        let c = choose|c: DisabledChannel| #[trigger]
            is_oldest(old(q)@, c) && !c.time.spec_after(old(round).cutoff) && final(q)@ == old(q)@.remove(c);
        assert(old(q)@.count(c) > 0);
    }
}

/// No round switches a channel on that was switched off less than the age ago.
pub proof fn young_channels_stay_off(
    now: Moment,
    age_time_secs: u64,
    begun: AgeDisabled,
    round: &mut AgeDisabled,
    q: &mut DisabledChannels,
    layer: &str,
    event: AgeEvent,
    request: AskreneupdatechannelRequest,
)
    requires
        call_ensures(AgeDisabled::start, (now, age_time_secs), Ok(begun)),
        old(round).cutoff == begun.cutoff,
        call_ensures(AgeDisabled::step, (round, q, layer, event), AgeAction::Reenable(request)),
        now.nanos < 1_000_000_000,
        forall|d: DisabledChannel| #[trigger]
            final(q)@.count(d) > 0 ==> d.time.nanos < 1_000_000_000,
    ensures
        exists|c: DisabledChannel| #[trigger]
            final(q)@.count(c) > 0 && request.short_channel_id_dir == c.scidd && c.time.secs
                <= now.secs - age_time_secs,
{
    round_step_takes_the_oldest(round, q, layer, event, AgeAction::Reenable(request));
}

/// What the laws of a round call old and young is told by the clock: a round that comes to
/// its end leaves just the channels that were switched off later than the cutoff.
pub proof fn finished_round_leaves_the_young(
    cutoff: Moment,
    states: Seq<Multiset<DisabledChannel>>,
    d: DisabledChannel,
)
    requires
        states.len() > 0,
        is_round(cutoff, states),
        all_after(states.last(), cutoff),
        cutoff.nanos < 1_000_000_000,
        d.time.nanos < 1_000_000_000,
    ensures
        states.last().count(d) == if d.time.secs * 1_000_000_000 + d.time.nanos > cutoff.secs
            * 1_000_000_000 + cutoff.nanos {
            states[0].count(d)
        } else {
            0
        },
{
    round_reenables_the_old(cutoff, states);
}

} // verus!
