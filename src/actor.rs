use vstd::prelude::*;
use crate::crosswalk::{is_crossing, CrosswalkFsm, CrosswalkState};
use crate::stoplight::{StoplightEvent, StoplightFsm, StoplightState};

verus! {

/// A message in the traffic signal's mailbox.
#[derive(Debug, Clone, Copy, PartialEq, Eq, Structural)]
pub enum ToStoplight {
    TimerTick,
    Shutdown,
}

/// A message in the pedestrian signal's mailbox.
#[derive(Debug, Clone, Copy, PartialEq, Eq, Structural)]
pub enum ToCrosswalk {
    TimerTick,
    ButtonPress,
    StoplightState(StoplightState),
    Shutdown,
}

/// Broadcast by the traffic signal when its aspect changes.
#[derive(Debug, Clone, Copy, PartialEq, Eq, Structural)]
pub enum FromStoplight {
    StateUpdate(StoplightState),
}

/// Broadcast by the pedestrian signal when its aspect changes.
#[derive(Debug, Clone, Copy, PartialEq, Eq, Structural)]
pub enum FromCrosswalk {
    StateUpdate(CrosswalkState),
}

/// What an actor does once it has handled one message: nothing to send,
/// a notification to broadcast, or stop.
#[derive(Debug, PartialEq, Eq)]
pub enum Reaction<T> {
    Quiet,
    Notify(T),
    Exit,
}

/// The notifications owed for a move from `before` to `after`: the new
/// value when it differs, nothing otherwise.
pub open spec fn change_of<T>(before: T, after: T) -> Seq<T> {
    if before != after {
        seq![after]
    } else {
        seq![]
    }
}

/// The traffic signal after working through `mailbox` in order, up to the
/// first `Shutdown`; what follows a `Shutdown` is never handled.
pub open spec fn stoplight_drained(f: StoplightFsm, mailbox: Seq<ToStoplight>) -> StoplightFsm
    decreases mailbox.len(),
{
    if mailbox.len() == 0 {
        f
    } else {
        match mailbox[0] {
            ToStoplight::Shutdown => f,
            ToStoplight::TimerTick => stoplight_drained(f.ticked(), mailbox.skip(1)),
        }
    }
}

/// The aspects the traffic signal broadcasts, in order, while working
/// through `mailbox` up to the first `Shutdown`.
pub open spec fn stoplight_published(f: StoplightFsm, mailbox: Seq<ToStoplight>) -> Seq<
    StoplightState,
>
    decreases mailbox.len(),
{
    if mailbox.len() == 0 {
        seq![]
    } else {
        match mailbox[0] {
            ToStoplight::Shutdown => seq![],
            ToStoplight::TimerTick => change_of(f.state, f.ticked().state) + stoplight_published(
                f.ticked(),
                mailbox.skip(1),
            ),
        }
    }
}

/// The pedestrian signal after one message other than `Shutdown`.
pub open spec fn crosswalk_delivered(c: CrosswalkFsm, m: ToCrosswalk) -> CrosswalkFsm {
    match m {
        ToCrosswalk::TimerTick => c.ticked(),
        ToCrosswalk::ButtonPress => c.pressed(),
        ToCrosswalk::StoplightState(s) => c.signalled(s),
        ToCrosswalk::Shutdown => c,
    }
}

/// The pedestrian signal after working through `mailbox` in order, up to
/// the first `Shutdown`.
pub open spec fn crosswalk_drained(c: CrosswalkFsm, mailbox: Seq<ToCrosswalk>) -> CrosswalkFsm
    decreases mailbox.len(),
{
    if mailbox.len() == 0 || mailbox[0] == ToCrosswalk::Shutdown {
        c
    } else {
        crosswalk_drained(crosswalk_delivered(c, mailbox[0]), mailbox.skip(1))
    }
}

/// The aspects the pedestrian signal broadcasts, in order, while working
/// through `mailbox` up to the first `Shutdown`.
pub open spec fn crosswalk_published(c: CrosswalkFsm, mailbox: Seq<ToCrosswalk>) -> Seq<
    CrosswalkState,
>
    decreases mailbox.len(),
{
    if mailbox.len() == 0 || mailbox[0] == ToCrosswalk::Shutdown {
        seq![]
    } else {
        let d = crosswalk_delivered(c, mailbox[0]);
        change_of(c.state, d.state) + crosswalk_published(d, mailbox.skip(1))
    }
}

impl StoplightFsm {
    /// Handles one message from the mailbox. A tick advances the machine
    /// and yields a broadcast of the new aspect if it changed; `Shutdown`
    /// leaves the machine as it is and tells the actor to stop.
    pub fn receive(&mut self, msg: ToStoplight) -> (r: Reaction<FromStoplight>)
        ensures
            msg == ToStoplight::Shutdown ==> *final(self) == *old(self),
            msg == ToStoplight::Shutdown ==> r == Reaction::<FromStoplight>::Exit,
            msg == ToStoplight::TimerTick ==> *final(self) == old(self).ticked(),
            msg == ToStoplight::TimerTick && final(self).state != old(self).state ==> r
                == Reaction::Notify(FromStoplight::StateUpdate(final(self).state)),
            msg == ToStoplight::TimerTick && final(self).state == old(self).state ==> r
                == Reaction::<FromStoplight>::Quiet,
    {
        match msg {
            ToStoplight::Shutdown => Reaction::Exit,
            ToStoplight::TimerTick => match self.handle_event(StoplightEvent::TimerTick) {
                Some(s) => Reaction::Notify(FromStoplight::StateUpdate(s)),
                None => Reaction::Quiet,
            },
        }
    }
}

impl CrosswalkFsm {
    /// Handles one message from the mailbox: a tick, a press or a traffic
    /// broadcast goes to the matching handler, and a change of aspect yields
    /// a broadcast; `Shutdown` leaves the machine as it is and tells the
    /// actor to stop.
    pub fn receive(&mut self, msg: ToCrosswalk) -> (r: Reaction<FromCrosswalk>)
        requires
            old(self).is_safe(),
            msg == ToCrosswalk::TimerTick ==> old(self).timer_ticks_in_state < u32::MAX,
        ensures
            *final(self) == crosswalk_delivered(*old(self), msg),
            final(self).is_safe(),
            msg == ToCrosswalk::Shutdown ==> r == Reaction::<FromCrosswalk>::Exit,
            msg != ToCrosswalk::Shutdown && final(self).state != old(self).state ==> r
                == Reaction::Notify(FromCrosswalk::StateUpdate(final(self).state)),
            msg != ToCrosswalk::Shutdown && final(self).state == old(self).state ==> r
                == Reaction::<FromCrosswalk>::Quiet,
    {
        let changed = match msg {
            ToCrosswalk::Shutdown => {
                return Reaction::Exit;
            },
            ToCrosswalk::TimerTick => self.on_tick(),
            ToCrosswalk::ButtonPress => self.on_button_press(),
            ToCrosswalk::StoplightState(s) => self.on_stoplight_state(s),
        };
        match changed {
            Some(s) => Reaction::Notify(FromCrosswalk::StateUpdate(s)),
            None => Reaction::Quiet,
        }
    }
}

/// Runs the traffic signal's actor over the messages of `mailbox`, in order,
/// until it handles a `Shutdown`; returns the aspects it broadcast.
pub fn run_stoplight(fsm: &mut StoplightFsm, mailbox: &Vec<ToStoplight>) -> (published: Vec<
    StoplightState,
>)
    ensures
        *final(fsm) == stoplight_drained(*old(fsm), mailbox@),
        published@ == stoplight_published(*old(fsm), mailbox@),
{
    let mut published: Vec<StoplightState> = Vec::new();
    let mut i: usize = 0;
    assert(mailbox@.skip(0) =~= mailbox@);
    assert(published@ + stoplight_published(*fsm, mailbox@) =~= stoplight_published(*fsm, mailbox@));
    while i < mailbox.len()
        invariant
            i <= mailbox.len(),
            stoplight_drained(*old(fsm), mailbox@) == stoplight_drained(*fsm, mailbox@.skip(i as int)),
            stoplight_published(*old(fsm), mailbox@) == published@ + stoplight_published(
                *fsm,
                mailbox@.skip(i as int),
            ),
        decreases mailbox.len() - i,
    {
        let msg = mailbox[i];
        let ghost before = *fsm;
        let ghost rest = mailbox@.skip(i as int);
        let ghost earlier = published@;
        assert(rest.skip(1) =~= mailbox@.skip(i + 1));
        assert(rest[0] == msg);
        match fsm.receive(msg) {
            Reaction::Exit => {
                assert(published@ + seq![] =~= published@);
                return published;
            },
            Reaction::Notify(FromStoplight::StateUpdate(s)) => {
                published.push(s);
            },
            Reaction::Quiet => {},
        }
        assert(published@ =~= earlier + change_of(before.state, fsm.state));
        assert(earlier + (change_of(before.state, fsm.state) + stoplight_published(
            *fsm,
            mailbox@.skip(i + 1),
        )) =~= published@ + stoplight_published(*fsm, mailbox@.skip(i + 1)));
        i = i + 1;
    }
    assert(mailbox@.skip(i as int) =~= Seq::<ToStoplight>::empty());
    assert(published@ + seq![] =~= published@);
    published
}

/// Runs the pedestrian signal's actor over the messages of `mailbox`, in
/// order, until it handles a `Shutdown`; returns the aspects it broadcast.
pub fn run_crosswalk(fsm: &mut CrosswalkFsm, mailbox: &Vec<ToCrosswalk>) -> (published: Vec<
    CrosswalkState,
>)
    requires
        old(fsm).is_safe(),
        old(fsm).timer_ticks_in_state + mailbox.len() <= u32::MAX,
    ensures
        *final(fsm) == crosswalk_drained(*old(fsm), mailbox@),
        published@ == crosswalk_published(*old(fsm), mailbox@),
{
    let mut published: Vec<CrosswalkState> = Vec::new();
    let mut i: usize = 0;
    assert(mailbox@.skip(0) =~= mailbox@);
    assert(published@ + crosswalk_published(*fsm, mailbox@) =~= crosswalk_published(*fsm, mailbox@));
    while i < mailbox.len()
        invariant
            i <= mailbox.len(),
            fsm.is_safe(),
            fsm.timer_ticks_in_state <= old(fsm).timer_ticks_in_state + i,
            old(fsm).timer_ticks_in_state + mailbox.len() <= u32::MAX,
            crosswalk_drained(*old(fsm), mailbox@) == crosswalk_drained(*fsm, mailbox@.skip(i as int)),
            crosswalk_published(*old(fsm), mailbox@) == published@ + crosswalk_published(
                *fsm,
                mailbox@.skip(i as int),
            ),
        decreases mailbox.len() - i,
    {
        let msg = mailbox[i];
        let ghost before = *fsm;
        let ghost rest = mailbox@.skip(i as int);
        let ghost earlier = published@;
        assert(rest.skip(1) =~= mailbox@.skip(i + 1));
        assert(rest[0] == msg);
        match fsm.receive(msg) {
            Reaction::Exit => {
                assert(published@ + seq![] =~= published@);
                return published;
            },
            Reaction::Notify(FromCrosswalk::StateUpdate(s)) => {
                published.push(s);
            },
            Reaction::Quiet => {},
        }
        assert(published@ =~= earlier + change_of(before.state, fsm.state));
        assert(earlier + (change_of(before.state, fsm.state) + crosswalk_published(
            *fsm,
            mailbox@.skip(i + 1),
        )) =~= published@ + crosswalk_published(*fsm, mailbox@.skip(i + 1)));
        i = i + 1;
    }
    assert(mailbox@.skip(i as int) =~= Seq::<ToCrosswalk>::empty());
    assert(published@ + seq![] =~= published@);
    published
}

/// Whether the clock synthesises a button press along with tick number
/// `tick` (counted from zero): once every `period` ticks, on the last tick
/// of each period.
pub fn button_press_due(tick: u32, period: u32) -> (due: bool)
    requires
        period > 0,
    ensures
        due == ((tick as int + 1) % (period as int) == 0),
{
    (tick as u64 + 1) % (period as u64) == 0
}

proof fn lemma_drained_stays_safe(c: CrosswalkFsm, mailbox: Seq<ToCrosswalk>)
    requires
        c.is_safe(),
    ensures
        crosswalk_drained(c, mailbox).is_safe(),
    decreases mailbox.len(),
{
    if mailbox.len() > 0 && mailbox[0] != ToCrosswalk::Shutdown {
        lemma_drained_stays_safe(crosswalk_delivered(c, mailbox[0]), mailbox.skip(1));
    }
}

/// Safety of every reachable state: whatever messages the pedestrian
/// signal's actor receives from its start, it shows a crossing aspect only
/// while the last traffic aspect it heard of is red, and it keeps a request
/// waiting only while that aspect is not red.
pub proof fn lemma_reachable_states_are_safe(mailbox: Seq<ToCrosswalk>)
    ensures
        crosswalk_drained(CrosswalkFsm::initial(), mailbox).is_safe(),
        is_crossing(crosswalk_drained(CrosswalkFsm::initial(), mailbox).state) ==> crosswalk_drained(
            CrosswalkFsm::initial(),
            mailbox,
        ).last_known_stoplight == StoplightState::Red,
{
    lemma_drained_stays_safe(CrosswalkFsm::initial(), mailbox);
}

/// The traffic aspect last heard of while working through `mailbox` up to
/// the first `Shutdown`, or `heard` when no traffic broadcast comes first.
pub open spec fn last_heard(heard: StoplightState, mailbox: Seq<ToCrosswalk>) -> StoplightState
    decreases mailbox.len(),
{
    if mailbox.len() == 0 || mailbox[0] == ToCrosswalk::Shutdown {
        heard
    } else {
        match mailbox[0] {
            ToCrosswalk::StoplightState(s) => last_heard(s, mailbox.skip(1)),
            _ => last_heard(heard, mailbox.skip(1)),
        }
    }
}

proof fn lemma_drained_tracks_messages(c: CrosswalkFsm, mailbox: Seq<ToCrosswalk>)
    ensures
        crosswalk_drained(c, mailbox).last_known_stoplight == last_heard(
            c.last_known_stoplight,
            mailbox,
        ),
        crosswalk_published(c, mailbox).len() == 0 ==> crosswalk_drained(c, mailbox).state
            == c.state,
        crosswalk_published(c, mailbox).len() > 0 ==> crosswalk_published(c, mailbox).last()
            == crosswalk_drained(c, mailbox).state,
    decreases mailbox.len(),
{
    if mailbox.len() > 0 && mailbox[0] != ToCrosswalk::Shutdown {
        let d = crosswalk_delivered(c, mailbox[0]);
        let rest = mailbox.skip(1);
        lemma_drained_tracks_messages(d, rest);
        let p = crosswalk_published(d, rest);
        let q = change_of(c.state, d.state);
        assert(crosswalk_published(c, mailbox) == q + p);
        if p.len() > 0 {
            assert((q + p).last() == p.last());
        }
    }
}

/// Safety as the observer sees it: after any messages from the start, when
/// the last aspect the pedestrian signal broadcast is a crossing aspect, the
/// last traffic aspect it was sent is red (or none was sent, and red is
/// assumed at the start).
pub proof fn lemma_crossing_broadcast_only_after_red(mailbox: Seq<ToCrosswalk>)
    ensures
        crosswalk_published(CrosswalkFsm::initial(), mailbox).len() > 0 && is_crossing(
            crosswalk_published(CrosswalkFsm::initial(), mailbox).last(),
        ) ==> last_heard(StoplightState::Red, mailbox) == StoplightState::Red,
{
    lemma_drained_stays_safe(CrosswalkFsm::initial(), mailbox);
    lemma_drained_tracks_messages(CrosswalkFsm::initial(), mailbox);
}

} // verus!
