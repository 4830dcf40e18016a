use vstd::prelude::*;
use crate::stoplight::StoplightState;

verus! {

/// The aspect shown by the pedestrian signal.
#[derive(Debug, Clone, Copy, PartialEq, Eq, Structural)]
pub enum CrosswalkState {
    DontWalk,
    Walk,
    BlinkingDontWalk,
}

/// The local events of the pedestrian signal. Changes of the traffic
/// signal arrive separately, through `on_stoplight_state`.
#[derive(Debug, Clone, Copy, PartialEq, Eq, Structural)]
pub enum CrosswalkEvent {
    TimerTick,
    ButtonPress,
}

/// Whether pedestrians are being invited to cross (or to finish crossing).
pub open spec fn is_crossing(s: CrosswalkState) -> bool {
    s != CrosswalkState::DontWalk
}

/// Number of ticks a crossing aspect is held before it moves on.
pub open spec fn crossing_dwell(s: CrosswalkState) -> nat {
    match s {
        CrosswalkState::Walk => 3,
        CrosswalkState::BlinkingDontWalk => 2,
        CrosswalkState::DontWalk => 0,
    }
}

/// The pedestrian signal controller: its aspect, how long it has shown it,
/// whether a request waits for red, and the traffic aspect it last heard of.
#[derive(Debug, Clone, Copy, PartialEq, Eq, Structural)]
pub struct CrosswalkFsm {
    pub state: CrosswalkState,
    pub timer_ticks_in_state: u32,
    pub button_pressed_waiting_for_red: bool,
    pub last_known_stoplight: StoplightState,
}

impl CrosswalkFsm {
    pub const WALK_DURATION: u32 = 3;
    pub const BLINKING_DURATION: u32 = 2;

    /// Structural well-formedness: a crossing aspect has no request waiting
    /// and has not yet run out its dwell.
    pub open spec fn wf(self) -> bool {
        is_crossing(self.state) ==> {
            &&& !self.button_pressed_waiting_for_red
            &&& (self.timer_ticks_in_state as nat) < crossing_dwell(self.state)
        }
    }

    /// The safety invariant on top of `wf`: a crossing aspect is shown only
    /// while the last known traffic aspect is red, and a request waits only
    /// while it is not.
    pub open spec fn is_safe(self) -> bool {
        &&& self.wf()
        &&& is_crossing(self.state) ==> self.last_known_stoplight == StoplightState::Red
        &&& self.button_pressed_waiting_for_red ==> self.last_known_stoplight
            != StoplightState::Red
    }

    /// A freshly started controller: don't walk, nothing waiting, traffic
    /// assumed red.
    pub open spec fn initial() -> CrosswalkFsm {
        CrosswalkFsm {
            state: CrosswalkState::DontWalk,
            timer_ticks_in_state: 0,
            button_pressed_waiting_for_red: false,
            last_known_stoplight: StoplightState::Red,
        }
    }

    /// The same controller entering aspect `s` afresh, with no request waiting.
    pub open spec fn entering(self, s: CrosswalkState) -> CrosswalkFsm {
        CrosswalkFsm {
            state: s,
            timer_ticks_in_state: 0,
            button_pressed_waiting_for_red: false,
            last_known_stoplight: self.last_known_stoplight,
        }
    }

    /// The controller with the counter advanced by one and nothing else changed.
    pub open spec fn counted(self) -> CrosswalkFsm {
        CrosswalkFsm { timer_ticks_in_state: (self.timer_ticks_in_state + 1) as u32, ..self }
    }

    /// The same controller having learnt that traffic shows `s`.
    pub open spec fn observing(self, s: StoplightState) -> CrosswalkFsm {
        CrosswalkFsm { last_known_stoplight: s, ..self }
    }

    /// A crossing aspect is shown although traffic is known not to be red.
    pub open spec fn must_preempt(self) -> bool {
        is_crossing(self.state) && self.last_known_stoplight != StoplightState::Red
    }

    /// A request waits and traffic is known to be red.
    pub open spec fn may_grant(self) -> bool {
        self.state == CrosswalkState::DontWalk && self.button_pressed_waiting_for_red
            && self.last_known_stoplight == StoplightState::Red
    }

    /// The controller after one tick.
    pub open spec fn ticked(self) -> CrosswalkFsm {
        if self.must_preempt() {
            self.entering(CrosswalkState::DontWalk)
        } else if self.may_grant() {
            self.entering(CrosswalkState::Walk)
        } else if is_crossing(self.state) && self.timer_ticks_in_state + 1 >= crossing_dwell(
            self.state,
        ) {
            if self.state == CrosswalkState::Walk {
                self.entering(CrosswalkState::BlinkingDontWalk)
            } else {
                self.entering(CrosswalkState::DontWalk)
            }
        } else {
            self.counted()
        }
    }

    /// The controller after a press of the button: only while not crossing
    /// does a press do anything.
    pub open spec fn pressed(self) -> CrosswalkFsm {
        if self.state == CrosswalkState::DontWalk {
            if self.last_known_stoplight == StoplightState::Red {
                self.entering(CrosswalkState::Walk)
            } else {
                CrosswalkFsm { button_pressed_waiting_for_red: true, ..self }
            }
        } else {
            self
        }
    }

    /// The controller after hearing that traffic now shows `s`.
    pub open spec fn signalled(self, s: StoplightState) -> CrosswalkFsm {
        let c = self.observing(s);
        if c.must_preempt() {
            c.entering(CrosswalkState::DontWalk)
        } else if c.may_grant() {
            c.entering(CrosswalkState::Walk)
        } else {
            c
        }
    }

    /// The controller after `event`, delivered while traffic shows `s`.
    pub open spec fn after_event(self, event: CrosswalkEvent, s: StoplightState) -> CrosswalkFsm {
        match event {
            CrosswalkEvent::TimerTick => self.observing(s).ticked(),
            CrosswalkEvent::ButtonPress => self.observing(s).pressed(),
        }
    }

    /// A freshly started controller.
    pub fn new() -> (r: Self)
        ensures
            r == CrosswalkFsm::initial(),
            r.is_safe(),
    {
        CrosswalkFsm {
            state: CrosswalkState::DontWalk,
            timer_ticks_in_state: 0,
            button_pressed_waiting_for_red: false,
            last_known_stoplight: StoplightState::Red,
        }
    }

    /// Enters aspect `s` afresh, dropping any waiting request.
    fn enter(&mut self, s: CrosswalkState)
        ensures
            *final(self) == old(self).entering(s),
    {
        self.state = s;
        self.timer_ticks_in_state = 0;
        self.button_pressed_waiting_for_red = false;
    }

    /// Whether the controller shows a crossing aspect that traffic no longer allows.
    fn needs_preemption(&self) -> (r: bool)
        ensures
            r == self.must_preempt(),
    {
        self.state != CrosswalkState::DontWalk && self.last_known_stoplight != StoplightState::Red
    }

    /// Whether a waiting request can be granted now.
    fn can_grant(&self) -> (r: bool)
        ensures
            r == self.may_grant(),
    {
        self.state == CrosswalkState::DontWalk && self.button_pressed_waiting_for_red
            && self.last_known_stoplight == StoplightState::Red
    }

    /// Advances by one tick. Returns the new aspect when it changed.
    pub fn on_tick(&mut self) -> (changed: Option<CrosswalkState>)
        requires
            old(self).wf(),
            old(self).timer_ticks_in_state < u32::MAX,
        ensures
            *final(self) == old(self).ticked(),
            final(self).is_safe(),
            changed == (if final(self).state != old(self).state {
                Some(final(self).state)
            } else {
                None::<CrosswalkState>
            }),
    {
        if self.needs_preemption() {
            self.enter(CrosswalkState::DontWalk);
            return Some(CrosswalkState::DontWalk);
        }
        if self.can_grant() {
            self.enter(CrosswalkState::Walk);
            return Some(CrosswalkState::Walk);
        }
        match self.state {
            CrosswalkState::Walk => {
                if self.timer_ticks_in_state + 1 >= Self::WALK_DURATION {
                    self.enter(CrosswalkState::BlinkingDontWalk);
                    Some(CrosswalkState::BlinkingDontWalk)
                } else {
                    self.timer_ticks_in_state = self.timer_ticks_in_state + 1;
                    None
                }
            },
            CrosswalkState::BlinkingDontWalk => {
                if self.timer_ticks_in_state + 1 >= Self::BLINKING_DURATION {
                    self.enter(CrosswalkState::DontWalk);
                    Some(CrosswalkState::DontWalk)
                } else {
                    self.timer_ticks_in_state = self.timer_ticks_in_state + 1;
                    None
                }
            },
            CrosswalkState::DontWalk => {
                self.timer_ticks_in_state = self.timer_ticks_in_state + 1;
                None
            },
        }
    }

    /// Handles a press of the pedestrian button; during a crossing it is
    /// ignored. Returns the new aspect when it changed.
    pub fn on_button_press(&mut self) -> (changed: Option<CrosswalkState>)
        requires
            old(self).wf(),
        ensures
            *final(self) == old(self).pressed(),
            final(self).wf(),
            old(self).is_safe() || !is_crossing(old(self).state) ==> final(self).is_safe(),
            changed == (if final(self).state != old(self).state {
                Some(final(self).state)
            } else {
                None::<CrosswalkState>
            }),
    {
        if self.state == CrosswalkState::DontWalk {
            if self.last_known_stoplight == StoplightState::Red {
                self.enter(CrosswalkState::Walk);
                return Some(CrosswalkState::Walk);
            }
            self.button_pressed_waiting_for_red = true;
        }
        None
    }

    /// Records that traffic now shows `s`, leaving the crossing aspects at
    /// once if it is not red and granting a waiting request if it is.
    /// Returns the new aspect when it changed.
    pub fn on_stoplight_state(&mut self, s: StoplightState) -> (changed: Option<CrosswalkState>)
        requires
            old(self).wf(),
        ensures
            *final(self) == old(self).signalled(s),
            final(self).is_safe(),
            changed == (if final(self).state != old(self).state {
                Some(final(self).state)
            } else {
                None::<CrosswalkState>
            }),
    {
        self.last_known_stoplight = s;
        if self.needs_preemption() {
            self.enter(CrosswalkState::DontWalk);
            Some(CrosswalkState::DontWalk)
        } else if self.can_grant() {
            self.enter(CrosswalkState::Walk);
            Some(CrosswalkState::Walk)
        } else {
            None
        }
    }

    /// Handles `event`, delivered while traffic shows `stoplight_state`.
    /// The controller first takes `stoplight_state` as the traffic aspect,
    /// then reacts to the event as `on_tick` or `on_button_press` would. A
    /// press during a crossing is ignored even when `stoplight_state` is not
    /// red; the next tick or traffic broadcast then ends the crossing.
    pub fn handle_event(&mut self, event: CrosswalkEvent, stoplight_state: StoplightState) -> (changed: Option<CrosswalkState>)
        requires
            old(self).wf(),
            event == CrosswalkEvent::TimerTick ==> old(self).timer_ticks_in_state < u32::MAX,
        ensures
            *final(self) == old(self).after_event(event, stoplight_state),
            final(self).wf(),
            event == CrosswalkEvent::TimerTick || !is_crossing(old(self).state) || stoplight_state
                == StoplightState::Red ==> final(self).is_safe(),
            changed == (if final(self).state != old(self).state {
                Some(final(self).state)
            } else {
                None::<CrosswalkState>
            }),
    {
        self.last_known_stoplight = stoplight_state;
        match event {
            CrosswalkEvent::TimerTick => self.on_tick(),
            CrosswalkEvent::ButtonPress => self.on_button_press(),
        }
    }
}

/// A well-formed controller ends in a safe state after a tick or a traffic
/// broadcast. After a press it is safe when it was not crossing or was
/// already safe; an event delivered with the traffic aspect leaves it safe
/// unless a press comes during a crossing with traffic not red.
pub proof fn lemma_handlers_restore_safety(
    c: CrosswalkFsm,
    s: StoplightState,
    event: CrosswalkEvent,
)
    requires
        c.wf(),
    ensures
        c.ticked().is_safe(),
        c.signalled(s).is_safe(),
        c.is_safe() || !is_crossing(c.state) ==> c.pressed().is_safe(),
        event == CrosswalkEvent::TimerTick || !is_crossing(c.state) || s == StoplightState::Red
            ==> c.after_event(event, s).is_safe(),
{
}

/// A press while not crossing and with traffic known to be red starts the
/// crossing at once, with the counter at zero.
pub proof fn lemma_press_on_red_starts_crossing(c: CrosswalkFsm)
    requires
        c.wf(),
        c.state == CrosswalkState::DontWalk,
        c.last_known_stoplight == StoplightState::Red,
    ensures
        c.pressed().state == CrosswalkState::Walk,
        c.pressed().timer_ticks_in_state == 0,
{
}

/// A press while not crossing and with traffic not red only records the
/// request, and pressing again changes nothing. The next broadcast of red,
/// or the next tick delivered with red, grants the request: the crossing
/// starts with the counter at zero and the request cleared, and a further
/// broadcast of red grants nothing more.
pub proof fn lemma_waiting_request_granted_once(c: CrosswalkFsm)
    requires
        c.wf(),
        c.state == CrosswalkState::DontWalk,
        c.last_known_stoplight != StoplightState::Red,
    ensures
        c.pressed().state == CrosswalkState::DontWalk,
        c.pressed().timer_ticks_in_state == c.timer_ticks_in_state,
        c.pressed().button_pressed_waiting_for_red,
        c.pressed().pressed() == c.pressed(),
        c.pressed().signalled(StoplightState::Red) == c.pressed().observing(
            StoplightState::Red,
        ).entering(CrosswalkState::Walk),
        c.pressed().after_event(CrosswalkEvent::TimerTick, StoplightState::Red) == c.pressed().observing(
            StoplightState::Red,
        ).entering(CrosswalkState::Walk),
        !c.pressed().signalled(StoplightState::Red).button_pressed_waiting_for_red,
        c.pressed().signalled(StoplightState::Red).signalled(StoplightState::Red) == c.pressed().signalled(
            StoplightState::Red,
        ),
{
}

/// A press during a crossing changes nothing: not the aspect, not the
/// counter, not the request. Delivered with a traffic aspect, it only
/// records that aspect.
pub proof fn lemma_press_ignored_while_crossing(c: CrosswalkFsm, s: StoplightState)
    requires
        c.wf(),
        is_crossing(c.state),
    ensures
        c.pressed() == c,
        c.after_event(CrosswalkEvent::ButtonPress, s) == c.observing(s),
{
}

/// Hearing that traffic left red during a crossing ends the crossing at
/// once, however much of its dwell remained: don't walk, counter at zero,
/// no request waiting.
pub proof fn lemma_leaving_red_preempts(c: CrosswalkFsm, s: StoplightState)
    requires
        c.wf(),
        is_crossing(c.state),
        s != StoplightState::Red,
    ensures
        c.signalled(s) == (CrosswalkFsm {
            state: CrosswalkState::DontWalk,
            timer_ticks_in_state: 0,
            button_pressed_waiting_for_red: false,
            last_known_stoplight: s,
        }),
{
}

} // verus!
