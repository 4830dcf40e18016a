use vstd::prelude::*;

verus! {

/// The aspect shown by the traffic signal.
#[derive(Debug, Clone, Copy, PartialEq, Eq, Structural)]
pub enum StoplightState {
    Red,
    Green,
    Yellow,
}

/// The events that drive the traffic signal.
#[derive(Debug, Clone, Copy, PartialEq, Eq, Structural)]
pub enum StoplightEvent {
    TimerTick,
}

/// Number of ticks each aspect is held before the signal moves on.
pub open spec fn dwell(s: StoplightState) -> nat {
    match s {
        StoplightState::Red => 5,
        StoplightState::Green => 4,
        StoplightState::Yellow => 1,
    }
}

/// The aspect that follows `s` in the fixed cycle red, green, yellow.
pub open spec fn successor(s: StoplightState) -> StoplightState {
    match s {
        StoplightState::Red => StoplightState::Green,
        StoplightState::Green => StoplightState::Yellow,
        StoplightState::Yellow => StoplightState::Red,
    }
}

/// The traffic signal controller: its aspect and how long it has shown it.
#[derive(Debug, Clone, Copy, PartialEq, Eq, Structural)]
pub struct StoplightFsm {
    pub state: StoplightState,
    pub timer_ticks_in_state: u32,
}

impl StoplightFsm {
    pub const RED_DURATION: u32 = 5;
    pub const GREEN_DURATION: u32 = 4;
    pub const YELLOW_DURATION: u32 = 1;

    /// The controller has not yet held its aspect for the full dwell.
    pub open spec fn wf(self) -> bool {
        (self.timer_ticks_in_state as nat) < dwell(self.state)
    }

    /// A controller that has just entered aspect `s`.
    pub open spec fn entering(s: StoplightState) -> StoplightFsm {
        StoplightFsm { state: s, timer_ticks_in_state: 0 }
    }

    /// The controller after one tick: the counter advances, and once it
    /// reaches the dwell of the aspect the next aspect is entered afresh.
    pub open spec fn ticked(self) -> StoplightFsm {
        if self.timer_ticks_in_state + 1 >= dwell(self.state) {
            StoplightFsm::entering(successor(self.state))
        } else {
            StoplightFsm {
                state: self.state,
                timer_ticks_in_state: (self.timer_ticks_in_state + 1) as u32,
            }
        }
    }

    /// The controller after `n` ticks.
    pub open spec fn after_ticks(self, n: nat) -> StoplightFsm
        decreases n,
    {
        if n == 0 {
            self
        } else {
            self.after_ticks((n - 1) as nat).ticked()
        }
    }

    /// A controller showing red, freshly started.
    pub fn new() -> (r: Self)
        ensures
            r == StoplightFsm::entering(StoplightState::Red),
            r.wf(),
    {
        StoplightFsm { state: StoplightState::Red, timer_ticks_in_state: 0 }
    }

    /// The dwell of an aspect, as configured.
    pub fn duration(s: StoplightState) -> (d: u32)
        ensures
            d as nat == dwell(s),
    {
        match s {
            StoplightState::Red => Self::RED_DURATION,
            StoplightState::Green => Self::GREEN_DURATION,
            StoplightState::Yellow => Self::YELLOW_DURATION,
        }
    }

    /// Reacts to one event. Returns the new aspect when the aspect changed,
    /// which is what the controller broadcasts; `None` when it did not.
    pub fn handle_event(&mut self, event: StoplightEvent) -> (changed: Option<StoplightState>)
        ensures
            *final(self) == old(self).ticked(),
            final(self).wf(),
            changed == (if final(self).state != old(self).state {
                Some(final(self).state)
            } else {
                None::<StoplightState>
            }),
    {
        match event {
            StoplightEvent::TimerTick => {
                let limit = Self::duration(self.state);
                if self.timer_ticks_in_state < limit - 1 {
                    self.timer_ticks_in_state = self.timer_ticks_in_state + 1;
                    None
                } else {
                    let next = match self.state {
                        StoplightState::Red => StoplightState::Green,
                        StoplightState::Green => StoplightState::Yellow,
                        StoplightState::Yellow => StoplightState::Red,
                    };
                    self.state = next;
                    self.timer_ticks_in_state = 0;
                    Some(next)
                }
            }
        }
    }
}

/// Every aspect is held for exactly its dwell: starting afresh in aspect `s`,
/// the controller still shows `s` after each of the first `dwell(s) - 1`
/// ticks, with the counter equal to the ticks taken, and the tick that
/// completes the dwell enters the next aspect with the counter back at zero.
pub proof fn lemma_dwell_is_exact(s: StoplightState, k: nat)
    requires
        k <= dwell(s),
    ensures
        k < dwell(s) ==> StoplightFsm::entering(s).after_ticks(k) == (StoplightFsm {
            state: s,
            timer_ticks_in_state: k as u32,
        }),
        k == dwell(s) ==> StoplightFsm::entering(s).after_ticks(k) == StoplightFsm::entering(
            successor(s),
        ),
    decreases k,
{
    if k > 0 {
        lemma_dwell_is_exact(s, (k - 1) as nat);
    }
}

/// A tick that changes the aspect always leaves the counter at zero, and
/// one that does not advances it by exactly one.
pub proof fn lemma_tick_counter(f: StoplightFsm)
    ensures
        f.ticked().state != f.state ==> f.ticked().timer_ticks_in_state == 0,
        f.ticked().state == f.state ==> f.ticked().timer_ticks_in_state == f.timer_ticks_in_state
            + 1,
{
}

} // verus!
