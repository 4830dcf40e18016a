use stoplight_fsm::crosswalk::{CrosswalkEvent, CrosswalkFsm, CrosswalkState};
use stoplight_fsm::stoplight::{StoplightEvent, StoplightFsm, StoplightState};

#[test]
fn test_stoplight_cycle() {
    let mut fsm = StoplightFsm::new();
    assert_eq!(fsm.state, StoplightState::Red);

    for _ in 0..StoplightFsm::RED_DURATION {
        fsm.handle_event(StoplightEvent::TimerTick);
    }
    assert_eq!(fsm.state, StoplightState::Green);
    assert_eq!(fsm.timer_ticks_in_state, 0);

    for _ in 0..StoplightFsm::GREEN_DURATION {
        fsm.handle_event(StoplightEvent::TimerTick);
    }
    assert_eq!(fsm.state, StoplightState::Yellow);
    assert_eq!(fsm.timer_ticks_in_state, 0);

    for _ in 0..StoplightFsm::YELLOW_DURATION {
        fsm.handle_event(StoplightEvent::TimerTick);
    }
    assert_eq!(fsm.state, StoplightState::Red);
    assert_eq!(fsm.timer_ticks_in_state, 0);
}

#[test]
fn test_crosswalk_button_press_when_stoplight_red() {
    let mut crosswalk_fsm = CrosswalkFsm::new();
    assert_eq!(crosswalk_fsm.state, CrosswalkState::DontWalk);

    crosswalk_fsm.handle_event(CrosswalkEvent::ButtonPress, StoplightState::Red);
    assert_eq!(crosswalk_fsm.state, CrosswalkState::Walk);
    assert_eq!(crosswalk_fsm.timer_ticks_in_state, 0);

    for _ in 0..CrosswalkFsm::WALK_DURATION {
        crosswalk_fsm.handle_event(CrosswalkEvent::TimerTick, StoplightState::Red);
    }
    assert_eq!(crosswalk_fsm.state, CrosswalkState::BlinkingDontWalk);
    assert_eq!(crosswalk_fsm.timer_ticks_in_state, 0);

    for _ in 0..CrosswalkFsm::BLINKING_DURATION {
        crosswalk_fsm.handle_event(CrosswalkEvent::TimerTick, StoplightState::Red);
    }
    assert_eq!(crosswalk_fsm.state, CrosswalkState::DontWalk);
    assert_eq!(crosswalk_fsm.timer_ticks_in_state, 0);
}

#[test]
fn test_crosswalk_button_press_when_stoplight_green_then_red() {
    let mut crosswalk_fsm = CrosswalkFsm::new();
    assert_eq!(crosswalk_fsm.state, CrosswalkState::DontWalk);

    crosswalk_fsm.handle_event(CrosswalkEvent::ButtonPress, StoplightState::Green);
    assert_eq!(crosswalk_fsm.state, CrosswalkState::DontWalk);
    assert!(crosswalk_fsm.button_pressed_waiting_for_red);

    crosswalk_fsm.handle_event(CrosswalkEvent::TimerTick, StoplightState::Green);
    assert_eq!(crosswalk_fsm.state, CrosswalkState::DontWalk);
    assert!(crosswalk_fsm.button_pressed_waiting_for_red);

    crosswalk_fsm.handle_event(CrosswalkEvent::TimerTick, StoplightState::Red);
    assert_eq!(crosswalk_fsm.state, CrosswalkState::Walk);
    assert!(!crosswalk_fsm.button_pressed_waiting_for_red);
    assert_eq!(crosswalk_fsm.timer_ticks_in_state, 0);
}

#[test]
fn test_crosswalk_forced_to_dont_walk_if_stoplight_not_red() {
    let mut crosswalk_fsm = CrosswalkFsm::new();
    crosswalk_fsm.handle_event(CrosswalkEvent::ButtonPress, StoplightState::Red);
    assert_eq!(crosswalk_fsm.state, CrosswalkState::Walk);

    // The traffic signal announces that it is no longer red.
    crosswalk_fsm.on_stoplight_state(StoplightState::Green);
    assert_eq!(crosswalk_fsm.state, CrosswalkState::DontWalk);
    assert_eq!(crosswalk_fsm.timer_ticks_in_state, 0);

    crosswalk_fsm.handle_event(CrosswalkEvent::ButtonPress, StoplightState::Red);
    for _ in 0..CrosswalkFsm::WALK_DURATION {
        crosswalk_fsm.handle_event(CrosswalkEvent::TimerTick, StoplightState::Red);
    }
    assert_eq!(crosswalk_fsm.state, CrosswalkState::BlinkingDontWalk);
    crosswalk_fsm.on_stoplight_state(StoplightState::Green);
    assert_eq!(crosswalk_fsm.state, CrosswalkState::DontWalk);
    assert_eq!(crosswalk_fsm.timer_ticks_in_state, 0);
}

#[test]
fn test_crosswalk_button_press_ignored_if_not_dont_walk() {
    let mut crosswalk_fsm = CrosswalkFsm::new();
    crosswalk_fsm.handle_event(CrosswalkEvent::ButtonPress, StoplightState::Red);
    assert_eq!(crosswalk_fsm.state, CrosswalkState::Walk);
    let current_ticks = crosswalk_fsm.timer_ticks_in_state;

    crosswalk_fsm.handle_event(CrosswalkEvent::ButtonPress, StoplightState::Red);
    assert_eq!(crosswalk_fsm.state, CrosswalkState::Walk);
    assert_eq!(crosswalk_fsm.timer_ticks_in_state, current_ticks);

    for _ in 0..CrosswalkFsm::WALK_DURATION {
        crosswalk_fsm.handle_event(CrosswalkEvent::TimerTick, StoplightState::Red);
    }
    assert_eq!(crosswalk_fsm.state, CrosswalkState::BlinkingDontWalk);
    let current_ticks_blinking = crosswalk_fsm.timer_ticks_in_state;

    crosswalk_fsm.handle_event(CrosswalkEvent::ButtonPress, StoplightState::Red);
    assert_eq!(crosswalk_fsm.state, CrosswalkState::BlinkingDontWalk);
    assert_eq!(crosswalk_fsm.timer_ticks_in_state, current_ticks_blinking);
}

#[test]
fn test_crosswalk_cycle_prematurely_ends_if_light_changes() {
    let mut fsm_walk_test = CrosswalkFsm::new();
    fsm_walk_test.handle_event(CrosswalkEvent::ButtonPress, StoplightState::Red);
    assert_eq!(fsm_walk_test.state, CrosswalkState::Walk, "Test Walk: Should be in Walk state after button press with Red light");
    assert_eq!(fsm_walk_test.timer_ticks_in_state, 0, "Test Walk: Timer should be 0 after transitioning to Walk");

    if CrosswalkFsm::WALK_DURATION > 1 {
        fsm_walk_test.handle_event(CrosswalkEvent::TimerTick, StoplightState::Red);
        assert_eq!(fsm_walk_test.state, CrosswalkState::Walk, "Test Walk: Should still be in Walk state after 1 tick if duration > 1");
        assert_eq!(fsm_walk_test.timer_ticks_in_state, 1, "Test Walk: Timer should be 1");
    }

    fsm_walk_test.handle_event(CrosswalkEvent::TimerTick, StoplightState::Green);
    assert_eq!(fsm_walk_test.state, CrosswalkState::DontWalk, "Test Walk: Should transition to DontWalk if light turns Green");
    assert_eq!(fsm_walk_test.timer_ticks_in_state, 0, "Test Walk: Timer should reset after forced transition to DontWalk");

    let mut fsm_blink_test = CrosswalkFsm::new();
    fsm_blink_test.handle_event(CrosswalkEvent::ButtonPress, StoplightState::Red);
    assert_eq!(fsm_blink_test.state, CrosswalkState::Walk, "Test Blink: Initial transition to Walk failed");

    for _ in 0..CrosswalkFsm::WALK_DURATION {
        fsm_blink_test.handle_event(CrosswalkEvent::TimerTick, StoplightState::Red);
    }
    assert_eq!(fsm_blink_test.state, CrosswalkState::BlinkingDontWalk, "Test Blink: Should be in BlinkingDontWalk after WALK_DURATION ticks");
    assert_eq!(fsm_blink_test.timer_ticks_in_state, 0, "Test Blink: Timer should reset after transitioning to BlinkingDontWalk");

    if CrosswalkFsm::BLINKING_DURATION > 1 {
        fsm_blink_test.handle_event(CrosswalkEvent::TimerTick, StoplightState::Red);
        assert_eq!(fsm_blink_test.state, CrosswalkState::BlinkingDontWalk, "Test Blink: Should still be in BlinkingDontWalk after 1 tick if duration > 1");
        assert_eq!(fsm_blink_test.timer_ticks_in_state, 1, "Test Blink: Timer should be 1 for BlinkingDontWalk");
    }

    fsm_blink_test.handle_event(CrosswalkEvent::TimerTick, StoplightState::Green);
    assert_eq!(fsm_blink_test.state, CrosswalkState::DontWalk, "Test Blink: Should transition to DontWalk if light turns Green during BlinkingDontWalk");
    assert_eq!(fsm_blink_test.timer_ticks_in_state, 0, "Test Blink: Timer should reset after forced transition to DontWalk from BlinkingDontWalk");
}
