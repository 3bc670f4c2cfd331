use hyprscreen::countdown::{Countdown, StartAction, TickAction};

#[test]
fn zero_seconds_fires_at_once() {
    let (c, a) = Countdown::start(0);
    assert_eq!(a, StartAction::FireNow);
    assert!(!c.open && !c.done_armed && !c.cancel_armed);
}

#[test]
fn counts_down_then_fires_done_once() {
    let (mut c, a) = Countdown::start(3);
    assert_eq!(a, StartAction::Show(3));
    assert_eq!(c.tick(), TickAction::Show(2));
    assert_eq!(c.tick(), TickAction::Show(1));
    assert_eq!(c.tick(), TickAction::CloseAndSettle);
    assert!(!c.open && !c.ticking && c.settling);
    assert!(c.settle());
    assert!(!c.done_armed);
}

#[test]
fn cancel_disarms_done() {
    let (mut c, _) = Countdown::start(5);
    assert_eq!(c.tick(), TickAction::Show(4));
    assert!(c.cancel());
    assert!(!c.open);
    assert_eq!(c.tick(), TickAction::Stop);
    assert!(!c.ticking);
}

#[test]
fn one_second_countdown_closes_on_first_tick() {
    let (mut c, _) = Countdown::start(1);
    assert_eq!(c.tick(), TickAction::CloseAndSettle);
    assert!(c.settle());
}

#[test]
fn cancel_fires_once_and_done_never() {
    let (mut c, _) = Countdown::start(3);
    assert_eq!(c.tick(), TickAction::Show(2));
    let mut cancels = 0;
    if c.open && c.cancel() {
        cancels += 1;
    }
    // a second Esc finds the window closed; a late tick stops the timer
    if c.open && c.cancel() {
        cancels += 1;
    }
    assert_eq!(c.tick(), TickAction::Stop);
    assert!(!c.ticking && !c.settling && !c.done_armed && !c.cancel_armed);
    assert_eq!(cancels, 1);
}
