use sway_im_popup::session::{Action, Event, FrameTicket, Session, KEY_PRESSED};

fn press(key: u32) -> Event {
    Event::Key { time: 100 + key, key, state: KEY_PRESSED }
}

fn count(acts: &[Action], pred: fn(&Action) -> bool) -> usize {
    acts.iter().filter(|a| pred(a)).count()
}

#[test]
fn activate_then_deactivate_releases_grab() {
    let mut s = Session::new(false);
    assert_eq!(s.handle(Event::Activate), vec![]);
    assert!(!s.grab_held());
    assert_eq!(s.handle(Event::Done), vec![Action::GrabKeyboard]);
    assert!(s.grab_held());
    assert_eq!(s.handle(Event::Deactivate), vec![]);
    assert!(s.grab_held());
    assert_eq!(s.handle(Event::Done), vec![Action::ReleaseGrab]);
    assert!(!s.grab_held());
}

#[test]
fn last_intent_before_commit_wins() {
    let mut s = Session::new(false);
    s.handle(Event::Activate);
    s.handle(Event::Deactivate);
    s.handle(Event::Activate);
    assert_eq!(s.handle(Event::Done), vec![Action::GrabKeyboard]);
    s.handle(Event::Deactivate);
    s.handle(Event::Activate);
    s.handle(Event::Deactivate);
    assert_eq!(s.handle(Event::Done), vec![Action::ReleaseGrab]);
    assert!(!s.grab_held());
    assert!(!s.pending_active());
}

#[test]
fn repeated_commit_never_grabs_twice() {
    let mut s = Session::new(false);
    s.handle(Event::Activate);
    assert_eq!(s.handle(Event::Done), vec![Action::GrabKeyboard]);
    assert_eq!(s.handle(Event::Activate), vec![]);
    assert_eq!(s.handle(Event::Done), vec![]);
    assert_eq!(s.handle(Event::Done), vec![]);
    assert!(s.grab_held());
}

#[test]
fn commit_without_intent_is_ignored() {
    let mut s = Session::new(true);
    assert_eq!(s.handle(Event::Done), vec![]);
    assert!(!s.grab_held());
    assert_eq!(s.handle(Event::Deactivate), vec![]);
    assert_eq!(s.handle(Event::Done), vec![]);
    assert!(!s.grab_held());
}

#[test]
fn grab_and_release_requests_balance() {
    let mut s = Session::new(false);
    let mut all = Vec::new();
    let script = [
        Event::Activate,
        Event::Done,
        Event::Activate,
        Event::Done,
        Event::Deactivate,
        Event::Done,
        Event::Deactivate,
        Event::Done,
        Event::Activate,
        Event::Done,
        Event::Deactivate,
        Event::Done,
    ];
    for e in script {
        all.extend(s.handle(e));
    }
    assert_eq!(count(&all, |a| *a == Action::GrabKeyboard), 2);
    assert_eq!(count(&all, |a| *a == Action::ReleaseGrab), 2);
}

#[test]
fn four_presses_without_surface_replacement() {
    let mut s = Session::new(false);
    let a1 = s.handle(press(1));
    assert!(s.popup_shown());
    let a2 = s.handle(press(2));
    assert!(!s.popup_shown());
    let a3 = s.handle(press(3));
    assert!(s.popup_shown());
    let a4 = s.handle(press(4));
    assert!(!s.popup_shown());
    assert_eq!(
        a1,
        vec![
            Action::CreatePopup { surface: 0 },
            Action::Repaint { ticket: FrameTicket { surface: 0, serial: 0 } },
            Action::ForwardKey { time: 101, key: 1, state: KEY_PRESSED },
        ]
    );
    assert_eq!(
        a2,
        vec![Action::DestroyPopup, Action::ForwardKey { time: 102, key: 2, state: KEY_PRESSED }]
    );
    for acts in [&a1, &a2, &a3, &a4] {
        assert_eq!(count(acts, |a| matches!(a, Action::DestroySurface { .. })), 0);
        assert_eq!(count(acts, |a| matches!(a, Action::CreateSurface { .. })), 0);
    }
    assert_eq!(s.surface(), 0);
    assert_eq!(s.presses(), 4);
}

#[test]
fn four_presses_with_surface_replacement() {
    let mut s = Session::new(true);
    assert!(s.recreates_surface());
    let a1 = s.handle(press(1));
    assert!(s.popup_shown());
    let a2 = s.handle(press(2));
    assert!(!s.popup_shown());
    let a3 = s.handle(press(3));
    assert!(s.popup_shown());
    let a4 = s.handle(press(4));
    assert!(!s.popup_shown());
    assert_eq!(
        a1,
        vec![
            Action::DestroySurface { surface: 0 },
            Action::CreateSurface { surface: 1 },
            Action::CreatePopup { surface: 1 },
            Action::Repaint { ticket: FrameTicket { surface: 1, serial: 0 } },
            Action::ForwardKey { time: 101, key: 1, state: KEY_PRESSED },
        ]
    );
    assert_eq!(
        a3,
        vec![
            Action::DestroySurface { surface: 1 },
            Action::CreateSurface { surface: 2 },
            Action::CreatePopup { surface: 2 },
            Action::Repaint { ticket: FrameTicket { surface: 2, serial: 1 } },
            Action::ForwardKey { time: 103, key: 3, state: KEY_PRESSED },
        ]
    );
    for acts in [&a1, &a3] {
        assert_eq!(count(acts, |a| matches!(a, Action::DestroySurface { .. })), 1);
        assert_eq!(count(acts, |a| matches!(a, Action::CreateSurface { .. })), 1);
    }
    for acts in [&a2, &a4] {
        assert_eq!(count(acts, |a| matches!(a, Action::DestroySurface { .. })), 0);
        assert_eq!(count(acts, |a| matches!(a, Action::CreateSurface { .. })), 0);
        assert_eq!(count(acts, |a| *a == Action::DestroyPopup), 1);
    }
    assert_eq!(s.surface(), 2);
}

#[test]
fn popup_parity_over_many_presses() {
    let mut s = Session::new(false);
    for n in 1..=9u32 {
        s.handle(press(n));
        assert_eq!(s.popup_shown(), n % 2 == 1);
    }
}

#[test]
fn releases_do_not_toggle_but_are_forwarded() {
    let mut s = Session::new(false);
    let acts = s.handle(Event::Key { time: 7, key: 30, state: 0 });
    assert_eq!(acts, vec![Action::ForwardKey { time: 7, key: 30, state: 0 }]);
    assert!(!s.popup_shown());
    let acts = s.handle(Event::Key { time: 8, key: 30, state: 2 });
    assert_eq!(acts, vec![Action::ForwardKey { time: 8, key: 30, state: 2 }]);
    assert!(!s.popup_shown());
}

#[test]
fn every_key_event_forwarded_once() {
    let mut s = Session::new(true);
    let events = [
        Event::Key { time: 1, key: 10, state: KEY_PRESSED },
        Event::Key { time: 2, key: 10, state: 0 },
        Event::Key { time: 3, key: 11, state: KEY_PRESSED },
        Event::Key { time: 4, key: 11, state: 0 },
        Event::Key { time: 5, key: 12, state: KEY_PRESSED },
    ];
    for e in events {
        let acts = s.handle(e);
        let fwd: Vec<&Action> =
            acts.iter().filter(|a| matches!(a, Action::ForwardKey { .. })).collect();
        assert_eq!(fwd.len(), 1);
        match e {
            Event::Key { time, key, state } => {
                assert_eq!(*fwd[0], Action::ForwardKey { time, key, state })
            }
            _ => unreachable!(),
        }
    }
}

#[test]
fn keymap_and_modifiers_pass_through() {
    let mut s = Session::new(false);
    assert_eq!(
        s.handle(Event::Keymap { format: 1, size: 4096 }),
        vec![Action::ForwardKeymap { format: 1, size: 4096 }]
    );
    assert_eq!(
        s.handle(Event::Modifiers { depressed: 1, latched: 2, locked: 4, group: 3 }),
        vec![Action::ForwardModifiers { depressed: 1, latched: 2, locked: 4, group: 3 }]
    );
    assert!(!s.popup_shown());
    assert!(!s.grab_held());
}

#[test]
fn frame_notification_renews_the_loop() {
    let mut s = Session::new(false);
    s.handle(press(1));
    let t0 = FrameTicket { surface: 0, serial: 0 };
    assert_eq!(s.frame_pending(), Some(t0));
    let t1 = FrameTicket { surface: 0, serial: 1 };
    assert_eq!(s.handle(Event::FrameDone { ticket: t0 }), vec![Action::Repaint { ticket: t1 }]);
    assert_eq!(s.frame_pending(), Some(t1));
    assert_eq!(s.draws(), 2);
    // The consumed ticket does not fire the loop a second time.
    assert_eq!(s.handle(Event::FrameDone { ticket: t0 }), vec![]);
    assert_eq!(s.frame_pending(), Some(t1));
}

#[test]
fn stale_frame_of_replaced_surface_is_ignored() {
    let mut s = Session::new(true);
    s.handle(press(1));
    let old = FrameTicket { surface: 1, serial: 0 };
    assert_eq!(s.frame_pending(), Some(old));
    s.handle(press(2));
    assert_eq!(s.frame_pending(), None);
    assert_eq!(s.handle(Event::FrameDone { ticket: old }), vec![]);
    s.handle(press(3));
    let current = FrameTicket { surface: 2, serial: 1 };
    assert_eq!(s.frame_pending(), Some(current));
    assert_eq!(s.handle(Event::FrameDone { ticket: old }), vec![]);
    assert_eq!(
        s.handle(Event::FrameDone { ticket: current }),
        vec![Action::Repaint { ticket: FrameTicket { surface: 2, serial: 2 } }]
    );
}

#[test]
fn showing_again_keeps_a_single_redraw_loop() {
    let mut s = Session::new(false);
    s.handle(press(1));
    s.handle(press(2));
    s.handle(press(3));
    let current = s.frame_pending().unwrap();
    // The request made under the first showing no longer drives repaints.
    assert_eq!(s.handle(Event::FrameDone { ticket: FrameTicket { surface: 0, serial: 0 } }), vec![]);
    let acts = s.handle(Event::FrameDone { ticket: current });
    assert_eq!(count(&acts, |a| matches!(a, Action::Repaint { .. })), 1);
}

#[test]
fn frame_while_hidden_is_ignored() {
    let mut s = Session::new(false);
    assert_eq!(s.handle(Event::FrameDone { ticket: FrameTicket { surface: 0, serial: 0 } }), vec![]);
    assert_eq!(s.frame_pending(), None);
    assert_eq!(s.draws(), 0);
}

#[test]
fn deactivation_while_shown_after_two_popups_releases_grab() {
    let mut s = Session::new(false);
    s.handle(Event::Activate);
    s.handle(Event::Done);
    let mut creations = 0;
    for n in 1..=3u32 {
        let acts = s.handle(press(n));
        creations += count(&acts, |a| matches!(a, Action::CreatePopup { .. }));
    }
    assert_eq!(creations, 2);
    assert!(s.popup_shown());
    s.handle(Event::Deactivate);
    assert_eq!(s.handle(Event::Done), vec![Action::ReleaseGrab]);
    assert!(!s.grab_held());
}

#[test]
fn popup_creations_and_destructions_balance() {
    let mut s = Session::new(true);
    let mut all = Vec::new();
    for n in 1..=5u32 {
        all.extend(s.handle(press(n)));
    }
    assert_eq!(count(&all, |a| matches!(a, Action::CreatePopup { .. })), 3);
    assert_eq!(count(&all, |a| *a == Action::DestroyPopup), 2);
}
