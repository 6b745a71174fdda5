use vstd::prelude::*;

use crate::session::{
    Action, Event, FrameTicket, Phase, SessionView, KEY_PRESSED, commit, next_u64, run,
    run_actions, step, toggle,
};

verus! {

/// How many of the requests `acts` satisfy `p`.
pub open spec fn count_where(acts: Seq<Action>, p: spec_fn(Action) -> bool) -> nat
    decreases acts.len(),
{
    if acts.len() == 0 {
        0
    } else {
        count_where(acts.drop_last(), p) + if p(acts.last()) { 1nat } else { 0nat }
    }
}

pub open spec fn is_grab(a: Action) -> bool {
    a is GrabKeyboard
}

pub open spec fn is_release(a: Action) -> bool {
    a is ReleaseGrab
}

pub open spec fn is_popup_create(a: Action) -> bool {
    a is CreatePopup
}

pub open spec fn is_popup_destroy(a: Action) -> bool {
    a is DestroyPopup
}

pub open spec fn is_repaint(a: Action) -> bool {
    a is Repaint
}

pub open spec fn b2i(b: bool) -> int {
    if b { 1 } else { 0 }
}

pub broadcast proof fn lemma_count_push(acts: Seq<Action>, a: Action, p: spec_fn(Action) -> bool)
    ensures
        #[trigger] count_where(acts.push(a), p) == count_where(acts, p) + if p(a) { 1nat } else { 0nat },
{
    assert(acts.push(a).drop_last() =~= acts);
}

pub broadcast proof fn lemma_count_add(a: Seq<Action>, b: Seq<Action>, p: spec_fn(Action) -> bool)
    ensures
        #[trigger] count_where(a + b, p) == count_where(a, p) + count_where(b, p),
    decreases b.len(),
{
    if b.len() == 0 {
        assert(a + b =~= a);
    } else {
        lemma_count_add(a, b.drop_last(), p);
        assert(a + b =~= (a + b.drop_last()).push(b.last()));
        assert(b =~= b.drop_last().push(b.last()));
        lemma_count_push(a + b.drop_last(), b.last(), p);
        lemma_count_push(b.drop_last(), b.last(), p);
    }
}

pub proof fn lemma_count_empty(p: spec_fn(Action) -> bool)
    ensures
        count_where(Seq::<Action>::empty(), p) == 0,
{
}

proof fn lemma_next_u64_flips_parity(x: u64)
    ensures
        (next_u64(x) % 2 == 1) == !(x % 2 == 1),
{
}

/// Every event keeps the session well formed.
pub proof fn lemma_step_preserves_wf(s: SessionView, e: Event)
    requires
        s.wf(),
    ensures
        step(s, e).0.wf(),
{
    lemma_next_u64_flips_parity(s.presses);
}

/// Each event issues a grab request exactly when it makes the session take a
/// grab, and a release request exactly when it makes the session give one up;
/// likewise a popup is created exactly when it appears and destroyed exactly
/// when it goes away.
pub proof fn lemma_step_grab_and_popup_requests(s: SessionView, e: Event)
    ensures
        count_where(step(s, e).1, |a: Action| is_grab(a)) == b2i(!s.grab_held && step(s, e).0.grab_held),
        count_where(step(s, e).1, |a: Action| is_release(a)) == b2i(s.grab_held && !step(s, e).0.grab_held),
        count_where(step(s, e).1, |a: Action| is_popup_create(a)) == b2i(
            s.phase == Phase::Hidden && step(s, e).0.phase == Phase::Shown,
        ),
        count_where(step(s, e).1, |a: Action| is_popup_destroy(a)) == b2i(
            s.phase == Phase::Shown && step(s, e).0.phase == Phase::Hidden,
        ),
{
    broadcast use lemma_count_push, lemma_count_add;

    lemma_count_empty(|a: Action| is_grab(a));
    lemma_count_empty(|a: Action| is_release(a));
    lemma_count_empty(|a: Action| is_popup_create(a));
    lemma_count_empty(|a: Action| is_popup_destroy(a));
    match e {
        Event::Done => {
            let acts = commit(s).1;
            if s.pending_active && !s.grab_held {
                assert(acts =~= Seq::<Action>::empty().push(Action::GrabKeyboard));
            } else if !s.pending_active && s.grab_held {
                assert(acts =~= Seq::<Action>::empty().push(Action::ReleaseGrab));
            } else {
                assert(acts =~= Seq::<Action>::empty());
            }
        },
        Event::Key { time, key, state } => {
            let fwd = Action::ForwardKey { time, key, state };
            if state == KEY_PRESSED {
                lemma_toggle_actions(s);
                assert(step(s, e).1 == toggle(s).1.push(fwd));
            } else {
                assert(step(s, e).1 =~= Seq::<Action>::empty().push(fwd));
            }
        },
        _ => {},
    }
}

/// The requests that a key press makes, one by one.
proof fn lemma_toggle_actions(s: SessionView)
    ensures
        toggle(s).1 == (match s.phase {
            Phase::Shown => Seq::<Action>::empty().push(Action::DestroyPopup),
            Phase::Hidden => if s.recreate_surface {
                Seq::<Action>::empty().push(Action::DestroySurface { surface: s.surface }).push(
                    Action::CreateSurface { surface: next_u64(s.surface) },
                ).push(Action::CreatePopup { surface: next_u64(s.surface) }).push(
                    Action::Repaint {
                    ticket: FrameTicket { surface: toggle(s).0.surface, serial: s.draws },
                },
                )
            } else {
                Seq::<Action>::empty().push(Action::CreatePopup { surface: s.surface }).push(
                    Action::Repaint {
                    ticket: FrameTicket { surface: toggle(s).0.surface, serial: s.draws },
                },
                )
            },
        }),
{
    let t = FrameTicket { surface: toggle(s).0.surface, serial: s.draws };
    match s.phase {
        Phase::Shown => {
            assert(toggle(s).1 =~= Seq::<Action>::empty().push(Action::DestroyPopup));
        },
        Phase::Hidden => {
            if s.recreate_surface {
                assert(toggle(s).1 =~= Seq::<Action>::empty().push(
                    Action::DestroySurface { surface: s.surface },
                ).push(Action::CreateSurface { surface: next_u64(s.surface) }).push(
                    Action::CreatePopup { surface: next_u64(s.surface) },
                ).push(Action::Repaint { ticket: t }));
            } else {
                assert(toggle(s).1 =~= Seq::<Action>::empty().push(
                    Action::CreatePopup { surface: s.surface },
                ).push(Action::Repaint { ticket: t }));
            }
        },
    }
}


/// Over any run, a grab is requested once more than it is released exactly
/// when the run ends holding a grab it did not hold at the start (and the
/// other way round), so no second grab is ever requested while one is held;
/// the same balance holds between popup creations and destructions.
pub proof fn lemma_run_request_balance(s: SessionView, evs: Seq<Event>)
    ensures
        count_where(run_actions(s, evs), |a: Action| is_grab(a)) - count_where(
            run_actions(s, evs),
            |a: Action| is_release(a),
        ) == b2i(run(s, evs).grab_held) - b2i(s.grab_held),
        count_where(run_actions(s, evs), |a: Action| is_popup_create(a)) - count_where(
            run_actions(s, evs),
            |a: Action| is_popup_destroy(a),
        ) == b2i(run(s, evs).phase == Phase::Shown) - b2i(s.phase == Phase::Shown),
    decreases evs.len(),
{
    if evs.len() > 0 {
        let prev = evs.drop_last();
        let mid = run(s, prev);
        lemma_run_request_balance(s, prev);
        lemma_step_grab_and_popup_requests(mid, evs.last());
        lemma_count_add(run_actions(s, prev), step(mid, evs.last()).1, |a: Action| is_grab(a));
        lemma_count_add(run_actions(s, prev), step(mid, evs.last()).1, |a: Action| is_release(a));
        lemma_count_add(
            run_actions(s, prev),
            step(mid, evs.last()).1,
            |a: Action| is_popup_create(a),
        );
        lemma_count_add(
            run_actions(s, prev),
            step(mid, evs.last()).1,
            |a: Action| is_popup_destroy(a),
        );
    }
}

/// In a well-formed session every event leaves the session well formed (so
/// it honours at most one frame request, and only one made on its current
/// surface), makes at most one repaint, and a repaint's ticket is the one the
/// session honours next; a frame notification under any other ticket, stale
/// or made on a replaced surface, changes nothing and makes no request.
pub proof fn lemma_single_redraw_loop(s: SessionView, e: Event)
    requires
        s.wf(),
    ensures
        step(s, e).0.wf(),
        step(s, e).0.frame matches Some(t) ==> t.surface == step(s, e).0.surface,
        count_where(step(s, e).1, |a: Action| is_repaint(a)) <= 1,
        forall|i: int|
            0 <= i < step(s, e).1.len() ==> (#[trigger] step(s, e).1[i] matches Action::Repaint {
                ticket,
            } ==> step(s, e).0.frame == Some(ticket) && ticket.surface == step(s, e).0.surface),
        (e matches Event::FrameDone { ticket } && s.frame != Some(ticket)) ==> step(s, e) == (
            s,
            Seq::<Action>::empty(),
        ),
{
    broadcast use lemma_count_push, lemma_count_add;

    lemma_step_preserves_wf(s, e);
    lemma_count_empty(|a: Action| is_repaint(a));
    match e {
        Event::Key { time, key, state } => {
            let fwd = Action::ForwardKey { time, key, state };
            if state == KEY_PRESSED {
                lemma_toggle_actions(s);
                assert(step(s, e).1 == toggle(s).1.push(fwd));
            } else {
                assert(step(s, e).1 =~= Seq::<Action>::empty().push(fwd));
            }
        },
        Event::Done => {
            let acts = commit(s).1;
            if s.pending_active && !s.grab_held {
                assert(acts =~= Seq::<Action>::empty().push(Action::GrabKeyboard));
            } else if !s.pending_active && s.grab_held {
                assert(acts =~= Seq::<Action>::empty().push(Action::ReleaseGrab));
            } else {
                assert(acts =~= Seq::<Action>::empty());
            }
        },
        _ => {},
    }
}

/// The key event that an action forwards, if it forwards one.
pub open spec fn forwarded_key(a: Action) -> Seq<(u32, u32, u32)> {
    match a {
        Action::ForwardKey { time, key, state } => seq![(time, key, state)],
        _ => seq![],
    }
}

/// The fields of a key event, if it is one.
pub open spec fn key_fields(e: Event) -> Seq<(u32, u32, u32)> {
    match e {
        Event::Key { time, key, state } => seq![(time, key, state)],
        _ => seq![],
    }
}

/// The key events forwarded by the requests `acts`, in order.
pub open spec fn key_forwards(acts: Seq<Action>) -> Seq<(u32, u32, u32)>
    decreases acts.len(),
{
    if acts.len() == 0 {
        seq![]
    } else {
        key_forwards(acts.drop_last()) + forwarded_key(acts.last())
    }
}

/// The key events among `evs`, in order.
pub open spec fn key_events(evs: Seq<Event>) -> Seq<(u32, u32, u32)>
    decreases evs.len(),
{
    if evs.len() == 0 {
        seq![]
    } else {
        key_events(evs.drop_last()) + key_fields(evs.last())
    }
}

pub broadcast proof fn lemma_key_forwards_push(acts: Seq<Action>, a: Action)
    ensures
        #[trigger] key_forwards(acts.push(a)) == key_forwards(acts) + forwarded_key(a),
{
    assert(acts.push(a).drop_last() =~= acts);
}

pub broadcast proof fn lemma_key_forwards_add(a: Seq<Action>, b: Seq<Action>)
    ensures
        #[trigger] key_forwards(a + b) == key_forwards(a) + key_forwards(b),
    decreases b.len(),
{
    if b.len() == 0 {
        assert(a + b =~= a);
        assert(key_forwards(a) + key_forwards(b) =~= key_forwards(a));
    } else {
        lemma_key_forwards_add(a, b.drop_last());
        assert(a + b =~= (a + b.drop_last()).push(b.last()));
        assert(b =~= b.drop_last().push(b.last()));
        lemma_key_forwards_push(a + b.drop_last(), b.last());
        lemma_key_forwards_push(b.drop_last(), b.last());
        assert(key_forwards(a + b) =~= key_forwards(a) + key_forwards(b));
    }
}

/// Every key event, press or release, is forwarded exactly once with its
/// time, key code and state unchanged, and no other event forwards a key.
pub proof fn lemma_step_forwards_key(s: SessionView, e: Event)
    ensures
        key_forwards(step(s, e).1) == key_fields(e),
{
    broadcast use lemma_key_forwards_push, lemma_key_forwards_add;

    match e {
        Event::Key { time, key, state } => {
            let fwd = Action::ForwardKey { time, key, state };
            if state == KEY_PRESSED {
                lemma_toggle_actions(s);
                assert(step(s, e).1 == toggle(s).1.push(fwd));
            } else {
                assert(step(s, e).1 =~= Seq::<Action>::empty().push(fwd));
            }
            assert(key_forwards(step(s, e).1) =~= key_fields(e));
        },
        Event::Done => {
            let acts = commit(s).1;
            if s.pending_active && !s.grab_held {
                assert(acts =~= Seq::<Action>::empty().push(Action::GrabKeyboard));
            } else if !s.pending_active && s.grab_held {
                assert(acts =~= Seq::<Action>::empty().push(Action::ReleaseGrab));
            } else {
                assert(acts =~= Seq::<Action>::empty());
            }
            assert(key_forwards(step(s, e).1) =~= key_fields(e));
        },
        _ => {
            assert(key_forwards(step(s, e).1) =~= key_fields(e));
        },
    }
}

/// Over any run, the forwarded key events are exactly the key events
/// received, in the same order and with the same fields.
pub proof fn lemma_run_forwards_keys(s: SessionView, evs: Seq<Event>)
    ensures
        key_forwards(run_actions(s, evs)) == key_events(evs),
    decreases evs.len(),
{
    if evs.len() > 0 {
        lemma_run_forwards_keys(s, evs.drop_last());
        lemma_step_forwards_key(run(s, evs.drop_last()), evs.last());
        lemma_key_forwards_add(
            run_actions(s, evs.drop_last()),
            step(run(s, evs.drop_last()), evs.last()).1,
        );
    }
}

pub open spec fn is_intent(e: Event) -> bool {
    e is Activate || e is Deactivate
}

/// The activation intent in effect after the intents `intents`.
pub open spec fn latched(pending: bool, intents: Seq<Event>) -> bool {
    if intents.len() == 0 {
        pending
    } else {
        intents.last() is Activate
    }
}

/// Intent events only record the intent: they change nothing else and make
/// no request.
pub proof fn lemma_intents_only_latch(s: SessionView, intents: Seq<Event>)
    requires
        forall|i: int| 0 <= i < intents.len() ==> is_intent(#[trigger] intents[i]),
    ensures
        run(s, intents) == (SessionView { pending_active: latched(s.pending_active, intents), ..s }),
        run_actions(s, intents) == Seq::<Action>::empty(),
    decreases intents.len(),
{
    if intents.len() > 0 {
        let prev = intents.drop_last();
        assert forall|i: int| 0 <= i < prev.len() implies is_intent(#[trigger] prev[i]) by {
            assert(prev[i] == intents[i]);
        }
        lemma_intents_only_latch(s, prev);
        assert(is_intent(intents[intents.len() - 1]));
        assert(run_actions(s, intents) =~= Seq::<Action>::empty());
    }
}

/// After any intents and a commit, a grab is held exactly when the last
/// intent was an activation (or, with no intent, when the earlier latched
/// intent was); the commit requests at most one grab and none while one is
/// held.
pub proof fn lemma_commit_latches_intent(s: SessionView, intents: Seq<Event>)
    requires
        forall|i: int| 0 <= i < intents.len() ==> is_intent(#[trigger] intents[i]),
    ensures
        run(s, intents.push(Event::Done)).grab_held == latched(s.pending_active, intents),
        count_where(run_actions(s, intents.push(Event::Done)), |a: Action| is_grab(a)) == b2i(
            !s.grab_held && latched(s.pending_active, intents),
        ),
{
    let evs = intents.push(Event::Done);
    assert(evs.drop_last() =~= intents);
    lemma_intents_only_latch(s, intents);
    let mid = run(s, intents);
    lemma_step_grab_and_popup_requests(mid, Event::Done);
    assert(run_actions(s, evs) =~= step(mid, Event::Done).1);
}

pub open spec fn is_press(e: Event) -> bool {
    e matches Event::Key { state, .. } && state == KEY_PRESSED
}

/// Each key press flips the popup between hidden and shown: after `n`
/// presses it is as it was iff `n` is even.
pub proof fn lemma_presses_flip_popup(s: SessionView, evs: Seq<Event>)
    requires
        forall|i: int| 0 <= i < evs.len() ==> is_press(#[trigger] evs[i]),
    ensures
        (run(s, evs).phase == s.phase) == (evs.len() % 2 == 0),
    decreases evs.len(),
{
    if evs.len() > 0 {
        let prev = evs.drop_last();
        assert forall|i: int| 0 <= i < prev.len() implies is_press(#[trigger] prev[i]) by {
            assert(prev[i] == evs[i]);
        }
        lemma_presses_flip_popup(s, prev);
        assert(is_press(evs[evs.len() - 1]));
    }
}

/// On a fresh session, the popup exists after `n` key presses iff `n` is
/// odd.
pub proof fn lemma_popup_after_presses(recreate_surface: bool, evs: Seq<Event>)
    requires
        forall|i: int| 0 <= i < evs.len() ==> is_press(#[trigger] evs[i]),
    ensures
        (run(SessionView::initial(recreate_surface), evs).phase == Phase::Shown) == (evs.len() % 2
            == 1),
{
    lemma_presses_flip_popup(SessionView::initial(recreate_surface), evs);
}

} // verus!
