use vstd::prelude::*;

verus! {

/// The raw key state that the compositor sends for a key press.
pub const KEY_PRESSED: u32 = 1;

/// Identifies one frame-notification request: the surface instance it was
/// made on and the repaint that made it.
#[derive(Clone, Copy, Debug, PartialEq, Eq, Structural)]
pub struct FrameTicket {
    pub surface: u64,
    pub serial: usize,
}

/// Whether the popup is currently shown.
#[derive(Clone, Copy, Debug, PartialEq, Eq, Structural)]
pub enum Phase {
    Hidden,
    Shown,
}

/// An event delivered by the compositor, routed to the session.
#[derive(Clone, Copy, Debug, PartialEq, Eq, Structural)]
pub enum Event {
    /// Activation intent: the text input became active.
    Activate,
    /// Activation intent: the text input became inactive.
    Deactivate,
    /// Commit of the intents received since the last commit.
    Done,
    /// A key event on the keyboard grab.
    Key { time: u32, key: u32, state: u32 },
    /// A keymap on the keyboard grab (the file descriptor stays with the caller).
    Keymap { format: u32, size: u32 },
    /// A modifier update on the keyboard grab.
    Modifiers { depressed: u32, latched: u32, locked: u32, group: u32 },
    /// The frame notification requested under `ticket` has fired.
    FrameDone { ticket: FrameTicket },
}

/// A request that the caller performs towards the compositor.
#[derive(Clone, Copy, Debug, PartialEq, Eq, Structural)]
pub enum Action {
    /// Request a keyboard grab from the input method.
    GrabKeyboard,
    /// Release the keyboard grab and drop it.
    ReleaseGrab,
    /// Destroy the surface instance `surface`.
    DestroySurface { surface: u64 },
    /// Create a fresh surface instance, known from now on as `surface`.
    CreateSurface { surface: u64 },
    /// Create the popup bound to the surface instance `surface`.
    CreatePopup { surface: u64 },
    /// Destroy the popup and drop it.
    DestroyPopup,
    /// Fill a writable buffer for frame `ticket.serial`, attach it to the
    /// surface `ticket.surface`, damage it whole, request a frame notification
    /// under `ticket` and commit.
    Repaint { ticket: FrameTicket },
    /// Forward a key event to the virtual keyboard.
    ForwardKey { time: u32, key: u32, state: u32 },
    /// Forward the keymap to the virtual keyboard.
    ForwardKeymap { format: u32, size: u32 },
    /// Forward a modifier update to the virtual keyboard.
    ForwardModifiers { depressed: u32, latched: u32, locked: u32, group: u32 },
}

/// The abstract state of a session.
#[derive(Clone, Copy, Debug, PartialEq, Eq, Structural)]
pub struct SessionView {
    /// Replace the surface each time the popup is shown.
    pub recreate_surface: bool,
    /// The latched activation intent.
    pub pending_active: bool,
    /// Whether a keyboard grab is held.
    pub grab_held: bool,
    pub phase: Phase,
    /// Key presses seen so far, modulo 2^64.
    pub presses: u64,
    /// The current surface instance.
    pub surface: u64,
    /// The one frame-notification request that the session honours.
    pub frame: Option<FrameTicket>,
    /// Repaints made so far, modulo the word size.
    pub draws: usize,
}

pub open spec fn next_u64(x: u64) -> u64 {
    if x == u64::MAX { 0 } else { (x + 1) as u64 }
}

pub open spec fn next_usize(x: usize) -> usize {
    if x == usize::MAX { 0 } else { (x + 1) as usize }
}

impl SessionView {
    pub open spec fn initial(recreate_surface: bool) -> SessionView {
        SessionView {
            recreate_surface,
            pending_active: false,
            grab_held: false,
            phase: Phase::Hidden,
            presses: 0,
            surface: 0,
            frame: None,
            draws: 0,
        }
    }

    /// The popup is shown exactly after an odd number of presses, and the
    /// session honours a frame request exactly while it is shown, one made on
    /// the current surface.
    pub open spec fn wf(self) -> bool {
        &&& (self.phase == Phase::Shown) == (self.presses % 2 == 1)
        &&& self.frame.is_some() == (self.phase == Phase::Shown)
        &&& (self.frame matches Some(t) ==> t.surface == self.surface)
    }
}

/// Paint the current surface and take a new frame ticket for it.
pub open spec fn repaint(s: SessionView) -> (SessionView, Seq<Action>) {
    let t = FrameTicket { surface: s.surface, serial: s.draws };
    (SessionView { frame: Some(t), draws: next_usize(s.draws), ..s }, seq![Action::Repaint { ticket: t }])
}

/// Commit the latched activation intent.
pub open spec fn commit(s: SessionView) -> (SessionView, Seq<Action>) {
    if s.pending_active {
        if s.grab_held {
            (s, seq![])
        } else {
            (SessionView { grab_held: true, ..s }, seq![Action::GrabKeyboard])
        }
    } else {
        if s.grab_held {
            (SessionView { grab_held: false, ..s }, seq![Action::ReleaseGrab])
        } else {
            (s, seq![])
        }
    }
}

/// Show or hide the popup on a key press.
pub open spec fn toggle(s: SessionView) -> (SessionView, Seq<Action>) {
    match s.phase {
        Phase::Shown => (
            SessionView { phase: Phase::Hidden, presses: next_u64(s.presses), frame: None, ..s },
            seq![Action::DestroyPopup],
        ),
        Phase::Hidden => {
            if s.recreate_surface {
                let n = next_u64(s.surface);
                let shown = SessionView {
                    phase: Phase::Shown,
                    presses: next_u64(s.presses),
                    surface: n,
                    ..s
                };
                let (r, acts) = repaint(shown);
                (
                    r,
                    seq![
                        Action::DestroySurface { surface: s.surface },
                        Action::CreateSurface { surface: n },
                        Action::CreatePopup { surface: n },
                    ] + acts,
                )
            } else {
                let shown = SessionView { phase: Phase::Shown, presses: next_u64(s.presses), ..s };
                let (r, acts) = repaint(shown);
                (r, seq![Action::CreatePopup { surface: s.surface }] + acts)
            }
        },
    }
}

/// The next state and the requests to make when `e` arrives in state `s`.
pub open spec fn step(s: SessionView, e: Event) -> (SessionView, Seq<Action>) {
    match e {
        Event::Activate => (SessionView { pending_active: true, ..s }, seq![]),
        Event::Deactivate => (SessionView { pending_active: false, ..s }, seq![]),
        Event::Done => commit(s),
        Event::Key { time, key, state } => {
            let (r, acts) = if state == KEY_PRESSED {
                toggle(s)
            } else {
                (s, seq![])
            };
            (r, acts.push(Action::ForwardKey { time, key, state }))
        },
        Event::Keymap { format, size } => (s, seq![Action::ForwardKeymap { format, size }]),
        Event::Modifiers { depressed, latched, locked, group } => (
            s,
            seq![Action::ForwardModifiers { depressed, latched, locked, group }],
        ),
        Event::FrameDone { ticket } => {
            if s.frame == Some(ticket) {
                repaint(s)
            } else {
                (s, seq![])
            }
        },
    }
}

/// The state after the events `evs`, in order, starting from `s`.
pub open spec fn run(s: SessionView, evs: Seq<Event>) -> SessionView
    decreases evs.len(),
{
    if evs.len() == 0 {
        s
    } else {
        step(run(s, evs.drop_last()), evs.last()).0
    }
}

/// All requests made while the events `evs` are handled, starting from `s`.
pub open spec fn run_actions(s: SessionView, evs: Seq<Event>) -> Seq<Action>
    decreases evs.len(),
{
    if evs.len() == 0 {
        seq![]
    } else {
        run_actions(s, evs.drop_last()) + step(run(s, evs.drop_last()), evs.last()).1
    }
}

/// The input method's session: activation, keyboard grab, popup toggle and
/// frame-paced redraw.
pub struct Session {
    recreate_surface: bool,
    pending_active: bool,
    grab_held: bool,
    phase: Phase,
    presses: u64,
    surface: u64,
    frame: Option<FrameTicket>,
    draws: usize,
}

impl View for Session {
    type V = SessionView;

    closed spec fn view(&self) -> SessionView {
        SessionView {
            recreate_surface: self.recreate_surface,
            pending_active: self.pending_active,
            grab_held: self.grab_held,
            phase: self.phase,
            presses: self.presses,
            surface: self.surface,
            frame: self.frame,
            draws: self.draws,
        }
    }
}

fn bump_u64(x: u64) -> (r: u64)
    ensures
        r == next_u64(x),
{
    if x == u64::MAX { 0 } else { x + 1 }
}

fn bump_usize(x: usize) -> (r: usize)
    ensures
        r == next_usize(x),
{
    if x == usize::MAX { 0 } else { x + 1 }
}

impl Session {
    /// A fresh session on the surface instance 0; `recreate_surface_on_show`
    /// makes every showing of the popup replace the surface first.
    pub fn new(recreate_surface_on_show: bool) -> (r: Session)
        ensures
            r@ == SessionView::initial(recreate_surface_on_show),
            r@.wf(),
    {
        Session {
            recreate_surface: recreate_surface_on_show,
            pending_active: false,
            grab_held: false,
            phase: Phase::Hidden,
            presses: 0,
            surface: 0,
            frame: None,
            draws: 0,
        }
    }

    /// Whether a keyboard grab is held.
    pub fn grab_held(&self) -> (r: bool)
        ensures
            r == self@.grab_held,
    {
        self.grab_held
    }

    /// The latched activation intent.
    pub fn pending_active(&self) -> (r: bool)
        ensures
            r == self@.pending_active,
    {
        self.pending_active
    }

    /// Whether the popup exists.
    pub fn popup_shown(&self) -> (r: bool)
        ensures
            r == (self@.phase == Phase::Shown),
    {
        match self.phase {
            Phase::Shown => true,
            Phase::Hidden => false,
        }
    }

    /// The current surface instance.
    pub fn surface(&self) -> (r: u64)
        ensures
            r == self@.surface,
    {
        self.surface
    }

    /// The frame request that the session honours, if any.
    pub fn frame_pending(&self) -> (r: Option<FrameTicket>)
        ensures
            r == self@.frame,
    {
        self.frame
    }

    /// Key presses seen so far, modulo 2^64.
    pub fn presses(&self) -> (r: u64)
        ensures
            r == self@.presses,
    {
        self.presses
    }

    /// Repaints made so far; the next repaint paints frame number `draws()`.
    pub fn draws(&self) -> (r: usize)
        ensures
            r == self@.draws,
    {
        self.draws
    }

    /// Whether showing the popup replaces the surface first.
    pub fn recreates_surface(&self) -> (r: bool)
        ensures
            r == self@.recreate_surface,
    {
        self.recreate_surface
    }

    fn repaint(&mut self, acts: &mut Vec<Action>)
        ensures
            final(self)@ == repaint(old(self)@).0,
            final(acts)@ == old(acts)@ + repaint(old(self)@).1,
    {
        let t = FrameTicket { surface: self.surface, serial: self.draws };
        self.frame = Some(t);
        self.draws = bump_usize(self.draws);
        acts.push(Action::Repaint { ticket: t });
        assert(acts@ =~= old(acts)@ + repaint(old(self)@).1);
    }

    fn commit(&mut self, acts: &mut Vec<Action>)
        ensures
            final(self)@ == commit(old(self)@).0,
            final(acts)@ == old(acts)@ + commit(old(self)@).1,
    {
        if self.pending_active {
            if !self.grab_held {
                self.grab_held = true;
                acts.push(Action::GrabKeyboard);
            }
        } else if self.grab_held {
            self.grab_held = false;
            acts.push(Action::ReleaseGrab);
        }
        assert(acts@ =~= old(acts)@ + commit(old(self)@).1);
    }

    fn toggle(&mut self, acts: &mut Vec<Action>)
        ensures
            final(self)@ == toggle(old(self)@).0,
            final(acts)@ == old(acts)@ + toggle(old(self)@).1,
    {
        match self.phase {
            Phase::Shown => {
                self.phase = Phase::Hidden;
                self.presses = bump_u64(self.presses);
                self.frame = None;
                acts.push(Action::DestroyPopup);
                assert(acts@ =~= old(acts)@ + toggle(old(self)@).1);
            },
            Phase::Hidden => {
                self.phase = Phase::Shown;
                self.presses = bump_u64(self.presses);
                if self.recreate_surface {
                    let n = bump_u64(self.surface);
                    acts.push(Action::DestroySurface { surface: self.surface });
                    acts.push(Action::CreateSurface { surface: n });
                    self.surface = n;
                }
                acts.push(Action::CreatePopup { surface: self.surface });
                self.repaint(acts);
                assert(acts@ =~= old(acts)@ + toggle(old(self)@).1);
            },
        }
    }

    /// Handles one event: updates the session and returns, in order, the
    /// requests to make towards the compositor.
    pub fn handle(&mut self, e: Event) -> (r: Vec<Action>)
        ensures
            (final(self)@, r@) == step(old(self)@, e),
    {
        let mut acts: Vec<Action> = Vec::new();
        match e {
            Event::Activate => {
                self.pending_active = true;
            },
            Event::Deactivate => {
                self.pending_active = false;
            },
            Event::Done => {
                self.commit(&mut acts);
            },
            Event::Key { time, key, state } => {
                if state == KEY_PRESSED {
                    self.toggle(&mut acts);
                }
                acts.push(Action::ForwardKey { time, key, state });
            },
            Event::Keymap { format, size } => {
                acts.push(Action::ForwardKeymap { format, size });
            },
            Event::Modifiers { depressed, latched, locked, group } => {
                acts.push(Action::ForwardModifiers { depressed, latched, locked, group });
            },
            Event::FrameDone { ticket } => {
                let current = match self.frame {
                    Some(t) => t == ticket,
                    None => false,
                };
                if current {
                    self.repaint(&mut acts);
                }
            },
        }
        assert(acts@ =~= step(old(self)@, e).1);
        acts
    }
}

} // verus!
