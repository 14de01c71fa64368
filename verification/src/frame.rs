//! The per-frame event and state policy of the loop.
//!
//! The window system hands the loop a batch of events each iteration.
//! Three of them are meaningful to the loop itself — a framebuffer
//! resize, the exit key, and the overlay toggle chord — and every other
//! event belongs to the overlay library. The loop also owns two flags:
//! whether the overlay is rendered this frame, and a single-slot latch
//! that asks for one shader rebuild. This module makes all of those
//! decisions; the shell performs the GL and window calls they call for.

use vstd::prelude::*;

verus! {

/// A key the loop cares about. Every other key is `Other`.
#[derive(Clone, Copy, Debug, PartialEq, Eq, Structural)]
pub enum Key {
    Escape,
    H,
    Other,
}

/// The modifier keys held during a key press.
#[derive(Clone, Copy, Debug, PartialEq, Eq, Structural)]
pub struct Mods {
    pub ctrl: bool,
    pub shift: bool,
    pub alt: bool,
    pub superkey: bool,
}

/// One event out of the window system, reduced to what the loop reads:
/// a framebuffer resize with its new size, a key press with its
/// modifiers, or anything else.
#[derive(Clone, Copy, Debug, PartialEq, Eq, Structural)]
pub enum Event {
    FramebufferResize { width: i32, height: i32 },
    KeyPress { key: Key, mods: Mods },
    Other,
}

/// What the shell must do with one event after the loop has read it.
#[derive(Clone, Copy, Debug, PartialEq, Eq, Structural)]
pub enum Dispatch {
    /// Set the GPU viewport to this rectangle.
    SetViewport { x: i32, y: i32, width: i32, height: i32 },
    /// Ask the window to close.
    CloseWindow,
    /// Nothing: the event only changed loop state.
    Handled,
    /// Hand the event verbatim to the overlay library.
    Forward,
}

/// The mutable state the loop owns across iterations.
#[derive(Clone, Copy, Debug, PartialEq, Eq, Structural)]
pub struct FrameState {
    /// Whether the debug overlay is rendered this frame.
    pub ui_visible: bool,
    /// The single-slot rebuild request: set by the overlay button,
    /// cleared when an iteration consumes it.
    pub recompile_requested: bool,
    /// Whether the exit key has asked the loop to end.
    pub close_requested: bool,
}

/// Whether the press asks the loop to exit: the exit key, under any
/// modifiers.
pub open spec fn is_exit_press(key: Key, mods: Mods) -> bool {
    key == Key::Escape
}

/// Whether the press is the overlay toggle chord: its key under the
/// control modifier exactly, no other modifier held.
pub open spec fn is_toggle_press(key: Key, mods: Mods) -> bool {
    key == Key::H && mods == (Mods { ctrl: true, shift: false, alt: false, superkey: false })
}

/// The state after the overlay toggle chord.
pub open spec fn toggled(s: FrameState) -> FrameState {
    FrameState { ui_visible: !s.ui_visible, ..s }
}

/// The state after the exit key.
pub open spec fn with_close(s: FrameState) -> FrameState {
    FrameState { close_requested: true, ..s }
}

/// The state after one activation of the rebuild button.
pub open spec fn with_recompile_request(s: FrameState) -> FrameState {
    FrameState { recompile_requested: true, ..s }
}

/// The state after an iteration has consumed the rebuild latch.
pub open spec fn with_request_consumed(s: FrameState) -> FrameState {
    FrameState { recompile_requested: false, ..s }
}

/// The state after one event.
pub open spec fn event_state(s: FrameState, e: Event) -> FrameState {
    match e {
        Event::KeyPress { key, mods } => if is_exit_press(key, mods) {
            with_close(s)
        } else if is_toggle_press(key, mods) {
            toggled(s)
        } else {
            s
        },
        _ => s,
    }
}

/// What the shell is told to do with one event.
pub open spec fn event_dispatch(e: Event) -> Dispatch {
    match e {
        Event::FramebufferResize { width, height } => Dispatch::SetViewport {
            x: 0,
            y: 0,
            width,
            height,
        },
        Event::KeyPress { key, mods } => if is_exit_press(key, mods) {
            Dispatch::CloseWindow
        } else if is_toggle_press(key, mods) {
            Dispatch::Handled
        } else {
            Dispatch::Forward
        },
        Event::Other => Dispatch::Forward,
    }
}

/// The state after a batch of events, oldest first.
pub open spec fn events_state(s: FrameState, evs: Seq<Event>) -> FrameState
    decreases evs.len(),
{
    if evs.len() == 0 {
        s
    } else {
        events_state(event_state(s, evs[0]), evs.skip(1))
    }
}

impl FrameState {
    /// The state the loop starts in: overlay visible, no rebuild
    /// pending, no exit asked for.
    pub fn new() -> (s: FrameState)
        ensures
            s == (FrameState { ui_visible: true, recompile_requested: false, close_requested: false }),
    {
        FrameState { ui_visible: true, recompile_requested: false, close_requested: false }
    }

    /// Reads one event: updates the loop's own flags and says what the
    /// shell must do with the event. A resize asks for the viewport to
    /// cover the new framebuffer from its origin; the exit key asks the
    /// window to close; the toggle chord flips the overlay flag; every
    /// other event is forwarded to the overlay library.
    pub fn handle_event(&mut self, e: Event) -> (d: Dispatch)
        ensures
            *final(self) == event_state(*old(self), e),
            d == event_dispatch(e),
    {
        match e {
            Event::FramebufferResize { width, height } => Dispatch::SetViewport {
                x: 0,
                y: 0,
                width,
                height,
            },
            Event::KeyPress { key, mods } => {
                if key == Key::Escape {
                    self.close_requested = true;
                    Dispatch::CloseWindow
                } else if key == Key::H && mods == (Mods {
                    ctrl: true,
                    shift: false,
                    alt: false,
                    superkey: false,
                }) {
                    self.ui_visible = !self.ui_visible;
                    Dispatch::Handled
                } else {
                    Dispatch::Forward
                }
            },
            Event::Other => Dispatch::Forward,
        }
    }

    /// Drains a batch of events in order, returning the shell's task for
    /// each event at the same position.
    pub fn process_events(&mut self, events: &Vec<Event>) -> (ds: Vec<Dispatch>)
        ensures
            *final(self) == events_state(*old(self), events@),
            ds@ == events@.map_values(|e: Event| event_dispatch(e)),
    {
        let mut ds: Vec<Dispatch> = Vec::new();
        let ghost s0 = *self;
        for i in 0..events.len()
            invariant
                *self == events_state(s0, events@.subrange(0, i as int)),
                ds@ == events@.subrange(0, i as int).map_values(|e: Event| event_dispatch(e)),
        {
            proof {
                lemma_events_state_snoc(s0, events@.subrange(0, i as int), events@[i as int]);
                assert(events@.subrange(0, i as int).push(events@[i as int]) =~= events@.subrange(
                    0,
                    i as int + 1,
                ));
            }
            let d = self.handle_event(events[i]);
            ds.push(d);
            proof {
                assert(events@.subrange(0, i as int).map_values(|e: Event| event_dispatch(e)).push(
                    event_dispatch(events@[i as int]),
                ) =~= events@.subrange(0, i as int + 1).map_values(
                    |e: Event| event_dispatch(e),
                ));
            }
        }
        proof {
            assert(events@.subrange(0, events@.len() as int) =~= events@);
        }
        ds
    }

    /// Records one activation of the overlay's rebuild button. The latch
    /// holds a request, not a count: activating it again before an
    /// iteration consumes it changes nothing further.
    pub fn request_recompile(&mut self)
        ensures
            *final(self) == with_recompile_request(*old(self)),
    {
        self.recompile_requested = true;
    }

    /// Consumes the rebuild latch at the head of an iteration: reports
    /// whether a rebuild is due this iteration and clears the latch.
    pub fn take_recompile_request(&mut self) -> (due: bool)
        ensures
            due == old(self).recompile_requested,
            *final(self) == with_request_consumed(*old(self)),
    {
        let due = self.recompile_requested;
        self.recompile_requested = false;
        due
    }
}

/// A batch of events acts one event at a time: extending the batch by
/// one event applies that event to the state the batch reached.
pub proof fn lemma_events_state_snoc(s: FrameState, evs: Seq<Event>, e: Event)
    ensures
        events_state(s, evs.push(e)) == event_state(events_state(s, evs), e),
    decreases evs.len(),
{
    if evs.len() == 0 {
        assert(evs.push(e).skip(1) =~= Seq::<Event>::empty());
        assert(evs.push(e)[0] == e);
        assert(events_state(s, evs.push(e)) == events_state(
            event_state(s, e),
            Seq::<Event>::empty(),
        ));
        assert(events_state(event_state(s, e), Seq::<Event>::empty()) == event_state(s, e));
        assert(events_state(s, evs) == s);
    } else {
        assert(evs.push(e)[0] == evs[0]);
        assert(evs.push(e).skip(1) =~= evs.skip(1).push(e));
        assert(events_state(s, evs.push(e)) == events_state(
            event_state(s, evs[0]),
            evs.skip(1).push(e),
        ));
        lemma_events_state_snoc(event_state(s, evs[0]), evs.skip(1), e);
        assert(events_state(s, evs) == events_state(event_state(s, evs[0]), evs.skip(1)));
    }
}

/// The rebuild latch collapses repetition: any positive number of button
/// activations before the next iteration leaves the same state as one,
/// and the iteration that then consumes the latch performs exactly one
/// rebuild and clears it.
pub proof fn lemma_request_latch(s: FrameState, n: nat)
    requires
        n >= 1,
    ensures
        after_requests(s, n) == with_recompile_request(s),
        after_requests(s, n).recompile_requested,
        !with_request_consumed(after_requests(s, n)).recompile_requested,
    decreases n,
{
    if n == 1 {
        assert(after_requests(s, 1) == with_recompile_request(after_requests(s, 0)));
        assert(after_requests(s, 0) == s);
    } else {
        lemma_request_latch(s, (n - 1) as nat);
        assert(after_requests(s, n) == with_recompile_request(after_requests(s, (n - 1) as nat)));
    }
}

/// The state after `n` activations of the rebuild button.
pub open spec fn after_requests(s: FrameState, n: nat) -> FrameState
    decreases n,
{
    if n == 0 {
        s
    } else {
        with_recompile_request(after_requests(s, (n - 1) as nat))
    }
}

/// Toggling the overlay chord twice returns the loop to the state it
/// was in: the toggle is an involution.
pub proof fn lemma_toggle_involution(s: FrameState)
    ensures
        toggled(toggled(s)) == s,
{
}

/// Consuming the latch never touches the other flags, and consuming it
/// twice is the same as consuming it once: after an iteration has taken
/// the request, none is left.
pub proof fn lemma_consume_idempotent(s: FrameState)
    ensures
        with_request_consumed(with_request_consumed(s)) == with_request_consumed(s),
        with_request_consumed(s).ui_visible == s.ui_visible,
        with_request_consumed(s).close_requested == s.close_requested,
{
}

} // verus!
