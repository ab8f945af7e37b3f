//! The event dispatch state machine. It runs exclusively on the background
//! thread: one blocking wait yields one raw event, the event is classified,
//! and at most one callback on the caller's [`GuiState`] object is invoked
//! before the next wait — strictly sequentially, so no two callback
//! invocations ever overlap.

use vstd::prelude::*;

use crate::events::{spec_classify, classify, ClassifiedEvent, RawEvent, WindowIdentity};
use crate::gui_state::GuiState;

verus! {

/// The dispatch loop's control state.
#[derive(Clone, Copy, Debug, PartialEq, Eq, Structural)]
pub enum LoopState {
    /// Parked in the platform's blocking event wait (the initial state).
    WaitingForEvent,
    /// A redraw request is being dispatched: the platform glue must make the
    /// render context current, render the frame, present it, and release the
    /// context before the loop waits again.
    Dispatching,
    /// The loop has ended (terminal): teardown may destroy the render
    /// context and the window.
    Terminated,
}

/// What the platform glue must do after handing one event to the engine.
#[derive(Clone, Copy, Debug, PartialEq, Eq, Structural)]
pub enum Directive {
    /// Bracket the frame: make the render context current, call
    /// [`EventLoop::render_frame`], present the buffers, release the context.
    Render,
    /// Nothing: wait for the next event.
    Continue,
    /// Exit the loop and tear the window down.
    Stop,
}

/// One callback invocation on the caller's [`GuiState`] object, as recorded
/// by the engine's ghost invocation history.
#[derive(Clone, Copy, Debug, PartialEq, Eq, Structural)]
pub enum Invocation {
    /// One `draw` call.
    DrawCall,
    /// One `handle_mouse` call with the given kind and coordinates.
    MouseCall(crate::gui_state::MouseEvent, i32, i32),
}

/// The loop state after one waiting step observes `ev`: no more events ends
/// the loop, a termination request ends it, a redraw request enters the
/// dispatching bracket, and everything else returns to the wait.
pub open spec fn spec_step(ev: Option<RawEvent>, id: WindowIdentity) -> LoopState {
    match ev {
        None => LoopState::Terminated,
        Some(e) => match spec_classify(e, id) {
            ClassifiedEvent::Draw => LoopState::Dispatching,
            ClassifiedEvent::TerminationRequested => LoopState::Terminated,
            ClassifiedEvent::PointerDown(_, _, _) => LoopState::WaitingForEvent,
            ClassifiedEvent::Unrecognized(_) => LoopState::WaitingForEvent,
        },
    }
}

/// The directive a step yields: render for a redraw request, stop when the
/// loop ends, otherwise continue.
pub open spec fn spec_directive(ev: Option<RawEvent>, id: WindowIdentity) -> Directive {
    match spec_step(ev, id) {
        LoopState::Dispatching => Directive::Render,
        LoopState::Terminated => Directive::Stop,
        LoopState::WaitingForEvent => Directive::Continue,
    }
}

/// The callback invocations one step dispatches by itself: exactly the
/// `handle_mouse` call of a recognized pointer event, and nothing else (a
/// redraw's `draw` call happens inside the dispatching bracket instead).
pub open spec fn spec_step_invocations(ev: Option<RawEvent>, id: WindowIdentity) -> Seq<
    Invocation,
> {
    match ev {
        None => Seq::empty(),
        Some(e) => match spec_classify(e, id) {
            ClassifiedEvent::PointerDown(m, x, y) => seq![Invocation::MouseCall(m, x, y)],
            _ => Seq::empty(),
        },
    }
}

/// The event dispatch engine: the caller's callback object, the loop's
/// control state, and the published identity the loop classifies against.
///
/// The engine is driven from exactly one thread. Each observed event is
/// handed to [`handle`](EventLoop::handle); a `Render` directive must be
/// answered with one [`render_frame`](EventLoop::render_frame) call inside
/// the platform's context bracket before the next event is handed in. The
/// control state enforces that protocol: `handle` demands a waiting engine
/// and `render_frame` demands a dispatching one.
pub struct EventLoop<S: GuiState> {
    /// The caller's callback object, owned exclusively by the engine.
    state: S,
    /// The loop's control state.
    loop_state: LoopState,
    /// The published identity of the window the loop serves.
    identity: WindowIdentity,
    /// The history of callback invocations the engine has dispatched, in
    /// order.
    history: Ghost<Seq<Invocation>>,
}

impl<S: GuiState> EventLoop<S> {
    /// The loop's control state.
    pub closed spec fn loop_state(self) -> LoopState {
        self.loop_state
    }

    /// The published identity the loop classifies against.
    pub closed spec fn identity(self) -> WindowIdentity {
        self.identity
    }

    /// The caller's callback object.
    pub closed spec fn gui_state(self) -> S {
        self.state
    }

    /// The history of callback invocations dispatched so far, in order.
    pub closed spec fn history(self) -> Seq<Invocation> {
        self.history@
    }

    /// Starts the engine for a published identity, taking ownership of the
    /// caller's callback object. No callback has been invoked yet.
    pub fn new(state: S, identity: WindowIdentity) -> (engine: Self)
        ensures
            engine.loop_state() == LoopState::WaitingForEvent,
            engine.identity() == identity,
            engine.gui_state() == state,
            engine.history() == Seq::<Invocation>::empty(),
    {
        EventLoop {
            state,
            loop_state: LoopState::WaitingForEvent,
            identity,
            history: Ghost(Seq::empty()),
        }
    }

    /// Dispatches one observed event (or the end of the event stream) and
    /// says what the platform glue must do next. A recognized pointer event
    /// is dispatched to `handle_mouse` here and now; a redraw request only
    /// moves the engine into the dispatching bracket, to be completed by one
    /// [`render_frame`](EventLoop::render_frame) call; everything
    /// unrecognized is dropped.
    pub fn handle(&mut self, ev: Option<RawEvent>) -> (d: Directive)
        requires
            old(self).loop_state() == LoopState::WaitingForEvent,
        ensures
            final(self).loop_state() == spec_step(ev, old(self).identity()),
            final(self).identity() == old(self).identity(),
            d == spec_directive(ev, old(self).identity()),
            final(self).history() == old(self).history() + spec_step_invocations(
                ev,
                old(self).identity(),
            ),
            spec_step_invocations(ev, old(self).identity()).len() == 0 ==> final(self).gui_state()
                == old(self).gui_state(),
    {
        match ev {
            None => {
                self.loop_state = LoopState::Terminated;
                proof {
                    assert(final(self).history() =~= old(self).history()
                        + spec_step_invocations(ev, old(self).identity()));
                }
                Directive::Stop
            },
            Some(e) => {
                let c = classify(&e, &self.identity);
                match c {
                    ClassifiedEvent::Draw => {
                        self.loop_state = LoopState::Dispatching;
                        proof {
                            assert(final(self).history() =~= old(self).history()
                                + spec_step_invocations(ev, old(self).identity()));
                        }
                        Directive::Render
                    },
                    ClassifiedEvent::PointerDown(m, x, y) => {
                        self.state.handle_mouse(m, x, y);
                        self.history = Ghost(self.history@.push(Invocation::MouseCall(m, x, y)));
                        proof {
                            assert(final(self).history() =~= old(self).history()
                                + spec_step_invocations(ev, old(self).identity()));
                        }
                        Directive::Continue
                    },
                    ClassifiedEvent::TerminationRequested => {
                        self.loop_state = LoopState::Terminated;
                        proof {
                            assert(final(self).history() =~= old(self).history()
                                + spec_step_invocations(ev, old(self).identity()));
                        }
                        Directive::Stop
                    },
                    ClassifiedEvent::Unrecognized(_) => {
                        proof {
                            assert(final(self).history() =~= old(self).history()
                                + spec_step_invocations(ev, old(self).identity()));
                        }
                        Directive::Continue
                    },
                }
            },
        }
    }

    /// Completes a redraw dispatch: invokes `draw` exactly once and returns
    /// the engine to its wait. The platform glue calls this between making
    /// the render context current and presenting the buffers.
    pub fn render_frame(&mut self)
        requires
            old(self).loop_state() == LoopState::Dispatching,
        ensures
            final(self).loop_state() == LoopState::WaitingForEvent,
            final(self).identity() == old(self).identity(),
            final(self).history() == old(self).history().push(Invocation::DrawCall),
    {
        self.state.draw();
        self.history = Ghost(self.history@.push(Invocation::DrawCall));
        self.loop_state = LoopState::WaitingForEvent;
    }

    /// Ends the engine and hands the caller's callback object back, for
    /// whoever outlives the loop to drop or inspect.
    pub fn into_gui_state(self) -> (s: S)
        ensures
            s == self.gui_state(),
    {
        self.state
    }

    /// The loop's control state, for the platform glue's loop condition.
    pub fn current_state(&self) -> (st: LoopState)
        ensures
            st == self.loop_state(),
    {
        self.loop_state
    }
}

/// Law: teardown's injected message ends the loop. For every identity, one
/// waiting step that observes the synthetic termination message addressed
/// to that identity leaves the loop terminated and directs the platform
/// glue to stop — so injecting the message reliably unparks and ends a loop
/// blocked in the event wait, whatever else arrives around it.
pub proof fn lemma_injected_termination_stops_loop(id: WindowIdentity)
    ensures
        spec_step(Some(crate::events::spec_termination_message(id)), id)
            == LoopState::Terminated,
        spec_directive(Some(crate::events::spec_termination_message(id)), id) == Directive::Stop,
{
    crate::events::lemma_termination_message_recognized(id);
}

/// Law: dispatch is strictly sequential. One waiting step invokes at most
/// one callback, it enters the dispatching bracket exactly on a redraw
/// request — in which the one `draw` call happens and which must end before
/// the next step begins — and a step that invokes a callback returns
/// straight to the wait. Together with the engine's control-state contract
/// (a step demands a waiting engine, a frame render demands a dispatching
/// one) this rules out overlapping `draw` and `handle_mouse` invocations.
pub proof fn lemma_dispatch_sequential(ev: Option<RawEvent>, id: WindowIdentity)
    ensures
        spec_step_invocations(ev, id).len() <= 1,
        spec_step(ev, id) == LoopState::Dispatching <==> (ev is Some && spec_classify(
            ev->Some_0,
            id,
        ) == ClassifiedEvent::Draw),
        spec_step_invocations(ev, id).len() == 1 ==> spec_step(ev, id)
            == LoopState::WaitingForEvent,
{
}

} // verus!
