//! The event-loop policy: what each window-system event does to the loop's
//! state and which action the host must perform for it.

use vstd::prelude::*;
use crate::surface::{GraphicsContext, SurfaceConfig};

verus! {

/// The events the host loop dispatches; everything else it receives is
/// `Other` and ignored.
#[derive(Clone, Copy, PartialEq, Eq, Debug)]
pub enum LoopEvent {
    Resized { width: u32, height: u32 },
    CloseRequested,
    RedrawRequested,
    Other,
}

/// What the host must do after handing an event in: reconfigure the surface
/// to `config` and schedule a repaint; record, submit and present one frame;
/// stop the loop with the given exit status; or nothing.
#[derive(Clone, Copy, PartialEq, Eq, Debug)]
pub enum LoopAction {
    Reconfigure { config: SurfaceConfig },
    Draw,
    Exit { status: i32 },
    Nothing,
}

/// The loop's whole mutable state: the graphics context and whether close
/// has been requested.
#[derive(Clone, Copy, PartialEq, Eq, Debug)]
pub struct LoopState {
    pub context: GraphicsContext,
    pub exited: bool,
}

/// One step of the loop: the state after the event and the action owed for
/// it. A resize with positive dimensions reconfigures; close requests exit
/// with status 0; a redraw request draws one frame, unless close was already
/// requested; anything else does nothing. No event ever touches the device
/// or the format.
pub open spec fn spec_step(s: LoopState, e: LoopEvent) -> (LoopState, LoopAction) {
    match e {
        LoopEvent::Resized { width, height } => {
            let context = s.context.spec_resize(width, height);
            let next = LoopState { context, ..s };
            if width > 0 && height > 0 {
                (next, LoopAction::Reconfigure { config: context.config })
            } else {
                (next, LoopAction::Nothing)
            }
        },
        LoopEvent::CloseRequested => (LoopState { exited: true, ..s }, LoopAction::Exit {
            status: 0,
        }),
        LoopEvent::RedrawRequested => {
            if s.exited {
                (s, LoopAction::Nothing)
            } else {
                (s, LoopAction::Draw)
            }
        },
        LoopEvent::Other => (s, LoopAction::Nothing),
    }
}

/// Dispatch one event against the loop state.
pub fn handle_event(state: &mut LoopState, event: LoopEvent) -> (action: LoopAction)
    ensures
        *final(state) == spec_step(*old(state), event).0,
        action == spec_step(*old(state), event).1,
        final(state).context.device == old(state).context.device,
        final(state).context.format == old(state).context.format,
        final(state).exited == (old(state).exited || event is CloseRequested),
        event is CloseRequested ==> action == (LoopAction::Exit { status: 0 }),
        old(state).exited ==> !(action is Draw),
        old(state).context.wf() ==> final(state).context.wf(),
{
    match event {
        LoopEvent::Resized { width, height } => {
            let reconfigured = state.context.resize(width, height);
            if reconfigured {
                LoopAction::Reconfigure { config: state.context.config }
            } else {
                LoopAction::Nothing
            }
        },
        LoopEvent::CloseRequested => {
            state.exited = true;
            LoopAction::Exit { status: 0 }
        },
        LoopEvent::RedrawRequested => {
            if state.exited {
                LoopAction::Nothing
            } else {
                LoopAction::Draw
            }
        },
        LoopEvent::Other => LoopAction::Nothing,
    }
}

/// The state after a whole sequence of events.
pub open spec fn spec_run(s: LoopState, events: Seq<LoopEvent>) -> LoopState
    decreases events.len(),
{
    if events.len() == 0 {
        s
    } else {
        spec_run(spec_step(s, events[0]).0, events.subrange(1, events.len() as int))
    }
}

/// The actions a whole sequence of events produces, in order.
pub open spec fn spec_run_actions(s: LoopState, events: Seq<LoopEvent>) -> Seq<LoopAction>
    decreases events.len(),
{
    if events.len() == 0 {
        Seq::empty()
    } else {
        seq![spec_step(s, events[0]).1] + spec_run_actions(
            spec_step(s, events[0]).0,
            events.subrange(1, events.len() as int),
        )
    }
}

/// A run produces exactly one action per event.
pub proof fn lemma_run_actions_len(s: LoopState, events: Seq<LoopEvent>)
    ensures
        spec_run_actions(s, events).len() == events.len(),
    decreases events.len(),
{
    if events.len() > 0 {
        lemma_run_actions_len(spec_step(s, events[0]).0, events.subrange(1, events.len() as int));
    }
}

/// Once close has been requested it stays requested: no later event clears
/// the exited flag.
pub proof fn lemma_exited_is_stable(s: LoopState, e: LoopEvent)
    requires
        s.exited,
    ensures
        spec_step(s, e).0.exited,
{
}

/// After close has been requested, no later event produces a draw: the loop
/// performs no further frames.
pub proof fn lemma_no_draw_after_exit(s: LoopState, events: Seq<LoopEvent>)
    requires
        s.exited,
    ensures
        forall|i: int|
            0 <= i < events.len() ==> !(spec_run_actions(s, events)[i] is Draw),
    decreases events.len(),
{
    if events.len() > 0 {
        let next = spec_step(s, events[0]).0;
        let rest = events.subrange(1, events.len() as int);
        lemma_exited_is_stable(s, events[0]);
        lemma_run_actions_len(s, events);
        lemma_run_actions_len(next, rest);
        lemma_no_draw_after_exit(next, events.subrange(1, events.len() as int));
        assert forall|i: int| 0 <= i < events.len() implies !(spec_run_actions(s, events)[i]
            is Draw) by {
            if i > 0 {
                assert(spec_run_actions(s, events)[i] == spec_run_actions(
                    next,
                    events.subrange(1, events.len() as int),
                )[i - 1]);
            }
        }
    }
}

/// Drawing mutates nothing: a run of redraw requests leaves the loop state —
/// the surface configuration, the format and the device — exactly as it was.
/// The renderer is not part of the state at all; recording a frame takes it
/// by shared reference.
pub proof fn lemma_draws_preserve_state(s: LoopState, events: Seq<LoopEvent>)
    requires
        forall|i: int| 0 <= i < events.len() ==> events[i] is RedrawRequested,
    ensures
        spec_run(s, events) == s,
    decreases events.len(),
{
    if events.len() > 0 {
        assert(events[0] is RedrawRequested);
        assert(spec_step(s, events[0]).0 == s);
        assert(forall|i: int|
            0 <= i < events.subrange(1, events.len() as int).len() ==> events.subrange(
                1,
                events.len() as int,
            )[i] is RedrawRequested);
        lemma_draws_preserve_state(s, events.subrange(1, events.len() as int));
    }
}

} // verus!
