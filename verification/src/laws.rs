//! The guarantees the runtime gives over whole event traces: what a resize
//! does and does not touch, which cursor position mouse-button dispatch
//! reports, how render failures are triaged, and that the handler is stopped
//! exactly once.

use vstd::prelude::*;

use crate::canvas::{
    step_spec_actions, step_spec_state, initial_state_spec, Action, CanvasEvent, CanvasState,
    CursorPos, MouseButton,
};
use crate::config::SurfaceConfig;
use crate::error::Error;

verus! {

/// The state after a whole sequence of events, processed in delivery order.
pub open spec fn run_spec_state<K>(pre: CanvasState, events: Seq<CanvasEvent<K>>) -> CanvasState
    decreases events.len(),
{
    if events.len() == 0 {
        pre
    } else {
        run_spec_state(step_spec_state(pre, events[0]), events.drop_first())
    }
}

/// All actions a whole sequence of events asks for, in order.
pub open spec fn run_spec_actions<K>(pre: CanvasState, events: Seq<CanvasEvent<K>>) -> Seq<
    Action<K>,
>
    decreases events.len(),
{
    if events.len() == 0 {
        Seq::empty()
    } else {
        step_spec_actions(pre, events[0]) + run_spec_actions(
            step_spec_state(pre, events[0]),
            events.drop_first(),
        )
    }
}

/// How many times a sequence of actions stops the handler.
pub open spec fn stop_count<K>(actions: Seq<Action<K>>) -> int
    decreases actions.len(),
{
    if actions.len() == 0 {
        0
    } else {
        (if actions[0] is NotifyStop {
            1int
        } else {
            0int
        }) + stop_count(actions.drop_first())
    }
}

/// A resize event with a zero dimension (a minimized window) changes neither
/// the surface configuration nor the cached size, and asks for no action at
/// all — in particular the handler's resize callback is not invoked.
pub proof fn lemma_zero_resize_ignored<K>(pre: CanvasState, width: u32, height: u32)
    requires
        width == 0 || height == 0,
    ensures
        step_spec_state(pre, CanvasEvent::<K>::Resized { width, height }) == pre,
        step_spec_actions(pre, CanvasEvent::<K>::Resized { width, height }) == Seq::<
            Action<K>,
        >::empty(),
{
    assert(step_spec_actions(pre, CanvasEvent::<K>::Resized { width, height }) =~= Seq::<
        Action<K>,
    >::empty());
}

/// A resize event with positive dimensions puts exactly those dimensions into
/// the surface configuration and the cached size, and asks for exactly one
/// resize notification with those values, after the surface was reconfigured.
pub proof fn lemma_resize_configures_then_notifies<K>(pre: CanvasState, width: u32, height: u32)
    requires
        !pre.terminated,
        width > 0,
        height > 0,
    ensures
        step_spec_state(pre, CanvasEvent::<K>::Resized { width, height }).config.width == width,
        step_spec_state(pre, CanvasEvent::<K>::Resized { width, height }).config.height == height,
        step_spec_state(pre, CanvasEvent::<K>::Resized { width, height }).size_width == width,
        step_spec_state(pre, CanvasEvent::<K>::Resized { width, height }).size_height == height,
        step_spec_actions(pre, CanvasEvent::<K>::Resized { width, height }) == seq![
            Action::<K>::ConfigureSurface { width, height },
            Action::<K>::NotifyResize { width, height },
        ],
{
}

/// No event but a cursor move changes the cached cursor position.
pub proof fn lemma_step_preserves_cursor<K>(pre: CanvasState, event: CanvasEvent<K>)
    requires
        !(event is CursorMoved),
    ensures
        step_spec_state(pre, event).cursor == pre.cursor,
{
}

/// Over a whole sequence of events without a cursor move, the cached cursor
/// position never changes.
pub proof fn lemma_run_preserves_cursor<K>(pre: CanvasState, events: Seq<CanvasEvent<K>>)
    requires
        forall|i: int| 0 <= i < events.len() ==> !(events[i] is CursorMoved),
    ensures
        run_spec_state(pre, events).cursor == pre.cursor,
    decreases events.len(),
{
    if events.len() > 0 {
        lemma_step_preserves_cursor(pre, events[0]);
        lemma_run_preserves_cursor(step_spec_state(pre, events[0]), events.drop_first());
    }
}

/// A mouse-button event reports exactly the coordinates of the most recent
/// prior cursor-move event, even when arbitrarily many other events were
/// processed in between.
pub proof fn lemma_mouse_button_reports_last_move<K>(
    pre: CanvasState,
    x_bits: u64,
    y_bits: u64,
    later: Seq<CanvasEvent<K>>,
    button: MouseButton,
    pressed: bool,
)
    requires
        !pre.terminated,
        forall|i: int| 0 <= i < later.len() ==> !(later[i] is CursorMoved),
        !run_spec_state(
            step_spec_state(pre, CanvasEvent::<K>::CursorMoved { x_bits, y_bits }),
            later,
        ).terminated,
    ensures
        step_spec_actions(
            run_spec_state(
                step_spec_state(pre, CanvasEvent::<K>::CursorMoved { x_bits, y_bits }),
                later,
            ),
            CanvasEvent::<K>::MouseInput { button, pressed },
        ) == seq![Action::<K>::NotifyMouseButton { x_bits, y_bits, button, pressed }],
{
    let mid = step_spec_state(pre, CanvasEvent::<K>::CursorMoved { x_bits, y_bits });
    assert(mid.cursor == CursorPos { x_bits, y_bits });
    lemma_run_preserves_cursor(mid, later);
}

/// A mouse-button event before any cursor-move event reports the initial
/// cursor position, the bits of (0.0, 0.0).
pub proof fn lemma_mouse_button_before_any_move<K>(
    config: SurfaceConfig,
    earlier: Seq<CanvasEvent<K>>,
    button: MouseButton,
    pressed: bool,
)
    requires
        forall|i: int| 0 <= i < earlier.len() ==> !(earlier[i] is CursorMoved),
        !run_spec_state(initial_state_spec(config), earlier).terminated,
    ensures
        step_spec_actions(
            run_spec_state(initial_state_spec(config), earlier),
            CanvasEvent::<K>::MouseInput { button, pressed },
        ) == seq![
            Action::<K>::NotifyMouseButton { x_bits: 0, y_bits: 0, button, pressed },
        ],
{
    lemma_run_preserves_cursor(initial_state_spec(config), earlier);
}

/// A context-lost render failure asks for exactly one reconfiguration and one
/// resize notification, both with the last known size, and does not terminate
/// the loop; the state itself is unchanged.
pub proof fn lemma_context_lost_reconfigures<K>(pre: CanvasState, e: Error)
    requires
        pre.wf(),
        !pre.terminated,
        e is ContextLost,
    ensures
        step_spec_state(pre, CanvasEvent::<K>::RenderCompleted(Err(e))) == pre,
        !step_spec_state(pre, CanvasEvent::<K>::RenderCompleted(Err(e))).terminated,
        step_spec_actions(pre, CanvasEvent::<K>::RenderCompleted(Err(e))) == seq![
            Action::<K>::ConfigureSurface { width: pre.size_width, height: pre.size_height },
            Action::<K>::NotifyResize { width: pre.size_width, height: pre.size_height },
        ],
{
}

/// An out-of-memory render failure terminates the loop: the runtime asks the
/// handler to stop and the platform loop to exit, in that order.
pub proof fn lemma_out_of_memory_terminates<K>(pre: CanvasState, e: Error)
    requires
        !pre.terminated,
        e is OutOfMemory,
    ensures
        step_spec_state(pre, CanvasEvent::<K>::RenderCompleted(Err(e))).terminated,
        step_spec_actions(pre, CanvasEvent::<K>::RenderCompleted(Err(e))) == seq![
            Action::<K>::NotifyStop,
            Action::<K>::Exit,
        ],
{
}

/// A render failure that is neither a context loss nor memory exhaustion is
/// skipped: the state is unchanged and nothing is asked of the embedder, so
/// the next frame simply retries.
pub proof fn lemma_other_render_errors_skipped<K>(pre: CanvasState, e: Error)
    requires
        !pre.terminated,
        !(e is ContextLost),
        !(e is OutOfMemory),
    ensures
        step_spec_state(pre, CanvasEvent::<K>::RenderCompleted(Err(e))) == pre,
        step_spec_actions(pre, CanvasEvent::<K>::RenderCompleted(Err(e))) == Seq::<
            Action<K>,
        >::empty(),
{
}

/// A render cycle is asked for only in response to a redraw request: no other
/// event makes the runtime render.
pub proof fn lemma_render_only_on_redraw_request<K>(pre: CanvasState, event: CanvasEvent<K>)
    requires
        !(event is RedrawRequested),
    ensures
        forall|i: int|
            0 <= i < step_spec_actions(pre, event).len() ==> !(step_spec_actions(pre, event)[i]
                is Render),
{
}

/// A terminated runtime ignores every further event.
pub proof fn lemma_terminated_is_absorbing<K>(pre: CanvasState, events: Seq<CanvasEvent<K>>)
    requires
        pre.terminated,
    ensures
        run_spec_state(pre, events) == pre,
        run_spec_actions(pre, events) == Seq::<Action<K>>::empty(),
    decreases events.len(),
{
    if events.len() > 0 {
        lemma_terminated_is_absorbing(step_spec_state(pre, events[0]), events.drop_first());
        assert(run_spec_actions(pre, events) =~= Seq::<Action<K>>::empty());
    }
}

/// Stop counts add up over concatenation.
pub proof fn lemma_stop_count_concat<K>(a: Seq<Action<K>>, b: Seq<Action<K>>)
    ensures
        stop_count(a + b) == stop_count(a) + stop_count(b),
    decreases a.len(),
{
    if a.len() == 0 {
        assert(a + b =~= b);
    } else {
        assert((a + b).drop_first() =~= a.drop_first() + b);
        lemma_stop_count_concat(a.drop_first(), b);
    }
}

/// One step stops the handler exactly when it terminates a running loop.
pub proof fn lemma_step_stop_count<K>(pre: CanvasState, event: CanvasEvent<K>)
    ensures
        stop_count(step_spec_actions(pre, event)) == (if !pre.terminated && step_spec_state(
            pre,
            event,
        ).terminated {
            1int
        } else {
            0int
        }),
{
    reveal_with_fuel(stop_count, 4);
}

/// Over any sequence of events, the handler's stop callback is asked for at
/// most once, and exactly once if and only if the run terminates a loop that
/// was still running.
pub proof fn lemma_stop_fires_exactly_once_on_termination<K>(
    pre: CanvasState,
    events: Seq<CanvasEvent<K>>,
)
    ensures
        stop_count(run_spec_actions(pre, events)) == (if !pre.terminated && run_spec_state(
            pre,
            events,
        ).terminated {
            1int
        } else {
            0int
        }),
    decreases events.len(),
{
    if events.len() > 0 {
        let mid = step_spec_state(pre, events[0]);
        lemma_step_stop_count(pre, events[0]);
        lemma_stop_count_concat(
            step_spec_actions(pre, events[0]),
            run_spec_actions(mid, events.drop_first()),
        );
        lemma_stop_fires_exactly_once_on_termination(mid, events.drop_first());
        if mid.terminated {
            lemma_terminated_is_absorbing(mid, events.drop_first());
        }
    }
}

} // verus!
