//! The canvas runtime: the state the event loop keeps and the transition that
//! turns each platform event into state updates and actions.
//!
//! The runtime is a state machine. The embedder translates each platform
//! event into a [`CanvasEvent`], calls [`step`], and then performs the
//! returned [`Action`]s in order: GPU work (configuring the surface,
//! rendering a frame), platform work (requesting a redraw, exiting the
//! loop), and handler callbacks. The outcome of a render cycle is fed back
//! as a [`CanvasEvent::RenderCompleted`] event, whose triage (reconfigure on
//! context loss, terminate on memory exhaustion, retry otherwise) is part of
//! the same transition.

use vstd::prelude::*;

use crate::config::SurfaceConfig;
use crate::error::Error;

verus! {

/// The options for creating the canvas.
#[derive(Debug, Clone)]
pub struct CanvasOptions {
    pub width: u32,
    pub height: u32,
    pub title: String,
}

impl CanvasOptions {
    /// Construction options must name a positive initial size.
    pub open spec fn valid(self) -> bool {
        self.width > 0 && self.height > 0
    }

    /// Whether the options name a positive initial size. An embedder checks
    /// this before creating the window and rejects zero dimensions as a
    /// configuration error.
    pub fn is_valid(&self) -> (ok: bool)
        ensures
            ok == self.valid(),
    {
        self.width > 0 && self.height > 0
    }
}

/// The last known cursor position, kept as the IEEE-754 bit patterns of the
/// logical (scale-factor-adjusted) coordinates. The runtime never interprets
/// the coordinates: it caches the bits of the most recent cursor-move event
/// and hands exactly those bits back to mouse-button dispatch, so the opaque
/// representation loses nothing. The bit pattern of logical coordinate 0.0
/// is 0.
#[derive(Debug, Clone, Copy, PartialEq, Eq, Structural)]
pub struct CursorPos {
    pub x_bits: u64,
    pub y_bits: u64,
}

/// A mouse button, as the platform reports it.
#[derive(Debug, Clone, Copy, PartialEq, Eq, Structural)]
pub enum MouseButton {
    Left,
    Right,
    Middle,
    Back,
    Forward,
    Other(u16),
}

/// The state the event loop keeps: the surface configuration, the cached
/// physical size (the last size the surface was configured with), the cached
/// cursor position, and whether the loop has terminated.
#[derive(Debug, Clone, Copy, PartialEq, Eq, Structural)]
pub struct CanvasState {
    pub config: SurfaceConfig,
    pub size_width: u32,
    pub size_height: u32,
    pub cursor: CursorPos,
    pub terminated: bool,
}

impl CanvasState {
    /// The runtime keeps the cached size and the configured size in lock
    /// step, and a configured surface always has positive dimensions.
    pub open spec fn wf(self) -> bool {
        &&& self.config.wf()
        &&& self.size_width == self.config.width
        &&& self.size_height == self.config.height
    }
}

/// One platform event addressed to the runtime's own window, plus the
/// completion of a render cycle the runtime asked for. `K` is the platform's
/// keyboard-key type, forwarded opaquely.
#[derive(Debug, PartialEq, Eq)]
pub enum CanvasEvent<K> {
    /// The window was resized to the given physical size.
    Resized { width: u32, height: u32 },
    /// The cursor moved to the given logical position (IEEE-754 bits).
    CursorMoved { x_bits: u64, y_bits: u64 },
    /// A mouse button changed state.
    MouseInput { button: MouseButton, pressed: bool },
    /// A key changed state.
    KeyboardInput { key: K, pressed: bool },
    /// The platform asked the window to close.
    CloseRequested,
    /// The platform asked for the window to be redrawn.
    RedrawRequested,
    /// All pending events were processed; the loop is about to idle.
    AboutToWait,
    /// The render cycle started by an earlier [`Action::Render`] finished
    /// with this outcome.
    RenderCompleted(Result<(), Error>),
}

/// What the embedder must do next, in order: apply the current surface
/// configuration to the surface, invoke a handler callback, render one
/// frame, request a redraw, or exit the platform loop.
#[derive(Debug, PartialEq, Eq)]
pub enum Action<K> {
    /// Reconfigure the surface against the device with the current
    /// configuration, whose size is the given one.
    ConfigureSurface { width: u32, height: u32 },
    /// Call the handler's resize callback with the new physical size.
    NotifyResize { width: u32, height: u32 },
    /// Call the handler's cursor-move callback with the logical position.
    NotifyCursorMove { x_bits: u64, y_bits: u64 },
    /// Call the handler's mouse-button callback with the cached cursor
    /// position.
    NotifyMouseButton { x_bits: u64, y_bits: u64, button: MouseButton, pressed: bool },
    /// Call the handler's keyboard callback.
    NotifyKeyboard { key: K, pressed: bool },
    /// Call the handler's next-frame callback (a render cycle completed).
    NotifyNextFrame,
    /// Call the handler's stop callback (the runtime is terminating).
    NotifyStop,
    /// Perform one render cycle and feed the outcome back as
    /// [`CanvasEvent::RenderCompleted`].
    Render,
    /// Ask the platform to redraw the window.
    RequestRedraw,
    /// Exit the platform event loop.
    Exit,
}

/// The state after the runtime was created for a freshly configured surface:
/// the cached size mirrors the configuration, the cursor cache holds the
/// bits of (0.0, 0.0), and the loop is running.
pub open spec fn initial_state_spec(config: SurfaceConfig) -> CanvasState {
    CanvasState {
        config,
        size_width: config.width,
        size_height: config.height,
        cursor: CursorPos { x_bits: 0, y_bits: 0 },
        terminated: false,
    }
}

/// Create the runtime state for a freshly configured surface.
pub fn initial_state(config: SurfaceConfig) -> (state: CanvasState)
    requires
        config.wf(),
    ensures
        state == initial_state_spec(config),
        state.wf(),
{
    CanvasState {
        config,
        size_width: config.width,
        size_height: config.height,
        cursor: CursorPos { x_bits: 0, y_bits: 0 },
        terminated: false,
    }
}

/// The state after a resize to the given physical size: a zero dimension
/// (a minimized window) leaves everything unchanged; otherwise the surface
/// configuration and the cached size both take the new dimensions.
pub open spec fn resize_spec_state(pre: CanvasState, width: u32, height: u32) -> CanvasState {
    if width == 0 || height == 0 {
        pre
    } else {
        CanvasState {
            config: SurfaceConfig { width, height, ..pre.config },
            size_width: width,
            size_height: height,
            ..pre
        }
    }
}

/// The actions a resize asks for: nothing for a zero dimension; otherwise
/// the surface is reconfigured first and the handler notified second, so the
/// handler never observes a resize the surface does not yet support.
pub open spec fn resize_spec_actions<K>(pre: CanvasState, width: u32, height: u32) -> Seq<
    Action<K>,
> {
    if width == 0 || height == 0 {
        Seq::empty()
    } else {
        seq![
            Action::ConfigureSurface { width, height },
            Action::NotifyResize { width, height },
        ]
    }
}

/// Apply a resize to the given physical size: ignored when either dimension
/// is zero; otherwise the configuration and the cached size take the new
/// dimensions and the embedder is asked to reconfigure the surface and then
/// notify the handler, in that order.
pub fn resize<K>(state: &mut CanvasState, width: u32, height: u32) -> (actions: Vec<Action<K>>)
    requires
        old(state).wf(),
    ensures
        final(state).wf(),
        *final(state) == resize_spec_state(*old(state), width, height),
        actions@ == resize_spec_actions::<K>(*old(state), width, height),
{
    let mut actions: Vec<Action<K>> = Vec::new();
    if width > 0 && height > 0 {
        state.size_width = width;
        state.size_height = height;
        state.config.width = width;
        state.config.height = height;
        actions.push(Action::ConfigureSurface { width, height });
        actions.push(Action::NotifyResize { width, height });
        proof {
            assert(actions@ =~= resize_spec_actions::<K>(*old(state), width, height));
        }
    } else {
        proof {
            assert(actions@ =~= resize_spec_actions::<K>(*old(state), width, height));
        }
    }
    actions
}

/// The state after one event. A terminated runtime ignores every event.
/// A resize follows [`resize_spec_state`]; a cursor move replaces the cached
/// cursor position; a close request and a fatal out-of-memory render failure
/// terminate; a context-lost render failure re-applies the cached size; every
/// other event leaves the state unchanged.
pub open spec fn step_spec_state<K>(pre: CanvasState, event: CanvasEvent<K>) -> CanvasState {
    if pre.terminated {
        pre
    } else {
        match event {
            CanvasEvent::Resized { width, height } => resize_spec_state(pre, width, height),
            CanvasEvent::CursorMoved { x_bits, y_bits } => CanvasState {
                cursor: CursorPos { x_bits, y_bits },
                ..pre
            },
            CanvasEvent::CloseRequested => CanvasState { terminated: true, ..pre },
            CanvasEvent::RenderCompleted(r) => match r {
                Ok(_) => pre,
                Err(e) => if e is ContextLost {
                    resize_spec_state(pre, pre.size_width, pre.size_height)
                } else if e is OutOfMemory {
                    CanvasState { terminated: true, ..pre }
                } else {
                    pre
                },
            },
            _ => pre,
        }
    }
}

/// The actions one event asks for. A terminated runtime asks for nothing.
/// A resize follows [`resize_spec_actions`]; a cursor move and a key are
/// forwarded to the handler; a mouse button is forwarded with the cached
/// cursor position; a close request stops the handler and exits; a redraw
/// request renders one frame; the idle signal requests the next redraw (the
/// loop polls continuously); and a completed render is triaged: the handler
/// sees the next frame on success, a context loss re-applies the cached size,
/// memory exhaustion stops the handler and exits, and any other failure is
/// skipped so the next frame can retry.
pub open spec fn step_spec_actions<K>(pre: CanvasState, event: CanvasEvent<K>) -> Seq<Action<K>> {
    if pre.terminated {
        Seq::empty()
    } else {
        match event {
            CanvasEvent::Resized { width, height } => resize_spec_actions(pre, width, height),
            CanvasEvent::CursorMoved { x_bits, y_bits } => seq![
                Action::NotifyCursorMove { x_bits, y_bits },
            ],
            CanvasEvent::MouseInput { button, pressed } => seq![
                Action::NotifyMouseButton {
                    x_bits: pre.cursor.x_bits,
                    y_bits: pre.cursor.y_bits,
                    button,
                    pressed,
                },
            ],
            CanvasEvent::KeyboardInput { key, pressed } => seq![
                Action::NotifyKeyboard { key, pressed },
            ],
            CanvasEvent::CloseRequested => seq![Action::NotifyStop, Action::Exit],
            CanvasEvent::RedrawRequested => seq![Action::Render],
            CanvasEvent::AboutToWait => seq![Action::RequestRedraw],
            CanvasEvent::RenderCompleted(r) => match r {
                Ok(_) => seq![Action::NotifyNextFrame],
                Err(e) => if e is ContextLost {
                    resize_spec_actions(pre, pre.size_width, pre.size_height)
                } else if e is OutOfMemory {
                    seq![Action::NotifyStop, Action::Exit]
                } else {
                    Seq::empty()
                },
            },
        }
    }
}

/// Process one event: update the runtime state and return the actions the
/// embedder must perform, in order. The state change and the actions follow
/// [`step_spec_state`] and [`step_spec_actions`] exactly.
pub fn step<K>(state: &mut CanvasState, event: CanvasEvent<K>) -> (actions: Vec<Action<K>>)
    requires
        old(state).wf(),
    ensures
        final(state).wf(),
        *final(state) == step_spec_state(*old(state), event),
        actions@ == step_spec_actions(*old(state), event),
{
    let ghost pre: CanvasState = *state;
    let mut actions: Vec<Action<K>> = Vec::new();
    if state.terminated {
        proof {
            assert(actions@ =~= step_spec_actions(pre, event));
        }
        return actions;
    }
    match event {
        CanvasEvent::Resized { width, height } => resize(state, width, height),
        CanvasEvent::CursorMoved { x_bits, y_bits } => {
            state.cursor = CursorPos { x_bits, y_bits };
            actions.push(Action::NotifyCursorMove { x_bits, y_bits });
            proof {
                assert(actions@ =~= step_spec_actions(pre, event));
            }
            actions
        },
        CanvasEvent::MouseInput { button, pressed } => {
            actions.push(
                Action::NotifyMouseButton {
                    x_bits: state.cursor.x_bits,
                    y_bits: state.cursor.y_bits,
                    button,
                    pressed,
                },
            );
            proof {
                assert(actions@ =~= step_spec_actions(pre, event));
            }
            actions
        },
        CanvasEvent::KeyboardInput { key, pressed } => {
            actions.push(Action::NotifyKeyboard { key, pressed });
            proof {
                assert(actions@ =~= step_spec_actions::<K>(pre, CanvasEvent::KeyboardInput { key, pressed }));
            }
            actions
        },
        CanvasEvent::CloseRequested => {
            state.terminated = true;
            actions.push(Action::NotifyStop);
            actions.push(Action::Exit);
            proof {
                assert(actions@ =~= step_spec_actions(pre, event));
            }
            actions
        },
        CanvasEvent::RedrawRequested => {
            actions.push(Action::Render);
            proof {
                assert(actions@ =~= step_spec_actions(pre, event));
            }
            actions
        },
        CanvasEvent::AboutToWait => {
            actions.push(Action::RequestRedraw);
            proof {
                assert(actions@ =~= step_spec_actions(pre, event));
            }
            actions
        },
        CanvasEvent::RenderCompleted(r) => {
            match &r {
                Ok(_) => {
                    actions.push(Action::NotifyNextFrame);
                    proof {
                        assert(actions@ =~= step_spec_actions(pre, CanvasEvent::RenderCompleted(r)));
                    }
                    actions
                },
                Err(e) => {
                    match e {
                        Error::ContextLost(_) => {
                            let width = state.size_width;
                            let height = state.size_height;
                            let acts = resize(state, width, height);
                            proof {
                                assert(acts@ =~= step_spec_actions(pre, CanvasEvent::RenderCompleted(r)));
                            }
                            acts
                        },
                        Error::OutOfMemory(_) => {
                            state.terminated = true;
                            actions.push(Action::NotifyStop);
                            actions.push(Action::Exit);
                            proof {
                                assert(actions@ =~= step_spec_actions(pre, CanvasEvent::RenderCompleted(r)));
                            }
                            actions
                        },
                        _ => {
                            proof {
                                assert(actions@ =~= step_spec_actions(pre, CanvasEvent::RenderCompleted(r)));
                            }
                            actions
                        },
                    }
                },
            }
        },
    }
}

/// Wind the runtime down after the platform loop has ended: stop the handler
/// if it was not stopped yet. Together with [`step`] this makes the stop
/// callback fire exactly once over the runtime's lifetime.
pub fn finish<K>(state: &mut CanvasState) -> (actions: Vec<Action<K>>)
    ensures
        *final(state) == (CanvasState { terminated: true, ..*old(state) }),
        actions@ == if old(state).terminated {
            Seq::<Action<K>>::empty()
        } else {
            seq![Action::<K>::NotifyStop]
        },
{
    let mut actions: Vec<Action<K>> = Vec::new();
    if !state.terminated {
        state.terminated = true;
        actions.push(Action::NotifyStop);
        proof {
            assert(actions@ =~= seq![Action::<K>::NotifyStop]);
        }
    }
    actions
}

} // verus!
