//! The frame orchestrator: the session state owned by the event loop, and the
//! decisions it takes on each window event and after each render attempt.
//!
//! The host performs the actions it is handed (reconfiguring the surface,
//! drawing, presenting, exiting) and reports back how the render went.
use vstd::prelude::*;

use crate::controls::{update_controls, Command, mode_after, mode_command, selected_mode};
use crate::keys::{Key, KeyboardMode, KeyboardState};
use crate::params::{init_params, initial_params, Params};

verus! {

/// A surface size in physical pixels.
#[derive(Clone, Copy, Debug, PartialEq, Eq, Structural)]
pub struct SurfaceSize {
    pub width: u32,
    pub height: u32,
}

/// The events that the window layer delivers.
#[derive(Clone, Copy, Debug, PartialEq, Eq, Structural)]
pub enum WindowEvent {
    CloseRequested,
    RedrawRequested,
    KeyboardInput { key: Key, pressed: bool },
    Resized { width: u32, height: u32 },
    Focused(bool),
    /// Any event that the session does not act on.
    Other,
}

/// Why acquiring the next surface image failed.
#[derive(Clone, Copy, Debug, PartialEq, Eq, Structural)]
pub enum SurfaceFailure {
    Timeout,
    Outdated,
    Lost,
    OutOfMemory,
}

/// What the host does after a window event.
#[derive(Clone, Copy, Debug, PartialEq, Eq, Structural)]
pub enum EventAction {
    /// Nothing.
    Nothing,
    /// Leave the event loop.
    Exit,
    /// Run one frame: time uniform, controls, parameter writes, debug copies,
    /// render and present.
    Frame,
    /// Reconfigure the surface at this size, now.
    Reconfigure(SurfaceSize),
    /// Report that focus was lost and the held keys were forgotten.
    FocusLost,
}

/// What the host does after a render attempt.
#[derive(Clone, Copy, Debug, PartialEq, Eq, Structural)]
pub enum FrameOutcome {
    /// The image was presented.
    Presented,
    /// The surface was lost: reconfigure it at this size; the next frame
    /// retries.
    Reconfigure(SurfaceSize),
    /// Out of memory: leave the event loop.
    Exit,
    /// A transient failure: report it; the next frame retries.
    Skipped(SurfaceFailure),
}

/// Whether a resize to `width` by `height` is taken; a zero-sized surface is
/// never configured.
pub open spec fn resize_accepted(width: u32, height: u32) -> bool {
    width > 0 && height > 0
}

/// The surface size after `ev`.
pub open spec fn size_after_event(size: SurfaceSize, ev: WindowEvent) -> SurfaceSize {
    match ev {
        WindowEvent::Resized { width, height } => if resize_accepted(width, height) {
            SurfaceSize { width, height }
        } else {
            size
        },
        _ => size,
    }
}

/// The held keys after `ev`.
pub open spec fn held_after_event(held: Set<Key>, ev: WindowEvent) -> Set<Key> {
    match ev {
        WindowEvent::KeyboardInput { key, pressed } => if pressed {
            held.insert(key)
        } else {
            held.remove(key)
        },
        WindowEvent::Focused(focused) => if focused {
            held
        } else {
            Set::empty()
        },
        _ => held,
    }
}

/// The action that `ev` asks of the host.
pub open spec fn event_action(ev: WindowEvent) -> EventAction {
    match ev {
        WindowEvent::CloseRequested => EventAction::Exit,
        WindowEvent::RedrawRequested => EventAction::Frame,
        WindowEvent::Resized { width, height } => if resize_accepted(width, height) {
            EventAction::Reconfigure(SurfaceSize { width, height })
        } else {
            EventAction::Nothing
        },
        WindowEvent::Focused(focused) => if focused {
            EventAction::Nothing
        } else {
            EventAction::FocusLost
        },
        _ => EventAction::Nothing,
    }
}

/// What follows a render attempt that ended with `failure` (`None`: presented).
pub open spec fn render_outcome(size: SurfaceSize, failure: Option<SurfaceFailure>) -> FrameOutcome {
    match failure {
        None => FrameOutcome::Presented,
        Some(SurfaceFailure::Lost) => if resize_accepted(size.width, size.height) {
            FrameOutcome::Reconfigure(size)
        } else {
            FrameOutcome::Skipped(SurfaceFailure::Lost)
        },
        Some(SurfaceFailure::OutOfMemory) => FrameOutcome::Exit,
        Some(f) => FrameOutcome::Skipped(f),
    }
}

/// The state that the event loop owns: the configured surface size, the
/// controls and the host copies of the parameter blocks.
#[derive(Debug)]
pub struct Session {
    size: SurfaceSize,
    controls: KeyboardState,
    params: Params,
}

impl Session {
    /// The size the surface is configured at.
    pub closed spec fn size_spec(&self) -> SurfaceSize {
        self.size
    }

    /// The held keys.
    pub closed spec fn held(&self) -> Set<Key> {
        self.controls.held()
    }

    /// The active mode.
    pub closed spec fn mode(&self) -> KeyboardMode {
        self.controls.mode()
    }

    /// The host copies of the parameter blocks: the single source of truth,
    /// from which their buffers are rewritten.
    pub closed spec fn params_spec(&self) -> Params {
        self.params
    }

    /// The controls are well formed.
    pub closed spec fn wf(&self) -> bool {
        self.controls.wf()
    }

    /// A session on a surface configured at `width` by `height`: no key held,
    /// mode PRINT, the initial parameters.
    pub fn new(width: u32, height: u32) -> (r: Session)
        ensures
            r.wf(),
            r.size_spec() == (SurfaceSize { width, height }),
            r.held() == Set::<Key>::empty(),
            r.mode() == KeyboardMode::PRINT,
            r.params_spec() == initial_params(),
    {
        Session {
            size: SurfaceSize { width, height },
            controls: KeyboardState::new(),
            params: init_params(),
        }
    }

    /// The size the surface is configured at.
    pub fn size(&self) -> (r: SurfaceSize)
        ensures
            r == self.size_spec(),
    {
        self.size
    }

    /// The parameter blocks.
    pub fn params(&self) -> (r: Params)
        ensures
            r == self.params_spec(),
    {
        self.params
    }

    /// Replaces the parameter blocks; nothing else changes.
    pub fn set_params(&mut self, params: Params)
        ensures
            final(self).params_spec() == params,
            final(self).wf() == old(self).wf(),
            final(self).held() == old(self).held(),
            final(self).mode() == old(self).mode(),
            final(self).size_spec() == old(self).size_spec(),
    {
        self.params = params;
    }

    /// The controls.
    pub fn controls(&self) -> (r: &KeyboardState)
        ensures
            r.held() == self.held(),
            r.mode() == self.mode(),
            r.wf() == self.wf(),
    {
        &self.controls
    }

    /// Takes a new surface size unless a side is zero; returns whether the
    /// surface must be reconfigured.
    pub fn resize(&mut self, width: u32, height: u32) -> (r: bool)
        ensures
            r == resize_accepted(width, height),
            final(self).size_spec() == if r {
                SurfaceSize { width, height }
            } else {
                old(self).size_spec()
            },
            final(self).wf() == old(self).wf(),
            final(self).held() == old(self).held(),
            final(self).mode() == old(self).mode(),
            final(self).params_spec() == old(self).params_spec(),
    {
        if width > 0 && height > 0 {
            self.size = SurfaceSize { width, height };
            true
        } else {
            false
        }
    }

    /// Applies a window event to the session and says what the host must do.
    pub fn handle_event(&mut self, ev: WindowEvent) -> (r: EventAction)
        requires
            old(self).wf(),
        ensures
            final(self).wf(),
            r == event_action(ev),
            final(self).size_spec() == size_after_event(old(self).size_spec(), ev),
            final(self).held() == held_after_event(old(self).held(), ev),
            final(self).mode() == old(self).mode(),
            final(self).params_spec() == old(self).params_spec(),
    {
        match ev {
            WindowEvent::CloseRequested => EventAction::Exit,
            WindowEvent::RedrawRequested => EventAction::Frame,
            WindowEvent::KeyboardInput { key, pressed } => {
                self.controls.handle_keyboard_input(key, pressed);
                EventAction::Nothing
            },
            WindowEvent::Resized { width, height } => {
                if self.resize(width, height) {
                    EventAction::Reconfigure(SurfaceSize { width, height })
                } else {
                    EventAction::Nothing
                }
            },
            WindowEvent::Focused(focused) => {
                if focused {
                    EventAction::Nothing
                } else {
                    self.controls.clear_keys();
                    EventAction::FocusLost
                }
            },
            WindowEvent::Other => EventAction::Nothing,
        }
    }

    /// Runs the controls for one frame and returns the command for the host.
    pub fn update(&mut self) -> (r: Command)
        requires
            old(self).wf(),
        ensures
            final(self).wf(),
            r == mode_command(selected_mode(old(self).mode(), old(self).held()), old(self).held()),
            final(self).mode() == mode_after(
                selected_mode(old(self).mode(), old(self).held()),
                old(self).held(),
            ),
            final(self).held() == old(self).held(),
            final(self).size_spec() == old(self).size_spec(),
            final(self).params_spec() == old(self).params_spec(),
    {
        update_controls(&mut self.controls)
    }

    /// Decides what follows a render attempt; a lost surface is reconfigured
    /// at the current size.
    pub fn after_render(&self, failure: Option<SurfaceFailure>) -> (r: FrameOutcome)
        ensures
            r == render_outcome(self.size_spec(), failure),
    {
        match failure {
            None => FrameOutcome::Presented,
            Some(SurfaceFailure::Lost) => {
                if self.size.width > 0 && self.size.height > 0 {
                    FrameOutcome::Reconfigure(self.size)
                } else {
                    FrameOutcome::Skipped(SurfaceFailure::Lost)
                }
            },
            Some(SurfaceFailure::OutOfMemory) => FrameOutcome::Exit,
            Some(f) => FrameOutcome::Skipped(f),
        }
    }
}

/// A resize to a non-zero size asks for exactly one reconfiguration, at that
/// size; the redraw that follows asks for none, and a render that succeeds
/// leaves nothing to reconfigure, with the surface configured at exactly that
/// size. Should that surface be lost instead, it is reconfigured once, at the
/// same size.
pub proof fn lemma_resize_then_render(size: SurfaceSize, width: u32, height: u32)
    requires
        width > 0,
        height > 0,
    ensures
        event_action(WindowEvent::Resized { width, height }) == EventAction::Reconfigure(
            SurfaceSize { width, height },
        ),
        size_after_event(size, WindowEvent::Resized { width, height }) == (SurfaceSize {
            width,
            height,
        }),
        event_action(WindowEvent::RedrawRequested) == EventAction::Frame,
        size_after_event(
            size_after_event(size, WindowEvent::Resized { width, height }),
            WindowEvent::RedrawRequested,
        ) == (SurfaceSize { width, height }),
        render_outcome(SurfaceSize { width, height }, None) == FrameOutcome::Presented,
        render_outcome(SurfaceSize { width, height }, Some(SurfaceFailure::Lost))
            == FrameOutcome::Reconfigure(SurfaceSize { width, height }),
{
}

/// A zero-sized resize is ignored: nothing is reconfigured and the size stays.
pub proof fn lemma_zero_resize_ignored(size: SurfaceSize, width: u32, height: u32)
    requires
        width == 0 || height == 0,
    ensures
        event_action(WindowEvent::Resized { width, height }) == EventAction::Nothing,
        size_after_event(size, WindowEvent::Resized { width, height }) == size,
{
}

/// Losing focus and then regaining it leaves no key held, whatever was held
/// before.
pub proof fn lemma_focus_loss_clears_keys(held: Set<Key>)
    ensures
        held_after_event(
            held_after_event(held, WindowEvent::Focused(false)),
            WindowEvent::Focused(true),
        ) == Set::<Key>::empty(),
{
}

} // verus!
