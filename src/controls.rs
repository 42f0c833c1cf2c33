//! The modal input controller: from the held keys and the active mode to the
//! next mode and the one parameter change (or other action) of this frame.
//!
//! The controller decides; the host performs what it asks for (float
//! arithmetic on the parameter blocks, buffer writes, readback, printing).
use vstd::prelude::*;

use crate::keys::{Key, KeyboardMode, KeyboardState};

verus! {

/// A screen axis.
#[derive(Clone, Copy, Debug, PartialEq, Eq, Structural)]
pub enum Axis {
    X,
    Y,
}

/// A field of the ray-marching parameters.
#[derive(Clone, Copy, Debug, PartialEq, Eq, Structural)]
pub enum RayField {
    Epsilon,
    MaxSteps,
    MaxDist,
}

/// A debug buffer, or the pair of debug arrays read side by side.
#[derive(Clone, Copy, Debug, PartialEq, Eq, Structural)]
pub enum DebugTarget {
    Generic,
    Array1,
    Array2,
    Interleaved,
}

/// What the controller asks the host to do in this frame.
#[derive(Clone, Copy, Debug, PartialEq, Eq, Structural)]
pub enum Command {
    /// Nothing.
    Nothing,
    /// Shift along `axis` by 0.01 divided by the current zoom, upwards when
    /// `positive`; then write the view parameters.
    Pan { axis: Axis, positive: bool },
    /// Rotation about `axis` becomes `max(0, rotation + 0.1)`; then write the
    /// view parameters.
    RotateUp { axis: Axis },
    /// Rotation about `axis` becomes `rotation - 0.1`, with no lower bound;
    /// then write the view parameters.
    RotateDown { axis: Axis },
    /// Zoom becomes `zoom + 0.1 * zoom`; then write the view parameters.
    ZoomIn,
    /// Zoom becomes `zoom - 0.1 * zoom`; then write the view parameters.
    ZoomOut,
    /// `field` becomes `max(0, field + step)`, `step` one of -1, 0, 1; then
    /// write the ray parameters.
    AdjustRay { field: RayField, step: i8 },
    /// Read the target back to the host and print it, then pause 50 ms.
    ReadBack { target: DebugTarget },
    /// Report that terrain control is not available yet.
    TerrainPending,
    /// Print the three parameter blocks.
    PrintParams,
}

/// The mode that a held mode-select key asks for, highest priority first:
/// D (DEBUG), 1 (TERRAIN), 2 (VIEW), 3 (RAY), P (PRINT); otherwise the
/// current mode.
pub open spec fn selected_mode(current: KeyboardMode, held: Set<Key>) -> KeyboardMode {
    if held.contains(Key::KeyD) {
        KeyboardMode::DEBUG
    } else if held.contains(Key::Digit1) {
        KeyboardMode::TERRAIN
    } else if held.contains(Key::Digit2) {
        KeyboardMode::VIEW
    } else if held.contains(Key::Digit3) {
        KeyboardMode::RAY
    } else if held.contains(Key::KeyP) {
        KeyboardMode::PRINT
    } else {
        current
    }
}

/// The command of the DEBUG mode.
pub open spec fn debug_command(held: Set<Key>) -> Command {
    if held.contains(Key::KeyS) {
        Command::ReadBack { target: DebugTarget::Generic }
    } else if held.contains(Key::Digit1) {
        Command::ReadBack { target: DebugTarget::Array1 }
    } else if held.contains(Key::Digit2) {
        Command::ReadBack { target: DebugTarget::Array2 }
    } else if held.contains(Key::Digit3) {
        Command::ReadBack { target: DebugTarget::Interleaved }
    } else {
        Command::Nothing
    }
}

/// The step of the RAY mode: up 1, else down -1, else 0.
pub open spec fn ray_step(held: Set<Key>) -> i8 {
    if held.contains(Key::ArrowUp) {
        1
    } else if held.contains(Key::ArrowDown) {
        -1i8
    } else {
        0
    }
}

/// The command of the RAY mode.
pub open spec fn ray_command(held: Set<Key>) -> Command {
    if held.contains(Key::KeyE) {
        Command::AdjustRay { field: RayField::Epsilon, step: ray_step(held) }
    } else if held.contains(Key::KeyS) {
        Command::AdjustRay { field: RayField::MaxSteps, step: ray_step(held) }
    } else if held.contains(Key::KeyW) {
        Command::AdjustRay { field: RayField::MaxDist, step: ray_step(held) }
    } else {
        Command::Nothing
    }
}

/// The command of the VIEW mode. Left and up lower the shift or raise the
/// rotation (with the shift key); right and down raise the shift or lower the
/// rotation; X zooms out, Z zooms in.
pub open spec fn view_command(held: Set<Key>) -> Command {
    let shift = held.contains(Key::ShiftLeft);
    if held.contains(Key::ArrowLeft) {
        if shift {
            Command::RotateUp { axis: Axis::X }
        } else {
            Command::Pan { axis: Axis::X, positive: false }
        }
    } else if held.contains(Key::ArrowRight) {
        if shift {
            Command::RotateDown { axis: Axis::X }
        } else {
            Command::Pan { axis: Axis::X, positive: true }
        }
    } else if held.contains(Key::ArrowUp) {
        if shift {
            Command::RotateUp { axis: Axis::Y }
        } else {
            Command::Pan { axis: Axis::Y, positive: false }
        }
    } else if held.contains(Key::ArrowDown) {
        if shift {
            Command::RotateDown { axis: Axis::Y }
        } else {
            Command::Pan { axis: Axis::Y, positive: true }
        }
    } else if held.contains(Key::KeyX) {
        Command::ZoomOut
    } else if held.contains(Key::KeyZ) {
        Command::ZoomIn
    } else {
        Command::Nothing
    }
}

/// The command that the handler of `mode` gives for the held keys.
pub open spec fn mode_command(mode: KeyboardMode, held: Set<Key>) -> Command {
    match mode {
        KeyboardMode::DEBUG => debug_command(held),
        KeyboardMode::VIEW => view_command(held),
        KeyboardMode::TERRAIN => Command::TerrainPending,
        KeyboardMode::RAY => ray_command(held),
        KeyboardMode::PRINT => Command::PrintParams,
    }
}

/// The mode after the handler of `mode` ran: a readback and a print are
/// momentary and hand over to VIEW.
pub open spec fn mode_after(mode: KeyboardMode, held: Set<Key>) -> KeyboardMode {
    match mode {
        KeyboardMode::DEBUG => if debug_command(held) is Nothing {
            KeyboardMode::DEBUG
        } else {
            KeyboardMode::VIEW
        },
        KeyboardMode::PRINT => KeyboardMode::VIEW,
        _ => mode,
    }
}

/// The mode that a mode-select key asks for; `None` for any other key.
pub open spec fn mode_of_select_key(k: Key) -> Option<KeyboardMode> {
    match k {
        Key::KeyD => Some(KeyboardMode::DEBUG),
        Key::Digit1 => Some(KeyboardMode::TERRAIN),
        Key::Digit2 => Some(KeyboardMode::VIEW),
        Key::Digit3 => Some(KeyboardMode::RAY),
        Key::KeyP => Some(KeyboardMode::PRINT),
        _ => None,
    }
}

/// The rank of a mode among the mode-select keys; the higher rank wins.
pub open spec fn mode_priority(m: KeyboardMode) -> nat {
    match m {
        KeyboardMode::DEBUG => 4,
        KeyboardMode::TERRAIN => 3,
        KeyboardMode::VIEW => 2,
        KeyboardMode::RAY => 1,
        KeyboardMode::PRINT => 0,
    }
}

/// Whatever the current mode, when mode-select keys are held the selected mode
/// is the one that a held select key asks for, and no held select key asks
/// for a mode of higher rank. The result depends on the held set alone, not
/// on any order of its keys.
pub proof fn lemma_select_priority(current: KeyboardMode, held: Set<Key>, k: Key)
    requires
        held.contains(k),
        mode_of_select_key(k) is Some,
    ensures
        exists|j: Key| #[trigger]
            held.contains(j) && mode_of_select_key(j) == Some(selected_mode(current, held)),
        forall|j: Key|
            #[trigger] held.contains(j) && mode_of_select_key(j) is Some ==> mode_priority(
                mode_of_select_key(j)->0,
            ) <= mode_priority(selected_mode(current, held)),
{
    let m = selected_mode(current, held);
    if held.contains(Key::KeyD) {
        assert(mode_of_select_key(Key::KeyD) == Some(m));
    } else if held.contains(Key::Digit1) {
        assert(mode_of_select_key(Key::Digit1) == Some(m));
    } else if held.contains(Key::Digit2) {
        assert(mode_of_select_key(Key::Digit2) == Some(m));
    } else if held.contains(Key::Digit3) {
        assert(mode_of_select_key(Key::Digit3) == Some(m));
    } else {
        assert(held.contains(Key::KeyP));
        assert(mode_of_select_key(Key::KeyP) == Some(m));
    }
}

/// With no mode-select key held, the mode stays.
pub proof fn lemma_no_select_key_keeps_mode(current: KeyboardMode, held: Set<Key>)
    requires
        forall|j: Key| #[trigger] held.contains(j) ==> mode_of_select_key(j) is None,
    ensures
        selected_mode(current, held) == current,
{
    assert(mode_of_select_key(Key::KeyD) is Some);
    assert(mode_of_select_key(Key::Digit1) is Some);
    assert(mode_of_select_key(Key::Digit2) is Some);
    assert(mode_of_select_key(Key::Digit3) is Some);
    assert(mode_of_select_key(Key::KeyP) is Some);
}

/// A frame in which neither zoom key is held asks for no zoom change, in any
/// mode: the zoom factor is left exactly as it was.
pub proof fn lemma_zoom_needs_zoom_key(current: KeyboardMode, held: Set<Key>)
    requires
        !held.contains(Key::KeyX),
        !held.contains(Key::KeyZ),
    ensures
        mode_command(selected_mode(current, held), held) != Command::ZoomIn,
        mode_command(selected_mode(current, held), held) != Command::ZoomOut,
{
}

/// Switches to the mode that a held mode-select key asks for.
pub fn select_mode(state: &mut KeyboardState)
    requires
        old(state).wf(),
    ensures
        final(state).wf(),
        final(state).held() == old(state).held(),
        final(state).mode() == selected_mode(old(state).mode(), old(state).held()),
{
    if state.key_pressed(Key::KeyD) {
        state.set_mode(KeyboardMode::DEBUG);
    } else if state.key_pressed(Key::Digit1) {
        state.set_mode(KeyboardMode::TERRAIN);
    } else if state.key_pressed(Key::Digit2) {
        state.set_mode(KeyboardMode::VIEW);
    } else if state.key_pressed(Key::Digit3) {
        state.set_mode(KeyboardMode::RAY);
    } else if state.key_pressed(Key::KeyP) {
        state.set_mode(KeyboardMode::PRINT);
    }
}

/// One frame of the controller: mode selection, then the active mode's
/// handler, once, on the same held keys.
pub fn update_controls(state: &mut KeyboardState) -> (r: Command)
    requires
        old(state).wf(),
    ensures
        final(state).wf(),
        final(state).held() == old(state).held(),
        r == mode_command(selected_mode(old(state).mode(), old(state).held()), old(state).held()),
        final(state).mode() == mode_after(
            selected_mode(old(state).mode(), old(state).held()),
            old(state).held(),
        ),
{
    select_mode(state);
    match state.get_mode() {
        KeyboardMode::DEBUG => debug_controls(state),
        KeyboardMode::VIEW => view_controls(state),
        KeyboardMode::TERRAIN => terrain_controls(state),
        KeyboardMode::RAY => ray_controls(state),
        KeyboardMode::PRINT => print_controls(state),
    }
}

/// DEBUG: S, 1, 2 or 3 asks for a readback, after which the mode is VIEW.
pub fn debug_controls(state: &mut KeyboardState) -> (r: Command)
    requires
        old(state).wf(),
    ensures
        final(state).wf(),
        final(state).held() == old(state).held(),
        r == debug_command(old(state).held()),
        final(state).mode() == if r is Nothing {
            old(state).mode()
        } else {
            KeyboardMode::VIEW
        },
{
    let target = if state.key_pressed(Key::KeyS) {
        DebugTarget::Generic
    } else if state.key_pressed(Key::Digit1) {
        DebugTarget::Array1
    } else if state.key_pressed(Key::Digit2) {
        DebugTarget::Array2
    } else if state.key_pressed(Key::Digit3) {
        DebugTarget::Interleaved
    } else {
        return Command::Nothing;
    };
    state.set_mode(KeyboardMode::VIEW);
    Command::ReadBack { target }
}

/// RAY: E, S or W picks the field; up and down give the step.
pub fn ray_controls(state: &KeyboardState) -> (r: Command)
    ensures
        r == ray_command(state.held()),
{
    let step: i8 = if state.key_pressed(Key::ArrowUp) {
        1
    } else if state.key_pressed(Key::ArrowDown) {
        -1
    } else {
        0
    };
    if state.key_pressed(Key::KeyE) {
        Command::AdjustRay { field: RayField::Epsilon, step }
    } else if state.key_pressed(Key::KeyS) {
        Command::AdjustRay { field: RayField::MaxSteps, step }
    } else if state.key_pressed(Key::KeyW) {
        Command::AdjustRay { field: RayField::MaxDist, step }
    } else {
        Command::Nothing
    }
}

/// TERRAIN: no control is wired in yet.
pub fn terrain_controls(_state: &KeyboardState) -> (r: Command)
    ensures
        r == Command::TerrainPending,
{
    Command::TerrainPending
}

/// VIEW: arrows pan, or rotate with the shift key; X and Z zoom.
pub fn view_controls(state: &KeyboardState) -> (r: Command)
    ensures
        r == view_command(state.held()),
{
    let shift = state.key_pressed(Key::ShiftLeft);
    if state.key_pressed(Key::ArrowLeft) {
        if shift {
            Command::RotateUp { axis: Axis::X }
        } else {
            Command::Pan { axis: Axis::X, positive: false }
        }
    } else if state.key_pressed(Key::ArrowRight) {
        if shift {
            Command::RotateDown { axis: Axis::X }
        } else {
            Command::Pan { axis: Axis::X, positive: true }
        }
    } else if state.key_pressed(Key::ArrowUp) {
        if shift {
            Command::RotateUp { axis: Axis::Y }
        } else {
            Command::Pan { axis: Axis::Y, positive: false }
        }
    } else if state.key_pressed(Key::ArrowDown) {
        if shift {
            Command::RotateDown { axis: Axis::Y }
        } else {
            Command::Pan { axis: Axis::Y, positive: true }
        }
    } else if state.key_pressed(Key::KeyX) {
        Command::ZoomOut
    } else if state.key_pressed(Key::KeyZ) {
        Command::ZoomIn
    } else {
        Command::Nothing
    }
}

/// PRINT: print the parameters once and hand over to VIEW.
pub fn print_controls(state: &mut KeyboardState) -> (r: Command)
    requires
        old(state).wf(),
    ensures
        final(state).wf(),
        final(state).held() == old(state).held(),
        final(state).mode() == KeyboardMode::VIEW,
        r == Command::PrintParams,
{
    state.set_mode(KeyboardMode::VIEW);
    Command::PrintParams
}

} // verus!
