use terrain_view::controls::{update_controls, Axis, Command, DebugTarget, RayField};
use terrain_view::keys::{Key, KeyboardMode, KeyboardState};

fn state_with(mode: KeyboardMode, keys: &[Key]) -> KeyboardState {
    let mut s = KeyboardState::new();
    s.set_mode(mode);
    for k in keys {
        s.handle_keyboard_input(*k, true);
    }
    s
}

#[test]
fn new_state_is_print_with_no_keys() {
    let s = KeyboardState::new();
    assert_eq!(s.get_mode(), KeyboardMode::PRINT);
    assert!(s.get_keys().is_empty());
}

#[test]
fn press_and_release_track_membership() {
    let mut s = KeyboardState::new();
    s.handle_keyboard_input(Key::ArrowUp, true);
    s.handle_keyboard_input(Key::ArrowUp, true);
    assert_eq!(s.get_keys().len(), 1);
    assert!(s.key_pressed(Key::ArrowUp));
    s.handle_keyboard_input(Key::Other(42), true);
    s.handle_keyboard_input(Key::ArrowUp, false);
    assert!(!s.key_pressed(Key::ArrowUp));
    assert!(s.key_pressed(Key::Other(42)));
    s.handle_keyboard_input(Key::ShiftLeft, false);
    assert_eq!(s.get_keys().len(), 1);
}

#[test]
fn highest_priority_select_key_wins() {
    let cases: [(&[Key], KeyboardMode); 5] = [
        (&[Key::KeyP, Key::Digit3, Key::Digit2, Key::Digit1, Key::KeyD], KeyboardMode::VIEW),
        (&[Key::KeyP, Key::Digit3, Key::Digit2, Key::Digit1], KeyboardMode::TERRAIN),
        (&[Key::KeyP, Key::Digit3, Key::Digit2], KeyboardMode::VIEW),
        (&[Key::KeyP, Key::Digit3], KeyboardMode::RAY),
        (&[Key::KeyP], KeyboardMode::VIEW),
    ];
    for (keys, after) in cases {
        let mut s = state_with(KeyboardMode::RAY, keys);
        update_controls(&mut s);
        assert_eq!(s.get_mode(), after);
    }
    // DEBUG wins over everything; with 1, 2 and 3 held it reads a buffer
    // and hands over to VIEW, which is why VIEW is expected above.
    let mut s = state_with(KeyboardMode::VIEW, &[Key::Digit1, Key::KeyD]);
    let c = update_controls(&mut s);
    assert_eq!(c, Command::ReadBack { target: DebugTarget::Array1 });
}

#[test]
fn selection_does_not_depend_on_press_order() {
    let mut a = state_with(KeyboardMode::PRINT, &[Key::Digit3, Key::Digit2]);
    let mut b = state_with(KeyboardMode::PRINT, &[Key::Digit2, Key::Digit3]);
    assert_eq!(update_controls(&mut a), update_controls(&mut b));
    assert_eq!(a.get_mode(), KeyboardMode::VIEW);
    assert_eq!(b.get_mode(), KeyboardMode::VIEW);
}

#[test]
fn debug_mode_without_read_key_stays() {
    let mut s = state_with(KeyboardMode::DEBUG, &[]);
    assert_eq!(update_controls(&mut s), Command::Nothing);
    assert_eq!(s.get_mode(), KeyboardMode::DEBUG);
}

#[test]
fn debug_generic_readback_returns_to_view() {
    let mut s = state_with(KeyboardMode::DEBUG, &[Key::KeyS]);
    assert_eq!(update_controls(&mut s), Command::ReadBack { target: DebugTarget::Generic });
    assert_eq!(s.get_mode(), KeyboardMode::VIEW);
}

#[test]
fn print_is_momentary() {
    let mut s = KeyboardState::new();
    assert_eq!(update_controls(&mut s), Command::PrintParams);
    assert_eq!(s.get_mode(), KeyboardMode::VIEW);
}

#[test]
fn terrain_mode_is_a_stub() {
    let mut s = state_with(KeyboardMode::TERRAIN, &[Key::ArrowUp]);
    assert_eq!(update_controls(&mut s), Command::TerrainPending);
    assert_eq!(s.get_mode(), KeyboardMode::TERRAIN);
}

#[test]
fn view_arrow_right_pans_right() {
    let mut s = state_with(KeyboardMode::VIEW, &[Key::ArrowRight]);
    assert_eq!(update_controls(&mut s), Command::Pan { axis: Axis::X, positive: true });
    assert_eq!(s.get_mode(), KeyboardMode::VIEW);
}

#[test]
fn view_zoom_keys() {
    let mut s = state_with(KeyboardMode::VIEW, &[Key::KeyZ]);
    assert_eq!(update_controls(&mut s), Command::ZoomIn);
    let mut s = state_with(KeyboardMode::VIEW, &[Key::KeyX]);
    assert_eq!(update_controls(&mut s), Command::ZoomOut);
}

#[test]
fn view_without_keys_changes_nothing() {
    let mut s = state_with(KeyboardMode::VIEW, &[Key::Other(7)]);
    for _ in 0..3 {
        assert_eq!(update_controls(&mut s), Command::Nothing);
    }
}

#[test]
fn view_rotation_is_asymmetric() {
    let mut s = state_with(KeyboardMode::VIEW, &[Key::ShiftLeft, Key::ArrowLeft]);
    assert_eq!(update_controls(&mut s), Command::RotateUp { axis: Axis::X });
    let mut s = state_with(KeyboardMode::VIEW, &[Key::ShiftLeft, Key::ArrowRight]);
    assert_eq!(update_controls(&mut s), Command::RotateDown { axis: Axis::X });
    let mut s = state_with(KeyboardMode::VIEW, &[Key::ShiftLeft, Key::ArrowUp]);
    assert_eq!(update_controls(&mut s), Command::RotateUp { axis: Axis::Y });
    let mut s = state_with(KeyboardMode::VIEW, &[Key::ArrowDown]);
    assert_eq!(update_controls(&mut s), Command::Pan { axis: Axis::Y, positive: true });
}

#[test]
fn ray_adjustments() {
    let mut s = state_with(KeyboardMode::RAY, &[Key::KeyE, Key::ArrowDown]);
    assert_eq!(
        update_controls(&mut s),
        Command::AdjustRay { field: RayField::Epsilon, step: -1 }
    );
    let mut s = state_with(KeyboardMode::RAY, &[Key::KeyW, Key::ArrowUp, Key::ArrowDown]);
    assert_eq!(
        update_controls(&mut s),
        Command::AdjustRay { field: RayField::MaxDist, step: 1 }
    );
    let mut s = state_with(KeyboardMode::RAY, &[Key::KeyS]);
    assert_eq!(
        update_controls(&mut s),
        Command::AdjustRay { field: RayField::MaxSteps, step: 0 }
    );
    let mut s = state_with(KeyboardMode::RAY, &[Key::ArrowUp]);
    assert_eq!(update_controls(&mut s), Command::Nothing);
}
