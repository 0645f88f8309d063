use ray_tracer::event_manager::{EventManager, InputEvent};

const W: u32 = 32;
const S: u32 = 28;

fn press(code: u32) -> InputEvent {
    InputEvent::Key { code, pressed: true }
}

fn release(code: u32) -> InputEvent {
    InputEvent::Key { code, pressed: false }
}

#[test]
fn nothing_is_held_at_the_start() {
    let manager = EventManager::new();
    assert!(!manager.is_key_down(W));
    assert!(!manager.is_key_down(0));
    assert!(!manager.is_key_down(u32::MAX));
    assert!(!manager.is_left_mouse_down());
}

#[test]
fn pressed_key_is_held_until_released() {
    let mut manager = EventManager::new();
    manager.update(&press(W), false);
    assert!(manager.is_key_down(W));
    assert!(!manager.is_key_down(S));
    manager.update(&InputEvent::Other, false);
    assert!(manager.is_key_down(W));
    manager.update(&release(W), false);
    assert!(!manager.is_key_down(W));
}

#[test]
fn keys_are_held_independently() {
    let mut manager = EventManager::new();
    manager.update(&press(W), false);
    manager.update(&press(S), false);
    assert!(manager.is_key_down(W));
    assert!(manager.is_key_down(S));
    manager.update(&release(W), false);
    assert!(!manager.is_key_down(W));
    assert!(manager.is_key_down(S));
}

#[test]
fn repeated_press_and_stray_release_change_nothing_more() {
    let mut manager = EventManager::new();
    manager.update(&release(W), false);
    assert!(!manager.is_key_down(W));
    manager.update(&press(W), false);
    manager.update(&press(W), false);
    assert!(manager.is_key_down(W));
    manager.update(&release(W), false);
    assert!(!manager.is_key_down(W));
}

#[test]
fn consumed_key_events_still_update_the_keys() {
    let mut manager = EventManager::new();
    manager.update(&press(W), true);
    assert!(manager.is_key_down(W));
    manager.update(&release(W), true);
    assert!(!manager.is_key_down(W));
}

#[test]
fn primary_button_follows_its_events() {
    let mut manager = EventManager::new();
    manager.update(&InputEvent::Button { primary: true, pressed: true }, false);
    assert!(manager.is_left_mouse_down());
    manager.update(&InputEvent::Other, false);
    assert!(manager.is_left_mouse_down());
    manager.update(&press(W), false);
    assert!(manager.is_left_mouse_down());
    manager.update(&InputEvent::Button { primary: true, pressed: false }, false);
    assert!(!manager.is_left_mouse_down());
}

#[test]
fn other_buttons_are_ignored() {
    let mut manager = EventManager::new();
    manager.update(&InputEvent::Button { primary: false, pressed: true }, false);
    assert!(!manager.is_left_mouse_down());
    manager.update(&InputEvent::Button { primary: true, pressed: true }, false);
    manager.update(&InputEvent::Button { primary: false, pressed: false }, false);
    assert!(manager.is_left_mouse_down());
}

#[test]
fn consumed_event_releases_the_primary_button() {
    let mut manager = EventManager::new();
    manager.update(&InputEvent::Button { primary: true, pressed: true }, false);
    manager.update(&InputEvent::Other, true);
    assert!(!manager.is_left_mouse_down());

    manager.update(&InputEvent::Button { primary: true, pressed: true }, false);
    manager.update(&press(W), true);
    assert!(!manager.is_left_mouse_down());
    assert!(manager.is_key_down(W));

    manager.update(&InputEvent::Button { primary: true, pressed: true }, false);
    manager.update(&InputEvent::Button { primary: false, pressed: true }, true);
    assert!(!manager.is_left_mouse_down());
}

#[test]
fn consumed_press_of_the_primary_button_still_counts() {
    let mut manager = EventManager::new();
    manager.update(&InputEvent::Button { primary: true, pressed: true }, true);
    assert!(manager.is_left_mouse_down());
}

#[test]
fn button_events_leave_the_keys_alone() {
    let mut manager = EventManager::new();
    manager.update(&press(S), false);
    manager.update(&InputEvent::Button { primary: true, pressed: true }, false);
    manager.update(&InputEvent::Button { primary: true, pressed: false }, true);
    assert!(manager.is_key_down(S));
    assert!(!manager.is_key_down(W));
}
