use game_engine::input::{process_input, KeyEvent, KeyPress, KeyState};

fn event(code: &str) -> KeyEvent {
    KeyEvent { code: code.to_string(), key: code.to_lowercase() }
}

#[test]
fn down_then_up_before_drain_releases_key() {
    let mut state = KeyState::new();
    let mut batch = vec![KeyPress::KeyDown(event("A")), KeyPress::KeyUp(event("A"))];
    process_input(&mut state, &mut batch);
    assert!(!state.is_pressed("A"));
    assert!(batch.is_empty());
}

#[test]
fn last_event_for_key_decides() {
    let mut state = KeyState::new();
    let mut batch = vec![
        KeyPress::KeyDown(event("A")),
        KeyPress::KeyUp(event("A")),
        KeyPress::KeyDown(event("ArrowLeft")),
        KeyPress::KeyDown(event("A")),
    ];
    process_input(&mut state, &mut batch);
    assert!(state.is_pressed("A"));
    assert!(state.is_pressed("ArrowLeft"));

    let mut batch = vec![KeyPress::KeyUp(event("ArrowLeft")), KeyPress::KeyDown(event("ArrowLeft")), KeyPress::KeyUp(event("ArrowLeft"))];
    process_input(&mut state, &mut batch);
    assert!(!state.is_pressed("ArrowLeft"));
    assert!(state.is_pressed("A"));
}

#[test]
fn held_key_stays_held_across_empty_drain() {
    let mut state = KeyState::new();
    let mut batch = vec![KeyPress::KeyDown(event("Space"))];
    process_input(&mut state, &mut batch);
    let mut empty = Vec::new();
    process_input(&mut state, &mut empty);
    assert!(state.is_pressed("Space"));
    assert!(!state.is_pressed("Spac"));
}

#[test]
fn repeated_down_keeps_one_entry() {
    let mut state = KeyState::new();
    let mut batch = vec![KeyPress::KeyDown(event("B")), KeyPress::KeyDown(event("B"))];
    process_input(&mut state, &mut batch);
    assert!(state.is_pressed("B"));
    let mut batch = vec![KeyPress::KeyUp(event("B"))];
    process_input(&mut state, &mut batch);
    assert!(!state.is_pressed("B"));
}

#[test]
fn up_for_unheld_key_is_harmless() {
    let mut state = KeyState::new();
    let mut batch = vec![KeyPress::KeyUp(event("C"))];
    process_input(&mut state, &mut batch);
    assert!(!state.is_pressed("C"));
    assert!(!state.is_pressed(""));
}
