use ufo3000::input::{
    ButtonId, ElementState, InputCache, InputError, InputEvent, InputState, KeyboardManager,
    MouseButtons,
};

const K: u32 = 17;

fn key(k: u32, state: ElementState) -> InputEvent {
    InputEvent::KeyboardInput { key: Some(k), state }
}

fn button(b: ButtonId, state: ElementState) -> InputEvent {
    InputEvent::MouseInput { button: b, state }
}

#[test]
fn idle_key_stays_idle_across_queries_and_ticks() {
    let mut c = InputCache::init();
    for _ in 0..3 {
        assert_eq!(c.key_state(&K), None);
    }
    for t in 1..5u128 {
        c.pre_update_at(t * 10);
        assert_eq!(c.key_state(&K), None);
        assert_eq!(c.key_state(&K), None);
    }
    c.update(&key(K + 1, ElementState::Pressed)).unwrap();
    c.pre_update_at(60);
    assert_eq!(c.key_state(&K), None);
}

#[test]
fn key_press_then_tick_is_held() {
    let mut c = InputCache::init();
    c.update(&key(K, ElementState::Pressed)).unwrap();
    assert_eq!(c.key_state(&K), Some(InputState::Pressed(0)));
    c.pre_update_at(10);
    assert_eq!(c.key_state(&K), Some(InputState::Down(0, 10)));
    // A held key adds each tick's time to its running total.
    c.pre_update_at(25);
    assert_eq!(c.key_state(&K), Some(InputState::Down(0, 35)));
}

#[test]
fn button_press_then_tick_is_held() {
    let mut c = InputCache::init();
    c.update(&button(ButtonId::Left, ElementState::Pressed)).unwrap();
    assert_eq!(c.mouse_button_state(&ButtonId::Left), Some(InputState::Pressed(0)));
    c.pre_update_at(10);
    assert_eq!(c.mouse_button_state(&ButtonId::Left), Some(InputState::Down(0, 10)));
    // A held button takes each tick's time as its latest time.
    c.pre_update_at(25);
    assert_eq!(c.mouse_button_state(&ButtonId::Left), Some(InputState::Down(0, 25)));
    assert_eq!(c.mouse_button_state(&ButtonId::Right), None);
}

#[test]
fn key_release_clears_on_next_tick() {
    let mut c = InputCache::init();
    c.update(&key(K, ElementState::Pressed)).unwrap();
    c.pre_update_at(5);
    c.update(&key(K, ElementState::Released)).unwrap();
    assert_eq!(c.key_state(&K), Some(InputState::Released(0, 5)));
    c.pre_update_at(10);
    assert_eq!(c.key_state(&K), None);
}

#[test]
fn button_release_clears_on_next_tick() {
    let mut c = InputCache::init();
    c.update(&button(ButtonId::Middle, ElementState::Pressed)).unwrap();
    c.pre_update_at(5);
    c.update(&button(ButtonId::Middle, ElementState::Released)).unwrap();
    assert_eq!(c.mouse_button_state(&ButtonId::Middle), Some(InputState::Released(0, 5)));
    c.pre_update_at(10);
    assert_eq!(c.mouse_button_state(&ButtonId::Middle), None);
}

#[test]
fn press_and_release_in_one_tick() {
    let mut c = InputCache::init();
    c.pre_update_at(3);
    c.update(&key(K, ElementState::Pressed)).unwrap();
    c.update(&key(K, ElementState::Released)).unwrap();
    assert_eq!(c.key_state(&K), Some(InputState::Released(3, 3)));
    // A new press before the tick starts over.
    c.update(&key(K, ElementState::Pressed)).unwrap();
    assert_eq!(c.key_state(&K), Some(InputState::Pressed(3)));
}

#[test]
fn double_release_of_button_is_refused() {
    let mut c = InputCache::init();
    c.update(&button(ButtonId::Right, ElementState::Pressed)).unwrap();
    assert_eq!(c.update(&button(ButtonId::Right, ElementState::Released)), Ok(()));
    assert_eq!(
        c.update(&button(ButtonId::Right, ElementState::Released)),
        Err(InputError::DoubleRelease)
    );
    assert_eq!(c.mouse_button_state(&ButtonId::Right), Some(InputState::Released(0, 0)));
}

#[test]
fn double_release_of_key_is_refused() {
    let mut c = InputCache::init();
    c.update(&key(K, ElementState::Pressed)).unwrap();
    assert_eq!(c.update(&key(K, ElementState::Released)), Ok(()));
    assert_eq!(c.update(&key(K, ElementState::Released)), Err(InputError::DoubleRelease));
}

#[test]
fn release_of_idle_key_or_button_is_ignored() {
    let mut c = InputCache::init();
    assert_eq!(c.update(&key(K, ElementState::Released)), Ok(()));
    assert_eq!(c.key_state(&K), None);
    assert_eq!(c.update(&button(ButtonId::Left, ElementState::Released)), Ok(()));
    assert_eq!(c.mouse_button_state(&ButtonId::Left), None);
}

#[test]
fn other_buttons_and_unknown_keys_are_ignored() {
    let mut c = InputCache::init();
    c.update(&button(ButtonId::Other(4), ElementState::Pressed)).unwrap();
    assert_eq!(c.mouse_button_state(&ButtonId::Other(4)), None);
    c.update(&InputEvent::KeyboardInput { key: None, state: ElementState::Pressed }).unwrap();
    c.update(&InputEvent::MouseWheel).unwrap();
    c.pre_update_at(7);
    assert_eq!(c.get_time(), 7);
}

#[test]
fn mouse_delta_is_zeroed_by_tick() {
    let mut c = InputCache::init();
    c.update(&InputEvent::CursorMoved { x: 5, y: 5 }).unwrap();
    // The first sample has nothing to compare with.
    assert_eq!(c.get_mouse_delta(), (0, 0));
    c.pre_update_at(1);
    assert_eq!(c.get_mouse_delta(), (0, 0));
    c.update(&InputEvent::CursorMoved { x: 8, y: 5 }).unwrap();
    assert_eq!(c.get_mouse_delta(), (3, 0));
    c.update(&InputEvent::CursorMoved { x: 6, y: 9 }).unwrap();
    assert_eq!(c.get_mouse_delta(), (-2, 4));
}

#[test]
fn cursor_left_zeroes_delta_immediately() {
    let mut c = InputCache::init();
    c.update(&InputEvent::CursorEntered).unwrap();
    c.update(&InputEvent::CursorMoved { x: 1, y: 1 }).unwrap();
    c.update(&InputEvent::CursorMoved { x: 5, y: 5 }).unwrap();
    assert_eq!(c.get_mouse_delta(), (4, 4));
    c.update(&InputEvent::CursorLeft).unwrap();
    assert_eq!(c.get_mouse_delta(), (0, 0));
}

#[test]
fn mouse_delta_at_extreme_positions() {
    let mut c = InputCache::init();
    c.update(&InputEvent::CursorMoved { x: i32::MIN, y: i32::MAX }).unwrap();
    c.update(&InputEvent::CursorMoved { x: i32::MAX, y: i32::MIN }).unwrap();
    assert_eq!(c.get_mouse_delta(), (u32::MAX as i64, -(u32::MAX as i64)));
}

#[test]
fn time_and_delta_advance() {
    let mut c = InputCache::init();
    assert_eq!((c.get_time(), c.get_time_delta()), (0, 0));
    c.pre_update_at(16);
    assert_eq!((c.get_time(), c.get_time_delta()), (16, 16));
    c.pre_update_at(40);
    assert_eq!((c.get_time(), c.get_time_delta()), (40, 24));
    c.pre_update_at(40);
    assert_eq!((c.get_time(), c.get_time_delta()), (40, 0));
}

#[test]
fn clock_driven_tick_never_goes_back() {
    let mut c = InputCache::init();
    c.update(&key(K, ElementState::Pressed)).unwrap();
    c.pre_update();
    let first = c.get_time();
    c.pre_update();
    assert!(c.get_time() >= first);
    assert!(matches!(c.key_state(&K), Some(InputState::Down(0, _))));
}

#[test]
fn held_key_total_saturates() {
    let mut c = InputCache::init();
    c.update(&key(K, ElementState::Pressed)).unwrap();
    c.pre_update_at(u128::MAX - 1);
    c.pre_update_at(u128::MAX);
    assert_eq!(c.key_state(&K), Some(InputState::Down(0, u128::MAX)));
}

#[test]
fn repeat_trigger_fires_twice_over_two_and_a_half_thresholds() {
    let mut c = InputCache::init();
    let mut m = KeyboardManager::init();
    m.register_key(K, 100);
    c.update(&key(K, ElementState::Pressed)).unwrap();
    let mut fired = 0;
    let mut t: u128 = 0;
    for _ in 0..5 {
        t += 50;
        c.pre_update_at(t);
        if m.test_key(&K, &c) {
            fired += 1;
        }
    }
    assert_eq!(fired, 2);
    // 250 accumulated, 200 spent: 50 remain, so 50 more units do not fire (the
    // total must exceed the threshold) and one unit beyond that does.
    t += 50;
    c.pre_update_at(t);
    assert!(!m.test_key(&K, &c));
    t += 1;
    c.pre_update_at(t);
    assert!(m.test_key(&K, &c));
}

#[test]
fn repeat_trigger_keeps_overshoot_and_resets_on_release() {
    let mut c = InputCache::init();
    let mut m = KeyboardManager::init();
    m.register_key(K, 100);
    c.update(&key(K, ElementState::Pressed)).unwrap();
    c.pre_update_at(250);
    assert!(m.test_key(&K, &c));
    c.pre_update_at(250);
    assert!(m.test_key(&K, &c));
    c.pre_update_at(250);
    assert!(!m.test_key(&K, &c));
    c.update(&key(K, ElementState::Released)).unwrap();
    assert!(!m.test_key(&K, &c));
    c.update(&key(K, ElementState::Pressed)).unwrap();
    c.pre_update_at(330);
    assert!(!m.test_key(&K, &c));
    c.pre_update_at(400);
    assert!(m.test_key(&K, &c));
}

#[test]
fn repeat_trigger_on_press_starts_from_tick_delta() {
    let mut c = InputCache::init();
    let mut m = KeyboardManager::init();
    m.register_key(K, 100);
    c.pre_update_at(90);
    c.update(&key(K, ElementState::Pressed)).unwrap();
    assert!(!m.test_key(&K, &c));
    c.pre_update_at(101);
    assert!(m.test_key(&K, &c));
}

#[test]
fn unregistered_key_never_fires() {
    let mut c = InputCache::init();
    let mut m = KeyboardManager::init();
    c.update(&key(K, ElementState::Pressed)).unwrap();
    c.pre_update_at(1000);
    assert!(!m.test_key(&K, &c));
}

#[test]
fn mouse_buttons_slots() {
    let mut b = MouseButtons::init();
    assert_eq!((b.get_left(), b.get_middle(), b.get_right()), (None, None, None));
    b.update(&ButtonId::Middle, &ElementState::Pressed, 4);
    assert_eq!(b.get_middle(), Some(InputState::Pressed(4)));
    b.update(&ButtonId::Middle, &ElementState::Pressed, 9);
    assert_eq!(b.get_middle(), Some(InputState::Down(4, 9)));
    b.update(&ButtonId::Middle, &ElementState::Released, 12);
    assert_eq!(b.get_middle(), Some(InputState::Released(4, 12)));
    assert_eq!((b.get_left(), b.get_right()), (None, None));
}

#[test]
fn state_transition_table() {
    let mut s = InputState::Pressed(1);
    assert_eq!(s.update(&ElementState::Pressed, 2), InputState::Down(1, 2));
    assert_eq!(s.update(&ElementState::Pressed, 3), InputState::Down(1, 3));
    assert_eq!(s.update(&ElementState::Released, 4), InputState::Released(1, 4));
    assert_eq!(s.update(&ElementState::Pressed, 5), InputState::Pressed(5));
    assert_eq!(s.update(&ElementState::Released, 6), InputState::Released(5, 6));
    assert_eq!(s, InputState::Released(5, 6));
}
