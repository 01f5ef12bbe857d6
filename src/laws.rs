//! Laws of the input tracker, stated over its view. `InputCache::update` and
//! `InputCache::pre_update_at` move the view exactly by `after_event` and
//! `after_tick`, so each law holds of the tracker itself.

use crate::input::{
    ButtonId, ElementState, InputEvent, InputState, InputView, Key, key_entry, tracked_button,
};
use vstd::prelude::*;

verus! {

/// The press of key `k`.
pub open spec fn key_press(k: Key) -> InputEvent {
    InputEvent::KeyboardInput { key: Some(k), state: ElementState::Pressed }
}

/// The release of key `k`.
pub open spec fn key_release(k: Key) -> InputEvent {
    InputEvent::KeyboardInput { key: Some(k), state: ElementState::Released }
}

/// The press of mouse button `b`.
pub open spec fn button_press(b: ButtonId) -> InputEvent {
    InputEvent::MouseInput { button: b, state: ElementState::Pressed }
}

/// The release of mouse button `b`.
pub open spec fn button_release(b: ButtonId) -> InputEvent {
    InputEvent::MouseInput { button: b, state: ElementState::Released }
}

/// An idle key stays idle across any tick, and across any event but its own press.
pub proof fn lemma_idle_key_stays_idle(v: InputView, k: Key, e: InputEvent, now: u128)
    requires
        key_entry(v.keyboard, k) is None,
        e != key_press(k),
    ensures
        key_entry(v.after_tick(now).keyboard, k) is None,
        key_entry(v.after_event(e).keyboard, k) is None,
{
}

/// A key or mouse button pressed while idle is held after the next tick, from
/// the time of the press to the time of the tick.
pub proof fn lemma_press_then_tick_holds(v: InputView, k: Key, b: ButtonId, now: u128)
    requires
        key_entry(v.keyboard, k) is None,
        v.button(b) is None,
        tracked_button(b),
        now >= v.time_now,
    ensures
        key_entry(v.after_event(key_press(k)).after_tick(now).keyboard, k) == Some(
            InputState::Down(v.time_now, now),
        ),
        v.after_event(button_press(b)).after_tick(now).button(b) == Some(
            InputState::Down(v.time_now, now),
        ),
{
}

/// At a tick, a held key adds the tick's time to its running total, while a
/// held mouse button takes the tick's time as its latest time.
pub proof fn lemma_held_tick(
    v: InputView,
    k: Key,
    t0: u128,
    e: u128,
    b: ButtonId,
    tb: u128,
    lb: u128,
    now: u128,
)
    requires
        key_entry(v.keyboard, k) == Some(InputState::Down(t0, e)),
        e + now <= u128::MAX,
        v.button(b) == Some(InputState::Down(tb, lb)),
    ensures
        key_entry(v.after_tick(now).keyboard, k) == Some(InputState::Down(t0, (e + now) as u128)),
        v.after_tick(now).button(b) == Some(InputState::Down(tb, now)),
{
}

/// A key or mouse button that is released is idle after the next tick; so is
/// an active one that is released within the tick.
pub proof fn lemma_release_then_tick_idles(v: InputView, k: Key, b: ButtonId, now: u128)
    requires
        key_entry(v.keyboard, k) is Some,
        v.button(b) is Some,
    ensures
        key_entry(v.keyboard, k) matches Some(InputState::Released(_, _)) ==> key_entry(
            v.after_tick(now).keyboard,
            k,
        ) is None,
        v.button(b) matches Some(InputState::Released(_, _)) ==> v.after_tick(now).button(b) is None,
        !v.rejects(key_release(k)) ==> key_entry(
            v.after_event(key_release(k)).after_tick(now).keyboard,
            k,
        ) is None,
        !v.rejects(button_release(b)) ==> v.after_event(button_release(b)).after_tick(now).button(
            b,
        ) is None,
{
}

/// After a press and a release with no tick between, a second release of the
/// same key or mouse button is refused, and the first is not.
pub proof fn lemma_second_release_rejected(v: InputView, k: Key, b: ButtonId)
    requires
        tracked_button(b),
    ensures
        !v.after_event(key_press(k)).rejects(key_release(k)),
        v.after_event(key_press(k)).after_event(key_release(k)).rejects(key_release(k)),
        !v.after_event(button_press(b)).rejects(button_release(b)),
        v.after_event(button_press(b)).after_event(button_release(b)).rejects(button_release(b)),
{
}

/// A tick clears the cursor movement; a move within the tick from a known
/// position gives the difference of the two positions.
pub proof fn lemma_mouse_delta(v: InputView, now: u128, x: i32, y: i32)
    ensures
        v.after_tick(now).mouse_delta() == (0i64, 0i64),
        v.cursor matches Some((ox, oy)) ==> v.after_event(
            InputEvent::CursorMoved { x, y },
        ).mouse_delta() == ((x - ox) as i64, (y - oy) as i64),
        v.after_tick(now).cursor matches Some((ox, oy)) ==> v.after_tick(now).after_event(
            InputEvent::CursorMoved { x, y },
        ).mouse_delta() == ((x - ox) as i64, (y - oy) as i64),
{
}

/// When the cursor leaves the window its movement is zero at once.
pub proof fn lemma_cursor_left_clears_delta(v: InputView)
    ensures
        v.after_event(InputEvent::CursorLeft).mouse_delta() == (0i64, 0i64),
{
}

} // verus!
