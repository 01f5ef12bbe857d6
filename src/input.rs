//! Per-frame tracking of keyboard keys, mouse buttons, cursor movement and time.

use std::collections::HashMap;
use vstd::std_specs::hash::spec_keys_iter;
use vstd::std_specs::iter::IteratorSpec;
use vstd::prelude::*;

verus! {

broadcast use vstd::std_specs::hash::group_hash_axioms;

/// A keyboard key, identified by its virtual key code.
pub type Key = u32;

/// The raw transition that an input device reports for a key or a button.
#[derive(Clone, Copy, Debug, PartialEq, Eq, Structural)]
pub enum ElementState {
    Pressed,
    Released,
}

/// A mouse button, as the windowing system names it.
#[derive(Clone, Copy, Debug, PartialEq, Eq, Structural)]
pub enum ButtonId {
    Left,
    Right,
    Middle,
    Other(u16),
}

/// The state of an active key or mouse button; an idle one has no state.
#[derive(Clone, Copy, Debug, PartialEq, Eq, Structural)]
pub enum InputState {
    /// Went from idle to active at the given time.
    Pressed(u128),
    /// Held since the first time; the second is the latest time it was seen held.
    Down(u128, u128),
    /// Released: the time of the press and the time of the release.
    Released(u128, u128),
}

/// The transition of a present state on a raw event at time `now`. A release of
/// a released state is a misuse of the tracker and has no successor.
pub open spec fn step(s: InputState, e: ElementState, now: u128) -> InputState {
    match (s, e) {
        (InputState::Pressed(t0), ElementState::Pressed) => InputState::Down(t0, now),
        (InputState::Down(t0, _), ElementState::Pressed) => InputState::Down(t0, now),
        (InputState::Released(_, _), ElementState::Pressed) => InputState::Pressed(now),
        (InputState::Pressed(t0), ElementState::Released) => InputState::Released(t0, now),
        (InputState::Down(t0, _), ElementState::Released) => InputState::Released(t0, now),
        (InputState::Released(t0, t1), ElementState::Released) => InputState::Released(t0, t1),
    }
}

/// A release that arrives for a key or button that is already released.
pub open spec fn releases_twice(s: Option<InputState>, e: ElementState) -> bool {
    s matches Some(InputState::Released(_, _)) && e == ElementState::Released
}

/// The transition of an optional state (`None` is idle). A release of an idle
/// key or button is ignored.
pub open spec fn next_state(s: Option<InputState>, e: ElementState, now: u128) -> Option<
    InputState,
> {
    match s {
        None => match e {
            ElementState::Pressed => Some(InputState::Pressed(now)),
            ElementState::Released => None,
        },
        Some(st) => Some(step(st, e, now)),
    }
}

impl InputState {
    /// Applies a raw event at `time_now` and returns the new state.
    pub fn update(&mut self, state: &ElementState, time_now: u128) -> (r: InputState)
        requires
            !releases_twice(Some(*old(self)), *state),
        ensures
            *final(self) == step(*old(self), *state, time_now),
            r == *final(self),
    {
        let next = match (*self, *state) {
            (InputState::Pressed(t0), ElementState::Pressed) => InputState::Down(t0, time_now),
            (InputState::Down(t0, _), ElementState::Pressed) => InputState::Down(t0, time_now),
            (InputState::Released(_, _), ElementState::Pressed) => InputState::Pressed(time_now),
            (InputState::Pressed(t0), ElementState::Released) => InputState::Released(t0, time_now),
            (InputState::Down(t0, _), ElementState::Released) => InputState::Released(t0, time_now),
            (InputState::Released(t0, t1), ElementState::Released) => InputState::Released(t0, t1),
        };
        *self = next;
        next
    }
}


/// Whether the tracker keeps a slot for the button.
pub open spec fn tracked_button(b: ButtonId) -> bool {
    !(b is Other)
}

/// One mouse button: its state, `None` while idle, and which button it is.
#[derive(Clone, Copy)]
pub struct MouseButton {
    state: Option<InputState>,
    #[allow(dead_code)]
    tag: ButtonId,
}

/// The left, middle and right mouse buttons.
#[derive(Clone, Copy)]
pub struct MouseButtons {
    left: MouseButton,
    middle: MouseButton,
    right: MouseButton,
}

impl MouseButtons {
    /// The state of button `b`; a button without a slot is always idle.
    pub closed spec fn state_of(self, b: ButtonId) -> Option<InputState> {
        match b {
            ButtonId::Left => self.left.state,
            ButtonId::Middle => self.middle.state,
            ButtonId::Right => self.right.state,
            ButtonId::Other(_) => None,
        }
    }

    /// All three buttons idle.
    pub fn init() -> (r: Self)
        ensures
            forall|b: ButtonId| r.state_of(b) is None,
    {
        MouseButtons {
            left: MouseButton { state: None, tag: ButtonId::Left },
            middle: MouseButton { state: None, tag: ButtonId::Middle },
            right: MouseButton { state: None, tag: ButtonId::Right },
        }
    }

    /// Applies a raw event of `button` at `time_now`; buttons without a slot are ignored.
    pub fn update(&mut self, button: &ButtonId, state: &ElementState, time_now: u128)
        requires
            !releases_twice(old(self).state_of(*button), *state),
        ensures
            forall|b: ButtonId|
                #[trigger] final(self).state_of(b) == if b == *button && tracked_button(b) {
                    next_state(old(self).state_of(b), *state, time_now)
                } else {
                    old(self).state_of(b)
                },
    {
        match *button {
            ButtonId::Left => {
                self.left.state = Self::advance(self.left.state, state, time_now);
            },
            ButtonId::Middle => {
                self.middle.state = Self::advance(self.middle.state, state, time_now);
            },
            ButtonId::Right => {
                self.right.state = Self::advance(self.right.state, state, time_now);
            },
            ButtonId::Other(_) => {},
        }
    }

    fn advance(s: Option<InputState>, state: &ElementState, time_now: u128) -> (r: Option<
        InputState,
    >)
        requires
            !releases_twice(s, *state),
        ensures
            r == next_state(s, *state, time_now),
    {
        match s {
            Some(mut st) => {
                st.update(state, time_now);
                Some(st)
            },
            None => match *state {
                ElementState::Pressed => Some(InputState::Pressed(time_now)),
                ElementState::Released => None,
            },
        }
    }

    /// The state of the left mouse button.
    pub fn get_left(&self) -> (r: Option<InputState>)
        ensures
            r == self.state_of(ButtonId::Left),
    {
        self.left.state
    }

    /// The state of the middle mouse button.
    pub fn get_middle(&self) -> (r: Option<InputState>)
        ensures
            r == self.state_of(ButtonId::Middle),
    {
        self.middle.state
    }

    /// The state of the right mouse button.
    pub fn get_right(&self) -> (r: Option<InputState>)
        ensures
            r == self.state_of(ButtonId::Right),
    {
        self.right.state
    }
}


/// Relies on `instant::Instant`, which is `std::time::Instant` on native targets.
#[verifier::external_type_specification]
#[verifier::external_body]
pub struct ExInstant(instant::Instant);

/// Relies on `instant::Instant::now`: a reading of the monotonic clock.
#[verifier::external_body]
fn clock_start() -> instant::Instant {
    instant::Instant::now()
}

/// Relies on `Instant::elapsed`, read as whole nanoseconds with `Duration::as_nanos`.
/// The value depends on the clock: nothing is promised of it.
#[verifier::external_body]
fn nanos_since(start: &instant::Instant) -> u128 {
    start.elapsed().as_nanos()
}

/// The cursor's last known position (none before the first move) and whether
/// it is over the window.
#[derive(Clone, Copy)]
pub struct CursorPosition {
    pos: Option<(i32, i32)>,
    inside: bool,
}

impl CursorPosition {
    pub closed spec fn position(self) -> Option<(i32, i32)> {
        self.pos
    }

    pub closed spec fn is_inside(self) -> bool {
        self.inside
    }

    /// No position yet, and outside the window.
    pub fn init() -> (r: Self)
        ensures
            r.position() is None,
            !r.is_inside(),
    {
        CursorPosition { pos: None, inside: false }
    }
}

/// A raw input event, as the windowing system delivers it.
#[derive(Clone, Copy, Debug, PartialEq, Eq, Structural)]
pub enum InputEvent {
    /// A key changed; `key` is `None` for a key without a virtual key code.
    KeyboardInput { key: Option<Key>, state: ElementState },
    MouseInput { button: ButtonId, state: ElementState },
    MouseWheel,
    /// The cursor moved to the given position, in physical pixels.
    CursorMoved { x: i32, y: i32 },
    CursorEntered,
    CursorLeft,
}

/// The misuse that the tracker refuses.
#[derive(Clone, Copy, Debug, PartialEq, Eq, Structural)]
pub enum InputError {
    /// A release arrived for a key or button that was already released.
    DoubleRelease,
}

/// What an [`InputCache`] holds, as mathematical values.
pub ghost struct InputView {
    pub keyboard: Map<Key, InputState>,
    pub left: Option<InputState>,
    pub middle: Option<InputState>,
    pub right: Option<InputState>,
    pub cursor: Option<(i32, i32)>,
    pub inside: bool,
    pub delta: (i64, i64),
    pub moved: bool,
    pub time_now: u128,
    pub time_delta: u128,
}

/// The state of key `k` in `m`; `None` while idle.
pub open spec fn key_entry(m: Map<Key, InputState>, k: Key) -> Option<InputState> {
    if m.contains_key(k) {
        Some(m[k])
    } else {
        None
    }
}

/// `m` with key `k` set to `s`, or removed where `s` is `None`.
pub open spec fn set_entry(m: Map<Key, InputState>, k: Key, s: Option<InputState>) -> Map<
    Key,
    InputState,
> {
    match s {
        Some(st) => m.insert(k, st),
        None => m.remove(k),
    }
}

/// `e + now`, held at `u128::MAX` where the sum would not fit.
pub open spec fn held_sum(e: u128, now: u128) -> u128 {
    if e + now > u128::MAX {
        u128::MAX
    } else {
        (e + now) as u128
    }
}

/// A key entry at a tick at time `now`: a press becomes held, and a held key
/// adds `now` to its running total.
pub open spec fn tick_key(s: InputState, now: u128) -> InputState {
    match s {
        InputState::Pressed(t0) => InputState::Down(t0, now),
        InputState::Down(t0, e) => InputState::Down(t0, held_sum(e, now)),
        InputState::Released(_, _) => s,
    }
}

/// The keyboard at a tick at time `now`: released keys go idle, the others tick.
pub open spec fn tick_keyboard(m: Map<Key, InputState>, now: u128) -> Map<Key, InputState> {
    Map::new(
        |k: Key| m.contains_key(k) && !(m[k] is Released),
        |k: Key| tick_key(m[k], now),
    )
}

/// A mouse button at a tick at time `now`: a released button goes idle, a
/// pressed or held one is held with `now` as its latest time.
pub open spec fn tick_button(s: Option<InputState>, now: u128) -> Option<InputState> {
    match s {
        Some(InputState::Pressed(t0)) => Some(InputState::Down(t0, now)),
        Some(InputState::Down(t0, _)) => Some(InputState::Down(t0, now)),
        _ => None,
    }
}

impl InputView {
    /// The view after the reconciliation tick at time `now`.
    pub open spec fn after_tick(self, now: u128) -> Self
        recommends
            now >= self.time_now,
    {
        InputView {
            keyboard: tick_keyboard(self.keyboard, now),
            left: tick_button(self.left, now),
            middle: tick_button(self.middle, now),
            right: tick_button(self.right, now),
            moved: false,
            time_now: now,
            time_delta: (now - self.time_now) as u128,
            ..self
        }
    }

    pub open spec fn button(self, b: ButtonId) -> Option<InputState> {
        match b {
            ButtonId::Left => self.left,
            ButtonId::Middle => self.middle,
            ButtonId::Right => self.right,
            ButtonId::Other(_) => None,
        }
    }

    /// The view with the slot of button `b` set to `s`.
    pub open spec fn with_button(self, b: ButtonId, s: Option<InputState>) -> Self {
        match b {
            ButtonId::Left => InputView { left: s, ..self },
            ButtonId::Middle => InputView { middle: s, ..self },
            ButtonId::Right => InputView { right: s, ..self },
            ButtonId::Other(_) => self,
        }
    }

    /// Whether `e` is a second release of a key or button.
    pub open spec fn rejects(self, e: InputEvent) -> bool {
        match e {
            InputEvent::KeyboardInput { key: Some(k), state } => releases_twice(
                key_entry(self.keyboard, k),
                state,
            ),
            InputEvent::MouseInput { button, state } => releases_twice(self.button(button), state),
            _ => false,
        }
    }

    /// The view after event `e`, for an event that it does not reject.
    pub open spec fn after_event(self, e: InputEvent) -> Self {
        match e {
            InputEvent::KeyboardInput { key: Some(k), state } => InputView {
                keyboard: set_entry(
                    self.keyboard,
                    k,
                    next_state(key_entry(self.keyboard, k), state, self.time_now),
                ),
                ..self
            },
            InputEvent::KeyboardInput { key: None, .. } => self,
            InputEvent::MouseInput { button, state } => self.with_button(
                button,
                next_state(self.button(button), state, self.time_now),
            ),
            InputEvent::MouseWheel => self,
            InputEvent::CursorMoved { x, y } => InputView {
                cursor: Some((x, y)),
                delta: match self.cursor {
                    Some((ox, oy)) => ((x - ox) as i64, (y - oy) as i64),
                    None => self.delta,
                },
                moved: true,
                ..self
            },
            InputEvent::CursorEntered => InputView { inside: true, ..self },
            InputEvent::CursorLeft => InputView { inside: false, delta: (0, 0), ..self },
        }
    }

    /// The cursor movement of this tick: zero unless the cursor moved.
    pub open spec fn mouse_delta(self) -> (i64, i64) {
        if self.moved {
            self.delta
        } else {
            (0, 0)
        }
    }
}

/// Tracks keyboard keys, mouse buttons, the cursor and time, one frame at a time.
pub struct InputCache {
    keyboard: HashMap<Key, InputState>,
    mouse_buttons: MouseButtons,
    mouse_position: CursorPosition,
    mouse_delta: (i64, i64),
    time_now: u128,
    time_delta: u128,
    timer: instant::Instant,
    mouse_moved: bool,
}

impl View for InputCache {
    type V = InputView;

    closed spec fn view(&self) -> InputView {
        InputView {
            keyboard: self.keyboard@,
            left: self.mouse_buttons.state_of(ButtonId::Left),
            middle: self.mouse_buttons.state_of(ButtonId::Middle),
            right: self.mouse_buttons.state_of(ButtonId::Right),
            cursor: self.mouse_position.position(),
            inside: self.mouse_position.is_inside(),
            delta: self.mouse_delta,
            moved: self.mouse_moved,
            time_now: self.time_now,
            time_delta: self.time_delta,
        }
    }
}

impl InputCache {
    /// An empty tracker at time zero, with its clock started.
    pub fn init() -> (r: Self)
        ensures
            r@.keyboard == Map::<Key, InputState>::empty(),
            r@.left is None,
            r@.middle is None,
            r@.right is None,
            r@.cursor is None,
            !r@.inside,
            r@.delta == (0i64, 0i64),
            !r@.moved,
            r@.time_now == 0,
            r@.time_delta == 0,
    {
        let keyboard = HashMap::<Key, InputState>::with_capacity(128);
        let mouse_buttons = MouseButtons::init();
        let mouse_position = CursorPosition::init();
        let timer = clock_start();
        InputCache {
            keyboard,
            mouse_buttons,
            mouse_position,
            mouse_delta: (0, 0),
            time_now: 0,
            time_delta: 0,
            timer,
            mouse_moved: false,
        }
    }

    /// The time of the latest tick.
    pub fn get_time(&self) -> (r: u128)
        ensures
            r == self@.time_now,
    {
        self.time_now
    }

    /// The time between the latest tick and the one before.
    pub fn get_time_delta(&self) -> (r: u128)
        ensures
            r == self@.time_delta,
    {
        self.time_delta
    }

    /// The cursor movement of this tick: zero unless the cursor moved.
    pub fn get_mouse_delta(&self) -> (r: (i64, i64))
        ensures
            r == self@.mouse_delta(),
    {
        if self.mouse_moved {
            self.mouse_delta
        } else {
            (0, 0)
        }
    }

    /// The state of keyboard key `key`; `None` while idle.
    pub fn key_state(&self, key: &Key) -> (r: Option<InputState>)
        ensures
            r == key_entry(self@.keyboard, *key),
    {
        match self.keyboard.get(key) {
            Some(s) => Some(*s),
            None => None,
        }
    }

    /// The state of mouse button `button`; `None` while idle.
    pub fn mouse_button_state(&self, button: &ButtonId) -> (r: Option<InputState>)
        ensures
            r == self@.button(*button),
    {
        match *button {
            ButtonId::Left => self.mouse_buttons.get_left(),
            ButtonId::Middle => self.mouse_buttons.get_middle(),
            ButtonId::Right => self.mouse_buttons.get_right(),
            ButtonId::Other(_) => None,
        }
    }

    /// Ends a frame at the time the clock now reads, never earlier than the
    /// latest tick.
    pub fn pre_update(&mut self)
        ensures
            exists|now: u128|
                now >= old(self)@.time_now && final(self)@ == #[trigger] old(self)@.after_tick(now),
    {
        let reading = nanos_since(&self.timer);
        let now = if reading < self.time_now {
            self.time_now
        } else {
            reading
        };
        self.pre_update_at(now);
    }

    /// Ends a frame at time `now`: the cursor movement is cleared, the time and
    /// its delta advance, and each key and button ticks.
    pub fn pre_update_at(&mut self, now: u128)
        requires
            now >= old(self)@.time_now,
        ensures
            final(self)@ == old(self)@.after_tick(now),
    {
        self.mouse_moved = false;
        self.time_delta = now - self.time_now;
        self.time_now = now;
        self.mouse_buttons.left.state = Self::tick_slot(self.mouse_buttons.left.state, now);
        self.mouse_buttons.middle.state = Self::tick_slot(self.mouse_buttons.middle.state, now);
        self.mouse_buttons.right.state = Self::tick_slot(self.mouse_buttons.right.state, now);
        self.keyboard = Self::tick_keys(&self.keyboard, now);
    }

    fn tick_slot(s: Option<InputState>, now: u128) -> (r: Option<InputState>)
        ensures
            r == tick_button(s, now),
    {
        match s {
            Some(InputState::Pressed(t0)) => Some(InputState::Down(t0, now)),
            Some(InputState::Down(t0, _)) => Some(InputState::Down(t0, now)),
            _ => None,
        }
    }

    fn tick_keys(keyboard: &HashMap<Key, InputState>, now: u128) -> (r: HashMap<Key, InputState>)
        ensures
            r@ == tick_keyboard(keyboard@, now),
    {
        let mut out: HashMap<Key, InputState> = HashMap::with_capacity(128);
        let ghost all = spec_keys_iter(keyboard).remaining().unref();
        let ghost mut done: Seq<Key> = Seq::empty();
        for k in it: keyboard.keys()
            invariant
                it.seq().unref() == all,
                done == all.take(it.index()),
                forall|j: Key|
                    #[trigger] out@.contains_key(j) <==> (done.contains(j) && keyboard@.contains_key(
                        j,
                    ) && !(keyboard@[j] is Released)),
                forall|j: Key| #[trigger]
                    out@.contains_key(j) ==> out@[j] == tick_key(keyboard@[j], now),
        {
            let key = *k;
            match keyboard.get(&key) {
                Some(InputState::Pressed(t0)) => {
                    out.insert(key, InputState::Down(*t0, now));
                },
                Some(InputState::Down(t0, e)) => {
                    let total = if *e > u128::MAX - now {
                        u128::MAX
                    } else {
                        *e + now
                    };
                    out.insert(key, InputState::Down(*t0, total));
                },
                _ => {},
            }
            proof {
                assert(it.index() < all.len());
                assert(all[it.index()] == key);
                assert(all.take(it.index() + 1) =~= done.push(key));
                assert forall|j: Key| #[trigger]
                    done.push(key).contains(j) <==> (done.contains(j) || j == key) by {
                    if done.push(key).contains(j) && j != key {
                        let n = choose|n: int| 0 <= n < done.len() + 1 && done.push(key)[n] == j;
                        assert(done[n] == j);
                    }
                    if j == key {
                        assert(done.push(key)[done.len() as int] == j);
                    }
                    if done.contains(j) {
                        let n = choose|n: int| 0 <= n < done.len() && done[n] == j;
                        assert(done.push(key)[n] == j);
                    }
                }
                done = done.push(key);
            }
        }
        proof {
            assert(done =~= all);
            assert forall|j: Key| done.contains(j) <==> keyboard@.contains_key(j) by {
                if keyboard@.contains_key(j) {
                    assert(all.to_set().contains(j));
                }
                if done.contains(j) {
                    assert(all.to_set().contains(j));
                }
            }
            assert(out@ =~= tick_keyboard(keyboard@, now));
        }
        out
    }

    /// Applies one raw event. A second release of a key or button is refused
    /// with `DoubleRelease`, and the tracker is then left as it was.
    pub fn update(&mut self, event: &InputEvent) -> (r: Result<(), InputError>)
        ensures
            r is Err <==> old(self)@.rejects(*event),
            r is Ok ==> final(self)@ == old(self)@.after_event(*event),
            r is Err ==> final(self)@ == old(self)@,
    {
        match *event {
            InputEvent::KeyboardInput { key, state } => self.track_keyboard(key, state),
            InputEvent::MouseInput { button, state } => self.track_mouse_button(button, state),
            InputEvent::MouseWheel => {
                self.track_mouse_wheel();
                Ok(())
            },
            InputEvent::CursorMoved { x, y } => {
                self.track_cursor_movement(x, y);
                Ok(())
            },
            InputEvent::CursorEntered => {
                self.track_cursor_enter();
                Ok(())
            },
            InputEvent::CursorLeft => {
                self.track_cursor_leave();
                Ok(())
            },
        }
    }

    fn track_keyboard(&mut self, key: Option<Key>, state: ElementState) -> (r: Result<
        (),
        InputError,
    >)
        ensures
            ({
                let e = InputEvent::KeyboardInput { key, state };
                &&& r is Err <==> old(self)@.rejects(e)
                &&& r is Ok ==> final(self)@ == old(self)@.after_event(e)
                &&& r is Err ==> final(self)@ == old(self)@
            }),
    {
        if let Some(k) = key {
            match self.keyboard.get(&k) {
                Some(current) => {
                    let mut s = *current;
                    if let InputState::Released(_, _) = s {
                        if let ElementState::Released = state {
                            return Err(InputError::DoubleRelease);
                        }
                    }
                    s.update(&state, self.time_now);
                    self.keyboard.insert(k, s);
                },
                None => {
                    if let ElementState::Pressed = state {
                        self.keyboard.insert(k, InputState::Pressed(self.time_now));
                    }
                    proof {
                        assert(self.keyboard@ =~= set_entry(
                            old(self).keyboard@,
                            k,
                            next_state(None, state, self.time_now),
                        ));
                    }
                },
            }
        }
        Ok(())
    }

    fn track_mouse_button(&mut self, button: ButtonId, state: ElementState) -> (r: Result<
        (),
        InputError,
    >)
        ensures
            ({
                let e = InputEvent::MouseInput { button, state };
                &&& r is Err <==> old(self)@.rejects(e)
                &&& r is Ok ==> final(self)@ == old(self)@.after_event(e)
                &&& r is Err ==> final(self)@ == old(self)@
            }),
    {
        if let Some(InputState::Released(_, _)) = self.mouse_button_state(&button) {
            if let ElementState::Released = state {
                return Err(InputError::DoubleRelease);
            }
        }
        self.mouse_buttons.update(&button, &state, self.time_now);
        Ok(())
    }

    /// The wheel is accepted and changes nothing.
    fn track_mouse_wheel(&mut self)
        ensures
            final(self)@ == old(self)@,
    {
    }

    fn track_cursor_movement(&mut self, x: i32, y: i32)
        ensures
            final(self)@ == old(self)@.after_event(InputEvent::CursorMoved { x, y }),
    {
        self.mouse_moved = true;
        if let Some((ox, oy)) = self.mouse_position.pos {
            self.mouse_delta = ((x as i64) - (ox as i64), (y as i64) - (oy as i64));
        }
        self.mouse_position.pos = Some((x, y));
    }

    fn track_cursor_enter(&mut self)
        ensures
            final(self)@ == old(self)@.after_event(InputEvent::CursorEntered),
    {
        self.mouse_position.inside = true;
    }

    fn track_cursor_leave(&mut self)
        ensures
            final(self)@ == old(self)@.after_event(InputEvent::CursorLeft),
    {
        self.mouse_delta = (0, 0);
        self.mouse_position.inside = false;
    }
}

/// A repeat trigger at one check: `entry` is the accumulated held time and the
/// threshold, `state` the key's state and `dt` the time since the previous tick.
/// Gives the new entry and whether the trigger fires. A press starts the
/// accumulation at `dt`; a held key adds `dt` and, once the total exceeds the
/// threshold, fires and keeps what is over it; a release starts again from zero.
pub open spec fn trigger_step(entry: (u128, u128), state: Option<InputState>, dt: u128) -> (
    (u128, u128),
    bool,
) {
    let (acc, threshold) = entry;
    match state {
        Some(InputState::Pressed(_)) => ((dt, threshold), false),
        Some(InputState::Down(_, _)) => {
            let total = held_sum(acc, dt);
            if total > threshold {
                (((total - threshold) as u128, threshold), true)
            } else {
                ((total, threshold), false)
            }
        },
        Some(InputState::Released(_, _)) => ((0, threshold), false),
        None => (entry, false),
    }
}

/// Repeat triggers for held keys: each registered key fires once per
/// threshold of held time.
pub struct KeyboardManager {
    keys: HashMap<Key, (u128, u128)>,
}

impl View for KeyboardManager {
    /// Each registered key, with its accumulated held time and its threshold.
    type V = Map<Key, (u128, u128)>;

    closed spec fn view(&self) -> Map<Key, (u128, u128)> {
        self.keys@
    }
}

impl KeyboardManager {
    /// No key registered.
    pub fn init() -> (r: Self)
        ensures
            r@ == Map::<Key, (u128, u128)>::empty(),
    {
        KeyboardManager { keys: HashMap::new() }
    }

    /// Registers `key` with `threshold`, in the tracker's time units
    /// (nanoseconds of its clock), its accumulated time at zero.
    pub fn register_key(&mut self, key: Key, threshold: u128)
        ensures
            final(self)@ == old(self)@.insert(key, (0u128, threshold)),
    {
        self.keys.insert(key, (0, threshold));
    }

    /// Advances the trigger of `key` by the state and time delta of `input`,
    /// and tells whether it fires. An unregistered key never fires.
    pub fn test_key(&mut self, key: &Key, input: &InputCache) -> (r: bool)
        ensures
            old(self)@.contains_key(*key) ==> {
                let (entry, fired) = trigger_step(
                    old(self)@[*key],
                    key_entry(input@.keyboard, *key),
                    input@.time_delta,
                );
                &&& final(self)@ == old(self)@.insert(*key, entry)
                &&& r == fired
            },
            !old(self)@.contains_key(*key) ==> final(self)@ == old(self)@ && !r,
    {
        let state_key = input.key_state(key);
        let dt = input.get_time_delta();
        match self.keys.get(key) {
            Some(entry) => {
                let (acc, threshold) = *entry;
                let mut result = false;
                let next = match state_key {
                    Some(InputState::Pressed(_)) => dt,
                    Some(InputState::Down(_, _)) => {
                        let total = if acc > u128::MAX - dt {
                            u128::MAX
                        } else {
                            acc + dt
                        };
                        if total > threshold {
                            result = true;
                            total - threshold
                        } else {
                            total
                        }
                    },
                    Some(InputState::Released(_, _)) => 0,
                    None => acc,
                };
                self.keys.insert(*key, (next, threshold));
                proof {
                    assert(self.keys@ =~= old(self).keys@.insert(
                        *key,
                        trigger_step(
                            old(self).keys@[*key],
                            key_entry(input@.keyboard, *key),
                            input@.time_delta,
                        ).0,
                    ));
                }
                result
            },
            None => false,
        }
    }
}

} // verus!
