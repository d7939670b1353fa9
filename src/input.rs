use std::collections::HashMap;
use std::collections::HashSet;
use vstd::prelude::*;

verus! {

broadcast use vstd::std_specs::hash::group_hash_axioms;

/// Touch id under which mouse clicks are mirrored as touches.
pub const MOUSE_TOUCH_ID: u64 = 0;

/// A point on the screen, in pixels, with y growing upwards.
#[derive(Clone, Copy, Debug, PartialEq, Eq, Structural)]
pub struct Position {
    pub x: i64,
    pub y: i64,
}

#[derive(Clone, Copy, Debug, PartialEq, Eq, Structural)]
pub enum TouchPhase {
    Started,
    Moved,
    Ended,
    Cancelled,
}

/// The latest known state of one touch point.
#[derive(Clone, Copy, Debug, PartialEq, Eq, Structural)]
pub struct Touch {
    pub position: Position,
    pub phase: TouchPhase,
}

#[derive(Clone, Copy, Debug, PartialEq, Eq, Structural)]
pub enum MouseButton {
    Left,
    Right,
    Middle,
    Unknown,
}

pub open spec fn button_code_of(b: MouseButton) -> u32 {
    match b {
        MouseButton::Left => 0,
        MouseButton::Right => 1,
        MouseButton::Middle => 2,
        MouseButton::Unknown => 3,
    }
}

pub fn button_code(b: MouseButton) -> (r: u32)
    ensures
        r == button_code_of(b),
{
    match b {
        MouseButton::Left => 0,
        MouseButton::Right => 1,
        MouseButton::Middle => 2,
        MouseButton::Unknown => 3,
    }
}

/// What one input channel holds in a frame: held codes, and those pressed and
/// released since the last rollover.
pub ghost struct PressState {
    pub down: Set<u32>,
    pub pressed: Set<u32>,
    pub released: Set<u32>,
}

pub open spec fn no_presses() -> PressState {
    PressState { down: Set::empty(), pressed: Set::empty(), released: Set::empty() }
}

/// A code goes down; it counts as pressed this frame only if it was not held.
pub open spec fn after_press(s: PressState, code: u32) -> PressState {
    PressState {
        down: s.down.insert(code),
        pressed: if s.down.contains(code) {
            s.pressed
        } else {
            s.pressed.insert(code)
        },
        released: s.released,
    }
}

/// A code goes up and counts as released this frame.
pub open spec fn after_release(s: PressState, code: u32) -> PressState {
    PressState { down: s.down.remove(code), pressed: s.pressed, released: s.released.insert(code) }
}

/// The end of a frame: nothing is pressed or released any more; held codes stay.
pub open spec fn after_rollover(s: PressState) -> PressState {
    PressState { down: s.down, pressed: Set::empty(), released: Set::empty() }
}

/// A first press makes the code held and just pressed; a repeated press before the
/// rollover leaves the just-pressed codes as they were; after the rollover nothing
/// is just pressed, and the code stays held through any press or release of other
/// codes until it is released itself.
pub proof fn lemma_press_repeat_rollover(s: PressState, code: u32, other: u32)
    requires
        other != code,
    ensures
        after_press(s, code).down.contains(code),
        !s.down.contains(code) ==> after_press(s, code).pressed.contains(code),
        after_press(after_press(s, code), code).pressed == after_press(s, code).pressed,
        after_rollover(after_press(after_press(s, code), code)).pressed.is_empty(),
        after_rollover(after_press(after_press(s, code), code)).down.contains(code),
        after_press(after_rollover(after_press(s, code)), other).down.contains(code),
        after_release(after_rollover(after_press(s, code)), other).down.contains(code),
        !after_release(after_rollover(after_press(s, code)), code).down.contains(code),
{
    assert(after_rollover(after_press(after_press(s, code), code)).pressed =~= Set::empty());
}

/// Held, just-pressed and just-released codes of one input channel.
pub struct PressSet {
    down: HashSet<u32>,
    pressed: HashSet<u32>,
    released: HashSet<u32>,
}

impl PressSet {
    pub closed spec fn state(&self) -> PressState {
        PressState { down: self.down@, pressed: self.pressed@, released: self.released@ }
    }

    pub fn new() -> (r: PressSet)
        ensures
            r.state() == no_presses(),
    {
        PressSet { down: HashSet::new(), pressed: HashSet::new(), released: HashSet::new() }
    }

    /// Marks `code` held; it counts as pressed this frame only if it was not
    /// already held, so repeats do not trigger again.
    pub fn press(&mut self, code: u32)
        ensures
            final(self).state() == after_press(old(self).state(), code),
    {
        let was_down = self.down.contains(&code);
        self.down.insert(code);
        if !was_down {
            self.pressed.insert(code);
        }
    }

    /// Marks `code` no longer held and released this frame.
    pub fn release(&mut self, code: u32)
        ensures
            final(self).state() == after_release(old(self).state(), code),
    {
        self.down.remove(&code);
        self.released.insert(code);
    }

    /// Forgets what was pressed and released this frame; held codes stay held.
    pub fn rollover(&mut self)
        ensures
            final(self).state() == after_rollover(old(self).state()),
    {
        self.pressed.clear();
        self.released.clear();
    }

    pub fn is_down(&self, code: u32) -> (r: bool)
        ensures
            r == self.state().down.contains(code),
    {
        self.down.contains(&code)
    }

    pub fn is_pressed(&self, code: u32) -> (r: bool)
        ensures
            r == self.state().pressed.contains(code),
    {
        self.pressed.contains(&code)
    }

    pub fn is_released(&self, code: u32) -> (r: bool)
        ensures
            r == self.state().released.contains(code),
    {
        self.released.contains(&code)
    }
}

/// A key went down.
pub open spec fn key_down_step(a: InputEngine, b: InputEngine, code: u32) -> bool {
    &&& b.keys() == after_press(a.keys(), code)
    &&& b.buttons() == a.buttons()
    &&& b.mouse() == a.mouse()
    &&& b.touches() == a.touches()
    &&& b.touches_to_mouse_on() == a.touches_to_mouse_on()
    &&& b.mouse_to_touch_on() == a.mouse_to_touch_on()
}

/// A key went up.
pub open spec fn key_up_step(a: InputEngine, b: InputEngine, code: u32) -> bool {
    &&& b.keys() == after_release(a.keys(), code)
    &&& b.buttons() == a.buttons()
    &&& b.mouse() == a.mouse()
    &&& b.touches() == a.touches()
    &&& b.touches_to_mouse_on() == a.touches_to_mouse_on()
    &&& b.mouse_to_touch_on() == a.mouse_to_touch_on()
}

/// The touch that mirrors mouse clicks has started and not yet ended.
pub open spec fn mirrored_touch_active(a: InputEngine) -> bool {
    &&& a.touches().contains_key(MOUSE_TOUCH_ID)
    &&& (a.touches()[MOUSE_TOUCH_ID].phase == TouchPhase::Started
        || a.touches()[MOUSE_TOUCH_ID].phase == TouchPhase::Moved)
}

/// The mouse moved to `(x, y)`.
pub open spec fn mouse_move_step(a: InputEngine, b: InputEngine, x: i64, y: i64) -> bool {
    &&& b.mouse() == (Position { x, y })
    &&& b.keys() == a.keys()
    &&& b.buttons() == a.buttons()
    &&& b.touches() == if a.mouse_to_touch_on() && mirrored_touch_active(a) {
        a.touches().insert(
            MOUSE_TOUCH_ID,
            Touch { position: Position { x, y }, phase: TouchPhase::Moved },
        )
    } else {
        a.touches()
    }
    &&& b.touches_to_mouse_on() == a.touches_to_mouse_on()
    &&& b.mouse_to_touch_on() == a.mouse_to_touch_on()
}

/// A mouse button went down at `(x, y)`.
pub open spec fn mouse_down_step(a: InputEngine, b: InputEngine, button: MouseButton, x: i64, y: i64) -> bool {
    &&& b.mouse() == (Position { x, y })
    &&& b.keys() == a.keys()
    &&& b.buttons() == after_press(a.buttons(), button_code_of(button))
    &&& b.touches() == if a.mouse_to_touch_on() {
        a.touches().insert(
            MOUSE_TOUCH_ID,
            Touch { position: Position { x, y }, phase: TouchPhase::Started },
        )
    } else {
        a.touches()
    }
    &&& b.touches_to_mouse_on() == a.touches_to_mouse_on()
    &&& b.mouse_to_touch_on() == a.mouse_to_touch_on()
}

/// A mouse button went up at `(x, y)`.
pub open spec fn mouse_up_step(a: InputEngine, b: InputEngine, button: MouseButton, x: i64, y: i64) -> bool {
    &&& b.mouse() == (Position { x, y })
    &&& b.keys() == a.keys()
    &&& b.buttons() == after_release(a.buttons(), button_code_of(button))
    &&& b.touches() == if a.mouse_to_touch_on() {
        a.touches().insert(
            MOUSE_TOUCH_ID,
            Touch { position: Position { x, y }, phase: TouchPhase::Ended },
        )
    } else {
        a.touches()
    }
    &&& b.touches_to_mouse_on() == a.touches_to_mouse_on()
    &&& b.mouse_to_touch_on() == a.mouse_to_touch_on()
}

/// Touch `id` reached `phase` at `(x, y)`.
pub open spec fn touch_step(a: InputEngine, b: InputEngine, phase: TouchPhase, id: u64, x: i64, y: i64) -> bool {
    &&& b.touches() == a.touches().insert(
        id,
        Touch { position: Position { x, y }, phase }
    )
    &&& b.keys() == a.keys()
    &&& !a.touches_to_mouse_on() ==> b.buttons() == a.buttons()
        && b.mouse() == a.mouse()
    &&& a.touches_to_mouse_on() ==> b.mouse() == (Position { x, y })
    &&& a.touches_to_mouse_on() ==> b.buttons() == match phase {
        TouchPhase::Started => after_press(a.buttons(), button_code_of(MouseButton::Left)),
        TouchPhase::Moved => a.buttons(),
        _ => after_release(a.buttons(), button_code_of(MouseButton::Left))
    }
    &&& b.touches_to_mouse_on() == a.touches_to_mouse_on()
    &&& b.mouse_to_touch_on() == a.mouse_to_touch_on()
}

/// The end of a frame.
pub open spec fn rollover_step(a: InputEngine, b: InputEngine) -> bool {
    &&& b.keys() == after_rollover(a.keys())
    &&& b.buttons() == after_rollover(a.buttons())
    &&& b.mouse() == a.mouse()
    &&& b.touches() == a.touches()
    &&& b.touches_to_mouse_on() == a.touches_to_mouse_on()
    &&& b.mouse_to_touch_on() == a.mouse_to_touch_on()
}

/// Mirroring of touches as mouse events was switched.
pub open spec fn touches_to_mouse_step(a: InputEngine, b: InputEngine, enabled: bool) -> bool {
    &&& b.touches_to_mouse_on() == enabled
    &&& b.mouse_to_touch_on() == a.mouse_to_touch_on()
    &&& b.keys() == a.keys()
    &&& b.buttons() == a.buttons()
    &&& b.mouse() == a.mouse()
    &&& b.touches() == a.touches()
}

/// Mirroring of mouse clicks as touches was switched.
pub open spec fn mouse_to_touch_step(a: InputEngine, b: InputEngine, enabled: bool) -> bool {
    &&& b.mouse_to_touch_on() == enabled
    &&& b.touches_to_mouse_on() == a.touches_to_mouse_on()
    &&& b.keys() == a.keys()
    &&& b.buttons() == a.buttons()
    &&& b.mouse() == a.mouse()
    &&& b.touches() == a.touches()
}

/// Keyboard, mouse and touch state of the current frame, with the switches that
/// mirror one pointer channel into the other.
pub struct InputEngine {
    keys: PressSet,
    buttons: PressSet,
    mouse: Position,
    touches: HashMap<u64, Touch>,
    touches_to_mouse: bool,
    mouse_to_touch: bool,
}

impl InputEngine {
    pub closed spec fn keys(&self) -> PressState {
        self.keys.state()
    }

    pub closed spec fn buttons(&self) -> PressState {
        self.buttons.state()
    }

    pub closed spec fn mouse(&self) -> Position {
        self.mouse
    }

    pub closed spec fn touches(&self) -> Map<u64, Touch> {
        self.touches@
    }

    pub closed spec fn touches_to_mouse_on(&self) -> bool {
        self.touches_to_mouse
    }

    pub closed spec fn mouse_to_touch_on(&self) -> bool {
        self.mouse_to_touch
    }

    pub fn new() -> (r: InputEngine)
        ensures
            r.keys() == no_presses(),
            r.buttons() == no_presses(),
            r.mouse() == (Position { x: 0, y: 0 }),
            r.touches() == Map::<u64, Touch>::empty(),
            !r.touches_to_mouse_on(),
            !r.mouse_to_touch_on(),
    {
        InputEngine {
            keys: PressSet::new(),
            buttons: PressSet::new(),
            mouse: Position { x: 0, y: 0 },
            touches: HashMap::new(),
            touches_to_mouse: false,
            mouse_to_touch: false,
        }
    }

    /// A key went down. A platform repeat of a held key does not count as a new
    /// press, and neither does any other press of a key that is already held.
    pub fn set_key_down(&mut self, code: u32, is_repeat: bool)
        ensures
            key_down_step(*old(self), *final(self), code),
    {
        self.keys.press(code);
    }

    pub fn set_key_up(&mut self, code: u32)
        ensures
            key_up_step(*old(self), *final(self), code),
    {
        self.keys.release(code);
    }

    /// Moves the mouse; while clicks are mirrored as touches and a mirrored touch
    /// is in progress, it moves along.
    pub fn set_mouse_translation(&mut self, x: i64, y: i64)
        ensures
            mouse_move_step(*old(self), *final(self), x, y),
    {
        self.mouse = Position { x, y };
        let active = match self.touches.get(&MOUSE_TOUCH_ID) {
            Some(t) => t.phase == TouchPhase::Started || t.phase == TouchPhase::Moved,
            None => false,
        };
        if self.mouse_to_touch && active {
            self.touches.insert(
                MOUSE_TOUCH_ID,
                Touch { position: Position { x, y }, phase: TouchPhase::Moved },
            );
        }
    }

    /// Presses a mouse button at a point; the click is mirrored as a touch start
    /// when clicks are mirrored as touches.
    pub fn set_mouse_down(&mut self, button: MouseButton, x: i64, y: i64)
        ensures
            mouse_down_step(*old(self), *final(self), button, x, y),
    {
        self.mouse = Position { x, y };
        self.buttons.press(button_code(button));
        if self.mouse_to_touch {
            self.touches.insert(
                MOUSE_TOUCH_ID,
                Touch { position: Position { x, y }, phase: TouchPhase::Started },
            );
        }
    }

    /// Releases a mouse button at a point; the release is mirrored as a touch end
    /// when clicks are mirrored as touches.
    pub fn set_mouse_up(&mut self, button: MouseButton, x: i64, y: i64)
        ensures
            mouse_up_step(*old(self), *final(self), button, x, y),
    {
        self.mouse = Position { x, y };
        self.buttons.release(button_code(button));
        if self.mouse_to_touch {
            self.touches.insert(
                MOUSE_TOUCH_ID,
                Touch { position: Position { x, y }, phase: TouchPhase::Ended },
            );
        }
    }

    /// Records the latest phase and position of touch `id`. When touches are
    /// mirrored as mouse events, a start presses the left button at the same point,
    /// a move moves the mouse, and an end or cancel releases the button.
    pub fn touch_event(&mut self, phase: TouchPhase, id: u64, x: i64, y: i64)
        ensures
            touch_step(*old(self), *final(self), phase, id, x, y),
    {
        self.touches.insert(id, Touch { position: Position { x, y }, phase });
        if self.touches_to_mouse {
            self.mouse = Position { x, y };
            let left = button_code(MouseButton::Left);
            match phase {
                TouchPhase::Started => self.buttons.press(left),
                TouchPhase::Moved => {},
                TouchPhase::Ended | TouchPhase::Cancelled => self.buttons.release(left),
            }
        }
    }

    /// End-of-frame rollover: clears what was pressed and released this frame on
    /// every channel; held keys and buttons, the mouse and the touches stay.
    pub fn update_and_rollover(&mut self)
        ensures
            rollover_step(*old(self), *final(self)),
    {
        self.keys.rollover();
        self.buttons.rollover();
    }

    /// Makes touches also register as mouse events from now on.
    pub fn set_touches_to_mouse(&mut self, enabled: bool)
        ensures
            touches_to_mouse_step(*old(self), *final(self), enabled),
    {
        self.touches_to_mouse = enabled;
    }

    /// Makes mouse clicks also register as touches from now on.
    pub fn set_mouse_to_touch(&mut self, enabled: bool)
        ensures
            mouse_to_touch_step(*old(self), *final(self), enabled),
    {
        self.mouse_to_touch = enabled;
    }

    pub fn is_key_down(&self, code: u32) -> (r: bool)
        ensures
            r == self.keys().down.contains(code),
    {
        self.keys.is_down(code)
    }

    pub fn is_key_just_pressed(&self, code: u32) -> (r: bool)
        ensures
            r == self.keys().pressed.contains(code),
    {
        self.keys.is_pressed(code)
    }

    pub fn is_key_just_released(&self, code: u32) -> (r: bool)
        ensures
            r == self.keys().released.contains(code),
    {
        self.keys.is_released(code)
    }

    pub fn is_mouse_down(&self, button: MouseButton) -> (r: bool)
        ensures
            r == self.buttons().down.contains(button_code_of(button)),
    {
        self.buttons.is_down(button_code(button))
    }

    pub fn is_mouse_just_pressed(&self, button: MouseButton) -> (r: bool)
        ensures
            r == self.buttons().pressed.contains(button_code_of(button)),
    {
        self.buttons.is_pressed(button_code(button))
    }

    pub fn is_mouse_just_released(&self, button: MouseButton) -> (r: bool)
        ensures
            r == self.buttons().released.contains(button_code_of(button)),
    {
        self.buttons.is_released(button_code(button))
    }

    pub fn mouse_position(&self) -> (r: Position)
        ensures
            r == self.mouse(),
    {
        self.mouse
    }

    pub fn touch(&self, id: u64) -> (r: Option<Touch>)
        ensures
            r == (if self.touches().contains_key(id) {
                Some(self.touches()[id])
            } else {
                None
            }),
    {
        match self.touches.get(&id) {
            Some(t) => Some(*t),
            None => None,
        }
    }
}

} // verus!
