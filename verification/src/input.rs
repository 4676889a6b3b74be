//! Input-state bookkeeping: which keys, mouse buttons and gamepad buttons
//! are held, were pressed this frame, or were released this frame.
//!
//! Keys and buttons are carried as the platform's plain scan / button
//! codes; the platform layer translates its own event types into them.

use vstd::prelude::*;

use std::collections::HashSet;

verus! {

broadcast use vstd::std_specs::hash::group_hash_axioms;

/// A keyboard key, as its scancode.
pub type KeyCode = u32;

/// A mouse button, as the platform's button code.
pub type MouseButton = u32;

/// A gamepad button, as the platform's button code.
pub type GamepadButton = u32;

/// Button states of one gamepad.
pub struct Gamepad {
    pub down: HashSet<GamepadButton>,
    pub pressed: HashSet<GamepadButton>,
    pub released: HashSet<GamepadButton>,
    pub guid: u32,
}

/// The whole input state: keyboard, mouse and any number of gamepads.
pub struct Input {
    pub keyboard_down: HashSet<KeyCode>,
    pub keyboard_pressed: HashSet<KeyCode>,
    pub keyboard_released: HashSet<KeyCode>,
    pub mouse_down: HashSet<MouseButton>,
    pub mouse_pressed: HashSet<MouseButton>,
    pub mouse_released: HashSet<MouseButton>,
    pub gamepads: Vec<Gamepad>,
    pub gamepad_limit: u32,
    pub mouse_position: (u32, u32),
}

/// Whether `i` is the slot the gamepad lookup finds for `guid`: the
/// first match among every slot but the last.
pub open spec fn found_gamepad(gs: Seq<Gamepad>, guid: u32, i: int) -> bool {
    &&& 0 <= i < gs.len() - 1
    &&& gs[i].guid == guid
    &&& forall|j: int| 0 <= j < i ==> (#[trigger] gs[j]).guid != guid
}

impl Input {
    /// Starts the Input with nothing held, pressed or released.
    pub fn new() -> (r: Self)
        ensures
            r.keyboard_down@ == Set::<KeyCode>::empty(),
            r.keyboard_pressed@ == Set::<KeyCode>::empty(),
            r.keyboard_released@ == Set::<KeyCode>::empty(),
            r.mouse_down@ == Set::<MouseButton>::empty(),
            r.mouse_pressed@ == Set::<MouseButton>::empty(),
            r.mouse_released@ == Set::<MouseButton>::empty(),
            r.gamepads@.len() == 0,
            r.gamepad_limit == 0,
            r.mouse_position == (0u32, 0u32),
    {
        Input {
            keyboard_down: HashSet::new(),
            keyboard_pressed: HashSet::new(),
            keyboard_released: HashSet::new(),
            mouse_down: HashSet::new(),
            mouse_pressed: HashSet::new(),
            mouse_released: HashSet::new(),
            gamepads: Vec::new(),
            gamepad_limit: 0,
            mouse_position: (0, 0),
        }
    }

    /// Opens a new frame: the per-frame pressed and released sets are
    /// cleared everywhere, while the held sets and the mouse position
    /// survive.
    pub fn update(&mut self)
        ensures
            final(self).keyboard_down == old(self).keyboard_down,
            final(self).keyboard_pressed@ == Set::<KeyCode>::empty(),
            final(self).keyboard_released@ == Set::<KeyCode>::empty(),
            final(self).mouse_down == old(self).mouse_down,
            final(self).mouse_pressed@ == Set::<MouseButton>::empty(),
            final(self).mouse_released@ == Set::<MouseButton>::empty(),
            final(self).gamepads@.len() == old(self).gamepads@.len(),
            forall|i: int|
                0 <= i < old(self).gamepads@.len() ==> {
                    &&& (#[trigger] final(self).gamepads@[i]).down == old(self).gamepads@[i].down
                    &&& final(self).gamepads@[i].guid == old(self).gamepads@[i].guid
                    &&& final(self).gamepads@[i].pressed@ == Set::<GamepadButton>::empty()
                    &&& final(self).gamepads@[i].released@ == Set::<GamepadButton>::empty()
                },
            final(self).gamepad_limit == old(self).gamepad_limit,
            final(self).mouse_position == old(self).mouse_position,
    {
        self.keyboard_pressed.clear();
        self.keyboard_released.clear();

        self.mouse_pressed.clear();
        self.mouse_released.clear();

        let mut i: usize = 0;
        while i < self.gamepads.len()
            invariant
                i <= self.gamepads@.len(),
                self.gamepads@.len() == old(self).gamepads@.len(),
                forall|j: int|
                    i <= j < old(self).gamepads@.len() ==> #[trigger] self.gamepads@[j] == old(
                        self,
                    ).gamepads@[j],
                forall|j: int|
                    0 <= j < i ==> {
                        &&& (#[trigger] self.gamepads@[j]).down == old(self).gamepads@[j].down
                        &&& self.gamepads@[j].guid == old(self).gamepads@[j].guid
                        &&& self.gamepads@[j].pressed@ == Set::<GamepadButton>::empty()
                        &&& self.gamepads@[j].released@ == Set::<GamepadButton>::empty()
                    },
                self.keyboard_down == old(self).keyboard_down,
                self.keyboard_pressed@ == Set::<KeyCode>::empty(),
                self.keyboard_released@ == Set::<KeyCode>::empty(),
                self.mouse_down == old(self).mouse_down,
                self.mouse_pressed@ == Set::<MouseButton>::empty(),
                self.mouse_released@ == Set::<MouseButton>::empty(),
                self.gamepad_limit == old(self).gamepad_limit,
                self.mouse_position == old(self).mouse_position,
            decreases self.gamepads@.len() - i,
        {
            self.gamepads[i].pressed.clear();
            self.gamepads[i].released.clear();
            i = i + 1;
        }
    }

    /// Check if the key is held down.
    pub fn key_down(&self, key: KeyCode) -> (r: bool)
        ensures
            r == self.keyboard_down@.contains(key),
    {
        self.keyboard_down.contains(&key)
    }

    /// Check if the key has been pressed this frame.
    pub fn key_pressed(&self, key: KeyCode) -> (r: bool)
        ensures
            r == self.keyboard_pressed@.contains(key),
    {
        self.keyboard_pressed.contains(&key)
    }

    /// Check if the key has been released this frame.
    pub fn key_released(&self, key: KeyCode) -> (r: bool)
        ensures
            r == self.keyboard_released@.contains(key),
    {
        self.keyboard_released.contains(&key)
    }

    /// Records a key going down: it is held from now on, and counts as
    /// pressed this frame unless it was already held.
    pub fn do_key_down(&mut self, key: KeyCode)
        ensures
            final(self).keyboard_down@ == old(self).keyboard_down@.insert(key),
            final(self).keyboard_pressed@ == (if old(self).keyboard_down@.contains(key) {
                old(self).keyboard_pressed@
            } else {
                old(self).keyboard_pressed@.insert(key)
            }),
            final(self).keyboard_released == old(self).keyboard_released,
            final(self).mouse_down == old(self).mouse_down,
            final(self).mouse_pressed == old(self).mouse_pressed,
            final(self).mouse_released == old(self).mouse_released,
            final(self).gamepads == old(self).gamepads,
            final(self).gamepad_limit == old(self).gamepad_limit,
            final(self).mouse_position == old(self).mouse_position,
    {
        if !self.keyboard_down.contains(&key) {
            self.keyboard_down.insert(key);
            self.keyboard_pressed.insert(key);
        } else {
            proof {
                assert(old(self).keyboard_down@.insert(key) =~= old(self).keyboard_down@);
            }
        }
    }

    /// Records a key going up: it is no longer held, and counts as
    /// released this frame.
    pub fn do_key_up(&mut self, key: KeyCode)
        ensures
            final(self).keyboard_down@ == old(self).keyboard_down@.remove(key),
            final(self).keyboard_released@ == old(self).keyboard_released@.insert(key),
            final(self).keyboard_pressed == old(self).keyboard_pressed,
            final(self).mouse_down == old(self).mouse_down,
            final(self).mouse_pressed == old(self).mouse_pressed,
            final(self).mouse_released == old(self).mouse_released,
            final(self).gamepads == old(self).gamepads,
            final(self).gamepad_limit == old(self).gamepad_limit,
            final(self).mouse_position == old(self).mouse_position,
    {
        self.keyboard_down.remove(&key);
        if !self.keyboard_released.contains(&key) {
            self.keyboard_released.insert(key);
        } else {
            proof {
                assert(old(self).keyboard_released@.insert(key) =~= old(
                    self,
                ).keyboard_released@);
            }
        }
    }

    /// Check if the mouse button is held down.
    pub fn mouse_down(&self, button: MouseButton) -> (r: bool)
        ensures
            r == self.mouse_down@.contains(button),
    {
        self.mouse_down.contains(&button)
    }

    /// Check if the mouse button has been pressed this frame.
    pub fn mouse_pressed(&self, button: MouseButton) -> (r: bool)
        ensures
            r == self.mouse_pressed@.contains(button),
    {
        self.mouse_pressed.contains(&button)
    }

    /// Check if the mouse button has been released this frame.
    pub fn mouse_released(&self, button: MouseButton) -> (r: bool)
        ensures
            r == self.mouse_released@.contains(button),
    {
        self.mouse_released.contains(&button)
    }

    /// Returns the mouse position (single-precision bit patterns).
    pub fn get_mouse_position(&self) -> (r: (u32, u32))
        ensures
            r == self.mouse_position,
    {
        self.mouse_position
    }

    /// Records a mouse button going down.
    pub fn do_mouse_down(&mut self, button: MouseButton)
        ensures
            final(self).mouse_down@ == old(self).mouse_down@.insert(button),
            final(self).mouse_pressed@ == (if old(self).mouse_down@.contains(button) {
                old(self).mouse_pressed@
            } else {
                old(self).mouse_pressed@.insert(button)
            }),
            final(self).mouse_released == old(self).mouse_released,
            final(self).keyboard_down == old(self).keyboard_down,
            final(self).keyboard_pressed == old(self).keyboard_pressed,
            final(self).keyboard_released == old(self).keyboard_released,
            final(self).gamepads == old(self).gamepads,
            final(self).gamepad_limit == old(self).gamepad_limit,
            final(self).mouse_position == old(self).mouse_position,
    {
        if !self.mouse_down.contains(&button) {
            self.mouse_down.insert(button);
            self.mouse_pressed.insert(button);
        } else {
            proof {
                assert(old(self).mouse_down@.insert(button) =~= old(self).mouse_down@);
            }
        }
    }

    /// Records a mouse button going up.
    pub fn do_mouse_up(&mut self, button: MouseButton)
        ensures
            final(self).mouse_down@ == old(self).mouse_down@.remove(button),
            final(self).mouse_released@ == old(self).mouse_released@.insert(button),
            final(self).mouse_pressed == old(self).mouse_pressed,
            final(self).keyboard_down == old(self).keyboard_down,
            final(self).keyboard_pressed == old(self).keyboard_pressed,
            final(self).keyboard_released == old(self).keyboard_released,
            final(self).gamepads == old(self).gamepads,
            final(self).gamepad_limit == old(self).gamepad_limit,
            final(self).mouse_position == old(self).mouse_position,
    {
        self.mouse_down.remove(&button);
        if !self.mouse_released.contains(&button) {
            self.mouse_released.insert(button);
        } else {
            proof {
                assert(old(self).mouse_released@.insert(button) =~= old(self).mouse_released@);
            }
        }
    }

    /// Assigns the mouse position (single-precision bit patterns).
    pub fn do_mouse_move(&mut self, position: (u32, u32))
        ensures
            final(self).mouse_position == position,
            final(self).keyboard_down == old(self).keyboard_down,
            final(self).keyboard_pressed == old(self).keyboard_pressed,
            final(self).keyboard_released == old(self).keyboard_released,
            final(self).mouse_down == old(self).mouse_down,
            final(self).mouse_pressed == old(self).mouse_pressed,
            final(self).mouse_released == old(self).mouse_released,
            final(self).gamepads == old(self).gamepads,
            final(self).gamepad_limit == old(self).gamepad_limit,
    {
        self.mouse_position = position;
    }

    /// Check if any gamepad holds the button down.
    pub fn button_down(&self, button: GamepadButton) -> (r: bool)
        ensures
            r == exists|i: int|
                0 <= i < self.gamepads@.len() && (#[trigger] self.gamepads@[i]).down@.contains(
                    button,
                ),
    {
        let mut i: usize = 0;
        while i < self.gamepads.len()
            invariant
                i <= self.gamepads@.len(),
                forall|j: int|
                    0 <= j < i ==> !(#[trigger] self.gamepads@[j]).down@.contains(button),
            decreases self.gamepads@.len() - i,
        {
            if self.gamepads[i].down.contains(&button) {
                return true;
            }
            i = i + 1;
        }
        false
    }

    /// Check if any gamepad had the button pressed this frame.
    pub fn button_pressed(&self, button: GamepadButton) -> (r: bool)
        ensures
            r == exists|i: int|
                0 <= i < self.gamepads@.len() && (#[trigger] self.gamepads@[i]).pressed@.contains(
                    button,
                ),
    {
        let mut i: usize = 0;
        while i < self.gamepads.len()
            invariant
                i <= self.gamepads@.len(),
                forall|j: int|
                    0 <= j < i ==> !(#[trigger] self.gamepads@[j]).pressed@.contains(button),
            decreases self.gamepads@.len() - i,
        {
            if self.gamepads[i].pressed.contains(&button) {
                return true;
            }
            i = i + 1;
        }
        false
    }

    /// Check if any gamepad had the button released this frame.
    pub fn button_released(&self, button: GamepadButton) -> (r: bool)
        ensures
            r == exists|i: int|
                0 <= i < self.gamepads@.len() && (#[trigger] self.gamepads@[i]).released@.contains(
                    button,
                ),
    {
        let mut i: usize = 0;
        while i < self.gamepads.len()
            invariant
                i <= self.gamepads@.len(),
                forall|j: int|
                    0 <= j < i ==> !(#[trigger] self.gamepads@[j]).released@.contains(button),
            decreases self.gamepads@.len() - i,
        {
            if self.gamepads[i].released.contains(&button) {
                return true;
            }
            i = i + 1;
        }
        false
    }

    /// Finds the gamepad with the given guid.  The search deliberately
    /// covers every slot but the last, and hands back `gamepad_limit`
    /// when it finds nothing: both oddities are long-standing behavior
    /// that callers compensate for, kept as they are.
    fn get_gamepad(&self, guid: u32) -> (r: usize)
        ensures
            ({
                let gs = self.gamepads@;
                if exists|i: int| 0 <= i < gs.len() - 1 && (#[trigger] gs[i]).guid == guid {
                    found_gamepad(gs, guid, r as int)
                } else {
                    r == self.gamepad_limit as usize
                }
            }),
    {
        if self.gamepads.len() > 0 {
            let mut i: usize = 0;
            while i < self.gamepads.len() - 1
                invariant
                    self.gamepads@.len() > 0,
                    i <= self.gamepads@.len() - 1,
                    forall|j: int| 0 <= j < i ==> (#[trigger] self.gamepads@[j]).guid != guid,
                decreases self.gamepads@.len() - i,
            {
                if self.gamepads[i].guid == guid {
                    return i;
                }
                i = i + 1;
            }
        }
        self.gamepad_limit as usize
    }

    /// Called when a gamepad is plugged in: a fresh state is appended.
    pub fn do_gamepad_added(&mut self, guid: u32)
        ensures
            final(self).gamepads@.len() == old(self).gamepads@.len() + 1,
            forall|i: int|
                0 <= i < old(self).gamepads@.len() ==> #[trigger] final(self).gamepads@[i] == old(
                    self,
                ).gamepads@[i],
            final(self).gamepads@.last().guid == guid,
            final(self).gamepads@.last().down@ == Set::<GamepadButton>::empty(),
            final(self).gamepads@.last().pressed@ == Set::<GamepadButton>::empty(),
            final(self).gamepads@.last().released@ == Set::<GamepadButton>::empty(),
            final(self).keyboard_down == old(self).keyboard_down,
            final(self).mouse_down == old(self).mouse_down,
            final(self).gamepad_limit == old(self).gamepad_limit,
            final(self).mouse_position == old(self).mouse_position,
    {
        self.gamepads.push(
            Gamepad {
                down: HashSet::new(),
                pressed: HashSet::new(),
                released: HashSet::new(),
                guid,
            },
        );
    }

    /// Called when a gamepad is unplugged: the slot its guid is found in
    /// is dropped (subject to the lookup's last-slot blind spot).
    pub fn do_gamepad_removed(&mut self, guid: u32)
        ensures
            ({
                let gs = old(self).gamepads@;
                let limit = old(self).gamepad_limit as int;
                &&& (forall|i: int|
                    #[trigger] found_gamepad(gs, guid, i) ==> final(self).gamepads@ == gs.remove(
                        i,
                    ))
                &&& ((forall|i: int| !(#[trigger] found_gamepad(gs, guid, i))) ==> (
                if limit < gs.len() {
                    final(self).gamepads@ == gs.remove(limit)
                } else {
                    final(self).gamepads == old(self).gamepads
                }))
            }),
            final(self).keyboard_down == old(self).keyboard_down,
            final(self).mouse_down == old(self).mouse_down,
            final(self).gamepad_limit == old(self).gamepad_limit,
            final(self).mouse_position == old(self).mouse_position,
    {
        let gamepad = self.get_gamepad(guid);
        if gamepad < self.gamepads.len() {
            self.gamepads.remove(gamepad);
        }
    }

    /// Called when a gamepad button goes down on the gamepad with the
    /// given guid (subject to the lookup's oddities: slot zero and the
    /// last slot never receive events).
    pub fn do_gamepad_down(&mut self, guid: u32, button: GamepadButton)
        ensures
            final(self).gamepads@.len() == old(self).gamepads@.len(),
            final(self).keyboard_down == old(self).keyboard_down,
            final(self).mouse_down == old(self).mouse_down,
            final(self).gamepad_limit == old(self).gamepad_limit,
            final(self).mouse_position == old(self).mouse_position,
            ({
                let gs = old(self).gamepads@;
                let limit = old(self).gamepad_limit as int;
                &&& (forall|i: int|
                    #[trigger] found_gamepad(gs, guid, i) ==> (if i != limit {
                        &&& final(self).gamepads@[i].down@ == gs[i].down@.insert(button)
                        &&& final(self).gamepads@[i].pressed@ == gs[i].pressed@.insert(button)
                        &&& final(self).gamepads@[i].released == gs[i].released
                        &&& final(self).gamepads@[i].guid == gs[i].guid
                        &&& forall|j: int|
                            0 <= j < gs.len() && j != i ==> #[trigger] final(self).gamepads@[j]
                                == gs[j]
                    } else {
                        final(self).gamepads == old(self).gamepads
                    }))
                &&& ((forall|i: int| !(#[trigger] found_gamepad(gs, guid, i))) ==> final(self).gamepads == old(self).gamepads)
            }),
    {
        let gamepad = self.get_gamepad(guid);
        if gamepad != self.gamepad_limit as usize {
            self.gamepads[gamepad].down.insert(button);
            self.gamepads[gamepad].pressed.insert(button);
        }
    }

    /// Called when a gamepad button goes up on the gamepad with the given
    /// guid (same oddities as `do_gamepad_down`).
    pub fn do_gamepad_up(&mut self, guid: u32, button: GamepadButton)
        ensures
            final(self).gamepads@.len() == old(self).gamepads@.len(),
            final(self).keyboard_down == old(self).keyboard_down,
            final(self).mouse_down == old(self).mouse_down,
            final(self).gamepad_limit == old(self).gamepad_limit,
            final(self).mouse_position == old(self).mouse_position,
            ({
                let gs = old(self).gamepads@;
                let limit = old(self).gamepad_limit as int;
                &&& (forall|i: int|
                    #[trigger] found_gamepad(gs, guid, i) ==> (if i != limit {
                        &&& final(self).gamepads@[i].down@ == gs[i].down@.remove(button)
                        &&& final(self).gamepads@[i].released@ == gs[i].released@.insert(button)
                        &&& final(self).gamepads@[i].pressed == gs[i].pressed
                        &&& final(self).gamepads@[i].guid == gs[i].guid
                        &&& forall|j: int|
                            0 <= j < gs.len() && j != i ==> #[trigger] final(self).gamepads@[j]
                                == gs[j]
                    } else {
                        final(self).gamepads == old(self).gamepads
                    }))
                &&& ((forall|i: int| !(#[trigger] found_gamepad(gs, guid, i))) ==> final(self).gamepads == old(self).gamepads)
            }),
    {
        let gamepad = self.get_gamepad(guid);
        if gamepad != self.gamepad_limit as usize {
            self.gamepads[gamepad].down.remove(&button);
            self.gamepads[gamepad].released.insert(button);
        }
    }
}

} // verus!
