//! Discrete key state, fed by the window's key events.

use vstd::prelude::*;

verus! {

/// How many physical keys the key table covers.
pub const KEY_COUNT: usize = 350;

/// What a key event reports about the key.
#[derive(Clone, Copy, PartialEq, Eq, Structural, Debug)]
pub enum KeyAction {
    Press,
    Release,
    Repeat,
}

/// What recording a key event does to the key table: a press sets the key,
/// a release clears it, a repeat changes nothing.
pub open spec fn spec_handle_key(keys: Seq<bool>, key: int, action: KeyAction) -> Seq<bool> {
    match action {
        KeyAction::Press => keys.update(key, true),
        KeyAction::Release => keys.update(key, false),
        KeyAction::Repeat => keys,
    }
}

/// The pressed state of every physical key.
#[derive(Debug)]
pub struct KeyListener {
    key_pressed: Vec<bool>,
}

impl View for KeyListener {
    type V = Seq<bool>;

    closed spec fn view(&self) -> Seq<bool> {
        self.key_pressed@
    }
}

impl KeyListener {
    /// Well-formedness: the table covers exactly the key range.
    pub open spec fn wf(&self) -> bool {
        self@.len() == KEY_COUNT
    }

    /// A listener with no key pressed.
    pub fn new() -> (r: KeyListener)
        ensures
            r.wf(),
            forall|k: int| 0 <= k < KEY_COUNT ==> !r@[k],
    {
        KeyListener { key_pressed: vec![false; KEY_COUNT] }
    }

    /// Record a key event. A key outside the table is a programming error;
    /// callers keep keys in range.
    pub fn handle_key_callback(&mut self, key: usize, action: KeyAction)
        requires
            old(self).wf(),
            key < KEY_COUNT,
        ensures
            final(self).wf(),
            final(self)@ == spec_handle_key(old(self)@, key as int, action),
    {
        match action {
            KeyAction::Press => {
                self.key_pressed.set(key, true);
            },
            KeyAction::Release => {
                self.key_pressed.set(key, false);
            },
            KeyAction::Repeat => {},
        }
    }

    /// Whether the key is currently held down.
    pub fn is_key_pressed(&self, key: usize) -> (r: bool)
        requires
            self.wf(),
            key < KEY_COUNT,
        ensures
            r == self@[key as int],
    {
        self.key_pressed[key]
    }
}

} // verus!
