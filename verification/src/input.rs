use vstd::prelude::*;

verus! {

/// The keys that the editor's selection and deletion shortcuts read.
#[derive(Clone, Copy, Debug, PartialEq, Eq, Structural)]
pub enum KeyCode {
    ShiftLeft,
    ShiftRight,
    ControlLeft,
    ControlRight,
    Backspace,
    Delete,
}

/// The state of the keyboard in one frame: the keys held down, and the keys that went
/// down in this frame.
pub struct KeyboardState {
    pub pressed: Vec<KeyCode>,
    pub just_pressed: Vec<KeyCode>,
}

/// Whether `key` is one of `keys`.
pub fn key_in(keys: &Vec<KeyCode>, key: KeyCode) -> (found: bool)
    ensures
        found == keys@.contains(key),
{
    let mut i: usize = 0;
    while i < keys.len()
        invariant
            i <= keys.len(),
            forall|j: int| 0 <= j < i ==> keys@[j] != key,
        decreases keys.len() - i,
    {
        if keys[i] == key {
            assert(keys@[i as int] == key);
            return true;
        }
        i = i + 1;
    }
    false
}

impl KeyboardState {
    /// Whether `key` is held down.
    pub fn pressed(&self, key: KeyCode) -> (down: bool)
        ensures
            down == self.pressed@.contains(key),
    {
        key_in(&self.pressed, key)
    }

    /// Whether either of two keys is held down.
    pub fn any_pressed(&self, a: KeyCode, b: KeyCode) -> (down: bool)
        ensures
            down == (self.pressed@.contains(a) || self.pressed@.contains(b)),
    {
        key_in(&self.pressed, a) || key_in(&self.pressed, b)
    }

    /// Whether either of two keys went down in this frame.
    pub fn any_just_pressed(&self, a: KeyCode, b: KeyCode) -> (down: bool)
        ensures
            down == (self.just_pressed@.contains(a) || self.just_pressed@.contains(b)),
    {
        key_in(&self.just_pressed, a) || key_in(&self.just_pressed, b)
    }
}

} // verus!
