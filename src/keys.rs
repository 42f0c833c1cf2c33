//! Held keys and the active interaction mode.
use vstd::prelude::*;

verus! {

/// A physical key, as far as the controls tell keys apart.
#[derive(Clone, Copy, Debug, PartialEq, Eq, Structural)]
pub enum Key {
    KeyD,
    KeyE,
    KeyP,
    KeyS,
    KeyW,
    KeyX,
    KeyZ,
    Digit1,
    Digit2,
    Digit3,
    ArrowUp,
    ArrowDown,
    ArrowLeft,
    ArrowRight,
    ShiftLeft,
    /// Any other key, by a code that the window layer gives it.
    Other(u32),
}

/// The interaction modes; exactly one is active at a time.
#[allow(non_camel_case_types)]
#[derive(Clone, Copy, Debug, PartialEq, Eq, Structural)]
pub enum KeyboardMode {
    DEBUG,
    VIEW,
    TERRAIN,
    RAY,
    PRINT,
}

/// The set of held keys (membership only) and the active mode.
#[derive(Debug)]
pub struct KeyboardState {
    keys: Vec<Key>,
    mode: KeyboardMode,
}

impl KeyboardState {
    /// The keys held now.
    pub closed spec fn held(&self) -> Set<Key> {
        self.keys@.to_set()
    }

    /// The active mode.
    pub closed spec fn mode(&self) -> KeyboardMode {
        self.mode
    }

    /// Each held key is recorded once.
    pub closed spec fn wf(&self) -> bool {
        self.keys@.no_duplicates()
    }

    /// No key held, mode PRINT.
    pub fn new() -> (r: KeyboardState)
        ensures
            r.wf(),
            r.held() == Set::<Key>::empty(),
            r.mode() == KeyboardMode::PRINT,
    {
        let r = KeyboardState { keys: Vec::new(), mode: KeyboardMode::PRINT };
        assert(r.keys@.to_set() =~= Set::<Key>::empty());
        r
    }

    /// Where `key` stands in the held list, if it is held.
    fn find_key(&self, key: Key) -> (r: Option<usize>)
        ensures
            r matches Some(i) ==> i < self.keys@.len() && self.keys@[i as int] == key,
            r is None ==> !self.keys@.contains(key),
    {
        let mut i: usize = 0;
        while i < self.keys.len()
            invariant
                i <= self.keys@.len(),
                forall|j: int| 0 <= j < i ==> self.keys@[j] != key,
            decreases self.keys@.len() - i,
        {
            if self.keys[i] == key {
                return Some(i);
            }
            i = i + 1;
        }
        None
    }

    /// Whether `key` is held.
    pub fn key_pressed(&self, key: Key) -> (r: bool)
        ensures
            r == self.held().contains(key),
    {
        match self.find_key(key) {
            Some(i) => {
                assert(self.keys@[i as int] == key);
                true
            },
            None => false,
        }
    }

    /// Records a key event: a press adds the key to the held set, a release
    /// takes it out.
    pub fn handle_keyboard_input(&mut self, key: Key, pressed: bool)
        requires
            old(self).wf(),
        ensures
            final(self).wf(),
            final(self).held() == if pressed {
                old(self).held().insert(key)
            } else {
                old(self).held().remove(key)
            },
            final(self).mode() == old(self).mode(),
    {
        let ghost before = self.keys@;
        let found = self.find_key(key);
        if let Some(i) = found {
            if !pressed {
                self.keys.remove(i);
                assert(self.keys@.to_set() =~= before.to_set().remove(key)) by {
                    assert(forall|j: int| 0 <= j < before.len() && j != i ==> before[j] != key) by {
                        assert(before.no_duplicates());
                    }
                    assert forall|k: Key| before.contains(k) && k != key implies self.keys@.contains(
                        k,
                    ) by {
                        let j = choose|j: int| 0 <= j < before.len() && before[j] == k;
                        if j < i {
                            assert(self.keys@[j] == k);
                        } else {
                            assert(self.keys@[j - 1] == k);
                        }
                    }
                }
            } else {
                assert(before.to_set().insert(key) =~= before.to_set());
            }
        } else {
            assert(!before.contains(key));
            if pressed {
                self.keys.push(key);
                assert(self.keys@.to_set() =~= before.to_set().insert(key)) by {
                    assert(self.keys@.last() == key);
                    assert forall|k: Key| before.contains(k) implies self.keys@.contains(k) by {
                        let j = choose|j: int| 0 <= j < before.len() && before[j] == k;
                        assert(self.keys@[j] == k);
                    }
                }
            } else {
                assert(before.to_set().remove(key) =~= before.to_set());
            }
        }
    }

    /// Forgets every held key; the mode stays.
    pub fn clear_keys(&mut self)
        ensures
            final(self).wf(),
            final(self).held() == Set::<Key>::empty(),
            final(self).mode() == old(self).mode(),
    {
        self.keys.clear();
        assert(self.keys@.to_set() =~= Set::<Key>::empty());
    }

    /// The held keys, each once.
    pub fn get_keys(&self) -> (r: &Vec<Key>)
        requires
            self.wf(),
        ensures
            r@.to_set() == self.held(),
            r@.no_duplicates(),
    {
        &self.keys
    }

    /// The active mode.
    pub fn get_mode(&self) -> (r: KeyboardMode)
        ensures
            r == self.mode(),
    {
        self.mode
    }

    /// Makes `new_mode` the active mode; the held keys stay.
    pub fn set_mode(&mut self, new_mode: KeyboardMode)
        ensures
            final(self).wf() == old(self).wf(),
            final(self).held() == old(self).held(),
            final(self).mode() == new_mode,
    {
        self.mode = new_mode;
    }
}

} // verus!
