use vstd::prelude::*;

verus! {

/// Number of keys on the pad.
pub const NUM_KEYS: usize = 16;

/// The state of one key.
#[derive(Copy, Clone, PartialEq, Eq, Debug, Structural)]
pub enum Key {
    Pressed,
    Released,
}

/// Failure of a key access.
#[derive(Debug, Clone, Copy, PartialEq, Eq, Structural)]
pub enum KeyboardError {
    KeyOutOfBounds,
}

/// The lowest-numbered pressed key at position `i` or above, scanning
/// upward through key 0xF.
pub open spec fn lowest_pressed_from(keys: Seq<Key>, i: int) -> Option<u8>
    decreases 16 - i,
{
    if i < 0 || i >= 16 {
        None
    } else if keys[i] == Key::Pressed {
        Some(i as u8)
    } else {
        lowest_pressed_from(keys, i + 1)
    }
}

/// The lowest-numbered pressed key, if any.
pub open spec fn lowest_pressed(keys: Seq<Key>) -> Option<u8> {
    lowest_pressed_from(keys, 0)
}

/// What the scan returns: the first pressed key at or after `i`, with
/// every key between `i` and it released; or nothing, with every key
/// from `i` up released.
pub proof fn lemma_lowest_pressed_from(keys: Seq<Key>, i: int)
    requires
        keys.len() == 16,
        0 <= i <= 16,
    ensures
        match lowest_pressed_from(keys, i) {
            Some(k) => i <= k < 16 && keys[k as int] == Key::Pressed && forall|j: int|
                i <= j < k ==> keys[j] != Key::Pressed,
            None => forall|j: int| i <= j < 16 ==> keys[j] != Key::Pressed,
        },
    decreases 16 - i,
{
    if i < 16 {
        if keys[i] != Key::Pressed {
            lemma_lowest_pressed_from(keys, i + 1);
        }
    }
}

/// Latch of 16 pressed/released key states, addressed 0x0-0xF, written
/// by the external input source and read by the machine.
pub struct Keyboard {
    keys: Vec<Key>,
}

impl View for Keyboard {
    type V = Seq<Key>;

    /// The 16 key states, in key order.
    closed spec fn view(&self) -> Seq<Key> {
        self.keys@
    }
}

impl Keyboard {
    /// All sixteen keys hold a state.
    pub open spec fn wf(&self) -> bool {
        self@.len() == NUM_KEYS
    }

    /// A keyboard with every key released.
    pub fn new() -> (r: Keyboard)
        ensures
            r.wf(),
            r@ == Seq::new(16, |i: int| Key::Released),
    {
        let keys: Vec<Key> = vec![Key::Released; 16];
        let r = Keyboard { keys };
        proof {
            assert(r@ =~= Seq::new(16, |i: int| Key::Released));
        }
        r
    }

    /// Latches `key` as pressed; rejects key numbers above 0xF.
    pub fn _press_key(&mut self, key: u8) -> (r: Result<(), KeyboardError>)
        requires
            old(self).wf(),
        ensures
            final(self).wf(),
            key < 16 ==> r == Ok::<(), KeyboardError>(()) && final(self)@ == old(self)@.update(
                key as int,
                Key::Pressed,
            ),
            key >= 16 ==> r == Err::<(), KeyboardError>(KeyboardError::KeyOutOfBounds) && final(self)@
                == old(self)@,
    {
        if (key as usize) < NUM_KEYS {
            self.keys[key as usize] = Key::Pressed;
            Ok(())
        } else {
            Err(KeyboardError::KeyOutOfBounds)
        }
    }

    /// Latches `key` as released; rejects key numbers above 0xF.
    pub fn _release_key(&mut self, key: u8) -> (r: Result<(), KeyboardError>)
        requires
            old(self).wf(),
        ensures
            final(self).wf(),
            key < 16 ==> r == Ok::<(), KeyboardError>(()) && final(self)@ == old(self)@.update(
                key as int,
                Key::Released,
            ),
            key >= 16 ==> r == Err::<(), KeyboardError>(KeyboardError::KeyOutOfBounds) && final(self)@
                == old(self)@,
    {
        if (key as usize) < NUM_KEYS {
            self.keys[key as usize] = Key::Released;
            Ok(())
        } else {
            Err(KeyboardError::KeyOutOfBounds)
        }
    }

    /// Whether `key` is latched as pressed; rejects key numbers above
    /// 0xF.
    pub fn is_key_pressed(&self, key: u8) -> (r: Result<bool, KeyboardError>)
        requires
            self.wf(),
        ensures
            key < 16 ==> r == Ok::<bool, KeyboardError>(self@[key as int] == Key::Pressed),
            key >= 16 ==> r == Err::<bool, KeyboardError>(KeyboardError::KeyOutOfBounds),
    {
        if (key as usize) < NUM_KEYS {
            Ok(self.keys[key as usize] == Key::Pressed)
        } else {
            Err(KeyboardError::KeyOutOfBounds)
        }
    }

    /// The lowest-numbered key latched as pressed, if any, scanning 0
    /// up to 0xF.
    pub fn get_pressed_key(&self) -> (r: Option<u8>)
        requires
            self.wf(),
        ensures
            match r {
                Some(key) => key < 16 && self@[key as int] == Key::Pressed && forall|j: int|
                    0 <= j < key ==> self@[j] != Key::Pressed,
                None => forall|j: int| 0 <= j < 16 ==> self@[j] != Key::Pressed,
            },
    {
        let mut i: usize = 0;
        while i < NUM_KEYS
            invariant
                self.wf(),
                i <= 16,
                forall|j: int| 0 <= j < i ==> self@[j] != Key::Pressed,
            decreases 16 - i,
        {
            if self.keys[i] == Key::Pressed {
                return Some(i as u8);
            }
            i = i + 1;
        }
        None
    }
}

} // verus!
