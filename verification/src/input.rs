//! What the host reports to the game for one frame.

use vstd::prelude::*;

verus! {

/// The number of character keys the game listens to.
pub const KEY_COUNT: usize = 27;

/// The character keys, in the order in which presses of one frame are resolved.
pub const KEYS: [char; 27] = [
    'A', 'B', 'C', 'D', 'E', 'F', 'G', 'H', 'I',
    'J', 'K', 'L', 'M', 'N', 'O', 'P', 'Q', 'R',
    'S', 'T', 'U', 'V', 'W', 'X', 'Y', 'Z', ';',
];

/// One frame as the host saw it: the time since the last frame in
/// milliseconds, the size of the screen in units, and what was pressed
/// since then: a confirmation, a retry, the menu key, and the character
/// keys, where `keys[i]` tells whether the key of `KEYS[i]` went down.
#[derive(Clone, Copy, Debug)]
pub struct Frame {
    pub delta: u32,
    pub screen_width: u32,
    pub screen_height: u32,
    pub confirm: bool,
    pub retry: bool,
    pub menu: bool,
    pub keys: [bool; 27],
}

/// How many of the first `n` keys are pressed.
pub open spec fn pressed(keys: Seq<bool>, n: int) -> nat
    decreases n,
{
    if n <= 0 {
        0
    } else if keys[n - 1] {
        pressed(keys, n - 1) + 1
    } else {
        pressed(keys, n - 1)
    }
}

impl Frame {
    /// A frame in which `delta` milliseconds passed and no key was pressed.
    pub fn idle(delta: u32, screen_width: u32, screen_height: u32) -> (frame: Frame)
        ensures
            frame.delta == delta,
            frame.screen_width == screen_width,
            frame.screen_height == screen_height,
            !frame.confirm && !frame.retry && !frame.menu,
            forall|i: int| 0 <= i < KEY_COUNT ==> !frame.keys@[i],
            pressed(frame.keys@, KEY_COUNT as int) == 0,
    {
        let frame = Frame {
            delta,
            screen_width,
            screen_height,
            confirm: false,
            retry: false,
            menu: false,
            keys: [false; 27],
        };
        proof {
            lemma_pressed_none(frame.keys@, KEY_COUNT as int);
        }
        frame
    }

    /// How many keys are pressed in this frame.
    pub fn pressed_count(&self) -> (n: usize)
        ensures
            n == pressed(self.keys@, KEY_COUNT as int),
            n <= KEY_COUNT,
    {
        let mut n: usize = 0;
        let mut i: usize = 0;
        while i < KEY_COUNT
            invariant
                i <= KEY_COUNT,
                n == pressed(self.keys@, i as int),
                n <= i,
            decreases KEY_COUNT - i,
        {
            if self.keys[i] {
                n = n + 1;
            }
            i = i + 1;
        }
        n
    }

    /// The position of `character` in `KEYS`, if the game listens to it.
    pub fn key_index(character: char) -> (index: Option<usize>)
        ensures
            match index {
                Some(i) => i < KEY_COUNT && KEYS@[i as int] == character,
                None => forall|i: int| 0 <= i < KEY_COUNT ==> KEYS@[i] != character,
            },
    {
        let mut i: usize = 0;
        while i < KEY_COUNT
            invariant
                i <= KEY_COUNT,
                forall|j: int| 0 <= j < i ==> KEYS@[j] != character,
            decreases KEY_COUNT - i,
        {
            if KEYS[i] == character {
                return Some(i);
            }
            i = i + 1;
        }
        None
    }

    /// Marks the key of `character` as pressed and tells whether the game
    /// listens to that character; the frame stays as it is if not.
    pub fn press(&mut self, character: char) -> (known: bool)
        ensures
            known == exists|i: int| 0 <= i < KEY_COUNT && KEYS@[i] == character,
            known ==> exists|i: int|
                0 <= i < KEY_COUNT && KEYS@[i] == character && final(self).keys@ == old(
                    self,
                ).keys@.update(i, true),
            !known ==> final(self).keys@ == old(self).keys@,
            final(self).delta == old(self).delta,
            final(self).screen_width == old(self).screen_width,
            final(self).screen_height == old(self).screen_height,
            final(self).confirm == old(self).confirm,
            final(self).retry == old(self).retry,
            final(self).menu == old(self).menu,
    {
        match Frame::key_index(character) {
            Some(i) => {
                self.keys[i] = true;
                true
            },
            None => false,
        }
    }
}

/// Where no key among the first `n` is pressed, none is counted.
pub proof fn lemma_pressed_none(keys: Seq<bool>, n: int)
    requires
        forall|i: int| 0 <= i < n ==> !keys[i],
    ensures
        pressed(keys, n) == 0,
    decreases n,
{
    if n > 0 {
        lemma_pressed_none(keys, n - 1);
    }
}

/// The count grows with the keys looked at, by one where a pressed key is added.
pub proof fn lemma_pressed_step(keys: Seq<bool>, i: int, n: int)
    requires
        0 <= i < n,
    ensures
        pressed(keys, i + 1) == pressed(keys, i) + (if keys[i] { 1nat } else { 0nat }),
        pressed(keys, i + 1) <= pressed(keys, n),
    decreases n - i,
{
    if i + 1 < n {
        lemma_pressed_step(keys, i + 1, n);
    }
}

} // verus!
