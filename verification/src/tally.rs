//! Counts per character.

use std::collections::HashMap;
use vstd::prelude::*;
use crate::model::{bumped, tally};

verus! {

/// How often each character was counted. The view has an entry for each
/// character counted at least once.
pub struct Tally {
    counts: HashMap<u32, u32>,
}

impl View for Tally {
    type V = Map<char, nat>;

    closed spec fn view(&self) -> Map<char, nat> {
        Map::new(
            |c: char| self.counts@.contains_key(c as u32),
            |c: char| self.counts@[c as u32] as nat,
        )
    }
}

/// The code of a character, as a 32-bit number, is the character's own value.
proof fn lemma_char_code(c: char)
    ensures
        c as u32 as int == c as int,
{
}

impl Tally {
    /// A tally that has counted nothing.
    pub fn new() -> (t: Tally)
        ensures
            t@ == Map::<char, nat>::empty(),
    {
        let t = Tally { counts: HashMap::new() };
        assert(t@ =~= Map::<char, nat>::empty());
        t
    }

    /// Forgets every count.
    pub fn clear(&mut self)
        ensures
            final(self)@ == Map::<char, nat>::empty(),
    {
        self.counts.clear();
        assert(self@ =~= Map::<char, nat>::empty());
    }

    /// How often `character` was counted.
    pub fn count(&self, character: char) -> (n: u32)
        ensures
            n == tally(self@, character),
    {
        let key: u32 = character as u32;
        match self.counts.get(&key) {
            Some(n) => *n,
            None => 0,
        }
    }

    /// Counts `character` once more.
    pub fn bump(&mut self, character: char)
        requires
            tally(old(self)@, character) < u32::MAX,
        ensures
            final(self)@ == bumped(old(self)@, character),
    {
        let n: u32 = self.count(character);
        let key: u32 = character as u32;
        self.counts.insert(key, n + 1);
        let ghost target = bumped(old(self)@, character);
        proof {
            lemma_char_code(character);
        }
        assert forall|c: char| #[trigger] self@.contains_key(c) == target.contains_key(c) by {
            lemma_char_code(c);
        }
        assert forall|c: char| self@.contains_key(c) implies #[trigger] self@[c] == target[c] by {
            lemma_char_code(c);
        }
        assert(self@ =~= target);
    }
}

} // verus!
