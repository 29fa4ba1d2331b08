//! The steps of a frame that work on the letters and sparks alone.

use vstd::prelude::*;
use crate::entities::{Letter, Particle, UNIT};
use crate::levels::Level;
use crate::model::{
    aged, drawn_letter, fallen, letter_added, lost, spawn_x, survivors, SPAWN_MARGIN, X_MAX, X_MIN,
};
use crate::random::random_u64;

verus! {

/// Filtering a sequence with one more element keeps or drops that element
/// and leaves what was kept of the others.
proof fn lemma_filter_push<A>(s: Seq<A>, x: A, pred: spec_fn(A) -> bool)
    ensures
        s.push(x).filter(pred) == if pred(x) {
            s.filter(pred).push(x)
        } else {
            s.filter(pred)
        },
{
    reveal(Seq::filter);
    assert(s.push(x).drop_last() =~= s);
}

/// The character that a drawn number picks from a pool.
pub fn pick_letter(pool: &Vec<char>, draw: u64) -> (character: char)
    requires
        pool@.len() > 0,
    ensures
        character == pool@[(draw as int) % (pool@.len() as int)],
{
    let len: u64 = pool.len() as u64;
    pool[(draw % len) as usize]
}

/// The place that a drawn number gives a new letter on a screen
/// `screen_width` units wide.
pub fn place_letter(screen_width: u32, draw: u64) -> (x: i64)
    ensures
        x == spawn_x(screen_width, draw),
        X_MIN <= x <= X_MAX,
{
    let span: i64 = (screen_width as i64 - 2 * (SPAWN_MARGIN as i64)) * UNIT;
    if span > 0 {
        (SPAWN_MARGIN as i64) * UNIT + (draw % (span as u64)) as i64
    } else if span < 0 {
        (SPAWN_MARGIN as i64) * UNIT - (draw % ((-span) as u64)) as i64
    } else {
        (SPAWN_MARGIN as i64) * UNIT
    }
}

/// Puts a new letter of `level` on a screen `screen_width` units wide: a
/// character of the level's pool, drawn at random, at a place drawn at
/// random, with the level's speed. Nothing happens if the pool is empty.
pub fn spawn_letter(letters: &mut Vec<Letter>, level: &Level, screen_width: u32)
    requires
        level@.letters.len() > 0 ==> level@.fall_speed * 1000 <= u64::MAX,
    ensures
        letter_added(old(letters)@, level@, screen_width, final(letters)@),
{
    if level.letters.len() == 0 {
        return;
    }
    let pick: u64 = random_u64();
    let place: u64 = random_u64();
    let character = pick_letter(&level.letters, pick);
    let x = place_letter(screen_width, place);
    let speed: u64 = (level.fall_speed * 1000) as u64;
    let letter = Letter::new(character, x, speed);
    assert(letter == drawn_letter(level@, screen_width, pick, place));
    letters.push(letter);
}

/// Lets every letter fall for `delta` milliseconds.
pub fn advance_letters(letters: &mut Vec<Letter>, delta: u32)
    requires
        forall|i: int|
            0 <= i < old(letters)@.len() ==> (#[trigger] old(letters)@[i]).can_advance(delta),
    ensures
        final(letters)@ == fallen(old(letters)@, delta),
{
    let ghost before = letters@;
    let mut i: usize = 0;
    while i < letters.len()
        invariant
            i <= letters@.len(),
            letters@.len() == before.len(),
            forall|j: int| 0 <= j < i ==> #[trigger] letters@[j] == before[j].advanced(delta),
            forall|j: int| i <= j < before.len() ==> #[trigger] letters@[j] == before[j],
            forall|j: int| 0 <= j < before.len() ==> (#[trigger] before[j]).can_advance(delta),
        decreases letters@.len() - i,
    {
        let mut letter = letters[i];
        letter.update(delta);
        letters[i] = letter;
        i = i + 1;
    }
    assert(letters@ =~= fallen(before, delta));
}

/// Removes the letters that have sunk past the bottom of a screen
/// `screen_height` units high, keeps the others in their order, and tells
/// how many were removed.
pub fn remove_lost(letters: &mut Vec<Letter>, screen_height: u32) -> (misses: usize)
    ensures
        final(letters)@ == survivors(old(letters)@, screen_height),
        misses == lost(old(letters)@, screen_height),
{
    let ghost before = letters@;
    let ghost keep = |l: Letter| !l.passed_bottom(screen_height);
    let mut kept: Vec<Letter> = Vec::new();
    let mut i: usize = 0;
    assert(before.take(0) =~= Seq::<Letter>::empty());
    while i < letters.len()
        invariant
            i <= letters@.len(),
            letters@ == before,
            keep == |l: Letter| !l.passed_bottom(screen_height),
            kept@ == before.take(i as int).filter(keep),
            kept@.len() <= i,
        decreases letters@.len() - i,
    {
        proof {
            lemma_filter_push(before.take(i as int), before[i as int], keep);
            assert(before.take(i as int + 1) =~= before.take(i as int).push(before[i as int]));
        }
        if !letters[i].is_off_screen(screen_height) {
            kept.push(letters[i]);
        }
        i = i + 1;
    }
    assert(before.take(before.len() as int) =~= before);
    let misses: usize = letters.len() - kept.len();
    *letters = kept;
    misses
}

/// Moves every spark for `delta` milliseconds and removes those that have
/// burnt out, keeping the others in their order.
pub fn age_particles(particles: &mut Vec<Particle>, delta: u32)
    requires
        forall|i: int|
            0 <= i < old(particles)@.len() ==> (#[trigger] old(particles)@[i]).can_advance(delta),
    ensures
        final(particles)@ == aged(old(particles)@, delta),
{
    let ghost before = particles@;
    let ghost moved = before.map_values(|p: Particle| p.advanced(delta));
    let ghost alive = |p: Particle| !p.expired();
    let mut kept: Vec<Particle> = Vec::new();
    let mut i: usize = 0;
    assert(moved.take(0) =~= Seq::<Particle>::empty());
    while i < particles.len()
        invariant
            i <= particles@.len(),
            particles@ == before,
            moved == before.map_values(|p: Particle| p.advanced(delta)),
            alive == |p: Particle| !p.expired(),
            kept@ == moved.take(i as int).filter(alive),
            forall|j: int| 0 <= j < before.len() ==> (#[trigger] before[j]).can_advance(delta),
        decreases particles@.len() - i,
    {
        proof {
            lemma_filter_push(moved.take(i as int), moved[i as int], alive);
            assert(moved.take(i as int + 1) =~= moved.take(i as int).push(moved[i as int]));
        }
        let mut particle = particles[i];
        particle.update(delta);
        if !particle.is_dead() {
            kept.push(particle);
        }
        i = i + 1;
    }
    assert(moved.take(moved.len() as int) =~= moved);
    *particles = kept;
}

} // verus!
