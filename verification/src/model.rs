//! The game as a mathematical value, and what each step of a frame does to it.

use vstd::prelude::*;
use crate::color::{ground_flash, hit_flash, miss_flash, no_flash, Color};
use crate::entities::{Letter, Particle, STARTING_LIVES, UNIT};
use crate::input::{Frame, KEYS, KEY_COUNT};
use crate::levels::{level_at, LevelView, FIXED_LEVELS};
use crate::scoring::{penalized, points};

verus! {

/// The phase the game is in.
#[derive(Clone, Copy, Debug, PartialEq, Eq, Structural)]
pub enum GameState {
    Menu,
    Playing,
    LevelComplete,
    GameOver,
}

/// How near a screen edge, in units, a letter may be spawned.
pub const SPAWN_MARGIN: u32 = 60;

/// Sparks thrown off by one destroyed letter.
pub const BURST_SIZE: usize = 15;

/// The screen shake right after a hit, in thousandths.
pub const SHAKE_ON_HIT: u32 = 2000;

/// Thousandths of shake that fade per millisecond.
pub const SHAKE_DECAY: u32 = 5;

/// How long a flash is set to last, in milliseconds.
pub const FLASH_TIME: u32 = 200;

/// Milliseconds of flash that fade per millisecond of game time.
pub const FLASH_DECAY: u32 = 3;

/// The leftmost position a letter can be spawned at.
pub const X_MIN: i64 = -60_000_000;

/// The rightmost position a letter can be spawned at.
pub const X_MAX: i64 = 4_294_967_296_000_000;

/// The lowest position a letter can be left at when a frame is over.
pub const Y_REST: i64 = 4_294_967_345_000_000;

/// The lowest position a letter can reach in the middle of a frame.
pub const Y_FALL: i64 = 5_153_960_804_000_000;

/// The highest speed of a letter, in micro-units per millisecond.
pub const SPEED_MAX: u64 = 200_000;

/// The game as plain values. Times are in milliseconds, the screen shake in
/// thousandths; a tally has an entry for each character counted at least once.
pub struct GameView {
    pub state: GameState,
    pub player_x: int,
    pub player_y: int,
    pub lives: int,
    pub max_lives: int,
    pub letters: Seq<Letter>,
    pub particles: Seq<Particle>,
    pub current_level: nat,
    pub level: LevelView,
    pub score: nat,
    pub combo: nat,
    pub correct_count: nat,
    pub total_count: nat,
    pub spawn_timer: nat,
    pub level_timer: nat,
    pub screen_shake: nat,
    pub typed_letters: Map<char, nat>,
    pub errors: Map<char, nat>,
    pub flash_timer: nat,
    pub flash_color: Color,
}

/// How often `character` is counted in a tally.
pub open spec fn tally(counts: Map<char, nat>, character: char) -> nat {
    if counts.contains_key(character) {
        counts[character]
    } else {
        0
    }
}

/// The tally with one more count for `character`.
pub open spec fn bumped(counts: Map<char, nat>, character: char) -> Map<char, nat> {
    counts.insert(character, tally(counts, character) + 1)
}

/// `amount` less `decay` for each of `delta` milliseconds, but not below zero.
pub open spec fn decayed(amount: nat, decay: nat, delta: nat) -> nat {
    if amount >= decay * delta {
        (amount - decay * delta) as nat
    } else {
        0
    }
}

/// How opaque the flash is drawn: it fades from full strength to nothing
/// over the time it is set for, and is never more opaque than its colour.
pub open spec fn flash_intensity(timer: nat, color: Color) -> nat {
    let faded = timer * 255 * 5 / 1000;
    if faded <= color.a {
        faded
    } else {
        color.a as nat
    }
}

/// The time left on the level clock: none once the level's time is up,
/// and no number at all on a level that never ends.
pub open spec fn time_left(v: GameView) -> Option<nat> {
    match v.level.duration {
        Some(d) => if v.level_timer <= d {
            Some((d - v.level_timer) as nat)
        } else {
            Some(0nat)
        },
        None => None,
    }
}

/// The game before the first session: the menu, on the first level.
pub open spec fn initial() -> GameView {
    GameView {
        state: GameState::Menu,
        player_x: 400 * UNIT,
        player_y: 550 * UNIT,
        lives: STARTING_LIVES as int,
        max_lives: STARTING_LIVES as int,
        letters: Seq::empty(),
        particles: Seq::empty(),
        current_level: 0,
        level: level_at(0),
        score: 0,
        combo: 0,
        correct_count: 0,
        total_count: 0,
        spawn_timer: 0,
        level_timer: 0,
        screen_shake: 0,
        typed_letters: Map::empty(),
        errors: Map::empty(),
        flash_timer: 0,
        flash_color: no_flash(),
    }
}

/// A fresh session on the current level: all lives, no letters or sparks,
/// counters, tallies and timers at zero.
pub open spec fn started(v: GameView) -> GameView {
    GameView {
        state: GameState::Playing,
        lives: v.max_lives,
        letters: Seq::empty(),
        particles: Seq::empty(),
        score: 0,
        combo: 0,
        correct_count: 0,
        total_count: 0,
        spawn_timer: 0,
        level_timer: 0,
        flash_timer: 0,
        typed_letters: Map::empty(),
        errors: Map::empty(),
        ..v
    }
}

/// The level that follows `current`: the next one, but never past the last fixed level.
pub open spec fn next_level(current: nat) -> nat {
    if current + 1 >= FIXED_LEVELS {
        (FIXED_LEVELS - 1) as nat
    } else {
        current + 1
    }
}

/// The game moved to the level after the current one.
pub open spec fn promoted(v: GameView) -> GameView {
    GameView {
        current_level: next_level(v.current_level),
        level: level_at(next_level(v.current_level)),
        ..v
    }
}

/// Step one of a frame: both clocks run on by `delta`, shake and flash fade.
pub open spec fn ticked(v: GameView, delta: u32) -> GameView {
    GameView {
        level_timer: v.level_timer + delta as nat,
        spawn_timer: v.spawn_timer + delta as nat,
        screen_shake: decayed(v.screen_shake, SHAKE_DECAY as nat, delta as nat),
        flash_timer: decayed(v.flash_timer, FLASH_DECAY as nat, delta as nat),
        ..v
    }
}

/// Whether the next letter is due.
pub open spec fn spawn_due(v: GameView) -> bool {
    v.spawn_timer >= v.level.spawn_rate
}

/// Where a drawn number puts a new letter on a screen `screen_width` units
/// wide: between the margins, from the left margin towards the right one.
/// On a screen narrower than both margins the two change sides.
pub open spec fn spawn_x(screen_width: u32, draw: u64) -> int {
    let span = (screen_width - 2 * SPAWN_MARGIN) * UNIT;
    if span > 0 {
        SPAWN_MARGIN * UNIT + draw % (span as u64)
    } else if span < 0 {
        SPAWN_MARGIN * UNIT - draw % ((-span) as u64)
    } else {
        SPAWN_MARGIN * UNIT
    }
}

/// The letter that two drawn numbers give: one picks the character from the
/// pool of the level, the other the place.
pub open spec fn drawn_letter(level: LevelView, screen_width: u32, pick: u64, place: u64) -> Letter
    recommends
        level.letters.len() > 0,
{
    Letter::spawned(
        level.letters[(pick as int) % (level.letters.len() as int)],
        spawn_x(screen_width, place) as i64,
        (level.fall_speed * 1000) as u64,
    )
}

/// What spawning a letter does to the letters on screen: unless the pool
/// of the level is empty, some letter of the pool joins them at some place
/// between the margins.
pub open spec fn letter_added(
    pre: Seq<Letter>,
    level: LevelView,
    screen_width: u32,
    post: Seq<Letter>,
) -> bool {
    if level.letters.len() == 0 {
        post == pre
    } else {
        exists|pick: u64, place: u64|
            post == pre.push(#[trigger] drawn_letter(level, screen_width, pick, place))
    }
}

/// What spawning a letter does to the game: it adds a letter of the
/// current level, and nothing else.
pub open spec fn letter_spawned(pre: GameView, screen_width: u32, post: GameView) -> bool {
    &&& letter_added(pre.letters, pre.level, screen_width, post.letters)
    &&& post == (GameView { letters: post.letters, ..pre })
}

/// Step two of a frame. Nothing happens before the letter is due. Then a
/// letter is spawned and the spawn clock starts over.
pub open spec fn spawn_outcome(pre: GameView, screen_width: u32, post: GameView) -> bool {
    if !spawn_due(pre) {
        post == pre
    } else {
        &&& post.spawn_timer == 0
        &&& letter_spawned(pre, screen_width, GameView { spawn_timer: pre.spawn_timer, ..post })
    }
}

/// Every letter after falling for `delta` milliseconds.
pub open spec fn fallen(letters: Seq<Letter>, delta: u32) -> Seq<Letter> {
    letters.map_values(|l: Letter| l.advanced(delta))
}

/// Step three of a frame: the letters fall.
pub open spec fn letters_fallen(v: GameView, delta: u32) -> GameView {
    GameView { letters: fallen(v.letters, delta), ..v }
}

/// The letters that have not sunk past the bottom, in their order.
pub open spec fn survivors(letters: Seq<Letter>, screen_height: u32) -> Seq<Letter> {
    letters.filter(|l: Letter| !l.passed_bottom(screen_height))
}

/// How many letters have sunk past the bottom.
pub open spec fn lost(letters: Seq<Letter>, screen_height: u32) -> nat {
    (letters.len() - survivors(letters, screen_height).len()) as nat
}

/// The game after `misses` letters reached the ground, one after the other:
/// each costs a life, the combo is gone, the screen flashes, and the game is
/// over once no life is left.
pub open spec fn after_ground_misses(v: GameView, misses: nat) -> GameView {
    if misses == 0 {
        v
    } else {
        GameView {
            lives: v.lives - misses,
            combo: 0,
            flash_timer: FLASH_TIME as nat,
            flash_color: ground_flash(),
            state: if v.lives - misses <= 0 {
                GameState::GameOver
            } else {
                v.state
            },
            ..v
        }
    }
}

/// Step four of a frame: the letters past the bottom are removed and paid for.
pub open spec fn grounded(v: GameView, screen_height: u32) -> GameView {
    after_ground_misses(
        GameView { letters: survivors(v.letters, screen_height), ..v },
        lost(v.letters, screen_height),
    )
}

/// Whether some letter shows `character`.
pub open spec fn has_match(letters: Seq<Letter>, character: char) -> bool {
    exists|j: int| 0 <= j < letters.len() && #[trigger] letters[j].char == character
}

/// Whether the letter at `k` is the one that typing `character` destroys:
/// it shows the character, no letter showing it is lower, and those before
/// it are higher.
pub open spec fn is_target(letters: Seq<Letter>, character: char, k: int) -> bool {
    &&& 0 <= k < letters.len()
    &&& letters[k].char == character
    &&& forall|j: int|
        0 <= j < letters.len() && #[trigger] letters[j].char == character ==> letters[j].y
            <= letters[k].y
    &&& forall|j: int|
        0 <= j < k && #[trigger] letters[j].char == character ==> letters[j].y
            < letters[k].y
}

/// Whether `burst` is what a letter destroyed at `(x, y)` throws off.
pub open spec fn is_burst(burst: Seq<Particle>, x: i64, y: i64) -> bool {
    &&& burst.len() == BURST_SIZE
    &&& forall|i: int| 0 <= i < burst.len() ==> (#[trigger] burst[i]).is_launch(x, y)
}

/// The game after `character` was typed and destroyed the letter at `k`,
/// which threw off `burst`.
pub open spec fn hit(v: GameView, character: char, k: int, burst: Seq<Particle>) -> GameView {
    GameView {
        letters: v.letters.remove(k),
        particles: v.particles + burst,
        total_count: v.total_count + 1,
        correct_count: v.correct_count + 1,
        combo: v.combo + 1,
        score: v.score + points(v.combo + 1),
        typed_letters: bumped(v.typed_letters, character),
        screen_shake: SHAKE_ON_HIT as nat,
        flash_timer: FLASH_TIME as nat,
        flash_color: hit_flash(),
        ..v
    }
}

/// The game after `character` was typed and no letter showed it.
pub open spec fn missed(v: GameView, character: char) -> GameView {
    GameView {
        total_count: v.total_count + 1,
        combo: 0,
        score: penalized(v.score),
        errors: bumped(v.errors, character),
        flash_timer: FLASH_TIME as nat,
        flash_color: miss_flash(),
        ..v
    }
}

/// Whether `post` is in the phase, at the level and on the clock of `pre`,
/// with the same lives.
pub open spec fn same_course(pre: GameView, post: GameView) -> bool {
    &&& post.state == pre.state
    &&& post.lives == pre.lives
    &&& post.max_lives == pre.max_lives
    &&& post.level == pre.level
    &&& post.current_level == pre.current_level
    &&& post.level_timer == pre.level_timer
    &&& post.spawn_timer == pre.spawn_timer
}

/// What typing `character` does: a hit on the target with some burst, or a
/// miss where no letter shows the character.
pub open spec fn typed_outcome(pre: GameView, character: char, post: GameView) -> bool {
    ||| exists|k: int, burst: Seq<Particle>|
        {
            &&& is_target(pre.letters, character, k)
            &&& is_burst(burst, pre.letters[k].x, pre.letters[k].y)
            &&& post == #[trigger] hit(pre, character, k, burst)
        }
    ||| !has_match(pre.letters, character) && post == missed(pre, character)
}

/// Step five of a frame: the pressed keys among the first `n` are resolved one
/// after the other, in the order of `KEYS`.
pub open spec fn keys_resolved(start: GameView, keys: Seq<bool>, n: int, end: GameView) -> bool
    decreases n,
{
    if n <= 0 {
        end == start
    } else if keys[n - 1] {
        exists|mid: GameView|
            keys_resolved(start, keys, n - 1, mid) && #[trigger] typed_outcome(
                mid,
                KEYS@[n - 1],
                end,
            )
    } else {
        keys_resolved(start, keys, n - 1, end)
    }
}

/// Resolving one more key extends a resolution of the keys before it.
pub proof fn lemma_keys_resolved_step(
    start: GameView,
    keys: Seq<bool>,
    n: int,
    mid: GameView,
    end: GameView,
)
    requires
        1 <= n <= keys.len(),
        n <= KEY_COUNT,
        keys_resolved(start, keys, n - 1, mid),
        if keys[n - 1] {
            typed_outcome(mid, KEYS@[n - 1], end)
        } else {
            end == mid
        },
    ensures
        keys_resolved(start, keys, n, end),
{
}

/// The sparks after `delta` milliseconds, without those that burnt out.
pub open spec fn aged(particles: Seq<Particle>, delta: u32) -> Seq<Particle> {
    particles.map_values(|p: Particle| p.advanced(delta)).filter(|p: Particle| !p.expired())
}

/// Step six of a frame: the sparks move and the burnt-out ones go.
pub open spec fn sparks_aged(v: GameView, delta: u32) -> GameView {
    GameView { particles: aged(v.particles, delta), ..v }
}

/// Whether the level is won: its time is up and a life is left.
pub open spec fn level_won(v: GameView) -> bool {
    match v.level.duration {
        Some(d) => v.level_timer >= d && v.lives > 0,
        None => false,
    }
}

/// Step seven of a frame: a won level is complete.
pub open spec fn completed(v: GameView) -> GameView {
    if level_won(v) {
        GameView { state: GameState::LevelComplete, ..v }
    } else {
        v
    }
}

/// What one frame does while playing: the seven steps in their order.
pub open spec fn playing_outcome(pre: GameView, frame: Frame, post: GameView) -> bool {
    exists|spawned: GameView, resolved: GameView|
        {
            &&& #[trigger] spawn_outcome(ticked(pre, frame.delta), frame.screen_width, spawned)
            &&& keys_resolved(
                grounded(letters_fallen(spawned, frame.delta), frame.screen_height),
                frame.keys@,
                KEY_COUNT as int,
                resolved,
            )
            &&& post == completed(#[trigger] sparks_aged(resolved, frame.delta))
        }
}

/// What one frame does in the menu: a confirmation starts a session.
pub open spec fn menu_outcome(pre: GameView, frame: Frame) -> GameView {
    if frame.confirm {
        started(pre)
    } else {
        pre
    }
}

/// The game back in the menu: nothing is left on screen, and everything
/// else is as it was.
pub open spec fn back_in_menu(v: GameView) -> GameView {
    GameView {
        state: GameState::Menu,
        letters: Seq::empty(),
        particles: Seq::empty(),
        ..v
    }
}

/// What one frame does after a level is complete: a confirmation starts the
/// next level, the menu key leads back to the menu.
pub open spec fn level_complete_outcome(pre: GameView, frame: Frame) -> GameView {
    if frame.confirm {
        started(promoted(pre))
    } else if frame.menu {
        back_in_menu(pre)
    } else {
        pre
    }
}

/// What one frame does after the game is over: a confirmation or a retry
/// starts the same level again, the menu key leads back to the menu.
pub open spec fn game_over_outcome(pre: GameView, frame: Frame) -> GameView {
    if frame.confirm || frame.retry {
        started(pre)
    } else if frame.menu {
        back_in_menu(pre)
    } else {
        pre
    }
}

/// What one frame does to the game.
pub open spec fn update_outcome(pre: GameView, frame: Frame, post: GameView) -> bool {
    match pre.state {
        GameState::Menu => post == menu_outcome(pre, frame),
        GameState::Playing => playing_outcome(pre, frame, post),
        GameState::LevelComplete => post == level_complete_outcome(pre, frame),
        GameState::GameOver => post == game_over_outcome(pre, frame),
    }
}

} // verus!
