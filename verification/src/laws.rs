//! Laws of the game, stated over its mathematical model and proved.

use vstd::prelude::*;
use crate::entities::{Letter, Particle, PARTICLE_LIFE};
use crate::heading::{cosine_milli, lemma_heading_is_unit, lemma_sine_cosine_bounded, sine_milli};
use crate::input::{pressed, Frame, KEYS, KEY_COUNT};
use crate::model::{
    after_ground_misses, aged, back_in_menu, completed, grounded, has_match, hit, is_burst,
    is_target, keys_resolved, letters_fallen, lost, missed, playing_outcome, promoted, same_course,
    sparks_aged, spawn_due, spawn_outcome, survivors, tally, ticked, typed_outcome, update_outcome,
    GameState, GameView,
};
use crate::scoring::{accuracy, penalized, points};
use crate::validity::{
    coherent, lemma_back_in_menu_valid, lemma_completed_valid, lemma_fallen_coherent,
    lemma_grounded_coherent, lemma_hit_coherent, lemma_missed_coherent, lemma_promoted_startable,
    lemma_sparks_aged_coherent, lemma_spawn_coherent, lemma_started_valid, lemma_survivors,
    lemma_ticked_coherent, rested, screen_is_empty, valid,
};

verus! {

/// The time that a run of frames takes in all.
pub open spec fn elapsed(deltas: Seq<u32>) -> nat
    decreases deltas.len(),
{
    if deltas.len() == 0 {
        0
    } else {
        elapsed(deltas.drop_last()) + deltas.last() as nat
    }
}

/// A letter after falling through a run of frames.
pub open spec fn letter_after(letter: Letter, deltas: Seq<u32>) -> Letter
    decreases deltas.len(),
{
    if deltas.len() == 0 {
        letter
    } else {
        letter_after(letter, deltas.drop_last()).advanced(deltas.last())
    }
}

/// A spark after moving through a run of frames.
pub open spec fn particle_after(particle: Particle, deltas: Seq<u32>) -> Particle
    decreases deltas.len(),
{
    if deltas.len() == 0 {
        particle
    } else {
        particle_after(particle, deltas.drop_last()).advanced(deltas.last())
    }
}

/// A letter that falls through a run of frames, without leaving the range
/// of its coordinate, is lower by exactly its speed times the time of each
/// frame, hence by its speed times the time of all of them; it never rises,
/// and nothing else about it changes.
pub proof fn law_letter_falls(letter: Letter, deltas: Seq<u32>)
    requires
        letter.y + letter.speed * elapsed(deltas) <= i64::MAX,
    ensures
        letter_after(letter, deltas).y == letter.y + letter.speed * elapsed(deltas),
        letter_after(letter, deltas).y >= letter.y,
        deltas.len() > 0 ==> letter_after(letter, deltas).y == letter_after(
            letter,
            deltas.drop_last(),
        ).y + letter.speed * deltas.last(),
        letter_after(letter, deltas) == (Letter { y: letter_after(letter, deltas).y, ..letter }),
    decreases deltas.len(),
{
    if deltas.len() > 0 {
        let before = elapsed(deltas.drop_last()) as int;
        let last = deltas.last() as int;
        let speed = letter.speed as int;
        assert(speed * (before + last) == speed * before + speed * last && 0 <= speed * before
            && 0 <= speed * last) by (nonlinear_arith)
            requires
                0 <= speed,
                0 <= before,
                0 <= last,
        ;
        law_letter_falls(letter, deltas.drop_last());
    } else {
        assert(letter.speed * 0 == 0) by (nonlinear_arith);
    }
}

/// A letter is off screen exactly when it is strictly lower than the
/// bottom edge plus the margin of fifty units.
pub proof fn law_off_screen_is_strict(letter: Letter, screen_height: u32)
    ensures
        letter.y == (screen_height + 50) * 1_000_000 ==> !letter.passed_bottom(screen_height),
        letter.y > (screen_height + 50) * 1_000_000 ==> letter.passed_bottom(screen_height),
        letter.y < (screen_height + 50) * 1_000_000 ==> !letter.passed_bottom(screen_height),
{
}

/// At most one letter is the target of a character.
pub proof fn law_target_is_unique(letters: Seq<Letter>, character: char, k1: int, k2: int)
    requires
        is_target(letters, character, k1),
        is_target(letters, character, k2),
    ensures
        k1 == k2,
{
}

/// Where some letter shows a character, one of them is its target.
pub proof fn law_target_exists(letters: Seq<Letter>, character: char)
    requires
        has_match(letters, character),
    ensures
        exists|k: int| is_target(letters, character, k),
    decreases letters.len(),
{
    let rest = letters.drop_last();
    let last = letters.len() - 1;
    if exists|j: int| 0 <= j < rest.len() && #[trigger] rest[j].char == character {
        law_target_exists(rest, character);
        let k = choose|k: int| is_target(rest, character, k);
        if letters[last].char == character && letters[last].y > rest[k].y {
            assert(is_target(letters, character, last)) by {
                assert forall|j: int|
                    0 <= j < letters.len() && #[trigger] letters[j].char
                        == character implies letters[j].y <= letters[last].y by {
                    if j < last {
                        assert(rest[j].char == character);
                    }
                }
                assert forall|j: int|
                    0 <= j < last && #[trigger] letters[j].char
                        == character implies letters[j].y < letters[last].y by {
                    assert(rest[j].char == character);
                }
            }
        } else {
            assert(is_target(letters, character, k)) by {
                assert forall|j: int|
                    0 <= j < letters.len() && #[trigger] letters[j].char
                        == character implies letters[j].y <= letters[k].y by {
                    if j < last {
                        assert(rest[j].char == character);
                    }
                }
                assert forall|j: int|
                    0 <= j < k && #[trigger] letters[j].char
                        == character implies letters[j].y < letters[k].y by {
                    assert(rest[j].char == character);
                }
            }
        }
    } else {
        let j = choose|j: int| 0 <= j < letters.len() && #[trigger] letters[j].char == character;
        if j < last {
            assert(rest[j].char == character);
        }
        assert(is_target(letters, character, last)) by {
            assert forall|i: int|
                0 <= i < last && #[trigger] letters[i].char == character implies letters[i].y
                < letters[last].y by {
                assert(rest[i].char == character);
            }
        }
    }
}

/// Typing a character that no letter shows counts one more attempt, ends
/// the combo, costs two points but leaves no negative score, and counts
/// one more error for that character. Nothing on screen changes.
pub proof fn law_miss(pre: GameView, character: char, post: GameView)
    requires
        !has_match(pre.letters, character),
        typed_outcome(pre, character, post),
    ensures
        post == missed(pre, character),
        post.total_count == pre.total_count + 1,
        post.correct_count == pre.correct_count,
        post.combo == 0,
        post.score == penalized(pre.score),
        post.score == if pre.score >= 2 { pre.score - 2 } else { 0 },
        tally(post.errors, character) == tally(pre.errors, character) + 1,
        post.typed_letters == pre.typed_letters,
        post.letters == pre.letters,
        post.particles == pre.particles,
{
}

/// Typing a character that some letter shows removes the lowest such
/// letter and no other, counts one more attempt and one more hit, makes the
/// combo one longer, adds the points of the longer combo, throws off fifteen
/// sparks where the letter was, and counts the character once more.
pub proof fn law_hit(pre: GameView, character: char, post: GameView)
    requires
        has_match(pre.letters, character),
        typed_outcome(pre, character, post),
    ensures
        exists|k: int|
            {
                &&& #[trigger] is_target(pre.letters, character, k)
                &&& post.letters == pre.letters.remove(k)
                &&& forall|i: int|
                    pre.particles.len() <= i < post.particles.len() ==> (
                    #[trigger] post.particles[i]).is_launch(pre.letters[k].x, pre.letters[k].y)
            },
        post.letters.len() == pre.letters.len() - 1,
        post.total_count == pre.total_count + 1,
        post.correct_count == pre.correct_count + 1,
        post.combo == pre.combo + 1,
        post.score == pre.score + 10 * (1 + (pre.combo + 1) / 10),
        post.particles.len() == pre.particles.len() + 15,
        post.particles.subrange(0, pre.particles.len() as int) == pre.particles,
        tally(post.typed_letters, character) == tally(pre.typed_letters, character) + 1,
        post.errors == pre.errors,
{
    let (k, burst) = choose|k: int, burst: Seq<Particle>|
        {
            &&& is_target(pre.letters, character, k)
            &&& is_burst(burst, pre.letters[k].x, pre.letters[k].y)
            &&& post == #[trigger] hit(pre, character, k, burst)
        };
    assert(post.particles.subrange(0, pre.particles.len() as int) =~= pre.particles);
    assert forall|i: int| pre.particles.len() <= i < post.particles.len() implies (
    #[trigger] post.particles[i]).is_launch(pre.letters[k].x, pre.letters[k].y) by {
        assert(post.particles[i] == burst[i - pre.particles.len()]);
    }
    assert(is_target(pre.letters, character, k));
}

/// The letters past the bottom are removed, the others stay in their
/// order, and each removed letter costs a life; with the first of them the
/// combo is gone, and the game is over if no life is left.
pub proof fn law_ground(v: GameView, screen_height: u32)
    requires
        v.state == GameState::Playing,
    ensures
        grounded(v, screen_height).letters == survivors(v.letters, screen_height),
        grounded(v, screen_height).lives == v.lives - lost(v.letters, screen_height),
        lost(v.letters, screen_height) + grounded(v, screen_height).letters.len()
            == v.letters.len(),
        forall|i: int|
            0 <= i < grounded(v, screen_height).letters.len() ==> !(#[trigger] grounded(
                v,
                screen_height,
            ).letters[i]).passed_bottom(screen_height),
        grounded(v, screen_height).state == if lost(v.letters, screen_height) > 0
            && grounded(v, screen_height).lives <= 0 {
            GameState::GameOver
        } else {
            GameState::Playing
        },
        lost(v.letters, screen_height) > 0 ==> grounded(v, screen_height).combo == 0,
        lost(v.letters, screen_height) == 0 ==> grounded(v, screen_height) == v,
{
    lemma_survivors(v.letters, screen_height);
    if lost(v.letters, screen_height) == 0 {
        let keep = |l: Letter| !l.passed_bottom(screen_height);
        assert(survivors(v.letters, screen_height) == v.letters) by {
            lemma_filter_keeps_all(v.letters, keep);
        }
    }
}

/// A filter that drops nothing leaves the sequence as it is.
pub proof fn lemma_filter_keeps_all<A>(s: Seq<A>, pred: spec_fn(A) -> bool)
    requires
        s.filter(pred).len() == s.len(),
    ensures
        s.filter(pred) == s,
    decreases s.len(),
{
    reveal(Seq::filter);
    if s.len() > 0 {
        s.drop_last().lemma_filter_len(pred);
        lemma_filter_keeps_all(s.drop_last(), pred);
        assert(s.drop_last().push(s.last()) =~= s);
    }
}

/// Chance decides nothing of a typed character but the sparks: two
/// outcomes with the same sparks are the same.
pub proof fn law_typing_is_determined(
    pre: GameView,
    character: char,
    first: GameView,
    second: GameView,
)
    requires
        typed_outcome(pre, character, first),
        typed_outcome(pre, character, second),
        first.particles == second.particles,
    ensures
        first == second,
{
    if has_match(pre.letters, character) {
        let (k1, burst1) = choose|k: int, burst: Seq<Particle>|
            {
                &&& is_target(pre.letters, character, k)
                &&& is_burst(burst, pre.letters[k].x, pre.letters[k].y)
                &&& first == #[trigger] hit(pre, character, k, burst)
            };
        let (k2, burst2) = choose|k: int, burst: Seq<Particle>|
            {
                &&& is_target(pre.letters, character, k)
                &&& is_burst(burst, pre.letters[k].x, pre.letters[k].y)
                &&& second == #[trigger] hit(pre, character, k, burst)
            };
        law_target_is_unique(pre.letters, character, k1, k2);
    }
}

/// Chance decides nothing of a spawn but the letter: two outcomes with the
/// same letters are the same.
pub proof fn law_spawn_is_determined(
    pre: GameView,
    screen_width: u32,
    first: GameView,
    second: GameView,
)
    requires
        spawn_outcome(pre, screen_width, first),
        spawn_outcome(pre, screen_width, second),
        first.letters == second.letters,
    ensures
        first == second,
{
}

/// Letters that reach the ground are paid for one after the other: each
/// costs one life, and the game is over with the one that takes the last.
pub proof fn law_ground_misses(v: GameView, misses: nat)
    requires
        v.state == GameState::Playing,
    ensures
        after_ground_misses(v, misses).lives == v.lives - misses,
        after_ground_misses(v, misses + 1) == after_ground_misses(
            after_ground_misses(v, misses),
            1,
        ),
        after_ground_misses(v, misses).state == if misses > 0 && v.lives - misses <= 0 {
            GameState::GameOver
        } else {
            GameState::Playing
        },
        misses > 0 ==> after_ground_misses(v, misses).combo == 0,
{
}

/// Typing a character changes neither the phase nor the lives nor a clock.
pub proof fn law_typing_stays_on_course(pre: GameView, character: char, post: GameView)
    requires
        typed_outcome(pre, character, post),
    ensures
        same_course(pre, post),
{
}

/// Resolving the keys of a frame changes neither the phase nor the lives nor a clock.
pub proof fn law_keys_stay_on_course(start: GameView, keys: Seq<bool>, n: int, end: GameView)
    requires
        keys_resolved(start, keys, n, end),
    ensures
        same_course(start, end),
    decreases n,
{
    if n > 0 {
        if keys[n - 1] {
            let mid = choose|mid: GameView|
                keys_resolved(start, keys, n - 1, mid) && #[trigger] typed_outcome(
                    mid,
                    KEYS@[n - 1],
                    end,
                );
            law_keys_stay_on_course(start, keys, n - 1, mid);
            law_typing_stays_on_course(mid, KEYS@[n - 1], end);
        } else {
            law_keys_stay_on_course(start, keys, n - 1, end);
        }
    }
}

/// A frame of play adds its time to the level clock, and the level is
/// complete after it exactly if the clock has then reached the level's
/// duration and a life is left: on that frame, and on none before.
pub proof fn law_level_completes_on_time(pre: GameView, frame: Frame, post: GameView)
    requires
        valid(pre),
        pre.state == GameState::Playing,
        playing_outcome(pre, frame, post),
    ensures
        post.level_timer == pre.level_timer + frame.delta,
        pre.level_timer < pre.level.duration.unwrap(),
        post.state == GameState::LevelComplete <==> post.level_timer
            >= pre.level.duration.unwrap() && post.lives > 0,
        post.state == GameState::GameOver <==> post.lives <= 0,
        post.state == GameState::Playing || post.state == GameState::LevelComplete || post.state
            == GameState::GameOver,
{
    let (spawned, resolved) = choose|spawned: GameView, resolved: GameView|
        {
            &&& #[trigger] spawn_outcome(ticked(pre, frame.delta), frame.screen_width, spawned)
            &&& keys_resolved(
                grounded(letters_fallen(spawned, frame.delta), frame.screen_height),
                frame.keys@,
                KEY_COUNT as int,
                resolved,
            )
            &&& post == completed(#[trigger] sparks_aged(resolved, frame.delta))
        };
    let down = grounded(letters_fallen(spawned, frame.delta), frame.screen_height);
    law_keys_stay_on_course(down, frame.keys@, KEY_COUNT as int, resolved);
}

/// The accuracy is a hundred while nothing has been attempted, and from
/// then on the share of hits in percent, rounded down: never more than a
/// hundred where no more hits than attempts are counted.
pub proof fn law_accuracy_is_a_percentage(correct: nat, total: nat)
    requires
        correct <= total,
    ensures
        total == 0 ==> accuracy(correct, total) == 100,
        total > 0 ==> accuracy(correct, total) == 100 * correct / total,
        accuracy(correct, total) <= 100,
        total > 0 && correct == total ==> accuracy(correct, total) == 100,
{
    if total > 0 {
        assert(100 * correct / total <= 100) by (nonlinear_arith)
            requires
                correct <= total,
                total > 0,
        ;
        if correct == total {
            assert(100 * total / total == 100) by (nonlinear_arith)
                requires
                    total > 0,
            ;
        }
    }
}

/// The menu key on an end screen, without a key that starts a session,
/// leads to the menu and clears the screen; the level and everything
/// counted stay as they were. In a valid game nothing is ever on screen
/// while the menu is shown.
pub proof fn law_menu_key_clears_the_screen(pre: GameView, frame: Frame, post: GameView)
    requires
        pre.state == GameState::LevelComplete || pre.state == GameState::GameOver,
        frame.menu,
        !frame.confirm,
        !frame.retry,
        update_outcome(pre, frame, post),
    ensures
        post == back_in_menu(pre),
        post.state == GameState::Menu,
        post.letters.len() == 0,
        post.particles.len() == 0,
        post.current_level == pre.current_level,
        post.level == pre.level,
        post.lives == pre.lives,
        post.score == pre.score,
        valid(pre) ==> valid(post) && screen_is_empty(post),
{
    if valid(pre) {
        lemma_back_in_menu_valid(pre);
    }
}

/// Typing a character keeps the game coherent, and counts one attempt.
pub proof fn law_typing_keeps_coherent(pre: GameView, character: char, post: GameView)
    requires
        coherent(pre),
        pre.total_count < u32::MAX,
        typed_outcome(pre, character, post),
    ensures
        coherent(post),
        rested(pre) ==> rested(post),
        post.total_count == pre.total_count + 1,
{
    if exists|k: int, burst: Seq<Particle>|
        {
            &&& is_target(pre.letters, character, k)
            &&& is_burst(burst, pre.letters[k].x, pre.letters[k].y)
            &&& post == #[trigger] hit(pre, character, k, burst)
        } {
        let (k, burst) = choose|k: int, burst: Seq<Particle>|
            {
                &&& is_target(pre.letters, character, k)
                &&& is_burst(burst, pre.letters[k].x, pre.letters[k].y)
                &&& post == #[trigger] hit(pre, character, k, burst)
            };
        lemma_hit_coherent(pre, character, k, burst);
    } else {
        lemma_missed_coherent(pre, character);
    }
}

/// Resolving the keys of a frame keeps the game coherent, and counts one
/// attempt for each pressed key.
pub proof fn law_keys_keep_coherent(start: GameView, keys: Seq<bool>, n: int, end: GameView)
    requires
        coherent(start),
        0 <= n <= keys.len(),
        n <= KEY_COUNT,
        start.total_count + pressed(keys, n) <= u32::MAX,
        keys_resolved(start, keys, n, end),
    ensures
        coherent(end),
        rested(start) ==> rested(end),
        end.total_count == start.total_count + pressed(keys, n),
    decreases n,
{
    if n > 0 {
        if keys[n - 1] {
            let mid = choose|mid: GameView|
                keys_resolved(start, keys, n - 1, mid) && #[trigger] typed_outcome(
                    mid,
                    KEYS@[n - 1],
                    end,
                );
            law_keys_keep_coherent(start, keys, n - 1, mid);
            law_typing_keeps_coherent(mid, KEYS@[n - 1], end);
        } else {
            law_keys_keep_coherent(start, keys, n - 1, end);
        }
    }
}

/// Whatever a frame does to a valid game whose counters have room for the
/// keys of the frame, the game is valid after it.
pub proof fn law_frame_keeps_valid(pre: GameView, frame: Frame, post: GameView)
    requires
        valid(pre),
        pre.state == GameState::Playing ==> pre.total_count + pressed(
            frame.keys@,
            KEY_COUNT as int,
        ) <= u32::MAX,
        update_outcome(pre, frame, post),
    ensures
        valid(post),
{
    match pre.state {
        GameState::Menu => {
            lemma_started_valid(pre);
        },
        GameState::LevelComplete => {
            lemma_promoted_startable(pre);
            lemma_started_valid(promoted(pre));
        },
        GameState::GameOver => {
            lemma_started_valid(pre);
        },
        GameState::Playing => {
            let (spawned, resolved) = choose|spawned: GameView, resolved: GameView|
                {
                    &&& #[trigger] spawn_outcome(
                        ticked(pre, frame.delta),
                        frame.screen_width,
                        spawned,
                    )
                    &&& keys_resolved(
                        grounded(letters_fallen(spawned, frame.delta), frame.screen_height),
                        frame.keys@,
                        KEY_COUNT as int,
                        resolved,
                    )
                    &&& post == completed(#[trigger] sparks_aged(resolved, frame.delta))
                };
            let begun = ticked(pre, frame.delta);
            lemma_ticked_coherent(pre, frame.delta);
            if spawn_due(begun) {
                lemma_spawn_coherent(begun, frame.screen_width);
            }
            lemma_fallen_coherent(spawned, frame.delta);
            let fell = letters_fallen(spawned, frame.delta);
            lemma_grounded_coherent(fell, frame.screen_height);
            let down = grounded(fell, frame.screen_height);
            law_keys_keep_coherent(down, frame.keys@, KEY_COUNT as int, resolved);
            law_keys_stay_on_course(down, frame.keys@, KEY_COUNT as int, resolved);
            lemma_sparks_aged_coherent(resolved, frame.delta);
            lemma_completed_valid(sparks_aged(resolved, frame.delta));
        },
    }
}

/// A spark sets off along its heading at the speed drawn for it, a whole
/// number of units per second from 100 up to 300, to within a thousandth:
/// the squares of its two velocities add up to the square of that speed,
/// give or take two thousandths.
pub proof fn law_spark_speed(x: i64, y: i64, heading_draw: u64, speed_draw: u64, size_draw: u64)
    ensures
        ({
            let p = Particle::launched(x, y, heading_draw, speed_draw, size_draw);
            let speed = 100 + speed_draw % 200;
            &&& 100 <= speed < 300
            &&& 998_000 * (speed * speed) <= p.vx * p.vx + p.vy * p.vy
            &&& p.vx * p.vx + p.vy * p.vy <= 1_002_000 * (speed * speed)
        }),
{
    let heading = (heading_draw % 360) as int;
    let speed = 100 + (speed_draw % 200) as int;
    let c = cosine_milli(heading);
    let s = sine_milli(heading);
    lemma_sine_cosine_bounded(heading);
    lemma_heading_is_unit(heading);
    assert(-300_000 < c * speed < 300_000 && -300_000 < s * speed < 300_000)
        by (nonlinear_arith)
        requires
            -1000 <= c <= 1000,
            -1000 <= s <= 1000,
            100 <= speed < 300,
    ;
    assert((c * speed) * (c * speed) + (s * speed) * (s * speed) == (s * s + c * c) * (speed
        * speed)) by (nonlinear_arith);
    assert(998_000 * (speed * speed) <= (s * s + c * c) * (speed * speed) <= 1_002_000 * (speed
        * speed)) by (nonlinear_arith)
        requires
            998_000 <= s * s + c * c <= 1_002_000,
    ;
}

/// A spark grows older by the time of every frame it moves through, and
/// has burnt out exactly when that time has reached its life: a spark
/// just thrown off, after a second.
pub proof fn law_particle_burns_out(particle: Particle, deltas: Seq<u32>)
    requires
        i64::MIN <= particle.life - elapsed(deltas),
    ensures
        particle_after(particle, deltas).life == particle.life - elapsed(deltas),
        particle_after(particle, deltas).expired() <==> elapsed(deltas) >= particle.life,
        particle.life == PARTICLE_LIFE ==> (particle_after(particle, deltas).expired()
            <==> elapsed(deltas) >= 1000),
    decreases deltas.len(),
{
    if deltas.len() > 0 {
        law_particle_burns_out(particle, deltas.drop_last());
    }
}

/// After the sparks have moved and the burnt-out ones are gone, every
/// spark left is a spark from before, moved, and has life left.
pub proof fn law_burnt_out_sparks_go(particles: Seq<Particle>, delta: u32)
    ensures
        aged(particles, delta).len() <= particles.len(),
        forall|i: int|
            0 <= i < aged(particles, delta).len() ==> {
                &&& !(#[trigger] aged(particles, delta)[i]).expired()
                &&& exists|j: int|
                    0 <= j < particles.len() && aged(particles, delta)[i]
                        == (#[trigger] particles[j]).advanced(delta)
            },
{
    let moved = particles.map_values(|p: Particle| p.advanced(delta));
    let alive = |p: Particle| !p.expired();
    moved.lemma_filter_len(alive);
    assert forall|i: int| 0 <= i < aged(particles, delta).len() implies {
        &&& !(#[trigger] aged(particles, delta)[i]).expired()
        &&& exists|j: int|
            0 <= j < particles.len() && aged(particles, delta)[i]
                == (#[trigger] particles[j]).advanced(delta)
    } by {
        let p = moved.filter(alive)[i];
        moved.lemma_filter_pred(alive, i);
        assert(moved.filter(alive).contains(p));
        moved.lemma_filter_contains_rev(alive, p);
        let j = choose|j: int| 0 <= j < moved.len() && moved[j] == p;
        assert(p == particles[j].advanced(delta));
    }
}

} // verus!
