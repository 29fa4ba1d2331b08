//! What holds of every game: the bounds within which no step of a frame can
//! leave the range of a machine integer.

use vstd::prelude::*;
use crate::entities::{Letter, Particle, GRAVITY, LETTER_START_Y, PARTICLE_LIFE, STARTING_LIVES};
use crate::heading::lemma_sine_cosine_bounded;
use crate::levels::{level_at, FIXED_LEVELS};
use crate::model::{
    aged, back_in_menu, completed, drawn_letter, fallen, grounded, hit, initial, is_burst,
    letter_added, letters_fallen, lost, missed, promoted, sparks_aged, spawn_due, spawn_outcome,
    spawn_x, started, survivors, ticked, GameState, GameView, FLASH_TIME, SHAKE_ON_HIT, SPEED_MAX,
    X_MAX, X_MIN, Y_FALL, Y_REST,
};
use crate::scoring::{lemma_points_bounded, points};

verus! {

/// A letter within the bounds that hold at any moment of a frame.
pub open spec fn letter_ok(l: Letter) -> bool {
    &&& X_MIN <= l.x <= X_MAX
    &&& LETTER_START_Y <= l.y <= Y_FALL
    &&& l.speed <= SPEED_MAX
}

/// A letter no lower than a letter can be when a frame is over.
pub open spec fn letter_rested(l: Letter) -> bool {
    l.y <= Y_REST
}

/// A live spark within the bounds that its age allows: it was thrown off
/// by a letter, slower than 300 units per second, and has been falling since.
pub open spec fn particle_ok(p: Particle) -> bool {
    let age = PARTICLE_LIFE - p.life;
    &&& p.max_life == PARTICLE_LIFE
    &&& 0 < p.life <= PARTICLE_LIFE
    &&& -300_000 < p.vx < 300_000
    &&& -300_000 < p.vy < 300_000 + GRAVITY * age
    &&& X_MIN - 300_000 * age <= p.x <= X_MAX + 300_000 * age
    &&& LETTER_START_Y - 300_000 * age <= p.y <= Y_FALL + 600_000 * age
}

/// The level is the catalogue's entry for `current_level`, one of the fixed levels.
pub open spec fn level_ok(v: GameView) -> bool {
    &&& v.current_level < FIXED_LEVELS
    &&& v.level == level_at(v.current_level)
}

/// No more hits than attempts, no longer a combo than hits, no higher a
/// score than that many hits in a row can earn, no count above the attempts.
pub open spec fn counters_ok(v: GameView) -> bool {
    &&& v.correct_count <= v.total_count <= u32::MAX
    &&& v.combo <= v.correct_count
    &&& 2 * v.score <= v.correct_count * (v.correct_count + 21)
    &&& forall|c: char| #[trigger]
        v.typed_letters.contains_key(c) ==> v.typed_letters[c] <= v.total_count
    &&& forall|c: char| #[trigger] v.errors.contains_key(c) ==> v.errors[c] <= v.total_count
}

/// The level clock is at most one frame past the end of the level, every
/// letter on screen took a full spawn interval of it, and shake and flash
/// are no stronger than a hit or a miss sets them.
pub open spec fn clocks_ok(v: GameView) -> bool {
    &&& v.level.duration is Some
    &&& v.level_timer <= v.level.duration.unwrap() + u32::MAX
    &&& v.letters.len() * v.level.spawn_rate + v.spawn_timer <= v.level_timer
    &&& v.screen_shake <= SHAKE_ON_HIT
    &&& v.flash_timer <= FLASH_TIME
}

/// The player has the usual number of lives at most.
pub open spec fn lives_ok(v: GameView) -> bool {
    &&& v.max_lives == STARTING_LIVES
    &&& i32::MIN <= v.lives <= v.max_lives
}

/// What holds of the game at any moment, also between two steps of a frame.
pub open spec fn coherent(v: GameView) -> bool {
    &&& level_ok(v)
    &&& counters_ok(v)
    &&& clocks_ok(v)
    &&& lives_ok(v)
    &&& forall|i: int| 0 <= i < v.letters.len() ==> letter_ok(#[trigger] v.letters[i])
    &&& forall|i: int| 0 <= i < v.particles.len() ==> particle_ok(#[trigger] v.particles[i])
}

/// No letter is lower than a letter can be when a frame is over.
pub open spec fn rested(v: GameView) -> bool {
    forall|i: int| 0 <= i < v.letters.len() ==> letter_rested(#[trigger] v.letters[i])
}

/// Nothing is on screen: no letter and no spark.
pub open spec fn screen_is_empty(v: GameView) -> bool {
    v.letters.len() == 0 && v.particles.len() == 0
}

/// What holds of the game between two frames: it is coherent, no letter is
/// left below the bottom, in the menu nothing is on screen, and while the
/// game is played a life and some time are left.
pub open spec fn valid(v: GameView) -> bool {
    &&& coherent(v)
    &&& rested(v)
    &&& v.state == GameState::Menu ==> screen_is_empty(v)
    &&& v.state == GameState::Playing ==> v.lives >= 1 && v.level_timer < v.level.duration.unwrap()
}

/// What a game needs for a session to be started on it: everything else
/// is set anew.
pub open spec fn startable(v: GameView) -> bool {
    &&& level_ok(v)
    &&& v.max_lives == STARTING_LIVES
    &&& v.screen_shake <= SHAKE_ON_HIT
}

/// What the catalogue says of every fixed level.
pub proof fn lemma_fixed_level(index: nat)
    requires
        index < FIXED_LEVELS,
    ensures
        level_at(index).letters.len() > 0,
        100 <= level_at(index).fall_speed <= 200,
        900 <= level_at(index).spawn_rate <= 2000,
        level_at(index).duration is Some,
        30000 <= level_at(index).duration.unwrap() <= 60000,
{
}

/// The game before the first session is valid.
pub proof fn lemma_initial_valid()
    ensures
        valid(initial()),
{
    lemma_fixed_level(0);
}

/// A session just started is valid.
pub proof fn lemma_started_valid(v: GameView)
    requires
        startable(v),
    ensures
        valid(started(v)),
{
    lemma_fixed_level(v.current_level);
}

/// A session can be started on the level after the current one.
pub proof fn lemma_promoted_startable(v: GameView)
    requires
        coherent(v),
    ensures
        startable(promoted(v)),
{
}

/// A spark just thrown off by a letter within its bounds is within its own.
pub proof fn lemma_launch_ok(p: Particle, x: i64, y: i64)
    requires
        p.is_launch(x, y),
        X_MIN <= x <= X_MAX,
        LETTER_START_Y <= y <= Y_FALL,
    ensures
        particle_ok(p),
{
    let (heading_draw, speed_draw, size_draw) = choose|h: u64, s: u64, z: u64|
        p == #[trigger] Particle::launched(x, y, h, s, z);
    let heading = (heading_draw % 360) as int;
    let speed = 100 + (speed_draw % 200) as int;
    lemma_sine_cosine_bounded(heading);
    let c = crate::heading::cosine_milli(heading);
    let s = crate::heading::sine_milli(heading);
    assert(-300_000 < c * speed < 300_000 && -300_000 < s * speed < 300_000)
        by (nonlinear_arith)
        requires
            -1000 <= c <= 1000,
            -1000 <= s <= 1000,
            100 <= speed < 300,
    ;
}

/// A hit keeps the game coherent, and valid if it was.
pub proof fn lemma_hit_coherent(v: GameView, character: char, k: int, burst: Seq<Particle>)
    requires
        coherent(v),
        v.total_count < u32::MAX,
        0 <= k < v.letters.len(),
        is_burst(burst, v.letters[k].x, v.letters[k].y),
    ensures
        coherent(hit(v, character, k, burst)),
        rested(v) ==> rested(hit(v, character, k, burst)),
        valid(v) ==> valid(hit(v, character, k, burst)),
        v.score + points(v.combo + 1) <= u64::MAX,
{
    let post = hit(v, character, k, burst);
    let c = v.correct_count as int;
    let rate = v.level.spawn_rate as int;
    let n = v.letters.len() as int;
    lemma_points_bounded(v.combo + 1);
    assert((c + 1) * (c + 22) == c * (c + 21) + 2 * c + 22) by (nonlinear_arith);
    assert(c * (c + 21) <= 0xffff_ffff * (0xffff_ffff + 21)) by (nonlinear_arith)
        requires
            0 <= c <= 0xffff_ffff,
    ;
    assert((n - 1) * rate <= n * rate) by (nonlinear_arith)
        requires
            0 <= rate,
    ;
    assert(letter_ok(v.letters[k]));
    assert forall|i: int| 0 <= i < post.particles.len() implies particle_ok(
        #[trigger] post.particles[i],
    ) by {
        if i < v.particles.len() {
            assert(post.particles[i] == v.particles[i]);
        } else {
            let j = i - v.particles.len();
            assert(post.particles[i] == burst[j]);
            lemma_launch_ok(burst[j], v.letters[k].x, v.letters[k].y);
        }
    }
    assert forall|i: int| 0 <= i < post.letters.len() implies letter_ok(
        #[trigger] post.letters[i],
    ) by {
        if i < k {
            assert(post.letters[i] == v.letters[i]);
        } else {
            assert(post.letters[i] == v.letters[i + 1]);
        }
    }
    if rested(v) {
        assert forall|i: int| 0 <= i < post.letters.len() implies letter_rested(
            #[trigger] post.letters[i],
        ) by {
            if i < k {
                assert(post.letters[i] == v.letters[i]);
            } else {
                assert(post.letters[i] == v.letters[i + 1]);
            }
        }
    }
}

/// A miss keeps the game coherent, and valid if it was.
pub proof fn lemma_missed_coherent(v: GameView, character: char)
    requires
        coherent(v),
        v.total_count < u32::MAX,
    ensures
        coherent(missed(v, character)),
        rested(v) ==> rested(missed(v, character)),
        valid(v) ==> valid(missed(v, character)),
{
}

/// A rested letter can fall for any time a frame may take, and stays within its bounds.
pub proof fn lemma_letter_step(l: Letter, delta: u32)
    requires
        letter_ok(l),
        letter_rested(l),
    ensures
        l.can_advance(delta),
        letter_ok(l.advanced(delta)),
        l.advanced(delta).y == l.y + l.speed * delta,
{
    assert(0 <= l.speed * delta <= 200_000 * 0xffff_ffff) by (nonlinear_arith)
        requires
            0 <= l.speed <= 200_000,
            0 <= delta <= 0xffff_ffff,
    ;
}

/// A live spark can move for any time a frame may take, and stays within
/// its bounds unless it burns out.
pub proof fn lemma_particle_step(p: Particle, delta: u32)
    requires
        particle_ok(p),
    ensures
        p.can_advance(delta),
        !p.advanced(delta).expired() ==> particle_ok(p.advanced(delta)),
{
    let d = delta as int;
    assert(-300_000 * d <= p.vx * d <= 300_000 * d) by (nonlinear_arith)
        requires
            -300_000 < p.vx < 300_000,
            0 <= d,
    ;
    assert(-300_000 * d <= p.vy * d <= 600_000 * d) by (nonlinear_arith)
        requires
            -300_000 < p.vy < 600_000,
            0 <= d,
    ;
}

/// The clocks of a valid game can run on for any time a frame may take.
pub proof fn lemma_ticked_coherent(v: GameView, delta: u32)
    requires
        valid(v),
        v.state == GameState::Playing,
    ensures
        coherent(ticked(v, delta)),
        rested(ticked(v, delta)),
        ticked(v, delta).lives >= 1,
{
}

/// Once a letter is due, the level's speed fits a letter, and whatever
/// spawning a letter and restarting the spawn clock does, the game stays
/// coherent and rested.
pub proof fn lemma_spawn_coherent(v: GameView, screen_width: u32)
    requires
        coherent(v),
        rested(v),
        spawn_due(v),
    ensures
        v.level.fall_speed * 1000 <= SPEED_MAX,
        forall|post: GameView| #[trigger]
            spawn_outcome(v, screen_width, post) ==> coherent(post) && rested(post)
                && post.lives == v.lives && post.state == v.state,
{
    lemma_fixed_level(v.current_level);
    let n = v.letters.len() as int;
    let rate = v.level.spawn_rate as int;
    assert((n + 1) * rate == n * rate + rate) by (nonlinear_arith);
    assert forall|post: GameView| #[trigger]
        spawn_outcome(v, screen_width, post) implies coherent(post) && rested(post) && post.lives
        == v.lives && post.state == v.state by {
        let placed = GameView { spawn_timer: v.spawn_timer, ..post };
        assert(letter_added(v.letters, v.level, screen_width, placed.letters));
        assert(post == (GameView { letters: post.letters, spawn_timer: 0, ..v }));
        if v.level.letters.len() > 0 {
            let (pick, place) = choose|pick: u64, place: u64|
                post.letters == v.letters.push(
                    #[trigger] drawn_letter(v.level, screen_width, pick, place),
                );
            lemma_spawn_x_bounded(screen_width, place);
            let letter = drawn_letter(v.level, screen_width, pick, place);
            assert(letter_ok(letter) && letter_rested(letter));
            assert forall|i: int| 0 <= i < post.letters.len() implies letter_ok(
                #[trigger] post.letters[i],
            ) && letter_rested(post.letters[i]) by {
                if i < v.letters.len() {
                    assert(post.letters[i] == v.letters[i]);
                }
            }
        }
    }
}

/// Every place a letter can be spawned at is between the bounds.
pub proof fn lemma_spawn_x_bounded(screen_width: u32, place: u64)
    ensures
        X_MIN <= spawn_x(screen_width, place) <= X_MAX,
{
}

/// Rested letters can fall for any time a frame may take.
pub proof fn lemma_fallen_coherent(v: GameView, delta: u32)
    requires
        coherent(v),
        rested(v),
    ensures
        forall|i: int| 0 <= i < v.letters.len() ==> (#[trigger] v.letters[i]).can_advance(delta),
        coherent(letters_fallen(v, delta)),
{
    assert forall|i: int| 0 <= i < v.letters.len() implies (#[trigger] v.letters[i]).can_advance(
        delta,
    ) && letter_ok(v.letters[i].advanced(delta)) by {
        lemma_letter_step(v.letters[i], delta);
    }
    assert forall|i: int| 0 <= i < fallen(v.letters, delta).len() implies letter_ok(
        #[trigger] fallen(v.letters, delta)[i],
    ) by {
        assert(letter_ok(v.letters[i].advanced(delta)));
    }
}

/// Every survivor is one of the letters and has not passed the bottom.
pub proof fn lemma_survivors(letters: Seq<Letter>, screen_height: u32)
    ensures
        survivors(letters, screen_height).len() <= letters.len(),
        lost(letters, screen_height) <= letters.len(),
        forall|i: int|
            0 <= i < survivors(letters, screen_height).len() ==> {
                &&& letters.contains(#[trigger] survivors(letters, screen_height)[i])
                &&& !survivors(letters, screen_height)[i].passed_bottom(screen_height)
            },
{
    let keep = |l: Letter| !l.passed_bottom(screen_height);
    letters.lemma_filter_len(keep);
    assert forall|i: int| 0 <= i < survivors(letters, screen_height).len() implies {
        &&& letters.contains(#[trigger] survivors(letters, screen_height)[i])
        &&& !survivors(letters, screen_height)[i].passed_bottom(screen_height)
    } by {
        let l = letters.filter(keep)[i];
        letters.lemma_filter_pred(keep, i);
        assert(letters.filter(keep).contains(l));
        letters.lemma_filter_contains_rev(keep, l);
    }
}

/// Paying for the letters past the bottom keeps the game coherent, leaves
/// it rested, and leaves a life wherever the game goes on.
pub proof fn lemma_grounded_coherent(v: GameView, screen_height: u32)
    requires
        coherent(v),
        v.lives >= 1,
    ensures
        v.lives - lost(v.letters, screen_height) >= i32::MIN,
        coherent(grounded(v, screen_height)),
        rested(grounded(v, screen_height)),
        grounded(v, screen_height).state == GameState::Playing ==> grounded(
            v,
            screen_height,
        ).lives >= 1 && v.state == GameState::Playing,
        grounded(v, screen_height).level_timer == v.level_timer,
        grounded(v, screen_height).level == v.level,
{
    let post = grounded(v, screen_height);
    lemma_fixed_level(v.current_level);
    lemma_survivors(v.letters, screen_height);
    let n = v.letters.len() as int;
    let m = post.letters.len() as int;
    let rate = v.level.spawn_rate as int;
    assert(post.letters == survivors(v.letters, screen_height));
    assert(m * rate <= n * rate && n * 900 <= n * rate) by (nonlinear_arith)
        requires
            0 <= m <= n,
            900 <= rate,
    ;
    assert forall|i: int| 0 <= i < post.letters.len() implies letter_ok(
        #[trigger] post.letters[i],
    ) && letter_rested(post.letters[i]) by {
        let l = post.letters[i];
        assert(v.letters.contains(l));
        let j = choose|j: int| 0 <= j < v.letters.len() && v.letters[j] == l;
        assert(letter_ok(v.letters[j]));
        assert(!l.passed_bottom(screen_height));
    }
}

/// Moving the sparks for any time a frame may take keeps the game coherent.
pub proof fn lemma_sparks_aged_coherent(v: GameView, delta: u32)
    requires
        coherent(v),
    ensures
        forall|i: int|
            0 <= i < v.particles.len() ==> (#[trigger] v.particles[i]).can_advance(delta),
        coherent(sparks_aged(v, delta)),
{
    let moved = v.particles.map_values(|p: Particle| p.advanced(delta));
    let alive = |p: Particle| !p.expired();
    assert forall|i: int| 0 <= i < v.particles.len() implies (
    #[trigger] v.particles[i]).can_advance(delta) by {
        lemma_particle_step(v.particles[i], delta);
    }
    assert forall|i: int| 0 <= i < aged(v.particles, delta).len() implies particle_ok(
        #[trigger] aged(v.particles, delta)[i],
    ) by {
        let p = moved.filter(alive)[i];
        moved.lemma_filter_pred(alive, i);
        assert(moved.filter(alive).contains(p));
        moved.lemma_filter_contains_rev(alive, p);
        let j = choose|j: int| 0 <= j < moved.len() && moved[j] == p;
        lemma_particle_step(v.particles[j], delta);
    }
}

/// Leaving an end screen for the menu keeps a valid game valid.
pub proof fn lemma_back_in_menu_valid(v: GameView)
    requires
        valid(v),
    ensures
        valid(back_in_menu(v)),
{
    let n = v.letters.len() as int;
    let rate = v.level.spawn_rate as int;
    assert(0 <= n * rate) by (nonlinear_arith)
        requires
            0 <= n,
            0 <= rate,
    ;
}

/// A frame of play that was coherent and rested before its last step ends
/// valid, if a life is left wherever the game goes on.
pub proof fn lemma_completed_valid(v: GameView)
    requires
        coherent(v),
        rested(v),
        v.state != GameState::Menu,
        v.state == GameState::Playing ==> v.lives >= 1,
    ensures
        valid(completed(v)),
{
}

} // verus!
