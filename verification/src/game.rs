//! The game itself: the state machine that one call per frame drives.

use vstd::prelude::*;
use crate::color::Color;
use crate::entities::{Letter, Particle, Player, UNIT};
use crate::input::{lemma_pressed_step, pressed, Frame, KEYS, KEY_COUNT};
use crate::levels::Level;
use crate::model::{
    back_in_menu, completed, flash_intensity, game_over_outcome, grounded, has_match, hit, initial,
    is_burst, is_target, keys_resolved, lemma_keys_resolved_step, letter_spawned, letters_fallen,
    level_complete_outcome, menu_outcome, missed, playing_outcome, same_course, sparks_aged,
    spawn_outcome, started, tally, ticked, time_left, typed_outcome, update_outcome, GameView,
    BURST_SIZE, FLASH_DECAY, FLASH_TIME, SHAKE_DECAY, SHAKE_ON_HIT,
};
pub use crate::model::GameState;
use crate::scoring::{accuracy, accuracy_percent, penalize, points_for_combo};
use crate::steps::{advance_letters, age_particles, remove_lost, spawn_letter};
use crate::tally::Tally;
use crate::validity::{
    coherent, lemma_back_in_menu_valid, lemma_completed_valid, lemma_fallen_coherent,
    lemma_grounded_coherent, lemma_hit_coherent, lemma_initial_valid, lemma_missed_coherent,
    lemma_promoted_startable, lemma_sparks_aged_coherent, lemma_spawn_coherent, lemma_started_valid,
    lemma_ticked_coherent, rested, startable, valid,
};

verus! {

/// A game: the phase, the player, what is on screen, and the counters and
/// clocks of the running session.
pub struct Game {
    state: GameState,
    player: Player,
    letters: Vec<Letter>,
    particles: Vec<Particle>,
    current_level: usize,
    level: Level,
    score: u64,
    combo: u32,
    correct_count: u32,
    total_count: u32,
    spawn_timer: u64,
    level_timer: u64,
    screen_shake: u32,
    typed_letters: Tally,
    errors: Tally,
    flash_timer: u32,
    flash_color: Color,
}

impl View for Game {
    type V = GameView;

    closed spec fn view(&self) -> GameView {
        GameView {
            state: self.state,
            player_x: self.player.x as int,
            player_y: self.player.y as int,
            lives: self.player.lives as int,
            max_lives: self.player.max_lives as int,
            letters: self.letters@,
            particles: self.particles@,
            current_level: self.current_level as nat,
            level: self.level@,
            score: self.score as nat,
            combo: self.combo as nat,
            correct_count: self.correct_count as nat,
            total_count: self.total_count as nat,
            spawn_timer: self.spawn_timer as nat,
            level_timer: self.level_timer as nat,
            screen_shake: self.screen_shake as nat,
            typed_letters: self.typed_letters@,
            errors: self.errors@,
            flash_timer: self.flash_timer as nat,
            flash_color: self.flash_color,
        }
    }
}

/// Finds the letter that typing `character` destroys: among the letters
/// that show it the lowest one, and of several equally low the first.
pub fn find_target(letters: &Vec<Letter>, character: char) -> (found: Option<usize>)
    ensures
        match found {
            Some(k) => is_target(letters@, character, k as int),
            None => !has_match(letters@, character),
        },
{
    let mut found: Option<usize> = None;
    let mut lowest: i64 = 0;
    let mut i: usize = 0;
    while i < letters.len()
        invariant
            i <= letters.len(),
            match found {
                Some(k) => {
                    &&& k < i
                    &&& letters@[k as int].char == character
                    &&& letters@[k as int].y == lowest
                    &&& forall|j: int|
                        0 <= j < i && #[trigger] letters@[j].char == character
                            ==> letters@[j].y <= lowest
                    &&& forall|j: int|
                        0 <= j < k && #[trigger] letters@[j].char == character
                            ==> letters@[j].y < lowest
                },
                None => forall|j: int| 0 <= j < i ==> #[trigger] letters@[j].char != character,
            },
        decreases letters.len() - i,
    {
        if letters[i].char == character && (found.is_none() || letters[i].y > lowest) {
            found = Some(i);
            lowest = letters[i].y;
        }
        i = i + 1;
    }
    found
}

/// The sparks that a letter destroyed at `(x, y)` throws off.
pub fn burst_at(x: i64, y: i64) -> (burst: Vec<Particle>)
    ensures
        is_burst(burst@, x, y),
{
    let mut burst: Vec<Particle> = Vec::new();
    let mut n: usize = 0;
    while n < BURST_SIZE
        invariant
            n <= BURST_SIZE,
            burst@.len() == n,
            forall|i: int| 0 <= i < burst@.len() ==> (#[trigger] burst@[i]).is_launch(x, y),
        decreases BURST_SIZE - n,
    {
        burst.push(Particle::new(x, y));
        n = n + 1;
    }
    burst
}

impl Game {
    /// Whether the game is as it can be between two frames.
    pub open spec fn wf(&self) -> bool {
        valid(self@)
    }

    /// A game in the menu, on the first level.
    pub fn new() -> (game: Game)
        ensures
            game@ == initial(),
            game.wf(),
    {
        proof {
            lemma_initial_valid();
        }
        Game {
            state: GameState::Menu,
            player: Player::new(400 * UNIT, 550 * UNIT),
            letters: Vec::new(),
            particles: Vec::new(),
            current_level: 0,
            level: Level::get_level(0),
            score: 0,
            combo: 0,
            correct_count: 0,
            total_count: 0,
            spawn_timer: 0,
            level_timer: 0,
            screen_shake: 0,
            typed_letters: Tally::new(),
            errors: Tally::new(),
            flash_timer: 0,
            flash_color: Color::from_rgba(0, 0, 0, 0),
        }
    }

    /// The phase the game is in.
    pub fn state(&self) -> (state: GameState)
        ensures
            state == self@.state,
    {
        self.state
    }

    /// The player, with the lives that are left.
    pub fn player(&self) -> (player: Player)
        ensures
            player.x == self@.player_x,
            player.y == self@.player_y,
            player.lives == self@.lives,
            player.max_lives == self@.max_lives,
    {
        self.player
    }

    /// The letters on screen.
    pub fn letters(&self) -> (letters: &Vec<Letter>)
        ensures
            letters@ == self@.letters,
    {
        &self.letters
    }

    /// The sparks on screen.
    pub fn particles(&self) -> (particles: &Vec<Particle>)
        ensures
            particles@ == self@.particles,
    {
        &self.particles
    }

    /// The index of the current level.
    pub fn current_level(&self) -> (index: usize)
        ensures
            index == self@.current_level,
    {
        self.current_level
    }

    /// The current level.
    pub fn level(&self) -> (level: &Level)
        ensures
            level@ == self@.level,
    {
        &self.level
    }

    /// The score of the session.
    pub fn score(&self) -> (score: u64)
        ensures
            score == self@.score,
    {
        self.score
    }

    /// The number of hits in a row.
    pub fn combo(&self) -> (combo: u32)
        ensures
            combo == self@.combo,
    {
        self.combo
    }

    /// The number of typed characters that hit a letter.
    pub fn correct_count(&self) -> (count: u32)
        ensures
            count == self@.correct_count,
    {
        self.correct_count
    }

    /// The number of typed characters.
    pub fn total_count(&self) -> (count: u32)
        ensures
            count == self@.total_count,
    {
        self.total_count
    }

    /// Milliseconds since the last letter was spawned.
    pub fn spawn_timer(&self) -> (timer: u64)
        ensures
            timer == self@.spawn_timer,
    {
        self.spawn_timer
    }

    /// Milliseconds since the session started.
    pub fn level_timer(&self) -> (timer: u64)
        ensures
            timer == self@.level_timer,
    {
        self.level_timer
    }

    /// The strength of the screen shake, in thousandths.
    pub fn screen_shake(&self) -> (shake: u32)
        ensures
            shake == self@.screen_shake,
    {
        self.screen_shake
    }

    /// Milliseconds of flash that are left.
    pub fn flash_timer(&self) -> (timer: u32)
        ensures
            timer == self@.flash_timer,
    {
        self.flash_timer
    }

    /// The colour of the last flash.
    pub fn flash_color(&self) -> (color: Color)
        ensures
            color == self@.flash_color,
    {
        self.flash_color
    }

    /// How often `character` was typed and hit a letter in this session.
    pub fn typed_count(&self, character: char) -> (count: u32)
        ensures
            count == tally(self@.typed_letters, character),
    {
        self.typed_letters.count(character)
    }

    /// How often `character` was typed and hit nothing in this session.
    pub fn error_count(&self, character: char) -> (count: u32)
        ensures
            count == tally(self@.errors, character),
    {
        self.errors.count(character)
    }

    /// The share of typed characters that hit a letter, in percent.
    pub fn accuracy(&self) -> (percent: u64)
        ensures
            percent == accuracy(self@.correct_count, self@.total_count),
    {
        accuracy_percent(self.correct_count, self.total_count)
    }

    /// The milliseconds left on the level clock, if the level ends at all.
    pub fn time_remaining(&self) -> (left: Option<u64>)
        ensures
            match left {
                Some(t) => time_left(self@) == Some(t as nat),
                None => time_left(self@) is None,
            },
    {
        match self.level.duration {
            Some(duration) => {
                if self.level_timer <= duration {
                    Some(duration - self.level_timer)
                } else {
                    Some(0)
                }
            },
            None => None,
        }
    }

    /// The opacity to draw the flash with.
    pub fn flash_alpha(&self) -> (alpha: u8)
        ensures
            alpha == flash_intensity(self@.flash_timer, self@.flash_color),
    {
        let faded: u64 = (self.flash_timer as u64) * 255 * 5 / 1000;
        if faded <= self.flash_color.a as u64 {
            faded as u8
        } else {
            self.flash_color.a
        }
    }

    /// Whether the counters have room for the keys of `frame`, so that
    /// `update` may be called with it.
    pub fn can_update(&self, frame: &Frame) -> (room: bool)
        ensures
            room == (self@.state == GameState::Playing ==> self@.total_count + pressed(
                frame.keys@,
                KEY_COUNT as int,
            ) <= u32::MAX),
    {
        match self.state {
            GameState::Playing => {
                self.total_count as u64 + frame.pressed_count() as u64 <= u32::MAX as u64
            },
            _ => true,
        }
    }

    /// Starts a session on the current level.
    fn start_game(&mut self)
        requires
            startable(old(self)@),
        ensures
            final(self)@ == started(old(self)@),
            final(self).wf(),
    {
        proof {
            lemma_started_valid(self@);
        }
        self.state = GameState::Playing;
        self.player.lives = self.player.max_lives;
        self.letters.clear();
        self.particles.clear();
        self.score = 0;
        self.combo = 0;
        self.correct_count = 0;
        self.total_count = 0;
        self.spawn_timer = 0;
        self.level_timer = 0;
        self.flash_timer = 0;
        self.typed_letters.clear();
        self.errors.clear();
    }

    /// Sets off a flash of the given colour.
    fn trigger_flash(&mut self, color: Color)
        ensures
            final(self)@ == (GameView {
                flash_timer: FLASH_TIME as nat,
                flash_color: color,
                ..old(self)@
            }),
    {
        self.flash_timer = FLASH_TIME;
        self.flash_color = color;
    }

    /// Leaves an end screen for the menu and clears the screen.
    fn return_to_menu(&mut self)
        requires
            old(self).wf(),
        ensures
            final(self)@ == back_in_menu(old(self)@),
            final(self).wf(),
    {
        proof {
            lemma_back_in_menu_valid(self@);
        }
        self.state = GameState::Menu;
        self.letters.clear();
        self.particles.clear();
    }

    /// One frame in the menu.
    fn update_menu(&mut self, frame: &Frame)
        requires
            old(self).wf(),
        ensures
            final(self)@ == menu_outcome(old(self)@, *frame),
            final(self).wf(),
    {
        if frame.confirm {
            self.start_game();
        }
    }

    /// One frame after a level is complete.
    fn update_level_complete(&mut self, frame: &Frame)
        requires
            old(self).wf(),
        ensures
            final(self)@ == level_complete_outcome(old(self)@, *frame),
            final(self).wf(),
    {
        if frame.confirm {
            proof {
                lemma_promoted_startable(self@);
            }
            self.current_level = self.current_level + 1;
            if self.current_level >= Level::total_levels() {
                self.current_level = Level::total_levels() - 1;
            }
            self.level = Level::get_level(self.current_level);
            self.start_game();
        } else if frame.menu {
            self.return_to_menu();
        }
    }

    /// One frame after the game is over.
    fn update_game_over(&mut self, frame: &Frame)
        requires
            old(self).wf(),
        ensures
            final(self)@ == game_over_outcome(old(self)@, *frame),
            final(self).wf(),
    {
        if frame.confirm || frame.retry {
            self.start_game();
        } else if frame.menu {
            self.return_to_menu();
        }
    }

    /// Resolves one typed character. If a letter shows it, the lowest such
    /// letter bursts and the hit is scored; if none does, the miss is paid for.
    pub fn handle_letter_typed(&mut self, typed_char: char)
        requires
            coherent(old(self)@),
            old(self)@.total_count < u32::MAX,
        ensures
            typed_outcome(old(self)@, typed_char, final(self)@),
            coherent(final(self)@),
            rested(old(self)@) ==> rested(final(self)@),
            same_course(old(self)@, final(self)@),
            old(self).wf() ==> final(self).wf(),
    {
        self.total_count = self.total_count + 1;
        match find_target(&self.letters, typed_char) {
            Some(index) => {
                let ghost k = index as int;
                let letter = self.letters[index];
                let mut burst = burst_at(letter.x, letter.y);
                let ghost sparks = burst@;
                proof {
                    lemma_hit_coherent(old(self)@, typed_char, k, sparks);
                }
                self.letters.remove(index);
                self.correct_count = self.correct_count + 1;
                self.combo = self.combo + 1;
                self.score = self.score + points_for_combo(self.combo);
                self.typed_letters.bump(typed_char);
                self.particles.append(&mut burst);
                self.screen_shake = SHAKE_ON_HIT;
                self.trigger_flash(Color::from_rgba(57, 255, 20, 80));
                assert(self@ == hit(old(self)@, typed_char, k, sparks));
            },
            None => {
                proof {
                    lemma_missed_coherent(old(self)@, typed_char);
                }
                self.combo = 0;
                self.score = penalize(self.score);
                self.errors.bump(typed_char);
                self.trigger_flash(Color::from_rgba(255, 51, 102, 150));
                assert(self@ == missed(old(self)@, typed_char));
            },
        }
    }

    /// Resolves the pressed keys of a frame, in the order of `KEYS`.
    fn handle_input(&mut self, keys: &[bool; 27])
        requires
            coherent(old(self)@),
            old(self)@.total_count + pressed(keys@, KEY_COUNT as int) <= u32::MAX,
        ensures
            keys_resolved(old(self)@, keys@, KEY_COUNT as int, final(self)@),
            coherent(final(self)@),
            rested(old(self)@) ==> rested(final(self)@),
            same_course(old(self)@, final(self)@),
    {
        let mut i: usize = 0;
        while i < KEY_COUNT
            invariant
                i <= KEY_COUNT,
                keys_resolved(old(self)@, keys@, i as int, self@),
                coherent(self@),
                rested(old(self)@) ==> rested(self@),
                same_course(old(self)@, self@),
                self@.total_count + pressed(keys@, KEY_COUNT as int) - pressed(keys@, i as int)
                    <= u32::MAX,
            decreases KEY_COUNT - i,
        {
            proof {
                lemma_pressed_step(keys@, i as int, KEY_COUNT as int);
            }
            let ghost mid = self@;
            if keys[i] {
                self.handle_letter_typed(KEYS[i]);
            }
            proof {
                lemma_keys_resolved_step(old(self)@, keys@, i as int + 1, mid, self@);
            }
            i = i + 1;
        }
    }

    /// Step one of a frame: the clocks run on, shake and flash fade.
    fn tick(&mut self, delta: u32)
        requires
            old(self).wf(),
            old(self)@.state == GameState::Playing,
        ensures
            final(self)@ == ticked(old(self)@, delta),
            coherent(final(self)@),
            rested(final(self)@),
            final(self)@.lives >= 1,
    {
        proof {
            lemma_ticked_coherent(self@, delta);
        }
        self.level_timer = self.level_timer + delta as u64;
        self.spawn_timer = self.spawn_timer + delta as u64;
        let shake_fade: u64 = (SHAKE_DECAY as u64) * (delta as u64);
        if self.screen_shake as u64 >= shake_fade {
            self.screen_shake = self.screen_shake - shake_fade as u32;
        } else {
            self.screen_shake = 0;
        }
        let flash_fade: u64 = (FLASH_DECAY as u64) * (delta as u64);
        if self.flash_timer as u64 >= flash_fade {
            self.flash_timer = self.flash_timer - flash_fade as u32;
        } else {
            self.flash_timer = 0;
        }
    }

    /// Step two of a frame: once the spawn clock has reached the level's
    /// spawn interval, a letter is spawned and the clock starts over.
    fn spawn_when_due(&mut self, screen_width: u32)
        requires
            coherent(old(self)@),
            rested(old(self)@),
        ensures
            spawn_outcome(old(self)@, screen_width, final(self)@),
            coherent(final(self)@),
            rested(final(self)@),
            final(self)@.lives == old(self)@.lives,
            final(self)@.state == old(self)@.state,
    {
        if self.spawn_timer >= self.level.spawn_rate {
            proof {
                lemma_spawn_coherent(self@, screen_width);
            }
            spawn_letter(&mut self.letters, &self.level, screen_width);
            self.spawn_timer = 0;
            assert(letter_spawned(
                old(self)@,
                screen_width,
                GameView { spawn_timer: old(self)@.spawn_timer, ..self@ },
            ));
        }
    }

    /// Step three of a frame: the letters fall.
    fn fall(&mut self, delta: u32)
        requires
            coherent(old(self)@),
            rested(old(self)@),
        ensures
            final(self)@ == letters_fallen(old(self)@, delta),
            coherent(final(self)@),
    {
        proof {
            lemma_fallen_coherent(self@, delta);
        }
        advance_letters(&mut self.letters, delta);
    }

    /// Step four of a frame: every letter past the bottom is removed and
    /// costs a life; the combo is gone, the screen flashes, and the game is
    /// over once no life is left.
    fn ground(&mut self, screen_height: u32)
        requires
            coherent(old(self)@),
            old(self)@.lives >= 1,
        ensures
            final(self)@ == grounded(old(self)@, screen_height),
            coherent(final(self)@),
            rested(final(self)@),
            final(self)@.state == GameState::Playing ==> final(self)@.lives >= 1,
            old(self)@.state != GameState::Menu ==> final(self)@.state != GameState::Menu,
    {
        proof {
            lemma_grounded_coherent(self@, screen_height);
        }
        let misses: usize = remove_lost(&mut self.letters, screen_height);
        if misses > 0 {
            self.player.lives = (self.player.lives as i64 - misses as i64) as i32;
            self.combo = 0;
            self.trigger_flash(Color::from_rgba(255, 51, 102, 100));
            if self.player.lives <= 0 {
                self.state = GameState::GameOver;
            }
        }
    }

    /// Step six of a frame: the sparks move and the burnt-out ones go.
    fn age_sparks(&mut self, delta: u32)
        requires
            coherent(old(self)@),
        ensures
            final(self)@ == sparks_aged(old(self)@, delta),
            coherent(final(self)@),
    {
        proof {
            lemma_sparks_aged_coherent(self@, delta);
        }
        age_particles(&mut self.particles, delta);
    }

    /// Step seven of a frame: the level is complete once its time is up
    /// and a life is left.
    fn check_completion(&mut self)
        ensures
            final(self)@ == completed(old(self)@),
    {
        match self.level.duration {
            Some(duration) => {
                if self.level_timer >= duration && self.player.lives > 0 {
                    self.state = GameState::LevelComplete;
                }
            },
            None => {},
        }
    }

    /// One frame while playing: the seven steps in their order.
    fn update_playing(&mut self, frame: &Frame)
        requires
            old(self).wf(),
            old(self)@.state == GameState::Playing,
            old(self)@.total_count + pressed(frame.keys@, KEY_COUNT as int) <= u32::MAX,
        ensures
            playing_outcome(old(self)@, *frame, final(self)@),
            final(self).wf(),
    {
        self.tick(frame.delta);
        self.spawn_when_due(frame.screen_width);
        let ghost spawned = self@;
        self.fall(frame.delta);
        self.ground(frame.screen_height);
        self.handle_input(&frame.keys);
        let ghost resolved = self@;
        self.age_sparks(frame.delta);
        proof {
            lemma_completed_valid(self@);
        }
        self.check_completion();
        assert(spawn_outcome(ticked(old(self)@, frame.delta), frame.screen_width, spawned));
        assert(keys_resolved(
            grounded(letters_fallen(spawned, frame.delta), frame.screen_height),
            frame.keys@,
            KEY_COUNT as int,
            resolved,
        ));
        assert(self@ == completed(sparks_aged(resolved, frame.delta)));
    }

    /// Advances the game by one frame: in the menu and on the end screens
    /// it waits for a key, while playing it runs the simulation.
    pub fn update(&mut self, frame: &Frame)
        requires
            old(self).wf(),
            old(self)@.state == GameState::Playing ==> old(self)@.total_count + pressed(
                frame.keys@,
                KEY_COUNT as int,
            ) <= u32::MAX,
        ensures
            update_outcome(old(self)@, *frame, final(self)@),
            final(self).wf(),
    {
        match self.state {
            GameState::Menu => self.update_menu(frame),
            GameState::Playing => self.update_playing(frame),
            GameState::LevelComplete => self.update_level_complete(frame),
            GameState::GameOver => self.update_game_over(frame),
        }
    }
}

} // verus!
