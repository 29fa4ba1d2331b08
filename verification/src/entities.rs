//! The things on screen: falling letters, sparks and the player.

use vstd::prelude::*;
use crate::color::{cyan, Color};
use crate::heading::{cosine, cosine_milli, sine, sine_milli};
use crate::random::random_u64;

verus! {

/// Micro-units in one screen unit.
pub const UNIT: i64 = 1_000_000;

/// Where a new letter starts: fifty units above the top edge.
pub const LETTER_START_Y: i64 = -50_000_000;

/// The size of every letter.
pub const LETTER_SIZE: u32 = 40_000_000;

/// How far below the bottom edge, in units, a letter may sink before it counts as lost.
pub const GROUND_MARGIN: u32 = 50;

/// Downward acceleration of a spark, in micro-units per millisecond, per millisecond.
pub const GRAVITY: i64 = 300;

/// How long a spark lives, in milliseconds.
pub const PARTICLE_LIFE: i64 = 1000;

/// A falling letter. Positions and size are in micro-units, the speed in
/// micro-units per millisecond.
#[derive(Clone, Copy, Debug, PartialEq, Eq, Structural)]
pub struct Letter {
    pub char: char,
    pub x: i64,
    pub y: i64,
    pub speed: u64,
    pub size: u32,
    pub color: Color,
    pub is_targeted: bool,
}

impl Letter {
    /// The letter as it is spawned.
    pub open spec fn spawned(character: char, x: i64, speed: u64) -> Letter {
        Letter {
            char: character,
            x,
            y: LETTER_START_Y,
            speed,
            size: LETTER_SIZE,
            color: cyan(),
            is_targeted: false,
        }
    }

    /// Whether the letter can fall for `delta` milliseconds without its
    /// position leaving the range of the machine integer.
    pub open spec fn can_advance(self, delta: u32) -> bool {
        self.y + self.speed * delta <= i64::MAX
    }

    /// The letter after falling for `delta` milliseconds.
    pub open spec fn advanced(self, delta: u32) -> Letter {
        Letter { y: (self.y + self.speed * delta) as i64, ..self }
    }

    /// Whether the letter has sunk past the grace margin below a screen
    /// that is `screen_height` units high.
    pub open spec fn passed_bottom(self, screen_height: u32) -> bool {
        self.y > (screen_height + GROUND_MARGIN) * UNIT
    }

    /// A new letter above the top edge, at horizontal position `x`.
    pub fn new(character: char, x: i64, speed: u64) -> (letter: Letter)
        ensures
            letter == Letter::spawned(character, x, speed),
    {
        Letter {
            char: character,
            x,
            y: LETTER_START_Y,
            speed,
            size: LETTER_SIZE,
            color: Color::from_rgba(0, 240, 255, 255),
            is_targeted: false,
        }
    }

    /// Lets the letter fall for `delta` milliseconds: straight down, by
    /// exactly its speed times the time.
    pub fn update(&mut self, delta: u32)
        requires
            old(self).can_advance(delta),
        ensures
            *final(self) == old(self).advanced(delta),
            final(self).y == old(self).y + old(self).speed * delta,
            final(self).y >= old(self).y,
    {
        assert(0 <= self.speed * delta <= 0xffff_ffff_ffff_ffff * 0xffff_ffff) by (nonlinear_arith)
            requires
                0 <= self.speed <= 0xffff_ffff_ffff_ffff,
                0 <= delta <= 0xffff_ffff,
        ;
        let fall: i128 = (self.speed as i128) * (delta as i128);
        self.y = (self.y as i128 + fall) as i64;
    }

    /// Whether the letter is lost: strictly below the bottom edge plus the margin.
    pub fn is_off_screen(&self, screen_height: u32) -> (off: bool)
        ensures
            off == self.passed_bottom(screen_height),
    {
        self.y > (screen_height as i64 + GROUND_MARGIN as i64) * UNIT
    }
}

/// A spark thrown off by a destroyed letter. Positions and size are in
/// micro-units, velocities in micro-units per millisecond, lives in
/// milliseconds.
#[derive(Clone, Copy, Debug, PartialEq, Eq, Structural)]
pub struct Particle {
    pub x: i64,
    pub y: i64,
    pub vx: i64,
    pub vy: i64,
    pub life: i64,
    pub max_life: i64,
    pub size: u32,
    pub color: Color,
}

impl Particle {
    /// The spark that three drawn numbers give at `(x, y)`: a heading in
    /// whole degrees, a speed from 100 up to 300 units per second, and a
    /// size from 3 up to 8 units.
    pub open spec fn launched(
        x: i64,
        y: i64,
        heading_draw: u64,
        speed_draw: u64,
        size_draw: u64,
    ) -> Particle {
        let heading = (heading_draw % 360) as int;
        let speed = 100 + (speed_draw % 200) as int;
        Particle {
            x,
            y,
            vx: (cosine_milli(heading) * speed) as i64,
            vy: (sine_milli(heading) * speed) as i64,
            life: PARTICLE_LIFE,
            max_life: PARTICLE_LIFE,
            size: (3_000_000 + size_draw % 5_000_000) as u32,
            color: cyan(),
        }
    }

    /// Whether the spark is one that some three numbers give at `(x, y)`.
    pub open spec fn is_launch(self, x: i64, y: i64) -> bool {
        exists|heading_draw: u64, speed_draw: u64, size_draw: u64|
            self == #[trigger] Particle::launched(x, y, heading_draw, speed_draw, size_draw)
    }

    /// Whether the spark can move for `delta` milliseconds without a
    /// coordinate, its falling speed or its life leaving the range of the
    /// machine integer.
    pub open spec fn can_advance(self, delta: u32) -> bool {
        &&& i64::MIN <= self.x + self.vx * delta <= i64::MAX
        &&& i64::MIN <= self.y + self.vy * delta <= i64::MAX
        &&& self.vy + GRAVITY * delta <= i64::MAX
        &&& i64::MIN <= self.life - delta
    }

    /// The spark after `delta` milliseconds: moved by its velocity, pulled
    /// down by gravity, and older by `delta`.
    pub open spec fn advanced(self, delta: u32) -> Particle {
        Particle {
            x: (self.x + self.vx * delta) as i64,
            y: (self.y + self.vy * delta) as i64,
            vy: (self.vy + GRAVITY * delta) as i64,
            life: (self.life - delta) as i64,
            ..self
        }
    }

    /// Whether the spark has burnt out.
    pub open spec fn expired(self) -> bool {
        self.life <= 0
    }

    /// The opacity of the spark: the fraction of its life that is left, on
    /// the scale from 0 to 255.
    pub open spec fn opacity(self) -> int {
        if self.max_life <= 0 || self.life <= 0 {
            0
        } else if self.life >= self.max_life {
            255
        } else {
            self.life * 255 / (self.max_life as int)
        }
    }

    /// The spark that the three drawn numbers give at `(x, y)`.
    pub fn launch(x: i64, y: i64, heading_draw: u64, speed_draw: u64, size_draw: u64) -> (p:
        Particle)
        ensures
            p == Particle::launched(x, y, heading_draw, speed_draw, size_draw),
            p.is_launch(x, y),
            -300_000 < p.vx < 300_000,
            -300_000 < p.vy < 300_000,
            3_000_000 <= p.size < 8_000_000,
    {
        let heading: u32 = (heading_draw % 360) as u32;
        let speed: i64 = 100 + (speed_draw % 200) as i64;
        let c: i64 = cosine(heading);
        let s: i64 = sine(heading);
        assert(heading as int % 360 == heading);
        assert(c == cosine_milli(heading as int) && s == sine_milli(heading as int));
        assert(-300_000 < c * speed < 300_000 && -300_000 < s * speed < 300_000)
            by (nonlinear_arith)
            requires
                -1000 <= c <= 1000,
                -1000 <= s <= 1000,
                100 <= speed < 300,
        ;
        let p = Particle {
            x,
            y,
            vx: c * speed,
            vy: s * speed,
            life: PARTICLE_LIFE,
            max_life: PARTICLE_LIFE,
            size: (3_000_000 + size_draw % 5_000_000) as u32,
            color: Color::from_rgba(0, 240, 255, 255),
        };
        assert(p == Particle::launched(x, y, heading_draw, speed_draw, size_draw));
        p
    }

    /// A spark at `(x, y)` with a heading, a speed and a size drawn at random.
    pub fn new(x: i64, y: i64) -> (p: Particle)
        ensures
            p.is_launch(x, y),
    {
        let heading_draw: u64 = random_u64();
        let speed_draw: u64 = random_u64();
        let size_draw: u64 = random_u64();
        Particle::launch(x, y, heading_draw, speed_draw, size_draw)
    }

    /// Moves the spark for `delta` milliseconds.
    pub fn update(&mut self, delta: u32)
        requires
            old(self).can_advance(delta),
        ensures
            *final(self) == old(self).advanced(delta),
            final(self).x == old(self).x + old(self).vx * delta,
            final(self).y == old(self).y + old(self).vy * delta,
            final(self).vy == old(self).vy + GRAVITY * delta,
            final(self).life == old(self).life - delta,
    {
        let d: i128 = delta as i128;
        assert(-0x8000_0000_0000_0000 * 0xffff_ffff <= self.vx * d <= 0x8000_0000_0000_0000
            * 0xffff_ffff && -0x8000_0000_0000_0000 * 0xffff_ffff <= self.vy * d
            <= 0x8000_0000_0000_0000 * 0xffff_ffff) by (nonlinear_arith)
            requires
                -0x8000_0000_0000_0000 <= self.vx <= 0x8000_0000_0000_0000,
                -0x8000_0000_0000_0000 <= self.vy <= 0x8000_0000_0000_0000,
                0 <= d <= 0xffff_ffff,
        ;
        self.x = (self.x as i128 + (self.vx as i128) * d) as i64;
        self.y = (self.y as i128 + (self.vy as i128) * d) as i64;
        self.vy = (self.vy as i128 + (GRAVITY as i128) * d) as i64;
        self.life = (self.life as i128 - d) as i64;
    }

    /// The opacity to draw the spark with: it fades as its life runs out.
    pub fn alpha(&self) -> (a: u8)
        ensures
            a == self.opacity(),
    {
        if self.max_life <= 0 || self.life <= 0 {
            0
        } else if self.life >= self.max_life {
            255
        } else {
            let scaled: i128 = (self.life as i128) * 255;
            let a: i128 = scaled / (self.max_life as i128);
            assert(0 <= self.life * 255 / (self.max_life as int) < 255) by (nonlinear_arith)
                requires
                    0 < self.life < self.max_life,
            ;
            a as u8
        }
    }

    /// Whether the spark has burnt out and is to be removed.
    pub fn is_dead(&self) -> (dead: bool)
        ensures
            dead == self.expired(),
    {
        self.life <= 0
    }
}

/// The player: a fixed position and a count of lives.
#[derive(Clone, Copy, Debug, PartialEq, Eq, Structural)]
pub struct Player {
    pub x: i64,
    pub y: i64,
    pub lives: i32,
    pub max_lives: i32,
}

/// The lives a player starts every session with.
pub const STARTING_LIVES: i32 = 5;

impl Player {
    /// A player at `(x, y)` with all lives.
    pub fn new(x: i64, y: i64) -> (player: Player)
        ensures
            player == (Player { x, y, lives: STARTING_LIVES, max_lives: STARTING_LIVES }),
    {
        Player { x, y, lives: STARTING_LIVES, max_lives: STARTING_LIVES }
    }
}

} // verus!
