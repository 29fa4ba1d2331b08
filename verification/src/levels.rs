//! The level catalogue: eight fixed levels and an endless tier above them.

use vstd::prelude::*;

verus! {

/// How many fixed levels the catalogue holds.
pub const FIXED_LEVELS: usize = 8;

/// One level: which letters fall, how fast, how often and for how long.
///
/// `fall_speed` is in screen units per second, and wide enough for the
/// endless level at any index; `spawn_rate` (the time between two letters)
/// and `duration` are in milliseconds. A level without a duration never
/// ends by the clock.
#[derive(Clone, Debug)]
pub struct Level {
    pub id: String,
    pub name: String,
    pub letters: Vec<char>,
    pub fall_speed: u128,
    pub spawn_rate: u64,
    pub duration: Option<u64>,
    pub description: String,
}

/// What a level is, as plain mathematical values.
pub struct LevelView {
    pub id: Seq<char>,
    pub name: Seq<char>,
    pub letters: Seq<char>,
    pub fall_speed: nat,
    pub spawn_rate: nat,
    pub duration: Option<nat>,
    pub description: Seq<char>,
}

impl View for Level {
    type V = LevelView;

    open spec fn view(&self) -> LevelView {
        LevelView {
            id: self.id@,
            name: self.name@,
            letters: self.letters@,
            fall_speed: self.fall_speed as nat,
            spawn_rate: self.spawn_rate as nat,
            duration: match self.duration {
                Some(d) => Some(d as nat),
                None => None,
            },
            description: self.description@,
        }
    }
}

/// The catalogue entry at `index`: the fixed table below `FIXED_LEVELS`, the
/// endless level, whose speed grows with the index, from there on.
pub open spec fn level_at(index: nat) -> LevelView {
    if index == 0 {
        LevelView {
            id: "1-1"@,
            name: "Home Row: F & J"@,
            letters: seq!['F', 'J'],
            fall_speed: 100,
            spawn_rate: 2000,
            duration: Some(30000nat),
            description: "Place your index fingers on F and J. Feel the bumps!"@,
        }
    } else if index == 1 {
        LevelView {
            id: "1-2"@,
            name: "Home Row: D & K"@,
            letters: seq!['F', 'J', 'D', 'K'],
            fall_speed: 110,
            spawn_rate: 1800,
            duration: Some(30000nat),
            description: "Add your middle fingers on D and K."@,
        }
    } else if index == 2 {
        LevelView {
            id: "1-3"@,
            name: "Home Row: S & L"@,
            letters: seq!['F', 'J', 'D', 'K', 'S', 'L'],
            fall_speed: 120,
            spawn_rate: 1600,
            duration: Some(30000nat),
            description: "Ring fingers on S and L."@,
        }
    } else if index == 3 {
        LevelView {
            id: "1-4"@,
            name: "Home Row: A & ;"@,
            letters: seq!['F', 'J', 'D', 'K', 'S', 'L', 'A', ';'],
            fall_speed: 130,
            spawn_rate: 1500,
            duration: Some(30000nat),
            description: "Pinkies on A and ;"@,
        }
    } else if index == 4 {
        LevelView {
            id: "1-5"@,
            name: "Full Home Row"@,
            letters: seq!['A', 'S', 'D', 'F', 'J', 'K', 'L', ';'],
            fall_speed: 140,
            spawn_rate: 1300,
            duration: Some(60000nat),
            description: "Master the home row!"@,
        }
    } else if index == 5 {
        LevelView {
            id: "2-1"@,
            name: "Upper Row: R & U"@,
            letters: seq!['A', 'S', 'D', 'F', 'J', 'K', 'L', ';', 'R', 'U'],
            fall_speed: 150,
            spawn_rate: 1200,
            duration: Some(45000nat),
            description: "Index fingers reach up to R and U."@,
        }
    } else if index == 6 {
        LevelView {
            id: "2-2"@,
            name: "Upper Row: E & I"@,
            letters: seq!['A', 'S', 'D', 'F', 'J', 'K', 'L', ';', 'R', 'U', 'E', 'I'],
            fall_speed: 160,
            spawn_rate: 1100,
            duration: Some(45000nat),
            description: "Middle fingers to E and I."@,
        }
    } else if index == 7 {
        LevelView {
            id: "2-3"@,
            name: "Speed Challenge"@,
            letters: seq!['A', 'S', 'D', 'F', 'J', 'K', 'L', 'E', 'I', 'R', 'U'],
            fall_speed: 200,
            spawn_rate: 900,
            duration: Some(60000nat),
            description: "All letters you've learned - faster!"@,
        }
    } else {
        LevelView {
            id: "endless"@,
            name: "Endless Mode"@,
            letters: seq!['A', 'S', 'D', 'F', 'J', 'K', 'L', ';', 'E', 'I', 'R', 'U'],
            fall_speed: 150 + 10 * index,
            spawn_rate: 1000,
            duration: None,
            description: "Survive as long as you can!"@,
        }
    }
}

impl Level {
    /// Looks a level up by its index. Every index has a level.
    pub fn get_level(level_num: usize) -> (level: Level)
        ensures
            level@ == level_at(level_num as nat),
    {
        match level_num {
            0 => Level {
                id: "1-1".to_owned(),
                name: "Home Row: F & J".to_owned(),
                letters: vec!['F', 'J'],
                fall_speed: 100,
                spawn_rate: 2000,
                duration: Some(30000),
                description: "Place your index fingers on F and J. Feel the bumps!".to_owned(),
            },
            1 => Level {
                id: "1-2".to_owned(),
                name: "Home Row: D & K".to_owned(),
                letters: vec!['F', 'J', 'D', 'K'],
                fall_speed: 110,
                spawn_rate: 1800,
                duration: Some(30000),
                description: "Add your middle fingers on D and K.".to_owned(),
            },
            2 => Level {
                id: "1-3".to_owned(),
                name: "Home Row: S & L".to_owned(),
                letters: vec!['F', 'J', 'D', 'K', 'S', 'L'],
                fall_speed: 120,
                spawn_rate: 1600,
                duration: Some(30000),
                description: "Ring fingers on S and L.".to_owned(),
            },
            3 => Level {
                id: "1-4".to_owned(),
                name: "Home Row: A & ;".to_owned(),
                letters: vec!['F', 'J', 'D', 'K', 'S', 'L', 'A', ';'],
                fall_speed: 130,
                spawn_rate: 1500,
                duration: Some(30000),
                description: "Pinkies on A and ;".to_owned(),
            },
            4 => Level {
                id: "1-5".to_owned(),
                name: "Full Home Row".to_owned(),
                letters: vec!['A', 'S', 'D', 'F', 'J', 'K', 'L', ';'],
                fall_speed: 140,
                spawn_rate: 1300,
                duration: Some(60000),
                description: "Master the home row!".to_owned(),
            },
            5 => Level {
                id: "2-1".to_owned(),
                name: "Upper Row: R & U".to_owned(),
                letters: vec!['A', 'S', 'D', 'F', 'J', 'K', 'L', ';', 'R', 'U'],
                fall_speed: 150,
                spawn_rate: 1200,
                duration: Some(45000),
                description: "Index fingers reach up to R and U.".to_owned(),
            },
            6 => Level {
                id: "2-2".to_owned(),
                name: "Upper Row: E & I".to_owned(),
                letters: vec!['A', 'S', 'D', 'F', 'J', 'K', 'L', ';', 'R', 'U', 'E', 'I'],
                fall_speed: 160,
                spawn_rate: 1100,
                duration: Some(45000),
                description: "Middle fingers to E and I.".to_owned(),
            },
            7 => Level {
                id: "2-3".to_owned(),
                name: "Speed Challenge".to_owned(),
                letters: vec!['A', 'S', 'D', 'F', 'J', 'K', 'L', 'E', 'I', 'R', 'U'],
                fall_speed: 200,
                spawn_rate: 900,
                duration: Some(60000),
                description: "All letters you've learned - faster!".to_owned(),
            },
            _ => Level {
                id: "endless".to_owned(),
                name: "Endless Mode".to_owned(),
                letters: vec!['A', 'S', 'D', 'F', 'J', 'K', 'L', ';', 'E', 'I', 'R', 'U'],
                fall_speed: 150 + 10 * (level_num as u128),
                spawn_rate: 1000,
                duration: None,
                description: "Survive as long as you can!".to_owned(),
            },
        }
    }

    /// The number of fixed levels; the endless tier is not counted.
    pub fn total_levels() -> (n: usize)
        ensures
            n == FIXED_LEVELS,
    {
        FIXED_LEVELS
    }
}

} // verus!
