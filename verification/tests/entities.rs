use typestrike::color::Color;
use typestrike::entities::{
    Letter, Particle, Player, GRAVITY, LETTER_SIZE, LETTER_START_Y, PARTICLE_LIFE, STARTING_LIVES,
    UNIT,
};

const CYAN: Color = Color { r: 0, g: 240, b: 255, a: 255 };

#[test]
fn a_new_letter_starts_above_the_screen() {
    let letter = Letter::new('F', 123 * UNIT, 100_000);
    assert_eq!(letter.char, 'F');
    assert_eq!(letter.x, 123_000_000);
    assert_eq!(letter.y, -50_000_000);
    assert_eq!(letter.y, LETTER_START_Y);
    assert_eq!(letter.speed, 100_000);
    assert_eq!(letter.size, 40_000_000);
    assert_eq!(letter.size, LETTER_SIZE);
    assert_eq!(letter.color, CYAN);
    assert!(!letter.is_targeted);
}

#[test]
fn a_letter_falls_by_speed_times_time() {
    let mut letter = Letter::new('J', 7, 100_000);
    letter.update(16);
    assert_eq!(letter.y, -50_000_000 + 1_600_000);
    letter.update(17);
    assert_eq!(letter.y, -50_000_000 + 1_600_000 + 1_700_000);
    letter.update(0);
    assert_eq!(letter.y, -50_000_000 + 3_300_000);
    assert_eq!(letter.x, 7);
    assert_eq!(letter.speed, 100_000);
    assert_eq!(letter.char, 'J');
}

#[test]
fn a_letter_never_rises() {
    let mut letter = Letter::new('K', 0, 137_000);
    let mut previous = letter.y;
    let mut expected = letter.y;
    for delta in [0u32, 1, 16, 17, 33, 250, 1000, 0, 5] {
        letter.update(delta);
        expected += 137_000 * delta as i64;
        assert!(letter.y >= previous);
        assert_eq!(letter.y, expected);
        previous = letter.y;
    }
}

#[test]
fn a_letter_without_speed_stays() {
    let mut letter = Letter::new('A', 0, 0);
    letter.update(u32::MAX);
    assert_eq!(letter.y, LETTER_START_Y);
}

#[test]
fn a_letter_can_fall_to_the_end_of_the_range() {
    let mut letter = Letter { y: i64::MAX - 10, ..Letter::new('A', 0, 5) };
    letter.update(2);
    assert_eq!(letter.y, i64::MAX);
}

#[test]
fn off_screen_is_strictly_past_the_margin() {
    let mut letter = Letter::new('F', 0, 1);
    letter.y = 650 * UNIT;
    assert!(!letter.is_off_screen(600));
    letter.y = 650 * UNIT + 1;
    assert!(letter.is_off_screen(600));
    letter.y = 650 * UNIT - 1;
    assert!(!letter.is_off_screen(600));
    letter.y = 50 * UNIT;
    assert!(!letter.is_off_screen(0));
    letter.y = 50 * UNIT + 1;
    assert!(letter.is_off_screen(0));
    letter.y = (u32::MAX as i64 + 50) * UNIT;
    assert!(!letter.is_off_screen(u32::MAX));
    letter.y += 1;
    assert!(letter.is_off_screen(u32::MAX));
}

#[test]
fn a_spark_from_three_numbers() {
    let p = Particle::launch(5, 9, 0, 0, 0);
    assert_eq!(p.x, 5);
    assert_eq!(p.y, 9);
    assert_eq!(p.vx, 100_000);
    assert_eq!(p.vy, 0);
    assert_eq!(p.life, 1000);
    assert_eq!(p.max_life, 1000);
    assert_eq!(p.size, 3_000_000);
    assert_eq!(p.color, CYAN);
}

#[test]
fn the_numbers_wrap_around_their_ranges() {
    let p = Particle::launch(0, 0, 360 + 90, 200 + 199, 5_000_000 + 4_999_999);
    assert_eq!(p.vx, 0);
    assert_eq!(p.vy, 299_000);
    assert_eq!(p.size, 7_999_999);
    let q = Particle::launch(0, 0, 210, 100, 1);
    assert_eq!(q.vx, -866 * 200);
    assert_eq!(q.vy, -500 * 200);
    assert_eq!(q.size, 3_000_001);
    let r = Particle::launch(-4, -8, u64::MAX, u64::MAX, u64::MAX);
    let heading = (u64::MAX % 360) as u32;
    let speed = 100 + (u64::MAX % 200) as i64;
    assert_eq!(r.vx, typestrike::heading::cosine(heading) * speed);
    assert_eq!(r.vy, typestrike::heading::sine(heading) * speed);
    assert_eq!(r.size as u64, 3_000_000 + u64::MAX % 5_000_000);
}

#[test]
fn a_random_spark_is_within_its_ranges() {
    for _ in 0..200 {
        let p = Particle::new(11 * UNIT, -3 * UNIT);
        assert_eq!(p.x, 11 * UNIT);
        assert_eq!(p.y, -3 * UNIT);
        assert_eq!(p.life, PARTICLE_LIFE);
        assert_eq!(p.max_life, PARTICLE_LIFE);
        assert!((3_000_000..8_000_000).contains(&p.size));
        assert_eq!(p.color, CYAN);
        let speed_squared = (p.vx as f64).powi(2) + (p.vy as f64).powi(2);
        let speed = speed_squared.sqrt() / 1000.0;
        assert!(speed > 99.0 && speed < 300.5, "speed {}", speed);
        assert!(!p.is_dead());
    }
}

#[test]
fn random_sparks_differ() {
    let first = Particle::new(0, 0);
    let mut differs = false;
    for _ in 0..64 {
        if Particle::new(0, 0) != first {
            differs = true;
        }
    }
    assert!(differs);
}

#[test]
fn a_spark_moves_and_is_pulled_down() {
    let mut p = Particle::launch(1000, 2000, 0, 0, 0);
    p.vy = -50_000;
    p.update(10);
    assert_eq!(p.x, 1000 + 100_000 * 10);
    assert_eq!(p.y, 2000 - 50_000 * 10);
    assert_eq!(p.vx, 100_000);
    assert_eq!(p.vy, -50_000 + 300 * 10);
    assert_eq!(p.vy, -50_000 + GRAVITY * 10);
    assert_eq!(p.life, 990);
    assert_eq!(p.max_life, 1000);
    p.update(20);
    assert_eq!(p.x, 1000 + 100_000 * 30);
    assert_eq!(p.y, 2000 - 50_000 * 10 + (-50_000 + 3000) * 20);
    assert_eq!(p.vy, -50_000 + 300 * 30);
    assert_eq!(p.life, 970);
}

#[test]
fn a_spark_burns_out_after_a_second() {
    let mut p = Particle::launch(0, 0, 45, 17, 99);
    assert!(!p.is_dead());
    p.update(400);
    assert!(!p.is_dead());
    p.update(599);
    assert_eq!(p.life, 1);
    assert!(!p.is_dead());
    p.update(1);
    assert_eq!(p.life, 0);
    assert!(p.is_dead());
    p.update(5);
    assert_eq!(p.life, -5);
    assert!(p.is_dead());
}

#[test]
fn a_spark_fades_with_its_life() {
    let mut p = Particle::launch(0, 0, 0, 0, 0);
    assert_eq!(p.alpha(), 255);
    p.update(500);
    assert_eq!(p.alpha(), 127);
    p.update(499);
    assert_eq!(p.alpha(), 0);
    p.life = 999;
    assert_eq!(p.alpha(), 254);
    p.life = 4;
    assert_eq!(p.alpha(), 1);
    p.life = 0;
    assert_eq!(p.alpha(), 0);
    p.life = -7;
    assert_eq!(p.alpha(), 0);
    p.life = 2000;
    assert_eq!(p.alpha(), 255);
    p.max_life = 0;
    assert_eq!(p.alpha(), 0);
}

#[test]
fn a_new_player_has_five_lives() {
    let player = Player::new(400 * UNIT, 550 * UNIT);
    assert_eq!(player.x, 400_000_000);
    assert_eq!(player.y, 550_000_000);
    assert_eq!(player.lives, 5);
    assert_eq!(player.max_lives, 5);
    assert_eq!(STARTING_LIVES, 5);
}
