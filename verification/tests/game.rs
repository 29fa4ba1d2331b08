use typestrike::color::Color;
use typestrike::entities::{Letter, UNIT};
use typestrike::game::{burst_at, find_target, Game, GameState};
use typestrike::input::Frame;

const WIDTH: u32 = 800;
const HEIGHT: u32 = 600;

fn step(game: &mut Game, frame: &Frame) {
    assert!(game.can_update(frame));
    game.update(frame);
}

fn idle(game: &mut Game, delta: u32) {
    step(game, &Frame::idle(delta, WIDTH, HEIGHT));
}

fn confirm(game: &mut Game) {
    let mut frame = Frame::idle(0, WIDTH, HEIGHT);
    frame.confirm = true;
    step(game, &frame);
}

fn playing() -> Game {
    let mut game = Game::new();
    confirm(&mut game);
    assert_eq!(game.state(), GameState::Playing);
    game
}

fn on_level(index: usize) -> Game {
    let mut game = playing();
    for _ in 0..index {
        step(&mut game, &Frame::idle(60_000, WIDTH, 1_000_000));
        assert_eq!(game.state(), GameState::LevelComplete);
        confirm(&mut game);
    }
    assert_eq!(game.current_level(), index);
    assert_eq!(game.state(), GameState::Playing);
    game
}

fn at(character: char, y: i64) -> Letter {
    Letter { y, ..Letter::new(character, 0, 1) }
}

#[test]
fn a_new_game_waits_in_the_menu() {
    let game = Game::new();
    assert_eq!(game.state(), GameState::Menu);
    assert_eq!(game.current_level(), 0);
    assert_eq!(game.level().id, "1-1");
    assert_eq!(game.player().lives, 5);
    assert_eq!(game.player().max_lives, 5);
    assert_eq!(game.player().x, 400 * UNIT);
    assert_eq!(game.player().y, 550 * UNIT);
    assert!(game.letters().is_empty());
    assert!(game.particles().is_empty());
    assert_eq!(game.score(), 0);
    assert_eq!(game.combo(), 0);
    assert_eq!(game.correct_count(), 0);
    assert_eq!(game.total_count(), 0);
    assert_eq!(game.spawn_timer(), 0);
    assert_eq!(game.level_timer(), 0);
    assert_eq!(game.screen_shake(), 0);
    assert_eq!(game.flash_timer(), 0);
    assert_eq!(game.flash_color(), Color { r: 0, g: 0, b: 0, a: 0 });
    assert_eq!(game.flash_alpha(), 0);
    assert_eq!(game.accuracy(), 100);
    assert_eq!(game.time_remaining(), Some(30_000));
    assert_eq!(game.typed_count('F'), 0);
    assert_eq!(game.error_count('F'), 0);
}

#[test]
fn the_menu_waits_for_a_confirmation() {
    let mut game = Game::new();
    let mut frame = Frame::idle(5000, WIDTH, HEIGHT);
    frame.retry = true;
    frame.menu = true;
    frame.keys = [true; 27];
    step(&mut game, &frame);
    assert_eq!(game.state(), GameState::Menu);
    assert_eq!(game.level_timer(), 0);
    assert_eq!(game.total_count(), 0);
    assert!(game.letters().is_empty());
    confirm(&mut game);
    assert_eq!(game.state(), GameState::Playing);
    assert_eq!(game.player().lives, 5);
    assert_eq!(game.level_timer(), 0);
}

#[test]
fn the_clocks_run_while_playing() {
    let mut game = playing();
    idle(&mut game, 16);
    idle(&mut game, 17);
    assert_eq!(game.level_timer(), 33);
    assert_eq!(game.spawn_timer(), 33);
    assert_eq!(game.time_remaining(), Some(29_967));
    assert!(game.letters().is_empty());
    assert_eq!(game.state(), GameState::Playing);
}

#[test]
fn a_letter_is_spawned_when_it_is_due() {
    let mut game = playing();
    idle(&mut game, 1999);
    assert!(game.letters().is_empty());
    assert_eq!(game.spawn_timer(), 1999);
    idle(&mut game, 1);
    assert_eq!(game.letters().len(), 1);
    assert_eq!(game.spawn_timer(), 0);
    assert_eq!(game.level_timer(), 2000);
    let letter = game.letters()[0];
    assert!(letter.char == 'F' || letter.char == 'J');
    assert!(letter.x >= 60 * UNIT && letter.x < 740 * UNIT);
    assert_eq!(letter.y, -50 * UNIT + 100_000);
    assert_eq!(letter.speed, 100_000);
    assert_eq!(letter.size, 40 * UNIT as u32);
    assert_eq!(letter.color, Color { r: 0, g: 240, b: 255, a: 255 });
    assert!(!letter.is_targeted);
    idle(&mut game, 500);
    assert_eq!(game.letters().len(), 1);
    assert_eq!(game.letters()[0].y, -50 * UNIT + 100_000 + 50_000_000);
    assert_eq!(game.letters()[0].x, letter.x);
}

#[test]
fn one_frame_spawns_one_letter_at_most() {
    let mut game = playing();
    step(&mut game, &Frame::idle(9000, WIDTH, 1_000_000));
    assert_eq!(game.letters().len(), 1);
    assert_eq!(game.spawn_timer(), 0);
    assert_eq!(game.level_timer(), 9000);
}

#[test]
fn a_wrong_key_is_a_miss() {
    let mut game = playing();
    idle(&mut game, 2000);
    let before = game.letters().clone();
    let mut frame = Frame::idle(10, WIDTH, HEIGHT);
    assert!(frame.press('Z'));
    step(&mut game, &frame);
    assert_eq!(game.total_count(), 1);
    assert_eq!(game.correct_count(), 0);
    assert_eq!(game.combo(), 0);
    assert_eq!(game.score(), 0);
    assert_eq!(game.error_count('Z'), 1);
    assert_eq!(game.typed_count('Z'), 0);
    assert_eq!(game.letters().len(), before.len());
    assert!(game.particles().is_empty());
    assert_eq!(game.flash_timer(), 200);
    assert_eq!(game.flash_color(), Color { r: 255, g: 51, b: 102, a: 150 });
    assert_eq!(game.flash_alpha(), 150);
    assert_eq!(game.accuracy(), 0);
    game.handle_letter_typed('Z');
    assert_eq!(game.total_count(), 2);
    assert_eq!(game.error_count('Z'), 2);
}

#[test]
fn a_miss_costs_two_points_but_not_more_than_there_are() {
    let mut game = playing();
    idle(&mut game, 2000);
    let shown = game.letters()[0].char;
    game.handle_letter_typed(shown);
    assert_eq!(game.score(), 10);
    assert_eq!(game.combo(), 1);
    for expected in [8u64, 6, 4, 2, 0, 0, 0] {
        game.handle_letter_typed('Q');
        assert_eq!(game.score(), expected);
        assert_eq!(game.combo(), 0);
    }
    assert_eq!(game.total_count(), 8);
    assert_eq!(game.correct_count(), 1);
    assert_eq!(game.error_count('Q'), 7);
    assert_eq!(game.accuracy(), 12);
}

#[test]
fn the_right_key_is_a_hit() {
    let mut game = playing();
    idle(&mut game, 2000);
    let target = game.letters()[0];
    let mut frame = Frame::idle(100, WIDTH, HEIGHT);
    assert!(frame.press(target.char));
    step(&mut game, &frame);
    assert!(game.letters().is_empty());
    assert_eq!(game.total_count(), 1);
    assert_eq!(game.correct_count(), 1);
    assert_eq!(game.combo(), 1);
    assert_eq!(game.score(), 10);
    assert_eq!(game.typed_count(target.char), 1);
    assert_eq!(game.error_count(target.char), 0);
    assert_eq!(game.screen_shake(), 2000);
    assert_eq!(game.flash_timer(), 200);
    assert_eq!(game.flash_color(), Color { r: 57, g: 255, b: 20, a: 80 });
    assert_eq!(game.flash_alpha(), 80);
    assert_eq!(game.accuracy(), 100);
    assert_eq!(game.particles().len(), 15);
    for p in game.particles().iter() {
        assert_eq!(p.life, 900);
        assert_eq!(p.max_life, 1000);
        assert!((3_000_000..8_000_000).contains(&p.size));
        assert_eq!(p.x - p.vx * 100, target.x);
        assert_eq!(p.y - (p.vy - 30_000) * 100, target.y + 100_000 * 100);
    }
}

#[test]
fn the_lowest_matching_letter_is_hit() {
    let mut game = playing();
    for _ in 0..3 {
        idle(&mut game, 2000);
    }
    assert_eq!(game.letters().len(), 3);
    let before = game.letters().clone();
    let typed = if before[0].char == before[1].char
        || before[0].char == before[2].char
    {
        before[0].char
    } else {
        before[1].char
    };
    let matching: Vec<usize> = (0..3).filter(|i| before[*i].char == typed).collect();
    assert!(matching.len() >= 2);
    let lowest = matching[0];
    for i in &matching {
        assert!(before[*i].y <= before[lowest].y);
    }
    game.handle_letter_typed(typed);
    let mut expected = before.clone();
    expected.remove(lowest);
    assert_eq!(game.letters(), &expected);
    assert_eq!(game.letters().len(), 2);
    assert_eq!(game.combo(), 1);
    assert_eq!(game.score(), 10);
    assert_eq!(game.particles().len(), 15);
    for p in game.particles().iter() {
        assert_eq!(p.x, before[lowest].x);
        assert_eq!(p.y, before[lowest].y);
        assert_eq!(p.life, 1000);
    }
    assert_eq!(game.typed_count(typed), 1);
}

#[test]
fn the_target_is_the_lowest_and_of_equals_the_first() {
    let letters = vec![at('F', 10), at('J', 90), at('F', 30), at('F', 30), at('J', 5)];
    assert_eq!(find_target(&letters, 'F'), Some(2));
    assert_eq!(find_target(&letters, 'J'), Some(1));
    assert_eq!(find_target(&letters, 'K'), None);
    assert_eq!(find_target(&Vec::new(), 'F'), None);
}

#[test]
fn a_letter_above_the_screen_can_be_hit() {
    let letters = vec![at('F', -50 * UNIT), at('F', -20 * UNIT)];
    assert_eq!(find_target(&letters, 'F'), Some(1));
    let letters = vec![at('F', i64::MIN)];
    assert_eq!(find_target(&letters, 'F'), Some(0));
}

#[test]
fn a_burst_has_fifteen_sparks() {
    let burst = burst_at(3 * UNIT, 4 * UNIT);
    assert_eq!(burst.len(), 15);
    for p in &burst {
        assert_eq!(p.x, 3 * UNIT);
        assert_eq!(p.y, 4 * UNIT);
        assert_eq!(p.life, 1000);
        assert!(p.vx.abs() < 300_000 && p.vy.abs() < 300_000);
    }
}

#[test]
fn the_thirtieth_hit_in_a_row_scores_forty() {
    let mut game = on_level(7);
    let mut score = 0;
    for hit in 1..=30u32 {
        step(&mut game, &Frame::idle(900, WIDTH, HEIGHT));
        assert_eq!(game.letters().len(), 1);
        let shown = game.letters()[0].char;
        game.handle_letter_typed(shown);
        let points = if hit < 10 {
            10
        } else if hit < 20 {
            20
        } else if hit < 30 {
            30
        } else {
            40
        };
        score += points;
        assert_eq!(game.combo(), hit);
        assert_eq!(game.score(), score);
    }
    assert_eq!(game.score(), 630);
    assert_eq!(game.correct_count(), 30);
    assert_eq!(game.total_count(), 30);
    assert_eq!(game.state(), GameState::Playing);
    game.handle_letter_typed('Z');
    assert_eq!(game.combo(), 0);
    assert_eq!(game.score(), 628);
    assert_eq!(game.accuracy(), 96);
}

#[test]
fn five_ground_misses_end_the_game() {
    let mut game = playing();
    let frame = Frame::idle(2000, WIDTH, 0);
    for lives in [4, 3, 2] {
        step(&mut game, &frame);
        assert_eq!(game.player().lives, lives);
        assert_eq!(game.state(), GameState::Playing);
        assert!(game.letters().is_empty());
    }
    assert_eq!(game.flash_timer(), 200);
    assert_eq!(game.flash_color(), Color { r: 255, g: 51, b: 102, a: 100 });
    step(&mut game, &frame);
    assert_eq!(game.player().lives, 1);
    assert_eq!(game.state(), GameState::Playing);
    step(&mut game, &frame);
    assert_eq!(game.player().lives, 0);
    assert_eq!(game.state(), GameState::GameOver);
    assert_eq!(game.level_timer(), 10_000);
}

#[test]
fn a_ground_miss_ends_the_combo() {
    let mut game = playing();
    idle(&mut game, 2000);
    let shown = game.letters()[0].char;
    game.handle_letter_typed(shown);
    assert_eq!(game.combo(), 1);
    step(&mut game, &Frame::idle(2000, WIDTH, 0));
    assert_eq!(game.combo(), 0);
    assert_eq!(game.player().lives, 4);
    assert_eq!(game.score(), 10);
}

#[test]
fn several_letters_can_be_lost_in_one_frame() {
    let mut game = playing();
    for _ in 0..3 {
        idle(&mut game, 2000);
    }
    assert_eq!(game.letters().len(), 3);
    step(&mut game, &Frame::idle(0, WIDTH, 0));
    assert!(game.letters().is_empty());
    assert_eq!(game.player().lives, 2);
    assert_eq!(game.state(), GameState::Playing);
}

#[test]
fn lives_can_fall_below_zero_in_one_frame() {
    let mut game = on_level(7);
    for _ in 0..3 {
        step(&mut game, &Frame::idle(900, WIDTH, 0));
    }
    assert_eq!(game.player().lives, 2);
    for _ in 0..3 {
        step(&mut game, &Frame::idle(900, WIDTH, HEIGHT));
    }
    assert_eq!(game.letters().len(), 3);
    step(&mut game, &Frame::idle(0, WIDTH, 0));
    assert_eq!(game.player().lives, -1);
    assert_eq!(game.state(), GameState::GameOver);
    assert!(game.letters().is_empty());
}

#[test]
fn the_level_is_complete_when_its_time_is_up() {
    let mut game = playing();
    let tall = 1_000_000;
    step(&mut game, &Frame::idle(29_999, WIDTH, tall));
    assert_eq!(game.state(), GameState::Playing);
    assert_eq!(game.time_remaining(), Some(1));
    step(&mut game, &Frame::idle(0, WIDTH, tall));
    assert_eq!(game.state(), GameState::Playing);
    step(&mut game, &Frame::idle(1, WIDTH, tall));
    assert_eq!(game.level_timer(), 30_000);
    assert_eq!(game.state(), GameState::LevelComplete);
    assert_eq!(game.time_remaining(), Some(0));
    assert_eq!(game.player().lives, 5);
}

#[test]
fn the_level_is_complete_also_when_the_clock_overshoots() {
    let mut game = playing();
    step(&mut game, &Frame::idle(u32::MAX, WIDTH, HEIGHT));
    assert_eq!(game.state(), GameState::LevelComplete);
    assert_eq!(game.level_timer(), u32::MAX as u64);
    assert_eq!(game.time_remaining(), Some(0));
    assert_eq!(game.player().lives, 4);
    assert!(game.letters().is_empty());
}

#[test]
fn a_lost_game_is_not_complete() {
    let mut game = playing();
    let frame = Frame::idle(2000, WIDTH, 0);
    for _ in 0..4 {
        step(&mut game, &frame);
    }
    step(&mut game, &Frame::idle(30_000, WIDTH, 0));
    assert_eq!(game.player().lives, 0);
    assert_eq!(game.state(), GameState::GameOver);
}

#[test]
fn the_end_screens_are_frozen() {
    let mut game = playing();
    idle(&mut game, 2000);
    step(&mut game, &Frame::idle(28_000, WIDTH, 1_000_000));
    assert_eq!(game.state(), GameState::LevelComplete);
    let letters = game.letters().clone();
    let timer = game.level_timer();
    let mut frame = Frame::idle(5000, WIDTH, 0);
    frame.keys = [true; 27];
    frame.retry = true;
    step(&mut game, &frame);
    assert_eq!(game.state(), GameState::LevelComplete);
    assert_eq!(game.letters(), &letters);
    assert_eq!(game.level_timer(), timer);
    assert_eq!(game.total_count(), 0);
}

#[test]
fn a_confirmation_starts_the_next_level() {
    let mut game = playing();
    idle(&mut game, 2000);
    let shown = game.letters()[0].char;
    game.handle_letter_typed(shown);
    game.handle_letter_typed('Z');
    step(&mut game, &Frame::idle(30_000, WIDTH, 0));
    assert_eq!(game.state(), GameState::LevelComplete);
    assert_eq!(game.player().lives, 4);
    confirm(&mut game);
    assert_eq!(game.state(), GameState::Playing);
    assert_eq!(game.current_level(), 1);
    assert_eq!(game.level().id, "1-2");
    assert_eq!(game.player().lives, 5);
    assert_eq!(game.score(), 0);
    assert_eq!(game.combo(), 0);
    assert_eq!(game.correct_count(), 0);
    assert_eq!(game.total_count(), 0);
    assert_eq!(game.level_timer(), 0);
    assert_eq!(game.spawn_timer(), 0);
    assert_eq!(game.flash_timer(), 0);
    assert_eq!(game.typed_count(shown), 0);
    assert_eq!(game.error_count('Z'), 0);
    assert!(game.letters().is_empty());
    assert!(game.particles().is_empty());
    assert_eq!(game.time_remaining(), Some(30_000));
}

#[test]
fn the_last_fixed_level_is_played_again() {
    let mut game = on_level(7);
    assert_eq!(game.level().id, "2-3");
    step(&mut game, &Frame::idle(60_000, WIDTH, 1_000_000));
    assert_eq!(game.state(), GameState::LevelComplete);
    confirm(&mut game);
    assert_eq!(game.state(), GameState::Playing);
    assert_eq!(game.current_level(), 7);
    assert_eq!(game.level().id, "2-3");
}

#[test]
fn the_menu_key_leaves_the_end_screen() {
    let mut game = playing();
    step(&mut game, &Frame::idle(30_000, WIDTH, 1_000_000));
    assert_eq!(game.state(), GameState::LevelComplete);
    let mut frame = Frame::idle(0, WIDTH, HEIGHT);
    frame.menu = true;
    step(&mut game, &frame);
    assert_eq!(game.state(), GameState::Menu);
    assert_eq!(game.current_level(), 0);
    confirm(&mut game);
    assert_eq!(game.state(), GameState::Playing);
    assert_eq!(game.current_level(), 0);
}

#[test]
fn the_menu_key_clears_the_screen_after_a_level() {
    let mut game = playing();
    idle(&mut game, 2000);
    idle(&mut game, 2000);
    step(&mut game, &Frame::idle(26_000, WIDTH, 1_000_000));
    assert_eq!(game.state(), GameState::LevelComplete);
    assert_eq!(game.letters().len(), 3);
    let lowest = game.letters()[0].char;
    game.handle_letter_typed(lowest);
    assert_eq!(game.letters().len(), 2);
    assert_eq!(game.particles().len(), 15);
    assert_eq!(game.score(), 10);
    let timer = game.level_timer();
    let mut frame = Frame::idle(0, WIDTH, HEIGHT);
    frame.menu = true;
    step(&mut game, &frame);
    assert_eq!(game.state(), GameState::Menu);
    assert!(game.letters().is_empty());
    assert!(game.particles().is_empty());
    assert_eq!(game.current_level(), 0);
    assert_eq!(game.level().id, "1-1");
    assert_eq!(game.score(), 10);
    assert_eq!(game.combo(), 1);
    assert_eq!(game.typed_count(lowest), 1);
    assert_eq!(game.player().lives, 5);
    assert_eq!(game.level_timer(), timer);
}

#[test]
fn the_menu_key_clears_the_screen_after_a_lost_game() {
    let mut game = on_level(1);
    for _ in 0..4 {
        step(&mut game, &Frame::idle(1800, WIDTH, 0));
    }
    assert_eq!(game.player().lives, 1);
    for _ in 0..3 {
        step(&mut game, &Frame::idle(1800, WIDTH, HEIGHT));
    }
    assert_eq!(game.letters().len(), 3);
    let lowest = game.letters()[0].char;
    game.handle_letter_typed(lowest);
    assert_eq!(game.letters().len(), 2);
    assert_eq!(game.letters()[0].y, -50 * UNIT + 2 * 198 * UNIT);
    assert_eq!(game.letters()[1].y, -50 * UNIT + 198 * UNIT);
    step(&mut game, &Frame::idle(0, WIDTH, 200));
    assert_eq!(game.state(), GameState::GameOver);
    assert_eq!(game.player().lives, 0);
    assert_eq!(game.letters().len(), 1);
    assert_eq!(game.particles().len(), 15);
    let timer = game.level_timer();
    let mut frame = Frame::idle(0, WIDTH, HEIGHT);
    frame.menu = true;
    step(&mut game, &frame);
    assert_eq!(game.state(), GameState::Menu);
    assert!(game.letters().is_empty());
    assert!(game.particles().is_empty());
    assert_eq!(game.current_level(), 1);
    assert_eq!(game.level().id, "1-2");
    assert_eq!(game.player().lives, 0);
    assert_eq!(game.score(), 10);
    assert_eq!(game.level_timer(), timer);
    idle(&mut game, 5000);
    assert_eq!(game.state(), GameState::Menu);
    assert!(game.letters().is_empty());
    assert!(game.particles().is_empty());
}

#[test]
fn nothing_is_on_screen_in_the_menu() {
    let mut game = Game::new();
    assert!(game.letters().is_empty() && game.particles().is_empty());
    game.handle_letter_typed('F');
    idle(&mut game, 5000);
    assert_eq!(game.state(), GameState::Menu);
    assert!(game.letters().is_empty() && game.particles().is_empty());
}

#[test]
fn a_confirmation_wins_over_the_menu_key() {
    let mut game = playing();
    step(&mut game, &Frame::idle(30_000, WIDTH, 1_000_000));
    let mut frame = Frame::idle(0, WIDTH, HEIGHT);
    frame.menu = true;
    frame.confirm = true;
    step(&mut game, &frame);
    assert_eq!(game.state(), GameState::Playing);
    assert_eq!(game.current_level(), 1);
}

fn lost_on_level_one() -> Game {
    let mut game = on_level(1);
    let frame = Frame::idle(1800, WIDTH, 0);
    for _ in 0..5 {
        step(&mut game, &frame);
    }
    assert_eq!(game.state(), GameState::GameOver);
    game
}

#[test]
fn a_retry_starts_the_same_level_again() {
    let mut game = lost_on_level_one();
    let mut frame = Frame::idle(7, WIDTH, HEIGHT);
    frame.keys = [true; 27];
    step(&mut game, &frame);
    assert_eq!(game.state(), GameState::GameOver);
    assert_eq!(game.total_count(), 0);
    let mut frame = Frame::idle(0, WIDTH, HEIGHT);
    frame.retry = true;
    frame.menu = true;
    step(&mut game, &frame);
    assert_eq!(game.state(), GameState::Playing);
    assert_eq!(game.current_level(), 1);
    assert_eq!(game.level().id, "1-2");
    assert_eq!(game.player().lives, 5);
    assert_eq!(game.level_timer(), 0);
    assert_eq!(game.flash_timer(), 0);
}

#[test]
fn a_confirmation_restarts_a_lost_game_too() {
    let mut game = lost_on_level_one();
    confirm(&mut game);
    assert_eq!(game.state(), GameState::Playing);
    assert_eq!(game.current_level(), 1);
    assert_eq!(game.player().lives, 5);
}

#[test]
fn the_menu_key_leaves_a_lost_game() {
    let mut game = lost_on_level_one();
    let mut frame = Frame::idle(0, WIDTH, HEIGHT);
    frame.menu = true;
    step(&mut game, &frame);
    assert_eq!(game.state(), GameState::Menu);
    assert_eq!(game.current_level(), 1);
    assert_eq!(game.player().lives, 0);
}

#[test]
fn sparks_are_gone_a_second_after_the_hit() {
    let mut game = playing();
    idle(&mut game, 2000);
    let shown = game.letters()[0].char;
    game.handle_letter_typed(shown);
    assert_eq!(game.particles().len(), 15);
    idle(&mut game, 600);
    idle(&mut game, 399);
    assert_eq!(game.particles().len(), 15);
    assert!(game.particles().iter().all(|p| p.life == 1));
    idle(&mut game, 1);
    assert!(game.particles().is_empty());
}

#[test]
fn shake_and_flash_fade() {
    let mut game = playing();
    idle(&mut game, 2000);
    let shown = game.letters()[0].char;
    game.handle_letter_typed(shown);
    assert_eq!(game.screen_shake(), 2000);
    assert_eq!(game.flash_timer(), 200);
    assert_eq!(game.flash_alpha(), 80);
    idle(&mut game, 10);
    assert_eq!(game.screen_shake(), 1950);
    assert_eq!(game.flash_timer(), 170);
    assert_eq!(game.flash_alpha(), 80);
    idle(&mut game, 40);
    assert_eq!(game.screen_shake(), 1750);
    assert_eq!(game.flash_timer(), 50);
    assert_eq!(game.flash_alpha(), 63);
    idle(&mut game, 16);
    assert_eq!(game.flash_timer(), 2);
    assert_eq!(game.flash_alpha(), 2);
    idle(&mut game, 1);
    assert_eq!(game.flash_timer(), 0);
    assert_eq!(game.flash_alpha(), 0);
    idle(&mut game, 333);
    assert_eq!(game.screen_shake(), 0);
    assert_eq!(game.flash_timer(), 0);
}

#[test]
fn keys_are_resolved_in_the_order_of_the_table() {
    let mut game = playing();
    idle(&mut game, 2000);
    let shown = game.letters()[0].char;
    let mut frame = Frame::idle(0, WIDTH, HEIGHT);
    frame.press('A');
    frame.press(shown);
    frame.press('Z');
    step(&mut game, &frame);
    assert_eq!(game.total_count(), 3);
    assert_eq!(game.correct_count(), 1);
    assert_eq!(game.error_count('A'), 1);
    assert_eq!(game.error_count('Z'), 1);
    assert_eq!(game.typed_count(shown), 1);
    assert_eq!(game.combo(), 0);
    assert_eq!(game.score(), 8);
    assert_eq!(game.accuracy(), 33);
    assert_eq!(game.flash_color(), Color { r: 255, g: 51, b: 102, a: 150 });
}

#[test]
fn typing_works_in_every_phase() {
    let mut game = Game::new();
    game.handle_letter_typed('F');
    assert_eq!(game.state(), GameState::Menu);
    assert_eq!(game.total_count(), 1);
    assert_eq!(game.error_count('F'), 1);
}

#[test]
fn seven_of_ten_attempts() {
    let mut game = on_level(7);
    for _ in 0..7 {
        step(&mut game, &Frame::idle(900, WIDTH, HEIGHT));
        let shown = game.letters()[0].char;
        game.handle_letter_typed(shown);
    }
    for _ in 0..3 {
        game.handle_letter_typed('Z');
    }
    assert_eq!(game.correct_count(), 7);
    assert_eq!(game.total_count(), 10);
    assert_eq!(game.accuracy(), 70);
}
