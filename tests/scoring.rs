use bowling_game::{Frame, FrameType, Game};

fn roll_many(g: &mut Game, n: usize, pins: usize) {
    for _ in 0..n {
        g.roll(pins);
    }
}

fn roll_spare(g: &mut Game) {
    g.roll(5);
    g.roll(5);
}

fn roll_strike(g: &mut Game) {
    g.roll(10);
}

fn game_of(rolls: &[usize]) -> Game {
    let mut g = Game::new();
    for &p in rolls {
        g.roll(p);
    }
    g
}

#[test]
fn test_gutter_game() {
    let mut g = Game::new();
    roll_many(&mut g, 20, 0);
    assert_eq!(g.score(), 0);
}

#[test]
fn test_all_ones() {
    let mut g = Game::new();
    roll_many(&mut g, 20, 1);
    assert_eq!(g.score(), 20);
}

#[test]
fn test_one_spare() {
    let mut g = Game::new();

    roll_spare(&mut g);

    g.roll(3);

    roll_many(&mut g, 17, 0);
    assert_eq!(g.score(), 16);
}

#[test]
fn test_one_strike() {
    let mut g = Game::new();

    roll_strike(&mut g);

    g.roll(3);
    g.roll(4);

    roll_many(&mut g, 16, 0);
    assert_eq!(g.score(), 24);
}

#[test]
fn test_perfect_game() {
    let mut g = Game::new();

    roll_many(&mut g, 12, 10);

    assert_eq!(g.score(), 300);
}

#[test]
fn score_twice_gives_same_value() {
    let g = game_of(&[10, 7, 3, 9, 0, 10, 0, 8, 8, 2, 0, 6, 10, 10, 10, 8, 1]);
    let first = g.score();
    let second = g.score();
    assert_eq!(first, 167);
    assert_eq!(first, second);
}

#[test]
fn mixed_game_score_and_frame_scores() {
    let g = game_of(&[10, 7, 3, 9, 0, 10, 0, 8, 8, 2, 0, 6, 10, 10, 10, 8, 1]);
    let scores: Vec<usize> = g.frames().iter().map(|f| f.score()).collect();
    assert_eq!(scores, vec![20, 19, 9, 18, 8, 10, 6, 30, 28, 19]);
    assert!(scores.iter().all(|&s| s <= 30));
    assert_eq!(scores.iter().sum::<usize>(), g.score());
}

#[test]
fn tenth_frame_spare_takes_its_bonus_roll() {
    let mut g = Game::new();
    roll_many(&mut g, 18, 0);
    g.roll(4);
    g.roll(6);
    g.roll(7);
    assert_eq!(g.score(), 17);
}

#[test]
fn tenth_frame_strike_takes_two_bonus_rolls() {
    let mut g = Game::new();
    roll_many(&mut g, 18, 0);
    g.roll(10);
    g.roll(10);
    g.roll(3);
    assert_eq!(g.score(), 23);
}

#[test]
fn all_spares_with_five_bonus() {
    let mut g = Game::new();
    roll_many(&mut g, 21, 5);
    assert_eq!(g.score(), 150);
}

#[test]
fn all_nines_and_misses() {
    let mut g = Game::new();
    for _ in 0..10 {
        g.roll(9);
        g.roll(0);
    }
    assert_eq!(g.score(), 90);
}

#[test]
fn frames_start_where_previous_ends() {
    let g = game_of(&[10, 5, 5, 3, 4, 10, 10, 0, 0, 1, 1, 2, 2, 3, 3, 10, 10, 10]);
    let fs = g.frames();
    assert_eq!(fs.len(), 10);
    let firsts: Vec<usize> = fs.iter().map(|f| f.roll(0)).collect();
    assert_eq!(firsts, vec![10, 5, 3, 10, 10, 0, 1, 2, 3, 10]);
}

#[test]
fn frame_types_are_told_apart() {
    let g = game_of(&[10, 5, 5, 3, 4, 0, 0, 0, 0, 0, 0, 0, 0, 0, 0, 0, 0, 0, 0]);
    let first = Frame::new(&g);
    assert!(matches!(first.frame_type(), FrameType::Strike));
    assert_eq!(first.score(), 20);
    let second = first.next();
    assert!(matches!(second.frame_type(), FrameType::Spare));
    assert_eq!(second.score(), 13);
    let third = second.next();
    assert!(matches!(third.frame_type(), FrameType::Points));
    assert_eq!(third.score(), 7);
    assert_eq!(third.roll(1), 4);
}

#[test]
fn gutter_then_ten_is_spare_not_strike() {
    let g = game_of(&[0, 10, 6, 0]);
    let f = Frame::new(&g);
    assert!(matches!(f.frame_type(), FrameType::Spare));
    assert_eq!(f.score(), 16);
    assert_eq!(f.next().roll(0), 6);
}

#[test]
fn roll_appends_in_order() {
    let mut g = Game::new();
    g.roll(3);
    g.roll(10);
    g.roll(0);
    assert_eq!(g.pins_at(0), 3);
    assert_eq!(g.pins_at(1), 10);
    assert_eq!(g.pins_at(2), 0);
}
