use snake_game::game_logic::{Game, Vector};
use snake_game::screen::{GameManager, InputState, Screen};

fn no_input() -> InputState {
    InputState { up: false, left: false, down: false, right: false, start: false, confirm: false }
}

fn start_input() -> InputState {
    InputState { start: true, ..no_input() }
}

fn confirm_input() -> InputState {
    InputState { confirm: true, ..no_input() }
}

fn up_input() -> InputState {
    InputState { up: true, ..no_input() }
}

#[test]
fn fresh_manager_sits_at_menu() {
    let m = GameManager::new();
    assert!(matches!(m.current, Screen::Menu));
    assert_eq!(m.high_score, 0);
    assert_eq!(m.last_score, 0);
}

#[test]
fn menu_without_start_stays_menu() {
    let mut m = GameManager::new();
    m.tick(no_input(), 40, 30);
    assert!(matches!(m.current, Screen::Menu));
}

#[test]
fn start_enters_playing_with_fresh_game() {
    let mut m = GameManager::new();
    m.tick(start_input(), 40, 30);
    match &m.current {
        Screen::Playing(g) => {
            assert_eq!(g.snake, vec![Vector::new(20, 15)]);
            assert_eq!(g.direction, Vector::new(1, 0));
            assert_eq!(g.score, 0);
            assert_eq!(g.width, 40);
            assert_eq!(g.height, 30);
        }
        _ => panic!("expected the playing screen"),
    }
}

#[test]
fn playing_tick_steps_the_game() {
    let game = Game {
        direction: Vector::new(1, 0),
        food: Vector::new(0, 0),
        snake: vec![Vector::new(5, 5), Vector::new(4, 5)],
        width: 10,
        height: 10,
        score: 0,
    };
    let mut m = GameManager { current: Screen::Playing(game), high_score: 2, last_score: 1 };
    m.tick(no_input(), 10, 10);
    match &m.current {
        Screen::Playing(g) => {
            assert_eq!(g.snake, vec![Vector::new(6, 5), Vector::new(5, 5)]);
        }
        _ => panic!("expected play to go on"),
    }
    assert_eq!(m.high_score, 2);
    assert_eq!(m.last_score, 1);
}

#[test]
fn collision_records_score_and_raises_high_score() {
    let game = Game {
        direction: Vector::new(1, 0),
        food: Vector::new(0, 0),
        snake: vec![Vector::new(9, 5)],
        width: 10,
        height: 10,
        score: 7,
    };
    let mut m = GameManager { current: Screen::Playing(game), high_score: 3, last_score: 3 };
    m.tick(no_input(), 10, 10);
    assert!(matches!(m.current, Screen::GameOver));
    assert_eq!(m.last_score, 7);
    assert_eq!(m.high_score, 7);
}

#[test]
fn collision_below_high_score_keeps_it() {
    let game = Game {
        direction: Vector::new(0, -1),
        food: Vector::new(3, 3),
        snake: vec![Vector::new(4, 0)],
        width: 10,
        height: 10,
        score: 2,
    };
    let mut m = GameManager { current: Screen::Playing(game), high_score: 9, last_score: 5 };
    m.tick(no_input(), 10, 10);
    assert!(matches!(m.current, Screen::GameOver));
    assert_eq!(m.last_score, 2);
    assert_eq!(m.high_score, 9);
}

#[test]
fn game_over_confirm_returns_to_menu() {
    let mut m = GameManager { current: Screen::GameOver, high_score: 4, last_score: 4 };
    m.tick(confirm_input(), 40, 30);
    assert!(matches!(m.current, Screen::Menu));
    assert_eq!(m.high_score, 4);
    assert_eq!(m.last_score, 4);
}

#[test]
fn game_over_without_confirm_stays() {
    let mut m = GameManager { current: Screen::GameOver, high_score: 4, last_score: 4 };
    m.tick(no_input(), 40, 30);
    assert!(matches!(m.current, Screen::GameOver));
}

#[test]
fn high_score_screen_confirm_returns_to_menu() {
    let mut m = GameManager { current: Screen::HighScore, high_score: 6, last_score: 1 };
    m.tick(confirm_input(), 40, 30);
    assert!(matches!(m.current, Screen::Menu));
    assert_eq!(m.high_score, 6);
}

#[test]
fn high_score_never_decreases_across_runs() {
    let mut m = GameManager::new();
    let mut best = m.high_score;
    for _ in 0..3 {
        m.tick(start_input(), 40, 30);
        assert!(matches!(m.current, Screen::Playing(_)));
        // Steer up until the snake leaves the board; from (20, 15) that
        // takes at most 16 ticks, eaten food notwithstanding.
        let mut ticks = 0;
        while matches!(m.current, Screen::Playing(_)) {
            m.tick(up_input(), 40, 30);
            ticks += 1;
            assert!(ticks <= 16, "the run should have hit the top wall");
        }
        assert!(matches!(m.current, Screen::GameOver));
        assert!(m.high_score >= best);
        best = m.high_score;
        m.tick(confirm_input(), 40, 30);
        assert!(matches!(m.current, Screen::Menu));
        assert!(m.high_score >= best);
    }
}
