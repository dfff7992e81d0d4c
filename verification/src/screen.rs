//! The screen controller: a four-state machine over menu, play, game-over
//! and high-score display, holding the live simulation only while playing.

use vstd::prelude::*;

verus! {

use crate::game_logic::Game;
use crate::game_logic::Vector;

/// The screen being shown. The live simulation exists exactly while the
/// `Playing` screen is up; the other screens carry no simulation, so no
/// state can pair a menu with a leftover game.
///
/// `HighScore` has no inbound transition in the controller itself: it is a
/// display mode an outside driver may select, and `tick` only leaves it.
pub enum Screen {
    Menu,
    Playing(Game),
    GameOver,
    HighScore,
}

/// One tick's worth of logical input: which directional keys are held, and
/// whether the start and confirm keys were pressed this tick. The mapping
/// from physical keys is the windowing layer's business.
pub struct InputState {
    pub up: bool,
    pub left: bool,
    pub down: bool,
    pub right: bool,
    pub start: bool,
    pub confirm: bool,
}

/// The process-lifetime game state: the current screen (with the live
/// simulation while playing), the best score seen so far, and the score of
/// the most recently ended run.
pub struct GameManager {
    pub current: Screen,
    pub high_score: i16,
    pub last_score: i16,
}

impl GameManager {
    /// Well-formedness: while playing, the simulation is well-formed and its
    /// head either lies on the board or still sits on the fixed start cell
    /// (a fresh game on a board smaller than the start cell has not stepped
    /// yet). Either way the next step's coordinates stay in range.
    pub open spec fn wf(self) -> bool {
        self.current matches Screen::Playing(g) ==> (g.wf() && (g.in_bounds(g.head()) || (
        g.head().x == 20 && g.head().y == 15)))
    }

    /// A fresh controller: at the menu, both scores zero.
    pub fn new() -> (m: GameManager)
        ensures
            m.current is Menu,
            m.high_score == 0,
            m.last_score == 0,
            m.wf(),
    {
        GameManager { current: Screen::Menu, high_score: 0, last_score: 0 }
    }

    /// Runs one tick of the state machine. `width` and `height` are the
    /// board bounds a fresh simulation is created with.
    ///
    /// - At the menu, a start press creates a fresh simulation and enters
    ///   `Playing`; otherwise nothing changes.
    /// - While playing, the input is forwarded, the simulation steps once,
    ///   and collision is checked: on collision the run's score is recorded,
    ///   the high score raised to it if it is greater, the simulation
    ///   discarded and the screen set to `GameOver`; otherwise play goes on.
    /// - At the game-over and high-score screens, a confirm press returns to
    ///   the menu; otherwise nothing changes.
    ///
    /// The high score never decreases, on any tick from any state.
    pub fn tick(&mut self, input: InputState, width: i16, height: i16)
        requires
            old(self).wf(),
            old(self).current is Menu ==> 0 < width && 0 < height,
            old(self).current matches Screen::Playing(g) ==> g.score < 0x7fff,
        ensures
            final(self).wf(),
            final(self).high_score >= old(self).high_score,
            old(self).current is Menu ==> {
                &&& final(self).high_score == old(self).high_score
                &&& final(self).last_score == old(self).last_score
                &&& input.start ==> {
                    &&& final(self).current matches Screen::Playing(g)
                    &&& g.width == width
                    &&& g.height == height
                    &&& g.snake@ == seq![(Vector { x: 20, y: 15 })]
                    &&& g.direction == (Vector { x: 1, y: 0 })
                    &&& g.score == 0
                    &&& g.in_bounds(g.food)
                }
                &&& !input.start ==> final(self).current is Menu
            },
            old(self).current matches Screen::Playing(g) ==> {
                let g1 = g.after_input(input.up, input.left, input.down, input.right);
                &&& g1.step_collides() ==> {
                    &&& final(self).current is GameOver
                    &&& final(self).last_score == g1.stepped_score()
                    &&& final(self).high_score == (if g1.stepped_score() > old(self).high_score {
                        g1.stepped_score()
                    } else {
                        old(self).high_score as int
                    })
                }
                &&& !g1.step_collides() ==> {
                    &&& final(self).current matches Screen::Playing(g2) && g1.steps_to(g2)
                    &&& final(self).last_score == old(self).last_score
                    &&& final(self).high_score == old(self).high_score
                }
            },
            old(self).current is GameOver ==> {
                &&& final(self).high_score == old(self).high_score
                &&& final(self).last_score == old(self).last_score
                &&& final(self).current == (if input.confirm {
                    Screen::Menu
                } else {
                    Screen::GameOver
                })
            },
            old(self).current is HighScore ==> {
                &&& final(self).high_score == old(self).high_score
                &&& final(self).last_score == old(self).last_score
                &&& final(self).current == (if input.confirm {
                    Screen::Menu
                } else {
                    Screen::HighScore
                })
            },
    {
        let mut cur = Screen::Menu;
        core::mem::swap(&mut cur, &mut self.current);
        match cur {
            Screen::Menu => {
                if input.start {
                    self.current = Screen::Playing(Game::new(width, height));
                } else {
                    self.current = Screen::Menu;
                }
            },
            Screen::Playing(mut game) => {
                game.input(input.up, input.left, input.down, input.right);
                game.move_snake();
                if game.collision_detection() {
                    self.last_score = game.score;
                    if self.last_score > self.high_score {
                        self.high_score = self.last_score;
                    }
                    self.current = Screen::GameOver;
                } else {
                    self.current = Screen::Playing(game);
                }
            },
            Screen::GameOver => {
                if input.confirm {
                    self.current = Screen::Menu;
                } else {
                    self.current = Screen::GameOver;
                }
            },
            Screen::HighScore => {
                if input.confirm {
                    self.current = Screen::Menu;
                } else {
                    self.current = Screen::HighScore;
                }
            },
        }
    }
}

} // verus!
