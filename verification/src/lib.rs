//! A verified snake game core: the grid simulation (movement, food
//! placement, collision detection, score tracking) and the screen state
//! machine around it. Windowing, key codes and rendering stay outside;
//! the core takes logical input values and exposes its state as plain data.

pub mod game_logic;
pub mod screen;
